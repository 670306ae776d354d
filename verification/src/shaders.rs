//! The catalog of pipeline kernels: each is registered by name with its
//! binding-type signature and addressed afterwards by an opaque id. The
//! kernel bodies themselves come from the embedder's source supplier.

use crate::engine::ShaderId;
use vstd::prelude::*;

verus! {

/// The binding type of one kernel resource slot.
#[derive(Clone, Copy, PartialEq, Eq, Structural, Debug)]
pub enum BindType {
    /// A uniform buffer.
    Uniform,
    /// A read-only storage buffer.
    BufReadOnly,
    /// A read-write storage buffer.
    Buffer,
    /// A read-only image.
    ImageRead,
    /// A read-write image.
    Image,
}

/// One registered kernel: its name, for the embedder's source supplier,
/// and its binding signature.
#[derive(Clone, Debug)]
pub struct ShaderEntry {
    /// The kernel's name.
    pub name: &'static str,
    /// The binding types, in binding order.
    pub bindings: Vec<BindType>,
}

/// The ordered catalog of registered kernels; a `ShaderId` is an index
/// into it.
#[derive(Clone, Debug)]
pub struct ShaderCatalog {
    /// The registered kernels.
    pub entries: Vec<ShaderEntry>,
}

impl ShaderCatalog {
    /// An empty catalog.
    pub fn new() -> (r: ShaderCatalog)
        ensures
            r.entries@.len() == 0,
    {
        ShaderCatalog { entries: Vec::new() }
    }

    /// Registers a kernel and returns its id: the index it was given.
    pub fn add_shader(&mut self, name: &'static str, bindings: Vec<BindType>) -> (r: ShaderId)
        ensures
            r.0 == old(self).entries@.len(),
            final(self).entries@.len() == old(self).entries@.len() + 1,
            final(self).entries@ == old(self).entries@.push(ShaderEntry { name, bindings }),
    {
        let id = ShaderId(self.entries.len());
        self.entries.push(ShaderEntry { name, bindings });
        id
    }
}

/// Ids of every kernel of the full pipeline.
#[derive(Clone, Copy, PartialEq, Eq, Structural, Debug)]
pub struct FullShaders {
    /// Path-tag reduce.
    pub pathtag_reduce: ShaderId,
    /// Second-level path-tag reduce.
    pub pathtag_reduce2: ShaderId,
    /// First level of the large path-tag scan.
    pub pathtag_scan1: ShaderId,
    /// Path-tag scan, small variant.
    pub pathtag_scan: ShaderId,
    /// Path-tag scan, large variant.
    pub pathtag_scan_large: ShaderId,
    /// Bounding-box clear.
    pub bbox_clear: ShaderId,
    /// Per-segment path expansion.
    pub pathseg: ShaderId,
    /// Draw-tag reduce.
    pub draw_reduce: ShaderId,
    /// Draw-leaf expansion.
    pub draw_leaf: ShaderId,
    /// Clip reduce.
    pub clip_reduce: ShaderId,
    /// Clip leaf.
    pub clip_leaf: ShaderId,
    /// Path flattening.
    pub flatten: ShaderId,
    /// Pattern indirect-count setup.
    pub pattern_setup: ShaderId,
    /// Pattern rewrite pass.
    pub pattern: ShaderId,
    /// Particle expansion.
    pub particles: ShaderId,
    /// Binning.
    pub binning: ShaderId,
    /// Tile allocation.
    pub tile_alloc: ShaderId,
    /// Per-path segment counting.
    pub path_coarse_counter: ShaderId,
    /// Path-coarse rasterization.
    pub path_coarse: ShaderId,
    /// Backdrop propagation.
    pub backdrop: ShaderId,
    /// Coarse segment counting.
    pub coarse_counter: ShaderId,
    /// Coarse compositing setup.
    pub coarse_setup: ShaderId,
    /// Coarse compositing setup, debug variant.
    pub coarse_setup_debug: ShaderId,
    /// Coarse compositing.
    pub coarse: ShaderId,
    /// Fine rasterization setup.
    pub fine_setup: ShaderId,
    /// Fine rasterization.
    pub fine: ShaderId,
    /// Composition.
    pub compose: ShaderId,
    /// Coarse compositing over whole command lists.
    pub coarse_original: ShaderId,
    /// Fine setup over whole command lists.
    pub fine_setup_original: ShaderId,
    /// Fine rasterization over whole command lists.
    pub fine_original: ShaderId,
    /// Composition over whole command lists.
    pub compose_original: ShaderId,
}

/// Registers every kernel of the full pipeline, in a fixed order, and
/// returns their ids: thirty-one consecutive indices starting at the
/// catalog's prior length, so all ids are distinct. The contract pins
/// each registered entry's kernel name and binding-type signature.
pub fn full_shaders(catalog: &mut ShaderCatalog) -> (r: FullShaders)
    ensures
        final(catalog).entries@.len() == old(catalog).entries@.len() + 31,
        final(catalog).entries@[old(catalog).entries@.len() as int + 0].name == "pathtag_reduce",
        final(catalog).entries@[old(catalog).entries@.len() as int + 0].bindings@ == seq![BindType::Uniform, BindType::BufReadOnly, BindType::Buffer],
        final(catalog).entries@[old(catalog).entries@.len() as int + 1].name == "pathtag_reduce2",
        final(catalog).entries@[old(catalog).entries@.len() as int + 1].bindings@ == seq![BindType::BufReadOnly, BindType::Buffer],
        final(catalog).entries@[old(catalog).entries@.len() as int + 2].name == "pathtag_scan1",
        final(catalog).entries@[old(catalog).entries@.len() as int + 2].bindings@ == seq![BindType::BufReadOnly, BindType::BufReadOnly, BindType::Buffer],
        final(catalog).entries@[old(catalog).entries@.len() as int + 3].name == "pathtag_scan",
        final(catalog).entries@[old(catalog).entries@.len() as int + 3].bindings@ == seq![BindType::Uniform, BindType::BufReadOnly, BindType::BufReadOnly, BindType::Buffer],
        final(catalog).entries@[old(catalog).entries@.len() as int + 4].name == "pathtag_scan",
        final(catalog).entries@[old(catalog).entries@.len() as int + 4].bindings@ == seq![BindType::Uniform, BindType::BufReadOnly, BindType::BufReadOnly, BindType::Buffer],
        final(catalog).entries@[old(catalog).entries@.len() as int + 5].name == "bbox_clear",
        final(catalog).entries@[old(catalog).entries@.len() as int + 5].bindings@ == seq![BindType::Uniform, BindType::Buffer],
        final(catalog).entries@[old(catalog).entries@.len() as int + 6].name == "pathseg",
        final(catalog).entries@[old(catalog).entries@.len() as int + 6].bindings@ == seq![BindType::Uniform, BindType::Uniform, BindType::BufReadOnly, BindType::BufReadOnly, BindType::Buffer, BindType::Buffer, BindType::Buffer],
        final(catalog).entries@[old(catalog).entries@.len() as int + 7].name == "draw_reduce",
        final(catalog).entries@[old(catalog).entries@.len() as int + 7].bindings@ == seq![BindType::Uniform, BindType::BufReadOnly, BindType::Buffer],
        final(catalog).entries@[old(catalog).entries@.len() as int + 8].name == "draw_leaf",
        final(catalog).entries@[old(catalog).entries@.len() as int + 8].bindings@ == seq![BindType::Uniform, BindType::Uniform, BindType::BufReadOnly, BindType::BufReadOnly, BindType::BufReadOnly, BindType::Buffer, BindType::Buffer, BindType::Buffer, BindType::Buffer],
        final(catalog).entries@[old(catalog).entries@.len() as int + 9].name == "clip_reduce",
        final(catalog).entries@[old(catalog).entries@.len() as int + 9].bindings@ == seq![BindType::BufReadOnly, BindType::BufReadOnly, BindType::Buffer, BindType::Buffer],
        final(catalog).entries@[old(catalog).entries@.len() as int + 10].name == "clip_leaf",
        final(catalog).entries@[old(catalog).entries@.len() as int + 10].bindings@ == seq![BindType::Uniform, BindType::BufReadOnly, BindType::BufReadOnly, BindType::BufReadOnly, BindType::BufReadOnly, BindType::Buffer, BindType::Buffer],
        final(catalog).entries@[old(catalog).entries@.len() as int + 11].name == "flatten",
        final(catalog).entries@[old(catalog).entries@.len() as int + 11].bindings@ == seq![BindType::Uniform, BindType::Uniform, BindType::BufReadOnly, BindType::BufReadOnly, BindType::Buffer, BindType::Buffer, BindType::Buffer, BindType::Buffer, BindType::Buffer, BindType::BufReadOnly],
        final(catalog).entries@[old(catalog).entries@.len() as int + 12].name == "pattern_setup",
        final(catalog).entries@[old(catalog).entries@.len() as int + 12].bindings@ == seq![BindType::Uniform, BindType::Buffer, BindType::Buffer],
        final(catalog).entries@[old(catalog).entries@.len() as int + 13].name == "pattern",
        final(catalog).entries@[old(catalog).entries@.len() as int + 13].bindings@ == seq![BindType::Uniform, BindType::Uniform, BindType::BufReadOnly, BindType::BufReadOnly, BindType::BufReadOnly, BindType::Buffer, BindType::Buffer],
        final(catalog).entries@[old(catalog).entries@.len() as int + 14].name == "particles",
        final(catalog).entries@[old(catalog).entries@.len() as int + 14].bindings@ == seq![BindType::Uniform, BindType::Uniform, BindType::BufReadOnly, BindType::BufReadOnly, BindType::BufReadOnly, BindType::Buffer, BindType::Buffer, BindType::BufReadOnly],
        final(catalog).entries@[old(catalog).entries@.len() as int + 15].name == "binning",
        final(catalog).entries@[old(catalog).entries@.len() as int + 15].bindings@ == seq![BindType::Uniform, BindType::BufReadOnly, BindType::BufReadOnly, BindType::BufReadOnly, BindType::Buffer, BindType::Buffer, BindType::Buffer, BindType::Buffer],
        final(catalog).entries@[old(catalog).entries@.len() as int + 16].name == "tile_alloc",
        final(catalog).entries@[old(catalog).entries@.len() as int + 16].bindings@ == seq![BindType::Uniform, BindType::BufReadOnly, BindType::BufReadOnly, BindType::Buffer, BindType::Buffer, BindType::Buffer],
        final(catalog).entries@[old(catalog).entries@.len() as int + 17].name == "path_coarse_counter",
        final(catalog).entries@[old(catalog).entries@.len() as int + 17].bindings@ == seq![BindType::Buffer, BindType::Buffer],
        final(catalog).entries@[old(catalog).entries@.len() as int + 18].name == "path_coarse_full",
        final(catalog).entries@[old(catalog).entries@.len() as int + 18].bindings@ == seq![BindType::Uniform, BindType::Uniform, BindType::BufReadOnly, BindType::BufReadOnly, BindType::BufReadOnly, BindType::Buffer, BindType::Buffer, BindType::Buffer, BindType::BufReadOnly],
        final(catalog).entries@[old(catalog).entries@.len() as int + 19].name == "backdrop_dyn",
        final(catalog).entries@[old(catalog).entries@.len() as int + 19].bindings@ == seq![BindType::Uniform, BindType::BufReadOnly, BindType::Buffer],
        final(catalog).entries@[old(catalog).entries@.len() as int + 20].name == "coarse_counter",
        final(catalog).entries@[old(catalog).entries@.len() as int + 20].bindings@ == seq![BindType::Uniform, BindType::BufReadOnly, BindType::BufReadOnly, BindType::BufReadOnly, BindType::BufReadOnly, BindType::BufReadOnly, BindType::BufReadOnly, BindType::Buffer],
        final(catalog).entries@[old(catalog).entries@.len() as int + 21].name == "coarse_setup",
        final(catalog).entries@[old(catalog).entries@.len() as int + 21].bindings@ == seq![BindType::Uniform, BindType::Buffer, BindType::BufReadOnly, BindType::Buffer, BindType::Buffer, BindType::Buffer],
        final(catalog).entries@[old(catalog).entries@.len() as int + 22].name == "coarse_setup_debug",
        final(catalog).entries@[old(catalog).entries@.len() as int + 22].bindings@ == seq![BindType::Uniform, BindType::Buffer, BindType::Buffer, BindType::Buffer],
        final(catalog).entries@[old(catalog).entries@.len() as int + 23].name == "coarse",
        final(catalog).entries@[old(catalog).entries@.len() as int + 23].bindings@ == seq![BindType::Uniform, BindType::BufReadOnly, BindType::BufReadOnly, BindType::BufReadOnly, BindType::BufReadOnly, BindType::BufReadOnly, BindType::Buffer, BindType::Buffer, BindType::Buffer, BindType::BufReadOnly, BindType::BufReadOnly],
        final(catalog).entries@[old(catalog).entries@.len() as int + 24].name == "fine_setup",
        final(catalog).entries@[old(catalog).entries@.len() as int + 24].bindings@ == seq![BindType::Uniform, BindType::Buffer, BindType::Buffer],
        final(catalog).entries@[old(catalog).entries@.len() as int + 25].name == "fine",
        final(catalog).entries@[old(catalog).entries@.len() as int + 25].bindings@ == seq![BindType::Uniform, BindType::BufReadOnly, BindType::BufReadOnly, BindType::BufReadOnly, BindType::BufReadOnly, BindType::ImageRead, BindType::BufReadOnly, BindType::ImageRead, BindType::BufReadOnly, BindType::BufReadOnly, BindType::Buffer],
        final(catalog).entries@[old(catalog).entries@.len() as int + 26].name == "compose",
        final(catalog).entries@[old(catalog).entries@.len() as int + 26].bindings@ == seq![BindType::Uniform, BindType::Image, BindType::BufReadOnly, BindType::Buffer],
        final(catalog).entries@[old(catalog).entries@.len() as int + 27].name == "coarse_original",
        final(catalog).entries@[old(catalog).entries@.len() as int + 27].bindings@ == seq![BindType::Uniform, BindType::BufReadOnly, BindType::BufReadOnly, BindType::BufReadOnly, BindType::BufReadOnly, BindType::BufReadOnly, BindType::BufReadOnly, BindType::Buffer, BindType::Buffer],
        final(catalog).entries@[old(catalog).entries@.len() as int + 28].name == "fine_setup_original",
        final(catalog).entries@[old(catalog).entries@.len() as int + 28].bindings@ == seq![BindType::Uniform, BindType::Buffer, BindType::Buffer, BindType::Buffer],
        final(catalog).entries@[old(catalog).entries@.len() as int + 29].name == "fine_original",
        final(catalog).entries@[old(catalog).entries@.len() as int + 29].bindings@ == seq![BindType::Uniform, BindType::BufReadOnly, BindType::BufReadOnly, BindType::BufReadOnly, BindType::BufReadOnly, BindType::ImageRead, BindType::ImageRead, BindType::Buffer, BindType::Image],
        final(catalog).entries@[old(catalog).entries@.len() as int + 30].name == "compose_original",
        final(catalog).entries@[old(catalog).entries@.len() as int + 30].bindings@ == seq![BindType::Uniform, BindType::Image, BindType::Buffer, BindType::BufReadOnly],
        r.pathtag_reduce.0 == old(catalog).entries@.len() + 0,
        r.pathtag_reduce2.0 == old(catalog).entries@.len() + 1,
        r.pathtag_scan1.0 == old(catalog).entries@.len() + 2,
        r.pathtag_scan.0 == old(catalog).entries@.len() + 3,
        r.pathtag_scan_large.0 == old(catalog).entries@.len() + 4,
        r.bbox_clear.0 == old(catalog).entries@.len() + 5,
        r.pathseg.0 == old(catalog).entries@.len() + 6,
        r.draw_reduce.0 == old(catalog).entries@.len() + 7,
        r.draw_leaf.0 == old(catalog).entries@.len() + 8,
        r.clip_reduce.0 == old(catalog).entries@.len() + 9,
        r.clip_leaf.0 == old(catalog).entries@.len() + 10,
        r.flatten.0 == old(catalog).entries@.len() + 11,
        r.pattern_setup.0 == old(catalog).entries@.len() + 12,
        r.pattern.0 == old(catalog).entries@.len() + 13,
        r.particles.0 == old(catalog).entries@.len() + 14,
        r.binning.0 == old(catalog).entries@.len() + 15,
        r.tile_alloc.0 == old(catalog).entries@.len() + 16,
        r.path_coarse_counter.0 == old(catalog).entries@.len() + 17,
        r.path_coarse.0 == old(catalog).entries@.len() + 18,
        r.backdrop.0 == old(catalog).entries@.len() + 19,
        r.coarse_counter.0 == old(catalog).entries@.len() + 20,
        r.coarse_setup.0 == old(catalog).entries@.len() + 21,
        r.coarse_setup_debug.0 == old(catalog).entries@.len() + 22,
        r.coarse.0 == old(catalog).entries@.len() + 23,
        r.fine_setup.0 == old(catalog).entries@.len() + 24,
        r.fine.0 == old(catalog).entries@.len() + 25,
        r.compose.0 == old(catalog).entries@.len() + 26,
        r.coarse_original.0 == old(catalog).entries@.len() + 27,
        r.fine_setup_original.0 == old(catalog).entries@.len() + 28,
        r.fine_original.0 == old(catalog).entries@.len() + 29,
        r.compose_original.0 == old(catalog).entries@.len() + 30,
{
    let pathtag_reduce = catalog.add_shader(
        "pathtag_reduce",
        vec![BindType::Uniform, BindType::BufReadOnly, BindType::Buffer],
    );
    let pathtag_reduce2 = catalog.add_shader(
        "pathtag_reduce2",
        vec![BindType::BufReadOnly, BindType::Buffer],
    );
    let pathtag_scan1 = catalog.add_shader(
        "pathtag_scan1",
        vec![BindType::BufReadOnly, BindType::BufReadOnly, BindType::Buffer],
    );
    let pathtag_scan = catalog.add_shader(
        "pathtag_scan",
        vec![BindType::Uniform, BindType::BufReadOnly, BindType::BufReadOnly, BindType::Buffer],
    );
    let pathtag_scan_large = catalog.add_shader(
        "pathtag_scan",
        vec![BindType::Uniform, BindType::BufReadOnly, BindType::BufReadOnly, BindType::Buffer],
    );
    let bbox_clear = catalog.add_shader("bbox_clear", vec![BindType::Uniform, BindType::Buffer]);
    let pathseg = catalog.add_shader(
        "pathseg",
        vec![
            BindType::Uniform,
            BindType::Uniform,
            BindType::BufReadOnly,
            BindType::BufReadOnly,
            BindType::Buffer,
            BindType::Buffer,
            BindType::Buffer,
        ],
    );
    let draw_reduce = catalog.add_shader(
        "draw_reduce",
        vec![BindType::Uniform, BindType::BufReadOnly, BindType::Buffer],
    );
    let draw_leaf = catalog.add_shader(
        "draw_leaf",
        vec![
            BindType::Uniform,
            BindType::Uniform,
            BindType::BufReadOnly,
            BindType::BufReadOnly,
            BindType::BufReadOnly,
            BindType::Buffer,
            BindType::Buffer,
            BindType::Buffer,
            BindType::Buffer,
        ],
    );
    let clip_reduce = catalog.add_shader(
        "clip_reduce",
        vec![BindType::BufReadOnly, BindType::BufReadOnly, BindType::Buffer, BindType::Buffer],
    );
    let clip_leaf = catalog.add_shader(
        "clip_leaf",
        vec![
            BindType::Uniform,
            BindType::BufReadOnly,
            BindType::BufReadOnly,
            BindType::BufReadOnly,
            BindType::BufReadOnly,
            BindType::Buffer,
            BindType::Buffer,
        ],
    );
    let flatten = catalog.add_shader(
        "flatten",
        vec![
            BindType::Uniform,
            BindType::Uniform,
            BindType::BufReadOnly,
            BindType::BufReadOnly,
            BindType::Buffer,
            BindType::Buffer,
            BindType::Buffer,
            BindType::Buffer,
            BindType::Buffer,
            BindType::BufReadOnly,
        ],
    );
    let pattern_setup = catalog.add_shader(
        "pattern_setup",
        vec![BindType::Uniform, BindType::Buffer, BindType::Buffer],
    );
    let pattern = catalog.add_shader(
        "pattern",
        vec![
            BindType::Uniform,
            BindType::Uniform,
            BindType::BufReadOnly,
            BindType::BufReadOnly,
            BindType::BufReadOnly,
            BindType::Buffer,
            BindType::Buffer,
        ],
    );
    let particles = catalog.add_shader(
        "particles",
        vec![
            BindType::Uniform,
            BindType::Uniform,
            BindType::BufReadOnly,
            BindType::BufReadOnly,
            BindType::BufReadOnly,
            BindType::Buffer,
            BindType::Buffer,
            BindType::BufReadOnly,
        ],
    );
    let binning = catalog.add_shader(
        "binning",
        vec![
            BindType::Uniform,
            BindType::BufReadOnly,
            BindType::BufReadOnly,
            BindType::BufReadOnly,
            BindType::Buffer,
            BindType::Buffer,
            BindType::Buffer,
            BindType::Buffer,
        ],
    );
    let tile_alloc = catalog.add_shader(
        "tile_alloc",
        vec![
            BindType::Uniform,
            BindType::BufReadOnly,
            BindType::BufReadOnly,
            BindType::Buffer,
            BindType::Buffer,
            BindType::Buffer,
        ],
    );
    let path_coarse_counter = catalog.add_shader(
        "path_coarse_counter",
        vec![BindType::Buffer, BindType::Buffer],
    );
    let path_coarse = catalog.add_shader(
        "path_coarse_full",
        vec![
            BindType::Uniform,
            BindType::Uniform,
            BindType::BufReadOnly,
            BindType::BufReadOnly,
            BindType::BufReadOnly,
            BindType::Buffer,
            BindType::Buffer,
            BindType::Buffer,
            BindType::BufReadOnly,
        ],
    );
    let backdrop = catalog.add_shader(
        "backdrop_dyn",
        vec![BindType::Uniform, BindType::BufReadOnly, BindType::Buffer],
    );
    let coarse_counter = catalog.add_shader(
        "coarse_counter",
        vec![
            BindType::Uniform,
            BindType::BufReadOnly,
            BindType::BufReadOnly,
            BindType::BufReadOnly,
            BindType::BufReadOnly,
            BindType::BufReadOnly,
            BindType::BufReadOnly,
            BindType::Buffer,
        ],
    );
    let coarse_setup = catalog.add_shader(
        "coarse_setup",
        vec![
            BindType::Uniform,
            BindType::Buffer,
            BindType::BufReadOnly,
            BindType::Buffer,
            BindType::Buffer,
            BindType::Buffer,
        ],
    );
    let coarse_setup_debug = catalog.add_shader(
        "coarse_setup_debug",
        vec![BindType::Uniform, BindType::Buffer, BindType::Buffer, BindType::Buffer],
    );
    let coarse = catalog.add_shader(
        "coarse",
        vec![
            BindType::Uniform,
            BindType::BufReadOnly,
            BindType::BufReadOnly,
            BindType::BufReadOnly,
            BindType::BufReadOnly,
            BindType::BufReadOnly,
            BindType::Buffer,
            BindType::Buffer,
            BindType::Buffer,
            BindType::BufReadOnly,
            BindType::BufReadOnly,
        ],
    );
    let fine_setup = catalog.add_shader(
        "fine_setup",
        vec![BindType::Uniform, BindType::Buffer, BindType::Buffer],
    );
    let fine = catalog.add_shader(
        "fine",
        vec![
            BindType::Uniform,
            BindType::BufReadOnly,
            BindType::BufReadOnly,
            BindType::BufReadOnly,
            BindType::BufReadOnly,
            BindType::ImageRead,
            BindType::BufReadOnly,
            BindType::ImageRead,
            BindType::BufReadOnly,
            BindType::BufReadOnly,
            BindType::Buffer,
        ],
    );
    let compose = catalog.add_shader(
        "compose",
        vec![BindType::Uniform, BindType::Image, BindType::BufReadOnly, BindType::Buffer],
    );
    let coarse_original = catalog.add_shader(
        "coarse_original",
        vec![
            BindType::Uniform,
            BindType::BufReadOnly,
            BindType::BufReadOnly,
            BindType::BufReadOnly,
            BindType::BufReadOnly,
            BindType::BufReadOnly,
            BindType::BufReadOnly,
            BindType::Buffer,
            BindType::Buffer,
        ],
    );
    let fine_setup_original = catalog.add_shader(
        "fine_setup_original",
        vec![BindType::Uniform, BindType::Buffer, BindType::Buffer, BindType::Buffer],
    );
    let fine_original = catalog.add_shader(
        "fine_original",
        vec![
            BindType::Uniform,
            BindType::BufReadOnly,
            BindType::BufReadOnly,
            BindType::BufReadOnly,
            BindType::BufReadOnly,
            BindType::ImageRead,
            BindType::ImageRead,
            BindType::Buffer,
            BindType::Image,
        ],
    );
    let compose_original = catalog.add_shader(
        "compose_original",
        vec![BindType::Uniform, BindType::Image, BindType::Buffer, BindType::BufReadOnly],
    );
    proof {
        assert(catalog.entries@[old(catalog).entries@.len() as int + 0].bindings@ =~= seq![BindType::Uniform, BindType::BufReadOnly, BindType::Buffer]);
        assert(catalog.entries@[old(catalog).entries@.len() as int + 1].bindings@ =~= seq![BindType::BufReadOnly, BindType::Buffer]);
        assert(catalog.entries@[old(catalog).entries@.len() as int + 2].bindings@ =~= seq![BindType::BufReadOnly, BindType::BufReadOnly, BindType::Buffer]);
        assert(catalog.entries@[old(catalog).entries@.len() as int + 3].bindings@ =~= seq![BindType::Uniform, BindType::BufReadOnly, BindType::BufReadOnly, BindType::Buffer]);
        assert(catalog.entries@[old(catalog).entries@.len() as int + 4].bindings@ =~= seq![BindType::Uniform, BindType::BufReadOnly, BindType::BufReadOnly, BindType::Buffer]);
        assert(catalog.entries@[old(catalog).entries@.len() as int + 5].bindings@ =~= seq![BindType::Uniform, BindType::Buffer]);
        assert(catalog.entries@[old(catalog).entries@.len() as int + 6].bindings@ =~= seq![BindType::Uniform, BindType::Uniform, BindType::BufReadOnly, BindType::BufReadOnly, BindType::Buffer, BindType::Buffer, BindType::Buffer]);
        assert(catalog.entries@[old(catalog).entries@.len() as int + 7].bindings@ =~= seq![BindType::Uniform, BindType::BufReadOnly, BindType::Buffer]);
        assert(catalog.entries@[old(catalog).entries@.len() as int + 8].bindings@ =~= seq![BindType::Uniform, BindType::Uniform, BindType::BufReadOnly, BindType::BufReadOnly, BindType::BufReadOnly, BindType::Buffer, BindType::Buffer, BindType::Buffer, BindType::Buffer]);
        assert(catalog.entries@[old(catalog).entries@.len() as int + 9].bindings@ =~= seq![BindType::BufReadOnly, BindType::BufReadOnly, BindType::Buffer, BindType::Buffer]);
        assert(catalog.entries@[old(catalog).entries@.len() as int + 10].bindings@ =~= seq![BindType::Uniform, BindType::BufReadOnly, BindType::BufReadOnly, BindType::BufReadOnly, BindType::BufReadOnly, BindType::Buffer, BindType::Buffer]);
        assert(catalog.entries@[old(catalog).entries@.len() as int + 11].bindings@ =~= seq![BindType::Uniform, BindType::Uniform, BindType::BufReadOnly, BindType::BufReadOnly, BindType::Buffer, BindType::Buffer, BindType::Buffer, BindType::Buffer, BindType::Buffer, BindType::BufReadOnly]);
        assert(catalog.entries@[old(catalog).entries@.len() as int + 12].bindings@ =~= seq![BindType::Uniform, BindType::Buffer, BindType::Buffer]);
        assert(catalog.entries@[old(catalog).entries@.len() as int + 13].bindings@ =~= seq![BindType::Uniform, BindType::Uniform, BindType::BufReadOnly, BindType::BufReadOnly, BindType::BufReadOnly, BindType::Buffer, BindType::Buffer]);
        assert(catalog.entries@[old(catalog).entries@.len() as int + 14].bindings@ =~= seq![BindType::Uniform, BindType::Uniform, BindType::BufReadOnly, BindType::BufReadOnly, BindType::BufReadOnly, BindType::Buffer, BindType::Buffer, BindType::BufReadOnly]);
        assert(catalog.entries@[old(catalog).entries@.len() as int + 15].bindings@ =~= seq![BindType::Uniform, BindType::BufReadOnly, BindType::BufReadOnly, BindType::BufReadOnly, BindType::Buffer, BindType::Buffer, BindType::Buffer, BindType::Buffer]);
        assert(catalog.entries@[old(catalog).entries@.len() as int + 16].bindings@ =~= seq![BindType::Uniform, BindType::BufReadOnly, BindType::BufReadOnly, BindType::Buffer, BindType::Buffer, BindType::Buffer]);
        assert(catalog.entries@[old(catalog).entries@.len() as int + 17].bindings@ =~= seq![BindType::Buffer, BindType::Buffer]);
        assert(catalog.entries@[old(catalog).entries@.len() as int + 18].bindings@ =~= seq![BindType::Uniform, BindType::Uniform, BindType::BufReadOnly, BindType::BufReadOnly, BindType::BufReadOnly, BindType::Buffer, BindType::Buffer, BindType::Buffer, BindType::BufReadOnly]);
        assert(catalog.entries@[old(catalog).entries@.len() as int + 19].bindings@ =~= seq![BindType::Uniform, BindType::BufReadOnly, BindType::Buffer]);
        assert(catalog.entries@[old(catalog).entries@.len() as int + 20].bindings@ =~= seq![BindType::Uniform, BindType::BufReadOnly, BindType::BufReadOnly, BindType::BufReadOnly, BindType::BufReadOnly, BindType::BufReadOnly, BindType::BufReadOnly, BindType::Buffer]);
        assert(catalog.entries@[old(catalog).entries@.len() as int + 21].bindings@ =~= seq![BindType::Uniform, BindType::Buffer, BindType::BufReadOnly, BindType::Buffer, BindType::Buffer, BindType::Buffer]);
        assert(catalog.entries@[old(catalog).entries@.len() as int + 22].bindings@ =~= seq![BindType::Uniform, BindType::Buffer, BindType::Buffer, BindType::Buffer]);
        assert(catalog.entries@[old(catalog).entries@.len() as int + 23].bindings@ =~= seq![BindType::Uniform, BindType::BufReadOnly, BindType::BufReadOnly, BindType::BufReadOnly, BindType::BufReadOnly, BindType::BufReadOnly, BindType::Buffer, BindType::Buffer, BindType::Buffer, BindType::BufReadOnly, BindType::BufReadOnly]);
        assert(catalog.entries@[old(catalog).entries@.len() as int + 24].bindings@ =~= seq![BindType::Uniform, BindType::Buffer, BindType::Buffer]);
        assert(catalog.entries@[old(catalog).entries@.len() as int + 25].bindings@ =~= seq![BindType::Uniform, BindType::BufReadOnly, BindType::BufReadOnly, BindType::BufReadOnly, BindType::BufReadOnly, BindType::ImageRead, BindType::BufReadOnly, BindType::ImageRead, BindType::BufReadOnly, BindType::BufReadOnly, BindType::Buffer]);
        assert(catalog.entries@[old(catalog).entries@.len() as int + 26].bindings@ =~= seq![BindType::Uniform, BindType::Image, BindType::BufReadOnly, BindType::Buffer]);
        assert(catalog.entries@[old(catalog).entries@.len() as int + 27].bindings@ =~= seq![BindType::Uniform, BindType::BufReadOnly, BindType::BufReadOnly, BindType::BufReadOnly, BindType::BufReadOnly, BindType::BufReadOnly, BindType::BufReadOnly, BindType::Buffer, BindType::Buffer]);
        assert(catalog.entries@[old(catalog).entries@.len() as int + 28].bindings@ =~= seq![BindType::Uniform, BindType::Buffer, BindType::Buffer, BindType::Buffer]);
        assert(catalog.entries@[old(catalog).entries@.len() as int + 29].bindings@ =~= seq![BindType::Uniform, BindType::BufReadOnly, BindType::BufReadOnly, BindType::BufReadOnly, BindType::BufReadOnly, BindType::ImageRead, BindType::ImageRead, BindType::Buffer, BindType::Image]);
        assert(catalog.entries@[old(catalog).entries@.len() as int + 30].bindings@ =~= seq![BindType::Uniform, BindType::Image, BindType::Buffer, BindType::BufReadOnly]);
    }
    FullShaders {
        pathtag_reduce,
        pathtag_reduce2,
        pathtag_scan1,
        pathtag_scan,
        pathtag_scan_large,
        bbox_clear,
        pathseg,
        draw_reduce,
        draw_leaf,
        clip_reduce,
        clip_leaf,
        flatten,
        pattern_setup,
        pattern,
        particles,
        binning,
        tile_alloc,
        path_coarse_counter,
        path_coarse,
        backdrop,
        coarse_counter,
        coarse_setup,
        coarse_setup_debug,
        coarse,
        fine_setup,
        fine,
        compose,
        coarse_original,
        fine_setup_original,
        fine_original,
        compose_original,
    }
}

} // verus!
