//! A compact, appendable encoding of vector scenes, together with the
//! CPU-side orchestration that sizes intermediate GPU buffers and records
//! the ordered dispatch graph that rasterizes the scene.
//!
//! Scalar values that the GPU consumes as 32-bit floats (coordinates,
//! widths, matrix entries) travel through this crate as their IEEE-754
//! bit patterns, held in `u32` fields; the crate never performs floating
//! point arithmetic itself.

use vstd::prelude::*;

pub mod bytes;
pub mod compose;
pub mod config;
pub mod draw;
pub mod encoding;
pub mod engine;
pub mod glyphs;
pub mod laws;
pub mod math;
pub mod path;
pub mod pathapi;
pub mod render;
pub mod resolve;
pub mod resources;
pub mod scene;
pub mod shaders;

pub use draw::{BlendMode, Color, DrawBeginClip, DrawColor, DrawImage, DrawLinearGradient, DrawRadialGradient, DrawTag};
pub use config::{BufferSize, BufferSizes, BumpAllocators, GpuConfig, RenderConfig, WorkgroupCounts};
pub use engine::{BufProxy, Command, ImageProxy, ImageSource, Recording, ResourceProxy, ShaderId, WorkgroupSize};
pub use glyphs::DrawGlyphs;
pub use scene::{Fill, Scene};
pub use render::{render_encoding_full, render_full, FineResources, Render, RenderParams};
pub use shaders::{full_shaders, BindType, FullShaders, ShaderCatalog, ShaderEntry};
pub use resolve::{ImageAtlas, ImagePlacement, Layout, RampRow, Resolver};
pub use encoding::{Brush, Encoding, EncodingView, LinearColor, RampStops, StreamOffsets, TransformState};
pub use math::{PatternData, Transform};
pub use path::{PathCommand, PathEncoder, PathTag};
pub use resources::{ColorStop, Extend, Font, Glyph, GlyphRun, Image, Patch, Resources, Style};

verus! {

/// Ceiling division for workgroup counts: the least `q` with `q * d >= n`.
pub open spec fn spec_div_ceil(n: nat, d: nat) -> nat
    recommends
        d > 0,
{
    (((n + d - 1) as int) / (d as int)) as nat
}

/// Computes how many workgroups of width `d` cover `n` elements.
pub fn div_ceil(n: u32, d: u32) -> (r: u32)
    requires
        d > 0,
    ensures
        r == spec_div_ceil(n as nat, d as nat),
{
    let q = n / d;
    let r = n % d;
    proof {
        vstd::arithmetic::div_mod::lemma_fundamental_div_mod(n as int, d as int);
        assert((d as int) * (q as int) >= q as int) by (nonlinear_arith)
            requires
                d >= 1 && q >= 0,
        ;
        assert((q as int + 1) * (d as int) == (d as int) * (q as int) + d as int)
            by (nonlinear_arith);
        assert((q as int) * (d as int) == (d as int) * (q as int)) by (nonlinear_arith);
        if r == 0 {
            vstd::arithmetic::div_mod::lemma_fundamental_div_mod_converse(
                n + d - 1,
                d as int,
                q as int,
                d - 1,
            );
        } else {
            vstd::arithmetic::div_mod::lemma_fundamental_div_mod_converse(
                n + d - 1,
                d as int,
                q + 1,
                r - 1,
            );
        }
    }
    q + if r != 0 { 1u32 } else { 0u32 }
}

} // verus!
