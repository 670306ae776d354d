//! Encoding one path into an encoding: the scoped `PathEncoder` is
//! created by `encode_path`, fed commands, and handed back through
//! `finish`, which seals the path and merges it into the streams.

use crate::encoding::{encoding_wf, lemma_wf_patches_unchanged, Encoding, EncodingView};
use crate::path::{
    spec_apply_command, spec_close, spec_mark_subpath_end, spec_run_commands, PathCommand,
    PathEncView, PathEncoder, PathState, PathTag, PATH_TAG_PATH,
};
use vstd::prelude::*;

verus! {

/// The view of a freshly created path encoder.
pub open spec fn spec_fresh_path() -> PathEncView {
    PathEncView {
        tags: Seq::empty(),
        data: Seq::empty(),
        state: PathState::Start,
        first_x: 0,
        first_y: 0,
        n_segs: 0,
    }
}

/// The effect of sealing a finished path encoder into an encoding: the
/// auto-close for fills, dropping a dangling start point, marking the
/// subpath end, the optional path terminator, and the count updates.
/// The second component is the number of segments the path contributed;
/// zero means the path was empty and nothing was counted.
pub open spec fn spec_finish_path(
    ev: EncodingView,
    v: PathEncView,
    is_fill: bool,
    insert_path_marker: bool,
) -> (EncodingView, nat) {
    let v1 = if is_fill {
        spec_close(v)
    } else {
        v
    };
    let v2 = if v1.state is MoveTo {
        PathEncView { data: v1.data.subrange(0, v1.data.len() - 8), ..v1 }
    } else {
        v1
    };
    if v2.n_segs == 0 {
        (
            EncodingView { path_tags: ev.path_tags + v2.tags, path_data: ev.path_data + v2.data, ..ev },
            0,
        )
    } else {
        let tags = spec_mark_subpath_end(v2.tags);
        let tags2 = if insert_path_marker {
            tags.push(PathTag(PATH_TAG_PATH))
        } else {
            tags
        };
        (
            EncodingView {
                path_tags: ev.path_tags + tags2,
                path_data: ev.path_data + v2.data,
                n_path_segments: (ev.n_path_segments + v2.n_segs) as u32,
                n_paths: if insert_path_marker {
                    (ev.n_paths + 1) as u32
                } else {
                    ev.n_paths
                },
                ..ev
            },
            v2.n_segs,
        )
    }
}

/// The effect of encoding a whole command sequence as one path, with a
/// path terminator; the boolean reports whether any segment was emitted.
pub open spec fn spec_encode_shape(ev: EncodingView, cmds: Seq<PathCommand>, is_fill: bool) -> (
    EncodingView,
    bool,
) {
    let pv = spec_run_commands(spec_fresh_path(), cmds, is_fill);
    let (ev2, n) = spec_finish_path(ev, pv, is_fill, true);
    (ev2, n != 0)
}

/// One command adds at most one segment.
pub proof fn lemma_apply_command_segs(v: PathEncView, c: PathCommand, is_fill: bool)
    ensures
        spec_apply_command(v, c, is_fill).n_segs <= v.n_segs + 1,
{
}

impl PathEncoder {
    /// Seals this path and merges its tags and data into the encoding.
    /// Returns the number of segments encoded; zero reports an empty or
    /// invalid path, for which no path terminator is written.
    pub fn finish(self, encoding: &mut Encoding, insert_path_marker: bool) -> (r: u32)
        requires
            self.inv(),
            self.n_encoded_segments < 0xFFFF_FFFF,
            old(encoding).view().n_path_segments + self.n_encoded_segments + 1 <= u32::MAX,
            old(encoding).view().n_paths < u32::MAX,
        ensures
            final(encoding).view() == spec_finish_path(
                old(encoding).view(),
                self.view(),
                self.is_fill,
                insert_path_marker,
            ).0,
            r == spec_finish_path(
                old(encoding).view(),
                self.view(),
                self.is_fill,
                insert_path_marker,
            ).1,
            encoding_wf(old(encoding).view()) ==> encoding_wf(final(encoding).view()),
    {
        let mut pe = self;
        if pe.is_fill {
            pe.close();
        }
        if pe.state == PathState::MoveTo {
            let new_len = pe.data.len() - 8;
            pe.data.truncate(new_len);
        }
        let n = pe.n_encoded_segments;
        if n != 0 {
            pe.mark_subpath_end();
            if insert_path_marker {
                pe.tags.push(PathTag(PATH_TAG_PATH));
            }
        }
        encoding.path_tags.append(&mut pe.tags);
        encoding.path_data.append(&mut pe.data);
        if n != 0 {
            encoding.n_path_segments = encoding.n_path_segments + n;
            if insert_path_marker {
                encoding.n_paths = encoding.n_paths + 1;
            }
        }
        proof {
            assert(encoding.view() =~= spec_finish_path(
                old(encoding).view(),
                self.view(),
                self.is_fill,
                insert_path_marker,
            ).0);
            lemma_wf_patches_unchanged(old(encoding).view(), encoding.view());
        }
        n
    }
}

impl Encoding {
    /// Returns a fresh encoder for one path; if `is_fill` is true, open
    /// subpaths close automatically. Hand the encoder back through its
    /// `finish` to merge the path into this encoding.
    pub fn encode_path(&self, is_fill: bool) -> (r: PathEncoder)
        ensures
            r.view() == spec_fresh_path(),
            r.is_fill == is_fill,
            r.inv(),
    {
        PathEncoder::new(is_fill)
    }

    /// Encodes a shape given as a command sequence, as one path with a
    /// terminator. Returns true when a non-zero number of segments was
    /// encoded; on false the caller substitutes an explicit empty path to
    /// keep the stream brackets intact.
    pub fn encode_shape(&mut self, shape: &Vec<PathCommand>, is_fill: bool) -> (r: bool)
        requires
            shape@.len() < 0xFFFF_FFF0,
            old(self).view().n_path_segments + shape@.len() + 2 <= u32::MAX,
            old(self).view().n_paths < u32::MAX,
        ensures
            final(self).view() == spec_encode_shape(old(self).view(), shape@, is_fill).0,
            r == spec_encode_shape(old(self).view(), shape@, is_fill).1,
            encoding_wf(old(self).view()) ==> encoding_wf(final(self).view()),
    {
        let mut pe = PathEncoder::new(is_fill);
        let mut i: usize = 0;
        while i < shape.len()
            invariant
                i <= shape@.len(),
                shape@.len() < 0xFFFF_FFF0,
                pe.view() == spec_run_commands(spec_fresh_path(), shape@.subrange(0, i as int), is_fill),
                pe.is_fill == is_fill,
                pe.inv(),
                pe.n_encoded_segments <= i,
            decreases shape@.len() - i,
        {
            proof {
                lemma_apply_command_segs(pe.view(), shape@[i as int], is_fill);
            }
            pe.apply_command(shape[i]);
            i = i + 1;
            proof {
                assert(shape@.subrange(0, i as int).drop_last() =~= shape@.subrange(
                    0,
                    i as int - 1,
                ));
                assert(shape@.subrange(0, i as int).last() == shape@[i as int - 1]);
            }
        }
        proof {
            assert(shape@.subrange(0, shape@.len() as int) =~= shape@);
        }
        let n = pe.finish(self, true);
        n != 0
    }
}

} // verus!
