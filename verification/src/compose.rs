//! Composition: splicing one encoding onto the end of another, with
//! every offset-bearing field of the appended resources rebased by the
//! receiver's pre-append stream lengths.

use crate::bytes::extend_copy;
use crate::encoding::{
    encoding_wf, offsets_within, patch_wf, run_wf, spec_offsets_add, Encoding, EncodingView,
    StreamOffsets, TransformState, TRANSFORM_STATE_DEFAULT,
};
use crate::math::Transform;
use crate::resources::{GlyphRun, Patch};
use vstd::prelude::*;

verus! {

/// A patch as it reads after its owner is appended onto a receiver whose
/// draw-data length, color-stop count and glyph-run count are the three
/// bases.
pub open spec fn spec_rebase_patch(
    p: Patch,
    draw_base: nat,
    stops_base: nat,
    runs_base: nat,
) -> Patch {
    match p {
        Patch::Ramp { draw_data_offset, stops_start, stops_end, extend } => Patch::Ramp {
            draw_data_offset: (draw_data_offset + draw_base) as usize,
            stops_start: (stops_start + stops_base) as usize,
            stops_end: (stops_end + stops_base) as usize,
            extend,
        },
        Patch::GlyphRun { index } => Patch::GlyphRun { index: (index + runs_base) as usize },
        Patch::Image { image, draw_data_offset } => Patch::Image {
            image,
            draw_data_offset: (draw_data_offset + draw_base) as usize,
        },
    }
}

/// A glyph run as it reads after its owner is appended: its table ranges
/// shift by the receiver's table lengths, its stream snapshot by the
/// receiver's stream lengths, and its transform is replaced by `t` (the
/// caller pre-multiplies when a camera transform is supplied).
pub open spec fn spec_rebase_run(
    r: GlyphRun,
    glyphs_base: nat,
    coords_base: nat,
    off: StreamOffsets,
    t: Transform,
) -> GlyphRun {
    GlyphRun {
        glyphs_start: (r.glyphs_start + glyphs_base) as usize,
        glyphs_end: (r.glyphs_end + glyphs_base) as usize,
        normalized_coords_start: (r.normalized_coords_start + coords_base) as usize,
        normalized_coords_end: (r.normalized_coords_end + coords_base) as usize,
        stream_offsets: spec_offsets_add(r.stream_offsets, off),
        transform: t,
        ..r
    }
}

/// The transform stream an append contributes: under a camera transform,
/// entries in the default state are replaced by their pre-multiplied
/// counterparts while screen-space entries pass through unchanged.
pub open spec fn spec_appended_transforms(
    b: EncodingView,
    camera: Option<Transform>,
    mapped: Seq<Transform>,
) -> Seq<Transform> {
    match camera {
        None => b.transforms,
        Some(_) => Seq::new(
            b.transforms.len(),
            |i: int|
                if b.states[i] == TransformState(TRANSFORM_STATE_DEFAULT) {
                    mapped[i]
                } else {
                    b.transforms[i]
                },
        ),
    }
}

/// The glyph-run transform the append gives run `i`: under a camera
/// transform, its pre-multiplied counterpart, else the run's own.
pub open spec fn spec_appended_run_transform(
    b: EncodingView,
    camera: Option<Transform>,
    mapped_runs: Seq<Transform>,
    i: int,
) -> Transform {
    match camera {
        None => b.glyph_runs[i].transform,
        Some(_) => mapped_runs[i],
    }
}

/// The result of appending `b` onto `a`: streams and tables concatenate,
/// counts add, patches and glyph runs are rebased by `a`'s pre-append
/// lengths, and the camera transform is recorded.
pub open spec fn spec_append(
    a: EncodingView,
    b: EncodingView,
    camera: Option<Transform>,
    mapped: Seq<Transform>,
    mapped_runs: Seq<Transform>,
) -> EncodingView {
    let off = a.spec_stream_offsets();
    EncodingView {
        path_tags: a.path_tags + b.path_tags,
        path_data: a.path_data + b.path_data,
        draw_tags: a.draw_tags + b.draw_tags,
        draw_data: a.draw_data + b.draw_data,
        transforms: a.transforms + spec_appended_transforms(b, camera, mapped),
        linewidths: a.linewidths + b.linewidths,
        dasharrays: a.dasharrays + b.dasharrays,
        transform_state: a.transform_state,
        states: a.states + b.states,
        pattern_data: a.pattern_data + b.pattern_data,
        patches: a.patches + b.patches.map_values(
            |p: Patch|
                spec_rebase_patch(
                    p,
                    a.draw_data.len(),
                    a.color_stops.len(),
                    a.glyph_runs.len(),
                ),
        ),
        color_stops: a.color_stops + b.color_stops,
        glyphs: a.glyphs + b.glyphs,
        glyph_runs: a.glyph_runs + Seq::new(
            b.glyph_runs.len(),
            |i: int|
                spec_rebase_run(
                    b.glyph_runs[i],
                    a.glyphs.len(),
                    a.normalized_coords.len(),
                    off,
                    spec_appended_run_transform(b, camera, mapped_runs, i),
                ),
        ),
        normalized_coords: a.normalized_coords + b.normalized_coords,
        n_paths: (a.n_paths + b.n_paths) as u32,
        n_path_segments: (a.n_path_segments + b.n_path_segments) as u32,
        n_clips: (a.n_clips + b.n_clips) as u32,
        n_patterns: (a.n_patterns + b.n_patterns) as u32,
        n_open_clips: (a.n_open_clips + b.n_open_clips) as u32,
        camera_transform: camera,
    }
}

impl Encoding {
    /// Appends another encoding onto this one, without a camera
    /// transform: the composed scene carries `other`'s streams verbatim
    /// after this encoding's, and every index in `other`'s resources is
    /// rebased by this encoding's pre-append lengths.
    pub fn append(&mut self, other: &Encoding)
        requires
            encoding_wf(old(self).view()),
            encoding_wf(other.view()),
            old(self).view().n_paths + other.view().n_paths <= u32::MAX,
            old(self).view().n_path_segments + other.view().n_path_segments <= u32::MAX,
            old(self).view().n_clips + other.view().n_clips <= u32::MAX,
            old(self).view().n_patterns + other.view().n_patterns <= u32::MAX,
            old(self).view().n_open_clips + other.view().n_open_clips <= u32::MAX,
        ensures
            final(self).view() == spec_append(
                old(self).view(),
                other.view(),
                None,
                Seq::empty(),
                Seq::empty(),
            ),
            encoding_wf(final(self).view()),
    {
        let nothing: Vec<Transform> = Vec::new();
        let nothing_runs: Vec<Transform> = Vec::new();
        self.append_inner(other, None, &nothing, &nothing_runs);
    }

    /// Appends another encoding under a camera transform. The caller
    /// supplies, already pre-multiplied where float arithmetic lives,
    /// `mapped[i] = transform * other.transforms[i]` for every transform
    /// entry and `mapped_runs[i] = transform * run.transform` for every
    /// glyph run; entries whose state ignores the camera pass through
    /// unchanged.
    pub fn append_with_transform(
        &mut self,
        other: &Encoding,
        transform: Transform,
        mapped: &Vec<Transform>,
        mapped_runs: &Vec<Transform>,
    )
        requires
            encoding_wf(old(self).view()),
            encoding_wf(other.view()),
            mapped@.len() == other.view().transforms.len(),
            mapped_runs@.len() == other.view().glyph_runs.len(),
            old(self).view().n_paths + other.view().n_paths <= u32::MAX,
            old(self).view().n_path_segments + other.view().n_path_segments <= u32::MAX,
            old(self).view().n_clips + other.view().n_clips <= u32::MAX,
            old(self).view().n_patterns + other.view().n_patterns <= u32::MAX,
            old(self).view().n_open_clips + other.view().n_open_clips <= u32::MAX,
        ensures
            final(self).view() == spec_append(
                old(self).view(),
                other.view(),
                Some(transform),
                mapped@,
                mapped_runs@,
            ),
            encoding_wf(final(self).view()),
    {
        self.append_inner(other, Some(transform), mapped, mapped_runs);
    }

    /// Shared body of the two append forms.
    fn append_inner(
        &mut self,
        other: &Encoding,
        camera: Option<Transform>,
        mapped: &Vec<Transform>,
        mapped_runs: &Vec<Transform>,
    )
        requires
            encoding_wf(old(self).view()),
            encoding_wf(other.view()),
            camera is Some ==> mapped@.len() == other.view().transforms.len(),
            camera is Some ==> mapped_runs@.len() == other.view().glyph_runs.len(),
            old(self).view().n_paths + other.view().n_paths <= u32::MAX,
            old(self).view().n_path_segments + other.view().n_path_segments <= u32::MAX,
            old(self).view().n_clips + other.view().n_clips <= u32::MAX,
            old(self).view().n_patterns + other.view().n_patterns <= u32::MAX,
            old(self).view().n_open_clips + other.view().n_open_clips <= u32::MAX,
        ensures
            final(self).view() == spec_append(
                old(self).view(),
                other.view(),
                camera,
                mapped@,
                mapped_runs@,
            ),
            encoding_wf(final(self).view()),
    {
        let ghost a = old(self).view();
        let ghost b = other.view();
        let offsets = self.stream_offsets();
        let stops_base = self.resources.color_stops.len();
        let glyph_runs_base = self.resources.glyph_runs.len();
        let glyphs_base = self.resources.glyphs.len();
        let coords_base = self.resources.normalized_coords.len();

        extend_copy(&mut self.path_tags, &other.path_tags);
        extend_copy(&mut self.path_data, &other.path_data);
        extend_copy(&mut self.draw_tags, &other.draw_tags);
        extend_copy(&mut self.draw_data, &other.draw_data);
        extend_copy(&mut self.linewidths, &other.linewidths);
        extend_copy(&mut self.dasharrays, &other.dasharrays);
        extend_copy(
            &mut self.should_ignore_camera_transforms,
            &other.should_ignore_camera_transforms,
        );
        extend_copy(&mut self.pattern_data, &other.pattern_data);
        extend_copy(&mut self.resources.color_stops, &other.resources.color_stops);
        extend_copy(&mut self.resources.glyphs, &other.resources.glyphs);
        extend_copy(&mut self.resources.normalized_coords, &other.resources.normalized_coords);

        // Reading the combined lengths pins them below the address-space
        // bound, which the rebasing additions below lean on.
        let total_path_tags = self.path_tags.len();
        let total_path_data = self.path_data.len();
        let total_draw_tags = self.draw_tags.len();
        let total_draw_data = self.draw_data.len();
        let total_linewidths = self.linewidths.len();
        let total_dasharrays = self.dasharrays.len();
        let total_patterns = self.pattern_data.len();
        let total_stops = self.resources.color_stops.len();
        let total_glyphs = self.resources.glyphs.len();
        let total_coords = self.resources.normalized_coords.len();

        // The transform stream: verbatim without a camera, and the
        // pre-multiplied stream (screen-space entries excepted) with one.
        match camera {
            None => {
                extend_copy(&mut self.transforms, &other.transforms);
                proof {
                    assert(self.transforms@ =~= a.transforms + spec_appended_transforms(
                        b,
                        camera,
                        mapped@,
                    ));
                }
            },
            Some(_) => {
                proof {
                    assert(self.transforms@ =~= a.transforms + spec_appended_transforms(
                        b,
                        camera,
                        mapped@,
                    ).subrange(0, 0));
                }
                let mut i: usize = 0;
                while i < other.transforms.len()
                    invariant
                        i <= b.transforms.len(),
                        encoding_wf(b),
                        camera is Some,
                        mapped@.len() == b.transforms.len(),
                        b == other.view(),
                        append_mid(self.view(), a, b),
                        self.transforms@ == a.transforms + spec_appended_transforms(
                            b,
                            camera,
                            mapped@,
                        ).subrange(0, i as int),
                        self.resources.glyph_runs@ == a.glyph_runs,
                        self.resources.patches@ == a.patches,
                    decreases b.transforms.len() - i,
                {
                    let entry = if other.should_ignore_camera_transforms[i] == TransformState(
                        TRANSFORM_STATE_DEFAULT,
                    ) {
                        mapped[i]
                    } else {
                        other.transforms[i]
                    };
                    self.transforms.push(entry);
                    i = i + 1;
                    proof {
                        assert(self.transforms@ =~= a.transforms + spec_appended_transforms(
                            b,
                            camera,
                            mapped@,
                        ).subrange(0, i as int));
                    }
                }
                proof {
                    assert(self.transforms@ =~= a.transforms + spec_appended_transforms(
                        b,
                        camera,
                        mapped@,
                    ));
                }
            },
        }
        let total_transforms = self.transforms.len();
        proof {
            assert(total_transforms == a.transforms.len() + b.transforms.len());
        }

        // Rebase and copy the glyph runs.
        let ghost run_target = Seq::new(
            b.glyph_runs.len(),
            |i: int|
                spec_rebase_run(
                    b.glyph_runs[i],
                    a.glyphs.len(),
                    a.normalized_coords.len(),
                    a.spec_stream_offsets(),
                    spec_appended_run_transform(b, camera, mapped_runs@, i),
                ),
        );
        let mut i: usize = 0;
        while i < other.resources.glyph_runs.len()
            invariant
                i <= b.glyph_runs.len(),
                encoding_wf(b),
                b == other.view(),
                camera is Some ==> mapped_runs@.len() == b.glyph_runs.len(),
                glyphs_base == a.glyphs.len(),
                coords_base == a.normalized_coords.len(),
                offsets == a.spec_stream_offsets(),
                run_target == Seq::new(
                    b.glyph_runs.len(),
                    |i: int|
                        spec_rebase_run(
                            b.glyph_runs[i],
                            a.glyphs.len(),
                            a.normalized_coords.len(),
                            a.spec_stream_offsets(),
                            spec_appended_run_transform(b, camera, mapped_runs@, i),
                        ),
                ),
                total_path_tags == a.path_tags.len() + b.path_tags.len(),
                total_path_data == a.path_data.len() + b.path_data.len(),
                total_draw_tags == a.draw_tags.len() + b.draw_tags.len(),
                total_draw_data == a.draw_data.len() + b.draw_data.len(),
                total_transforms == a.transforms.len() + b.transforms.len(),
                total_linewidths == a.linewidths.len() + b.linewidths.len(),
                total_dasharrays == a.dasharrays.len() + b.dasharrays.len(),
                total_patterns == a.pattern_data.len() + b.pattern_data.len(),
                total_glyphs == a.glyphs.len() + b.glyphs.len(),
                total_coords == a.normalized_coords.len() + b.normalized_coords.len(),
                append_mid(self.view(), a, b),
                self.transforms@ == a.transforms + spec_appended_transforms(b, camera, mapped@),
                self.resources.patches@ == a.patches,
                self.resources.glyph_runs@ == a.glyph_runs + run_target.subrange(0, i as int),
            decreases b.glyph_runs.len() - i,
        {
            let r = other.resources.glyph_runs[i];
            proof {
                assert(run_wf(b.glyph_runs[i as int], b.glyphs.len(), b.normalized_coords.len()));
                assert(offsets_within(b.glyph_runs[i as int].stream_offsets, b));
            }
            let mut so = r.stream_offsets;
            so.add(&offsets);
            let t = match camera {
                None => r.transform,
                Some(_) => mapped_runs[i],
            };
            let rebased = GlyphRun {
                glyphs_start: r.glyphs_start + glyphs_base,
                glyphs_end: r.glyphs_end + glyphs_base,
                normalized_coords_start: r.normalized_coords_start + coords_base,
                normalized_coords_end: r.normalized_coords_end + coords_base,
                stream_offsets: so,
                transform: t,
                ..r
            };
            self.resources.glyph_runs.push(rebased);
            i = i + 1;
            proof {
                assert(self.resources.glyph_runs@ =~= a.glyph_runs + run_target.subrange(
                    0,
                    i as int,
                ));
            }
        }
        proof {
            assert(self.resources.glyph_runs@ =~= a.glyph_runs + run_target);
        }
        let total_runs = self.resources.glyph_runs.len();
        proof {
            assert(total_runs == a.glyph_runs.len() + b.glyph_runs.len());
        }

        // Rebase and copy the patches.
        let ghost patch_target = b.patches.map_values(
            |p: Patch|
                spec_rebase_patch(p, a.draw_data.len(), a.color_stops.len(), a.glyph_runs.len()),
        );
        let draw_base = offsets.draw_data;
        let mut i: usize = 0;
        while i < other.resources.patches.len()
            invariant
                i <= b.patches.len(),
                encoding_wf(b),
                b == other.view(),
                draw_base == a.draw_data.len(),
                stops_base == a.color_stops.len(),
                glyph_runs_base == a.glyph_runs.len(),
                patch_target == b.patches.map_values(
                    |p: Patch|
                        spec_rebase_patch(
                            p,
                            a.draw_data.len(),
                            a.color_stops.len(),
                            a.glyph_runs.len(),
                        ),
                ),
                total_draw_data == a.draw_data.len() + b.draw_data.len(),
                total_stops == a.color_stops.len() + b.color_stops.len(),
                total_runs == a.glyph_runs.len() + b.glyph_runs.len(),
                append_mid(self.view(), a, b),
                self.transforms@ == a.transforms + spec_appended_transforms(b, camera, mapped@),
                self.resources.glyph_runs@ == a.glyph_runs + run_target,
                self.resources.patches@ == a.patches + patch_target.subrange(0, i as int),
            decreases b.patches.len() - i,
        {
            proof {
                assert(patch_wf(
                    b.patches[i as int],
                    b.draw_data.len(),
                    b.color_stops.len(),
                    b.glyph_runs.len(),
                ));
            }
            let p = other.resources.patches[i];
            let rebased = match p {
                Patch::Ramp { draw_data_offset, stops_start, stops_end, extend } => Patch::Ramp {
                    draw_data_offset: draw_data_offset + draw_base,
                    stops_start: stops_start + stops_base,
                    stops_end: stops_end + stops_base,
                    extend,
                },
                Patch::GlyphRun { index } => Patch::GlyphRun { index: index + glyph_runs_base },
                Patch::Image { image, draw_data_offset } => Patch::Image {
                    image,
                    draw_data_offset: draw_data_offset + draw_base,
                },
            };
            self.resources.patches.push(rebased);
            i = i + 1;
            proof {
                assert(self.resources.patches@ =~= a.patches + patch_target.subrange(0, i as int));
            }
        }
        proof {
            assert(self.resources.patches@ =~= a.patches + patch_target);
        }

        self.n_paths = self.n_paths + other.n_paths;
        self.n_path_segments = self.n_path_segments + other.n_path_segments;
        self.n_clips = self.n_clips + other.n_clips;
        self.n_patterns = self.n_patterns + other.n_patterns;
        self.n_open_clips = self.n_open_clips + other.n_open_clips;
        self.camera_transform = camera;

        proof {
            let v2 = self.view();
            let target = spec_append(a, b, camera, mapped@, mapped_runs@);
            assert(v2 =~= target);
            lemma_append_wf(a, b, camera, mapped@, mapped_runs@);
        }
    }
}

/// The state of an append after the plainly concatenated streams are in
/// place, before the transform stream and the rebased resources.
spec fn append_mid(v: EncodingView, a: EncodingView, b: EncodingView) -> bool {
    &&& v.path_tags == a.path_tags + b.path_tags
    &&& v.path_data == a.path_data + b.path_data
    &&& v.draw_tags == a.draw_tags + b.draw_tags
    &&& v.draw_data == a.draw_data + b.draw_data
    &&& v.linewidths == a.linewidths + b.linewidths
    &&& v.dasharrays == a.dasharrays + b.dasharrays
    &&& v.states == a.states + b.states
    &&& v.pattern_data == a.pattern_data + b.pattern_data
    &&& v.color_stops == a.color_stops + b.color_stops
    &&& v.glyphs == a.glyphs + b.glyphs
    &&& v.normalized_coords == a.normalized_coords + b.normalized_coords
    &&& v.transform_state == a.transform_state
    &&& v.n_paths == a.n_paths
    &&& v.n_path_segments == a.n_path_segments
    &&& v.n_clips == a.n_clips
    &&& v.n_patterns == a.n_patterns
    &&& v.n_open_clips == a.n_open_clips
    &&& v.camera_transform == a.camera_transform
}

/// Appending two well-formed encodings yields a well-formed encoding.
pub proof fn lemma_append_wf(
    a: EncodingView,
    b: EncodingView,
    camera: Option<Transform>,
    mapped: Seq<Transform>,
    mapped_runs: Seq<Transform>,
)
    requires
        encoding_wf(a),
        encoding_wf(b),
        camera is Some ==> mapped.len() == b.transforms.len(),
        a.path_tags.len() + b.path_tags.len() <= usize::MAX,
        a.path_data.len() + b.path_data.len() <= usize::MAX,
        a.draw_tags.len() + b.draw_tags.len() <= usize::MAX,
        a.draw_data.len() + b.draw_data.len() <= usize::MAX,
        a.transforms.len() + b.transforms.len() <= usize::MAX,
        a.linewidths.len() + b.linewidths.len() <= usize::MAX,
        a.dasharrays.len() + b.dasharrays.len() <= usize::MAX,
        a.pattern_data.len() + b.pattern_data.len() <= usize::MAX,
        a.color_stops.len() + b.color_stops.len() <= usize::MAX,
        a.glyphs.len() + b.glyphs.len() <= usize::MAX,
        a.normalized_coords.len() + b.normalized_coords.len() <= usize::MAX,
        a.glyph_runs.len() + b.glyph_runs.len() <= usize::MAX,
        a.n_clips + b.n_clips <= u32::MAX,
        a.n_open_clips + b.n_open_clips <= u32::MAX,
    ensures
        encoding_wf(spec_append(a, b, camera, mapped, mapped_runs)),
{
    let c = spec_append(a, b, camera, mapped, mapped_runs);
    assert(c.states.len() == c.transforms.len());
    assert forall|i: int| 0 <= i < c.patches.len() implies patch_wf(
        #[trigger] c.patches[i],
        c.draw_data.len(),
        c.color_stops.len(),
        c.glyph_runs.len(),
    ) by {
        if i < a.patches.len() {
            assert(patch_wf(
                a.patches[i],
                a.draw_data.len(),
                a.color_stops.len(),
                a.glyph_runs.len(),
            ));
        } else {
            let j = i - a.patches.len();
            assert(patch_wf(b.patches[j], b.draw_data.len(), b.color_stops.len(), b.glyph_runs.len()));
            assert(c.patches[i] == spec_rebase_patch(
                b.patches[j],
                a.draw_data.len(),
                a.color_stops.len(),
                a.glyph_runs.len(),
            ));
        }
    }
    assert forall|i: int| 0 <= i < c.glyph_runs.len() implies run_wf(
        #[trigger] c.glyph_runs[i],
        c.glyphs.len(),
        c.normalized_coords.len(),
    ) by {
        if i < a.glyph_runs.len() {
            assert(run_wf(a.glyph_runs[i], a.glyphs.len(), a.normalized_coords.len()));
        } else {
            let j = i - a.glyph_runs.len();
            assert(run_wf(b.glyph_runs[j], b.glyphs.len(), b.normalized_coords.len()));
            assert(c.glyph_runs[i] == spec_rebase_run(
                b.glyph_runs[j],
                a.glyphs.len(),
                a.normalized_coords.len(),
                a.spec_stream_offsets(),
                spec_appended_run_transform(b, camera, mapped_runs, j),
            ));
        }
    }
    assert forall|i: int| 0 <= i < c.glyph_runs.len() implies offsets_within(
        (#[trigger] c.glyph_runs[i]).stream_offsets,
        c,
    ) by {
        if i < a.glyph_runs.len() {
            assert(offsets_within(a.glyph_runs[i].stream_offsets, a));
        } else {
            let j = i - a.glyph_runs.len();
            assert(offsets_within(b.glyph_runs[j].stream_offsets, b));
            assert(c.glyph_runs[i] == spec_rebase_run(
                b.glyph_runs[j],
                a.glyphs.len(),
                a.normalized_coords.len(),
                a.spec_stream_offsets(),
                spec_appended_run_transform(b, camera, mapped_runs, j),
            ));
            assert(c.glyph_runs[i].stream_offsets == spec_offsets_add(
                b.glyph_runs[j].stream_offsets,
                a.spec_stream_offsets(),
            ));
        }
    }
}

} // verus!
