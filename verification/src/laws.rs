//! The encoding's global guarantees, stated and proved over the spec
//! model: reading an appended encoding back, transform deduplication,
//! clip-bracket balance, and the gradient-ramp collapse.

use crate::compose::{spec_append, spec_rebase_patch, spec_rebase_run};
use crate::draw::DrawBeginClip;
use crate::encoding::{
    spec_add_ramp, spec_encode_begin_clip, spec_encode_end_clip, spec_encode_transform,
    EncodingView, RampStops,
};
use crate::math::Transform;
use crate::resources::{ColorStop, Extend, Patch};
use vstd::prelude::*;

verus! {

/// After `append(a, b)` with no camera transform, `b`'s streams read
/// back verbatim from the tail of the result, and every rebased patch
/// and glyph run sits at `a`'s pre-append index shifted by `a`'s table
/// length, its offsets shifted by exactly `a`'s pre-append lengths.
pub proof fn lemma_append_round_trip(a: EncodingView, b: EncodingView)
    ensures
        ({
            let c = spec_append(a, b, None, Seq::empty(), Seq::empty());
            &&& c.path_tags.subrange(
                a.path_tags.len() as int,
                (a.path_tags.len() + b.path_tags.len()) as int,
            ) == b.path_tags
            &&& c.path_data.subrange(
                a.path_data.len() as int,
                (a.path_data.len() + b.path_data.len()) as int,
            ) == b.path_data
            &&& c.draw_tags.subrange(
                a.draw_tags.len() as int,
                (a.draw_tags.len() + b.draw_tags.len()) as int,
            ) == b.draw_tags
            &&& c.draw_data.subrange(
                a.draw_data.len() as int,
                (a.draw_data.len() + b.draw_data.len()) as int,
            ) == b.draw_data
            &&& c.transforms.subrange(
                a.transforms.len() as int,
                (a.transforms.len() + b.transforms.len()) as int,
            ) == b.transforms
            &&& c.linewidths.subrange(
                a.linewidths.len() as int,
                (a.linewidths.len() + b.linewidths.len()) as int,
            ) == b.linewidths
            &&& c.dasharrays.subrange(
                a.dasharrays.len() as int,
                (a.dasharrays.len() + b.dasharrays.len()) as int,
            ) == b.dasharrays
            &&& c.states.subrange(
                a.states.len() as int,
                (a.states.len() + b.states.len()) as int,
            ) == b.states
            &&& c.pattern_data.subrange(
                a.pattern_data.len() as int,
                (a.pattern_data.len() + b.pattern_data.len()) as int,
            ) == b.pattern_data
            &&& c.color_stops.subrange(
                a.color_stops.len() as int,
                (a.color_stops.len() + b.color_stops.len()) as int,
            ) == b.color_stops
            &&& c.glyphs.subrange(
                a.glyphs.len() as int,
                (a.glyphs.len() + b.glyphs.len()) as int,
            ) == b.glyphs
            &&& c.normalized_coords.subrange(
                a.normalized_coords.len() as int,
                (a.normalized_coords.len() + b.normalized_coords.len()) as int,
            ) == b.normalized_coords
            &&& forall|i: int|
                0 <= i < b.patches.len() ==> c.patches[a.patches.len() + i]
                    == spec_rebase_patch(
                    #[trigger] b.patches[i],
                    a.draw_data.len(),
                    a.color_stops.len(),
                    a.glyph_runs.len(),
                )
            &&& forall|i: int|
                0 <= i < b.glyph_runs.len() ==> c.glyph_runs[a.glyph_runs.len() + i]
                    == spec_rebase_run(
                    #[trigger] b.glyph_runs[i],
                    a.glyphs.len(),
                    a.normalized_coords.len(),
                    a.spec_stream_offsets(),
                    b.glyph_runs[i].transform,
                )
        }),
{
    let c = spec_append(a, b, None, Seq::empty(), Seq::empty());
    assert(c.path_tags.subrange(
        a.path_tags.len() as int,
        (a.path_tags.len() + b.path_tags.len()) as int,
    ) =~= b.path_tags);
    assert(c.path_data.subrange(
        a.path_data.len() as int,
        (a.path_data.len() + b.path_data.len()) as int,
    ) =~= b.path_data);
    assert(c.draw_tags.subrange(
        a.draw_tags.len() as int,
        (a.draw_tags.len() + b.draw_tags.len()) as int,
    ) =~= b.draw_tags);
    assert(c.draw_data.subrange(
        a.draw_data.len() as int,
        (a.draw_data.len() + b.draw_data.len()) as int,
    ) =~= b.draw_data);
    assert(c.transforms.subrange(
        a.transforms.len() as int,
        (a.transforms.len() + b.transforms.len()) as int,
    ) =~= b.transforms);
    assert(c.linewidths.subrange(
        a.linewidths.len() as int,
        (a.linewidths.len() + b.linewidths.len()) as int,
    ) =~= b.linewidths);
    assert(c.dasharrays.subrange(
        a.dasharrays.len() as int,
        (a.dasharrays.len() + b.dasharrays.len()) as int,
    ) =~= b.dasharrays);
    assert(c.states.subrange(a.states.len() as int, (a.states.len() + b.states.len()) as int)
        =~= b.states);
    assert(c.pattern_data.subrange(
        a.pattern_data.len() as int,
        (a.pattern_data.len() + b.pattern_data.len()) as int,
    ) =~= b.pattern_data);
    assert(c.color_stops.subrange(
        a.color_stops.len() as int,
        (a.color_stops.len() + b.color_stops.len()) as int,
    ) =~= b.color_stops);
    assert(c.glyphs.subrange(a.glyphs.len() as int, (a.glyphs.len() + b.glyphs.len()) as int)
        =~= b.glyphs);
    assert(c.normalized_coords.subrange(
        a.normalized_coords.len() as int,
        (a.normalized_coords.len() + b.normalized_coords.len()) as int,
    ) =~= b.normalized_coords);
}

/// Encoding the same transform twice in a row pushes at most one entry:
/// the second call never pushes and leaves the encoding unchanged, while
/// a different transform right after always pushes.
pub proof fn lemma_transform_dedup(v: EncodingView, t: Transform, u: Transform)
    ensures
        ({
            let (v1, p1) = spec_encode_transform(v, t);
            let (v2, p2) = spec_encode_transform(v1, t);
            &&& !p2
            &&& v2 == v1
            &&& v1.transforms.len() == v.transforms.len() + (if p1 {
                1int
            } else {
                0int
            })
        }),
        ({
            let (v1, p1) = spec_encode_transform(v, t);
            let (v2, p2) = spec_encode_transform(v1, u);
            u != t ==> p2 && v2.transforms.len() == v1.transforms.len() + 1
        }),
{
    let (v1, p1) = spec_encode_transform(v, t);
    if p1 {
        assert(v1.transforms.last() == t);
        assert(v1.states.last() == v.transform_state);
    }
}

/// The net signed balance of a begin/end sequence (begin counts +1, end
/// counts -1).
pub open spec fn clip_sum(ops: Seq<bool>) -> int
    decreases ops.len(),
{
    if ops.len() == 0 {
        0
    } else {
        clip_sum(ops.drop_last()) + (if ops.last() {
            1int
        } else {
            -1int
        })
    }
}

/// The nesting depth a begin/end sequence leaves behind when an end with
/// no open bracket is absorbed.
pub open spec fn clip_depth(ops: Seq<bool>) -> nat
    decreases ops.len(),
{
    if ops.len() == 0 {
        0
    } else {
        let d = clip_depth(ops.drop_last());
        if ops.last() {
            d + 1
        } else if d > 0 {
            (d - 1) as nat
        } else {
            0
        }
    }
}

/// The depth never drops below zero and never below the signed balance,
/// and it is bounded by the number of operations.
pub proof fn lemma_clip_depth_bounds(ops: Seq<bool>)
    ensures
        clip_depth(ops) as int >= clip_sum(ops),
        clip_depth(ops) <= ops.len(),
    decreases ops.len(),
{
    if ops.len() > 0 {
        lemma_clip_depth_bounds(ops.drop_last());
    }
}

/// Whether every prefix of the sequence has a non-negative balance,
/// that is, no end ever arrives with nothing open.
pub open spec fn prefixes_nonneg(ops: Seq<bool>) -> bool {
    forall|i: int| 0 <= i <= ops.len() ==> clip_sum(#[trigger] ops.subrange(0, i)) >= 0
}

/// For sequences that never over-pop, the depth equals the signed
/// balance exactly, hence `max(0, sum)`. (An over-popping sequence such
/// as an end followed by a begin leaves depth 1 with balance 0, which is
/// why the absorbed ends must be excluded here.)
pub proof fn lemma_clip_depth_exact(ops: Seq<bool>)
    requires
        prefixes_nonneg(ops),
    ensures
        clip_depth(ops) as int == clip_sum(ops),
    decreases ops.len(),
{
    if ops.len() > 0 {
        let pre = ops.drop_last();
        assert(pre =~= ops.subrange(0, ops.len() - 1));
        assert forall|i: int| 0 <= i <= pre.len() implies clip_sum(
            #[trigger] pre.subrange(0, i),
        ) >= 0 by {
            assert(pre.subrange(0, i) =~= ops.subrange(0, i));
        }
        lemma_clip_depth_exact(pre);
        assert(ops.subrange(0, ops.len() as int) =~= ops);
        assert(clip_sum(ops.subrange(0, ops.len() as int)) >= 0);
    }
}

/// The begin/end clip operations folded over an encoding.
pub open spec fn spec_apply_clip_ops(
    v: EncodingView,
    ops: Seq<bool>,
    payload: DrawBeginClip,
) -> EncodingView
    decreases ops.len(),
{
    if ops.len() == 0 {
        v
    } else {
        let v1 = spec_apply_clip_ops(v, ops.drop_last(), payload);
        if ops.last() {
            spec_encode_begin_clip(v1, payload)
        } else {
            spec_encode_end_clip(v1)
        }
    }
}

/// Starting from an encoding with no open clip, any sequence of
/// begin/end clip calls leaves `n_open_clips` equal to the absorbing
/// depth of the sequence: never negative, at least the signed balance,
/// and exactly `max(0, balance)` when no end over-pops.
pub proof fn lemma_clip_balance(v: EncodingView, ops: Seq<bool>, payload: DrawBeginClip)
    requires
        v.n_open_clips == 0,
        v.n_clips + ops.len() <= u32::MAX,
    ensures
        spec_apply_clip_ops(v, ops, payload).n_open_clips == clip_depth(ops),
        spec_apply_clip_ops(v, ops, payload).n_clips <= v.n_clips + ops.len(),
        clip_depth(ops) as int >= clip_sum(ops),
    decreases ops.len(),
{
    lemma_clip_depth_bounds(ops);
    if ops.len() > 0 {
        let pre = ops.drop_last();
        lemma_clip_depth_bounds(pre);
        lemma_clip_balance(v, pre, payload);
    }
}

/// For sequences that never over-pop, the open-clip count after the
/// calls equals `max(0, sum)` of the signed balance exactly.
pub proof fn lemma_clip_balance_exact(v: EncodingView, ops: Seq<bool>, payload: DrawBeginClip)
    requires
        v.n_open_clips == 0,
        v.n_clips + ops.len() <= u32::MAX,
        prefixes_nonneg(ops),
    ensures
        spec_apply_clip_ops(v, ops, payload).n_open_clips as int == (if clip_sum(ops) > 0 {
            clip_sum(ops)
        } else {
            0
        }),
{
    lemma_clip_balance(v, ops, payload);
    lemma_clip_depth_exact(ops);
}

/// The ramp collapse, read off the `add_ramp` model: zero stops return
/// `Empty` and change nothing, one stop returns its color and changes
/// nothing, and two or more return `Many` and register exactly one ramp
/// patch whose stop range covers exactly the given stops.
pub proof fn lemma_ramp_collapse(v: EncodingView, stops: Seq<ColorStop>, extend: Extend)
    requires
        v.color_stops.len() + stops.len() <= usize::MAX,
    ensures
        stops.len() == 0 ==> spec_add_ramp(v, stops, extend) == (v, RampStops::Empty),
        stops.len() == 1 ==> spec_add_ramp(v, stops, extend) == (v, RampStops::One(stops[0].color)),
        stops.len() >= 2 ==> ({
            let (v1, r) = spec_add_ramp(v, stops, extend);
            &&& r == RampStops::Many
            &&& v1.color_stops == v.color_stops + stops
            &&& v1.patches == v.patches.push(
                Patch::Ramp {
                    draw_data_offset: v.draw_data.len() as usize,
                    stops_start: v.color_stops.len() as usize,
                    stops_end: (v.color_stops.len() + stops.len()) as usize,
                    extend,
                },
            )
            &&& v1.patches.last() matches Patch::Ramp { stops_start, stops_end, .. }
                && stops_end - stops_start == stops.len()
        }),
{
}

} // verus!
