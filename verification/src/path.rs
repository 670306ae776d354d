//! Path tags and the scoped encoder that turns a sequence of path
//! commands into the tag and coordinate streams of one path.

use crate::bytes::{push_u32_le, spec_u32_le};
use vstd::prelude::*;

verus! {

/// Tag byte of a 32-bit float line segment.
pub const PATH_TAG_LINE_TO_F32: u8 = 0x9;

/// Tag byte of a 32-bit float quadratic segment.
pub const PATH_TAG_QUAD_TO_F32: u8 = 0xA;

/// Tag byte of a 32-bit float cubic segment.
pub const PATH_TAG_CUBIC_TO_F32: u8 = 0xB;

/// Tag byte that terminates a path.
pub const PATH_TAG_PATH: u8 = 0x10;

/// Tag byte of an explicit transform marker.
pub const PATH_TAG_TRANSFORM: u8 = 0x20;

/// Tag byte of a line-width (and dash range) marker.
pub const PATH_TAG_LINEWIDTH: u8 = 0x40;

/// Bit set on the final segment of a subpath.
pub const PATH_TAG_SUBPATH_END_BIT: u8 = 0x4;

/// A byte-sized tag in the path stream.
#[derive(Clone, Copy, PartialEq, Eq, Structural, Debug)]
pub struct PathTag(pub u8);

impl PathTag {
    /// True when the tag describes a geometric segment, as opposed to a
    /// path terminator or a transform or line-width marker.
    pub fn is_path_segment(&self) -> (r: bool)
        ensures
            r == (self.0 & 3 != 0),
    {
        self.0 & 3 != 0
    }
}

/// One outline command, with coordinates as 32-bit float bit patterns.
#[derive(Clone, Copy, PartialEq, Eq, Structural, Debug)]
pub enum PathCommand {
    /// Starts a new subpath at a point.
    MoveTo { x: u32, y: u32 },
    /// A line to a point.
    LineTo { x: u32, y: u32 },
    /// A quadratic segment through a control point to an end point.
    QuadTo { x0: u32, y0: u32, x1: u32, y1: u32 },
    /// A cubic segment through two control points to an end point.
    CubicTo { x0: u32, y0: u32, x1: u32, y1: u32, x2: u32, y2: u32 },
    /// Closes the current subpath.
    Close,
}

/// Where the encoder stands inside the current subpath.
#[derive(Clone, Copy, PartialEq, Eq, Structural, Debug)]
pub enum PathState {
    /// No subpath is in progress.
    Start,
    /// A subpath has a start point and no segments yet.
    MoveTo,
    /// A subpath has at least one segment.
    NonemptySubpath,
}

/// The value of a `PathEncoder`, as spec data.
pub struct PathEncView {
    /// Tags written so far.
    pub tags: Seq<PathTag>,
    /// Coordinate bytes written so far.
    pub data: Seq<u8>,
    /// Subpath state.
    pub state: PathState,
    /// Bit pattern of the current subpath's first x coordinate.
    pub first_x: u32,
    /// Bit pattern of the current subpath's first y coordinate.
    pub first_y: u32,
    /// Segments emitted so far.
    pub n_segs: nat,
}

/// The eight coordinate bytes of one point.
pub open spec fn spec_point_bytes(x: u32, y: u32) -> Seq<u8> {
    spec_u32_le(x) + spec_u32_le(y)
}

/// Sets the subpath-end bit on the last tag, if any.
pub open spec fn spec_mark_subpath_end(tags: Seq<PathTag>) -> Seq<PathTag> {
    if tags.len() == 0 {
        tags
    } else {
        tags.update(tags.len() - 1, PathTag(tags.last().0 | PATH_TAG_SUBPATH_END_BIT))
    }
}

/// The effect of starting a subpath at `(x, y)`, without the auto-close
/// that filled paths perform first: a pending start point is replaced,
/// an open subpath is sealed, and the point is written.
pub open spec fn spec_move_to_raw(v: PathEncView, x: u32, y: u32) -> PathEncView {
    let v1 = if v.state is MoveTo {
        PathEncView { data: v.data.subrange(0, v.data.len() - 8), ..v }
    } else if v.state is NonemptySubpath {
        PathEncView { tags: spec_mark_subpath_end(v.tags), ..v }
    } else {
        v
    };
    PathEncView {
        data: v1.data + spec_point_bytes(x, y),
        state: PathState::MoveTo,
        first_x: x,
        first_y: y,
        ..v1
    }
}

/// The effect of closing the current subpath: if the subpath does not
/// already end at its first point, a closing line segment is added;
/// either way the last segment is marked as the subpath end.
pub open spec fn spec_close(v: PathEncView) -> PathEncView {
    if !(v.state is NonemptySubpath) {
        v
    } else if v.data.len() < 8 {
        v
    } else if v.data.subrange(v.data.len() - 8, v.data.len() as int) != spec_point_bytes(
        v.first_x,
        v.first_y,
    ) {
        PathEncView {
            data: v.data + spec_point_bytes(v.first_x, v.first_y),
            tags: v.tags.push(PathTag(PATH_TAG_LINE_TO_F32 | PATH_TAG_SUBPATH_END_BIT)),
            n_segs: v.n_segs + 1,
            state: PathState::Start,
            ..v
        }
    } else {
        PathEncView { tags: spec_mark_subpath_end(v.tags), state: PathState::Start, ..v }
    }
}

/// The effect of `move_to` on an encoder for a filled (`is_fill`) or
/// stroked path.
pub open spec fn spec_move_to(v: PathEncView, x: u32, y: u32, is_fill: bool) -> PathEncView {
    spec_move_to_raw(if is_fill { spec_close(v) } else { v }, x, y)
}

/// Appends one segment whose data is `pts` and whose tag byte is `tag`.
pub open spec fn spec_push_segment(v: PathEncView, pts: Seq<u8>, tag: u8) -> PathEncView {
    PathEncView {
        data: v.data + pts,
        tags: v.tags.push(PathTag(tag)),
        n_segs: v.n_segs + 1,
        state: PathState::NonemptySubpath,
        ..v
    }
}

/// When a segment arrives with no subpath in progress, the first segment
/// of a path starts a subpath at its own end point (matching how outline
/// producers treat a leading segment as a move), and a later one reopens
/// the subpath at its first point.
pub open spec fn spec_reopen(v: PathEncView, x: u32, y: u32) -> (PathEncView, bool) {
    if v.state is Start {
        if v.n_segs == 0 {
            (spec_move_to_raw(v, x, y), true)
        } else {
            (spec_move_to_raw(v, v.first_x, v.first_y), false)
        }
    } else {
        (v, false)
    }
}

/// The effect of `line_to`.
pub open spec fn spec_line_to(v: PathEncView, x: u32, y: u32) -> PathEncView {
    let (v1, absorbed) = spec_reopen(v, x, y);
    if absorbed {
        v1
    } else {
        spec_push_segment(v1, spec_point_bytes(x, y), PATH_TAG_LINE_TO_F32)
    }
}

/// The effect of `quad_to`.
pub open spec fn spec_quad_to(v: PathEncView, x0: u32, y0: u32, x1: u32, y1: u32) -> PathEncView {
    let (v1, absorbed) = spec_reopen(v, x1, y1);
    if absorbed {
        v1
    } else {
        spec_push_segment(
            v1,
            spec_point_bytes(x0, y0) + spec_point_bytes(x1, y1),
            PATH_TAG_QUAD_TO_F32,
        )
    }
}

/// The effect of `cubic_to`.
pub open spec fn spec_cubic_to(
    v: PathEncView,
    x0: u32,
    y0: u32,
    x1: u32,
    y1: u32,
    x2: u32,
    y2: u32,
) -> PathEncView {
    let (v1, absorbed) = spec_reopen(v, x2, y2);
    if absorbed {
        v1
    } else {
        spec_push_segment(
            v1,
            spec_point_bytes(x0, y0) + spec_point_bytes(x1, y1) + spec_point_bytes(x2, y2),
            PATH_TAG_CUBIC_TO_F32,
        )
    }
}

/// The effect of one `PathCommand`.
pub open spec fn spec_apply_command(v: PathEncView, c: PathCommand, is_fill: bool) -> PathEncView {
    match c {
        PathCommand::MoveTo { x, y } => spec_move_to(v, x, y, is_fill),
        PathCommand::LineTo { x, y } => spec_line_to(v, x, y),
        PathCommand::QuadTo { x0, y0, x1, y1 } => spec_quad_to(v, x0, y0, x1, y1),
        PathCommand::CubicTo { x0, y0, x1, y1, x2, y2 } => spec_cubic_to(v, x0, y0, x1, y1, x2, y2),
        PathCommand::Close => spec_close(v),
    }
}

/// The effect of a whole command sequence on a fresh encoder.
pub open spec fn spec_run_commands(v: PathEncView, cmds: Seq<PathCommand>, is_fill: bool) -> PathEncView
    decreases cmds.len(),
{
    if cmds.len() == 0 {
        v
    } else {
        spec_apply_command(spec_run_commands(v, cmds.drop_last(), is_fill), cmds.last(), is_fill)
    }
}

/// Builds the tag and coordinate streams of a single path. The encoder
/// owns its buffers; `finish` hands them to an `Encoding`.
#[derive(Clone, Debug)]
pub struct PathEncoder {
    /// Tags of this path's segments.
    pub tags: Vec<PathTag>,
    /// Coordinate bytes of this path's segments.
    pub data: Vec<u8>,
    /// Subpath state.
    pub state: PathState,
    /// Bit pattern of the current subpath's first x coordinate.
    pub first_x: u32,
    /// Bit pattern of the current subpath's first y coordinate.
    pub first_y: u32,
    /// Segments emitted so far.
    pub n_encoded_segments: u32,
    /// Whether open subpaths are closed automatically.
    pub is_fill: bool,
}

impl PathEncoder {
    /// The encoder's value as spec data.
    pub open spec fn view(self) -> PathEncView {
        PathEncView {
            tags: self.tags@,
            data: self.data@,
            state: self.state,
            first_x: self.first_x,
            first_y: self.first_y,
            n_segs: self.n_encoded_segments as nat,
        }
    }

    /// Basic well-formedness: whenever a subpath is in progress the data
    /// stream holds at least its start point.
    pub open spec fn inv(self) -> bool {
        &&& !(self.state is Start) ==> self.data@.len() >= 8
        &&& self.data@.len() % 4 == 0
    }

    /// A fresh encoder for one path.
    pub fn new(is_fill: bool) -> (r: PathEncoder)
        ensures
            r.view() == (PathEncView {
                tags: Seq::<PathTag>::empty(),
                data: Seq::<u8>::empty(),
                state: PathState::Start,
                first_x: 0,
                first_y: 0,
                n_segs: 0,
            }),
            r.is_fill == is_fill,
            r.inv(),
    {
        let r = PathEncoder {
            tags: Vec::new(),
            data: Vec::new(),
            state: PathState::Start,
            first_x: 0,
            first_y: 0,
            n_encoded_segments: 0,
            is_fill,
        };
        proof {
            assert(r.tags@ =~= Seq::<PathTag>::empty());
            assert(r.data@ =~= Seq::<u8>::empty());
        }
        r
    }

    /// Sets the subpath-end bit on the last tag written, if any.
    pub(crate) fn mark_subpath_end(&mut self)
        ensures
            final(self).tags@ == spec_mark_subpath_end(old(self).tags@),
            final(self).data == old(self).data,
            final(self).state == old(self).state,
            final(self).first_x == old(self).first_x,
            final(self).first_y == old(self).first_y,
            final(self).n_encoded_segments == old(self).n_encoded_segments,
            final(self).is_fill == old(self).is_fill,
    {
        if self.tags.len() > 0 {
            let t = self.tags.pop().unwrap();
            self.tags.push(PathTag(t.0 | PATH_TAG_SUBPATH_END_BIT));
            proof {
                assert(self.tags@ =~= spec_mark_subpath_end(old(self).tags@));
            }
        }
    }

    /// True when the last eight data bytes are exactly the bytes of the
    /// current subpath's first point.
    fn ends_at_first_point(&self) -> (r: bool)
        requires
            self.data@.len() >= 8,
        ensures
            r == (self.data@.subrange(self.data@.len() - 8, self.data@.len() as int)
                == spec_point_bytes(self.first_x, self.first_y)),
    {
        let l = self.data.len();
        let x = self.first_x;
        let y = self.first_y;
        let r = self.data[l - 8] == (x & 0xff) as u8 && self.data[l - 7] == ((x >> 8) & 0xff) as u8
            && self.data[l - 6] == ((x >> 16) & 0xff) as u8 && self.data[l - 5] == ((x >> 24)
            & 0xff) as u8 && self.data[l - 4] == (y & 0xff) as u8 && self.data[l - 3] == ((y >> 8)
            & 0xff) as u8 && self.data[l - 2] == ((y >> 16) & 0xff) as u8 && self.data[l - 1] == ((y
            >> 24) & 0xff) as u8;
        proof {
            let tail = self.data@.subrange(self.data@.len() - 8, self.data@.len() as int);
            let pt = spec_point_bytes(x, y);
            if r {
                assert(tail =~= pt);
            } else {
                assert(tail.len() == pt.len());
                assert(tail != pt) by {
                    if tail == pt {
                        assert(tail[0] == pt[0]);
                        assert(tail[1] == pt[1]);
                        assert(tail[2] == pt[2]);
                        assert(tail[3] == pt[3]);
                        assert(tail[4] == pt[4]);
                        assert(tail[5] == pt[5]);
                        assert(tail[6] == pt[6]);
                        assert(tail[7] == pt[7]);
                    }
                }
            }
        }
        r
    }

    /// Writes the eight bytes of a point.
    fn push_point(&mut self, x: u32, y: u32)
        ensures
            final(self).data@ == old(self).data@ + spec_point_bytes(x, y),
            final(self).tags == old(self).tags,
            final(self).state == old(self).state,
            final(self).first_x == old(self).first_x,
            final(self).first_y == old(self).first_y,
            final(self).n_encoded_segments == old(self).n_encoded_segments,
            final(self).is_fill == old(self).is_fill,
    {
        push_u32_le(&mut self.data, x);
        push_u32_le(&mut self.data, y);
        proof {
            assert(self.data@ =~= old(self).data@ + spec_point_bytes(x, y));
        }
    }

    /// Closes the current subpath, adding a closing line segment when the
    /// subpath does not already end at its first point.
    pub fn close(&mut self)
        requires
            old(self).inv(),
            old(self).n_encoded_segments < 0xFFFF_FFFF,
        ensures
            final(self).view() == spec_close(old(self).view()),
            final(self).is_fill == old(self).is_fill,
            final(self).inv(),
    {
        match self.state {
            PathState::Start => return,
            PathState::MoveTo => return,
            PathState::NonemptySubpath => (),
        }
        let len = self.data.len();
        if len < 8 {
            return;
        }
        if !self.ends_at_first_point() {
            let x = self.first_x;
            let y = self.first_y;
            self.push_point(x, y);
            self.tags.push(PathTag(PATH_TAG_LINE_TO_F32 | PATH_TAG_SUBPATH_END_BIT));
            self.n_encoded_segments = self.n_encoded_segments + 1;
        } else {
            self.mark_subpath_end();
        }
        self.state = PathState::Start;
    }

    /// Starts a new subpath, sealing or replacing any subpath in
    /// progress; filled paths close the previous subpath first.
    pub fn move_to(&mut self, x: u32, y: u32)
        requires
            old(self).inv(),
            old(self).n_encoded_segments < 0xFFFF_FFFF,
        ensures
            final(self).view() == spec_move_to(old(self).view(), x, y, old(self).is_fill),
            final(self).is_fill == old(self).is_fill,
            final(self).inv(),
    {
        if self.is_fill {
            self.close();
        }
        if self.state == PathState::MoveTo {
            let new_len = self.data.len() - 8;
            self.data.truncate(new_len);
        } else if self.state == PathState::NonemptySubpath {
            self.mark_subpath_end();
        }
        self.push_point(x, y);
        self.first_x = x;
        self.first_y = y;
        self.state = PathState::MoveTo;
    }

    /// Encodes a line segment.
    pub fn line_to(&mut self, x: u32, y: u32)
        requires
            old(self).inv(),
            old(self).n_encoded_segments < 0xFFFF_FFFE,
        ensures
            final(self).view() == spec_line_to(old(self).view(), x, y),
            final(self).is_fill == old(self).is_fill,
            final(self).inv(),
    {
        if self.state == PathState::Start {
            if self.n_encoded_segments == 0 {
                // A path that opens with a segment starts at that
                // segment's end point, matching outline producers.
                self.move_to(x, y);
                return;
            }
            let fx = self.first_x;
            let fy = self.first_y;
            self.move_to(fx, fy);
        }
        self.push_point(x, y);
        self.tags.push(PathTag(PATH_TAG_LINE_TO_F32));
        self.n_encoded_segments = self.n_encoded_segments + 1;
        self.state = PathState::NonemptySubpath;
    }

    /// Encodes a quadratic segment.
    pub fn quad_to(&mut self, x0: u32, y0: u32, x1: u32, y1: u32)
        requires
            old(self).inv(),
            old(self).n_encoded_segments < 0xFFFF_FFFE,
        ensures
            final(self).view() == spec_quad_to(old(self).view(), x0, y0, x1, y1),
            final(self).is_fill == old(self).is_fill,
            final(self).inv(),
    {
        if self.state == PathState::Start {
            if self.n_encoded_segments == 0 {
                self.move_to(x1, y1);
                return;
            }
            let fx = self.first_x;
            let fy = self.first_y;
            self.move_to(fx, fy);
        }
        let ghost mid = self.view();
        self.push_point(x0, y0);
        self.push_point(x1, y1);
        self.tags.push(PathTag(PATH_TAG_QUAD_TO_F32));
        self.n_encoded_segments = self.n_encoded_segments + 1;
        self.state = PathState::NonemptySubpath;
        proof {
            assert(self.data@ =~= mid.data + (spec_point_bytes(x0, y0) + spec_point_bytes(
                x1,
                y1,
            )));
        }
    }

    /// Encodes a cubic segment.
    pub fn cubic_to(&mut self, x0: u32, y0: u32, x1: u32, y1: u32, x2: u32, y2: u32)
        requires
            old(self).inv(),
            old(self).n_encoded_segments < 0xFFFF_FFFE,
        ensures
            final(self).view() == spec_cubic_to(old(self).view(), x0, y0, x1, y1, x2, y2),
            final(self).is_fill == old(self).is_fill,
            final(self).inv(),
    {
        if self.state == PathState::Start {
            if self.n_encoded_segments == 0 {
                self.move_to(x2, y2);
                return;
            }
            let fx = self.first_x;
            let fy = self.first_y;
            self.move_to(fx, fy);
        }
        let ghost mid = self.view();
        self.push_point(x0, y0);
        self.push_point(x1, y1);
        self.push_point(x2, y2);
        self.tags.push(PathTag(PATH_TAG_CUBIC_TO_F32));
        self.n_encoded_segments = self.n_encoded_segments + 1;
        self.state = PathState::NonemptySubpath;
        proof {
            assert(self.data@ =~= mid.data + (spec_point_bytes(x0, y0) + spec_point_bytes(x1, y1)
                + spec_point_bytes(x2, y2)));
        }
    }

    /// Applies one command.
    pub fn apply_command(&mut self, c: PathCommand)
        requires
            old(self).inv(),
            old(self).n_encoded_segments < 0xFFFF_FFFE,
        ensures
            final(self).view() == spec_apply_command(old(self).view(), c, old(self).is_fill),
            final(self).is_fill == old(self).is_fill,
            final(self).inv(),
    {
        match c {
            PathCommand::MoveTo { x, y } => self.move_to(x, y),
            PathCommand::LineTo { x, y } => self.line_to(x, y),
            PathCommand::QuadTo { x0, y0, x1, y1 } => self.quad_to(x0, y0, x1, y1),
            PathCommand::CubicTo { x0, y0, x1, y1, x2, y2 } => self.cubic_to(
                x0,
                y0,
                x1,
                y1,
                x2,
                y2,
            ),
            PathCommand::Close => self.close(),
        }
    }
}

} // verus!
