//! The straight runs of a chain, and the test that finds a chain in its own
//! way.

use crate::point::{fits_i32, vec_scale, vec_sub, Point};
use crate::rectilinear::{
    move_position, Axis, ChainedLineSegment, Direction, LineModel, RectilinearLine,
};
use std::collections::VecDeque;
use vstd::prelude::*;

verus! {

/// A maximal straight stretch of a chain. It extends from `pos` to the
/// right if `axis` is horizontal, and downwards if it is vertical.
#[derive(Debug, Copy, Clone, PartialEq, Eq, Structural)]
pub struct StraightLineSegment {
    pub pos: Point,
    pub len: usize,
    pub axis: Axis,
}

/// A run as the contracts see it.
pub struct RunModel {
    pub x: int,
    pub y: int,
    pub len: nat,
    pub axis: Axis,
}

impl View for StraightLineSegment {
    type V = RunModel;

    open spec fn view(&self) -> RunModel {
        RunModel {
            x: self.pos.x as int,
            y: self.pos.y as int,
            len: self.len as nat,
            axis: self.axis,
        }
    }
}

impl RunModel {
    /// The far end of the run and its length can be held in an `i32`.
    pub open spec fn fits(self) -> bool {
        &&& self.len <= i32::MAX
        &&& fits_i32(self.x)
        &&& fits_i32(self.y)
        &&& self.axis == Axis::Horizontal ==> fits_i32(self.x + self.len)
        &&& self.axis == Axis::Vertical ==> fits_i32(self.y + self.len)
    }
}

impl LineModel {
    pub open spec fn axis_of(self, i: int) -> Axis {
        self.segments[i].dir.spec_axis()
    }

    /// Segment `i` as a run: the same cells, told from their left or upper
    /// end.
    pub open spec fn run(self, i: int) -> RunModel {
        let s = self.segments[i];
        RunModel {
            x: if s.dir == Direction::Left {
                self.joint_x(i) - s.len
            } else {
                self.joint_x(i)
            },
            y: if s.dir == Direction::Up {
                self.joint_y(i) - s.len
            } else {
                self.joint_y(i)
            },
            len: s.len,
            axis: s.dir.spec_axis(),
        }
    }
}

/// In a chain that fits, every run fits.
pub proof fn lemma_run_fits(c: LineModel, i: int)
    requires
        c.fits(),
        0 <= i < c.segments.len(),
    ensures
        c.run(i).fits(),
{
    assert(c.joint_fits(i));
    assert(c.joint_fits(i + 1));
    assert(c.segments[i].len <= i32::MAX);
}

/// A traversal of a line that hands out, in order, the runs that lie on one
/// axis.
pub struct StraightLineSegmentIter<'a> {
    segments: &'a VecDeque<ChainedLineSegment>,
    index: usize,
    pos: Point,
    axis: Axis,
    line: Ghost<LineModel>,
}

impl<'a> StraightLineSegmentIter<'a> {
    /// The line that is traversed.
    pub closed spec fn line(&self) -> LineModel {
        self.line@
    }

    /// The axis of the runs that are handed out.
    pub closed spec fn axis(&self) -> Axis {
        self.axis
    }

    /// How many segments of the line the traversal has passed.
    pub closed spec fn passed(&self) -> int {
        self.index as int
    }

    /// The traversal stands at a joint of its line, and the line fits.
    pub closed spec fn wf(&self) -> bool {
        &&& self.line@.segments == self.segments@.map_values(|s: ChainedLineSegment| s@)
        &&& self.index <= self.segments@.len()
        &&& self.pos.x == self.line@.joint_x(self.index as int)
        &&& self.pos.y == self.line@.joint_y(self.index as int)
        &&& self.line@.fits()
    }

    /// How many segments of the line the traversal has passed.
    pub fn passed_segments(&self) -> (count: usize)
        ensures
            count == self.passed(),
    {
        self.index
    }

    /// The next run on the traversal's axis, or `None` when no segment that
    /// is left lies on it.
    pub fn next(&mut self) -> (r: Option<StraightLineSegment>)
        requires
            old(self).wf(),
        ensures
            final(self).wf(),
            final(self).line() == old(self).line(),
            final(self).axis() == old(self).axis(),
            0 <= old(self).passed() <= final(self).passed() <= old(self).line().segments.len(),
            match r {
                Some(s) => {
                    &&& old(self).passed() < final(self).passed()
                    &&& s@ == old(self).line().run(final(self).passed() - 1)
                    &&& s@.axis == old(self).axis()
                    &&& s@.fits()
                    &&& forall|j: int|
                        old(self).passed() <= j < final(self).passed() - 1 ==> old(
                            self,
                        ).line().axis_of(j) != old(self).axis()
                },
                None => {
                    &&& final(self).passed() == old(self).line().segments.len()
                    &&& forall|j: int|
                        old(self).passed() <= j < final(self).passed() ==> old(self).line().axis_of(
                            j,
                        ) != old(self).axis()
                },
            },
    {
        let count: usize = self.segments.len();
        while self.index < count
            invariant
                self.wf(),
                count == self.segments@.len(),
                self.line == old(self).line,
                self.axis == old(self).axis,
                self.segments == old(self).segments,
                old(self).index <= self.index <= count,
                forall|j: int|
                    old(self).index <= j < self.index ==> self.line@.axis_of(j) != self.axis,
            decreases count - self.index,
        {
            let segment = self.segments[self.index];
            let cur_pos = self.pos;
            let seg_len: i32 = segment.len as i32;
            proof {
                let c = self.line@;
                let i = self.index as int;
                assert(c.segments[i] == segment@);
                assert(segment.len <= i32::MAX);
                assert(seg_len == segment.len);
                assert(c.joint_fits(i));
                assert(c.joint_fits(i + 1));
                lemma_run_fits(c, i);
                assert(seg_len * 1 == seg_len && seg_len * 0 == 0) by (nonlinear_arith);
            }
            self.pos = move_position(cur_pos, segment.dir, seg_len);
            self.index = self.index + 1;
            if segment.dir.axis() == self.axis {
                let seg_pos = match segment.dir {
                    Direction::Right => cur_pos,
                    Direction::Left => vec_sub(cur_pos, vec_scale(seg_len, Point { x: 1, y: 0 })),
                    Direction::Up => vec_sub(cur_pos, vec_scale(seg_len, Point { x: 0, y: 1 })),
                    Direction::Down => cur_pos,
                };
                return Some(StraightLineSegment { pos: seg_pos, len: segment.len, axis: self.axis });
            }
        }
        None
    }
}

impl RectilinearLine {
    /// A traversal of the horizontal runs of the line.
    pub fn horizontal_segments(&self) -> (it: StraightLineSegmentIter<'_>)
        requires
            self@.fits(),
        ensures
            it.wf(),
            it.line() == self@,
            it.axis() == Axis::Horizontal,
            it.passed() == 0,
    {
        StraightLineSegmentIter {
            segments: &self.segments,
            index: 0,
            pos: self.start,
            axis: Axis::Horizontal,
            line: Ghost(self@),
        }
    }

    /// A traversal of the vertical runs of the line.
    pub fn vertical_segments(&self) -> (it: StraightLineSegmentIter<'_>)
        requires
            self@.fits(),
        ensures
            it.wf(),
            it.line() == self@,
            it.axis() == Axis::Vertical,
            it.passed() == 0,
    {
        StraightLineSegmentIter {
            segments: &self.segments,
            index: 0,
            pos: self.start,
            axis: Axis::Vertical,
            line: Ghost(self@),
        }
    }
}


/// How a coordinate meets a closed interval.
#[derive(Debug, Copy, Clone, PartialEq, Eq, Structural)]
pub enum Overlap {
    /// On one of the two ends.
    Corner,
    /// Strictly between the ends.
    Line,
}

/// Where `x` meets the closed interval from `x0` to `x1`, if it does.
pub fn intersects(x: i32, x0: i32, x1: i32) -> (r: Option<Overlap>)
    ensures
        r == Some(Overlap::Corner) <==> (x == x0 || x == x1),
        r == Some(Overlap::Line) <==> (x != x0 && x != x1 && x0 < x < x1),
        r.is_none() <==> !(x == x0 || x == x1 || x0 < x < x1),
{
    if x == x0 || x == x1 {
        Some(Overlap::Corner)
    } else if x0 < x && x < x1 {
        Some(Overlap::Line)
    } else {
        None
    }
}

/// Two closed intervals on one line share a point.
pub open spec fn intervals_meet(a0: int, a1: int, b0: int, b1: int) -> bool {
    a0 <= b1 && b0 <= a1
}

/// Whether two intervals share a point: an end of one lies in the other.
pub fn lines_overlap(a: (i32, i32), b: (i32, i32)) -> (r: bool)
    requires
        a.0 <= a.1,
        b.0 <= b.1,
    ensures
        r == intervals_meet(a.0 as int, a.1 as int, b.0 as int, b.1 as int),
{
    if intersects(b.0, a.0, a.1).is_some() {
        return true;
    }
    if intersects(b.1, a.0, a.1).is_some() {
        return true;
    }
    if intersects(a.0, b.0, b.1).is_some() {
        return true;
    }
    if intersects(a.1, b.0, b.1).is_some() {
        return true;
    }
    false
}

/// A vertical run `v` and a horizontal run `h` share a cell: the one in
/// the column of `v` and the row of `h`.
pub open spec fn meet_across(v: RunModel, h: RunModel) -> bool {
    &&& h.x <= v.x <= h.x + h.len
    &&& v.y <= h.y <= v.y + v.len
}

/// Two horizontal runs lie on one row and share a cell.
pub open spec fn meet_in_row(a: RunModel, b: RunModel) -> bool {
    a.y == b.y && intervals_meet(a.x, a.x + a.len, b.x, b.x + b.len)
}

/// Two vertical runs lie in one column and share a cell.
pub open spec fn meet_in_column(a: RunModel, b: RunModel) -> bool {
    a.x == b.x && intervals_meet(a.y, a.y + a.len, b.y, b.y + b.len)
}

/// Two runs share a cell.
pub open spec fn meet(a: RunModel, b: RunModel) -> bool {
    match (a.axis, b.axis) {
        (Axis::Vertical, Axis::Horizontal) => meet_across(a, b),
        (Axis::Horizontal, Axis::Vertical) => meet_across(b, a),
        (Axis::Horizontal, Axis::Horizontal) => meet_in_row(a, b),
        (Axis::Vertical, Axis::Vertical) => meet_in_column(a, b),
    }
}

/// Segments `i` and `j` follow one another in the chain.
pub open spec fn neighbours(i: int, j: int) -> bool {
    j == i + 1 || i == j + 1
}

impl LineModel {
    /// The runs of segments `i` and `j` are in each other's way: they are
    /// two runs that share a cell, and that cell is not just the joint of
    /// two neighbours that lie on different axes. Two neighbours on one
    /// axis are always in each other's way.
    pub open spec fn clash_at(self, i: int, j: int) -> bool {
        &&& i != j
        &&& meet(self.run(i), self.run(j))
        &&& !(neighbours(i, j) && self.axis_of(i) != self.axis_of(j))
    }

    /// The chain meets itself: some two of its runs are in each other's
    /// way.
    pub open spec fn overlapping(self) -> bool {
        exists|i: int, j: int|
            0 <= i < self.segments.len() && 0 <= j < self.segments.len() && #[trigger] self.clash_at(
                i,
                j,
            )
    }
}

/// Whether a vertical and a horizontal run share a cell.
pub fn runs_meet(v_seg: &StraightLineSegment, h_seg: &StraightLineSegment) -> (r: bool)
    requires
        v_seg@.axis == Axis::Vertical,
        h_seg@.axis == Axis::Horizontal,
        v_seg@.fits(),
        h_seg@.fits(),
    ensures
        r == meet_across(v_seg@, h_seg@),
{
    let h_x0: i32 = h_seg.pos.x;
    let h_x1: i32 = h_seg.pos.x + h_seg.len as i32;
    let h_y: i32 = h_seg.pos.y;

    let v_y0: i32 = v_seg.pos.y;
    let v_y1: i32 = v_seg.pos.y + v_seg.len as i32;
    let v_x: i32 = v_seg.pos.x;

    intersects(v_x, h_x0, h_x1).is_some() && intersects(h_y, v_y0, v_y1).is_some()
}

impl RectilinearLine {
    /// Whether the line meets itself anywhere but in the points where two
    /// of its segments join at a turn.
    pub fn is_self_overlapping(&self) -> (r: bool)
        requires
            self@.fits(),
        ensures
            r == self@.overlapping(),
    {
        let ghost c = self@;
        let ghost n = c.segments.len() as int;

        /* Check vertical segments against horizontal */
        let mut v_iter = self.vertical_segments();
        loop
            invariant
                v_iter.wf(),
                v_iter.line() == c,
                v_iter.axis() == Axis::Vertical,
                c == self@,
                n == c.segments.len(),
                c.fits(),
                0 <= v_iter.passed() <= n,
                forall|i: int, j: int|
                    0 <= i < v_iter.passed() && 0 <= j < n && c.axis_of(i) == Axis::Vertical
                        && c.axis_of(j) == Axis::Horizontal ==> !#[trigger] c.clash_at(i, j),
            ensures
                v_iter.passed() == n,
            decreases n - v_iter.passed(),
        {
            let v_next = v_iter.next();
            if v_next.is_none() {
                break ;
            }
            let v_seg = v_next.unwrap();
            let v_index: usize = v_iter.passed_segments() - 1;
            let mut h_iter = self.horizontal_segments();
            loop
                invariant
                    h_iter.wf(),
                    h_iter.line() == c,
                    h_iter.axis() == Axis::Horizontal,
                    c == self@,
                    n == c.segments.len(),
                    c.fits(),
                    0 <= v_index < n,
                    v_seg@ == c.run(v_index as int),
                    v_seg@.axis == Axis::Vertical,
                    v_seg@.fits(),
                    0 <= h_iter.passed() <= n,
                    forall|j: int|
                        0 <= j < h_iter.passed() && c.axis_of(j) == Axis::Horizontal
                            ==> !#[trigger] c.clash_at(v_index as int, j),
                ensures
                    h_iter.passed() == n,
                decreases n - h_iter.passed(),
            {
                let h_next = h_iter.next();
                if h_next.is_none() {
                    break ;
                }
                let h_seg = h_next.unwrap();
                let h_index: usize = h_iter.passed_segments() - 1;
                // two segments that follow one another share their joint
                let joined = (h_index > 0 && h_index - 1 == v_index) || (v_index > 0 && v_index - 1
                    == h_index);
                if !joined && runs_meet(&v_seg, &h_seg) {
                    assert(c.clash_at(v_index as int, h_index as int));
                    return true;
                }
            }
        }

        /* Check horizontal segments against horizontal */
        let mut ha_iter = self.horizontal_segments();
        loop
            invariant
                ha_iter.wf(),
                ha_iter.line() == c,
                ha_iter.axis() == Axis::Horizontal,
                c == self@,
                n == c.segments.len(),
                c.fits(),
                0 <= ha_iter.passed() <= n,
                forall|i: int, j: int|
                    0 <= i < ha_iter.passed() && i < j < n && c.axis_of(i) == Axis::Horizontal
                        && c.axis_of(j) == Axis::Horizontal ==> !#[trigger] c.clash_at(i, j),
            ensures
                ha_iter.passed() == n,
            decreases n - ha_iter.passed(),
        {
            let a_next = ha_iter.next();
            if a_next.is_none() {
                break ;
            }
            let seg_a = a_next.unwrap();
            let ghost ai = ha_iter.passed() - 1;
            // the runs that come after this one
            let mut hb_iter = StraightLineSegmentIter {
                segments: ha_iter.segments,
                index: ha_iter.index,
                pos: ha_iter.pos,
                axis: ha_iter.axis,
                line: ha_iter.line,
            };
            loop
                invariant
                    hb_iter.wf(),
                    hb_iter.line() == c,
                    hb_iter.axis() == Axis::Horizontal,
                    c == self@,
                    n == c.segments.len(),
                    c.fits(),
                    0 <= ai < n,
                    seg_a@ == c.run(ai),
                    seg_a@.axis == Axis::Horizontal,
                    seg_a@.fits(),
                    ai < hb_iter.passed() <= n,
                    forall|j: int|
                        ai < j < hb_iter.passed() && c.axis_of(j) == Axis::Horizontal
                            ==> !#[trigger] c.clash_at(ai, j),
                ensures
                    hb_iter.passed() == n,
                decreases n - hb_iter.passed(),
            {
                let b_next = hb_iter.next();
                if b_next.is_none() {
                    break ;
                }
                let seg_b = b_next.unwrap();
                if seg_a.pos.y == seg_b.pos.y {
                    if lines_overlap(
                        (seg_a.pos.x, seg_a.pos.x + seg_a.len as i32),
                        (seg_b.pos.x, seg_b.pos.x + seg_b.len as i32),
                    ) {
                        assert(c.clash_at(ai, hb_iter.passed() - 1));
                        return true;
                    }
                }
            }
        }

        /* Check vertical segments against vertical */
        let mut va_iter = self.vertical_segments();
        loop
            invariant
                va_iter.wf(),
                va_iter.line() == c,
                va_iter.axis() == Axis::Vertical,
                c == self@,
                n == c.segments.len(),
                c.fits(),
                0 <= va_iter.passed() <= n,
                forall|i: int, j: int|
                    0 <= i < va_iter.passed() && i < j < n && c.axis_of(i) == Axis::Vertical
                        && c.axis_of(j) == Axis::Vertical ==> !#[trigger] c.clash_at(i, j),
            ensures
                va_iter.passed() == n,
            decreases n - va_iter.passed(),
        {
            let a_next = va_iter.next();
            if a_next.is_none() {
                break ;
            }
            let seg_a = a_next.unwrap();
            let ghost ai = va_iter.passed() - 1;
            // the runs that come after this one
            let mut vb_iter = StraightLineSegmentIter {
                segments: va_iter.segments,
                index: va_iter.index,
                pos: va_iter.pos,
                axis: va_iter.axis,
                line: va_iter.line,
            };
            loop
                invariant
                    vb_iter.wf(),
                    vb_iter.line() == c,
                    vb_iter.axis() == Axis::Vertical,
                    c == self@,
                    n == c.segments.len(),
                    c.fits(),
                    0 <= ai < n,
                    seg_a@ == c.run(ai),
                    seg_a@.axis == Axis::Vertical,
                    seg_a@.fits(),
                    ai < vb_iter.passed() <= n,
                    forall|j: int|
                        ai < j < vb_iter.passed() && c.axis_of(j) == Axis::Vertical
                            ==> !#[trigger] c.clash_at(ai, j),
                ensures
                    vb_iter.passed() == n,
                decreases n - vb_iter.passed(),
            {
                let b_next = vb_iter.next();
                if b_next.is_none() {
                    break ;
                }
                let seg_b = b_next.unwrap();
                if seg_a.pos.x == seg_b.pos.x {
                    if lines_overlap(
                        (seg_a.pos.y, seg_a.pos.y + seg_a.len as i32),
                        (seg_b.pos.y, seg_b.pos.y + seg_b.len as i32),
                    ) {
                        assert(c.clash_at(ai, vb_iter.passed() - 1));
                        return true;
                    }
                }
            }
        }

        // couldn't find any overlapping segments
        proof {
            assert forall|i: int, j: int| 0 <= i < n && 0 <= j < n implies !#[trigger] c.clash_at(
                i,
                j,
            ) by {
                if c.axis_of(i) == Axis::Vertical && c.axis_of(j) == Axis::Horizontal {
                    assert(!c.clash_at(i, j));
                } else if c.axis_of(i) == Axis::Horizontal && c.axis_of(j) == Axis::Vertical {
                    assert(!c.clash_at(j, i));
                } else if i < j {
                    assert(!c.clash_at(i, j));
                } else if j < i {
                    assert(!c.clash_at(j, i));
                }
            }
        }
        false
    }
}

} // verus!
