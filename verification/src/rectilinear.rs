//! A rectilinear chain: a start point and a sequence of axis-aligned
//! segments, each leaving from where the one before it ended.

use crate::point::{fits_i32, vec_add, Point};
use std::collections::VecDeque;
use vstd::prelude::*;

verus! {

#[derive(Debug, Copy, Clone, PartialEq, Eq, Structural)]
pub enum Direction {
    Right,
    Left,
    Up,
    Down,
}

#[derive(Debug, Copy, Clone, PartialEq, Eq, Structural)]
pub enum Axis {
    Horizontal,
    Vertical,
}

impl Direction {
    pub open spec fn spec_axis(self) -> Axis {
        match self {
            Direction::Right | Direction::Left => Axis::Horizontal,
            Direction::Up | Direction::Down => Axis::Vertical,
        }
    }

    pub open spec fn spec_opposite(self) -> Direction {
        match self {
            Direction::Right => Direction::Left,
            Direction::Left => Direction::Right,
            Direction::Up => Direction::Down,
            Direction::Down => Direction::Up,
        }
    }

    /// How far `len` steps in this direction move a point along `x`.
    pub open spec fn along_x(self, len: int) -> int {
        match self {
            Direction::Right => len,
            Direction::Left => -len,
            Direction::Up | Direction::Down => 0,
        }
    }

    /// How far `len` steps in this direction move a point along `y`.
    /// Up is towards smaller `y`.
    pub open spec fn along_y(self, len: int) -> int {
        match self {
            Direction::Up => -len,
            Direction::Down => len,
            Direction::Right | Direction::Left => 0,
        }
    }

    pub fn axis(&self) -> (a: Axis)
        ensures
            a == self.spec_axis(),
    {
        match self {
            Direction::Right => Axis::Horizontal,
            Direction::Left => Axis::Horizontal,
            Direction::Up => Axis::Vertical,
            Direction::Down => Axis::Vertical,
        }
    }

    pub fn opposite(&self) -> (d: Direction)
        ensures
            d == self.spec_opposite(),
    {
        match self {
            Direction::Right => Direction::Left,
            Direction::Left => Direction::Right,
            Direction::Up => Direction::Down,
            Direction::Down => Direction::Up,
        }
    }

    /// One step in this direction, as a vector.
    pub fn unit(&self) -> (p: Point)
        ensures
            p.x == self.along_x(1),
            p.y == self.along_y(1),
    {
        match self {
            Direction::Right => Point { x: 1, y: 0 },
            Direction::Left => Point { x: -1, y: 0 },
            Direction::Up => Point { x: 0, y: -1 },
            Direction::Down => Point { x: 0, y: 1 },
        }
    }
}

/// `pos` moved by `len` steps in direction `dir`.
pub fn move_position(pos: Point, dir: Direction, len: i32) -> (r: Point)
    requires
        fits_i32(dir.along_x(len as int)),
        fits_i32(dir.along_y(len as int)),
        fits_i32(pos.x + dir.along_x(len as int)),
        fits_i32(pos.y + dir.along_y(len as int)),
    ensures
        r.x == pos.x + dir.along_x(len as int),
        r.y == pos.y + dir.along_y(len as int),
{
    let delta = match dir {
        Direction::Right => Point { x: len, y: 0 },
        Direction::Left => Point { x: -len, y: 0 },
        Direction::Up => Point { x: 0, y: -len },
        Direction::Down => Point { x: 0, y: len },
    };
    vec_add(pos, delta)
}

/// One segment of a chain: `len` steps in direction `dir`.
#[derive(Debug, Copy, Clone, PartialEq, Eq, Structural)]
pub struct ChainedLineSegment {
    pub dir: Direction,
    pub len: usize,
}

/// A segment as the contracts see it.
pub struct SegmentModel {
    pub dir: Direction,
    pub len: nat,
}

impl View for ChainedLineSegment {
    type V = SegmentModel;

    open spec fn view(&self) -> SegmentModel {
        SegmentModel { dir: self.dir, len: self.len as nat }
    }
}

/// A chain as the contracts see it: where it starts, and its segments from
/// the tail end to the head end.
pub struct LineModel {
    pub x: int,
    pub y: int,
    pub segments: Seq<SegmentModel>,
}

impl LineModel {
    /// The summed length of the first `i` segments.
    pub open spec fn prefix_len(self, i: int) -> nat
        decreases i,
    {
        if i <= 0 {
            0
        } else {
            self.prefix_len(i - 1) + self.segments[i - 1].len
        }
    }

    /// The length of the chain: one for the head cell, and the length of
    /// every segment.
    pub open spec fn len(self) -> nat {
        1 + self.prefix_len(self.segments.len() as int)
    }

    /// The `x` of joint `i`: where segment `i` leaves from, and for
    /// `i == segments.len()` the head.
    pub open spec fn joint_x(self, i: int) -> int
        decreases i,
    {
        if i <= 0 {
            self.x
        } else {
            self.joint_x(i - 1) + self.segments[i - 1].dir.along_x(self.segments[i - 1].len as int)
        }
    }

    /// The `y` of joint `i`.
    pub open spec fn joint_y(self, i: int) -> int
        decreases i,
    {
        if i <= 0 {
            self.y
        } else {
            self.joint_y(i - 1) + self.segments[i - 1].dir.along_y(self.segments[i - 1].len as int)
        }
    }

    pub open spec fn head_x(self) -> int {
        self.joint_x(self.segments.len() as int)
    }

    pub open spec fn head_y(self) -> int {
        self.joint_y(self.segments.len() as int)
    }

    /// Joint `i` has `i32` coordinates.
    pub open spec fn joint_fits(self, i: int) -> bool {
        fits_i32(self.joint_x(i)) && fits_i32(self.joint_y(i))
    }

    /// Every joint has `i32` coordinates and every length fits an `i32`:
    /// what the arithmetic on the chain needs of the machine.
    pub open spec fn fits(self) -> bool {
        &&& forall|i: int|
            0 <= i <= self.segments.len() ==> #[trigger] self.joint_fits(i)
        &&& forall|i: int|
            0 <= i < self.segments.len() ==> (#[trigger] self.segments[i]).len <= i32::MAX
    }

    /// Every segment has a length of at least one.
    pub open spec fn valid(self) -> bool {
        forall|i: int| 0 <= i < self.segments.len() ==> (#[trigger] self.segments[i]).len >= 1
    }

    /// Segment `i` lies on another axis than the segment before it.
    pub open spec fn turns_at(self, i: int) -> bool {
        self.segments[i].dir.spec_axis() != self.segments[i - 1].dir.spec_axis()
    }

    /// No two consecutive segments lie on the same axis.
    pub open spec fn alternating(self) -> bool {
        forall|i: int| 0 < i < self.segments.len() ==> #[trigger] self.turns_at(i)
    }

    /// The heading: the direction of the head-adjacent segment of a chain
    /// of two or more segments.
    pub open spec fn dir(self) -> Option<Direction> {
        if self.segments.len() > 1 {
            Some(self.segments.last().dir)
        } else {
            None
        }
    }
    /// The chain after one unit has left its tail end: the start has moved
    /// one step along the tail segment, which has lost that step, and is
    /// gone if it had no more than one.
    pub open spec fn shrunk(self) -> LineModel
        recommends
            self.segments.len() > 0,
    {
        let tail = self.segments[0];
        LineModel {
            x: self.x + tail.dir.along_x(1),
            y: self.y + tail.dir.along_y(1),
            segments: if tail.len > 1 {
                self.segments.update(0, SegmentModel { dir: tail.dir, len: (tail.len - 1) as nat })
            } else {
                self.segments.subrange(1, self.segments.len() as int)
            },
        }
    }

    /// The chain after one unit in direction `dir` has joined its head end:
    /// the head segment is one longer if it points that way, else a new
    /// segment of length one follows it.
    pub open spec fn extended(self, dir: Direction) -> LineModel {
        let n = self.segments.len() as int;
        LineModel {
            x: self.x,
            y: self.y,
            segments: if n > 0 && self.segments[n - 1].dir == dir {
                self.segments.update(
                    n - 1,
                    SegmentModel { dir, len: self.segments[n - 1].len + 1 },
                )
            } else {
                self.segments.push(SegmentModel { dir, len: 1 })
            },
        }
    }

    /// The chain after one unit has joined its tail end: the start has
    /// moved one step back along the tail segment, which has gained that
    /// step. A chain without segments has no tail to grow along, and stays
    /// as it is.
    pub open spec fn grown(self) -> LineModel {
        if self.segments.len() == 0 {
            self
        } else {
            let tail = self.segments[0];
            LineModel {
                x: self.x - tail.dir.along_x(1),
                y: self.y - tail.dir.along_y(1),
                segments: self.segments.update(
                    0,
                    SegmentModel { dir: tail.dir, len: tail.len + 1 },
                ),
            }
        }
    }

    /// The `x` of the cell `k` steps along segment `i`.
    pub open spec fn cell_x(self, i: int, k: int) -> int {
        self.joint_x(i) + self.segments[i].dir.along_x(k)
    }

    /// The `y` of the cell `k` steps along segment `i`.
    pub open spec fn cell_y(self, i: int, k: int) -> int {
        self.joint_y(i) + self.segments[i].dir.along_y(k)
    }

    /// The cell `k` steps along segment `i` is `(x, y)`.
    pub open spec fn at_cell(self, i: int, k: int, x: int, y: int) -> bool {
        self.cell_x(i, k) == x && self.cell_y(i, k) == y
    }

    /// `(x, y)` is a cell of the chain: the start, or a cell along a
    /// segment, its two ends included.
    pub open spec fn occupies(self, x: int, y: int) -> bool {
        ||| (x == self.x && y == self.y)
        ||| exists|i: int, k: int|
            0 <= i < self.segments.len() && 0 <= k <= self.segments[i].len && #[trigger] self.at_cell(
                i,
                k,
                x,
                y,
            )
    }
}

/// The summed length of the first segments grows with their number.
pub proof fn lemma_prefix_len_grows(c: LineModel, i: int, j: int)
    requires
        i <= j,
    ensures
        c.prefix_len(i) <= c.prefix_len(j),
    decreases j - i,
{
    if i < j {
        lemma_prefix_len_grows(c, i, j - 1);
    }
}

/// Two chains that hold the same `i` segments, `c` from its segment `oc` on
/// and `d` from its segment `od` on, move by the same amount over them and
/// gain the same length.
pub proof fn lemma_same_stretch(c: LineModel, oc: int, d: LineModel, od: int, i: int)
    requires
        0 <= oc,
        0 <= od,
        0 <= i,
        forall|j: int| oc <= j < oc + i ==> #[trigger] c.segments[j] == d.segments[j - oc + od],
    ensures
        c.joint_x(oc + i) - c.joint_x(oc) == d.joint_x(od + i) - d.joint_x(od),
        c.joint_y(oc + i) - c.joint_y(oc) == d.joint_y(od + i) - d.joint_y(od),
        c.prefix_len(oc + i) - c.prefix_len(oc) == d.prefix_len(od + i) - d.prefix_len(od),
    decreases i,
{
    if i > 0 {
        lemma_same_stretch(c, oc, d, od, i - 1);
        assert(c.segments[oc + i - 1] == d.segments[od + i - 1]);
    }
}

/// What one unit leaving the tail end does to a chain whose tail segment
/// has a length: the start moves one step in that segment's direction, the
/// head stays, and the length goes down by one.
pub proof fn lemma_shrunk(c: LineModel)
    requires
        c.segments.len() > 0,
        c.segments[0].len >= 1,
    ensures
        c.shrunk().x == c.x + c.segments[0].dir.along_x(1),
        c.shrunk().y == c.y + c.segments[0].dir.along_y(1),
        c.shrunk().len() == c.len() - 1,
        c.shrunk().head_x() == c.head_x(),
        c.shrunk().head_y() == c.head_y(),
{
    let d = c.shrunk();
    let n = c.segments.len() as int;
    assert(c.joint_x(1) == c.joint_x(0) + c.segments[0].dir.along_x(c.segments[0].len as int));
    assert(c.joint_y(1) == c.joint_y(0) + c.segments[0].dir.along_y(c.segments[0].len as int));
    assert(c.prefix_len(1) == c.prefix_len(0) + c.segments[0].len);
    if c.segments[0].len > 1 {
        assert(d.joint_x(1) == d.joint_x(0) + d.segments[0].dir.along_x(d.segments[0].len as int));
        assert(d.joint_y(1) == d.joint_y(0) + d.segments[0].dir.along_y(d.segments[0].len as int));
        assert(d.prefix_len(1) == d.prefix_len(0) + d.segments[0].len);
        lemma_same_stretch(c, 1, d, 1, n - 1);
    } else {
        lemma_same_stretch(c, 1, d, 0, n - 1);
    }
}

/// What one unit joining the head end does to a chain: the start and the
/// joints before the head stay, the head moves one step in the direction
/// given, and the length goes up by one.
pub proof fn lemma_extended(c: LineModel, dir: Direction)
    ensures
        c.extended(dir).segments.len() > 0,
        c.extended(dir).x == c.x,
        c.extended(dir).y == c.y,
        c.extended(dir).len() == c.len() + 1,
        c.extended(dir).head_x() == c.head_x() + dir.along_x(1),
        c.extended(dir).head_y() == c.head_y() + dir.along_y(1),
        forall|i: int|
            0 <= i < c.extended(dir).segments.len() ==> c.extended(dir).joint_x(i) == c.joint_x(i)
                && c.extended(dir).joint_y(i) == c.joint_y(i),
{
    let d = c.extended(dir);
    let n = c.segments.len() as int;
    let m = d.segments.len() as int;
    assert forall|i: int| 0 <= i < m implies d.joint_x(i) == c.joint_x(i) && d.joint_y(i)
        == c.joint_y(i) && d.prefix_len(i) == c.prefix_len(i) by {
        lemma_same_stretch(c, 0, d, 0, i);
    }
    assert(d.joint_x(m) == d.joint_x(m - 1) + d.segments[m - 1].dir.along_x(
        d.segments[m - 1].len as int,
    ));
    assert(d.joint_y(m) == d.joint_y(m - 1) + d.segments[m - 1].dir.along_y(
        d.segments[m - 1].len as int,
    ));
    assert(d.prefix_len(m) == d.prefix_len(m - 1) + d.segments[m - 1].len);
    if n > 0 && c.segments[n - 1].dir == dir {
        assert(c.joint_x(n) == c.joint_x(n - 1) + c.segments[n - 1].dir.along_x(
            c.segments[n - 1].len as int,
        ));
        assert(c.joint_y(n) == c.joint_y(n - 1) + c.segments[n - 1].dir.along_y(
            c.segments[n - 1].len as int,
        ));
        assert(c.prefix_len(n) == c.prefix_len(n - 1) + c.segments[n - 1].len);
    }
}

/// What one unit joining the tail end does to a chain: the head stays and
/// the length goes up by one. One unit leaving the tail end then brings the
/// start back, and gives back the whole chain if its tail segment had a
/// length.
pub proof fn lemma_grown(c: LineModel)
    requires
        c.segments.len() > 0,
    ensures
        c.grown().len() == c.len() + 1,
        c.grown().head_x() == c.head_x(),
        c.grown().head_y() == c.head_y(),
        c.grown().shrunk().x == c.x,
        c.grown().shrunk().y == c.y,
        c.segments[0].len >= 1 ==> c.grown().shrunk() == c,
{
    let g = c.grown();
    let n = c.segments.len() as int;
    assert(c.joint_x(1) == c.joint_x(0) + c.segments[0].dir.along_x(c.segments[0].len as int));
    assert(c.joint_y(1) == c.joint_y(0) + c.segments[0].dir.along_y(c.segments[0].len as int));
    assert(c.prefix_len(1) == c.prefix_len(0) + c.segments[0].len);
    assert(g.joint_x(1) == g.joint_x(0) + g.segments[0].dir.along_x(g.segments[0].len as int));
    assert(g.joint_y(1) == g.joint_y(0) + g.segments[0].dir.along_y(g.segments[0].len as int));
    assert(g.prefix_len(1) == g.prefix_len(0) + g.segments[0].len);
    lemma_same_stretch(c, 1, g, 1, n - 1);
    if c.segments[0].len >= 1 {
        assert(g.shrunk().segments =~= c.segments);
    }
}

#[derive(Debug, Clone, PartialEq)]
pub struct RectilinearLine {
    pub start: Point,
    pub segments: VecDeque<ChainedLineSegment>,
}

impl View for RectilinearLine {
    type V = LineModel;

    open spec fn view(&self) -> LineModel {
        LineModel {
            x: self.start.x as int,
            y: self.start.y as int,
            segments: self.segments@.map_values(|s: ChainedLineSegment| s@),
        }
    }
}

impl RectilinearLine {
    /// The total length of the line: 1 for the head plus the lengths of all
    /// the segments.
    pub fn len(&self) -> (n: usize)
        requires
            self@.len() <= usize::MAX,
        ensures
            n == self@.len(),
    {
        let count: usize = self.segments.len();
        let mut sum: usize = 1;
        let mut i: usize = 0;
        while i < count
            invariant
                i <= count,
                count == self.segments@.len(),
                sum == 1 + self@.prefix_len(i as int),
                self@.len() <= usize::MAX,
            decreases count - i,
        {
            proof {
                lemma_prefix_len_grows(self@, i + 1, count as int);
            }
            sum = sum + self.segments[i].len;
            i = i + 1;
        }
        sum
    }

    /// The heading of the line: the direction of its last segment, where it
    /// has two segments or more.
    pub fn dir(&self) -> (d: Option<Direction>)
        ensures
            d == self@.dir(),
    {
        let count: usize = self.segments.len();
        if count > 1 {
            Some(self.segments[count - 1].dir)
        } else {
            None
        }
    }

    /// The head: where the last segment ends.
    pub fn head(&self) -> (p: Point)
        requires
            self@.fits(),
        ensures
            p.x == self@.head_x(),
            p.y == self@.head_y(),
    {
        let count: usize = self.segments.len();
        let mut pos: Point = self.start;
        let mut i: usize = 0;
        while i < count
            invariant
                i <= count,
                count == self.segments@.len(),
                pos.x == self@.joint_x(i as int),
                pos.y == self@.joint_y(i as int),
                self@.fits(),
            decreases count - i,
        {
            let segment = self.segments[i];
            assert(self@.segments[i as int] == segment@);
            assert(self@.joint_fits(i + 1));
            pos = move_position(pos, segment.dir, segment.len as i32);
            i = i + 1;
        }
        pos
    }

    /// Takes one unit off the tail end: the start moves one step along the
    /// tail segment, which loses that step, and leaves the line if it had
    /// no more than one.
    pub fn shrink_tail(&mut self)
        requires
            old(self)@.segments.len() > 0,
            fits_i32(old(self)@.shrunk().x),
            fits_i32(old(self)@.shrunk().y),
        ensures
            final(self)@ == old(self)@.shrunk(),
            old(self)@.segments[0].len >= 1 ==> final(self)@.len() == old(self)@.len() - 1,
    {
        let tail = self.segments.pop_front().unwrap();
        assert(tail@ == old(self)@.segments[0]);
        self.start = vec_add(self.start, tail.dir.unit());
        if tail.len > 1 {
            self.segments.push_front(ChainedLineSegment { dir: tail.dir, len: tail.len - 1 });
        }
        proof {
            assert(self@.segments =~= old(self)@.shrunk().segments);
            if tail.len >= 1 {
                lemma_shrunk(old(self)@);
            }
        }
    }

    /// Adds one unit at the head end in direction `dir`: the head segment
    /// grows by one if it points that way, else a new segment of length one
    /// follows it.
    pub fn extend_head(&mut self, dir: Direction)
        requires
            old(self)@.segments.len() > 0 && old(self)@.segments.last().dir == dir ==> old(
                self,
            )@.segments.last().len < usize::MAX,
        ensures
            final(self)@ == old(self)@.extended(dir),
            final(self)@.len() == old(self)@.len() + 1,
    {
        let count: usize = self.segments.len();
        if count > 0 && self.segments[count - 1].dir == dir {
            let last = self.segments.pop_back().unwrap();
            assert(last@ == old(self)@.segments[count - 1]);
            self.segments.push_back(ChainedLineSegment { dir: last.dir, len: last.len + 1 });
        } else {
            self.segments.push_back(ChainedLineSegment { dir, len: 1 });
        }
        proof {
            assert(self@.segments =~= old(self)@.extended(dir).segments);
            lemma_extended(old(self)@, dir);
        }
    }

    /// Moves the line one step: one unit leaves the tail end, one joins the
    /// head end in direction `dir`.
    pub fn move_forward(&mut self, dir: Direction)
        requires
            old(self)@.segments.len() > 0,
            fits_i32(old(self)@.shrunk().x),
            fits_i32(old(self)@.shrunk().y),
            old(self)@.shrunk().segments.len() > 0 && old(self)@.shrunk().segments.last().dir == dir
                ==> old(self)@.shrunk().segments.last().len < usize::MAX,
        ensures
            final(self)@ == old(self)@.shrunk().extended(dir),
            old(self)@.segments[0].len >= 1 ==> final(self)@.len() == old(self)@.len(),
    {
        self.shrink_tail();
        self.extend_head(dir);
    }

    /// Adds one unit at the tail end: the start moves one step back along
    /// the tail segment, which gains that step, so that the next
    /// `shrink_tail` gives the line back as it was. A line without
    /// segments stays as it is.
    pub fn extend_tail(&mut self)
        requires
            old(self)@.segments.len() > 0 ==> {
                &&& fits_i32(old(self)@.grown().x)
                &&& fits_i32(old(self)@.grown().y)
                &&& old(self)@.segments[0].len < usize::MAX
            },
        ensures
            final(self)@ == old(self)@.grown(),
            old(self)@.segments.len() > 0 ==> final(self)@.len() == old(self)@.len() + 1,
    {
        if self.segments.len() == 0 {
            return ;
        }
        let tail = self.segments.pop_front().unwrap();
        assert(tail@ == old(self)@.segments[0]);
        self.start = vec_add(self.start, tail.dir.opposite().unit());
        self.segments.push_front(ChainedLineSegment { dir: tail.dir, len: tail.len + 1 });
        proof {
            assert(self@.segments =~= old(self)@.grown().segments);
            lemma_grown(old(self)@);
        }
    }

    /// Whether `p` is a cell of the line: its start, its head, or any cell
    /// along one of its segments.
    pub fn collides_with_point(&self, p: Point) -> (r: bool)
        requires
            self@.fits(),
        ensures
            r == self@.occupies(p.x as int, p.y as int),
    {
        if p.x == self.start.x && p.y == self.start.y {
            return true;
        }
        let ghost c = self@;
        let count: usize = self.segments.len();
        let mut pos: Point = self.start;
        let mut i: usize = 0;
        while i < count
            invariant
                i <= count,
                count == self.segments@.len(),
                c == self@,
                pos.x == c.joint_x(i as int),
                pos.y == c.joint_y(i as int),
                c.fits(),
                forall|j: int, k: int|
                    0 <= j < i && 0 <= k <= c.segments[j].len ==> !#[trigger] c.at_cell(
                        j,
                        k,
                        p.x as int,
                        p.y as int,
                    ),
            decreases count - i,
        {
            let segment = self.segments[i];
            assert(c.segments[i as int] == segment@);
            assert(c.joint_fits(i + 1));
            let end = move_position(pos, segment.dir, segment.len as i32);
            let hit = match segment.dir {
                Direction::Right => p.y == pos.y && pos.x <= p.x && p.x <= end.x,
                Direction::Left => p.y == pos.y && end.x <= p.x && p.x <= pos.x,
                Direction::Up => p.x == pos.x && end.y <= p.y && p.y <= pos.y,
                Direction::Down => p.x == pos.x && pos.y <= p.y && p.y <= end.y,
            };
            if hit {
                proof {
                    let k: int = match segment.dir {
                        Direction::Right => p.x - pos.x,
                        Direction::Left => pos.x - p.x,
                        Direction::Up => pos.y - p.y,
                        Direction::Down => p.y - pos.y,
                    };
                    assert(c.at_cell(i as int, k, p.x as int, p.y as int));
                }
                return true;
            }
            pos = end;
            i = i + 1;
        }
        false
    }

    /// Whether the line fits: every joint has `i32` coordinates and every
    /// length fits an `i32`. What the queries on a line ask for.
    pub fn check_fits(&self) -> (ok: bool)
        ensures
            ok == self@.fits(),
    {
        let ghost c = self@;
        let count: usize = self.segments.len();
        let mut pos: Point = self.start;
        let mut i: usize = 0;
        while i < count
            invariant
                i <= count,
                count == self.segments@.len(),
                c == self@,
                pos.x == c.joint_x(i as int),
                pos.y == c.joint_y(i as int),
                forall|j: int| 0 <= j <= i ==> #[trigger] c.joint_fits(j),
                forall|j: int| 0 <= j < i ==> (#[trigger] c.segments[j]).len <= i32::MAX,
            decreases count - i,
        {
            let segment = self.segments[i];
            assert(c.segments[i as int] == segment@);
            if segment.len > 0x7fff_ffff {
                return false;
            }
            let len: i64 = segment.len as i64;
            let x: i64 = match segment.dir {
                Direction::Right => pos.x as i64 + len,
                Direction::Left => pos.x as i64 - len,
                _ => pos.x as i64,
            };
            let y: i64 = match segment.dir {
                Direction::Up => pos.y as i64 - len,
                Direction::Down => pos.y as i64 + len,
                _ => pos.y as i64,
            };
            assert(x == c.joint_x(i + 1) && y == c.joint_y(i + 1));
            if x < -0x8000_0000 || x > 0x7fff_ffff || y < -0x8000_0000 || y > 0x7fff_ffff {
                assert(!c.joint_fits(i + 1));
                return false;
            }
            pos = Point { x: x as i32, y: y as i32 };
            i = i + 1;
        }
        true
    }
}

} // verus!
