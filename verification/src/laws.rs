//! What holds of the chain's operations taken together, proved over the
//! chain's model.

use crate::overlap::meet;
use crate::point::fits_i32;
use crate::rectilinear::{
    lemma_extended, lemma_grown, lemma_same_stretch, lemma_shrunk, Axis, Direction, LineModel,
};
use vstd::prelude::*;

verus! {

/// Shrinking a straight line, one whose segments all point in direction
/// `dir` and have a length, moves its start by exactly one step in that
/// direction and makes it exactly one shorter.
pub proof fn law_shrinking_straight_line(c: LineModel, dir: Direction)
    requires
        c.segments.len() > 0,
        c.valid(),
        forall|i: int| 0 <= i < c.segments.len() ==> (#[trigger] c.segments[i]).dir == dir,
    ensures
        c.shrunk().x == c.x + dir.along_x(1),
        c.shrunk().y == c.y + dir.along_y(1),
        c.shrunk().len() == c.len() - 1,
{
    assert(c.segments[0].dir == dir);
    lemma_shrunk(c);
}

/// Extending the head and then shrinking the tail leaves the length of a
/// valid chain as it was, whatever the direction.
pub proof fn law_extend_then_shrink_keeps_len(c: LineModel, dir: Direction)
    requires
        c.valid(),
    ensures
        c.extended(dir).segments.len() > 0,
        c.extended(dir).shrunk().len() == c.len(),
{
    lemma_extended(c, dir);
    law_extended_keeps_valid(c, dir);
    assert(c.extended(dir).segments[0].len >= 1);
    lemma_shrunk(c.extended(dir));
}

/// Growing a valid chain with segments and then moving it forward gives a
/// chain that is one longer than before and starts where it started.
pub proof fn law_grow_then_move_forward(c: LineModel, dir: Direction)
    requires
        c.valid(),
        c.segments.len() > 0,
    ensures
        c.grown().shrunk().extended(dir).len() == c.len() + 1,
        c.grown().shrunk().extended(dir).x == c.x,
        c.grown().shrunk().extended(dir).y == c.y,
{
    lemma_grown(c);
    assert(c.segments[0].len >= 1);
    lemma_extended(c, dir);
}

/// Moving forward leaves the length of a valid chain as it was.
pub proof fn law_move_forward_keeps_len(c: LineModel, dir: Direction)
    requires
        c.valid(),
        c.segments.len() > 0,
    ensures
        c.shrunk().extended(dir).len() == c.len(),
{
    assert(c.segments[0].len >= 1);
    lemma_shrunk(c);
    lemma_extended(c.shrunk(), dir);
}

/// A chain without segments is a single cell: its head is its start and
/// its length is one.
pub proof fn law_empty_chain(c: LineModel)
    requires
        c.segments.len() == 0,
    ensures
        c.len() == 1,
        c.head_x() == c.x,
        c.head_y() == c.y,
        c.dir().is_none(),
        !c.overlapping(),
{
}

/// Every cell along a segment of the chain, the two joints at its ends
/// included, is a cell that the chain occupies.
pub proof fn law_cells_are_occupied(c: LineModel, i: int, k: int)
    requires
        0 <= i < c.segments.len(),
        0 <= k <= c.segments[i].len,
    ensures
        c.occupies(c.cell_x(i, k), c.cell_y(i, k)),
{
    assert(c.at_cell(i, k, c.cell_x(i, k), c.cell_y(i, k)));
}

/// The chain occupies its start, its head and every joint between them.
pub proof fn law_joints_are_occupied(c: LineModel, i: int)
    requires
        0 <= i <= c.segments.len(),
    ensures
        c.occupies(c.x, c.y),
        c.occupies(c.head_x(), c.head_y()),
        c.occupies(c.joint_x(i), c.joint_y(i)),
{
    let n = c.segments.len() as int;
    assert forall|j: int| 0 <= j <= n implies c.occupies(c.joint_x(j), c.joint_y(j)) by {
        if j > 0 {
            let len = c.segments[j - 1].len as int;
            assert(c.at_cell(j - 1, len, c.joint_x(j), c.joint_y(j)));
        }
    }
}

/// The chain occupies nothing else: a point that is neither the start nor
/// a cell along a segment is not occupied.
pub proof fn law_only_cells_are_occupied(c: LineModel, x: int, y: int)
    requires
        !(x == c.x && y == c.y),
        forall|i: int, k: int|
            0 <= i < c.segments.len() && 0 <= k <= c.segments[i].len ==> !(c.cell_x(i, k) == x
                && #[trigger] c.cell_y(i, k) == y),
    ensures
        !c.occupies(x, y),
{
    assert forall|i: int, k: int|
        0 <= i < c.segments.len() && 0 <= k <= c.segments[i].len implies !#[trigger] c.at_cell(
        i,
        k,
        x,
        y,
    ) by {
        assert(!(c.cell_x(i, k) == x && c.cell_y(i, k) == y));
    }
}

/// Joint `i` is where segment `i - 1` ends and segment `i` leaves from.
proof fn lemma_joint(c: LineModel, i: int)
    requires
        0 < i,
    ensures
        c.joint_x(i) == c.joint_x(i - 1) + c.segments[i - 1].dir.along_x(
            c.segments[i - 1].len as int,
        ),
        c.joint_y(i) == c.joint_y(i - 1) + c.segments[i - 1].dir.along_y(
            c.segments[i - 1].len as int,
        ),
{
}

/// Two neighbours that lie on one axis are in each other's way, whichever
/// way they point: a chain with such a join is overlapping.
pub proof fn law_same_axis_join_overlaps(c: LineModel, i: int)
    requires
        0 < i < c.segments.len(),
        !c.turns_at(i),
    ensures
        c.clash_at(i - 1, i),
        c.overlapping(),
{
    lemma_joint(c, i);
    lemma_joint(c, i + 1);
    assert(c.clash_at(i - 1, i));
}

/// Two neighbours on different axes only share their joint, and are not
/// in each other's way.
pub proof fn law_joint_is_no_overlap(c: LineModel, i: int)
    requires
        0 < i < c.segments.len(),
        c.turns_at(i),
    ensures
        !c.clash_at(i - 1, i),
        !c.clash_at(i, i - 1),
{
}

/// Whether two runs are in each other's way does not depend on which is
/// named first.
pub proof fn law_clash_is_symmetric(c: LineModel, i: int, j: int)
    ensures
        c.clash_at(i, j) == c.clash_at(j, i),
{
}

/// The cell `t` steps from the left or upper end of run `i` is a cell of
/// segment `i`: the one `k` steps along it, for the `k` that is returned.
pub proof fn lemma_run_cell(c: LineModel, i: int, t: int) -> (k: int)
    requires
        0 <= i < c.segments.len(),
        0 <= t <= c.segments[i].len,
    ensures
        0 <= k <= c.segments[i].len,
        c.run(i).axis == Axis::Horizontal ==> c.cell_x(i, k) == c.run(i).x + t && c.cell_y(i, k)
            == c.run(i).y,
        c.run(i).axis == Axis::Vertical ==> c.cell_x(i, k) == c.run(i).x && c.cell_y(i, k)
            == c.run(i).y + t,
{
    match c.segments[i].dir {
        Direction::Right | Direction::Down => t,
        Direction::Left | Direction::Up => c.segments[i].len - t,
    }
}

/// Every cell of segment `i` is a cell of run `i`: it lies between the
/// run's two ends.
pub proof fn lemma_cell_in_run(c: LineModel, i: int, k: int)
    requires
        0 <= i < c.segments.len(),
        0 <= k <= c.segments[i].len,
    ensures
        c.run(i).axis == Axis::Horizontal ==> c.run(i).x <= c.cell_x(i, k) <= c.run(i).x
            + c.run(i).len && c.cell_y(i, k) == c.run(i).y,
        c.run(i).axis == Axis::Vertical ==> c.run(i).y <= c.cell_y(i, k) <= c.run(i).y
            + c.run(i).len && c.cell_x(i, k) == c.run(i).x,
{
}

/// The cell `ki` steps along segment `i` is the cell `kj` steps along
/// segment `j`.
pub open spec fn same_cell(c: LineModel, i: int, ki: int, j: int, kj: int) -> bool {
    c.cell_x(i, ki) == c.cell_x(j, kj) && c.cell_y(i, ki) == c.cell_y(j, kj)
}

/// Two runs that share a cell do so in the cells that are returned: the
/// one `k.0` steps along segment `i` and the one `k.1` steps along
/// segment `j`.
pub proof fn lemma_shared_cell(c: LineModel, i: int, j: int) -> (k: (int, int))
    requires
        0 <= i < c.segments.len(),
        0 <= j < c.segments.len(),
        meet(c.run(i), c.run(j)),
    ensures
        0 <= k.0 <= c.segments[i].len,
        0 <= k.1 <= c.segments[j].len,
        same_cell(c, i, k.0, j, k.1),
{
    let a = c.run(i);
    let b = c.run(j);
    // how far from its left or upper end each run is met
    let (ta, tb): (int, int) = match (a.axis, b.axis) {
        (Axis::Vertical, Axis::Horizontal) => (b.y - a.y, a.x - b.x),
        (Axis::Horizontal, Axis::Vertical) => (b.x - a.x, a.y - b.y),
        (Axis::Horizontal, Axis::Horizontal) => if a.x >= b.x {
            (0, a.x - b.x)
        } else {
            (b.x - a.x, 0)
        },
        (Axis::Vertical, Axis::Vertical) => if a.y >= b.y {
            (0, a.y - b.y)
        } else {
            (b.y - a.y, 0)
        },
    };
    let ki = lemma_run_cell(c, i, ta);
    let kj = lemma_run_cell(c, j, tb);
    (ki, kj)
}

/// Two runs that are in each other's way share a cell: the overlap test
/// never reports a chain whose segments keep apart.
pub proof fn law_clash_shares_a_cell(c: LineModel, i: int, j: int)
    requires
        0 <= i < c.segments.len(),
        0 <= j < c.segments.len(),
        c.clash_at(i, j),
    ensures
        exists|ki: int, kj: int|
            0 <= ki <= c.segments[i].len && 0 <= kj <= c.segments[j].len && #[trigger] same_cell(
                c,
                i,
                ki,
                j,
                kj,
            ),
{
    let k = lemma_shared_cell(c, i, j);
    assert(same_cell(c, i, k.0, j, k.1));
}

/// Some two neighbours of the chain lie on one axis.
pub open spec fn has_same_axis_join(c: LineModel) -> bool {
    exists|i: int| 0 < i < c.segments.len() && !#[trigger] c.turns_at(i)
}

/// The path of the chain comes to a cell a second time: a cell of one
/// segment is a cell of a later one. The joint of two neighbours is the
/// end of one and the start of the other, and counts once.
pub open spec fn visits_twice(c: LineModel) -> bool {
    exists|i: int, ki: int, j: int, kj: int|
        0 <= i < j < c.segments.len() && 0 <= ki <= c.segments[i].len && 0 <= kj
            <= c.segments[j].len && !(j == i + 1 && ki == c.segments[i].len && kj == 0)
            && #[trigger] same_cell(c, i, ki, j, kj)
}

/// What the overlap test decides, told by the path of the chain: the chain
/// is overlapping if and only if two neighbours lie on one axis or the
/// path comes to a cell a second time.
pub proof fn law_overlapping_iff_path_meets_itself(c: LineModel)
    ensures
        c.overlapping() <==> (has_same_axis_join(c) || visits_twice(c)),
{
    let n = c.segments.len() as int;
    if c.overlapping() {
        let (i, j) = choose|i: int, j: int| 0 <= i < n && 0 <= j < n && #[trigger] c.clash_at(i, j);
        let (a, b) = if i < j {
            (i, j)
        } else {
            (j, i)
        };
        assert(c.clash_at(a, b));
        if b == a + 1 {
            assert(!c.turns_at(b));
        } else {
            let k = lemma_shared_cell(c, a, b);
            assert(same_cell(c, a, k.0, b, k.1));
        }
    }
    if has_same_axis_join(c) {
        let i = choose|i: int| 0 < i < n && !#[trigger] c.turns_at(i);
        law_same_axis_join_overlaps(c, i);
    }
    if visits_twice(c) {
        let (i, ki, j, kj) = choose|i: int, ki: int, j: int, kj: int|
            0 <= i < j < n && 0 <= ki <= c.segments[i].len && 0 <= kj <= c.segments[j].len && !(j
                == i + 1 && ki == c.segments[i].len && kj == 0) && #[trigger] same_cell(
                c,
                i,
                ki,
                j,
                kj,
            );
        lemma_cell_in_run(c, i, ki);
        lemma_cell_in_run(c, j, kj);
        if j == i + 1 {
            lemma_joint(c, j);
        }
        assert(c.clash_at(i, j));
    }
}

/// Shrinking keeps every length at one or more, and keeps consecutive
/// segments on different axes.
pub proof fn law_shrunk_keeps_invariants(c: LineModel)
    requires
        c.segments.len() > 0,
    ensures
        c.valid() ==> c.shrunk().valid(),
        c.alternating() ==> c.shrunk().alternating(),
{
    let d = c.shrunk();
    if c.valid() {
        assert forall|i: int| 0 <= i < d.segments.len() implies (#[trigger] d.segments[i]).len
            >= 1 by {
            if c.segments[0].len > 1 {
                assert(c.segments[i].len >= 1);
            } else {
                assert(c.segments[i + 1].len >= 1);
            }
        }
    }
    if c.alternating() {
        assert forall|i: int| 0 < i < d.segments.len() implies #[trigger] d.turns_at(i) by {
            if c.segments[0].len > 1 {
                assert(c.turns_at(i));
            } else {
                assert(c.turns_at(i + 1));
            }
        }
    }
}

/// Extending keeps every length at one or more.
pub proof fn law_extended_keeps_valid(c: LineModel, dir: Direction)
    requires
        c.valid(),
    ensures
        c.extended(dir).valid(),
{
    let d = c.extended(dir);
    assert forall|i: int| 0 <= i < d.segments.len() implies (#[trigger] d.segments[i]).len
        >= 1 by {
        if i < c.segments.len() {
            assert(c.segments[i].len >= 1);
        }
    }
}

/// Extending keeps consecutive segments on different axes, unless the
/// direction is the reverse of the head segment's.
pub proof fn law_extended_keeps_alternating(c: LineModel, dir: Direction)
    requires
        c.alternating(),
        c.segments.len() > 0 ==> dir != c.segments.last().dir.spec_opposite(),
    ensures
        c.extended(dir).alternating(),
{
    let d = c.extended(dir);
    assert forall|i: int| 0 < i < d.segments.len() implies #[trigger] d.turns_at(i) by {
        if i < c.segments.len() {
            assert(c.turns_at(i));
        }
    }
}

/// Growing keeps every length at one or more, and keeps consecutive
/// segments on different axes.
pub proof fn law_grown_keeps_invariants(c: LineModel)
    ensures
        c.valid() ==> c.grown().valid(),
        c.alternating() ==> c.grown().alternating(),
{
    let d = c.grown();
    if c.valid() {
        assert forall|i: int| 0 <= i < d.segments.len() implies (#[trigger] d.segments[i]).len
            >= 1 by {
            assert(c.segments[i].len >= 1);
        }
    }
    if c.alternating() {
        assert forall|i: int| 0 < i < d.segments.len() implies #[trigger] d.turns_at(i) by {
            assert(c.turns_at(i));
        }
    }
}

/// Shrinking a chain that fits, and whose tail segment has a length, gives
/// a chain that fits.
pub proof fn law_shrunk_fits(c: LineModel)
    requires
        c.fits(),
        c.segments.len() > 0,
        c.segments[0].len >= 1,
    ensures
        c.shrunk().fits(),
{
    let d = c.shrunk();
    let n = c.segments.len() as int;
    assert(c.joint_fits(0));
    assert(c.joint_fits(1));
    assert(c.joint_x(1) == c.joint_x(0) + c.segments[0].dir.along_x(c.segments[0].len as int));
    assert(c.joint_y(1) == c.joint_y(0) + c.segments[0].dir.along_y(c.segments[0].len as int));
    assert forall|i: int| 0 <= i <= d.segments.len() implies #[trigger] d.joint_fits(i) by {
        if c.segments[0].len > 1 {
            if i > 0 {
                assert(d.joint_x(1) == d.joint_x(0) + d.segments[0].dir.along_x(
                    d.segments[0].len as int,
                ));
                assert(d.joint_y(1) == d.joint_y(0) + d.segments[0].dir.along_y(
                    d.segments[0].len as int,
                ));
                lemma_same_stretch(c, 1, d, 1, i - 1);
                assert(c.joint_fits(i));
            }
        } else {
            lemma_same_stretch(c, 1, d, 0, i);
            assert(c.joint_fits(i + 1));
        }
    }
    assert forall|i: int| 0 <= i < d.segments.len() implies (#[trigger] d.segments[i]).len
        <= i32::MAX by {
        if c.segments[0].len > 1 {
            assert(c.segments[i].len <= i32::MAX);
        } else {
            assert(c.segments[i + 1].len <= i32::MAX);
        }
    }
}

/// Extending a chain that fits gives a chain that fits, if the new head
/// has `i32` coordinates and the head segment's new length fits an `i32`.
pub proof fn law_extended_fits(c: LineModel, dir: Direction)
    requires
        c.fits(),
        fits_i32(c.head_x() + dir.along_x(1)),
        fits_i32(c.head_y() + dir.along_y(1)),
        c.segments.len() > 0 && c.segments.last().dir == dir ==> c.segments.last().len < i32::MAX,
    ensures
        c.extended(dir).fits(),
{
    let d = c.extended(dir);
    lemma_extended(c, dir);
    assert forall|i: int| 0 <= i <= d.segments.len() implies #[trigger] d.joint_fits(i) by {
        if i < d.segments.len() {
            assert(c.joint_fits(i));
        }
    }
    assert forall|i: int| 0 <= i < d.segments.len() implies (#[trigger] d.segments[i]).len
        <= i32::MAX by {
        if i < c.segments.len() {
            assert(c.segments[i].len <= i32::MAX);
        }
    }
}

/// Growing a chain that fits gives a chain that fits, if the new start has
/// `i32` coordinates and the tail segment's new length fits an `i32`.
pub proof fn law_grown_fits(c: LineModel)
    requires
        c.fits(),
        fits_i32(c.grown().x),
        fits_i32(c.grown().y),
        c.segments.len() > 0 ==> c.segments[0].len < i32::MAX,
    ensures
        c.grown().fits(),
{
    let g = c.grown();
    if c.segments.len() > 0 {
        assert(c.joint_x(1) == c.joint_x(0) + c.segments[0].dir.along_x(c.segments[0].len as int));
        assert(c.joint_y(1) == c.joint_y(0) + c.segments[0].dir.along_y(c.segments[0].len as int));
        assert(g.joint_x(1) == g.joint_x(0) + g.segments[0].dir.along_x(g.segments[0].len as int));
        assert(g.joint_y(1) == g.joint_y(0) + g.segments[0].dir.along_y(g.segments[0].len as int));
        assert forall|i: int| 0 <= i <= g.segments.len() implies #[trigger] g.joint_fits(i) by {
            if i > 0 {
                lemma_same_stretch(c, 1, g, 1, i - 1);
                assert(c.joint_fits(i));
            }
        }
        assert forall|i: int| 0 <= i < g.segments.len() implies (#[trigger] g.segments[i]).len
            <= i32::MAX by {
            assert(c.segments[i].len <= i32::MAX);
        }
    }
}

} // verus!
