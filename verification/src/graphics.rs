//! Where things stand on the screen: the frame of the play area inside the
//! terminal, and the strokes that show a line.

use crate::overlap::RunModel;
use crate::point::{fits_i32, vec_sub, Point};
use crate::rectilinear::{lemma_prefix_len_grows, Axis, Direction, LineModel, RectilinearLine};
use vstd::prelude::*;

verus! {

pub const SCREEN_WIDTH: i32 = 84;

pub const SCREEN_HEIGHT: i32 = 20;

pub const BORDER_HEIGHT: i32 = 12;

pub const BORDER_WIDTH: i32 = 5 * BORDER_HEIGHT;

/// Half of `v`, rounded towards zero.
pub open spec fn half(v: int) -> int {
    if v >= 0 {
        v / 2
    } else {
        -((-v) / 2)
    }
}

/// The row of the screen's upper edge in a terminal of `term_lines` rows:
/// the screen stands in the middle.
pub fn top_screen_edge(term_lines: i32) -> (row: i32)
    requires
        fits_i32(term_lines - SCREEN_HEIGHT),
    ensures
        row == half(term_lines - SCREEN_HEIGHT),
{
    (term_lines - SCREEN_HEIGHT) / 2
}

/// The column of the screen's left edge in a terminal of `term_columns`
/// columns.
pub fn left_screen_edge(term_columns: i32) -> (column: i32)
    requires
        fits_i32(term_columns - SCREEN_WIDTH),
    ensures
        column == half(term_columns - SCREEN_WIDTH),
{
    (term_columns - SCREEN_WIDTH) / 2
}

/// The row of the upper border of the play area, which stands in the
/// middle of the screen.
pub fn top_screen_margin(term_lines: i32) -> (row: i32)
    requires
        fits_i32(term_lines - SCREEN_HEIGHT),
    ensures
        row == half(term_lines - SCREEN_HEIGHT) + 4,
{
    top_screen_edge(term_lines) + (SCREEN_HEIGHT - BORDER_HEIGHT) / 2
}

/// The column of the left border of the play area.
pub fn left_screen_margin(term_columns: i32) -> (column: i32)
    requires
        fits_i32(term_columns - SCREEN_WIDTH),
    ensures
        column == half(term_columns - SCREEN_WIDTH) + 12,
{
    left_screen_edge(term_columns) + (SCREEN_WIDTH - BORDER_WIDTH) / 2
}

/// The middle of the screen, as column and row.
pub fn screen_middle(term_columns: i32, term_lines: i32) -> (middle: (i32, i32))
    requires
        fits_i32(term_columns - SCREEN_WIDTH),
        fits_i32(term_lines - SCREEN_HEIGHT),
    ensures
        middle.0 == half(term_columns - SCREEN_WIDTH) + 42,
        middle.1 == half(term_lines - SCREEN_HEIGHT) + 10,
{
    (
        left_screen_margin(term_columns) + BORDER_WIDTH / 2,
        top_screen_margin(term_lines) + BORDER_HEIGHT / 2,
    )
}

/// A straight stroke of box characters: from column `x` of row `y`,
/// `extent` cells to the right if `axis` is horizontal, downwards if it is
/// vertical.
#[derive(Debug, Copy, Clone, PartialEq, Eq, Structural)]
pub struct Stroke {
    pub axis: Axis,
    pub y: i32,
    pub x: i32,
    pub extent: i32,
}

/// `stroke` covers the cells of `run`, the play area's cell (0, 0) being
/// shown at column `ox` of row `oy`.
pub open spec fn shows_run(stroke: Stroke, run: RunModel, ox: int, oy: int) -> bool {
    &&& stroke.axis == run.axis
    &&& stroke.x == ox + run.x
    &&& stroke.y == oy + run.y
    &&& stroke.extent == run.len + 1
}

/// Joint `i` of `line` is shown at a column and a row that an `i32` holds.
pub open spec fn joint_on_screen(line: LineModel, origin: Point, i: int) -> bool {
    fits_i32(origin.x + line.joint_x(i)) && fits_i32(origin.y + line.joint_y(i))
}

/// What showing a line needs of it and of the machine: the line fits, its
/// length can be counted, every joint is shown at a column and a row that
/// an `i32` holds, and so is the count of the cells of every segment.
pub open spec fn can_show(line: LineModel, origin: Point) -> bool {
    &&& line.fits()
    &&& line.len() <= usize::MAX
    &&& forall|i: int| 0 <= i <= line.segments.len() ==> #[trigger] joint_on_screen(line, origin, i)
    &&& forall|i: int| 0 <= i < line.segments.len() ==> (#[trigger] line.segments[i]).len < i32::MAX
}

/// Whether `line` can be shown with the play area's cell (0, 0) at
/// `origin`.
pub fn check_can_show(line: &RectilinearLine, origin: Point) -> (ok: bool)
    ensures
        ok == can_show(line@, origin),
{
    if !line.check_fits() {
        return false;
    }
    let ghost c = line@;
    let count: usize = line.segments.len();
    let mut x: i64 = origin.x as i64 + line.start.x as i64;
    let mut y: i64 = origin.y as i64 + line.start.y as i64;
    if x < -0x8000_0000 || x > 0x7fff_ffff || y < -0x8000_0000 || y > 0x7fff_ffff {
        assert(!joint_on_screen(c, origin, 0));
        return false;
    }
    let mut total: u128 = 1;
    let mut i: usize = 0;
    while i < count
        invariant
            i <= count,
            count == line.segments@.len(),
            c == line@,
            c.fits(),
            x == origin.x + c.joint_x(i as int),
            y == origin.y + c.joint_y(i as int),
            total == 1 + c.prefix_len(i as int),
            total <= 1 + i * 0x7fff_ffff,
            total <= usize::MAX,
            forall|j: int| 0 <= j <= i ==> #[trigger] joint_on_screen(c, origin, j),
            forall|j: int| 0 <= j < i ==> (#[trigger] c.segments[j]).len < i32::MAX,
        decreases count - i,
    {
        let segment = line.segments[i];
        assert(c.segments[i as int] == segment@);
        assert(c.joint_fits(i as int));
        assert(c.joint_fits(i + 1));
        if segment.len >= 0x7fff_ffff {
            return false;
        }
        let len: i64 = segment.len as i64;
        x = match segment.dir {
            Direction::Right => x + len,
            Direction::Left => x - len,
            _ => x,
        };
        y = match segment.dir {
            Direction::Up => y - len,
            Direction::Down => y + len,
            _ => y,
        };
        if x < -0x8000_0000 || x > 0x7fff_ffff || y < -0x8000_0000 || y > 0x7fff_ffff {
            assert(!joint_on_screen(c, origin, i + 1));
            return false;
        }
        total = total + segment.len as u128;
        if total > usize::MAX as u128 {
            proof {
                lemma_prefix_len_grows(c, i + 1, count as int);
            }
            return false;
        }
        i = i + 1;
    }
    true
}

/// The strokes that show `line`, one for each of its segments, in their
/// order; a line of length one is shown as a single cell. `origin` is
/// where the play area's cell (0, 0) is shown.
pub fn rectilinear_line_strokes(line: &RectilinearLine, origin: Point) -> (strokes: Vec<Stroke>)
    requires
        can_show(line@, origin),
    ensures
        line@.len() == 1 ==> strokes@ == seq![
            (Stroke {
                axis: Axis::Horizontal,
                y: (origin.y + line.start.y) as i32,
                x: (origin.x + line.start.x) as i32,
                extent: 1,
            }),
        ],
        line@.len() != 1 ==> strokes@.len() == line@.segments.len() && forall|i: int|
            0 <= i < strokes@.len() ==> shows_run(
                #[trigger] strokes@[i],
                line@.run(i),
                origin.x as int,
                origin.y as int,
            ),
{
    let ghost c = line@;
    assert(joint_on_screen(c, origin, 0));
    assert(c.joint_fits(0));
    let mut x: i32 = origin.x + line.start.x;
    let mut y: i32 = origin.y + line.start.y;
    let mut strokes: Vec<Stroke> = Vec::new();

    if line.len() == 1 {
        strokes.push(Stroke { axis: Axis::Horizontal, y, x, extent: 1 });
        return strokes;
    }
    let count: usize = line.segments.len();
    let mut i: usize = 0;
    while i < count
        invariant
            i <= count,
            count == line.segments@.len(),
            c == line@,
            c.fits(),
            x == origin.x + c.joint_x(i as int),
            y == origin.y + c.joint_y(i as int),
            forall|j: int| 0 <= j <= c.segments.len() ==> #[trigger] joint_on_screen(c, origin, j),
            forall|j: int| 0 <= j < c.segments.len() ==> (#[trigger] c.segments[j]).len < i32::MAX,
            strokes@.len() == i,
            forall|j: int|
                0 <= j < i ==> shows_run(
                    #[trigger] strokes@[j],
                    c.run(j),
                    origin.x as int,
                    origin.y as int,
                ),
        decreases count - i,
    {
        let segment = line.segments[i];
        assert(c.segments[i as int] == segment@);
        assert(joint_on_screen(c, origin, i + 1));
        let len: i32 = segment.len as i32;
        match segment.dir {
            Direction::Up => {
                strokes.push(Stroke { axis: Axis::Vertical, y: y - len, x, extent: len + 1 });
                y = y - len;
            },
            Direction::Down => {
                strokes.push(Stroke { axis: Axis::Vertical, y, x, extent: len + 1 });
                y = y + len;
            },
            Direction::Left => {
                strokes.push(Stroke { axis: Axis::Horizontal, y, x: x - len, extent: len + 1 });
                x = x - len;
            },
            Direction::Right => {
                strokes.push(Stroke { axis: Axis::Horizontal, y, x, extent: len + 1 });
                x = x + len;
            },
        }
        i = i + 1;
    }
    strokes
}

/// The step from `from` to `to` as a stroke that leaves from `from`: along
/// the row if the two are in one row, else along the column. Its extent
/// counts both ends, and is negative towards smaller coordinates.
pub open spec fn stroke_between(from: Point, to: Point) -> Stroke {
    let dx = to.x - from.x;
    let dy = to.y - from.y;
    if dy == 0 {
        Stroke {
            axis: Axis::Horizontal,
            y: from.y,
            x: from.x,
            extent: (if dx < 0 {
                dx - 1
            } else {
                dx + 1
            }) as i32,
        }
    } else {
        Stroke {
            axis: Axis::Vertical,
            y: from.y,
            x: from.x,
            extent: (if dy < 0 {
                dy - 1
            } else {
                dy + 1
            }) as i32,
        }
    }
}

/// Each step from a point to the next moves by amounts that, counted with
/// both ends, fit an `i32`.
pub open spec fn steps_fit(points: Seq<Point>) -> bool {
    forall|i: int|
        0 <= i < points.len() - 1 ==> {
            &&& fits_i32((#[trigger] points[i + 1]).x - points[i].x - 1)
            &&& fits_i32(points[i + 1].x - points[i].x + 1)
            &&& fits_i32(points[i + 1].y - points[i].y - 1)
            &&& fits_i32(points[i + 1].y - points[i].y + 1)
        }
}

/// Whether each step from a point to the next fits, see `steps_fit`.
pub fn check_steps_fit(points: &Vec<Point>) -> (ok: bool)
    ensures
        ok == steps_fit(points@),
{
    let len: usize = points.len();
    if len < 2 {
        return true;
    }
    let mut i: usize = 0;
    while i < len - 1
        invariant
            len == points@.len(),
            len >= 2,
            i <= len - 1,
            forall|j: int|
                0 <= j < i ==> {
                    &&& fits_i32((#[trigger] points@[j + 1]).x - points@[j].x - 1)
                    &&& fits_i32(points@[j + 1].x - points@[j].x + 1)
                    &&& fits_i32(points@[j + 1].y - points@[j].y - 1)
                    &&& fits_i32(points@[j + 1].y - points@[j].y + 1)
                },
        decreases len - 1 - i,
    {
        let dx: i64 = points[i + 1].x as i64 - points[i].x as i64;
        let dy: i64 = points[i + 1].y as i64 - points[i].y as i64;
        if dx - 1 < -0x8000_0000 || dx + 1 > 0x7fff_ffff || dy - 1 < -0x8000_0000 || dy + 1
            > 0x7fff_ffff {
            assert(!fits_i32(points@[i + 1].x - points@[i as int].x - 1) || !fits_i32(
                points@[i + 1].x - points@[i as int].x + 1,
            ) || !fits_i32(points@[i + 1].y - points@[i as int].y - 1) || !fits_i32(
                points@[i + 1].y - points@[i as int].y + 1,
            ));
            return false;
        }
        i = i + 1;
    }
    true
}

/// The strokes that join the points of `line_segments`, each to the next.
/// A single point is shown as one cell, no point as nothing.
pub fn line_segments_strokes(line_segments: &Vec<Point>) -> (strokes: Vec<Stroke>)
    requires
        steps_fit(line_segments@),
    ensures
        line_segments@.len() == 0 ==> strokes@.len() == 0,
        line_segments@.len() == 1 ==> strokes@ == seq![
            (Stroke {
                axis: Axis::Horizontal,
                y: line_segments@[0].y,
                x: line_segments@[0].x,
                extent: 1,
            }),
        ],
        line_segments@.len() > 1 ==> strokes@.len() == line_segments@.len() - 1 && forall|i: int|
            0 <= i < strokes@.len() ==> #[trigger] strokes@[i] == stroke_between(
                line_segments@[i],
                line_segments@[i + 1],
            ),
{
    let mut strokes: Vec<Stroke> = Vec::new();
    let len: usize = line_segments.len();
    if len == 0 {
        return strokes;
    }
    if len == 1 {
        let x: i32 = line_segments[0].x;
        let y: i32 = line_segments[0].y;
        strokes.push(Stroke { axis: Axis::Horizontal, y, x, extent: 1 });
        return strokes;
    }
    let mut i: usize = 0;
    while i < len - 1
        invariant
            len == line_segments@.len(),
            len > 1,
            i <= len - 1,
            steps_fit(line_segments@),
            strokes@.len() == i,
            forall|j: int|
                0 <= j < i ==> #[trigger] strokes@[j] == stroke_between(
                    line_segments@[j],
                    line_segments@[j + 1],
                ),
        decreases len - 1 - i,
    {
        let x: i32 = line_segments[i].x;
        let y: i32 = line_segments[i].y;
        assert(fits_i32(line_segments@[i + 1].x - line_segments@[i as int].x - 1));
        let delta = vec_sub(line_segments[i + 1], line_segments[i]);
        if delta.y == 0 {
            let sign_x: i32 = if delta.x < 0 {
                -1
            } else {
                1
            };
            strokes.push(Stroke { axis: Axis::Horizontal, y, x, extent: delta.x + sign_x });
        } else {
            let sign_y: i32 = if delta.y < 0 {
                -1
            } else {
                1
            };
            strokes.push(Stroke { axis: Axis::Vertical, y, x, extent: delta.y + sign_y });
        }
        i = i + 1;
    }
    strokes
}

} // verus!
