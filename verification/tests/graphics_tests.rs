use snake::graphics::{
    left_screen_edge, left_screen_margin, line_segments_strokes, rectilinear_line_strokes,
    screen_middle, top_screen_edge, top_screen_margin, Stroke, BORDER_HEIGHT, BORDER_WIDTH,
    SCREEN_HEIGHT, SCREEN_WIDTH,
};
use snake::point::Point;
use snake::rectilinear::{Axis, ChainedLineSegment, Direction, RectilinearLine};
use std::collections::VecDeque;

fn seg(dir: Direction, len: usize) -> ChainedLineSegment {
    ChainedLineSegment { dir, len }
}

fn hstroke(y: i32, x: i32, extent: i32) -> Stroke {
    Stroke { axis: Axis::Horizontal, y, x, extent }
}

fn vstroke(y: i32, x: i32, extent: i32) -> Stroke {
    Stroke { axis: Axis::Vertical, y, x, extent }
}

#[test]
fn sizes_of_screen_and_border() {
    assert_eq!(SCREEN_WIDTH, 84);
    assert_eq!(SCREEN_HEIGHT, 20);
    assert_eq!(BORDER_HEIGHT, 12);
    assert_eq!(BORDER_WIDTH, 60);
}

#[test]
fn screen_stands_in_the_middle_of_the_terminal() {
    assert_eq!(top_screen_edge(30), 5);
    assert_eq!(left_screen_edge(120), 18);
    assert_eq!(top_screen_margin(30), 9);
    assert_eq!(left_screen_margin(120), 30);
    assert_eq!(screen_middle(120, 30), (60, 15));
}

#[test]
fn screen_of_the_terminals_size_starts_at_its_corner() {
    assert_eq!(top_screen_edge(20), 0);
    assert_eq!(left_screen_edge(84), 0);
    assert_eq!(top_screen_margin(20), 4);
    assert_eq!(left_screen_margin(84), 12);
    assert_eq!(screen_middle(84, 20), (42, 10));
}

#[test]
fn odd_margins_are_halved_towards_zero() {
    assert_eq!(top_screen_edge(25), 2);
    assert_eq!(left_screen_edge(85), 0);
    assert_eq!(top_screen_edge(15), -2);
    assert_eq!(left_screen_edge(81), -1);
    assert_eq!(top_screen_margin(15), 2);
    assert_eq!(screen_middle(81, 15), (41, 8));
}

#[test]
fn line_is_shown_as_one_stroke_for_each_segment() {
    let line = RectilinearLine {
        start: Point::new(2, 3),
        segments: VecDeque::from(vec![
            seg(Direction::Right, 2),
            seg(Direction::Down, 3),
            seg(Direction::Left, 1),
            seg(Direction::Up, 2),
        ]),
    };
    let strokes = rectilinear_line_strokes(&line, Point::new(10, 5));
    assert_eq!(
        strokes,
        vec![hstroke(8, 12, 3), vstroke(8, 14, 4), hstroke(11, 13, 2), vstroke(9, 13, 3)]
    );
}

#[test]
fn line_of_length_one_is_shown_as_one_cell() {
    let line = RectilinearLine { start: Point::new(2, 3), segments: VecDeque::new() };
    assert_eq!(rectilinear_line_strokes(&line, Point::new(10, 5)), vec![hstroke(8, 12, 1)]);

    let line = RectilinearLine {
        start: Point::new(2, 3),
        segments: VecDeque::from(vec![seg(Direction::Up, 0)]),
    };
    assert_eq!(rectilinear_line_strokes(&line, Point::new(10, 5)), vec![hstroke(8, 12, 1)]);
}

#[test]
fn no_points_give_no_strokes() {
    assert_eq!(line_segments_strokes(&vec![]), vec![]);
}

#[test]
fn one_point_is_shown_as_one_cell() {
    assert_eq!(line_segments_strokes(&vec![Point::new(4, 7)]), vec![hstroke(7, 4, 1)]);
}

#[test]
fn points_are_joined_by_strokes_that_count_both_ends() {
    let points =
        vec![Point::new(0, 0), Point::new(3, 0), Point::new(3, 2), Point::new(1, 2), Point::new(1, -1)];
    assert_eq!(
        line_segments_strokes(&points),
        vec![hstroke(0, 0, 4), vstroke(0, 3, 3), hstroke(2, 3, -3), vstroke(2, 1, -4)]
    );
}

#[test]
fn two_equal_points_are_joined_by_a_stroke_of_one() {
    assert_eq!(
        line_segments_strokes(&vec![Point::new(5, 5), Point::new(5, 5)]),
        vec![hstroke(5, 5, 1)]
    );
}
