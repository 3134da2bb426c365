use snake::point::Point;
use snake::rectilinear::{ChainedLineSegment, Direction, RectilinearLine};
use std::collections::VecDeque;

fn seg(dir: Direction, len: usize) -> ChainedLineSegment {
    ChainedLineSegment { dir, len }
}

fn directions() -> Vec<Direction> {
    vec![Direction::Right, Direction::Left, Direction::Up, Direction::Down]
}

fn line(segments: Vec<ChainedLineSegment>) -> RectilinearLine {
    RectilinearLine { start: Point::new(0, 0), segments: VecDeque::from(segments) }
}

/// Creates a straight line with total length `len` in the direction `dir`
fn straight_line(dir: Direction, len: usize) -> RectilinearLine {
    line(vec![seg(dir, len - 1)])
}

/// An empty line in the origin
fn empty_line() -> RectilinearLine {
    line(vec![])
}

#[test]
fn length_of_empty_line_is_one() {
    assert_eq!(empty_line().len(), 1);
}

#[test]
fn length_of_line_is_sum_of_segments() {
    let line = line(vec![seg(Direction::Right, 1), seg(Direction::Up, 2)]);
    assert_eq!(line.len(), 4); // 1 + 1 + 2
}

#[test]
fn direction_of_empty_line_is_none() {
    assert_eq!(empty_line().dir(), None);
}

#[test]
fn direction_of_line_is_direction_of_last_segment() {
    // check each case
    for dir in directions() {
        let line = line(vec![seg(Direction::Left, 2), seg(dir, 2)]);
        assert_eq!(line.dir(), Some(dir));
    }
}

#[test]
fn shrinking_moves_end_position_in_direction_of_first_segment() {
    // cases to check (right, left, up, down)
    let poss = vec![(1, 0), (-1, 0), (0, -1), (0, 1)];

    // check each case
    for (pos, dir) in poss.into_iter().zip(directions()) {
        let mut line = straight_line(dir, 2);
        line.shrink_tail();

        assert_eq!(
            line.start,
            Point::new(pos.0, pos.1),
            "shrink failed for direction \"{:?}\"",
            dir
        );
    }
}

#[test]
fn shrinking_shortens_length_of_first_segment_if_length_two_or_more() {
    for seg_len in 2..100 {
        let mut line = straight_line(Direction::Right, 1 + seg_len);
        line.shrink_tail();
        assert_eq!(
            line.segments[0].len,
            seg_len - 1,
            "shrink failed for tail segment length={}",
            seg_len
        )
    }
}

#[test]
fn shrinking_removes_first_segment_if_length_less_than_two() {
    for len in 0..2 {
        let mut line = line(vec![
            seg(Direction::Right, len),
            seg(Direction::Down, 5),
            seg(Direction::Left, 3),
        ]);
        let expected_segments =
            VecDeque::from(vec![seg(Direction::Down, 5), seg(Direction::Left, 3)]);

        line.shrink_tail();

        assert_eq!(
            line.segments, expected_segments,
            "shrink failed to remove tail segment when length={}",
            len
        )
    }
}

#[test]
fn extending_line_in_line_direction_increases_last_segment_length() {
    for dir in directions() {
        for len in 0..100 {
            let mut line = line(vec![seg(Direction::Right, 2), seg(dir, len)]);

            line.extend_head(dir);

            let segments = &line.segments;
            assert_eq!(segments[segments.len() - 1].len, len + 1)
        }
    }
}

#[test]
fn extending_line_in_new_direction_adds_new_segment_in_that_direction() {
    for (dir1, dir2) in directions().into_iter().zip(directions()) {
        if dir1 == dir2 {
            // precondition is that directions differ
            continue;
        }

        let mut line = line(vec![seg(dir1, 2)]);

        line.extend_head(dir2);

        assert_eq!(line.segments[line.segments.len() - 1], seg(dir2, 1));
    }
}

#[test]
fn extending_and_shrinking_keeps_length_unchanged() {
    let len = 3;
    let mut line = straight_line(Direction::Right, 3);
    line.extend_head(Direction::Right);
    line.shrink_tail();
    assert_eq!(line.len(), len)
}

#[test]
fn line_without_overlapping_segments_is_not_self_overlapping() {
    //      ^--->
    // o->  |
    //   |  |
    //   v-->
    let line = line(vec![
        seg(Direction::Right, 2),
        seg(Direction::Down, 2),
        seg(Direction::Right, 3),
        seg(Direction::Up, 3),
        seg(Direction::Right, 4),
    ]);
    assert_eq!(line.is_self_overlapping(), false);
}

#[test]
fn line_with_overlapping_segments_is_self_overlapping() {
    //     <--^
    //     |  |
    //  o--+-->
    //     |
    //     v
    let line = line(vec![
        seg(Direction::Right, 6),
        seg(Direction::Up, 2),
        seg(Direction::Left, 2),
        seg(Direction::Down, 4),
    ]);
    assert_eq!(line.is_self_overlapping(), true);
}

#[test]
fn line_tip_can_self_overlap_to_the_right_with_body() {
    //    o
    //    |
    // ^-->
    // |  |
    // <--v
    let line = line(vec![
        seg(Direction::Down, 4),
        seg(Direction::Left, 3),
        seg(Direction::Up, 2),
        seg(Direction::Right, 3),
    ]);
    assert_eq!(line.is_self_overlapping(), true);
}

#[test]
fn line_tip_can_self_overlap_to_the_left_with_body() {
    // o
    // |
    // <--^
    // |  |
    // v-->
    let line = line(vec![
        seg(Direction::Down, 4),
        seg(Direction::Right, 3),
        seg(Direction::Up, 2),
        seg(Direction::Left, 3),
    ]);
    assert_eq!(line.is_self_overlapping(), true);
}

#[test]
fn horizontal_segment_can_overlap_another_to_the_left() {
    //
    // o---X---^
    //     |   |
    //     V--->
    //
    let line = line(vec![
        seg(Direction::Right, 4),
        seg(Direction::Down, 2),
        seg(Direction::Right, 4),
        seg(Direction::Up, 2),
        seg(Direction::Left, 4),
    ]);
    assert_eq!(line.is_self_overlapping(), true);
}

#[test]
fn horizontal_segment_can_overlap_another_to_the_right() {
    //
    // ^---X---o
    // |   |
    // <---v
    //
    let line = line(vec![
        seg(Direction::Left, 4),
        seg(Direction::Down, 2),
        seg(Direction::Left, 4),
        seg(Direction::Up, 2),
        seg(Direction::Right, 4),
    ]);
    assert_eq!(line.is_self_overlapping(), true);
}

#[test]
fn vertical_segment_can_overlap_another_downwards() {
    //
    // <---^
    // |   |
    // X--->
    // |
    // o
    //
    let line = line(vec![
        seg(Direction::Up, 2),
        seg(Direction::Right, 4),
        seg(Direction::Up, 2),
        seg(Direction::Left, 4),
        seg(Direction::Down, 2),
    ]);
    assert_eq!(line.is_self_overlapping(), true);
}

#[test]
fn vertical_segment_can_overlap_another_upwards() {
    //
    // o
    // |
    // X--->
    // |   |
    // <---v
    //
    let line = line(vec![
        seg(Direction::Down, 2),
        seg(Direction::Right, 4),
        seg(Direction::Down, 2),
        seg(Direction::Left, 4),
        seg(Direction::Up, 2),
    ]);
    assert_eq!(line.is_self_overlapping(), true);
}

#[test]
// This test is just to document the assumption made that a rectilinear
// line conists of segments with alternating axis alignment.
fn joining_two_segments_same_direction_considered_overlapping() {
    //
    // o-->-->
    //
    let h_line = line(vec![seg(Direction::Right, 3), seg(Direction::Right, 3)]);
    assert_eq!(h_line.is_self_overlapping(), true);
}
