use rand::rngs::StdRng;
use rand::SeedableRng;
use snake::apple::IVec2Generator;
use snake::keyboard::{KeyboardHandler, NUM_KEY_STATES, VK_DOWN, VK_LEFT, VK_RIGHT, VK_UP};
use snake::point::Point;
use snake::rectilinear::{ChainedLineSegment, Direction, RectilinearLine};
use snake::round::{
    get_direction, new_play_area_wall, run_ongoing_round, run_round_ending, GameDifficulty,
    RoundEndState, RoundState, SnakeState, APPLE_SCORE, GREEN, RED,
};
use std::collections::VecDeque;

fn seg(dir: Direction, len: usize) -> ChainedLineSegment {
    ChainedLineSegment { dir, len }
}

fn line_at(x: i32, y: i32, segments: Vec<ChainedLineSegment>) -> RectilinearLine {
    RectilinearLine { start: Point::new(x, y), segments: VecDeque::from(segments) }
}

fn keys(down: &[i32]) -> KeyboardHandler {
    let mut handler = KeyboardHandler::new();
    let mut raw = vec![0i16; NUM_KEY_STATES];
    for key in down {
        raw[*key as usize] = i16::MIN;
    }
    handler.update(&raw);
    handler
}

fn generator() -> IVec2Generator {
    IVec2Generator::new(StdRng::seed_from_u64(0x5eed), 1, 57, 1, 9)
}

fn round_with(body: RectilinearLine, direction: Direction, movement_frames: usize) -> RoundState {
    RoundState {
        snake: SnakeState {
            movement_period: 6,
            body,
            direction,
            color: GREEN,
            movement_frames,
            turn_cooldown: 0,
        },
        apple: Point::new(40, 7),
        wall: new_play_area_wall(),
        score: 0,
        game_over: false,
        difficulty: GameDifficulty::Normal,
    }
}

#[test]
fn wall_runs_round_the_play_area() {
    let wall = new_play_area_wall();
    assert_eq!(wall.start, Point::new(-1, -1));
    assert_eq!(
        wall.segments,
        VecDeque::from(vec![
            seg(Direction::Right, 59),
            seg(Direction::Down, 11),
            seg(Direction::Left, 59),
            seg(Direction::Up, 10),
        ])
    );
    assert_eq!(wall.head(), Point::new(-1, 0));
    assert_eq!(wall.is_self_overlapping(), false);
    for x in -1..59 {
        assert!(wall.collides_with_point(Point::new(x, -1)));
        assert!(wall.collides_with_point(Point::new(x, 10)));
    }
    for y in -1..11 {
        assert!(wall.collides_with_point(Point::new(-1, y)));
        assert!(wall.collides_with_point(Point::new(58, y)));
    }
    for x in 0..58 {
        for y in 0..10 {
            assert!(!wall.collides_with_point(Point::new(x, y)));
        }
    }
}

#[test]
fn new_snake_heads_down_from_the_top_row() {
    let snake = SnakeState::new(42);
    assert_eq!(snake.body, line_at(21, 0, vec![seg(Direction::Down, 3)]));
    assert_eq!(snake.direction, Direction::Down);
    assert_eq!(snake.movement_period, 6);
    assert_eq!(snake.color, 34);
    assert_eq!(snake.movement_frames, 0);
    assert_eq!(snake.turn_cooldown, 0);
    assert_eq!(SnakeState::new(61).body.start, Point::new(30, 0));
}

#[test]
fn movement_period_of_each_difficulty() {
    assert_eq!(GameDifficulty::Easy.movement_period(), 8);
    assert_eq!(GameDifficulty::Normal.movement_period(), 6);
    assert_eq!(GameDifficulty::Hard.movement_period(), 4);
}

#[test]
fn new_round_has_a_fresh_snake_and_an_apple_off_it() {
    let mut generator = generator();
    for (difficulty, period) in
        vec![(GameDifficulty::Easy, 8), (GameDifficulty::Normal, 6), (GameDifficulty::Hard, 4)]
    {
        for _ in 0..50 {
            let round = RoundState::new(&mut generator, difficulty, 42).unwrap();
            assert_eq!(round.snake.body, line_at(21, 0, vec![seg(Direction::Down, 3)]));
            assert_eq!(round.snake.movement_period, period);
            assert_eq!(round.snake.direction, Direction::Down);
            assert_eq!(round.wall, new_play_area_wall());
            assert_eq!(round.score, 0);
            assert_eq!(round.game_over, false);
            assert_eq!(round.difficulty, difficulty);
            assert!(!round.snake.body.collides_with_point(round.apple));
            assert!(1 <= round.apple.x && round.apple.x < 57);
            assert!(1 <= round.apple.y && round.apple.y < 9);
        }
    }
}

#[test]
fn direction_key_that_went_down_is_the_request() {
    assert_eq!(get_direction(&keys(&[])), None);
    assert_eq!(get_direction(&keys(&[VK_RIGHT])), Some(Direction::Right));
    assert_eq!(get_direction(&keys(&[VK_LEFT])), Some(Direction::Left));
    assert_eq!(get_direction(&keys(&[VK_UP])), Some(Direction::Up));
    assert_eq!(get_direction(&keys(&[VK_DOWN])), Some(Direction::Down));
    assert_eq!(get_direction(&keys(&[VK_DOWN, VK_UP])), Some(Direction::Up));
    assert_eq!(get_direction(&keys(&[VK_DOWN, VK_UP, VK_LEFT])), Some(Direction::Left));
    assert_eq!(get_direction(&keys(&[VK_DOWN, VK_UP, VK_LEFT, VK_RIGHT])), Some(Direction::Right));
}

#[test]
fn direction_key_that_is_held_is_no_request() {
    let mut handler = keys(&[VK_LEFT]);
    let mut raw = vec![0i16; NUM_KEY_STATES];
    raw[VK_LEFT as usize] = i16::MIN;
    handler.update(&raw);
    assert_eq!(get_direction(&handler), None);
}

#[test]
fn tick_without_a_due_step_only_counts_the_frame() {
    let round = round_with(line_at(5, 0, vec![seg(Direction::Down, 3)]), Direction::Down, 0);
    let next = run_ongoing_round(round, &keys(&[]), &mut generator());
    assert_eq!(next.snake.movement_frames, 1);
    assert_eq!(next.snake.body, line_at(5, 0, vec![seg(Direction::Down, 3)]));
    assert_eq!(next.snake.direction, Direction::Down);
    assert_eq!(next.apple, Point::new(40, 7));
    assert_eq!(next.score, 0);
    assert_eq!(next.game_over, false);
}

#[test]
fn snake_steps_once_in_a_period() {
    let mut round = round_with(line_at(5, 0, vec![seg(Direction::Down, 3)]), Direction::Down, 0);
    let mut generator = generator();
    for frame in 1..6 {
        round = run_ongoing_round(round, &keys(&[]), &mut generator);
        assert_eq!(round.snake.movement_frames, frame);
        assert_eq!(round.snake.body.start, Point::new(5, 0));
    }
    round = run_ongoing_round(round, &keys(&[]), &mut generator);
    assert_eq!(round.snake.movement_frames, 0);
    assert_eq!(round.snake.body, line_at(5, 1, vec![seg(Direction::Down, 3)]));
    assert_eq!(round.snake.body.head(), Point::new(5, 4));
    assert_eq!(round.game_over, false);
}

#[test]
fn turning_steps_at_once_and_starts_the_cooldown() {
    let round = round_with(line_at(5, 0, vec![seg(Direction::Down, 3)]), Direction::Down, 2);
    let next = run_ongoing_round(round, &keys(&[VK_RIGHT]), &mut generator());
    assert_eq!(next.snake.direction, Direction::Right);
    assert_eq!(next.snake.movement_frames, 0);
    assert_eq!(next.snake.turn_cooldown, 3);
    assert_eq!(next.snake.body, line_at(5, 1, vec![seg(Direction::Down, 2), seg(Direction::Right, 1)]));
    assert_eq!(next.snake.body.head(), Point::new(6, 3));
}

#[test]
fn turn_is_refused_while_the_cooldown_runs() {
    let mut round = round_with(line_at(5, 0, vec![seg(Direction::Down, 3)]), Direction::Down, 0);
    round.snake.turn_cooldown = 2;
    let next = run_ongoing_round(round, &keys(&[VK_RIGHT]), &mut generator());
    assert_eq!(next.snake.direction, Direction::Down);
    assert_eq!(next.snake.turn_cooldown, 1);
    assert_eq!(next.snake.movement_frames, 1);

    let next = run_ongoing_round(next, &keys(&[VK_RIGHT]), &mut generator());
    assert_eq!(next.snake.direction, Direction::Right);
    assert_eq!(next.snake.turn_cooldown, 3);
}

#[test]
fn reversing_is_refused() {
    let round = round_with(line_at(5, 0, vec![seg(Direction::Down, 3)]), Direction::Down, 0);
    let next = run_ongoing_round(round, &keys(&[VK_UP]), &mut generator());
    assert_eq!(next.snake.direction, Direction::Down);
    assert_eq!(next.snake.movement_frames, 1);
    assert_eq!(next.snake.turn_cooldown, 0);
    assert_eq!(next.snake.body, line_at(5, 0, vec![seg(Direction::Down, 3)]));
}

#[test]
fn running_into_the_wall_ends_the_round_and_stops_the_snake() {
    let round = round_with(line_at(5, 6, vec![seg(Direction::Down, 3)]), Direction::Down, 5);
    let next = run_ongoing_round(round, &keys(&[]), &mut generator());
    assert_eq!(next.game_over, true);
    assert_eq!(next.snake.body, line_at(5, 6, vec![seg(Direction::Down, 3)]));
    assert_eq!(next.snake.movement_frames, 6);
    assert_eq!(next.score, 0);
}

#[test]
fn stepping_along_the_wall_is_fine() {
    let round = round_with(line_at(5, 9, vec![seg(Direction::Right, 3)]), Direction::Right, 5);
    let next = run_ongoing_round(round, &keys(&[]), &mut generator());
    assert_eq!(next.game_over, false);
    assert_eq!(next.snake.body, line_at(6, 9, vec![seg(Direction::Right, 3)]));
}

#[test]
fn running_into_itself_ends_the_round() {
    let body = line_at(
        3,
        3,
        vec![seg(Direction::Right, 4), seg(Direction::Down, 2), seg(Direction::Left, 2), seg(Direction::Up, 1)],
    );
    let round = round_with(body, Direction::Up, 5);
    let next = run_ongoing_round(round, &keys(&[]), &mut generator());
    assert_eq!(next.game_over, true);
    assert_eq!(
        next.snake.body,
        line_at(
            4,
            3,
            vec![seg(Direction::Right, 3), seg(Direction::Down, 2), seg(Direction::Left, 2), seg(Direction::Up, 2)],
        )
    );
    assert_eq!(next.snake.movement_frames, 0);
}

#[test]
fn eating_the_apple_grows_the_snake_and_scores() {
    let mut round = round_with(line_at(5, 0, vec![seg(Direction::Down, 3)]), Direction::Down, 5);
    round.apple = Point::new(5, 4);
    let next = run_ongoing_round(round, &keys(&[]), &mut generator());
    assert_eq!(next.game_over, false);
    assert_eq!(next.score, 100);
    assert_eq!(APPLE_SCORE, 100);
    assert_eq!(next.snake.body, line_at(5, 0, vec![seg(Direction::Down, 4)]));
    assert_eq!(next.snake.body.len(), 5);
    assert!(!next.snake.body.collides_with_point(next.apple));
    assert!(1 <= next.apple.x && next.apple.x < 57);
    assert!(1 <= next.apple.y && next.apple.y < 9);
}

#[test]
fn apple_under_a_resting_head_is_eaten_too() {
    let mut round = round_with(line_at(5, 0, vec![seg(Direction::Down, 3)]), Direction::Down, 0);
    round.apple = Point::new(5, 3);
    round.score = 200;
    let next = run_ongoing_round(round, &keys(&[]), &mut generator());
    assert_eq!(next.score, 300);
    assert_eq!(next.snake.body, line_at(5, -1, vec![seg(Direction::Down, 4)]));
    assert!(next.apple != Point::new(5, 3));
}

#[test]
fn dead_snake_blinks_and_then_stays_red() {
    let round = round_with(line_at(5, 0, vec![seg(Direction::Down, 3)]), Direction::Down, 0);
    let mut state = RoundEndState { round, frames: 0 };
    let mut colors = vec![];
    for _ in 0..60 {
        state = run_round_ending(state);
        colors.push(state.round.snake.color);
    }
    assert_eq!(state.frames, 60);
    for (i, color) in colors.into_iter().enumerate() {
        let frames = i + 1;
        let expected = if frames >= 40 || (frames / 5) % 2 == 0 { 88 } else { 34 };
        assert_eq!(color, expected, "at frame {}", frames);
    }
    assert_eq!(RED, 88);
    assert_eq!(GREEN, 34);
    assert_eq!(state.round.snake.body, line_at(5, 0, vec![seg(Direction::Down, 3)]));
}

#[test]
fn colors_of_the_first_frames_of_the_end() {
    let round = round_with(line_at(5, 0, vec![seg(Direction::Down, 3)]), Direction::Down, 0);
    let state = run_round_ending(RoundEndState { round, frames: 3 });
    assert_eq!((state.frames, state.round.snake.color), (4, 88));
    let state = run_round_ending(state);
    assert_eq!((state.frames, state.round.snake.color), (5, 34));
    let state = run_round_ending(RoundEndState { round: state.round, frames: 9 });
    assert_eq!((state.frames, state.round.snake.color), (10, 88));
    let state = run_round_ending(RoundEndState { round: state.round, frames: 38 });
    assert_eq!((state.frames, state.round.snake.color), (39, 34));
    let state = run_round_ending(state);
    assert_eq!((state.frames, state.round.snake.color), (40, 88));
}

#[test]
fn round_always_begins_where_the_fresh_snake_is_out_of_the_range() {
    // the fresh snake lies in column 21, from row 0 to row 3
    let mut below = IVec2Generator::new(StdRng::seed_from_u64(0x5eed), 1, 57, 4, 9);
    let mut beside = IVec2Generator::new(StdRng::seed_from_u64(0x5eed), 22, 57, 0, 9);
    for _ in 0..300 {
        let round = RoundState::new(&mut below, GameDifficulty::Normal, 42).expect("rows 4 to 8 are free");
        assert!(4 <= round.apple.y && round.apple.y < 9);
        assert_eq!(round.snake.body, line_at(21, 0, vec![seg(Direction::Down, 3)]));
        let round = RoundState::new(&mut beside, GameDifficulty::Easy, 43).expect("columns 22 to 56 are free");
        assert!(22 <= round.apple.x && round.apple.x < 57);
        assert_eq!(round.snake.movement_period, 8);
    }
}
