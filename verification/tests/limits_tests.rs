use snake::game::{check_can_update, GameState, RoundStartState, StartMenuArea, StartMenuItem, StartMenuState};
use snake::graphics::{check_can_show, check_steps_fit};
use snake::menu::ItemList;
use snake::point::Point;
use snake::rectilinear::{ChainedLineSegment, Direction, RectilinearLine};
use snake::round::{
    check_can_step, check_can_tick, new_play_area_wall, GameDifficulty, RoundEndState, RoundState,
    SnakeState,
};
use snake::timing::checked_microsec_timestamp;
use std::collections::VecDeque;

fn seg(dir: Direction, len: usize) -> ChainedLineSegment {
    ChainedLineSegment { dir, len }
}

fn line_at(x: i32, y: i32, segments: Vec<ChainedLineSegment>) -> RectilinearLine {
    RectilinearLine { start: Point::new(x, y), segments: VecDeque::from(segments) }
}

fn round_with(body: RectilinearLine) -> RoundState {
    RoundState {
        snake: SnakeState {
            movement_period: 6,
            body,
            direction: Direction::Down,
            color: 34,
            movement_frames: 0,
            turn_cooldown: 0,
        },
        apple: Point::new(40, 7),
        wall: new_play_area_wall(),
        score: 0,
        game_over: false,
        difficulty: GameDifficulty::Normal,
    }
}

#[test]
fn lines_on_the_grid_fit() {
    assert!(line_at(0, 0, vec![]).check_fits());
    assert!(line_at(i32::MAX, i32::MIN, vec![]).check_fits());
    assert!(line_at(0, 0, vec![seg(Direction::Right, 3), seg(Direction::Up, 0)]).check_fits());
    assert!(line_at(0, 0, vec![seg(Direction::Right, i32::MAX as usize)]).check_fits());
    assert!(line_at(-1, 0, vec![seg(Direction::Left, i32::MAX as usize)]).check_fits());
    assert!(new_play_area_wall().check_fits());
}

#[test]
fn lines_that_leave_the_grid_do_not_fit() {
    assert!(!line_at(i32::MAX, 0, vec![seg(Direction::Right, 1)]).check_fits());
    assert!(!line_at(0, i32::MIN, vec![seg(Direction::Up, 1)]).check_fits());
    assert!(!line_at(1, 0, vec![seg(Direction::Right, i32::MAX as usize)]).check_fits());
    assert!(!line_at(-2, 0, vec![seg(Direction::Left, i32::MAX as usize)]).check_fits());
    // it comes back, but a joint is outside
    assert!(!line_at(i32::MAX - 1, 0, vec![seg(Direction::Right, 2), seg(Direction::Left, 5)]).check_fits());
}

#[test]
fn lines_with_a_length_beyond_i32_do_not_fit() {
    assert!(!line_at(0, 0, vec![seg(Direction::Down, i32::MAX as usize + 1)]).check_fits());
    assert!(!line_at(i32::MIN, 0, vec![seg(Direction::Right, u32::MAX as usize)]).check_fits());
}

#[test]
fn a_body_can_step_where_there_is_room() {
    assert!(check_can_step(&line_at(5, 0, vec![seg(Direction::Down, 3)])));
    assert!(check_can_step(&line_at(i32::MAX - 1, i32::MIN + 1, vec![seg(Direction::Left, 3)])));
    assert!(check_can_step(&line_at(0, 0, vec![seg(Direction::Right, i32::MAX as usize - 2)])));
}

#[test]
fn a_body_cannot_step_without_segments_or_lengths() {
    assert!(!check_can_step(&line_at(5, 0, vec![])));
    assert!(!check_can_step(&line_at(5, 0, vec![seg(Direction::Down, 0)])));
    assert!(!check_can_step(&line_at(5, 0, vec![seg(Direction::Down, 2), seg(Direction::Left, 0)])));
}

#[test]
fn a_body_cannot_step_on_the_rim() {
    assert!(!check_can_step(&line_at(i32::MAX, 0, vec![seg(Direction::Left, 3)])));
    assert!(!check_can_step(&line_at(0, i32::MIN, vec![seg(Direction::Down, 3)])));
    assert!(!check_can_step(&line_at(i32::MAX - 3, 0, vec![seg(Direction::Right, 3)])));
    assert!(!check_can_step(&line_at(0, 0, vec![seg(Direction::Right, i32::MAX as usize - 1)])));
}

#[test]
fn a_round_can_tick_while_its_counters_can_count() {
    assert!(check_can_tick(&round_with(line_at(5, 0, vec![seg(Direction::Down, 3)]))));

    let mut round = round_with(line_at(5, 0, vec![seg(Direction::Down, 3)]));
    round.score = usize::MAX - 100;
    assert!(check_can_tick(&round));
    round.score = usize::MAX - 99;
    assert!(!check_can_tick(&round));

    let mut round = round_with(line_at(5, 0, vec![seg(Direction::Down, 3)]));
    round.snake.movement_frames = usize::MAX;
    assert!(!check_can_tick(&round));

    assert!(!check_can_tick(&round_with(line_at(5, 0, vec![]))));

    let mut round = round_with(line_at(5, 0, vec![seg(Direction::Down, 3)]));
    round.wall = line_at(i32::MAX, 0, vec![seg(Direction::Right, 1)]);
    assert!(!check_can_tick(&round));
}

fn menu(index: usize) -> StartMenuState {
    StartMenuState {
        focused_area: StartMenuArea::Main,
        menu_items: ItemList::new(
            vec![StartMenuItem::Start, StartMenuItem::Difficulty, StartMenuItem::Exit].into_iter(),
            index,
        ),
        difficulty_items: ItemList::new(
            vec![GameDifficulty::Easy, GameDifficulty::Normal, GameDifficulty::Hard].into_iter(),
            1,
        ),
        difficulty: GameDifficulty::Normal,
    }
}

#[test]
fn a_list_is_well_formed_where_it_stands_on_an_item() {
    assert!(menu(0).menu_items.check_wf());
    assert!(menu(2).menu_items.check_wf());
    assert!(!menu(3).menu_items.check_wf());
    let empty: ItemList<u8> = ItemList::new(vec![].into_iter(), 0);
    assert!(!empty.check_wf());
}

#[test]
fn the_game_can_go_on_from_its_ordinary_states() {
    assert!(check_can_update(&GameState::StartMenu(menu(0))));
    assert!(!check_can_update(&GameState::StartMenu(menu(3))));
    assert!(check_can_update(&GameState::RoundStart(RoundStartState {
        frames: 0,
        difficulty: GameDifficulty::Easy
    })));
    assert!(!check_can_update(&GameState::RoundStart(RoundStartState {
        frames: usize::MAX,
        difficulty: GameDifficulty::Easy
    })));
    assert!(check_can_update(&GameState::OngoingRound(round_with(line_at(
        5,
        0,
        vec![seg(Direction::Down, 3)]
    )))));
    assert!(!check_can_update(&GameState::OngoingRound(round_with(line_at(5, 0, vec![])))));
    assert!(check_can_update(&GameState::RoundEnd(RoundEndState {
        round: round_with(line_at(5, 0, vec![])),
        frames: 7
    })));
    assert!(!check_can_update(&GameState::RoundEnd(RoundEndState {
        round: round_with(line_at(5, 0, vec![])),
        frames: usize::MAX
    })));
    assert!(check_can_update(&GameState::ProgramExit(30)));
    assert!(!check_can_update(&GameState::ProgramExit(usize::MAX)));
}

#[test]
fn a_line_can_be_shown_where_the_screen_holds_it() {
    let line = line_at(2, 3, vec![seg(Direction::Right, 2), seg(Direction::Down, 3)]);
    assert!(check_can_show(&line, Point::new(10, 5)));
    assert!(check_can_show(&line, Point::new(i32::MAX - 4, i32::MAX - 6)));
    assert!(!check_can_show(&line, Point::new(i32::MAX - 3, 0)));
    assert!(!check_can_show(&line, Point::new(0, i32::MAX - 5)));
    assert!(!check_can_show(&line_at(0, 0, vec![seg(Direction::Right, i32::MAX as usize)]), Point::new(0, 0)));
    assert!(check_can_show(&line_at(0, 0, vec![seg(Direction::Right, i32::MAX as usize - 1)]), Point::new(0, 0)));
    assert!(!check_can_show(&line_at(i32::MAX, 0, vec![seg(Direction::Right, 1)]), Point::new(-5, 0)));
}

#[test]
fn steps_fit_where_their_extent_fits() {
    assert!(check_steps_fit(&vec![]));
    assert!(check_steps_fit(&vec![Point::new(i32::MIN, i32::MAX)]));
    assert!(check_steps_fit(&vec![Point::new(0, 0), Point::new(3, 0), Point::new(3, -2)]));
    assert!(check_steps_fit(&vec![Point::new(0, 0), Point::new(i32::MAX - 1, 0)]));
    assert!(!check_steps_fit(&vec![Point::new(0, 0), Point::new(i32::MAX, 0)]));
    assert!(!check_steps_fit(&vec![Point::new(0, 0), Point::new(1, 1), Point::new(1, i32::MIN)]));
    assert!(!check_steps_fit(&vec![Point::new(-1, 0), Point::new(i32::MAX, 0)]));
}

#[test]
fn time_stamp_is_refused_where_the_counter_does_not_run() {
    assert_eq!(checked_microsec_timestamp(10_000_000, 25_000_000), Some(2_500_000));
    assert_eq!(checked_microsec_timestamp(3, 1), Some(333_333));
    assert_eq!(checked_microsec_timestamp(0, 5), None);
    assert_eq!(checked_microsec_timestamp(0, 0), None);
    assert_eq!(checked_microsec_timestamp(0, -5), None);
}

#[test]
fn time_stamp_of_either_sign_is_rounded_towards_zero() {
    assert_eq!(checked_microsec_timestamp(-1, 5), Some(-5_000_000));
    assert_eq!(checked_microsec_timestamp(10, -1), Some(-100_000));
    assert_eq!(checked_microsec_timestamp(3, -1), Some(-333_333));
    assert_eq!(checked_microsec_timestamp(-3, 1), Some(-333_333));
    assert_eq!(checked_microsec_timestamp(-3, -2), Some(666_666));
}

#[test]
fn time_stamp_is_refused_where_it_does_not_fit() {
    assert_eq!(checked_microsec_timestamp(1_000_000, i64::MAX), Some(i64::MAX));
    assert_eq!(checked_microsec_timestamp(1_000_000, i64::MIN), Some(i64::MIN));
    assert_eq!(checked_microsec_timestamp(-1_000_000, i64::MIN), None);
    assert_eq!(checked_microsec_timestamp(-1_000_000, i64::MAX), Some(-i64::MAX));
    assert_eq!(checked_microsec_timestamp(999_999, i64::MAX), None);
    assert_eq!(checked_microsec_timestamp(1, i64::MAX), None);
    assert_eq!(checked_microsec_timestamp(1, i64::MIN), None);
    assert_eq!(checked_microsec_timestamp(1, 9_223_372_036_854), Some(9_223_372_036_854_000_000));
    assert_eq!(checked_microsec_timestamp(1, 9_223_372_036_855), None);
}
