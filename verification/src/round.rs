//! One round of the game: the snake, the wall round the play area, the
//! apple, and what a tick does to them.

use crate::apple::{generate_apple, IVec2Generator};
use crate::graphics::{half, BORDER_HEIGHT, BORDER_WIDTH};
use crate::keyboard::{KeyboardHandler, VK_DOWN, VK_LEFT, VK_RIGHT, VK_UP};
use crate::laws::{law_extended_fits, law_grown_fits, law_shrunk_fits};
use crate::point::{fits_i32, vec_add, Point};
use crate::rectilinear::{
    lemma_extended, lemma_shrunk, ChainedLineSegment, Direction, LineModel, RectilinearLine,
    SegmentModel,
};
use std::collections::VecDeque;
use vstd::prelude::*;

verus! {

#[derive(Debug, Copy, Clone, PartialEq, Eq, Structural)]
pub enum GameDifficulty {
    Easy,
    Normal,
    Hard,
}

impl GameDifficulty {
    /// The frames that the snake takes for one step.
    pub open spec fn spec_movement_period(self) -> usize {
        match self {
            GameDifficulty::Easy => 8,
            GameDifficulty::Normal => 6,
            GameDifficulty::Hard => 4,
        }
    }

    pub fn movement_period(self) -> (frames: usize)
        ensures
            frames == self.spec_movement_period(),
    {
        match self {
            GameDifficulty::Easy => 8,
            GameDifficulty::Normal => 6,
            GameDifficulty::Hard => 4,
        }
    }
}

#[derive(Debug)]
pub struct SnakeState {
    pub movement_period: usize,
    pub body: RectilinearLine,
    pub direction: Direction,
    pub color: u64,
    pub movement_frames: usize,
    pub turn_cooldown: usize,
}

#[derive(Debug)]
pub struct RoundState {
    pub snake: SnakeState,
    pub apple: Point,
    pub wall: RectilinearLine,
    pub score: usize,
    pub game_over: bool,
    pub difficulty: GameDifficulty,
}

#[derive(Debug)]
pub struct RoundEndState {
    pub round: RoundState,
    pub frames: usize,
}

/// The color pair of a living snake.
pub const GREEN: u64 = 34;

/// The color pair of the apple, and of a snake that has died.
pub const RED: u64 = 88;

/// The points that an apple is worth.
pub const APPLE_SCORE: usize = 100;

/// The direction whose key went down at the last poll, if any; of several,
/// the first of right, left, up, down.
pub open spec fn requested_direction(keyboard_handler: &KeyboardHandler) -> Option<Direction> {
    if keyboard_handler.pressed_now(VK_RIGHT as int) {
        Some(Direction::Right)
    } else if keyboard_handler.pressed_now(VK_LEFT as int) {
        Some(Direction::Left)
    } else if keyboard_handler.pressed_now(VK_UP as int) {
        Some(Direction::Up)
    } else if keyboard_handler.pressed_now(VK_DOWN as int) {
        Some(Direction::Down)
    } else {
        None
    }
}

/// Get which direction key is pressed, if any
pub fn get_direction(keyboard_handler: &KeyboardHandler) -> (d: Option<Direction>)
    requires
        keyboard_handler.wf(),
    ensures
        d == requested_direction(keyboard_handler),
{
    if keyboard_handler.key_pressed_now(VK_RIGHT) {
        Some(Direction::Right)
    } else if keyboard_handler.key_pressed_now(VK_LEFT) {
        Some(Direction::Left)
    } else if keyboard_handler.key_pressed_now(VK_UP) {
        Some(Direction::Up)
    } else if keyboard_handler.key_pressed_now(VK_DOWN) {
        Some(Direction::Down)
    } else {
        None
    }
}

/// The wall that surrounds the play area, as the contracts see it: it
/// starts one cell outside the area's upper left cell, runs round the area
/// and ends one cell short of its start.
pub open spec fn play_area_wall() -> LineModel {
    LineModel {
        x: -1,
        y: -1,
        segments: seq![
            SegmentModel { dir: Direction::Right, len: 59 },
            SegmentModel { dir: Direction::Down, len: 11 },
            SegmentModel { dir: Direction::Left, len: 59 },
            SegmentModel { dir: Direction::Up, len: 10 },
        ],
    }
}

/// The wall's joints are (-1, -1), (58, -1), (58, 10), (-1, 10) and
/// (-1, 0): it fits, and has the shape that the game's invariants ask for.
pub proof fn lemma_play_area_wall()
    ensures
        play_area_wall().fits(),
        play_area_wall().valid(),
        play_area_wall().alternating(),
        play_area_wall().head_x() == -1,
        play_area_wall().head_y() == 0,
{
    let w = play_area_wall();
    reveal_with_fuel(LineModel::joint_x, 6);
    reveal_with_fuel(LineModel::joint_y, 6);
    assert(w.joint_x(0) == -1 && w.joint_y(0) == -1);
    assert(w.joint_x(1) == 58 && w.joint_y(1) == -1);
    assert(w.joint_x(2) == 58 && w.joint_y(2) == 10);
    assert(w.joint_x(3) == -1 && w.joint_y(3) == 10);
    assert(w.joint_x(4) == -1 && w.joint_y(4) == 0);
    assert forall|i: int| 0 <= i <= w.segments.len() implies #[trigger] w.joint_fits(i) by {
        assert(i == 0 || i == 1 || i == 2 || i == 3 || i == 4);
    }
    assert forall|i: int| 0 < i < w.segments.len() implies #[trigger] w.turns_at(i) by {
        assert(i == 1 || i == 2 || i == 3);
    }
}

/// The wall leaves the play area free: it covers no cell from (0, 0) to
/// (57, 9).
pub proof fn lemma_play_area_is_free(x: int, y: int)
    requires
        0 <= x < 58,
        0 <= y < 10,
    ensures
        !play_area_wall().occupies(x, y),
{
    let w = play_area_wall();
    lemma_play_area_wall();
    reveal_with_fuel(LineModel::joint_x, 6);
    reveal_with_fuel(LineModel::joint_y, 6);
    assert(w.joint_x(0) == -1 && w.joint_y(0) == -1);
    assert(w.joint_x(1) == 58 && w.joint_y(1) == -1);
    assert(w.joint_x(2) == 58 && w.joint_y(2) == 10);
    assert(w.joint_x(3) == -1 && w.joint_y(3) == 10);
    assert forall|i: int, k: int|
        0 <= i < w.segments.len() && 0 <= k <= w.segments[i].len implies !#[trigger] w.at_cell(
        i,
        k,
        x,
        y,
    ) by {
        assert(i == 0 || i == 1 || i == 2 || i == 3);
    }
}

/// The wall is not in its own way: it ends one cell short of its start.
pub proof fn lemma_play_area_wall_is_simple()
    ensures
        !play_area_wall().overlapping(),
{
    let w = play_area_wall();
    reveal_with_fuel(LineModel::joint_x, 6);
    reveal_with_fuel(LineModel::joint_y, 6);
    assert(w.joint_x(0) == -1 && w.joint_y(0) == -1);
    assert(w.joint_x(1) == 58 && w.joint_y(1) == -1);
    assert(w.joint_x(2) == 58 && w.joint_y(2) == 10);
    assert(w.joint_x(3) == -1 && w.joint_y(3) == 10);
    assert forall|i: int, j: int|
        0 <= i < w.segments.len() && 0 <= j < w.segments.len() implies !#[trigger] w.clash_at(
        i,
        j,
    ) by {
        assert(i == 0 || i == 1 || i == 2 || i == 3);
        assert(j == 0 || j == 1 || j == 2 || j == 3);
    }
}

/// Create the wall that surrounds the play area
pub fn new_play_area_wall() -> (wall: RectilinearLine)
    ensures
        wall@ == play_area_wall(),
{
    let mut segments: VecDeque<ChainedLineSegment> = VecDeque::new();
    segments.push_back(ChainedLineSegment { dir: Direction::Right, len: BORDER_WIDTH as usize - 1 });
    segments.push_back(ChainedLineSegment { dir: Direction::Down, len: BORDER_HEIGHT as usize - 1 });
    segments.push_back(ChainedLineSegment { dir: Direction::Left, len: BORDER_WIDTH as usize - 1 });
    segments.push_back(ChainedLineSegment { dir: Direction::Up, len: BORDER_HEIGHT as usize - 2 });
    let wall = RectilinearLine {
        // we surround the play area, so we start at (-1,-1)
        start: Point { x: -1, y: -1 },
        segments,
    };
    assert(wall@.segments =~= play_area_wall().segments);
    wall
}

/// The body of a snake at the start of a round: three steps down from the
/// top row, at column `x`.
pub open spec fn fresh_body(x: int) -> LineModel {
    LineModel { x, y: 0, segments: seq![SegmentModel { dir: Direction::Down, len: 3 }] }
}

/// A fresh body lies between (x, 0) and (x, 3).
pub proof fn lemma_fresh_body(x: int)
    ensures
        fresh_body(x).head_x() == x,
        fresh_body(x).head_y() == 3,
        fresh_body(x).valid(),
        fits_i32(x) ==> fresh_body(x).fits(),
{
    let b = fresh_body(x);
    reveal_with_fuel(LineModel::joint_x, 3);
    reveal_with_fuel(LineModel::joint_y, 3);
    assert(b.joint_x(0) == x && b.joint_y(0) == 0);
    assert(b.joint_x(1) == x && b.joint_y(1) == 3);
    if fits_i32(x) {
        assert forall|i: int| 0 <= i <= b.segments.len() implies #[trigger] b.joint_fits(i) by {
            assert(i == 0 || i == 1);
        }
    }
}

impl SnakeState {
    /// The snake at the start of a round, on a screen whose middle column
    /// is `screen_middle_x`: it heads down, and takes six frames a step
    /// until the difficulty says otherwise.
    pub fn new(screen_middle_x: i32) -> (snake: SnakeState)
        ensures
            snake.body@ == fresh_body(half(screen_middle_x as int)),
            snake.direction == Direction::Down,
            snake.movement_period == 6,
            snake.color == GREEN,
            snake.movement_frames == 0,
            snake.turn_cooldown == 0,
    {
        let mut segments: VecDeque<ChainedLineSegment> = VecDeque::new();
        segments.push_back(ChainedLineSegment { dir: Direction::Down, len: 3 });
        let body = RectilinearLine { start: Point { x: screen_middle_x / 2, y: 0 }, segments };
        assert(body@.segments =~= fresh_body(half(screen_middle_x as int)).segments);
        let direction = match body.dir() {
            Some(direction) => direction,
            None => Direction::Down,
        };
        SnakeState {
            movement_period: 6,
            body,
            color: GREEN,
            direction,
            movement_frames: 0,
            turn_cooldown: 0,
        }
    }
}

/// `round` is a round at its start, of the difficulty given, on a screen
/// whose middle column is `screen_middle_x`: a fresh snake with the pace
/// of the difficulty, the wall, no score, and an apple that `generator`
/// can draw and that the snake does not cover.
pub open spec fn fresh_round(
    round: &RoundState,
    generator: &IVec2Generator,
    difficulty: GameDifficulty,
    screen_middle_x: i32,
) -> bool {
    &&& round.snake.body@ == fresh_body(half(screen_middle_x as int))
    &&& round.snake.direction == Direction::Down
    &&& round.snake.movement_period == difficulty.spec_movement_period()
    &&& round.snake.color == GREEN
    &&& round.snake.movement_frames == 0
    &&& round.snake.turn_cooldown == 0
    &&& generator.covers(round.apple)
    &&& !round.snake.body@.occupies(round.apple.x as int, round.apple.y as int)
    &&& round.wall@ == play_area_wall()
    &&& round.score == 0
    &&& !round.game_over
    &&& round.difficulty == difficulty
}

impl RoundState {
    /// A new round. Where the fresh snake covers none of the cells that
    /// the generator can draw, there is a round. Else the draws decide:
    /// `None` if the generator gave no cell for the apple.
    pub fn new(
        generator: &mut IVec2Generator,
        difficulty: GameDifficulty,
        screen_middle_x: i32,
    ) -> (round: Option<RoundState>)
        requires
            old(generator).wf(),
        ensures
            final(generator).wf(),
            final(generator).same_ranges(old(generator)),
            round matches Some(r) ==> fresh_round(&r, old(generator), difficulty, screen_middle_x),
            old(generator).clear_of(fresh_body(half(screen_middle_x as int))) ==> round.is_some(),
    {
        let mut snake = SnakeState::new(screen_middle_x);
        snake.movement_period = difficulty.movement_period();
        proof {
            lemma_fresh_body(half(screen_middle_x as int));
        }
        match generate_apple(generator, &snake.body) {
            Some(apple) => Some(
                RoundState {
                    snake,
                    apple,
                    wall: new_play_area_wall(),
                    score: 0,
                    game_over: false,
                    difficulty,
                },
            ),
            None => None,
        }
    }
}

/// The color of a dead snake, `frames` frames into the end of its round:
/// it blinks red and green, five frames each, and stays red from the
/// fortieth frame on.
pub open spec fn blink_color(frames: int) -> u64 {
    if frames / 5 < 8 && (frames / 5) % 2 != 0 {
        GREEN
    } else {
        RED
    }
}

/// `next` is what one frame makes of the end of a round: the frames are
/// counted, the snake takes the color of that frame, and nothing else
/// changes.
pub open spec fn round_ending(state: &RoundEndState, next: &RoundEndState) -> bool {
    &&& next.frames == state.frames + 1
    &&& next.round.snake.color == blink_color(state.frames + 1)
    &&& next.round.snake.body == state.round.snake.body
    &&& next.round.snake.movement_period == state.round.snake.movement_period
    &&& next.round.snake.direction == state.round.snake.direction
    &&& next.round.snake.movement_frames == state.round.snake.movement_frames
    &&& next.round.snake.turn_cooldown == state.round.snake.turn_cooldown
    &&& next.round.apple == state.round.apple
    &&& next.round.wall == state.round.wall
    &&& next.round.score == state.round.score
    &&& next.round.game_over == state.round.game_over
    &&& next.round.difficulty == state.round.difficulty
}

/// One frame of the end of a round.
pub fn run_round_ending(state: RoundEndState) -> (next: RoundEndState)
    requires
        state.frames < usize::MAX,
    ensures
        round_ending(&state, &next),
{
    let mut state = state;
    state.frames = state.frames + 1;
    let blink_period: usize = 5;
    let elapsed_periods: usize = state.frames / blink_period;

    state.round.snake.color = if elapsed_periods < 8 {
        /* Blink a few times */
        if elapsed_periods % 2 == 0 {
            RED
        } else {
            GREEN
        }
    } else {
        /* Remain red */
        RED
    };
    state
}

/// How the snake paces its steps and turns.
pub struct Pace {
    pub movement_period: usize,
    pub direction: Direction,
    pub movement_frames: usize,
    pub turn_cooldown: usize,
}

impl SnakeState {
    pub open spec fn pace(&self) -> Pace {
        Pace {
            movement_period: self.movement_period,
            direction: self.direction,
            movement_frames: self.movement_frames,
            turn_cooldown: self.turn_cooldown,
        }
    }
}

/// The pace after one frame in which `request` was asked for. A frame is
/// counted and the cooldown runs down. A request is followed unless it
/// reverses the snake or the cooldown still runs: the snake then turns,
/// steps in this very frame, and may not turn again for half a period.
pub open spec fn steered(pace: Pace, request: Option<Direction>) -> Pace {
    let cooldown: usize = if pace.turn_cooldown > 0 {
        (pace.turn_cooldown - 1) as usize
    } else {
        0
    };
    if request.is_some() && request.unwrap() != pace.direction.spec_opposite() && cooldown == 0 {
        Pace {
            movement_period: pace.movement_period,
            direction: request.unwrap(),
            movement_frames: pace.movement_period,
            turn_cooldown: pace.movement_period / 2,
        }
    } else {
        Pace {
            movement_period: pace.movement_period,
            direction: pace.direction,
            movement_frames: (pace.movement_frames + 1) as usize,
            turn_cooldown: cooldown,
        }
    }
}

/// What a tick needs of a body and of the machine: the body has segments,
/// each with a length, and there is room for one more step at either end.
pub open spec fn can_step(body: LineModel) -> bool {
    &&& body.valid()
    &&& body.segments.len() > 0
    &&& forall|i: int| 0 <= i <= body.segments.len() ==> #[trigger] has_room(body, i)
    &&& forall|i: int|
        0 <= i < body.segments.len() ==> (#[trigger] body.segments[i]).len + 2 <= i32::MAX
}

/// Joint `i` of `body` is not on the rim of what an `i32` holds.
pub open spec fn has_room(body: LineModel, i: int) -> bool {
    &&& i32::MIN < body.joint_x(i) < i32::MAX
    &&& i32::MIN < body.joint_y(i) < i32::MAX
}

/// What a tick needs of a round: a keyboard that was polled, a body that
/// can step, and counters that can count on.
pub open spec fn can_tick(round: &RoundState) -> bool {
    &&& can_step(round.snake.body@)
    &&& round.wall@.fits()
    &&& round.snake.movement_frames < usize::MAX
    &&& round.score + APPLE_SCORE <= usize::MAX
}

/// What a tick leaves as it is, whatever happens: the wall, the
/// difficulty, the snake's color and the length of its period.
pub open spec fn same_setting(round: &RoundState, next: &RoundState) -> bool {
    &&& next.wall@ == round.wall@
    &&& next.difficulty == round.difficulty
    &&& next.snake.color == round.snake.color
    &&& next.snake.movement_period == round.snake.movement_period
}

/// One tick of the round, `request` being the direction asked for:
/// - the snake is steered;
/// - if its step is due and the cell ahead of its head is wall, the round
///   is over and the snake stays;
/// - else the snake steps, if its step is due; if it then is in its own
///   way, the round is over;
/// - else, if its head is on the apple, it grows at the tail and scores,
///   and the apple is either where it was or on a cell that `generator`
///   can draw and that the snake does not cover; it is on such a cell
///   where the grown snake covers none of the cells that can be drawn.
pub open spec fn ticked(
    round: &RoundState,
    request: Option<Direction>,
    generator: &IVec2Generator,
    next: &RoundState,
) -> bool {
    let pace = steered(round.snake.pace(), request);
    let due = pace.movement_frames == pace.movement_period;
    let body = round.snake.body@;
    let ahead_x = body.head_x() + pace.direction.along_x(1);
    let ahead_y = body.head_y() + pace.direction.along_y(1);
    let moved = if due {
        body.shrunk().extended(pace.direction)
    } else {
        body
    };
    let moved_pace = if due {
        Pace { movement_frames: 0, ..pace }
    } else {
        pace
    };
    &&& same_setting(round, next)
    &&& if due && round.wall@.occupies(ahead_x, ahead_y) {
        &&& next.game_over
        &&& next.snake.pace() == pace
        &&& next.snake.body@ == body
        &&& next.apple == round.apple
        &&& next.score == round.score
    } else if moved.overlapping() {
        &&& next.game_over
        &&& next.snake.pace() == moved_pace
        &&& next.snake.body@ == moved
        &&& next.apple == round.apple
        &&& next.score == round.score
    } else if moved.head_x() == round.apple.x && moved.head_y() == round.apple.y {
        &&& next.game_over == round.game_over
        &&& next.snake.pace() == moved_pace
        &&& next.snake.body@ == moved.grown()
        &&& next.score == round.score + APPLE_SCORE
        &&& (next.apple == round.apple || (generator.covers(next.apple)
            && !next.snake.body@.occupies(next.apple.x as int, next.apple.y as int)))
        &&& generator.clear_of(moved.grown()) ==> generator.covers(next.apple)
            && !next.snake.body@.occupies(next.apple.x as int, next.apple.y as int)
    } else {
        &&& next.game_over == round.game_over
        &&& next.snake.pace() == moved_pace
        &&& next.snake.body@ == moved
        &&& next.apple == round.apple
        &&& next.score == round.score
    }
}

/// A body that can step fits, and can grow at its tail.
pub proof fn lemma_can_step(body: LineModel)
    requires
        can_step(body),
    ensures
        body.fits(),
        fits_i32(body.head_x() - 1) && fits_i32(body.head_x() + 1),
        fits_i32(body.head_y() - 1) && fits_i32(body.head_y() + 1),
        fits_i32(body.grown().x),
        fits_i32(body.grown().y),
        body.segments[0].len < usize::MAX,
        body.grown().fits(),
{
    assert forall|i: int| 0 <= i <= body.segments.len() implies #[trigger] body.joint_fits(i) by {
        assert(has_room(body, i));
    }
    assert forall|i: int| 0 <= i < body.segments.len() implies (#[trigger] body.segments[i]).len
        <= i32::MAX by {
        assert(body.segments[i].len + 2 <= i32::MAX);
    }
    assert(has_room(body, body.segments.len() as int));
    assert(has_room(body, 0));
    assert(body.segments[0].len + 2 <= i32::MAX);
    law_grown_fits(body);
}

/// A body that can step can shrink and then extend in any direction, and
/// what comes of it fits and can still grow at its tail.
pub proof fn lemma_moved_body(body: LineModel, dir: Direction)
    requires
        can_step(body),
    ensures
        fits_i32(body.shrunk().x),
        fits_i32(body.shrunk().y),
        body.shrunk().segments.len() > 0 ==> body.shrunk().segments.last().len < usize::MAX,
        body.shrunk().extended(dir).fits(),
        body.shrunk().extended(dir).segments.len() > 0,
        fits_i32(body.shrunk().extended(dir).grown().x),
        fits_i32(body.shrunk().extended(dir).grown().y),
        body.shrunk().extended(dir).segments[0].len < usize::MAX,
        body.shrunk().extended(dir).grown().fits(),
{
    lemma_can_step(body);
    let n = body.segments.len() as int;
    let s = body.shrunk();
    let m = s.extended(dir);
    assert(body.segments[0].len >= 1);
    assert(body.segments[0].len + 2 <= i32::MAX);
    assert(has_room(body, 0));
    assert(has_room(body, 1));
    assert(body.joint_x(1) == body.joint_x(0) + body.segments[0].dir.along_x(
        body.segments[0].len as int,
    ));
    assert(body.joint_y(1) == body.joint_y(0) + body.segments[0].dir.along_y(
        body.segments[0].len as int,
    ));
    // the new start lies between the old start and the joint after it
    assert(i32::MIN < s.x < i32::MAX && i32::MIN < s.y < i32::MAX);
    lemma_shrunk(body);
    law_shrunk_fits(body);
    assert forall|i: int| 0 <= i < s.segments.len() implies (#[trigger] s.segments[i]).len + 2
        <= i32::MAX by {
        if body.segments[0].len > 1 {
            assert(body.segments[i].len + 2 <= i32::MAX);
        } else {
            assert(body.segments[i + 1].len + 2 <= i32::MAX);
        }
    }
    if s.segments.len() > 0 {
        assert(s.segments[s.segments.len() - 1].len + 2 <= i32::MAX);
    }
    assert(has_room(body, n));
    law_extended_fits(s, dir);
    lemma_extended(s, dir);
    assert forall|i: int| 0 <= i < m.segments.len() implies (#[trigger] m.segments[i]).len + 1
        <= i32::MAX by {
        if i < s.segments.len() {
            assert(s.segments[i].len + 2 <= i32::MAX);
        }
    }
    assert(m.segments[0].len + 1 <= i32::MAX);
    assert(m.x == s.x && m.y == s.y);
    law_grown_fits(m);
}

/// One tick of a round that is under way.
pub fn run_ongoing_round(
    round: RoundState,
    keyboard_handler: &KeyboardHandler,
    ivec2_gen: &mut IVec2Generator,
) -> (next_round: RoundState)
    requires
        keyboard_handler.wf(),
        old(ivec2_gen).wf(),
        can_tick(&round),
    ensures
        final(ivec2_gen).wf(),
        final(ivec2_gen).same_ranges(old(ivec2_gen)),
        ticked(&round, requested_direction(keyboard_handler), old(ivec2_gen), &next_round),
{
    let ghost body = round.snake.body@;
    let ghost pace = steered(round.snake.pace(), requested_direction(keyboard_handler));
    let apple = round.apple;
    let mut next_round = round;

    // track frames
    next_round.snake.movement_frames = next_round.snake.movement_frames + 1;
    next_round.snake.turn_cooldown = if next_round.snake.turn_cooldown > 0 {
        next_round.snake.turn_cooldown - 1
    } else {
        0
    };

    // turn sideways
    match get_direction(keyboard_handler) {
        Some(new_direction) => {
            // make sure we're turning 90 degrees only, and not too often
            if new_direction != next_round.snake.direction.opposite()
                && next_round.snake.turn_cooldown == 0 {
                next_round.snake.direction = new_direction;
                next_round.snake.movement_frames = next_round.snake.movement_period;
                // add a delay to when next turn can happen, to prevent from moving
                // very fast when moving in a diagonal
                next_round.snake.turn_cooldown = next_round.snake.movement_period / 2;
            }
        },
        None => {},
    }
    assert(next_round.snake.pace() == pace);
    proof {
        lemma_can_step(body);
        lemma_moved_body(body, pace.direction);
    }

    // move snake body
    if next_round.snake.movement_frames == next_round.snake.movement_period {
        // check if about to hit a wall
        let head_plus_one = vec_add(next_round.snake.body.head(), next_round.snake.direction.unit());
        if next_round.wall.collides_with_point(head_plus_one) {
            next_round.game_over = true;
            return next_round;
        }
        next_round.snake.body.move_forward(next_round.snake.direction);
        next_round.snake.movement_frames = 0;
    }
    // check if collided with self

    if next_round.snake.body.is_self_overlapping() {
        next_round.game_over = true;
        return next_round;
    }
    // check if collision with apple

    if next_round.snake.body.head() == apple {
        // eat the apple
        next_round.snake.body.extend_tail();
        next_round.score = next_round.score + APPLE_SCORE;

        // make new apple
        match generate_apple(ivec2_gen, &next_round.snake.body) {
            Some(new_apple) => {
                next_round.apple = new_apple;
            },
            None => {},
        }
    }
    next_round
}


/// Whether `body` can step: it has segments, each with a length, and
/// there is room for one more step at either end.
pub fn check_can_step(body: &RectilinearLine) -> (ok: bool)
    ensures
        ok == can_step(body@),
{
    let ghost c = body@;
    let count: usize = body.segments.len();
    if count == 0 {
        return false;
    }
    if !(-0x8000_0000 < body.start.x && body.start.x < 0x7fff_ffff && -0x8000_0000 < body.start.y
        && body.start.y < 0x7fff_ffff) {
        assert(!has_room(c, 0));
        return false;
    }
    let mut pos: Point = body.start;
    let mut i: usize = 0;
    while i < count
        invariant
            i <= count,
            0 < count == body.segments@.len(),
            c == body@,
            pos.x == c.joint_x(i as int),
            pos.y == c.joint_y(i as int),
            forall|j: int| 0 <= j <= i ==> #[trigger] has_room(c, j),
            forall|j: int| 0 <= j < i ==> 1 <= (#[trigger] c.segments[j]).len <= i32::MAX - 2,
        decreases count - i,
    {
        let segment = body.segments[i];
        assert(c.segments[i as int] == segment@);
        if segment.len < 1 || segment.len > 0x7fff_fffd {
            return false;
        }
        let len: i64 = segment.len as i64;
        let x: i64 = match segment.dir {
            Direction::Right => pos.x as i64 + len,
            Direction::Left => pos.x as i64 - len,
            _ => pos.x as i64,
        };
        let y: i64 = match segment.dir {
            Direction::Up => pos.y as i64 - len,
            Direction::Down => pos.y as i64 + len,
            _ => pos.y as i64,
        };
        assert(x == c.joint_x(i + 1) && y == c.joint_y(i + 1));
        if !(-0x8000_0000 < x && x < 0x7fff_ffff && -0x8000_0000 < y && y < 0x7fff_ffff) {
            assert(!has_room(c, i + 1));
            return false;
        }
        pos = Point { x: x as i32, y: y as i32 };
        i = i + 1;
    }
    true
}

/// Whether the round can tick.
pub fn check_can_tick(round: &RoundState) -> (ok: bool)
    ensures
        ok == can_tick(round),
{
    check_can_step(&round.snake.body) && round.wall.check_fits() && round.snake.movement_frames
        < usize::MAX && round.score <= usize::MAX - APPLE_SCORE
}

} // verus!
