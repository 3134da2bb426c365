//! The game from one frame to the next: the start menu, the wait before a
//! round, the round, its end, the game-over screen and the way out.

use crate::apple::IVec2Generator;
use crate::graphics::half;
use crate::keyboard::{
    next_key_state, KeyboardHandler, RawKeyState, NUM_KEY_STATES, VK_DOWN, VK_ESCAPE, VK_LEFT,
    VK_RETURN, VK_RIGHT, VK_UP,
};
use crate::menu::ItemList;
use crate::round::{
    can_tick, check_can_tick, fresh_body, fresh_round, requested_direction, round_ending, run_ongoing_round, run_round_ending,
    ticked, GameDifficulty, RoundEndState, RoundState,
};
use vstd::prelude::*;

verus! {

#[derive(Debug, Copy, Clone, PartialEq, Eq, Structural)]
pub enum StartMenuArea {
    Main,
    Difficulty,
}

#[derive(Debug, Copy, Clone, PartialEq, Eq, Structural)]
pub enum StartMenuItem {
    Start,
    Difficulty,
    Exit,
}

#[derive(Debug, Copy, Clone, PartialEq, Eq, Structural)]
pub enum QuitRequested {
    Yes,
    No,
}

#[derive(Debug, Copy, Clone, PartialEq, Eq, Structural)]
pub enum ExitMenu {
    Yes,
    No,
}

#[derive(Debug, Copy, Clone, PartialEq, Eq, Structural)]
pub enum GameOverSelection {
    Restart,
    Exit,
}

#[derive(Debug)]
pub struct StartMenuState {
    pub focused_area: StartMenuArea,
    pub menu_items: ItemList<StartMenuItem>,
    pub difficulty_items: ItemList<GameDifficulty>,
    pub difficulty: GameDifficulty,
}

#[derive(Debug)]
pub struct RoundStartState {
    pub frames: usize,
    pub difficulty: GameDifficulty,
}

#[derive(Debug)]
pub struct GameOverState {
    pub final_score: usize,
    pub difficulty: GameDifficulty,
    pub selection: GameOverSelection,
}

#[derive(Debug)]
pub enum GameState {
    StartMenu(StartMenuState),
    RoundStart(RoundStartState),
    OngoingRound(RoundState),
    RoundEnd(RoundEndState),
    GameOver(GameOverState),
    /// The frames since the way out was taken.
    ProgramExit(usize),
}

#[derive(Debug)]
pub struct ProgramState {
    pub elapsed_frames: usize,
    pub quit_requested: bool,
    pub keyboard_handler: KeyboardHandler,
    pub ivec2_gen: IVec2Generator,
    pub game_state: GameState,
}

/// The frames that the "get ready" screen stays.
pub const ROUND_START_FRAMES: usize = 90;

/// The frames that the end of a round is shown.
pub const ROUND_END_FRAMES: usize = 80;

/// The frames that the farewell stays.
pub const PROGRAM_EXIT_FRAMES: usize = 30;

/// Where a list of `len` items stands after a step back, if `back`, and
/// then a step forward, if `forward`, from `position`. No step leaves the
/// list.
pub open spec fn browsed(position: int, len: int, back: bool, forward: bool) -> int {
    let stepped_back = if back && position > 0 {
        position - 1
    } else {
        position
    };
    if forward && stepped_back + 1 < len {
        stepped_back + 1
    } else {
        stepped_back
    }
}

/// Where the main menu stands after the keys of the last poll: the up key
/// steps back, the down key forward.
pub open spec fn menu_position(menu_state: &StartMenuState, keyboard_handler: &KeyboardHandler) -> int {
    browsed(
        menu_state.menu_items.position(),
        menu_state.menu_items.items().len() as int,
        keyboard_handler.pressed_now(VK_UP as int),
        keyboard_handler.pressed_now(VK_DOWN as int),
    )
}

/// The item that the return key has chosen in the main menu, if it went
/// down: the one that the menu stands on after its steps.
pub open spec fn menu_selection(
    menu_state: &StartMenuState,
    keyboard_handler: &KeyboardHandler,
) -> Option<StartMenuItem> {
    if keyboard_handler.pressed_now(VK_RETURN as int) {
        Some(menu_state.menu_items.items()[menu_position(menu_state, keyboard_handler)])
    } else {
        None
    }
}

/// `next` is the start menu after the keys of the last poll have moved its
/// main list; nothing else has changed.
pub open spec fn menu_browsed(
    menu_state: &StartMenuState,
    keyboard_handler: &KeyboardHandler,
    next: &StartMenuState,
) -> bool {
    &&& next.focused_area == menu_state.focused_area
    &&& next.difficulty == menu_state.difficulty
    &&& next.difficulty_items == menu_state.difficulty_items
    &&& next.menu_items.items() == menu_state.menu_items.items()
    &&& next.menu_items.position() == menu_position(menu_state, keyboard_handler)
}

/// Where the list of difficulties stands after the keys of the last poll:
/// the left key steps back, the right key forward.
pub open spec fn difficulty_position(
    menu_state: &StartMenuState,
    keyboard_handler: &KeyboardHandler,
) -> int {
    browsed(
        menu_state.difficulty_items.position(),
        menu_state.difficulty_items.items().len() as int,
        keyboard_handler.pressed_now(VK_LEFT as int),
        keyboard_handler.pressed_now(VK_RIGHT as int),
    )
}

/// `next` is the start menu after the keys of the last poll have moved its
/// list of difficulties: the difficulty is the one that the list stands
/// on, and nothing else has changed.
pub open spec fn difficulty_browsed(
    menu_state: &StartMenuState,
    keyboard_handler: &KeyboardHandler,
    next: &StartMenuState,
) -> bool {
    &&& next.focused_area == menu_state.focused_area
    &&& next.menu_items == menu_state.menu_items
    &&& next.difficulty_items.items() == menu_state.difficulty_items.items()
    &&& next.difficulty_items.position() == difficulty_position(menu_state, keyboard_handler)
    &&& next.difficulty == menu_state.difficulty_items.items()[difficulty_position(
        menu_state,
        keyboard_handler,
    )]
}

pub fn run_start_menu(menu_state: StartMenuState, keyboard_handler: &KeyboardHandler) -> (r: (
    StartMenuState,
    Option<StartMenuItem>,
))
    requires
        keyboard_handler.wf(),
        menu_state.menu_items.wf(),
    ensures
        menu_browsed(&menu_state, keyboard_handler, &r.0),
        r.0.menu_items.wf(),
        r.1 == menu_selection(&menu_state, keyboard_handler),
{
    let mut menu_state = menu_state;
    if keyboard_handler.key_pressed_now(VK_UP) {
        menu_state.menu_items.move_back();
    }
    if keyboard_handler.key_pressed_now(VK_DOWN) {
        menu_state.menu_items.move_forward();
    }
    let selected_item = if keyboard_handler.key_pressed_now(VK_RETURN) {
        Some(menu_state.menu_items.current_item())
    } else {
        None
    };

    (menu_state, selected_item)
}

pub fn run_difficulty_menu(menu_state: StartMenuState, keyboard_handler: &KeyboardHandler) -> (r: (
    StartMenuState,
    ExitMenu,
))
    requires
        keyboard_handler.wf(),
        menu_state.difficulty_items.wf(),
    ensures
        difficulty_browsed(&menu_state, keyboard_handler, &r.0),
        r.0.difficulty_items.wf(),
        r.1 == if keyboard_handler.pressed_now(VK_RETURN as int) {
            ExitMenu::Yes
        } else {
            ExitMenu::No
        },
{
    let mut menu_state = menu_state;
    if keyboard_handler.key_pressed_now(VK_LEFT) {
        menu_state.difficulty_items.move_back();
    }
    if keyboard_handler.key_pressed_now(VK_RIGHT) {
        menu_state.difficulty_items.move_forward();
    }
    menu_state.difficulty = menu_state.difficulty_items.current_item();

    let menu_return = if keyboard_handler.key_pressed_now(VK_RETURN) {
        ExitMenu::Yes
    } else {
        ExitMenu::No
    };

    (menu_state, menu_return)
}

/// The other area of the start menu.
pub open spec fn other_area(area: StartMenuArea) -> StartMenuArea {
    match area {
        StartMenuArea::Main => StartMenuArea::Difficulty,
        StartMenuArea::Difficulty => StartMenuArea::Main,
    }
}

/// Where the start menu leads once an item is chosen: to the wait before
/// a round, to the other area of the menu, or out.
pub fn transition_start_menu(next_state: StartMenuState, selected_item: Option<StartMenuItem>) -> (r:
    (GameState, QuitRequested))
    ensures
        r.1 == if selected_item == Some(StartMenuItem::Exit) {
            QuitRequested::Yes
        } else {
            QuitRequested::No
        },
        selected_item == Some(StartMenuItem::Start) ==> r.0 == GameState::RoundStart(
            RoundStartState { frames: 0, difficulty: next_state.difficulty },
        ),
        selected_item == Some(StartMenuItem::Difficulty) ==> r.0 == GameState::StartMenu(
            StartMenuState {
                focused_area: other_area(next_state.focused_area),
                menu_items: next_state.menu_items,
                difficulty_items: next_state.difficulty_items,
                difficulty: next_state.difficulty,
            },
        ),
        selected_item == Some(StartMenuItem::Exit) || selected_item.is_none() ==> r.0
            == GameState::StartMenu(next_state),
{
    match selected_item {
        Some(selected_item) => match selected_item {
            StartMenuItem::Start => (
                GameState::RoundStart(
                    RoundStartState { frames: 0, difficulty: next_state.difficulty },
                ),
                QuitRequested::No,
            ),
            StartMenuItem::Difficulty => {
                let focused_area = match next_state.focused_area {
                    StartMenuArea::Main => StartMenuArea::Difficulty,
                    StartMenuArea::Difficulty => StartMenuArea::Main,
                };
                (
                    GameState::StartMenu(
                        StartMenuState {
                            focused_area,
                            menu_items: next_state.menu_items,
                            difficulty_items: next_state.difficulty_items,
                            difficulty: next_state.difficulty,
                        },
                    ),
                    QuitRequested::No,
                )
            },
            StartMenuItem::Exit => (GameState::StartMenu(next_state), QuitRequested::Yes),
        },
        None => (GameState::StartMenu(next_state), QuitRequested::No),
    }
}

/// `after` holds what a poll that reports `raw_states` makes of the key
/// states in `before`.
pub open spec fn polled(
    before: &KeyboardHandler,
    raw_states: Seq<RawKeyState>,
    after: &KeyboardHandler,
) -> bool {
    &&& after.wf()
    &&& forall|code: int|
        0 <= code < NUM_KEY_STATES ==> #[trigger] after.states()[code] == next_key_state(
            before.states()[code],
            raw_states[code],
        )
}

/// The choice on the game-over screen after the keys of the last poll: the
/// right key takes it to the way out, the left key back to a new round.
pub open spec fn chosen(
    selection: GameOverSelection,
    keyboard_handler: &KeyboardHandler,
) -> GameOverSelection {
    if keyboard_handler.pressed_now(VK_RIGHT as int) {
        GameOverSelection::Exit
    } else if keyboard_handler.pressed_now(VK_LEFT as int) {
        GameOverSelection::Restart
    } else {
        selection
    }
}

/// What a frame needs of the state of the game: lists that stand on an
/// item, counters that can count on, a round that can tick.
pub open spec fn can_update(game_state: &GameState) -> bool {
    match game_state {
        GameState::StartMenu(menu_state) => menu_state.menu_items.wf()
            && menu_state.difficulty_items.wf(),
        GameState::RoundStart(start_state) => start_state.frames < usize::MAX,
        GameState::OngoingRound(round) => can_tick(round),
        GameState::RoundEnd(end_state) => end_state.frames < usize::MAX,
        GameState::GameOver(_) => true,
        GameState::ProgramExit(frames) => *frames < usize::MAX,
    }
}

/// Whether the game can go on by a frame.
pub fn check_can_update(game_state: &GameState) -> (ok: bool)
    ensures
        ok == can_update(game_state),
{
    match game_state {
        GameState::StartMenu(menu_state) => menu_state.menu_items.check_wf()
            && menu_state.difficulty_items.check_wf(),
        GameState::RoundStart(start_state) => start_state.frames < usize::MAX,
        GameState::OngoingRound(round) => check_can_tick(round),
        GameState::RoundEnd(end_state) => end_state.frames < usize::MAX,
        GameState::GameOver(_) => true,
        GameState::ProgramExit(frames) => *frames < usize::MAX,
    }
}

/// One frame in the main area of the start menu: the list moves, and the
/// item chosen, if any, leads on.
pub open spec fn main_menu_frame(
    menu_state: &StartMenuState,
    keyboard_handler: &KeyboardHandler,
    next: &GameState,
) -> bool {
    match menu_selection(menu_state, keyboard_handler) {
        Some(StartMenuItem::Start) => *next == GameState::RoundStart(
            RoundStartState { frames: 0, difficulty: menu_state.difficulty },
        ),
        Some(StartMenuItem::Difficulty) => next matches GameState::StartMenu(m)
            && m.focused_area == StartMenuArea::Difficulty && m.difficulty == menu_state.difficulty
            && m.difficulty_items == menu_state.difficulty_items && m.menu_items.items()
            == menu_state.menu_items.items() && m.menu_items.position() == menu_position(
            menu_state,
            keyboard_handler,
        ),
        Some(StartMenuItem::Exit) => *next == GameState::ProgramExit(0),
        None => next matches GameState::StartMenu(m) && menu_browsed(
            menu_state,
            keyboard_handler,
            &m,
        ),
    }
}

/// One frame in the difficulty area of the start menu: the list of
/// difficulties moves, and the return key leads back to the main area.
pub open spec fn difficulty_menu_frame(
    menu_state: &StartMenuState,
    keyboard_handler: &KeyboardHandler,
    next: &GameState,
) -> bool {
    next matches GameState::StartMenu(m) && m.focused_area == (if keyboard_handler.pressed_now(
        VK_RETURN as int,
    ) {
        StartMenuArea::Main
    } else {
        StartMenuArea::Difficulty
    }) && m.menu_items == menu_state.menu_items && m.difficulty_items.items()
        == menu_state.difficulty_items.items() && m.difficulty_items.position()
        == difficulty_position(menu_state, keyboard_handler) && m.difficulty
        == menu_state.difficulty_items.items()[difficulty_position(menu_state, keyboard_handler)]
}

/// `next` is a round at its start, or, where no apple could be placed,
/// the state `waiting`. It is a round where the fresh snake covers none
/// of the cells that the generator can draw.
pub open spec fn round_begun(
    next: &GameState,
    waiting: GameState,
    generator: &IVec2Generator,
    difficulty: GameDifficulty,
    screen_middle_x: i32,
) -> bool {
    &&& {
        ||| next matches GameState::OngoingRound(round) && fresh_round(
            &round,
            generator,
            difficulty,
            screen_middle_x,
        )
        ||| *next == waiting
    }
    &&& generator.clear_of(fresh_body(half(screen_middle_x as int))) ==> next matches GameState::OngoingRound(
        _,
    )
}

/// What one frame makes of the state of the game, the keys being as
/// `keyboard_handler` has them:
/// - the start menu follows its keys;
/// - the wait before a round counts its frames, and a round begins after
///   the ninetieth;
/// - a round ticks, and ends when it is over;
/// - the end of a round counts its frames, and gives way to the game-over
///   screen at the eightieth;
/// - the game-over screen follows its keys: the return key begins a new
///   round or leads out;
/// - the way out counts its frames, and asks to quit after the thirtieth.
pub open spec fn frame(
    game_state: &GameState,
    quit_requested: bool,
    keyboard_handler: &KeyboardHandler,
    generator: &IVec2Generator,
    screen_middle_x: i32,
    next: &GameState,
    next_quit_requested: bool,
) -> bool {
    match game_state {
        GameState::StartMenu(menu_state) => {
            &&& next_quit_requested == quit_requested
            &&& if menu_state.focused_area == StartMenuArea::Main {
                main_menu_frame(menu_state, keyboard_handler, next)
            } else {
                difficulty_menu_frame(menu_state, keyboard_handler, next)
            }
        },
        GameState::RoundStart(start_state) => {
            let waiting = GameState::RoundStart(
                RoundStartState {
                    frames: (start_state.frames + 1) as usize,
                    difficulty: start_state.difficulty,
                },
            );
            &&& next_quit_requested == quit_requested
            &&& if start_state.frames + 1 > ROUND_START_FRAMES {
                round_begun(next, waiting, generator, start_state.difficulty, screen_middle_x)
            } else {
                *next == waiting
            }
        },
        GameState::OngoingRound(round) => {
            &&& next_quit_requested == quit_requested
            &&& match next {
                GameState::OngoingRound(next_round) => !next_round.game_over && ticked(
                    round,
                    requested_direction(keyboard_handler),
                    generator,
                    next_round,
                ),
                GameState::RoundEnd(end_state) => end_state.frames == 0
                    && end_state.round.game_over && ticked(
                    round,
                    requested_direction(keyboard_handler),
                    generator,
                    &end_state.round,
                ),
                _ => false,
            }
        },
        GameState::RoundEnd(end_state) => {
            &&& next_quit_requested == quit_requested
            &&& if end_state.frames + 1 < ROUND_END_FRAMES {
                next matches GameState::RoundEnd(next_end) && round_ending(end_state, &next_end)
            } else {
                *next == GameState::GameOver(
                    GameOverState {
                        final_score: end_state.round.score,
                        difficulty: end_state.round.difficulty,
                        selection: GameOverSelection::Restart,
                    },
                )
            }
        },
        GameState::GameOver(game_over_state) => {
            let selection = chosen(game_over_state.selection, keyboard_handler);
            let staying = GameState::GameOver(
                GameOverState {
                    final_score: game_over_state.final_score,
                    difficulty: game_over_state.difficulty,
                    selection,
                },
            );
            &&& next_quit_requested == quit_requested
            &&& if !keyboard_handler.pressed_now(VK_RETURN as int) {
                *next == staying
            } else if selection == GameOverSelection::Exit {
                *next == GameState::ProgramExit(0)
            } else {
                round_begun(next, staying, generator, game_over_state.difficulty, screen_middle_x)
            }
        },
        GameState::ProgramExit(frames) => {
            &&& *next == GameState::ProgramExit((*frames + 1) as usize)
            &&& next_quit_requested == (quit_requested || *frames + 1 > PROGRAM_EXIT_FRAMES)
        },
    }
}

/// One frame of the program. The keys are polled first, `raw_states`
/// being what the poll reports; the escape key asks to quit and leaves
/// the game as it is, else the game goes on by one frame.
/// `screen_middle_x` is the middle column of the screen, where a new
/// snake is put.
pub fn update(program_state: ProgramState, raw_states: &Vec<RawKeyState>, screen_middle_x: i32) -> (next:
    ProgramState)
    requires
        program_state.keyboard_handler.wf(),
        raw_states@.len() == NUM_KEY_STATES,
        program_state.ivec2_gen.wf(),
        can_update(&program_state.game_state),
    ensures
        next.elapsed_frames == program_state.elapsed_frames,
        polled(&program_state.keyboard_handler, raw_states@, &next.keyboard_handler),
        next.ivec2_gen.wf(),
        next.ivec2_gen.same_ranges(&program_state.ivec2_gen),
        next.keyboard_handler.pressed_now(VK_ESCAPE as int) ==> next.quit_requested
            && next.game_state == program_state.game_state,
        !next.keyboard_handler.pressed_now(VK_ESCAPE as int) ==> frame(
            &program_state.game_state,
            program_state.quit_requested,
            &next.keyboard_handler,
            &program_state.ivec2_gen,
            screen_middle_x,
            &next.game_state,
            next.quit_requested,
        ),
{
    let ProgramState {
        elapsed_frames,
        quit_requested,
        keyboard_handler,
        ivec2_gen,
        game_state,
    } = program_state;
    let mut keyboard_handler = keyboard_handler;
    let mut ivec2_gen = ivec2_gen;
    let mut quit_requested = quit_requested;

    /* Update inputs */
    keyboard_handler.update(raw_states);
    if keyboard_handler.key_pressed_now(VK_ESCAPE) {
        return ProgramState {
            elapsed_frames,
            quit_requested: true,
            keyboard_handler,
            ivec2_gen,
            game_state,
        };
    }
    /* Run current state */

    let next_game_state = match game_state {
        GameState::StartMenu(menu_state) => {
            if menu_state.focused_area == StartMenuArea::Main {
                let (menu_state, selected_item) = run_start_menu(menu_state, &keyboard_handler);
                let (game_state, quit) = transition_start_menu(menu_state, selected_item);
                if quit == QuitRequested::Yes {
                    GameState::ProgramExit(0)
                } else {
                    game_state
                }
            } else {
                let (menu_state, exit) = run_difficulty_menu(menu_state, &keyboard_handler);
                GameState::StartMenu(
                    StartMenuState {
                        focused_area: if exit == ExitMenu::Yes {
                            StartMenuArea::Main
                        } else {
                            StartMenuArea::Difficulty
                        },
                        menu_items: menu_state.menu_items,
                        difficulty_items: menu_state.difficulty_items,
                        difficulty: menu_state.difficulty,
                    },
                )
            }
        },
        GameState::RoundStart(start_state) => {
            let mut next_start_state = start_state;
            next_start_state.frames = next_start_state.frames + 1;
            if next_start_state.frames > ROUND_START_FRAMES {
                match RoundState::new(&mut ivec2_gen, next_start_state.difficulty, screen_middle_x) {
                    Some(round) => GameState::OngoingRound(round),
                    None => GameState::RoundStart(next_start_state),
                }
            } else {
                GameState::RoundStart(next_start_state)
            }
        },
        GameState::OngoingRound(round) => {
            let next_round = run_ongoing_round(round, &keyboard_handler, &mut ivec2_gen);
            if next_round.game_over {
                GameState::RoundEnd(RoundEndState { round: next_round, frames: 0 })
            } else {
                GameState::OngoingRound(next_round)
            }
        },
        GameState::RoundEnd(round_end_state) => {
            let next_round = run_round_ending(round_end_state);
            if next_round.frames < ROUND_END_FRAMES {
                GameState::RoundEnd(next_round)
            } else {
                GameState::GameOver(
                    GameOverState {
                        final_score: next_round.round.score,
                        selection: GameOverSelection::Restart,
                        difficulty: next_round.round.difficulty,
                    },
                )
            }
        },
        GameState::GameOver(game_over_state) => {
            let selection = if keyboard_handler.key_pressed_now(VK_RIGHT) {
                GameOverSelection::Exit
            } else if keyboard_handler.key_pressed_now(VK_LEFT) {
                GameOverSelection::Restart
            } else {
                game_over_state.selection
            };
            let staying = GameOverState {
                final_score: game_over_state.final_score,
                difficulty: game_over_state.difficulty,
                selection,
            };
            if keyboard_handler.key_pressed_now(VK_RETURN) {
                match selection {
                    GameOverSelection::Restart => {
                        match RoundState::new(
                            &mut ivec2_gen,
                            game_over_state.difficulty,
                            screen_middle_x,
                        ) {
                            Some(round) => GameState::OngoingRound(round),
                            None => GameState::GameOver(staying),
                        }
                    },
                    GameOverSelection::Exit => GameState::ProgramExit(0),
                }
            } else {
                GameState::GameOver(staying)
            }
        },
        GameState::ProgramExit(frames) => {
            if frames + 1 > PROGRAM_EXIT_FRAMES {
                quit_requested = true;
            }
            GameState::ProgramExit(frames + 1)
        },
    };

    /* Return next state */
    ProgramState {
        elapsed_frames,
        quit_requested,
        keyboard_handler,
        ivec2_gen,
        game_state: next_game_state,
    }
}


} // verus!
