//! The state of the keys from one poll to the next.
//!
//! The keys are polled elsewhere. Each poll gives one raw state per key
//! code, whose top bit is set while the key is held down.

use vstd::prelude::*;

verus! {

/// What is known of a key after a poll: whether it is down, and whether
/// that has changed since the poll before.
#[derive(Debug, Clone, Copy, PartialEq, Eq, Structural)]
pub enum KeyState {
    Released,
    JustReleased,
    Pressed,
    JustPressed,
}

/// A virtual key code. The codes from 0 to 255 name a key.
pub type KeyCode = i32;

/// What a poll reports of one key.
pub type RawKeyState = i16;

/// The number of key codes that are polled.
pub const NUM_KEY_STATES: usize = 256;

pub const VK_LBUTTON: KeyCode = 0x01;

pub const VK_RBUTTON: KeyCode = 0x02;

pub const VK_MBUTTON: KeyCode = 0x04;

pub const VK_XBUTTON1: KeyCode = 0x05;

pub const VK_XBUTTON2: KeyCode = 0x06;

pub const VK_RETURN: KeyCode = 0x0D;

pub const VK_ESCAPE: KeyCode = 0x1B;

pub const VK_LEFT: KeyCode = 0x25;

pub const VK_UP: KeyCode = 0x26;

pub const VK_RIGHT: KeyCode = 0x27;

pub const VK_DOWN: KeyCode = 0x28;

/// The raw state has its top bit set: the key is held down.
pub open spec fn raw_pressed(state: RawKeyState) -> bool {
    state < 0
}

pub open spec fn is_up(state: KeyState) -> bool {
    state == KeyState::JustReleased || state == KeyState::Released
}

pub open spec fn is_down(state: KeyState) -> bool {
    state == KeyState::JustPressed || state == KeyState::Pressed
}

/// The state of a key after a poll that reports `raw_state`, `prev_state`
/// being its state before.
pub open spec fn next_key_state(prev_state: KeyState, raw_state: RawKeyState) -> KeyState {
    if raw_pressed(raw_state) {
        if is_up(prev_state) {
            KeyState::JustPressed
        } else {
            KeyState::Pressed
        }
    } else {
        if is_down(prev_state) {
            KeyState::JustReleased
        } else {
            KeyState::Released
        }
    }
}

/// The code names a mouse button, not a key of the keyboard.
pub open spec fn is_mouse_button(code: int) -> bool {
    code == VK_LBUTTON || code == VK_RBUTTON || code == VK_MBUTTON || code == VK_XBUTTON1 || code
        == VK_XBUTTON2
}

pub fn raw_key_pressed(state: RawKeyState) -> (r: bool)
    ensures
        r == raw_pressed(state),
{
    assert(((state as u16) & 0x8000u16 > 0) == (state < 0)) by (bit_vector);
    (state as u16 & 0x8000) > 0
}

pub fn key_is_up(state: KeyState) -> (r: bool)
    ensures
        r == is_up(state),
{
    state == KeyState::JustReleased || state == KeyState::Released
}

pub fn key_is_down(state: KeyState) -> (r: bool)
    ensures
        r == is_down(state),
{
    state == KeyState::JustPressed || state == KeyState::Pressed
}

pub fn get_key_state(prev_state: KeyState, raw_state: RawKeyState) -> (r: KeyState)
    ensures
        r == next_key_state(prev_state, raw_state),
{
    if raw_key_pressed(raw_state) {
        if key_is_up(prev_state) {
            KeyState::JustPressed
        } else {
            KeyState::Pressed
        }
    } else {
        if key_is_down(prev_state) {
            KeyState::JustReleased
        } else {
            KeyState::Released
        }
    }
}

/// The states of all the keys, as of the last poll.
#[derive(Debug)]
pub struct KeyboardHandler {
    key_states: Vec<KeyState>,
}

impl KeyboardHandler {
    /// The state of each key, by key code.
    pub closed spec fn states(&self) -> Seq<KeyState> {
        self.key_states@
    }

    /// There is a state for each of the key codes.
    pub open spec fn wf(&self) -> bool {
        self.states().len() == NUM_KEY_STATES
    }

    /// The key went down between the last two polls.
    pub open spec fn pressed_now(&self, key: int) -> bool {
        self.states()[key] == KeyState::JustPressed
    }

    /// The key went up between the last two polls.
    pub open spec fn released_now(&self, key: int) -> bool {
        self.states()[key] == KeyState::JustReleased
    }

    /// A handler that has seen no poll yet: every key is released.
    pub fn new() -> (handler: Self)
        ensures
            handler.wf(),
            forall|code: int|
                0 <= code < NUM_KEY_STATES ==> #[trigger] handler.states()[code]
                    == KeyState::Released,
    {
        let mut key_states: Vec<KeyState> = Vec::new();
        let mut i: usize = 0;
        while i < NUM_KEY_STATES
            invariant
                i <= NUM_KEY_STATES,
                key_states@.len() == i,
                forall|code: int| 0 <= code < i ==> #[trigger] key_states@[code] == KeyState::Released,
            decreases NUM_KEY_STATES - i,
        {
            key_states.push(KeyState::Released);
            i = i + 1;
        }
        KeyboardHandler { key_states }
    }

    /// Takes in a poll: `raw_states` holds the raw state of each key, by
    /// key code.
    pub fn update(&mut self, raw_states: &Vec<RawKeyState>)
        requires
            old(self).wf(),
            raw_states@.len() == NUM_KEY_STATES,
        ensures
            final(self).wf(),
            forall|code: int|
                0 <= code < NUM_KEY_STATES ==> #[trigger] final(self).states()[code]
                    == next_key_state(old(self).states()[code], raw_states@[code]),
    {
        let mut i: usize = 0;
        while i < NUM_KEY_STATES
            invariant
                i <= NUM_KEY_STATES,
                self.key_states@.len() == NUM_KEY_STATES,
                raw_states@.len() == NUM_KEY_STATES,
                forall|code: int|
                    0 <= code < i ==> #[trigger] self.key_states@[code] == next_key_state(
                        old(self).key_states@[code],
                        raw_states@[code],
                    ),
                forall|code: int|
                    i <= code < NUM_KEY_STATES ==> #[trigger] self.key_states@[code] == old(
                        self,
                    ).key_states@[code],
            decreases NUM_KEY_STATES - i,
        {
            let prev_state = self.key_states[i];
            let raw_state = raw_states[i];
            self.key_states.set(i, get_key_state(prev_state, raw_state));
            i = i + 1;
        }
    }

    pub fn key_is_up(&self, key: KeyCode) -> (r: bool)
        requires
            self.wf(),
            0 <= key < NUM_KEY_STATES,
        ensures
            r == is_up(self.states()[key as int]),
    {
        key_is_up(self.key_states[key as usize])
    }

    pub fn key_is_down(&self, key: KeyCode) -> (r: bool)
        requires
            self.wf(),
            0 <= key < NUM_KEY_STATES,
        ensures
            r == is_down(self.states()[key as int]),
    {
        key_is_down(self.key_states[key as usize])
    }

    pub fn key_pressed_now(&self, key: KeyCode) -> (r: bool)
        requires
            self.wf(),
            0 <= key < NUM_KEY_STATES,
        ensures
            r == self.pressed_now(key as int),
    {
        self.key_states[key as usize] == KeyState::JustPressed
    }

    pub fn key_released_now(&self, key: KeyCode) -> (r: bool)
        requires
            self.wf(),
            0 <= key < NUM_KEY_STATES,
        ensures
            r == self.released_now(key as int),
    {
        self.key_states[key as usize] == KeyState::JustReleased
    }
}

/// Whether any key of the keyboard is down. The mouse buttons do not
/// count.
pub fn any_key_pressed(handler: &KeyboardHandler) -> (r: bool)
    requires
        handler.wf(),
    ensures
        r == exists|code: int|
            0 <= code < NUM_KEY_STATES && !is_mouse_button(code) && is_down(
                #[trigger] handler.states()[code],
            ),
{
    let mut code: KeyCode = 0;
    while code < 256
        invariant
            0 <= code <= 256,
            handler.wf(),
            forall|c: int|
                0 <= c < code && !is_mouse_button(c) ==> !is_down(#[trigger] handler.states()[c]),
        decreases 256 - code,
    {
        let not_keyboard_code = code == VK_LBUTTON || code == VK_RBUTTON || code == VK_MBUTTON
            || code == VK_XBUTTON1 || code == VK_XBUTTON2;
        if !not_keyboard_code {
            if handler.key_is_down(code) {
                return true;
            }
        }
        code = code + 1;
    }
    false
}

} // verus!
