//! The keyboard: which key asks for which action, key repeat, and how long
//! the event loop may sleep.

use vstd::prelude::*;
use vstd::string::StrSliceExecFns;
use crate::repeat::{RepeatInfo, RepeatState};
use crate::state::{State, StateView};
use crate::transform::{Action, ONE};
use crate::window::Effect;

verus! {

/// A key of the keyboard went down or came up.
#[derive(Clone, Copy, Debug, PartialEq, Eq)]
pub struct KeyboardEvent {
    pub keycode: u32,
    /// How keys repeat, where the compositor said so.
    pub repeat_info: Option<RepeatInfo>,
    /// Whether the keymap lets this key repeat.
    pub key_repeats: bool,
}

/// A zoom of magnitude `val` around the centre of a window of the given size.
pub open spec fn centred_zoom(width: u32, height: u32, val: int) -> Action {
    Action::Zoom { x: (width * (ONE / 2)) as i64, y: (height * (ONE / 2)) as i64, val: val as i64 }
}

/// The action that the text of a key asks for in a window of the given size:
/// `h`, `l`, `k` and `j` pan by a step, `-` and `+` zoom by ten percent around
/// the centre of the window, `f` toggles fullscreen, anything else does
/// nothing.
pub open spec fn spec_key_action(utf8: Seq<char>, width: u32, height: u32) -> Option<Action> {
    if utf8.len() != 1 {
        None
    } else if utf8[0] == 'h' {
        Some(Action::MoveLeft)
    } else if utf8[0] == 'l' {
        Some(Action::MoveRight)
    } else if utf8[0] == 'k' {
        Some(Action::MoveUp)
    } else if utf8[0] == 'j' {
        Some(Action::MoveDown)
    } else if utf8[0] == '-' {
        Some(centred_zoom(width, height, 10 * ONE))
    } else if utf8[0] == '+' {
        Some(centred_zoom(width, height, -10 * ONE))
    } else if utf8[0] == 'f' {
        Some(Action::ToggleFullscreen)
    } else {
        None
    }
}

/// The action that the text of a key asks for in a window of the given size.
pub fn key_action(utf8: &str, width: u32, height: u32) -> (r: Option<Action>)
    ensures
        r == spec_key_action(utf8@, width, height),
{
    if utf8.unicode_len() != 1 {
        return None;
    }
    let c = utf8.get_char(0);
    let x: i64 = width as i64 * (ONE / 2);
    let y: i64 = height as i64 * (ONE / 2);
    if c == 'h' {
        Some(Action::MoveLeft)
    } else if c == 'l' {
        Some(Action::MoveRight)
    } else if c == 'k' {
        Some(Action::MoveUp)
    } else if c == 'j' {
        Some(Action::MoveDown)
    } else if c == '-' {
        Some(Action::Zoom { x, y, val: 10 * ONE })
    } else if c == '+' {
        Some(Action::Zoom { x, y, val: -10 * ONE })
    } else if c == 'f' {
        Some(Action::ToggleFullscreen)
    } else {
        None
    }
}

/// The timeout in milliseconds to hand to a wait for input, given how long
/// the next timer deadline is away in nanoseconds: no limit, written -1,
/// without a deadline; else the time left, rounded up to whole milliseconds
/// and held at the greatest `i32`.
pub open spec fn spec_poll_timeout(timeout: Option<u64>) -> int {
    match timeout {
        None => -1,
        Some(t) => if (t + 999_999) / 1_000_000 <= i32::MAX {
            (t + 999_999) / 1_000_000
        } else {
            i32::MAX as int
        },
    }
}

/// The timeout in milliseconds to hand to a wait for input.
pub fn poll_timeout(timeout: Option<u64>) -> (r: i32)
    ensures
        r == spec_poll_timeout(timeout),
{
    match timeout {
        None => -1,
        Some(t) => {
            let ms: u128 = (t as u128 + 999_999) / 1_000_000;
            if ms <= i32::MAX as u128 {
                ms as i32
            } else {
                i32::MAX
            }
        },
    }
}

impl StateView {
    /// A key went down at `now` whose text is `utf8`. A key that asks for
    /// nothing changes nothing. Otherwise, if the key repeats and the repeat
    /// timing is known, the key's repeat replaces any repeat under way; then
    /// the action is carried out.
    pub open spec fn key_pressed(self, event: KeyboardEvent, utf8: Seq<char>, now: u64) -> (
        StateView,
        Seq<Effect>,
    ) {
        match spec_key_action(utf8, self.window.width, self.window.height) {
            None => (self, Seq::empty()),
            Some(action) => StateView {
                kbd_repeat: match event.repeat_info {
                    Some(info) if event.key_repeats => RepeatState::spec_pressed(
                        info,
                        now,
                        action,
                        event.keycode,
                    ),
                    _ => self.kbd_repeat,
                },
                ..self
            }.handle_action(action),
        }
    }

    /// A key came up: if it is the repeating key, the repeat ends.
    pub open spec fn key_released(self, event: KeyboardEvent) -> StateView {
        StateView { kbd_repeat: self.kbd_repeat.spec_released(event.keycode), ..self }
    }

    /// The clock reads `now`: a repeat that is due is carried out.
    pub open spec fn timer_tick(self, now: u64) -> (StateView, Seq<Effect>) {
        let ticked = StateView { kbd_repeat: self.kbd_repeat.spec_tick(now).0, ..self };
        match self.kbd_repeat.spec_tick(now).1 {
            Some(action) => ticked.handle_action(action),
            None => (ticked, Seq::empty()),
        }
    }
}

impl State {
    /// A key went down at `now` whose text is `utf8`.
    pub fn key_pressed(&mut self, event: KeyboardEvent, utf8: &str, now: u64) -> (effects: Vec<Effect>)
        ensures
            final(self)@ == old(self)@.key_pressed(event, utf8@, now).0,
            effects@ == old(self)@.key_pressed(event, utf8@, now).1,
            final(self)@.follows(old(self)@),
    {
        let action = match key_action(utf8, self.window.width, self.window.height) {
            Some(action) => action,
            None => {
                return Vec::new();
            },
        };
        match event.repeat_info {
            Some(info) => {
                if event.key_repeats {
                    self.kbd_repeat = RepeatState::pressed(info, now, action, event.keycode);
                }
            },
            None => {},
        }
        self.handle_action(action)
    }

    /// A key came up.
    pub fn key_released(&mut self, event: KeyboardEvent)
        ensures
            final(self)@ == old(self)@.key_released(event),
            final(self)@.follows(old(self)@),
    {
        self.kbd_repeat.released(event.keycode);
    }

    /// How long after `now` the next repeat is due, if a key is repeating.
    pub fn timeout(&self, now: u64) -> (r: Option<u64>)
        ensures
            r == self.kbd_repeat.spec_timeout(now),
    {
        self.kbd_repeat.timeout(now)
    }

    /// The clock reads `now`: carries out a repeat that is due.
    pub fn timer_tick(&mut self, now: u64) -> (effects: Vec<Effect>)
        ensures
            final(self)@ == old(self)@.timer_tick(now).0,
            effects@ == old(self)@.timer_tick(now).1,
            final(self)@.follows(old(self)@),
    {
        match self.kbd_repeat.tick(now) {
            Some(action) => self.handle_action(action),
            None => Vec::new(),
        }
    }
}

} // verus!
