//! Key repeat: a timer that replays the action of a held key.
//!
//! Times are readings of a monotonic clock and durations are differences of
//! such readings, both as a count of nanoseconds. The caller reads the clock.

use vstd::prelude::*;
use crate::transform::Action;

verus! {

/// How a held key repeats: the delay before the first repeat and the
/// interval between repeats.
#[derive(Clone, Copy, Debug, PartialEq, Eq, Structural)]
pub struct RepeatInfo {
    pub delay: u64,
    pub interval: u64,
}

#[derive(Clone, Copy, Debug, PartialEq, Eq, Structural)]
pub enum RepeatState {
    /// No key is repeating.
    Idle,
    /// A key is held and its first repeat is due at `delay_will_end`.
    Delay { info: RepeatInfo, delay_will_end: u64, action: Action, key: u32 },
    /// A key is repeating and its next repeat is due at `next_repeat`.
    Repeat { info: RepeatInfo, next_repeat: u64, action: Action, key: u32 },
}

/// Sum of a time and a duration, held at the last representable time.
pub open spec fn time_after(t: u64, d: u64) -> u64 {
    if t + d <= u64::MAX {
        (t + d) as u64
    } else {
        u64::MAX
    }
}

impl RepeatState {
    /// The state right after `key` went down at `now`.
    pub open spec fn spec_pressed(info: RepeatInfo, now: u64, action: Action, key: u32) -> RepeatState {
        RepeatState::Delay { info, delay_will_end: time_after(now, info.delay), action, key }
    }

    /// The key that is held, if any.
    pub open spec fn spec_key(self) -> Option<u32> {
        match self {
            RepeatState::Idle => None,
            RepeatState::Delay { key, .. } => Some(key),
            RepeatState::Repeat { key, .. } => Some(key),
        }
    }

    /// The time at which the next repeat is due, if any.
    pub open spec fn deadline(self) -> Option<u64> {
        match self {
            RepeatState::Idle => None,
            RepeatState::Delay { delay_will_end, .. } => Some(delay_will_end),
            RepeatState::Repeat { next_repeat, .. } => Some(next_repeat),
        }
    }

    /// How long after `now` the next repeat is due; zero when it is overdue.
    pub open spec fn spec_timeout(self, now: u64) -> Option<u64> {
        match self.deadline() {
            None => None,
            Some(at) => Some(if at >= now { (at - now) as u64 } else { 0 }),
        }
    }

    /// State and emitted action of a tick at `now`. A due repeat is emitted
    /// once and the deadline moves on by one interval from where it was, not
    /// from `now`.
    pub open spec fn spec_tick(self, now: u64) -> (RepeatState, Option<Action>) {
        match self {
            RepeatState::Idle => (self, None),
            RepeatState::Delay { info, delay_will_end, action, key } => {
                if now >= delay_will_end {
                    (
                        RepeatState::Repeat {
                            info,
                            next_repeat: time_after(delay_will_end, info.interval),
                            action,
                            key,
                        },
                        Some(action),
                    )
                } else {
                    (self, None)
                }
            },
            RepeatState::Repeat { info, next_repeat, action, key } => {
                if now >= next_repeat {
                    (
                        RepeatState::Repeat {
                            info,
                            next_repeat: time_after(next_repeat, info.interval),
                            action,
                            key,
                        },
                        Some(action),
                    )
                } else {
                    (self, None)
                }
            },
        }
    }

    /// The state after `key` came up: idle if that key was held, else as before.
    pub open spec fn spec_released(self, key: u32) -> RepeatState {
        if self.spec_key() == Some(key) {
            RepeatState::Idle
        } else {
            self
        }
    }

    /// The repeat of `key`, which went down at `now` and asks for `action`.
    pub fn pressed(info: RepeatInfo, now: u64, action: Action, key: u32) -> (r: RepeatState)
        ensures
            r == Self::spec_pressed(info, now, action, key),
    {
        RepeatState::Delay { info, delay_will_end: now.saturating_add(info.delay), action, key }
    }

    /// The key that is held, if any.
    pub fn key(&self) -> (r: Option<u32>)
        ensures
            r == self.spec_key(),
    {
        match self {
            RepeatState::Idle => None,
            RepeatState::Delay { key, .. } => Some(*key),
            RepeatState::Repeat { key, .. } => Some(*key),
        }
    }

    /// How long after `now` the next repeat is due, if a key is held.
    pub fn timeout(&self, now: u64) -> (r: Option<u64>)
        ensures
            r == self.spec_timeout(now),
    {
        match self {
            RepeatState::Idle => None,
            RepeatState::Delay { delay_will_end, .. } => Some(delay_will_end.saturating_sub(now)),
            RepeatState::Repeat { next_repeat, .. } => Some(next_repeat.saturating_sub(now)),
        }
    }

    /// Tells the timer that the clock reads `now`; hands back the action to
    /// repeat if a repeat is due.
    pub fn tick(&mut self, now: u64) -> (r: Option<Action>)
        ensures
            *final(self) == old(self).spec_tick(now).0,
            r == old(self).spec_tick(now).1,
    {
        match *self {
            RepeatState::Idle => None,
            RepeatState::Delay { info, delay_will_end, action, key } => {
                if now >= delay_will_end {
                    *self = RepeatState::Repeat {
                        info,
                        next_repeat: delay_will_end.saturating_add(info.interval),
                        action,
                        key,
                    };
                    Some(action)
                } else {
                    None
                }
            },
            RepeatState::Repeat { info, next_repeat, action, key } => {
                if now >= next_repeat {
                    *self = RepeatState::Repeat {
                        info,
                        next_repeat: next_repeat.saturating_add(info.interval),
                        action,
                        key,
                    };
                    Some(action)
                } else {
                    None
                }
            },
        }
    }

    /// Tells the timer that `key` came up.
    pub fn released(&mut self, key: u32)
        ensures
            *final(self) == old(self).spec_released(key),
    {
        let held = self.key();
        if held == Some(key) {
            *self = RepeatState::Idle;
        }
    }
}

/// A tick that emits is followed by silence until a whole interval has
/// passed: ticking again at the same time, or at any time before the moved
/// deadline, emits nothing and changes nothing.
pub proof fn lemma_one_repeat_per_interval(s: RepeatState, now: u64, later: u64)
    requires
        s.spec_tick(now).1 is Some,
        later < s.spec_tick(now).0.deadline()->Some_0,
    ensures
        s.spec_tick(now).0.deadline() is Some,
        s.spec_tick(now).0.spec_tick(later) == (s.spec_tick(now).0, None::<Action>),
{
}

} // verus!
