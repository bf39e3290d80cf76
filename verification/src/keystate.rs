//! The per-key state cell and its transition algebra.
//!
//! Each key or button is tracked by three bits: `down` is a level (the key is
//! physically held), `changed` is a one-interval pulse (the key transitioned
//! since the last clear), and `released` is a one-shot latch (the key went up
//! and the press derived from a later down has not yet been reported). The
//! consumer-facing [`Action`] is a pure projection of `down` and `changed`.

use vstd::prelude::*;

use crate::events::Action;

verus! {

/// Transition status of one key or button since the last consumer poll.
#[derive(Debug, Copy, Clone, PartialEq, Eq, Structural)]
pub struct KeyState {
    /// The key is physically held down.
    pub down: bool,
    /// One-shot latch: the key went up, and that release has not yet been
    /// converted into a reported press.
    pub released: bool,
    /// One-interval pulse: the key transitioned since the last clear.
    pub changed: bool,
}

/// The action a key state denotes: `Down` if held with no fresh transition,
/// `Press` if it just went down, `Release` if it just went up, `Idle` otherwise.
pub open spec fn action_of(s: KeyState) -> Action {
    if s.down && !s.changed {
        Action::Down
    } else if s.down && s.changed {
        Action::Press
    } else if !s.down && s.changed {
        Action::Release
    } else {
        Action::Idle
    }
}

/// State after a raw key-down notification with repeat indicator `repeat`:
/// the key is down; `changed` pulses only on the first down of a press; the
/// released latch is consumed (a repeat leaves it untouched).
pub open spec fn key_down_state(s: KeyState, repeat: bool) -> KeyState {
    KeyState { down: true, changed: !repeat, released: if repeat {
        s.released
    } else {
        false
    } }
}

/// State after a raw key-up notification: the key is up, the transition
/// pulses, and the released latch is set.
pub open spec fn key_up_state() -> KeyState {
    KeyState { down: false, changed: true, released: true }
}

/// State after the per-interval clear: the transition pulse is reset, the
/// level and the latch persist.
pub open spec fn cleared_state(s: KeyState) -> KeyState {
    KeyState { changed: false, ..s }
}

/// State of a freshly constructed key: up and idle. The released latch
/// starts set, so that the very first down notification of a press is
/// reported as a press rather than silently absorbed.
pub open spec fn initial_key_state() -> KeyState {
    KeyState { down: false, released: true, changed: false }
}

/// State after a mouse-button-down notification: buttons have no repeat
/// concept, so every down is a genuine transition.
pub open spec fn button_down_state() -> KeyState {
    KeyState { down: true, released: false, changed: true }
}

/// State after a mouse-button-up notification.
pub open spec fn button_up_state() -> KeyState {
    KeyState { down: false, released: true, changed: true }
}

impl KeyState {
    /// Creates a key state from its three bits.
    pub fn new(down: bool, released: bool, changed: bool) -> (s: Self)
        ensures
            s == (KeyState { down, released, changed }),
    {
        KeyState { down, released, changed }
    }

    /// Reads the level bit.
    pub fn is_down(&self) -> (b: bool)
        ensures
            b == self.down,
    {
        self.down
    }

    /// Reads the released latch.
    pub fn is_released(&self) -> (b: bool)
        ensures
            b == self.released,
    {
        self.released
    }

    /// Reads the transition pulse.
    pub fn is_changed(&self) -> (b: bool)
        ensures
            b == self.changed,
    {
        self.changed
    }

    /// Writes the level bit.
    pub fn set_down(&mut self, value: bool)
        ensures
            *final(self) == (KeyState { down: value, ..*old(self) }),
    {
        self.down = value;
    }

    /// Writes the released latch.
    pub fn set_released(&mut self, value: bool)
        ensures
            *final(self) == (KeyState { released: value, ..*old(self) }),
    {
        self.released = value;
    }

    /// Writes the transition pulse.
    pub fn set_changed(&mut self, value: bool)
        ensures
            *final(self) == (KeyState { changed: value, ..*old(self) }),
    {
        self.changed = value;
    }

    /// Derives the action this state denotes.
    pub fn action(&self) -> (a: Action)
        ensures
            a == action_of(*self),
    {
        if self.down && !self.changed {
            Action::Down
        } else if self.down && self.changed {
            Action::Press
        } else if !self.down && self.changed {
            Action::Release
        } else {
            Action::Idle
        }
    }
}

impl Default for KeyState {
    /// A fresh key: up and idle, with the released latch set.
    fn default() -> (s: Self)
        ensures
            s == initial_key_state(),
    {
        KeyState { down: false, released: true, changed: false }
    }
}

/// A key's observable lifecycle: from any starting state, a non-repeat down
/// reads as `Press`; a further repeat-flagged down reads as `Down`; an up
/// reads as `Release`; and after the next per-interval clear the key reads
/// as `Idle`.
pub proof fn lemma_key_lifecycle(s: KeyState)
    ensures
        action_of(key_down_state(s, false)) == Action::Press,
        action_of(key_down_state(key_down_state(s, false), true)) == Action::Down,
        action_of(key_up_state()) == Action::Release,
        action_of(cleared_state(key_up_state())) == Action::Idle,
{
}

/// Clearing is idempotent: a second clear with no intervening notification
/// changes nothing, and no clear ever touches the level bit or the latch.
pub proof fn lemma_clear_idempotent(s: KeyState)
    ensures
        cleared_state(cleared_state(s)) == cleared_state(s),
        cleared_state(s).down == s.down,
        cleared_state(s).released == s.released,
{
}

/// A fresh key denotes no action.
pub proof fn lemma_initial_idle()
    ensures
        action_of(initial_key_state()) == Action::Idle,
{
}

} // verus!
