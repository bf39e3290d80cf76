//! The keyboard state table: one [`KeyState`] per keycode, a parallel
//! "character fired this interval" table, and the autorepeat policy flag.
//!
//! The tables are fully pre-populated at construction, so a lookup miss can
//! only mean a caller bug; every access therefore demands an in-range
//! keycode.

use vstd::prelude::*;

use crate::keystate::{KeyState, cleared_state, initial_key_state};

verus! {

/// Per-keycode transition state for the whole keyboard.
#[derive(Debug, Clone, PartialEq, Eq)]
pub struct Keyboard {
    /// Transition state, indexed by keycode.
    pub keys: Vec<KeyState>,
    /// Whether a character-producing key fired this interval, indexed by
    /// keycode.
    pub chars: Vec<bool>,
    /// Autorepeat policy flag; unused by the default translation but
    /// available to alternate policies.
    pub autorepeat: bool,
}

impl Keyboard {
    /// Both tables cover the same keycode domain.
    pub open spec fn wf(&self) -> bool {
        self.keys@.len() == self.chars@.len()
    }

    /// The number of keycodes the tables cover.
    pub open spec fn spec_len(&self) -> nat {
        self.keys@.len()
    }

    /// All keys idle and no characters fired: the state right after
    /// construction or a quiet interval's clear.
    pub open spec fn all_idle(&self) -> bool {
        &&& forall|i: int| 0 <= i < self.keys@.len() ==> self.keys@[i] == initial_key_state()
        &&& forall|i: int| 0 <= i < self.chars@.len() ==> !self.chars@[i]
    }

    /// Creates a keyboard covering `n_keys` keycodes, all idle.
    pub fn from_nkeys(autorepeat: bool, n_keys: usize) -> (kb: Self)
        ensures
            kb.wf(),
            kb.spec_len() == n_keys,
            kb.autorepeat == autorepeat,
            kb.all_idle(),
    {
        let mut keys: Vec<KeyState> = Vec::new();
        let mut chars: Vec<bool> = Vec::new();
        for i in 0..n_keys
            invariant
                keys@.len() == i,
                chars@.len() == i,
                forall|j: int| 0 <= j < i ==> keys@[j] == initial_key_state(),
                forall|j: int| 0 <= j < i ==> !chars@[j],
        {
            keys.push(KeyState::default());
            chars.push(false);
        }
        Keyboard { keys, chars, autorepeat }
    }

    /// Creates a keyboard covering the full OS keycode range.
    pub fn new(autorepeat: bool) -> (kb: Self)
        ensures
            kb.wf(),
            kb.spec_len() == crate::keycodes::KEY_TABLE_SIZE,
            kb.autorepeat == autorepeat,
            kb.all_idle(),
    {
        Self::from_nkeys(autorepeat, crate::keycodes::KEY_TABLE_SIZE)
    }

    /// Replaces the whole state of one key.
    pub fn replace(&mut self, keycode: usize, down: bool, released: bool, changed: bool)
        requires
            keycode < old(self).spec_len(),
        ensures
            final(self).keys@ == old(self).keys@.update(
                keycode as int,
                (KeyState { down, released, changed }),
            ),
            final(self).chars@ == old(self).chars@,
            final(self).autorepeat == old(self).autorepeat,
    {
        self.keys[keycode] = KeyState::new(down, released, changed);
    }

    /// Reads one key's level bit.
    pub fn is_down(&self, keycode: usize) -> (b: bool)
        requires
            keycode < self.spec_len(),
        ensures
            b == self.keys@[keycode as int].down,
    {
        self.keys[keycode].is_down()
    }

    /// Reads one key's released latch.
    pub fn is_released(&self, keycode: usize) -> (b: bool)
        requires
            keycode < self.spec_len(),
        ensures
            b == self.keys@[keycode as int].released,
    {
        self.keys[keycode].is_released()
    }

    /// Reads one key's transition pulse.
    pub fn is_changed(&self, keycode: usize) -> (b: bool)
        requires
            keycode < self.spec_len(),
        ensures
            b == self.keys@[keycode as int].changed,
    {
        self.keys[keycode].is_changed()
    }

    /// Reads whether a character-producing key fired this interval.
    pub fn is_char(&self, keycode: usize) -> (b: bool)
        requires
            self.wf(),
            keycode < self.spec_len(),
        ensures
            b == self.chars@[keycode as int],
    {
        self.chars[keycode]
    }

    /// Writes one key's level bit.
    pub fn set_is_down(&mut self, keycode: usize, value: bool)
        requires
            keycode < old(self).spec_len(),
        ensures
            final(self).keys@ == old(self).keys@.update(
                keycode as int,
                (KeyState { down: value, ..old(self).keys@[keycode as int] }),
            ),
            final(self).chars@ == old(self).chars@,
            final(self).autorepeat == old(self).autorepeat,
    {
        let mut state = self.keys[keycode];
        state.set_down(value);
        self.keys[keycode] = state;
    }

    /// Writes one key's released latch.
    pub fn set_is_released(&mut self, keycode: usize, value: bool)
        requires
            keycode < old(self).spec_len(),
        ensures
            final(self).keys@ == old(self).keys@.update(
                keycode as int,
                (KeyState { released: value, ..old(self).keys@[keycode as int] }),
            ),
            final(self).chars@ == old(self).chars@,
            final(self).autorepeat == old(self).autorepeat,
    {
        let mut state = self.keys[keycode];
        state.set_released(value);
        self.keys[keycode] = state;
    }

    /// Writes one key's transition pulse.
    pub fn set_is_changed(&mut self, keycode: usize, value: bool)
        requires
            keycode < old(self).spec_len(),
        ensures
            final(self).keys@ == old(self).keys@.update(
                keycode as int,
                (KeyState { changed: value, ..old(self).keys@[keycode as int] }),
            ),
            final(self).chars@ == old(self).chars@,
            final(self).autorepeat == old(self).autorepeat,
    {
        let mut state = self.keys[keycode];
        state.set_changed(value);
        self.keys[keycode] = state;
    }

    /// Marks whether a character-producing key fired this interval.
    pub fn set_is_char(&mut self, keycode: usize, pressed: bool)
        requires
            old(self).wf(),
            keycode < old(self).spec_len(),
        ensures
            final(self).keys@ == old(self).keys@,
            final(self).chars@ == old(self).chars@.update(keycode as int, pressed),
            final(self).autorepeat == old(self).autorepeat,
    {
        self.chars[keycode] = pressed;
    }

    /// Reads the autorepeat policy flag.
    pub fn autorepeat(&self) -> (b: bool)
        ensures
            b == self.autorepeat,
    {
        self.autorepeat
    }

    /// Sets the autorepeat policy flag.
    pub fn set_autorepeat(&mut self, value: bool)
        ensures
            final(self).keys@ == old(self).keys@,
            final(self).chars@ == old(self).chars@,
            final(self).autorepeat == value,
    {
        self.autorepeat = value;
    }

    /// The per-interval clear: resets every transition pulse and every
    /// character flag. Levels and released latches persist until a real
    /// transition occurs. Must run exactly once per polling interval,
    /// before that interval's raw notifications are translated.
    pub fn clear(&mut self)
        requires
            old(self).wf(),
        ensures
            final(self).wf(),
            final(self).spec_len() == old(self).spec_len(),
            final(self).autorepeat == old(self).autorepeat,
            forall|i: int|
                0 <= i < old(self).keys@.len() ==> final(self).keys@[i] == cleared_state(
                    old(self).keys@[i],
                ),
            forall|i: int| 0 <= i < old(self).chars@.len() ==> !final(self).chars@[i],
    {
        let n = self.keys.len();
        for i in 0..n
            invariant
                self.wf(),
                self.spec_len() == old(self).spec_len(),
                n == old(self).spec_len(),
                self.autorepeat == old(self).autorepeat,
                forall|j: int| 0 <= j < i ==> self.keys@[j] == cleared_state(old(self).keys@[j]),
                forall|j: int| i <= j < n ==> self.keys@[j] == old(self).keys@[j],
                forall|j: int| 0 <= j < i ==> !self.chars@[j],
                forall|j: int| i <= j < n ==> self.chars@[j] == old(self).chars@[j],
        {
            let mut state = self.keys[i];
            state.set_changed(false);
            self.keys[i] = state;
            self.chars[i] = false;
        }
    }
}

/// Clearing is idempotent at the table level: clearing an already cleared
/// table changes nothing, and no clear touches a level bit or a released
/// latch.
pub proof fn lemma_table_clear_idempotent(keys: Seq<KeyState>)
    ensures
        keys.map_values(|s: KeyState| cleared_state(s)).map_values(
            |s: KeyState| cleared_state(s),
        ) == keys.map_values(|s: KeyState| cleared_state(s)),
        forall|i: int|
            0 <= i < keys.len() ==> keys.map_values(|s: KeyState| cleared_state(s))[i]
                == (KeyState { changed: false, ..#[trigger] keys[i] }),
{
    let once = keys.map_values(|s: KeyState| cleared_state(s));
    assert(once.map_values(|s: KeyState| cleared_state(s)) =~= once);
}

} // verus!
