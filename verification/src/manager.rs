//! The central point of the crate: the manager owns the keyboard and
//! pointer tables and the event queue, feeds raw notifications through the
//! translator on the producer side, and answers the consumer's polling
//! queries.
//!
//! The host wires the manager between its OS message pump and its run loop:
//! the pump hands raw notifications to [`Manager::process_raw`], the loop
//! calls [`Manager::clear`] once per polling interval before that interval's
//! notifications are translated, and drains events with
//! [`Manager::poll_event`].

use vstd::prelude::*;

use crate::events::{Action, Events, RawEvent};
use crate::keyboard::Keyboard;
use crate::keycodes;
use crate::keystate::{action_of, cleared_state, initial_key_state};
use crate::mouse::{Mouse, initial_mouse};
use crate::queue::EventQueue;
use crate::translator::{raw_wf, translate, translate_keyboard_post, translate_mouse_post};

verus! {

/// The shared core of the windowing shim: input state plus the ordered
/// event queue between producer and consumer.
#[derive(Debug)]
pub struct Manager {
    /// Per-keycode transition state.
    pub keyboard: Keyboard,
    /// Pointer position history and button state.
    pub mouse: Mouse,
    /// Translated events awaiting the consumer, oldest first.
    pub queue: EventQueue,
}

impl Manager {
    /// The keyboard tables are consistent and cover the full OS keycode
    /// range.
    pub open spec fn wf(&self) -> bool {
        &&& self.keyboard.wf()
        &&& self.keyboard.spec_len() == keycodes::KEY_TABLE_SIZE
    }

    /// The action the given keycode's state denotes.
    pub open spec fn spec_get_key(&self, keycode: int) -> Action {
        action_of(self.keyboard.keys@[keycode])
    }

    /// Creates a fresh manager: every key and button idle, no characters
    /// fired, the queue empty, and autorepeat policy off.
    ///
    /// Immediately after construction every keycode reads [`Action::Idle`]
    /// and no character is marked typed.
    pub fn new() -> (m: Self)
        ensures
            m.wf(),
            m.keyboard.all_idle(),
            m.keyboard.autorepeat == false,
            m.mouse == initial_mouse(),
            m.queue@ == Seq::<Events>::empty(),
            forall|k: int|
                0 <= k < keycodes::KEY_TABLE_SIZE ==> m.spec_get_key(k) == Action::Idle,
            forall|k: int| 0 <= k < keycodes::KEY_TABLE_SIZE ==> !m.keyboard.chars@[k],
    {
        let m = Manager {
            keyboard: Keyboard::new(false),
            mouse: Mouse::new(),
            queue: EventQueue::new(),
        };
        assert forall|k: int|
            0 <= k < keycodes::KEY_TABLE_SIZE implies m.spec_get_key(k) == Action::Idle by {
            assert(m.keyboard.keys@[k] == initial_key_state());
        }
        m
    }

    /// Translates one raw notification against the current state and
    /// appends the resulting event — the idle event included, so that every
    /// notification occupies its ordering slot — at the back of the queue.
    pub fn process_raw(&mut self, raw: RawEvent) -> (e: Events)
        requires
            old(self).wf(),
            raw_wf(raw, old(self).keyboard.spec_len()),
        ensures
            final(self).wf(),
            final(self).keyboard.autorepeat == old(self).keyboard.autorepeat,
            final(self).queue@ == old(self).queue@.push(e),
            match raw {
                RawEvent::Window { id, event } => {
                    &&& final(self).keyboard == old(self).keyboard
                    &&& final(self).mouse == old(self).mouse
                    &&& e == crate::translator::spec_window_event(id, event)
                },
                RawEvent::Keyboard { id, event } => {
                    &&& final(self).mouse == old(self).mouse
                    &&& translate_keyboard_post(
                        id,
                        event,
                        old(self).keyboard,
                        final(self).keyboard,
                        e,
                    )
                },
                RawEvent::Mouse { id, event } => {
                    &&& final(self).keyboard == old(self).keyboard
                    &&& translate_mouse_post(id, event, old(self).mouse, final(self).mouse, e)
                },
                RawEvent::Unknown { id } => {
                    &&& final(self).keyboard == old(self).keyboard
                    &&& final(self).mouse == old(self).mouse
                    &&& e == Events::Idle
                },
            },
    {
        let event = translate(raw, &mut self.keyboard, &mut self.mouse);
        self.queue.push(event);
        event
    }

    /// The per-interval clear: resets every transition pulse and character
    /// flag on the keyboard and every button pulse on the pointer. Runs
    /// once per polling interval — before the interval's raw notifications
    /// are translated — and never touches levels, released latches, or the
    /// pointer position history.
    pub fn clear(&mut self)
        requires
            old(self).wf(),
        ensures
            final(self).wf(),
            final(self).keyboard.autorepeat == old(self).keyboard.autorepeat,
            forall|i: int|
                0 <= i < old(self).keyboard.keys@.len() ==> final(self).keyboard.keys@[i]
                    == cleared_state(old(self).keyboard.keys@[i]),
            forall|i: int|
                0 <= i < old(self).keyboard.chars@.len() ==> !final(self).keyboard.chars@[i],
            final(self).mouse == (Mouse {
                l_button: cleared_state(old(self).mouse.l_button),
                r_button: cleared_state(old(self).mouse.r_button),
                m_button: cleared_state(old(self).mouse.m_button),
                x1_button: cleared_state(old(self).mouse.x1_button),
                x2_button: cleared_state(old(self).mouse.x2_button),
                ..old(self).mouse
            }),
            final(self).queue == old(self).queue,
    {
        self.keyboard.clear();
        self.mouse.clear_keystates();
    }

    /// Removes and returns the oldest buffered event; when the queue is
    /// momentarily empty, returns the idle event so that the consumer's
    /// callback still runs once per tick.
    pub fn poll_event(&mut self) -> (e: Events)
        ensures
            old(self).queue@.len() == 0 ==> e == Events::Idle && final(self).queue@ == old(
                self,
            ).queue@,
            old(self).queue@.len() > 0 ==> e == old(self).queue@[0] && final(self).queue@ == old(
                self,
            ).queue@.drop_first(),
            final(self).keyboard == old(self).keyboard,
            final(self).mouse == old(self).mouse,
    {
        match self.queue.pop() {
            Some(event) => event,
            None => Events::Idle,
        }
    }

    /// Retrieves whether the given character code was typed this interval.
    /// The code must lie in the keycode table; the table is pre-sized to
    /// the full OS range, so an out-of-range code is a caller bug.
    pub fn get_char(&self, char_code: usize) -> (b: bool)
        requires
            self.wf(),
            char_code < keycodes::KEY_TABLE_SIZE,
        ensures
            b == self.keyboard.chars@[char_code as int],
    {
        self.keyboard.is_char(char_code)
    }

    /// Retrieves the state of a keyboard key: `Press` or `Release` in the
    /// interval of the transition, `Down` while held, `Idle` otherwise.
    /// The keycode must lie in the keycode table.
    pub fn get_key(&self, keycode: usize) -> (a: Action)
        requires
            self.wf(),
            keycode < keycodes::KEY_TABLE_SIZE,
        ensures
            a == self.spec_get_key(keycode as int),
    {
        if self.keyboard.is_down(keycode) && !self.keyboard.is_changed(keycode) {
            Action::Down
        } else if self.keyboard.is_down(keycode) && self.keyboard.is_changed(keycode) {
            Action::Press
        } else if !self.keyboard.is_down(keycode) && self.keyboard.is_changed(keycode) {
            Action::Release
        } else {
            Action::Idle
        }
    }

    /// Retrieves the state of a mouse button, named by its button code.
    /// Querying a code that names no button is a programming error, ruled
    /// out by the precondition; the host fails loudly rather than handing
    /// back a silent default.
    pub fn get_mouse_button(&self, button: usize) -> (a: Action)
        requires
            button == keycodes::LBUTTON || button == keycodes::RBUTTON || button
                == keycodes::MBUTTON || button == keycodes::XBUTTON1 || button
                == keycodes::XBUTTON2,
        ensures
            button == keycodes::LBUTTON ==> a == action_of(self.mouse.l_button),
            button == keycodes::RBUTTON ==> a == action_of(self.mouse.r_button),
            button == keycodes::MBUTTON ==> a == action_of(self.mouse.m_button),
            button == keycodes::XBUTTON1 ==> a == action_of(self.mouse.x1_button),
            button == keycodes::XBUTTON2 ==> a == action_of(self.mouse.x2_button),
    {
        if button == keycodes::LBUTTON {
            self.mouse.l_button().action()
        } else if button == keycodes::RBUTTON {
            self.mouse.r_button().action()
        } else if button == keycodes::MBUTTON {
            self.mouse.m_button().action()
        } else if button == keycodes::XBUTTON1 {
            self.mouse.x1_button().action()
        } else {
            self.mouse.x2_button().action()
        }
    }

    /// Reads the autorepeat policy flag.
    pub fn autorepeat(&self) -> (b: bool)
        ensures
            b == self.keyboard.autorepeat,
    {
        self.keyboard.autorepeat()
    }

    /// Sets the autorepeat policy flag.
    pub fn set_autorepeat(&mut self, value: bool)
        ensures
            final(self).keyboard.keys@ == old(self).keyboard.keys@,
            final(self).keyboard.chars@ == old(self).keyboard.chars@,
            final(self).keyboard.autorepeat == value,
            final(self).mouse == old(self).mouse,
            final(self).queue == old(self).queue,
    {
        self.keyboard.set_autorepeat(value);
    }
}

impl Default for Manager {
    /// A fresh manager with every key and button idle.
    fn default() -> (m: Self)
        ensures
            m.wf(),
            m.keyboard.all_idle(),
            m.mouse == initial_mouse(),
            m.queue@ == Seq::<Events>::empty(),
    {
        Manager::new()
    }
}

} // verus!
