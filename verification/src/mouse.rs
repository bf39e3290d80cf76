//! The pointer state: current and previous cursor position for motion-delta
//! computation, and one [`KeyState`] per mouse button.

use vstd::prelude::*;

use crate::keystate::{KeyState, cleared_state};

verus! {

/// Pointer state: cursor position history and the five button cells.
#[derive(Debug, Copy, Clone, PartialEq, Eq, Structural)]
pub struct Mouse {
    /// Current cursor x position.
    pub x: i16,
    /// Current cursor y position.
    pub y: i16,
    /// Cursor x position when the previous motion was observed.
    pub last_x: i16,
    /// Cursor y position when the previous motion was observed.
    pub last_y: i16,
    /// Left button state.
    pub l_button: KeyState,
    /// Right button state.
    pub r_button: KeyState,
    /// Middle button state.
    pub m_button: KeyState,
    /// First extended button state.
    pub x1_button: KeyState,
    /// Second extended button state.
    pub x2_button: KeyState,
}

/// The state of a fresh mouse: at the origin with all buttons idle.
pub open spec fn initial_mouse() -> Mouse {
    Mouse {
        x: 0,
        y: 0,
        last_x: 0,
        last_y: 0,
        l_button: (KeyState { down: false, released: false, changed: false }),
        r_button: (KeyState { down: false, released: false, changed: false }),
        m_button: (KeyState { down: false, released: false, changed: false }),
        x1_button: (KeyState { down: false, released: false, changed: false }),
        x2_button: (KeyState { down: false, released: false, changed: false }),
    }
}

impl Mouse {
    /// Creates a fresh mouse at the origin with all buttons idle.
    pub fn new() -> (m: Self)
        ensures
            m == initial_mouse(),
    {
        Mouse {
            x: 0,
            y: 0,
            last_x: 0,
            last_y: 0,
            l_button: KeyState::new(false, false, false),
            r_button: KeyState::new(false, false, false),
            m_button: KeyState::new(false, false, false),
            x1_button: KeyState::new(false, false, false),
            x2_button: KeyState::new(false, false, false),
        }
    }

    /// The per-interval clear for the pointer: resets the five transition
    /// pulses and nothing else. The position history is never cleared.
    pub fn clear_keystates(&mut self)
        ensures
            *final(self) == (Mouse {
                l_button: cleared_state(old(self).l_button),
                r_button: cleared_state(old(self).r_button),
                m_button: cleared_state(old(self).m_button),
                x1_button: cleared_state(old(self).x1_button),
                x2_button: cleared_state(old(self).x2_button),
                ..*old(self)
            }),
    {
        self.l_button.set_changed(false);
        self.r_button.set_changed(false);
        self.m_button.set_changed(false);
        self.x1_button.set_changed(false);
        self.x2_button.set_changed(false);
    }

    /// Observes a new cursor position: the current position shifts into the
    /// previous one, so the motion delta is always current minus previous.
    pub fn update_pos(&mut self, x: i16, y: i16)
        ensures
            *final(self) == (Mouse {
                x,
                y,
                last_x: old(self).x,
                last_y: old(self).y,
                ..*old(self)
            }),
    {
        self.last_x = self.x;
        self.last_y = self.y;
        self.x = x;
        self.y = y;
    }

    /// Reads the left button state.
    pub fn l_button(&self) -> (s: KeyState)
        ensures
            s == self.l_button,
    {
        self.l_button
    }

    /// Reads the right button state.
    pub fn r_button(&self) -> (s: KeyState)
        ensures
            s == self.r_button,
    {
        self.r_button
    }

    /// Reads the middle button state.
    pub fn m_button(&self) -> (s: KeyState)
        ensures
            s == self.m_button,
    {
        self.m_button
    }

    /// Reads the first extended button state.
    pub fn x1_button(&self) -> (s: KeyState)
        ensures
            s == self.x1_button,
    {
        self.x1_button
    }

    /// Reads the second extended button state.
    pub fn x2_button(&self) -> (s: KeyState)
        ensures
            s == self.x2_button,
    {
        self.x2_button
    }

    /// Writes the left button's transition pulse.
    pub fn set_l_button_changed(&mut self, value: bool)
        ensures
            *final(self) == (Mouse {
                l_button: (KeyState { changed: value, ..old(self).l_button }),
                ..*old(self)
            }),
    {
        self.l_button.set_changed(value);
    }

    /// Writes the right button's transition pulse.
    pub fn set_r_button_changed(&mut self, value: bool)
        ensures
            *final(self) == (Mouse {
                r_button: (KeyState { changed: value, ..old(self).r_button }),
                ..*old(self)
            }),
    {
        self.r_button.set_changed(value);
    }

    /// Writes the middle button's transition pulse.
    pub fn set_m_button_changed(&mut self, value: bool)
        ensures
            *final(self) == (Mouse {
                m_button: (KeyState { changed: value, ..old(self).m_button }),
                ..*old(self)
            }),
    {
        self.m_button.set_changed(value);
    }

    /// Writes the first extended button's transition pulse.
    pub fn set_x1_button_changed(&mut self, value: bool)
        ensures
            *final(self) == (Mouse {
                x1_button: (KeyState { changed: value, ..old(self).x1_button }),
                ..*old(self)
            }),
    {
        self.x1_button.set_changed(value);
    }

    /// Writes the second extended button's transition pulse.
    pub fn set_x2_button_changed(&mut self, value: bool)
        ensures
            *final(self) == (Mouse {
                x2_button: (KeyState { changed: value, ..old(self).x2_button }),
                ..*old(self)
            }),
    {
        self.x2_button.set_changed(value);
    }

    /// Writes the left button's released latch.
    pub fn set_l_button_released(&mut self, value: bool)
        ensures
            *final(self) == (Mouse {
                l_button: (KeyState { released: value, ..old(self).l_button }),
                ..*old(self)
            }),
    {
        self.l_button.set_released(value);
    }

    /// Writes the right button's released latch.
    pub fn set_r_button_released(&mut self, value: bool)
        ensures
            *final(self) == (Mouse {
                r_button: (KeyState { released: value, ..old(self).r_button }),
                ..*old(self)
            }),
    {
        self.r_button.set_released(value);
    }

    /// Writes the middle button's released latch.
    pub fn set_m_button_released(&mut self, value: bool)
        ensures
            *final(self) == (Mouse {
                m_button: (KeyState { released: value, ..old(self).m_button }),
                ..*old(self)
            }),
    {
        self.m_button.set_released(value);
    }

    /// Writes the first extended button's released latch.
    pub fn set_x1_button_released(&mut self, value: bool)
        ensures
            *final(self) == (Mouse {
                x1_button: (KeyState { released: value, ..old(self).x1_button }),
                ..*old(self)
            }),
    {
        self.x1_button.set_released(value);
    }

    /// Writes the second extended button's released latch.
    pub fn set_x2_button_released(&mut self, value: bool)
        ensures
            *final(self) == (Mouse {
                x2_button: (KeyState { released: value, ..old(self).x2_button }),
                ..*old(self)
            }),
    {
        self.x2_button.set_released(value);
    }

    /// Writes the left button's level bit.
    pub fn set_l_button_down(&mut self, value: bool)
        ensures
            *final(self) == (Mouse {
                l_button: (KeyState { down: value, ..old(self).l_button }),
                ..*old(self)
            }),
    {
        self.l_button.set_down(value);
    }

    /// Writes the right button's level bit.
    pub fn set_r_button_down(&mut self, value: bool)
        ensures
            *final(self) == (Mouse {
                r_button: (KeyState { down: value, ..old(self).r_button }),
                ..*old(self)
            }),
    {
        self.r_button.set_down(value);
    }

    /// Writes the middle button's level bit.
    pub fn set_m_button_down(&mut self, value: bool)
        ensures
            *final(self) == (Mouse {
                m_button: (KeyState { down: value, ..old(self).m_button }),
                ..*old(self)
            }),
    {
        self.m_button.set_down(value);
    }

    /// Writes the first extended button's level bit.
    pub fn set_x1_button_down(&mut self, value: bool)
        ensures
            *final(self) == (Mouse {
                x1_button: (KeyState { down: value, ..old(self).x1_button }),
                ..*old(self)
            }),
    {
        self.x1_button.set_down(value);
    }

    /// Writes the second extended button's level bit.
    pub fn set_x2_button_down(&mut self, value: bool)
        ensures
            *final(self) == (Mouse {
                x2_button: (KeyState { down: value, ..old(self).x2_button }),
                ..*old(self)
            }),
    {
        self.x2_button.set_down(value);
    }

    /// The horizontal motion delta: current minus previous position. The
    /// difference of two 16-bit positions always fits the 32-bit result.
    pub fn x_offset(&self) -> (dx: i32)
        ensures
            dx == self.x - self.last_x,
    {
        (self.x as i32) - (self.last_x as i32)
    }

    /// The vertical motion delta: current minus previous position.
    pub fn y_offset(&self) -> (dy: i32)
        ensures
            dy == self.y - self.last_y,
    {
        (self.y as i32) - (self.last_y as i32)
    }

    /// Reads the current cursor x position.
    pub fn x(&self) -> (x: i16)
        ensures
            x == self.x,
    {
        self.x
    }

    /// Reads the current cursor y position.
    pub fn y(&self) -> (y: i16)
        ensures
            y == self.y,
    {
        self.y
    }

    /// Reads the current cursor position.
    pub fn xy(&self) -> (p: (i16, i16))
        ensures
            p == (self.x, self.y),
    {
        (self.x, self.y)
    }

    /// Reads the previous cursor x position.
    pub fn last_x(&self) -> (x: i16)
        ensures
            x == self.last_x,
    {
        self.last_x
    }

    /// Reads the previous cursor y position.
    pub fn last_y(&self) -> (y: i16)
        ensures
            y == self.last_y,
    {
        self.last_y
    }

    /// Reads the previous cursor position.
    pub fn last_xy(&self) -> (p: (i16, i16))
        ensures
            p == (self.last_x, self.last_y),
    {
        (self.last_x, self.last_y)
    }

    /// Reads the motion delta as a pair.
    pub fn xy_offset(&self) -> (d: (i32, i32))
        ensures
            d.0 == self.x - self.last_x,
            d.1 == self.y - self.last_y,
    {
        (self.x_offset(), self.y_offset())
    }
}

impl Default for Mouse {
    /// A fresh mouse at the origin with all buttons idle.
    fn default() -> (m: Self)
        ensures
            m == initial_mouse(),
    {
        Mouse::new()
    }
}

/// The motion delta is zero exactly when the newly observed position repeats
/// the previous one: observing `(x, y)` makes the delta `(x - m.x, y - m.y)`,
/// which vanishes only if the position did not move.
pub proof fn lemma_offset_zero_iff_repeated(m: Mouse, x: i16, y: i16)
    ensures
        ({
            let moved = Mouse { x, y, last_x: m.x, last_y: m.y, ..m };
            (moved.x - moved.last_x == 0 <==> x == m.x) && (moved.y - moved.last_y == 0 <==> y
                == m.y)
        }),
{
}

} // verus!
