//! The translator: maps one raw notification, together with the current
//! keyboard and pointer state, to at most one semantic event, applying the
//! state transitions as a side effect.
//!
//! One raw notification yields at most one event. A notification kind that
//! this layer does not recognize yields the idle event: that is explicitly
//! not an error, since the OS emits many message kinds irrelevant to the
//! application layer.

use vstd::prelude::*;

use crate::events::{
    Action, Events, KeyboardEvents, MouseEvents, RawEvent, RawKeyboardEvent, RawMouseEvent,
    RawWindowEvent, ResizeKind, WindowEvents,
};
use crate::keyboard::Keyboard;
use crate::keystate::{button_down_state, button_up_state, key_down_state, key_up_state};
use crate::mouse::Mouse;

verus! {

/// The notch quantum: raw wheel deltas are multiples of this for ordinary
/// wheels, and scroll events report the delta divided by it.
pub const WHEEL_DELTA: u16 = 120;

/// Extended-button bit carried in the high word of an up notification's mask
/// for the first extended button.
pub const XBUTTON1_FLAG: u32 = 0x0001;

/// Extended-button bit carried in the high word of an up notification's mask
/// for the second extended button.
pub const XBUTTON2_FLAG: u32 = 0x0002;

/// Key-state bit carried in the low word of a down notification's mask for
/// the first extended button.
pub const MK_XBUTTON1: u32 = 0x0020;

/// Key-state bit carried in the low word of a down notification's mask for
/// the second extended button.
pub const MK_XBUTTON2: u32 = 0x0040;

/// The low 16 bits of a packed 32-bit word.
pub open spec fn spec_loword(w: u32) -> u32 {
    w & 0xFFFF
}

/// The high 16 bits of a packed 32-bit word.
pub open spec fn spec_hiword(w: u32) -> u32 {
    (w >> 16) & 0xFFFF
}

/// Extracts the low 16 bits of a packed word.
pub fn loword(w: u32) -> (r: u32)
    ensures
        r == spec_loword(w),
{
    w & 0xFFFF
}

/// Extracts the high 16 bits of a packed word.
pub fn hiword(w: u32) -> (r: u32)
    ensures
        r == spec_hiword(w),
{
    (w >> 16) & 0xFFFF
}

/// A raw wheel delta normalized to whole notches: the delta divided by the
/// notch quantum, truncated toward zero.
pub open spec fn notches_of(delta: int) -> int {
    if delta >= 0 {
        delta / (WHEEL_DELTA as int)
    } else {
        -((-delta) / (WHEEL_DELTA as int))
    }
}

/// Normalizes a raw wheel delta to whole notches.
pub fn scroll_notches(delta: i16) -> (n: i16)
    ensures
        n == notches_of(delta as int),
{
    let d: i32 = delta as i32;
    if d >= 0 {
        let q: u32 = (d as u32) / (WHEEL_DELTA as u32);
        assert(q as int <= 32767int / 120) by {
            vstd::arithmetic::div_mod::lemma_div_is_ordered(d as int, 32767, 120);
        }
        q as i16
    } else {
        let q: u32 = ((-d) as u32) / (WHEEL_DELTA as u32);
        assert(q as int <= 32768int / 120) by {
            vstd::arithmetic::div_mod::lemma_div_is_ordered(-d as int, 32768, 120);
        }
        let n: i32 = -(q as i32);
        n as i16
    }
}

/// The semantic event a raw window notification translates to. A resize
/// bifurcates on its kind tag; every other notification maps one-to-one.
pub open spec fn spec_window_event(id: usize, event: RawWindowEvent) -> Events {
    match event {
        RawWindowEvent::Create => Events::WindowEvents { id, event: WindowEvents::Create },
        RawWindowEvent::Close => Events::WindowEvents { id, event: WindowEvents::Close },
        RawWindowEvent::Resize { kind, width, height } => match kind {
            ResizeKind::Maximized => Events::WindowEvents {
                id,
                event: WindowEvents::Maximized { width, height },
            },
            ResizeKind::Minimized => Events::WindowEvents {
                id,
                event: WindowEvents::Minimized { width, height },
            },
            ResizeKind::Normal => Events::WindowEvents {
                id,
                event: WindowEvents::FramebufferChanged { width, height },
            },
        },
        RawWindowEvent::Moved { x, y } => Events::WindowEvents {
            id,
            event: WindowEvents::Moved { x, y },
        },
        RawWindowEvent::SetFocus => Events::WindowEvents { id, event: WindowEvents::SetFocus },
        RawWindowEvent::LostFocus => Events::WindowEvents { id, event: WindowEvents::LostFocus },
        RawWindowEvent::RedrawRequested => Events::WindowEvents {
            id,
            event: WindowEvents::RedrawRequested,
        },
    }
}

/// Translates a raw window notification. Window notifications carry no
/// input state, so this is a pure mapping.
pub fn translate_window(id: usize, event: RawWindowEvent) -> (e: Events)
    ensures
        e == spec_window_event(id, event),
{
    match event {
        RawWindowEvent::Create => Events::WindowEvents { id, event: WindowEvents::Create },
        RawWindowEvent::Close => Events::WindowEvents { id, event: WindowEvents::Close },
        RawWindowEvent::Resize { kind, width, height } => match kind {
            ResizeKind::Maximized => Events::WindowEvents {
                id,
                event: WindowEvents::Maximized { width, height },
            },
            ResizeKind::Minimized => Events::WindowEvents {
                id,
                event: WindowEvents::Minimized { width, height },
            },
            ResizeKind::Normal => Events::WindowEvents {
                id,
                event: WindowEvents::FramebufferChanged { width, height },
            },
        },
        RawWindowEvent::Moved { x, y } => Events::WindowEvents {
            id,
            event: WindowEvents::Moved { x, y },
        },
        RawWindowEvent::SetFocus => Events::WindowEvents { id, event: WindowEvents::SetFocus },
        RawWindowEvent::LostFocus => Events::WindowEvents { id, event: WindowEvents::LostFocus },
        RawWindowEvent::RedrawRequested => Events::WindowEvents {
            id,
            event: WindowEvents::RedrawRequested,
        },
    }
}

/// The event a raw key-down notification emits, given the key's prior state:
/// a repeat-flagged down reports `Down`; the first down of a press reports
/// `Press` when the released latch is set (and consumes it); otherwise
/// nothing is emitted beyond the state update, and the consumer's next poll
/// resolves the new state to `Press` itself.
pub open spec fn spec_key_down_event(
    id: usize,
    keycode: usize,
    prior: crate::keystate::KeyState,
    repeat: bool,
) -> Events {
    if repeat {
        Events::KeyboardEvents { id, event: KeyboardEvents::Key { keycode, action: Action::Down } }
    } else if prior.released {
        Events::KeyboardEvents { id, event: KeyboardEvents::Key { keycode, action: Action::Press } }
    } else {
        Events::Idle
    }
}

/// A raw keyboard notification's keycode lies inside the keyboard table.
pub open spec fn raw_keyboard_wf(event: RawKeyboardEvent, n_keys: nat) -> bool {
    match event {
        RawKeyboardEvent::Key { up, repeat, keycode } => keycode < n_keys,
        RawKeyboardEvent::Char { keycode } => keycode < n_keys,
    }
}

/// Translates a raw keyboard notification, applying the key transition to
/// the keyboard table.
///
/// On key-down the repeat indicator decides whether the transition pulse
/// fires; on key-up the key is marked up, pulsed, and its released latch
/// set, and a `Release` event is always emitted.
pub fn translate_keyboard(id: usize, event: RawKeyboardEvent, keyboard: &mut Keyboard) -> (e:
    Events)
    requires
        old(keyboard).wf(),
        raw_keyboard_wf(event, old(keyboard).spec_len()),
    ensures
        final(keyboard).wf(),
        final(keyboard).spec_len() == old(keyboard).spec_len(),
        final(keyboard).autorepeat == old(keyboard).autorepeat,
        translate_keyboard_post(id, event, *old(keyboard), *final(keyboard), e),
{
    match event {
        RawKeyboardEvent::Key { up, repeat, keycode } => {
            if up {
                keyboard.set_is_down(keycode, false);
                keyboard.set_is_changed(keycode, true);
                keyboard.set_is_released(keycode, true);
                assert(keyboard.keys@ =~= old(keyboard).keys@.update(
                    keycode as int,
                    key_up_state(),
                ));
                Events::KeyboardEvents {
                    id,
                    event: KeyboardEvents::Key { keycode, action: Action::Release },
                }
            } else {
                keyboard.set_is_down(keycode, true);
                keyboard.set_is_changed(keycode, !repeat);
                if !keyboard.is_changed(keycode) {
                    assert(keyboard.keys@ =~= old(keyboard).keys@.update(
                        keycode as int,
                        key_down_state(old(keyboard).keys@[keycode as int], repeat),
                    ));
                    Events::KeyboardEvents {
                        id,
                        event: KeyboardEvents::Key { keycode, action: Action::Down },
                    }
                } else if keyboard.is_released(keycode) {
                    keyboard.set_is_released(keycode, false);
                    assert(keyboard.keys@ =~= old(keyboard).keys@.update(
                        keycode as int,
                        key_down_state(old(keyboard).keys@[keycode as int], repeat),
                    ));
                    Events::KeyboardEvents {
                        id,
                        event: KeyboardEvents::Key { keycode, action: Action::Press },
                    }
                } else {
                    assert(keyboard.keys@ =~= old(keyboard).keys@.update(
                        keycode as int,
                        key_down_state(old(keyboard).keys@[keycode as int], repeat),
                    ));
                    Events::Idle
                }
            }
        },
        RawKeyboardEvent::Char { keycode } => {
            keyboard.set_is_char(keycode, true);
            Events::KeyboardEvents { id, event: KeyboardEvents::Char { keycode } }
        },
    }
}

/// Translates a raw mouse notification, applying the button or motion
/// transition to the pointer state.
///
/// Buttons have no repeat concept: every down is a `Press`, every up a
/// `Release`. For extended buttons the packed mask routes the transition to
/// the right button slot; a mask naming no known button yields the idle
/// event and leaves the state untouched.
pub fn translate_mouse(id: usize, event: RawMouseEvent, mouse: &mut Mouse) -> (e: Events)
    ensures
        translate_mouse_post(id, event, *old(mouse), *final(mouse), e),
{
    match event {
        RawMouseEvent::Scroll { delta } => {
            let y_offset = scroll_notches(delta);
            Events::MouseEvents { id, event: MouseEvents::Scroll { y_offset } }
        },
        RawMouseEvent::LButton { up, pos } => {
            if up {
                mouse.set_l_button_down(false);
                mouse.set_l_button_released(true);
                mouse.set_l_button_changed(true);
                Events::MouseEvents { id, event: MouseEvents::LButton {
                    action: Action::Release,
                    pos,
                } }
            } else {
                mouse.set_l_button_down(true);
                mouse.set_l_button_released(false);
                mouse.set_l_button_changed(true);
                Events::MouseEvents { id, event: MouseEvents::LButton {
                    action: Action::Press,
                    pos,
                } }
            }
        },
        RawMouseEvent::RButton { up, pos } => {
            if up {
                mouse.set_r_button_down(false);
                mouse.set_r_button_released(true);
                mouse.set_r_button_changed(true);
                Events::MouseEvents { id, event: MouseEvents::RButton {
                    action: Action::Release,
                    pos,
                } }
            } else {
                mouse.set_r_button_down(true);
                mouse.set_r_button_released(false);
                mouse.set_r_button_changed(true);
                Events::MouseEvents { id, event: MouseEvents::RButton {
                    action: Action::Press,
                    pos,
                } }
            }
        },
        RawMouseEvent::MButton { up, pos } => {
            if up {
                mouse.set_m_button_down(false);
                mouse.set_m_button_released(true);
                mouse.set_m_button_changed(true);
                Events::MouseEvents { id, event: MouseEvents::MButton {
                    action: Action::Release,
                    pos,
                } }
            } else {
                mouse.set_m_button_down(true);
                mouse.set_m_button_released(false);
                mouse.set_m_button_changed(true);
                Events::MouseEvents { id, event: MouseEvents::MButton {
                    action: Action::Press,
                    pos,
                } }
            }
        },
        RawMouseEvent::XButton { up, mask, pos } => {
            if up {
                if hiword(mask) & XBUTTON1_FLAG != 0 {
                    mouse.set_x1_button_down(false);
                    mouse.set_x1_button_released(true);
                    mouse.set_x1_button_changed(true);
                    Events::MouseEvents { id, event: MouseEvents::X1Button {
                        action: Action::Release,
                        pos,
                    } }
                } else if hiword(mask) & XBUTTON2_FLAG != 0 {
                    mouse.set_x2_button_down(false);
                    mouse.set_x2_button_released(true);
                    mouse.set_x2_button_changed(true);
                    Events::MouseEvents { id, event: MouseEvents::X2Button {
                        action: Action::Release,
                        pos,
                    } }
                } else {
                    Events::Idle
                }
            } else {
                if loword(mask) & MK_XBUTTON1 != 0 {
                    mouse.set_x1_button_down(true);
                    mouse.set_x1_button_released(false);
                    mouse.set_x1_button_changed(true);
                    Events::MouseEvents { id, event: MouseEvents::X1Button {
                        action: Action::Press,
                        pos,
                    } }
                } else if loword(mask) & MK_XBUTTON2 != 0 {
                    mouse.set_x2_button_down(true);
                    mouse.set_x2_button_released(false);
                    mouse.set_x2_button_changed(true);
                    Events::MouseEvents { id, event: MouseEvents::X2Button {
                        action: Action::Press,
                        pos,
                    } }
                } else {
                    Events::Idle
                }
            }
        },
        RawMouseEvent::MouseMove { x, y } => {
            mouse.update_pos(x, y);
            let dx = mouse.x_offset();
            let dy = mouse.y_offset();
            Events::MouseEvents {
                id,
                event: MouseEvents::MouseMove {
                    x: mouse.x(),
                    y: mouse.y(),
                    last_x: mouse.last_x(),
                    last_y: mouse.last_y(),
                    dx,
                    dy,
                },
            }
        },
    }
}

/// A raw notification is well formed when any keycode it carries lies inside
/// the keyboard table.
pub open spec fn raw_wf(raw: RawEvent, n_keys: nat) -> bool {
    match raw {
        RawEvent::Keyboard { id, event } => raw_keyboard_wf(event, n_keys),
        _ => true,
    }
}

/// Translates one raw notification against the current keyboard and pointer
/// state. Window notifications touch no input state; keyboard and mouse
/// notifications update their respective tables; an unrecognized
/// notification yields the idle event and changes nothing.
pub fn translate(raw: RawEvent, keyboard: &mut Keyboard, mouse: &mut Mouse) -> (e: Events)
    requires
        old(keyboard).wf(),
        raw_wf(raw, old(keyboard).spec_len()),
    ensures
        final(keyboard).wf(),
        final(keyboard).spec_len() == old(keyboard).spec_len(),
        final(keyboard).autorepeat == old(keyboard).autorepeat,
        match raw {
            RawEvent::Window { id, event } => {
                &&& *final(keyboard) == *old(keyboard)
                &&& *final(mouse) == *old(mouse)
                &&& e == spec_window_event(id, event)
            },
            RawEvent::Keyboard { id, event } => {
                &&& *final(mouse) == *old(mouse)
                &&& translate_keyboard_post(id, event, *old(keyboard), *final(keyboard), e)
            },
            RawEvent::Mouse { id, event } => {
                &&& *final(keyboard) == *old(keyboard)
                &&& translate_mouse_post(id, event, *old(mouse), *final(mouse), e)
            },
            RawEvent::Unknown { id } => {
                &&& *final(keyboard) == *old(keyboard)
                &&& *final(mouse) == *old(mouse)
                &&& e == Events::Idle
            },
        },
{
    match raw {
        RawEvent::Window { id, event } => translate_window(id, event),
        RawEvent::Keyboard { id, event } => translate_keyboard(id, event, keyboard),
        RawEvent::Mouse { id, event } => translate_mouse(id, event, mouse),
        RawEvent::Unknown { id } => Events::Idle,
    }
}

/// What [`translate_keyboard`] guarantees, packaged for reuse in the
/// contracts of callers that forward to it.
pub open spec fn translate_keyboard_post(
    id: usize,
    event: RawKeyboardEvent,
    prior: Keyboard,
    updated: Keyboard,
    e: Events,
) -> bool {
    match event {
        RawKeyboardEvent::Key { up, repeat, keycode } => {
            &&& updated.chars@ == prior.chars@
            &&& (if up {
                &&& updated.keys@ == prior.keys@.update(keycode as int, key_up_state())
                &&& e == (Events::KeyboardEvents {
                    id,
                    event: KeyboardEvents::Key { keycode, action: Action::Release },
                })
            } else {
                &&& updated.keys@ == prior.keys@.update(
                    keycode as int,
                    key_down_state(prior.keys@[keycode as int], repeat),
                )
                &&& e == spec_key_down_event(id, keycode, prior.keys@[keycode as int], repeat)
            })
        },
        RawKeyboardEvent::Char { keycode } => {
            &&& updated.keys@ == prior.keys@
            &&& updated.chars@ == prior.chars@.update(keycode as int, true)
            &&& e == (Events::KeyboardEvents { id, event: KeyboardEvents::Char { keycode } })
        },
    }
}

/// What [`translate_mouse`] guarantees, packaged for reuse in the contracts
/// of callers that forward to it.
pub open spec fn translate_mouse_post(
    id: usize,
    event: RawMouseEvent,
    prior: Mouse,
    updated: Mouse,
    e: Events,
) -> bool {
    match event {
        RawMouseEvent::Scroll { delta } => {
            &&& updated == prior
            &&& e == (Events::MouseEvents {
                id,
                event: MouseEvents::Scroll { y_offset: notches_of(delta as int) as i16 },
            })
        },
        RawMouseEvent::LButton { up, pos } => {
            if up {
                &&& updated == (Mouse { l_button: button_up_state(), ..prior })
                &&& e == (Events::MouseEvents {
                    id,
                    event: MouseEvents::LButton { action: Action::Release, pos },
                })
            } else {
                &&& updated == (Mouse { l_button: button_down_state(), ..prior })
                &&& e == (Events::MouseEvents {
                    id,
                    event: MouseEvents::LButton { action: Action::Press, pos },
                })
            }
        },
        RawMouseEvent::RButton { up, pos } => {
            if up {
                &&& updated == (Mouse { r_button: button_up_state(), ..prior })
                &&& e == (Events::MouseEvents {
                    id,
                    event: MouseEvents::RButton { action: Action::Release, pos },
                })
            } else {
                &&& updated == (Mouse { r_button: button_down_state(), ..prior })
                &&& e == (Events::MouseEvents {
                    id,
                    event: MouseEvents::RButton { action: Action::Press, pos },
                })
            }
        },
        RawMouseEvent::MButton { up, pos } => {
            if up {
                &&& updated == (Mouse { m_button: button_up_state(), ..prior })
                &&& e == (Events::MouseEvents {
                    id,
                    event: MouseEvents::MButton { action: Action::Release, pos },
                })
            } else {
                &&& updated == (Mouse { m_button: button_down_state(), ..prior })
                &&& e == (Events::MouseEvents {
                    id,
                    event: MouseEvents::MButton { action: Action::Press, pos },
                })
            }
        },
        RawMouseEvent::XButton { up, mask, pos } => {
            if up {
                if spec_hiword(mask) & XBUTTON1_FLAG != 0 {
                    &&& updated == (Mouse { x1_button: button_up_state(), ..prior })
                    &&& e == (Events::MouseEvents {
                        id,
                        event: MouseEvents::X1Button { action: Action::Release, pos },
                    })
                } else if spec_hiword(mask) & XBUTTON2_FLAG != 0 {
                    &&& updated == (Mouse { x2_button: button_up_state(), ..prior })
                    &&& e == (Events::MouseEvents {
                        id,
                        event: MouseEvents::X2Button { action: Action::Release, pos },
                    })
                } else {
                    &&& updated == prior
                    &&& e == Events::Idle
                }
            } else {
                if spec_loword(mask) & MK_XBUTTON1 != 0 {
                    &&& updated == (Mouse { x1_button: button_down_state(), ..prior })
                    &&& e == (Events::MouseEvents {
                        id,
                        event: MouseEvents::X1Button { action: Action::Press, pos },
                    })
                } else if spec_loword(mask) & MK_XBUTTON2 != 0 {
                    &&& updated == (Mouse { x2_button: button_down_state(), ..prior })
                    &&& e == (Events::MouseEvents {
                        id,
                        event: MouseEvents::X2Button { action: Action::Press, pos },
                    })
                } else {
                    &&& updated == prior
                    &&& e == Events::Idle
                }
            }
        },
        RawMouseEvent::MouseMove { x, y } => {
            &&& updated == (Mouse { x, y, last_x: prior.x, last_y: prior.y, ..prior })
            &&& e == (Events::MouseEvents {
                id,
                event: MouseEvents::MouseMove {
                    x,
                    y,
                    last_x: prior.x,
                    last_y: prior.y,
                    dx: (x - prior.x) as i32,
                    dy: (y - prior.y) as i32,
                },
            })
        },
    }
}

} // verus!
