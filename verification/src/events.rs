//! The event vocabulary: raw notifications as the OS message pump delivers
//! them, and the semantic events the consumer observes.

use vstd::prelude::*;

use crate::common::Point;

verus! {

/// The state of a key or button, derived from its `down` and `changed` bits.
#[derive(Debug, Copy, Clone, PartialEq, Eq, Structural)]
pub enum Action {
    /// The key has just gone down in this polling interval.
    Press,
    /// The key has just gone up in this polling interval.
    Release,
    /// The key is held down, with no transition this interval.
    Down,
    /// The key is idle.
    Idle,
}

/// A semantic event as observed by the consumer.
#[derive(Copy, Clone, Debug, PartialEq, Eq, Structural)]
pub enum Events {
    /// Window lifecycle events, such as moving or resizing.
    WindowEvents { id: usize, event: WindowEvents },
    /// Keyboard events, such as pressing a key.
    KeyboardEvents { id: usize, event: KeyboardEvents },
    /// Mouse events, such as releasing a button or scrolling.
    MouseEvents { id: usize, event: MouseEvents },
    /// The idle event: nothing is happening.
    Idle,
}

impl Default for Events {
    /// The idle event.
    fn default() -> (e: Self)
        ensures
            e == Events::Idle,
    {
        Events::Idle
    }
}

/// Window lifecycle events.
#[derive(Copy, Clone, Debug, PartialEq, Eq, Structural)]
pub enum WindowEvents {
    /// A window was created.
    Create,
    /// A window was closed.
    Close,
    /// A window was maximized to the given framebuffer size.
    Maximized { width: i32, height: i32 },
    /// A window was minimized; the reported size accompanies it.
    Minimized { width: i32, height: i32 },
    /// A window's framebuffer size changed without being maximized or
    /// minimized.
    FramebufferChanged { width: i32, height: i32 },
    /// A window moved to the given position.
    Moved { x: i32, y: i32 },
    /// A window gained the input focus.
    SetFocus,
    /// A window lost the input focus.
    LostFocus,
    /// A window asked to be repainted.
    RedrawRequested,
}

/// Keyboard events.
#[derive(Debug, Copy, Clone, PartialEq, Eq, Structural)]
pub enum KeyboardEvents {
    /// A key went down, up, or is being held; `action` tells which.
    Key { keycode: usize, action: Action },
    /// A character-producing key fired. Unlike `Key`, this is sensitive to
    /// the case of the typed character.
    Char { keycode: usize },
}

/// Mouse events.
#[derive(Debug, Copy, Clone, PartialEq, Eq, Structural)]
pub enum MouseEvents {
    /// The wheel scrolled by the given number of notches; positive is away
    /// from the user.
    Scroll { y_offset: i16 },
    /// The left button was pressed or released at the given position.
    LButton { action: Action, pos: Point },
    /// The right button was pressed or released at the given position.
    RButton { action: Action, pos: Point },
    /// The middle button was pressed or released at the given position.
    MButton { action: Action, pos: Point },
    /// The first extended button was pressed or released.
    X1Button { action: Action, pos: Point },
    /// The second extended button was pressed or released.
    X2Button { action: Action, pos: Point },
    /// The cursor moved: `(x, y)` is the new position, `(last_x, last_y)`
    /// the previous one, and `(dx, dy)` the delta between them.
    MouseMove { x: i16, y: i16, last_x: i16, last_y: i16, dx: i32, dy: i32 },
}

/// The kind tag carried by a raw resize notification.
#[derive(Copy, Clone, Debug, PartialEq, Eq, Structural)]
pub enum ResizeKind {
    /// The window was maximized.
    Maximized,
    /// The window was minimized.
    Minimized,
    /// Any other size change.
    Normal,
}

/// A raw notification, as delivered by the OS message pump on the producer
/// side. Each carries the opaque integer handle of the window it came from.
#[derive(Copy, Clone, Debug, PartialEq, Eq, Structural)]
pub enum RawEvent {
    /// A window lifecycle notification.
    Window { id: usize, event: RawWindowEvent },
    /// A keyboard notification.
    Keyboard { id: usize, event: RawKeyboardEvent },
    /// A mouse notification.
    Mouse { id: usize, event: RawMouseEvent },
    /// A notification kind irrelevant to this layer; absorbed silently.
    Unknown { id: usize },
}

/// Raw window lifecycle notifications.
#[derive(Copy, Clone, Debug, PartialEq, Eq, Structural)]
pub enum RawWindowEvent {
    /// The window was created.
    Create,
    /// The window was destroyed.
    Close,
    /// The window was resized; the kind tag tells how.
    Resize { kind: ResizeKind, width: i32, height: i32 },
    /// The window was moved.
    Moved { x: i32, y: i32 },
    /// The window gained the input focus.
    SetFocus,
    /// The window lost the input focus.
    LostFocus,
    /// The window asked to be repainted.
    RedrawRequested,
}

/// Raw keyboard notifications.
#[derive(Debug, Copy, Clone, PartialEq, Eq, Structural)]
pub enum RawKeyboardEvent {
    /// A key transition. `up` tells the direction; on a down transition,
    /// `repeat` is the autorepeat indicator: true when the hardware re-sent
    /// key-down while the key was already held.
    Key { up: bool, repeat: bool, keycode: usize },
    /// A character code was typed.
    Char { keycode: usize },
}

/// Raw mouse notifications.
#[derive(Debug, Copy, Clone, PartialEq, Eq, Structural)]
pub enum RawMouseEvent {
    /// The wheel moved by a raw hardware delta, a multiple of the notch
    /// quantum for ordinary wheels.
    Scroll { delta: i16 },
    /// Left button transition at the given position.
    LButton { up: bool, pos: Point },
    /// Right button transition at the given position.
    RButton { up: bool, pos: Point },
    /// Middle button transition at the given position.
    MButton { up: bool, pos: Point },
    /// Extended button transition. The OS multiplexes several extended
    /// buttons onto one message kind; `mask` carries the packed button
    /// identification word that the translator inspects.
    XButton { up: bool, mask: u32, pos: Point },
    /// The cursor moved to the given position.
    MouseMove { x: i16, y: i16 },
}

} // verus!
