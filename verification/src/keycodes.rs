//! Virtual keycodes and mouse button codes, following the OS numbering.

use vstd::prelude::*;

verus! {

/// Number of entries in the keyboard tables: the full OS virtual-keycode
/// range fits below this bound.
pub const KEY_TABLE_SIZE: usize = 256;

/// Code of the left mouse button.
pub const LBUTTON: usize = 0x01;

/// Code of the right mouse button.
pub const RBUTTON: usize = 0x02;

/// Code of the middle mouse button.
pub const MBUTTON: usize = 0x04;

/// Code of the first extended mouse button.
pub const XBUTTON1: usize = 0x05;

/// Code of the second extended mouse button.
pub const XBUTTON2: usize = 0x06;

/// Keycode of the Cancel key.
pub const CANCEL: usize = 0x03;

/// Keycode of the Backspace key.
pub const BACKSPACE: usize = 0x08;

/// Keycode of the Tab key.
pub const TAB: usize = 0x09;

/// Keycode of the Clear key.
pub const CLEAR: usize = 0x0C;

/// Keycode of the Return key.
pub const RETURN: usize = 0x0D;

/// Keycode of the Shift modifier.
pub const SHIFT: usize = 0x10;

/// Keycode of the Control modifier.
pub const CONTROL: usize = 0x11;

/// Keycode of the Alt modifier.
pub const ALT: usize = 0x12;

/// Keycode of the Pause key.
pub const PAUSE: usize = 0x13;

/// Keycode of the Caps Lock key.
pub const CAPITAL: usize = 0x14;

/// Keycode of the Escape key.
pub const ESCAPE: usize = 0x1B;

/// Keycode of the space bar.
pub const SPACE: usize = 0x20;

/// Keycode of the Page Up key.
pub const PRIOR: usize = 0x21;

/// Keycode of the Page Down key.
pub const NEXT: usize = 0x22;

/// Keycode of the End key.
pub const END: usize = 0x23;

/// Keycode of the Home key.
pub const HOME: usize = 0x24;

/// Keycode of the left arrow key.
pub const LEFT: usize = 0x25;

/// Keycode of the up arrow key.
pub const UP: usize = 0x26;

/// Keycode of the right arrow key.
pub const RIGHT: usize = 0x27;

/// Keycode of the down arrow key.
pub const DOWN: usize = 0x28;

/// Keycode of the Select key.
pub const SELECT: usize = 0x29;

/// Keycode of the Print key.
pub const PRINT: usize = 0x2A;

/// Keycode of the Insert key.
pub const INSERT: usize = 0x2D;

/// Keycode of the Delete key.
pub const DELETE: usize = 0x2E;

/// Keycode of the Help key.
pub const HELP: usize = 0x2F;

/// Keycode of the digit 0 key.
pub const KEY_0: usize = 0x30;

/// Keycode of the digit 1 key.
pub const KEY_1: usize = 0x31;

/// Keycode of the digit 2 key.
pub const KEY_2: usize = 0x32;

/// Keycode of the digit 3 key.
pub const KEY_3: usize = 0x33;

/// Keycode of the digit 4 key.
pub const KEY_4: usize = 0x34;

/// Keycode of the digit 5 key.
pub const KEY_5: usize = 0x35;

/// Keycode of the digit 6 key.
pub const KEY_6: usize = 0x36;

/// Keycode of the digit 7 key.
pub const KEY_7: usize = 0x37;

/// Keycode of the digit 8 key.
pub const KEY_8: usize = 0x38;

/// Keycode of the digit 9 key.
pub const KEY_9: usize = 0x39;

/// Keycode of the A key.
pub const A: usize = 0x41;

/// Keycode of the B key.
pub const B: usize = 0x42;

/// Keycode of the C key.
pub const C: usize = 0x43;

/// Keycode of the D key.
pub const D: usize = 0x44;

/// Keycode of the E key.
pub const E: usize = 0x45;

/// Keycode of the F key.
pub const F: usize = 0x46;

/// Keycode of the G key.
pub const G: usize = 0x47;

/// Keycode of the H key.
pub const H: usize = 0x48;

/// Keycode of the I key.
pub const I: usize = 0x49;

/// Keycode of the J key.
pub const J: usize = 0x4A;

/// Keycode of the K key.
pub const K: usize = 0x4B;

/// Keycode of the L key.
pub const L: usize = 0x4C;

/// Keycode of the M key.
pub const M: usize = 0x4D;

/// Keycode of the N key.
pub const N: usize = 0x4E;

/// Keycode of the O key.
pub const O: usize = 0x4F;

/// Keycode of the P key.
pub const P: usize = 0x50;

/// Keycode of the Q key.
pub const Q: usize = 0x51;

/// Keycode of the R key.
pub const R: usize = 0x52;

/// Keycode of the S key.
pub const S: usize = 0x53;

/// Keycode of the T key.
pub const T: usize = 0x54;

/// Keycode of the U key.
pub const U: usize = 0x55;

/// Keycode of the V key.
pub const V: usize = 0x56;

/// Keycode of the W key.
pub const W: usize = 0x57;

/// Keycode of the X key.
pub const X: usize = 0x58;

/// Keycode of the Y key.
pub const Y: usize = 0x59;

/// Keycode of the Z key.
pub const Z: usize = 0x5A;

/// Keycode of the left Windows key.
pub const LWIN: usize = 0x5B;

/// Keycode of the right Windows key.
pub const RWIN: usize = 0x5C;

/// Keycode of the Applications key.
pub const APPS: usize = 0x5D;

/// Keycode of the numeric keypad 0 key.
pub const NUMPAD0: usize = 0x60;

/// Keycode of the numeric keypad 1 key.
pub const NUMPAD1: usize = 0x61;

/// Keycode of the numeric keypad 2 key.
pub const NUMPAD2: usize = 0x62;

/// Keycode of the numeric keypad 3 key.
pub const NUMPAD3: usize = 0x63;

/// Keycode of the numeric keypad 4 key.
pub const NUMPAD4: usize = 0x64;

/// Keycode of the numeric keypad 5 key.
pub const NUMPAD5: usize = 0x65;

/// Keycode of the numeric keypad 6 key.
pub const NUMPAD6: usize = 0x66;

/// Keycode of the numeric keypad 7 key.
pub const NUMPAD7: usize = 0x67;

/// Keycode of the numeric keypad 8 key.
pub const NUMPAD8: usize = 0x68;

/// Keycode of the numeric keypad 9 key.
pub const NUMPAD9: usize = 0x69;

/// Keycode of the keypad multiply key.
pub const MULTIPLY: usize = 0x6A;

/// Keycode of the keypad add key.
pub const ADD_KEY: usize = 0x6B;

/// Keycode of the keypad separator key.
pub const SEPARATOR: usize = 0x6C;

/// Keycode of the keypad subtract key.
pub const SUBTRACT_KEY: usize = 0x6D;

/// Keycode of the keypad decimal key.
pub const DECIMAL: usize = 0x6E;

/// Keycode of the keypad divide key.
pub const DIVIDE: usize = 0x6F;

/// Keycode of the F1 key.
pub const F1: usize = 0x70;

/// Keycode of the F2 key.
pub const F2: usize = 0x71;

/// Keycode of the F3 key.
pub const F3: usize = 0x72;

/// Keycode of the F4 key.
pub const F4: usize = 0x73;

/// Keycode of the F5 key.
pub const F5: usize = 0x74;

/// Keycode of the F6 key.
pub const F6: usize = 0x75;

/// Keycode of the F7 key.
pub const F7: usize = 0x76;

/// Keycode of the F8 key.
pub const F8: usize = 0x77;

/// Keycode of the F9 key.
pub const F9: usize = 0x78;

/// Keycode of the F10 key.
pub const F10: usize = 0x79;

/// Keycode of the F11 key.
pub const F11: usize = 0x7A;

/// Keycode of the F12 key.
pub const F12: usize = 0x7B;

/// Keycode of the Num Lock key.
pub const NUMLOCK: usize = 0x90;

/// Keycode of the Scroll Lock key.
pub const SCROLL: usize = 0x91;

/// Keycode of the left Shift key.
pub const LSHIFT: usize = 0xA0;

/// Keycode of the right Shift key.
pub const RSHIFT: usize = 0xA1;

/// Keycode of the left Control key.
pub const LCONTROL: usize = 0xA2;

/// Keycode of the right Control key.
pub const RCONTROL: usize = 0xA3;

/// Keycode of the left Alt key.
pub const LMENU: usize = 0xA4;

/// Keycode of the right Alt key.
pub const RMENU: usize = 0xA5;

} // verus!
