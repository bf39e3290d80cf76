use dgews::common::Point;
use dgews::events::{Action, Events, MouseEvents, RawEvent, RawMouseEvent};
use dgews::keycodes;
use dgews::manager::Manager;
use dgews::mouse::Mouse;
use dgews::translator::{scroll_notches, translate_mouse};

#[test]
fn motion_delta_is_current_minus_previous() {
    let mut m = Mouse::new();
    m.update_pos(10, 20);
    m.update_pos(13, 25);
    assert_eq!(m.x_offset(), 3);
    assert_eq!(m.y_offset(), 5);
    assert_eq!(m.xy(), (13, 25));
    assert_eq!(m.last_xy(), (10, 20));
    assert_eq!(m.xy_offset(), (3, 5));
}

#[test]
fn motion_delta_resets_only_when_position_repeats() {
    let mut m = Mouse::new();
    m.update_pos(10, 20);
    m.update_pos(13, 25);
    assert_eq!(m.xy_offset(), (3, 5));
    // A repeated position zeroes the delta; nothing else does.
    m.update_pos(13, 25);
    assert_eq!(m.xy_offset(), (0, 0));
    m.update_pos(12, 25);
    assert_eq!(m.xy_offset(), (-1, 0));
}

#[test]
fn clear_button_states_touches_only_changed_flags() {
    let mut m = Mouse::new();
    m.update_pos(4, 4);
    m.set_l_button_down(true);
    m.set_l_button_changed(true);
    m.set_x2_button_released(true);
    m.set_x2_button_changed(true);
    m.clear_keystates();
    assert!(m.l_button().is_down());
    assert!(!m.l_button().is_changed());
    assert!(m.x2_button().is_released());
    assert!(!m.x2_button().is_changed());
    assert_eq!(m.xy(), (4, 4));
}

#[test]
fn plain_buttons_translate_to_press_and_release() {
    let mut m = Mouse::new();
    let pos = Point::new(5, 6);

    let e = translate_mouse(9, RawMouseEvent::LButton { up: false, pos }, &mut m);
    assert_eq!(
        e,
        Events::MouseEvents { id: 9, event: MouseEvents::LButton { action: Action::Press, pos } }
    );
    assert!(m.l_button().is_down());

    let e = translate_mouse(9, RawMouseEvent::LButton { up: true, pos }, &mut m);
    assert_eq!(
        e,
        Events::MouseEvents { id: 9, event: MouseEvents::LButton { action: Action::Release, pos } }
    );
    assert!(!m.l_button().is_down());
    assert!(m.l_button().is_released());

    let e = translate_mouse(9, RawMouseEvent::RButton { up: false, pos }, &mut m);
    assert_eq!(
        e,
        Events::MouseEvents { id: 9, event: MouseEvents::RButton { action: Action::Press, pos } }
    );

    let e = translate_mouse(9, RawMouseEvent::MButton { up: true, pos }, &mut m);
    assert_eq!(
        e,
        Events::MouseEvents { id: 9, event: MouseEvents::MButton { action: Action::Release, pos } }
    );
}

#[test]
fn extended_buttons_are_routed_by_mask() {
    let mut m = Mouse::new();
    let pos = Point::new(1, 2);

    // Down notifications carry the key-state bits in the low word.
    let e = translate_mouse(4, RawMouseEvent::XButton { up: false, mask: 0x0020, pos }, &mut m);
    assert_eq!(
        e,
        Events::MouseEvents { id: 4, event: MouseEvents::X1Button { action: Action::Press, pos } }
    );
    assert!(m.x1_button().is_down());

    let e = translate_mouse(4, RawMouseEvent::XButton { up: false, mask: 0x0040, pos }, &mut m);
    assert_eq!(
        e,
        Events::MouseEvents { id: 4, event: MouseEvents::X2Button { action: Action::Press, pos } }
    );

    // Up notifications carry the button number in the high word.
    let e = translate_mouse(4, RawMouseEvent::XButton { up: true, mask: 0x0001_0000, pos }, &mut m);
    assert_eq!(
        e,
        Events::MouseEvents {
            id: 4,
            event: MouseEvents::X1Button { action: Action::Release, pos }
        }
    );
    assert!(!m.x1_button().is_down());

    let e = translate_mouse(4, RawMouseEvent::XButton { up: true, mask: 0x0002_0000, pos }, &mut m);
    assert_eq!(
        e,
        Events::MouseEvents {
            id: 4,
            event: MouseEvents::X2Button { action: Action::Release, pos }
        }
    );

    // A mask that names no known button is absorbed silently.
    let before = m.clone();
    let e = translate_mouse(4, RawMouseEvent::XButton { up: true, mask: 0, pos }, &mut m);
    assert_eq!(e, Events::Idle);
    assert_eq!(m, before);
    let e = translate_mouse(4, RawMouseEvent::XButton { up: false, mask: 0, pos }, &mut m);
    assert_eq!(e, Events::Idle);
    assert_eq!(m, before);
}

#[test]
fn scroll_delta_is_normalized_to_notches() {
    assert_eq!(scroll_notches(0), 0);
    assert_eq!(scroll_notches(120), 1);
    assert_eq!(scroll_notches(-120), -1);
    assert_eq!(scroll_notches(240), 2);
    assert_eq!(scroll_notches(-360), -3);
    assert_eq!(scroll_notches(119), 0);
    assert_eq!(scroll_notches(-119), 0);
}

#[test]
fn scroll_event_carries_notch_count() {
    let mut m = Mouse::new();
    let e = translate_mouse(2, RawMouseEvent::Scroll { delta: -240 }, &mut m);
    assert_eq!(e, Events::MouseEvents { id: 2, event: MouseEvents::Scroll { y_offset: -2 } });
}

#[test]
fn mouse_move_event_reports_position_and_delta() {
    let mut m = Mouse::new();
    translate_mouse(1, RawMouseEvent::MouseMove { x: 10, y: 20 }, &mut m);
    let e = translate_mouse(1, RawMouseEvent::MouseMove { x: 13, y: 25 }, &mut m);
    assert_eq!(
        e,
        Events::MouseEvents {
            id: 1,
            event: MouseEvents::MouseMove { x: 13, y: 25, last_x: 10, last_y: 20, dx: 3, dy: 5 }
        }
    );
}

#[test]
fn get_mouse_button_derives_actions_per_button() {
    let mut m = Manager::new();
    let pos = Point::new(0, 0);
    assert_eq!(m.get_mouse_button(keycodes::LBUTTON), Action::Idle);

    m.process_raw(RawEvent::Mouse { id: 1, event: RawMouseEvent::LButton { up: false, pos } });
    assert_eq!(m.get_mouse_button(keycodes::LBUTTON), Action::Press);

    m.clear();
    assert_eq!(m.get_mouse_button(keycodes::LBUTTON), Action::Down);

    m.process_raw(RawEvent::Mouse { id: 1, event: RawMouseEvent::LButton { up: true, pos } });
    assert_eq!(m.get_mouse_button(keycodes::LBUTTON), Action::Release);

    m.clear();
    assert_eq!(m.get_mouse_button(keycodes::LBUTTON), Action::Idle);

    m.process_raw(RawEvent::Mouse { id: 1, event: RawMouseEvent::RButton { up: false, pos } });
    assert_eq!(m.get_mouse_button(keycodes::RBUTTON), Action::Press);
    m.process_raw(RawEvent::Mouse { id: 1, event: RawMouseEvent::MButton { up: false, pos } });
    assert_eq!(m.get_mouse_button(keycodes::MBUTTON), Action::Press);
    m.process_raw(RawEvent::Mouse {
        id: 1,
        event: RawMouseEvent::XButton { up: false, mask: 0x0020, pos },
    });
    assert_eq!(m.get_mouse_button(keycodes::XBUTTON1), Action::Press);
    m.process_raw(RawEvent::Mouse {
        id: 1,
        event: RawMouseEvent::XButton { up: false, mask: 0x0040, pos },
    });
    assert_eq!(m.get_mouse_button(keycodes::XBUTTON2), Action::Press);
}
