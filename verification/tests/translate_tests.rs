use dgews::events::{
    Action, Events, KeyboardEvents, RawEvent, RawKeyboardEvent, RawWindowEvent, ResizeKind,
    WindowEvents,
};
use dgews::keyboard::Keyboard;
use dgews::manager::Manager;
use dgews::mouse::Mouse;
use dgews::translator::{translate, translate_keyboard, translate_window};

#[test]
fn key_scenario_press_down_release_events() {
    let mut m = Manager::new();

    let e = m.process_raw(RawEvent::Keyboard {
        id: 1,
        event: RawKeyboardEvent::Key { up: false, repeat: false, keycode: 65 },
    });
    assert_eq!(
        e,
        Events::KeyboardEvents {
            id: 1,
            event: KeyboardEvents::Key { keycode: 65, action: Action::Press }
        }
    );

    let e = m.process_raw(RawEvent::Keyboard {
        id: 1,
        event: RawKeyboardEvent::Key { up: false, repeat: true, keycode: 65 },
    });
    assert_eq!(
        e,
        Events::KeyboardEvents {
            id: 1,
            event: KeyboardEvents::Key { keycode: 65, action: Action::Down }
        }
    );

    let e = m.process_raw(RawEvent::Keyboard {
        id: 1,
        event: RawKeyboardEvent::Key { up: true, repeat: false, keycode: 65 },
    });
    assert_eq!(
        e,
        Events::KeyboardEvents {
            id: 1,
            event: KeyboardEvents::Key { keycode: 65, action: Action::Release }
        }
    );
}

#[test]
fn resize_bifurcates_on_kind() {
    let e = translate_window(
        2,
        RawWindowEvent::Resize { kind: ResizeKind::Maximized, width: 800, height: 600 },
    );
    assert_eq!(
        e,
        Events::WindowEvents { id: 2, event: WindowEvents::Maximized { width: 800, height: 600 } }
    );

    let e = translate_window(
        2,
        RawWindowEvent::Resize { kind: ResizeKind::Normal, width: 640, height: 480 },
    );
    assert_eq!(
        e,
        Events::WindowEvents {
            id: 2,
            event: WindowEvents::FramebufferChanged { width: 640, height: 480 }
        }
    );

    let e = translate_window(
        2,
        RawWindowEvent::Resize { kind: ResizeKind::Minimized, width: 0, height: 0 },
    );
    assert_eq!(
        e,
        Events::WindowEvents { id: 2, event: WindowEvents::Minimized { width: 0, height: 0 } }
    );
}

#[test]
fn window_lifecycle_maps_one_to_one() {
    assert_eq!(
        translate_window(7, RawWindowEvent::Create),
        Events::WindowEvents { id: 7, event: WindowEvents::Create }
    );
    assert_eq!(
        translate_window(7, RawWindowEvent::Close),
        Events::WindowEvents { id: 7, event: WindowEvents::Close }
    );
    assert_eq!(
        translate_window(7, RawWindowEvent::Moved { x: 30, y: 40 }),
        Events::WindowEvents { id: 7, event: WindowEvents::Moved { x: 30, y: 40 } }
    );
    assert_eq!(
        translate_window(7, RawWindowEvent::SetFocus),
        Events::WindowEvents { id: 7, event: WindowEvents::SetFocus }
    );
    assert_eq!(
        translate_window(7, RawWindowEvent::LostFocus),
        Events::WindowEvents { id: 7, event: WindowEvents::LostFocus }
    );
    assert_eq!(
        translate_window(7, RawWindowEvent::RedrawRequested),
        Events::WindowEvents { id: 7, event: WindowEvents::RedrawRequested }
    );
}

#[test]
fn unrecognized_notification_is_absorbed_as_idle() {
    let mut kb = Keyboard::new(false);
    let mut mouse = Mouse::new();
    let e = translate(RawEvent::Unknown { id: 5 }, &mut kb, &mut mouse);
    assert_eq!(e, Events::Idle);
    assert!(!kb.is_down(65));
    assert!(!mouse.l_button().is_down());
}

#[test]
fn window_translation_leaves_input_state_alone() {
    let mut kb = Keyboard::new(false);
    let mut mouse = Mouse::new();
    translate(
        RawEvent::Window {
            id: 8,
            event: RawWindowEvent::Resize { kind: ResizeKind::Normal, width: 1, height: 1 },
        },
        &mut kb,
        &mut mouse,
    );
    for k in 0..256usize {
        assert!(!kb.is_down(k));
        assert!(!kb.is_changed(k));
    }
    assert!(!mouse.l_button().is_changed());
}

#[test]
fn release_latch_restores_press_after_repeat_storm() {
    let mut kb = Keyboard::new(false);
    // Hold a key: first down, then a storm of repeats.
    let e = translate_keyboard(
        1,
        RawKeyboardEvent::Key { up: false, repeat: false, keycode: 32 },
        &mut kb,
    );
    assert_eq!(
        e,
        Events::KeyboardEvents {
            id: 1,
            event: KeyboardEvents::Key { keycode: 32, action: Action::Press }
        }
    );
    for _ in 0..3 {
        let e = translate_keyboard(
            1,
            RawKeyboardEvent::Key { up: false, repeat: true, keycode: 32 },
            &mut kb,
        );
        assert_eq!(
            e,
            Events::KeyboardEvents {
                id: 1,
                event: KeyboardEvents::Key { keycode: 32, action: Action::Down }
            }
        );
    }
    // Release, then press again: the latch makes the new press report.
    translate_keyboard(1, RawKeyboardEvent::Key { up: true, repeat: false, keycode: 32 }, &mut kb);
    let e = translate_keyboard(
        1,
        RawKeyboardEvent::Key { up: false, repeat: false, keycode: 32 },
        &mut kb,
    );
    assert_eq!(
        e,
        Events::KeyboardEvents {
            id: 1,
            event: KeyboardEvents::Key { keycode: 32, action: Action::Press }
        }
    );
}
