use dgews::events::{Action, Events, KeyboardEvents, RawEvent, RawKeyboardEvent};
use dgews::keyboard::Keyboard;
use dgews::keycodes;
use dgews::keystate::KeyState;
use dgews::manager::Manager;

#[test]
fn fresh_manager_reads_idle_for_every_key() {
    let m = Manager::new();
    for k in 0..256usize {
        assert_eq!(m.get_key(k), Action::Idle);
        assert!(!m.get_char(k));
    }
}

#[test]
fn key_lifecycle_press_down_release_idle() {
    let mut m = Manager::new();
    let k = keycodes::A;

    m.process_raw(RawEvent::Keyboard {
        id: 1,
        event: RawKeyboardEvent::Key { up: false, repeat: false, keycode: k },
    });
    assert_eq!(m.get_key(k), Action::Press);

    m.process_raw(RawEvent::Keyboard {
        id: 1,
        event: RawKeyboardEvent::Key { up: false, repeat: true, keycode: k },
    });
    assert_eq!(m.get_key(k), Action::Down);

    m.process_raw(RawEvent::Keyboard {
        id: 1,
        event: RawKeyboardEvent::Key { up: true, repeat: false, keycode: k },
    });
    assert_eq!(m.get_key(k), Action::Release);

    m.clear();
    assert_eq!(m.get_key(k), Action::Idle);
}

#[test]
fn clear_is_idempotent() {
    let mut m = Manager::new();
    let k = keycodes::SPACE;

    m.process_raw(RawEvent::Keyboard {
        id: 1,
        event: RawKeyboardEvent::Key { up: false, repeat: false, keycode: k },
    });
    assert!(m.keyboard.is_down(k));
    assert!(m.keyboard.is_changed(k));

    m.clear();
    assert!(!m.keyboard.is_changed(k));
    assert!(m.keyboard.is_down(k));

    m.clear();
    assert!(!m.keyboard.is_changed(k));
    assert!(m.keyboard.is_down(k));
    assert_eq!(m.get_key(k), Action::Down);
}

#[test]
fn char_flag_set_by_char_event_and_cleared_each_interval() {
    let mut m = Manager::new();
    let e = m.process_raw(RawEvent::Keyboard {
        id: 3,
        event: RawKeyboardEvent::Char { keycode: 117 },
    });
    assert_eq!(
        e,
        Events::KeyboardEvents { id: 3, event: KeyboardEvents::Char { keycode: 117 } }
    );
    assert!(m.get_char(117));
    assert!(!m.get_char(116));
    m.clear();
    assert!(!m.get_char(117));
}

#[test]
fn keystate_action_derivation_covers_all_four_cases() {
    assert_eq!(KeyState::new(true, false, false).action(), Action::Down);
    assert_eq!(KeyState::new(true, false, true).action(), Action::Press);
    assert_eq!(KeyState::new(false, false, true).action(), Action::Release);
    assert_eq!(KeyState::new(false, false, false).action(), Action::Idle);
}

#[test]
fn keystate_setters_write_each_bit() {
    let mut s = KeyState::new(false, false, false);
    s.set_down(true);
    assert!(s.is_down());
    s.set_released(true);
    assert!(s.is_released());
    s.set_changed(true);
    assert!(s.is_changed());
    s.set_down(false);
    assert!(!s.is_down());
    assert!(s.is_released());
}

#[test]
fn fresh_keystate_has_released_latch_set() {
    let s = KeyState::default();
    assert!(!s.is_down());
    assert!(!s.is_changed());
    assert!(s.is_released());
    assert_eq!(s.action(), Action::Idle);
}

#[test]
fn keyboard_table_covers_requested_size() {
    let mut kb = Keyboard::from_nkeys(true, 8);
    assert!(kb.autorepeat());
    for k in 0..8usize {
        assert!(!kb.is_down(k));
        assert!(kb.is_released(k));
        assert!(!kb.is_changed(k));
        assert!(!kb.is_char(k));
    }
    kb.replace(3, true, false, true);
    assert!(kb.is_down(3));
    assert!(!kb.is_released(3));
    assert!(kb.is_changed(3));
    kb.set_is_char(3, true);
    assert!(kb.is_char(3));
    kb.clear();
    assert!(kb.is_down(3));
    assert!(!kb.is_changed(3));
    assert!(!kb.is_char(3));
    kb.set_autorepeat(false);
    assert!(!kb.autorepeat());
}

#[test]
fn second_fresh_press_without_release_is_absorbed() {
    let mut m = Manager::new();
    let k = keycodes::Z;
    let first = m.process_raw(RawEvent::Keyboard {
        id: 1,
        event: RawKeyboardEvent::Key { up: false, repeat: false, keycode: k },
    });
    assert_eq!(
        first,
        Events::KeyboardEvents {
            id: 1,
            event: KeyboardEvents::Key { keycode: k, action: Action::Press }
        }
    );
    // The released latch was consumed by the first press, so a second
    // non-repeat down with no intervening up emits nothing beyond the
    // state update.
    let second = m.process_raw(RawEvent::Keyboard {
        id: 1,
        event: RawKeyboardEvent::Key { up: false, repeat: false, keycode: k },
    });
    assert_eq!(second, Events::Idle);
    assert_eq!(m.get_key(k), Action::Press);
}
