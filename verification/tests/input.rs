use gdcef::input::{
    get_control_char_code, is_keypad_key, is_modifier_key, is_navigation_key, key_events,
    keyboard_modifiers, mouse_button_action, mouse_button_modifiers, should_send_char_event,
    KeyEventType, KeyInput, MouseAction, MouseButtonType, EVENTFLAG_ALT_DOWN,
    EVENTFLAG_COMMAND_DOWN, EVENTFLAG_CONTROL_DOWN, EVENTFLAG_IS_KEY_PAD,
    EVENTFLAG_LEFT_MOUSE_BUTTON, EVENTFLAG_RIGHT_MOUSE_BUTTON, EVENTFLAG_SHIFT_DOWN,
};
use gdcef::keycode::{Key, TargetOs};

fn key(k: Key, pressed: bool, unicode: u32) -> KeyInput {
    KeyInput {
        keycode: k,
        physical_keycode: k,
        pressed,
        echo: false,
        unicode,
        shift_pressed: false,
        ctrl_pressed: false,
        alt_pressed: false,
        meta_pressed: false,
    }
}

#[test]
fn modifier_flags() {
    assert_eq!(keyboard_modifiers(true, false, true, false), EVENTFLAG_SHIFT_DOWN | EVENTFLAG_ALT_DOWN);
    assert_eq!(
        keyboard_modifiers(false, true, false, true),
        EVENTFLAG_CONTROL_DOWN | EVENTFLAG_COMMAND_DOWN
    );
    assert_eq!(mouse_button_modifiers(0b011), EVENTFLAG_LEFT_MOUSE_BUTTON | EVENTFLAG_RIGHT_MOUSE_BUTTON);
    assert_eq!(mouse_button_modifiers(0), 0);
}

#[test]
fn key_classes() {
    assert_eq!(get_control_char_code(Key::ENTER), 0x0D);
    assert_eq!(get_control_char_code(Key::KP_ENTER), 0x0D);
    assert_eq!(get_control_char_code(Key::BACKSPACE), 0x08);
    assert_eq!(get_control_char_code(Key::A), 0);
    assert!(is_navigation_key(Key::PAGEDOWN));
    assert!(!is_navigation_key(Key::A));
    assert!(is_modifier_key(Key::SHIFT));
    assert!(is_keypad_key(Key::KP_5));
    assert!(!is_keypad_key(Key::KEY_5));
    assert!(should_send_char_event(Key::A, 'a' as u32));
    assert!(!should_send_char_event(Key::A, 0));
    assert!(!should_send_char_event(Key::LEFT, 'x' as u32));
}

#[test]
fn pressing_a_letter_sends_rawkeydown_and_char() {
    let ev = key_events(&key(Key::A, true, 'a' as u32), false, TargetOs::Windows);
    assert_eq!(ev.len(), 2);
    assert_eq!(ev[0].type_, KeyEventType::RawKeyDown);
    assert_eq!(ev[0].windows_key_code, 0x41);
    assert_eq!(ev[0].character, 'a' as u16);
    assert_eq!(ev[1].type_, KeyEventType::Char);
    assert_eq!(ev[1].windows_key_code, 'a' as i32);
}

#[test]
fn editable_focus_suppresses_char_and_release_sends_keyup() {
    let ev = key_events(&key(Key::A, true, 'a' as u32), true, TargetOs::Linux);
    assert_eq!(ev.len(), 1);
    let up = key_events(&key(Key::A, false, 0), false, TargetOs::Linux);
    assert_eq!(up.len(), 1);
    assert_eq!(up[0].type_, KeyEventType::KeyUp);
    assert!(key_events(&key(Key::LEFT, false, 0), false, TargetOs::Linux).is_empty());
    assert!(key_events(&key(Key::NONE, true, 'x' as u32), false, TargetOs::Linux).is_empty());
}

#[test]
fn echo_and_keypad() {
    let mut k = key(Key::KP_1, true, '1' as u32);
    k.echo = true;
    let ev = key_events(&k, false, TargetOs::Windows);
    assert_eq!(ev[0].type_, KeyEventType::KeyDown);
    assert_eq!(ev[0].modifiers & EVENTFLAG_IS_KEY_PAD, EVENTFLAG_IS_KEY_PAD);
}

#[test]
fn mouse_buttons() {
    assert_eq!(
        mouse_button_action(1, true, false, 120),
        MouseAction::Click { button: MouseButtonType::Left, mouse_up: false, click_count: 1 }
    );
    assert_eq!(
        mouse_button_action(2, false, true, 120),
        MouseAction::Click { button: MouseButtonType::Right, mouse_up: true, click_count: 2 }
    );
    assert_eq!(mouse_button_action(4, true, false, 120), MouseAction::Wheel { delta_x: 0, delta_y: 120 });
    assert_eq!(mouse_button_action(5, true, false, 120), MouseAction::Wheel { delta_x: 0, delta_y: -120 });
    assert_eq!(mouse_button_action(6, true, false, 60), MouseAction::Wheel { delta_x: -60, delta_y: 0 });
    assert_eq!(mouse_button_action(7, true, false, 60), MouseAction::Wheel { delta_x: 60, delta_y: 0 });
    assert_eq!(mouse_button_action(9, true, false, 60), MouseAction::Ignore);
}
