use gdcef::keycode::{
    godot_key_to_linux_keycode, godot_key_to_macos_keycode, godot_key_to_native_keycode,
    godot_key_to_windows_keycode, Key, TargetOs,
};

// Windows virtual key code constants for testing.
const VK_A: i32 = 0x41;
const VK_Z: i32 = 0x5A;
const VK_0: i32 = 0x30;
const VK_9: i32 = 0x39;
const VK_RETURN: i32 = 0x0D;
const VK_ESCAPE: i32 = 0x1B;
const VK_SPACE: i32 = 0x20;
const VK_TAB: i32 = 0x09;
const VK_BACK: i32 = 0x08;
const VK_F1: i32 = 0x70;
const VK_F12: i32 = 0x7B;
const VK_NUMPAD0: i32 = 0x60;
const VK_NUMPAD9: i32 = 0x69;

// macOS virtual key codes from HIToolbox/Events.h.
const KVK_ANSI_A: i32 = 0x00;
const KVK_RETURN: i32 = 0x24;
const KVK_ESCAPE: i32 = 0x35;
const KVK_SPACE: i32 = 0x31;

// X11 keycodes (evdev + 8).
const XK_A: i32 = 38;
const XK_RETURN: i32 = 36;
const XK_ESCAPE: i32 = 9;
const XK_SPACE: i32 = 65;

#[test]
fn test_letter_keys_windows() {
    assert_eq!(godot_key_to_windows_keycode(Key::A), VK_A);
    assert_eq!(godot_key_to_windows_keycode(Key::Z), VK_Z);
}

#[test]
fn test_number_keys_windows() {
    assert_eq!(godot_key_to_windows_keycode(Key::KEY_0), VK_0);
    assert_eq!(godot_key_to_windows_keycode(Key::KEY_9), VK_9);
}

#[test]
fn test_control_keys_windows() {
    assert_eq!(godot_key_to_windows_keycode(Key::ENTER), VK_RETURN);
    assert_eq!(godot_key_to_windows_keycode(Key::ESCAPE), VK_ESCAPE);
    assert_eq!(godot_key_to_windows_keycode(Key::SPACE), VK_SPACE);
    assert_eq!(godot_key_to_windows_keycode(Key::TAB), VK_TAB);
    assert_eq!(godot_key_to_windows_keycode(Key::BACKSPACE), VK_BACK);
}

#[test]
fn test_function_keys_windows() {
    assert_eq!(godot_key_to_windows_keycode(Key::F1), VK_F1);
    assert_eq!(godot_key_to_windows_keycode(Key::F12), VK_F12);
}

#[test]
fn test_keypad_keys_windows() {
    assert_eq!(godot_key_to_windows_keycode(Key::KP_0), VK_NUMPAD0);
    assert_eq!(godot_key_to_windows_keycode(Key::KP_9), VK_NUMPAD9);
}

#[test]
fn test_macos_native_keys() {
    assert_eq!(godot_key_to_native_keycode(TargetOs::MacOs, Key::A), KVK_ANSI_A);
    assert_eq!(godot_key_to_native_keycode(TargetOs::MacOs, Key::ENTER), KVK_RETURN);
    assert_eq!(godot_key_to_native_keycode(TargetOs::MacOs, Key::ESCAPE), KVK_ESCAPE);
    assert_eq!(godot_key_to_native_keycode(TargetOs::MacOs, Key::SPACE), KVK_SPACE);
}

#[test]
fn test_linux_native_keys() {
    assert_eq!(godot_key_to_native_keycode(TargetOs::Linux, Key::A), XK_A);
    assert_eq!(godot_key_to_native_keycode(TargetOs::Linux, Key::ENTER), XK_RETURN);
    assert_eq!(godot_key_to_native_keycode(TargetOs::Linux, Key::ESCAPE), XK_ESCAPE);
    assert_eq!(godot_key_to_native_keycode(TargetOs::Linux, Key::SPACE), XK_SPACE);
}

#[test]
fn native_keycode_follows_the_target_os() {
    assert_eq!(godot_key_to_native_keycode(TargetOs::Windows, Key::A), VK_A);
    assert_eq!(godot_key_to_native_keycode(TargetOs::MacOs, Key::A), KVK_ANSI_A);
    assert_eq!(godot_key_to_native_keycode(TargetOs::Linux, Key::A), XK_A);
}

#[test]
fn unknown_keys_keep_their_value_on_windows_and_map_to_zero_elsewhere() {
    let key = Key::from_ord(4194370); // KEY_MENU
    assert_eq!(key, Key::Other(4194370));
    assert_eq!(godot_key_to_windows_keycode(key), 4194370);
    assert_eq!(godot_key_to_linux_keycode(key), 0);
    assert_eq!(godot_key_to_macos_keycode(key), 0);
}

#[test]
fn key_values_round_trip() {
    assert_eq!(Key::from_ord(65), Key::A);
    assert_eq!(Key::A.ord(), 65);
    assert_eq!(Key::ESCAPE.ord(), 4194305);
    assert_eq!(Key::from_ord(Key::KP_ENTER.ord()), Key::KP_ENTER);
    // A named key spelled as `Other` is read as the named key.
    assert_eq!(godot_key_to_windows_keycode(Key::Other(4194305)), VK_ESCAPE);
}
