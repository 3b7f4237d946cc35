//! Decisions behind forwarding Godot input events to the browser: the
//! modifier flags, which key events CEF receives for a key press, and
//! what a mouse button does.

use vstd::prelude::*;

use crate::keycode::{
    canonical_key, godot_key_to_native_keycode, godot_key_to_windows_keycode, native_keycode_of,
    windows_keycode_of, Key, TargetOs,
};

verus! {

// CEF event flags (`cef_event_flags_t`).
pub const EVENTFLAG_SHIFT_DOWN: u32 = 2;

pub const EVENTFLAG_CONTROL_DOWN: u32 = 4;

pub const EVENTFLAG_ALT_DOWN: u32 = 8;

pub const EVENTFLAG_LEFT_MOUSE_BUTTON: u32 = 16;

pub const EVENTFLAG_MIDDLE_MOUSE_BUTTON: u32 = 32;

pub const EVENTFLAG_RIGHT_MOUSE_BUTTON: u32 = 64;

pub const EVENTFLAG_COMMAND_DOWN: u32 = 128;

pub const EVENTFLAG_IS_KEY_PAD: u32 = 512;

// Godot `MouseButtonMask` bits.
pub const MOUSE_BUTTON_MASK_LEFT: u32 = 1;

pub const MOUSE_BUTTON_MASK_RIGHT: u32 = 2;

pub const MOUSE_BUTTON_MASK_MIDDLE: u32 = 4;

pub open spec fn flag_if(b: bool, flag: u32) -> u32 {
    if b {
        flag
    } else {
        0
    }
}

pub open spec fn keyboard_flags(shift: bool, ctrl: bool, alt: bool, meta: bool) -> u32 {
    (flag_if(shift, EVENTFLAG_SHIFT_DOWN) + flag_if(ctrl, EVENTFLAG_CONTROL_DOWN) + flag_if(
        alt,
        EVENTFLAG_ALT_DOWN,
    ) + flag_if(meta, EVENTFLAG_COMMAND_DOWN)) as u32
}

/// The CEF modifier flags for the keyboard modifiers held down.
pub fn keyboard_modifiers(shift: bool, ctrl: bool, alt: bool, meta: bool) -> (r: u32)
    ensures
        r == keyboard_flags(shift, ctrl, alt, meta),
{
    let mut modifiers: u32 = 0;
    if shift {
        modifiers = modifiers + EVENTFLAG_SHIFT_DOWN;
    }
    if ctrl {
        modifiers = modifiers + EVENTFLAG_CONTROL_DOWN;
    }
    if alt {
        modifiers = modifiers + EVENTFLAG_ALT_DOWN;
    }
    if meta {
        modifiers = modifiers + EVENTFLAG_COMMAND_DOWN;
    }
    modifiers
}

pub open spec fn mask_has(mask: u32, bit: u32) -> bool {
    mask & bit == bit
}

pub open spec fn mouse_button_flags(mask: u32) -> u32 {
    (flag_if(mask_has(mask, MOUSE_BUTTON_MASK_LEFT), EVENTFLAG_LEFT_MOUSE_BUTTON) + flag_if(
        mask_has(mask, MOUSE_BUTTON_MASK_MIDDLE),
        EVENTFLAG_MIDDLE_MOUSE_BUTTON,
    ) + flag_if(mask_has(mask, MOUSE_BUTTON_MASK_RIGHT), EVENTFLAG_RIGHT_MOUSE_BUTTON)) as u32
}

/// The CEF modifier flags for the mouse buttons held down, given Godot's
/// button mask.
pub fn mouse_button_modifiers(button_mask: u32) -> (r: u32)
    ensures
        r == mouse_button_flags(button_mask),
{
    let mut modifiers: u32 = 0;
    if button_mask & MOUSE_BUTTON_MASK_LEFT == MOUSE_BUTTON_MASK_LEFT {
        modifiers = modifiers + EVENTFLAG_LEFT_MOUSE_BUTTON;
    }
    if button_mask & MOUSE_BUTTON_MASK_MIDDLE == MOUSE_BUTTON_MASK_MIDDLE {
        modifiers = modifiers + EVENTFLAG_MIDDLE_MOUSE_BUTTON;
    }
    if button_mask & MOUSE_BUTTON_MASK_RIGHT == MOUSE_BUTTON_MASK_RIGHT {
        modifiers = modifiers + EVENTFLAG_RIGHT_MOUSE_BUTTON;
    }
    modifiers
}

/// The ASCII control character that a special key types, 0 for others.
pub open spec fn control_char_of(k: Key) -> u16 {
    match k {
        Key::BACKSPACE => 0x08,
        Key::TAB => 0x09,
        Key::ENTER | Key::KP_ENTER => 0x0D,
        Key::ESCAPE => 0x1B,
        Key::DELETE => 0x7F,
        _ => 0,
    }
}

pub open spec fn is_navigation(k: Key) -> bool {
    matches!(
        k,
        Key::UP | Key::DOWN | Key::LEFT | Key::RIGHT | Key::HOME | Key::END | Key::PAGEUP
            | Key::PAGEDOWN
    )
}

pub open spec fn is_modifier(k: Key) -> bool {
    matches!(
        k,
        Key::SHIFT | Key::CTRL | Key::ALT | Key::META | Key::CAPSLOCK | Key::NUMLOCK
            | Key::SCROLLLOCK
    )
}

pub open spec fn is_keypad(k: Key) -> bool {
    matches!(
        k,
        Key::KP_0 | Key::KP_1 | Key::KP_2 | Key::KP_3 | Key::KP_4 | Key::KP_5 | Key::KP_6
            | Key::KP_7 | Key::KP_8 | Key::KP_9 | Key::KP_MULTIPLY | Key::KP_SUBTRACT
            | Key::KP_PERIOD | Key::KP_ADD | Key::KP_DIVIDE | Key::KP_ENTER
    )
}

/// Returns the ASCII control character code for special keys.
pub fn get_control_char_code(key: Key) -> (r: u16)
    ensures
        r == control_char_of(canonical_key(key)),
{
    match Key::from_ord(key.ord()) {
        Key::BACKSPACE => 0x08,
        Key::TAB => 0x09,
        Key::ENTER | Key::KP_ENTER => 0x0D,
        Key::ESCAPE => 0x1B,
        Key::DELETE => 0x7F,
        _ => 0,
    }
}

/// Checks if a key is a navigation key (arrows, home, end, page up/down).
pub fn is_navigation_key(key: Key) -> (r: bool)
    ensures
        r == is_navigation(canonical_key(key)),
{
    matches!(
        Key::from_ord(key.ord()),
        Key::UP | Key::DOWN | Key::LEFT | Key::RIGHT | Key::HOME | Key::END | Key::PAGEUP
            | Key::PAGEDOWN
    )
}

/// Checks if a key is a modifier key (these never type a character).
pub fn is_modifier_key(key: Key) -> (r: bool)
    ensures
        r == is_modifier(canonical_key(key)),
{
    matches!(
        Key::from_ord(key.ord()),
        Key::SHIFT | Key::CTRL | Key::ALT | Key::META | Key::CAPSLOCK | Key::NUMLOCK
            | Key::SCROLLLOCK
    )
}

/// Checks if a key is on the numeric keypad.
pub fn is_keypad_key(key: Key) -> (r: bool)
    ensures
        r == is_keypad(canonical_key(key)),
{
    matches!(
        Key::from_ord(key.ord()),
        Key::KP_0 | Key::KP_1 | Key::KP_2 | Key::KP_3 | Key::KP_4 | Key::KP_5 | Key::KP_6
            | Key::KP_7 | Key::KP_8 | Key::KP_9 | Key::KP_MULTIPLY | Key::KP_SUBTRACT
            | Key::KP_PERIOD | Key::KP_ADD | Key::KP_DIVIDE | Key::KP_ENTER
    )
}

pub open spec fn sends_char_event(k: Key, unicode: u32) -> bool {
    !is_modifier(k) && !is_navigation(k) && unicode != 0
}

/// Whether a key event is followed by a CHAR event: for keys that type a
/// character, but never for modifier or navigation keys.
pub fn should_send_char_event(key: Key, unicode: u32) -> (r: bool)
    ensures
        r == sends_char_event(canonical_key(key), unicode),
{
    if is_modifier_key(key) || is_navigation_key(key) {
        return false;
    }
    if unicode != 0 {
        return true;
    }
    false
}

/// A Godot key event, as far as the browser needs it.
#[derive(Clone, Copy, Debug, PartialEq, Eq)]
pub struct KeyInput {
    pub keycode: Key,
    pub physical_keycode: Key,
    pub pressed: bool,
    pub echo: bool,
    pub unicode: u32,
    pub shift_pressed: bool,
    pub ctrl_pressed: bool,
    pub alt_pressed: bool,
    pub meta_pressed: bool,
}

/// The kinds of key event CEF distinguishes.
#[derive(Clone, Copy, Debug, PartialEq, Eq, Structural)]
pub enum KeyEventType {
    RawKeyDown,
    KeyDown,
    KeyUp,
    Char,
}

/// A key event for CEF's `send_key_event`.
#[derive(Clone, Copy, Debug, PartialEq, Eq, Structural)]
pub struct KeyEventData {
    pub type_: KeyEventType,
    pub modifiers: u32,
    pub windows_key_code: i32,
    pub native_key_code: i32,
    pub character: u16,
    pub unmodified_character: u16,
    pub focus_on_editable_field: bool,
}

pub open spec fn key_event_modifiers(input: KeyInput) -> u32 {
    (keyboard_flags(input.shift_pressed, input.ctrl_pressed, input.alt_pressed, input.meta_pressed)
        + flag_if(is_keypad(canonical_key(input.physical_keycode)), EVENTFLAG_IS_KEY_PAD)) as u32
}

/// The character a key event carries: the typed character (truncated to
/// 16 bits), else the control character of the key.
pub open spec fn key_event_character(input: KeyInput) -> u16 {
    if input.unicode != 0 {
        input.unicode as u16
    } else {
        control_char_of(canonical_key(input.keycode))
    }
}

/// The key events the browser receives for a Godot key event that no
/// editor shortcut took: none for Godot's character-only `NONE` key; a
/// RAWKEYDOWN (KEYDOWN when repeating), then a CHAR for typed characters
/// unless an editable field has focus, on press; a KEYUP on release except
/// for navigation keys.
pub open spec fn key_events_of(input: KeyInput, focus: bool, os: TargetOs) -> Seq<KeyEventData> {
    let key = canonical_key(input.keycode);
    let modifiers = key_event_modifiers(input);
    let character = key_event_character(input);
    let event = |t: KeyEventType, wk: i32, nk: i32|
        KeyEventData {
            type_: t,
            modifiers,
            windows_key_code: wk,
            native_key_code: nk,
            character,
            unmodified_character: character,
            focus_on_editable_field: focus,
        };
    let wk = windows_keycode_of(key);
    let nk = native_keycode_of(os, key);
    if key == Key::NONE {
        Seq::empty()
    } else if input.pressed {
        let down = event(
            if input.echo {
                KeyEventType::KeyDown
            } else {
                KeyEventType::RawKeyDown
            },
            wk,
            nk,
        );
        if sends_char_event(key, input.unicode) && !focus {
            seq![down, event(KeyEventType::Char, character as i32, character as i32)]
        } else {
            seq![down]
        }
    } else if !is_navigation(key) {
        seq![event(KeyEventType::KeyUp, wk, nk)]
    } else {
        Seq::empty()
    }
}

/// The key events to send to the browser for `input`.
pub fn key_events(input: &KeyInput, focus_on_editable_field: bool, os: TargetOs) -> (r: Vec<
    KeyEventData,
>)
    ensures
        r@ == key_events_of(*input, focus_on_editable_field, os),
{
    let mut events: Vec<KeyEventData> = Vec::new();
    let keycode = Key::from_ord(input.keycode.ord());
    let mut modifiers = keyboard_modifiers(
        input.shift_pressed,
        input.ctrl_pressed,
        input.alt_pressed,
        input.meta_pressed,
    );
    if is_keypad_key(input.physical_keycode) {
        modifiers = modifiers + EVENTFLAG_IS_KEY_PAD;
    }
    if keycode == Key::NONE {
        return events;
    }
    let windows_key_code = godot_key_to_windows_keycode(keycode);
    let native_key_code = godot_key_to_native_keycode(os, keycode);
    let unicode = input.unicode;
    let character = if unicode != 0 {
        unicode as u16
    } else {
        get_control_char_code(keycode)
    };
    if input.pressed {
        events.push(
            KeyEventData {
                type_: if input.echo {
                    KeyEventType::KeyDown
                } else {
                    KeyEventType::RawKeyDown
                },
                modifiers,
                windows_key_code,
                native_key_code,
                character,
                unmodified_character: character,
                focus_on_editable_field,
            },
        );
        if should_send_char_event(keycode, unicode) && !focus_on_editable_field {
            events.push(
                KeyEventData {
                    type_: KeyEventType::Char,
                    modifiers,
                    windows_key_code: character as i32,
                    native_key_code: character as i32,
                    character,
                    unmodified_character: character,
                    focus_on_editable_field,
                },
            );
        }
    } else {
        if !is_navigation_key(keycode) {
            events.push(
                KeyEventData {
                    type_: KeyEventType::KeyUp,
                    modifiers,
                    windows_key_code,
                    native_key_code,
                    character,
                    unmodified_character: character,
                    focus_on_editable_field,
                },
            );
        }
    }
    assert(events@ =~= key_events_of(*input, focus_on_editable_field, os));
    events
}

/// The mouse buttons CEF tells apart.
#[derive(Clone, Copy, Debug, PartialEq, Eq, Structural)]
pub enum MouseButtonType {
    Left,
    Middle,
    Right,
}

/// What a Godot mouse button event becomes in the browser.
#[derive(Clone, Copy, Debug, PartialEq, Eq, Structural)]
pub enum MouseAction {
    Click { button: MouseButtonType, mouse_up: bool, click_count: i32 },
    Wheel { delta_x: i32, delta_y: i32 },
    Ignore,
}

// Godot `MouseButton` values.
pub const MOUSE_BUTTON_LEFT: i32 = 1;

pub const MOUSE_BUTTON_RIGHT: i32 = 2;

pub const MOUSE_BUTTON_MIDDLE: i32 = 3;

pub const MOUSE_BUTTON_WHEEL_UP: i32 = 4;

pub const MOUSE_BUTTON_WHEEL_DOWN: i32 = 5;

pub const MOUSE_BUTTON_WHEEL_LEFT: i32 = 6;

pub const MOUSE_BUTTON_WHEEL_RIGHT: i32 = 7;

pub open spec fn mouse_action_of(button: i32, pressed: bool, double_click: bool, wheel_delta: i32) -> MouseAction {
    let click = |b: MouseButtonType|
        MouseAction::Click {
            button: b,
            mouse_up: !pressed,
            click_count: if double_click { 2 } else { 1 },
        };
    if button == MOUSE_BUTTON_LEFT {
        click(MouseButtonType::Left)
    } else if button == MOUSE_BUTTON_MIDDLE {
        click(MouseButtonType::Middle)
    } else if button == MOUSE_BUTTON_RIGHT {
        click(MouseButtonType::Right)
    } else if button == MOUSE_BUTTON_WHEEL_UP {
        MouseAction::Wheel { delta_x: 0, delta_y: wheel_delta }
    } else if button == MOUSE_BUTTON_WHEEL_DOWN {
        MouseAction::Wheel { delta_x: 0, delta_y: -wheel_delta as i32 }
    } else if button == MOUSE_BUTTON_WHEEL_LEFT {
        MouseAction::Wheel { delta_x: -wheel_delta as i32, delta_y: 0 }
    } else if button == MOUSE_BUTTON_WHEEL_RIGHT {
        MouseAction::Wheel { delta_x: wheel_delta, delta_y: 0 }
    } else {
        MouseAction::Ignore
    }
}

/// What a mouse button event does in the browser: a click for the left,
/// middle and right buttons, a wheel scroll of `wheel_delta` (120 per
/// notch, scaled by the event's factor) for the wheel buttons, nothing
/// for others.
pub fn mouse_button_action(button: i32, pressed: bool, double_click: bool, wheel_delta: i32) -> (r:
    MouseAction)
    requires
        button == MOUSE_BUTTON_WHEEL_DOWN || button == MOUSE_BUTTON_WHEEL_LEFT ==> wheel_delta
            > i32::MIN,
    ensures
        r == mouse_action_of(button, pressed, double_click, wheel_delta),
{
    let click_count = if double_click {
        2
    } else {
        1
    };
    if button == MOUSE_BUTTON_LEFT {
        MouseAction::Click { button: MouseButtonType::Left, mouse_up: !pressed, click_count }
    } else if button == MOUSE_BUTTON_MIDDLE {
        MouseAction::Click { button: MouseButtonType::Middle, mouse_up: !pressed, click_count }
    } else if button == MOUSE_BUTTON_RIGHT {
        MouseAction::Click { button: MouseButtonType::Right, mouse_up: !pressed, click_count }
    } else if button == MOUSE_BUTTON_WHEEL_UP {
        MouseAction::Wheel { delta_x: 0, delta_y: wheel_delta }
    } else if button == MOUSE_BUTTON_WHEEL_DOWN {
        MouseAction::Wheel { delta_x: 0, delta_y: -wheel_delta }
    } else if button == MOUSE_BUTTON_WHEEL_LEFT {
        MouseAction::Wheel { delta_x: -wheel_delta, delta_y: 0 }
    } else if button == MOUSE_BUTTON_WHEEL_RIGHT {
        MouseAction::Wheel { delta_x: wheel_delta, delta_y: 0 }
    } else {
        MouseAction::Ignore
    }
}

/// Each flag of a sum of distinct single-bit flags is set exactly when its
/// term is present.
proof fn lemma_flag_bits(s: bool, c: bool, a: bool, m: bool, k: bool, x: u32)
    by (bit_vector)
    requires
        x == (if s { 2u32 } else { 0u32 }) + (if c { 4u32 } else { 0u32 }) + (if a { 8u32 } else {
            0u32
        }) + (if m { 128u32 } else { 0u32 }) + (if k { 512u32 } else { 0u32 }),
    ensures
        (x & 2 == 2) == s,
        (x & 4 == 4) == c,
        (x & 8 == 8) == a,
        (x & 128 == 128) == m,
        (x & 512 == 512) == k,
{
}

/// Every key event sent for an input carries each modifier flag exactly when
/// that modifier is held: Shift, Ctrl, Alt and Meta (Command), and the
/// keypad flag exactly for keys of the numeric keypad.
pub proof fn lemma_key_event_modifiers_match_input(input: KeyInput, focus: bool, os: TargetOs, i: int)
    requires
        0 <= i < key_events_of(input, focus, os).len(),
    ensures
        ({
            let m = key_events_of(input, focus, os)[i].modifiers;
            &&& mask_has(m, EVENTFLAG_SHIFT_DOWN) == input.shift_pressed
            &&& mask_has(m, EVENTFLAG_CONTROL_DOWN) == input.ctrl_pressed
            &&& mask_has(m, EVENTFLAG_ALT_DOWN) == input.alt_pressed
            &&& mask_has(m, EVENTFLAG_COMMAND_DOWN) == input.meta_pressed
            &&& mask_has(m, EVENTFLAG_IS_KEY_PAD) == is_keypad(canonical_key(input.physical_keycode))
        }),
{
    let kp = is_keypad(canonical_key(input.physical_keycode));
    let x = key_event_modifiers(input);
    assert(key_events_of(input, focus, os)[i].modifiers == x);
    lemma_flag_bits(input.shift_pressed, input.ctrl_pressed, input.alt_pressed, input.meta_pressed, kp, x);
}

/// The mouse flags of an event say exactly which buttons Godot's button
/// mask holds: left, middle and right.
pub proof fn lemma_mouse_flags_match_mask(mask: u32)
    ensures
        mask_has(mouse_button_flags(mask), EVENTFLAG_LEFT_MOUSE_BUTTON) == mask_has(mask, MOUSE_BUTTON_MASK_LEFT),
        mask_has(mouse_button_flags(mask), EVENTFLAG_MIDDLE_MOUSE_BUTTON) == mask_has(mask, MOUSE_BUTTON_MASK_MIDDLE),
        mask_has(mouse_button_flags(mask), EVENTFLAG_RIGHT_MOUSE_BUTTON) == mask_has(mask, MOUSE_BUTTON_MASK_RIGHT),
{
    let l = mask_has(mask, MOUSE_BUTTON_MASK_LEFT);
    let md = mask_has(mask, MOUSE_BUTTON_MASK_MIDDLE);
    let r = mask_has(mask, MOUSE_BUTTON_MASK_RIGHT);
    let x = mouse_button_flags(mask);
    assert(x == (if l { 16u32 } else { 0u32 }) + (if md { 32u32 } else { 0u32 }) + (if r { 64u32 } else { 0u32 }));
    assert((x & 16 == 16) == l && (x & 32 == 32) == md && (x & 64 == 64) == r) by (bit_vector)
        requires
            x == (if l { 16u32 } else { 0u32 }) + (if md { 32u32 } else { 0u32 }) + (if r { 64u32 } else { 0u32 }),
    ;
}

/// A Godot button press or release becomes a click of the button of the
/// same name, and only that Godot button gives a click of that CEF button;
/// the click is a release when the event is one, and a double click counts
/// two. The wheel buttons scroll by the event's delta, up and right
/// positively, down and left negatively; every other button does nothing.
pub proof fn lemma_mouse_button_actions(button: i32, pressed: bool, double_click: bool, delta: i32)
    requires
        button == MOUSE_BUTTON_WHEEL_DOWN || button == MOUSE_BUTTON_WHEEL_LEFT ==> delta > i32::MIN,
    ensures
        ({
            let a = mouse_action_of(button, pressed, double_click, delta);
            &&& (a matches MouseAction::Click { button: MouseButtonType::Left, .. }) <==> button
                == MOUSE_BUTTON_LEFT
            &&& (a matches MouseAction::Click { button: MouseButtonType::Middle, .. }) <==> button
                == MOUSE_BUTTON_MIDDLE
            &&& (a matches MouseAction::Click { button: MouseButtonType::Right, .. }) <==> button
                == MOUSE_BUTTON_RIGHT
            &&& a matches MouseAction::Click { mouse_up, click_count, .. } ==> mouse_up == !pressed
                && click_count == (if double_click { 2int } else { 1int })
            &&& button == MOUSE_BUTTON_WHEEL_UP ==> a == MouseAction::Wheel { delta_x: 0, delta_y: delta }
            &&& button == MOUSE_BUTTON_WHEEL_DOWN ==> a == MouseAction::Wheel { delta_x: 0, delta_y: -delta as i32 }
                && -delta == (-delta) as i32
            &&& button == MOUSE_BUTTON_WHEEL_RIGHT ==> a == MouseAction::Wheel { delta_x: delta, delta_y: 0 }
            &&& button == MOUSE_BUTTON_WHEEL_LEFT ==> a == MouseAction::Wheel { delta_x: -delta as i32, delta_y: 0 }
                && -delta == (-delta) as i32
            &&& !(1 <= button <= 7) ==> a == MouseAction::Ignore
        }),
{
}

} // verus!
