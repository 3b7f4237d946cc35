use gdcef::cursor::{cef_cursor_to_cursor_type, cursor_type_to_shape, CursorShape, CursorType};

#[test]
fn cef_cursor_codes_map_to_cursor_types() {
    assert_eq!(cef_cursor_to_cursor_type(0), CursorType::Arrow);
    assert_eq!(cef_cursor_to_cursor_type(3), CursorType::IBeam);
    assert_eq!(cef_cursor_to_cursor_type(2), CursorType::Hand);
    assert_eq!(cef_cursor_to_cursor_type(7), CursorType::ResizeNS);
    assert_eq!(cef_cursor_to_cursor_type(15), CursorType::ResizeEW);
    assert_eq!(cef_cursor_to_cursor_type(16), CursorType::ResizeNESW);
    assert_eq!(cef_cursor_to_cursor_type(17), CursorType::ResizeNWSE);
    assert_eq!(cef_cursor_to_cursor_type(29), CursorType::Move);
    assert_eq!(cef_cursor_to_cursor_type(34), CursorType::Progress);
    assert_eq!(cef_cursor_to_cursor_type(38), CursorType::NotAllowed);
    assert_eq!(cef_cursor_to_cursor_type(41), CursorType::Arrow);
}

#[test]
fn cursor_types_map_to_godot_shapes() {
    assert_eq!(cursor_type_to_shape(CursorType::Hand), CursorShape::PointingHand);
    assert_eq!(cursor_type_to_shape(CursorType::ResizeNS), CursorShape::Vsize);
    assert_eq!(cursor_type_to_shape(CursorType::Progress), CursorShape::Busy);
    assert_eq!(cursor_type_to_shape(CursorType::NotAllowed).ord(), 8);
    assert_eq!(cursor_type_to_shape(CursorType::Help).ord(), 16);
    assert_eq!(CursorType::default(), CursorType::Arrow);
}
