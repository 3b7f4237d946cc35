use gdcef::lifecycle::CefState;

#[test]
fn first_user_initializes_and_last_user_shuts_down() {
    let mut s = CefState::new();
    assert!(s.needs_initialization());
    s.retained(true);
    assert!(!s.needs_initialization());
    s.retained(false);
    s.retained(false);
    assert_eq!(s.ref_count, 3);
    assert!(!s.release());
    assert!(!s.release());
    assert!(s.release());
    assert_eq!(s, CefState::new());
    assert!(!s.release());
    assert_eq!(s, CefState::new());
}

#[test]
fn release_without_initialization_shuts_nothing_down() {
    let mut s = CefState::new();
    s.retained(false);
    assert!(!s.release());
    assert_eq!(s.ref_count, 0);
}
