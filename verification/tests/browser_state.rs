use gdcef::browser_state::{ipc_route, DragDataInfo, DragEvent, DragState, IpcRoute};

fn data() -> DragDataInfo {
    DragDataInfo {
        is_link: false,
        is_file: true,
        is_fragment: false,
        link_url: String::new(),
        link_title: String::new(),
        fragment_text: String::new(),
        fragment_html: String::new(),
        file_names: vec!["a.txt".to_string()],
    }
}

#[test]
fn ipc_routes_by_message_name() {
    assert_eq!(ipc_route("ipcRendererToGodot"), IpcRoute::RendererToGodot);
    assert_eq!(ipc_route("triggerIme"), IpcRoute::TriggerIme);
    assert_eq!(ipc_route("imeCaretPosition"), IpcRoute::ImeCaretPosition);
    assert_eq!(ipc_route("somethingElse"), IpcRoute::Unknown);
    assert_eq!(ipc_route(""), IpcRoute::Unknown);
}

#[test]
fn drag_state_follows_godot_callbacks() {
    let mut s = DragState::default();
    s.drag_enter(17);
    assert!(s.is_drag_over);
    assert_eq!(s.allowed_ops, 17);
    s.drag_leave();
    assert!(!s.is_drag_over);
    s.drag_enter(-1);
    assert_eq!(s.allowed_ops, u32::MAX);
    s.drag_drop();
    assert!(!s.is_drag_over);
}

#[test]
fn drag_state_follows_browser_events() {
    let mut s = DragState::default();
    s.apply(&DragEvent::Started { drag_data: data(), x: 1, y: 2, allowed_ops: 3 });
    assert!(s.is_dragging_from_browser);
    assert_eq!(s.allowed_ops, 3);
    let before = s;
    s.apply(&DragEvent::UpdateCursor { operation: 1 });
    assert_eq!(s, before);
    s.apply(&DragEvent::Entered { drag_data: data(), mask: 1 });
    assert!(s.is_drag_over);
    s.drag_source_ended();
    assert!(!s.is_dragging_from_browser);
}

use gdcef::browser_state::{composition_underline, ime_selection, ImeChange, ImeCompositionRange, ImeState};

#[test]
fn only_the_latest_ime_request_counts() {
    let s = ImeState::default();
    assert_eq!(s.change_for(&[]), ImeChange::Keep);
    assert_eq!(s.change_for(&[false, true]), ImeChange::Activate);
    assert_eq!(s.change_for(&[true, false]), ImeChange::Keep);
    let active = ImeState { active: true, position_x: 0, position_y: 0 };
    assert_eq!(active.change_for(&[true, false]), ImeChange::Deactivate);
    assert_eq!(active.change_for(&[true]), ImeChange::Keep);
}

#[test]
fn caret_moves_the_candidate_window_only_while_composing() {
    let mut s = ImeState::default();
    let range = ImeCompositionRange { caret_x: 10, caret_y: 20, caret_height: 15 };
    assert!(!s.on_composition_range(range));
    assert_eq!(s, ImeState::default());
    s.apply(ImeChange::Activate);
    assert!(s.on_composition_range(range));
    assert_eq!((s.position_x, s.position_y), (10, 35));
    s.apply(ImeChange::Deactivate);
    assert!(!s.active);
}

#[test]
fn ime_selection_and_underline() {
    assert_eq!(ime_selection(-3, 4), (0, 4));
    assert_eq!(ime_selection(2, -1), (2, 0));
    assert_eq!(composition_underline("にほんご"), (0, 4));
    assert_eq!(composition_underline(""), (0, 0));
}
