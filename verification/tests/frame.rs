use gdcef::composite::can_composite;
use gdcef::frame::{bgra_to_rgba, software_frame_update, FrameBuffer, PhysicalSize, PopupRect, PopupState};

#[test]
fn bgra_to_rgba_swaps_red_and_blue() {
    let bgra: Vec<u8> = (0u8..40).collect();
    let rgba = bgra_to_rgba(&bgra);
    assert_eq!(rgba.len(), 40);
    for p in 0..10 {
        let i = 4 * p;
        assert_eq!(rgba[i], bgra[i + 2]);
        assert_eq!(rgba[i + 1], bgra[i + 1]);
        assert_eq!(rgba[i + 2], bgra[i]);
        assert_eq!(rgba[i + 3], bgra[i + 3]);
    }
}

#[test]
fn bgra_to_rgba_zeroes_a_partial_pixel() {
    let bgra = vec![1u8, 2, 3, 4, 5, 6];
    assert_eq!(bgra_to_rgba(&bgra), vec![3, 2, 1, 4, 0, 0]);
    assert!(bgra_to_rgba(&[]).is_empty());
}

#[test]
fn converting_twice_gives_the_pixels_back() {
    let bgra: Vec<u8> = (0u16..64).map(|x| (x * 7 % 251) as u8).collect();
    assert_eq!(bgra_to_rgba(&bgra_to_rgba(&bgra)), bgra);
}

#[test]
fn frame_buffer_update_and_clean() {
    let mut fb = FrameBuffer::new();
    assert!(!fb.dirty && fb.data.is_empty());
    fb.update(vec![1, 2, 3, 4], 1, 1);
    assert!(fb.dirty);
    assert_eq!((fb.width, fb.height), (1, 1));
    fb.mark_clean();
    assert!(!fb.dirty);
    assert_eq!(fb.data, vec![1, 2, 3, 4]);
}

#[test]
fn popup_state_transitions() {
    let mut ps = PopupState::new();
    ps.set_visible(true);
    ps.update_buffer(vec![9; 16], 2, 2);
    ps.set_rect(3, 4, 2, 2);
    assert_eq!(ps.rect, PopupRect { x: 3, y: 4, width: 2, height: 2 });
    assert!(ps.dirty);
    ps.mark_clean();
    assert!(!ps.dirty);
    ps.set_visible(false);
    assert!(ps.buffer.is_empty() && ps.width == 0 && ps.height == 0 && ps.dirty);
}

#[test]
fn physical_size_new() {
    let s = PhysicalSize::new(3u32, 4u32);
    assert_eq!((s.width, s.height), (3, 4));
}

#[test]
fn frame_update_only_when_something_changed() {
    let mut fb = FrameBuffer::new();
    assert_eq!(software_frame_update(&fb, None, 0, 0), None);
    fb.update(vec![0; 4 * 4], 2, 2);
    assert_eq!(software_frame_update(&fb, None, 0, 0), Some(vec![0; 16]));
    fb.mark_clean();
    assert_eq!(software_frame_update(&fb, None, 0, 0), None);
}

#[test]
fn shown_popup_is_composited_onto_a_copy() {
    let mut fb = FrameBuffer::new();
    fb.update(vec![0; 4 * 4], 2, 2);
    fb.mark_clean();
    let mut ps = PopupState::new();
    ps.set_visible(true);
    ps.update_buffer(vec![7; 4], 1, 1);
    assert!(can_composite(2, 2, 1, 1, 1, 1));
    let out = software_frame_update(&fb, Some(&ps), 1, 1).unwrap();
    assert_eq!(out, vec![0, 0, 0, 0, 0, 0, 0, 0, 0, 0, 0, 0, 7, 7, 7, 7]);
    assert_eq!(fb.data, vec![0; 16]);
    ps.mark_clean();
    assert_eq!(software_frame_update(&fb, Some(&ps), 1, 1), None);
}

#[test]
fn can_composite_rejects_min_positions_and_overflow() {
    assert!(!can_composite(10, 10, 1, 1, i32::MIN, 0));
    assert!(!can_composite(10, 10, 1, 1, 0, i32::MIN));
    assert!(can_composite(10, 10, 5, 5, -3, -3));
    assert!(!can_composite(u32::MAX, u32::MAX, u32::MAX, u32::MAX, 0, 0));
    assert!(can_composite(0, 0, u32::MAX, u32::MAX, 0, 0));
}

use gdcef::frame::select_max_fps;

#[test]
fn frame_rate_prefers_the_engine_cap_then_the_screen() {
    assert_eq!(select_max_fps(144, 60), 144);
    assert_eq!(select_max_fps(0, 75), 75);
    assert_eq!(select_max_fps(0, 0), 60);
    assert_eq!(select_max_fps(-1, -1), 60);
}
