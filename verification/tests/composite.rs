use gdcef::composite::{composite_popup, DestBuffer, PopupBuffer};

fn frame(w: u32, h: u32) -> Vec<u8> {
    vec![0u8; (w * h * 4) as usize]
}

#[test]
fn popup_inside_the_frame_is_copied_row_by_row() {
    let mut data = frame(4, 3);
    let popup: Vec<u8> = (1u8..=16).collect(); // 2x2 pixels
    composite_popup(
        &mut DestBuffer { data: &mut data, width: 4, height: 3 },
        &PopupBuffer { data: &popup, width: 2, height: 2, x: 1, y: 1 },
    );
    let row1 = &data[16..32];
    assert_eq!(row1, &[0, 0, 0, 0, 1, 2, 3, 4, 5, 6, 7, 8, 0, 0, 0, 0]);
    let row2 = &data[32..48];
    assert_eq!(row2, &[0, 0, 0, 0, 9, 10, 11, 12, 13, 14, 15, 16, 0, 0, 0, 0]);
    assert_eq!(&data[0..16], &[0u8; 16]);
}

#[test]
fn popup_off_the_top_left_is_clipped() {
    let mut data = frame(2, 2);
    let popup: Vec<u8> = (1u8..=16).collect();
    composite_popup(
        &mut DestBuffer { data: &mut data, width: 2, height: 2 },
        &PopupBuffer { data: &popup, width: 2, height: 2, x: -1, y: -1 },
    );
    assert_eq!(&data[0..4], &[13, 14, 15, 16]);
    assert_eq!(&data[4..16], &[0u8; 12]);
}

#[test]
fn popup_outside_the_frame_changes_nothing() {
    let mut data = frame(2, 2);
    let popup = vec![9u8; 16];
    composite_popup(
        &mut DestBuffer { data: &mut data, width: 2, height: 2 },
        &PopupBuffer { data: &popup, width: 2, height: 2, x: 5, y: 0 },
    );
    assert_eq!(data, frame(2, 2));
}

#[test]
fn short_popup_buffer_rows_are_skipped() {
    let mut data = frame(2, 2);
    let popup = vec![9u8; 8]; // only the first row of a 2x2 popup
    composite_popup(
        &mut DestBuffer { data: &mut data, width: 2, height: 2 },
        &PopupBuffer { data: &popup, width: 2, height: 2, x: 0, y: 0 },
    );
    assert_eq!(&data[0..8], &[9u8; 8]);
    assert_eq!(&data[8..16], &[0u8; 8]);
}

#[test]
fn composite_matches_the_pixel_formula() {
    let (dw, dh, pw, ph, x, y) = (5u32, 4u32, 3u32, 3u32, -1i32, 2i32);
    let old: Vec<u8> = (0..(4 * dw * dh) as usize).map(|i| i as u8).collect();
    let src: Vec<u8> = (0..(4 * pw * ph) as usize).map(|i| 200 + i as u8 % 50).collect();
    let mut data = old.clone();
    let mut dst = DestBuffer { data: &mut data, width: dw, height: dh };
    composite_popup(&mut dst, &PopupBuffer { data: &src, width: pw, height: ph, x, y });
    let (sx, sy, kx, ky) = (0i64, 2i64, 1i64, 0i64);
    let vw = (pw as i64 - kx).min(dw as i64 - sx);
    let vh = (ph as i64 - ky).min(dh as i64 - sy);
    for r in 0..dh as i64 {
        for c in 0..dw as i64 {
            for k in 0..4i64 {
                let i = (4 * (r * dw as i64 + c) + k) as usize;
                let expected = if sy <= r && r < sy + vh && sx <= c && c < sx + vw {
                    src[(4 * ((r - sy + ky) * pw as i64 + (c - sx + kx)) + k) as usize]
                } else {
                    old[i]
                };
                assert_eq!(data[i], expected);
            }
        }
    }
}

#[test]
fn a_row_that_does_not_fit_is_left_as_it_was() {
    // A 2x2 frame whose buffer only holds its first row and half the second.
    let mut data = vec![9u8; 12];
    let popup = vec![1u8; 16];
    let mut dst = DestBuffer { data: &mut data, width: 2, height: 2 };
    composite_popup(&mut dst, &PopupBuffer { data: &popup, width: 2, height: 2, x: 0, y: 0 });
    assert_eq!(&data[0..8], &[1u8; 8]);
    assert_eq!(&data[8..12], &[9u8; 4]);
}
