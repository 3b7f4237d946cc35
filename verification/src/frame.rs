//! The software-rendered frame: the pixel buffers that the browser's paint
//! callbacks fill and that the texture update uploads, and the conversion of
//! CEF's BGRA pixels into the RGBA layout Godot expects.

use vstd::prelude::*;
use crate::composite::{
    composite_fits, composite_popup, covered, placement, row_bytes, row_copied, src_row_start,
    dst_row_start, DestBuffer, PopupBuffer,
};

verus! {

/// A width and height in physical pixels.
#[derive(Clone, Copy, Debug, PartialEq, Default)]
pub struct PhysicalSize<T> {
    pub width: T,
    pub height: T,
}

impl<T> PhysicalSize<T> {
    /// A size of `width` by `height`.
    pub fn new(width: T, height: T) -> (r: Self)
        ensures
            r.width == width,
            r.height == height,
    {
        Self { width, height }
    }
}

/// The browser's main view, as tightly packed RGBA pixels.
pub struct FrameBuffer {
    pub data: Vec<u8>,
    pub width: u32,
    pub height: u32,
    /// Whether the pixels changed since they were last uploaded.
    pub dirty: bool,
}

impl Default for FrameBuffer {
    fn default() -> (r: Self)
        ensures
            r.data@.len() == 0,
            r.width == 0,
            r.height == 0,
            !r.dirty,
    {
        FrameBuffer { data: Vec::new(), width: 0, height: 0, dirty: false }
    }
}

impl FrameBuffer {
    /// An empty, clean buffer.
    pub fn new() -> (r: Self)
        ensures
            r.data@.len() == 0,
            r.width == 0,
            r.height == 0,
            !r.dirty,
    {
        Self::default()
    }

    /// Update the buffer with new RGBA pixel data.
    pub fn update(&mut self, data: Vec<u8>, width: u32, height: u32)
        ensures
            final(self).data@ == data@,
            final(self).width == width,
            final(self).height == height,
            final(self).dirty,
    {
        self.data = data;
        self.width = width;
        self.height = height;
        self.dirty = true;
    }

    /// Mark the buffer as consumed (not dirty).
    pub fn mark_clean(&mut self)
        ensures
            final(self).data@ == old(self).data@,
            final(self).width == old(self).width,
            final(self).height == old(self).height,
            !final(self).dirty,
    {
        self.dirty = false;
    }
}

/// Where the popup sits over the view, in view coordinates.
#[derive(Clone, Copy, Debug, Default, PartialEq, Eq, Structural)]
pub struct PopupRect {
    pub x: i32,
    pub y: i32,
    pub width: i32,
    pub height: i32,
}

/// A popup widget (such as a `<select>` list) that CEF paints separately.
#[derive(Clone)]
pub struct PopupState {
    pub visible: bool,
    pub rect: PopupRect,
    /// Its pixels, tightly packed RGBA.
    pub buffer: Vec<u8>,
    pub width: u32,
    pub height: u32,
    /// Whether it changed since the frame was last composed.
    pub dirty: bool,
}

impl Default for PopupState {
    fn default() -> (r: Self)
        ensures
            !r.visible,
            r.rect == (PopupRect { x: 0, y: 0, width: 0, height: 0 }),
            r.buffer@.len() == 0,
            r.width == 0,
            r.height == 0,
            !r.dirty,
    {
        PopupState {
            visible: false,
            rect: PopupRect { x: 0, y: 0, width: 0, height: 0 },
            buffer: Vec::new(),
            width: 0,
            height: 0,
            dirty: false,
        }
    }
}

impl PopupState {
    /// A hidden popup with no pixels.
    pub fn new() -> (r: Self)
        ensures
            !r.visible,
            r.rect == (PopupRect { x: 0, y: 0, width: 0, height: 0 }),
            r.buffer@.len() == 0,
            r.width == 0,
            r.height == 0,
            !r.dirty,
    {
        Self::default()
    }

    /// Shows or hides the popup; hiding it drops its pixels.
    pub fn set_visible(&mut self, visible: bool)
        ensures
            final(self).visible == visible,
            final(self).rect == old(self).rect,
            visible ==> final(self).buffer@ == old(self).buffer@ && final(self).width == old(self).width
                && final(self).height == old(self).height,
            !visible ==> final(self).buffer@.len() == 0 && final(self).width == 0 && final(self).height
                == 0,
            final(self).dirty,
    {
        self.visible = visible;
        if !visible {
            self.buffer.clear();
            self.width = 0;
            self.height = 0;
        }
        self.dirty = true;
    }

    /// Moves or resizes the popup.
    pub fn set_rect(&mut self, x: i32, y: i32, width: i32, height: i32)
        ensures
            final(self).rect == (PopupRect { x, y, width, height }),
            final(self).visible == old(self).visible,
            final(self).buffer@ == old(self).buffer@,
            final(self).width == old(self).width,
            final(self).height == old(self).height,
            final(self).dirty,
    {
        self.rect = PopupRect { x, y, width, height };
        self.dirty = true;
    }

    /// Replaces the popup's pixels.
    pub fn update_buffer(&mut self, data: Vec<u8>, width: u32, height: u32)
        ensures
            final(self).buffer@ == data@,
            final(self).width == width,
            final(self).height == height,
            final(self).visible == old(self).visible,
            final(self).rect == old(self).rect,
            final(self).dirty,
    {
        self.buffer = data;
        self.width = width;
        self.height = height;
        self.dirty = true;
    }

    /// Marks the popup as composed.
    pub fn mark_clean(&mut self)
        ensures
            final(self).visible == old(self).visible,
            final(self).rect == old(self).rect,
            final(self).buffer@ == old(self).buffer@,
            final(self).width == old(self).width,
            final(self).height == old(self).height,
            !final(self).dirty,
    {
        self.dirty = false;
    }
}

/// The four bytes of pixel `p`.
pub open spec fn pixel(s: Seq<u8>, p: int) -> (u8, u8, u8, u8) {
    (s[4 * p], s[4 * p + 1], s[4 * p + 2], s[4 * p + 3])
}

/// A pixel with its first and third channel exchanged (BGRA <-> RGBA).
pub open spec fn swap_red_blue(px: (u8, u8, u8, u8)) -> (u8, u8, u8, u8) {
    (px.2, px.1, px.0, px.3)
}

/// `rgba` is the RGBA form of the BGRA pixels `bgra`: every whole pixel has
/// its blue and red channels exchanged, and the bytes after the last whole
/// pixel are zero.
pub open spec fn is_rgba_of(bgra: Seq<u8>, rgba: Seq<u8>) -> bool {
    &&& rgba.len() == bgra.len()
    &&& forall|p: int|
        0 <= p < bgra.len() / 4 ==> #[trigger] pixel(rgba, p) == swap_red_blue(pixel(bgra, p))
    &&& forall|i: int| 4 * (bgra.len() / 4) <= i < bgra.len() ==> rgba[i] == 0
}

/// `wide::u8x16::shuffle_zeroing`, the replacement of the deprecated
/// `swizzle`: lane `i` of the result is lane `indices[i]` of `bytes` where
/// that index is below 16, and zero otherwise (as the crate documents for
/// `swizzle` and as each of its code paths in the source does).
#[verifier::external_body]
fn shuffle_bytes(bytes: [u8; 16], indices: [u8; 16]) -> (r: [u8; 16])
    ensures
        forall|i: int|
            0 <= i < 16 ==> #[trigger] r@[i] == if indices@[i] < 16 {
                bytes@[indices@[i] as int]
            } else {
                0u8
            },
{
    wide::u8x16::new(bytes).shuffle_zeroing(wide::u8x16::new(indices)).to_array()
}

/// Converts BGRA pixel data to RGBA, four pixels at a time with a SIMD
/// shuffle; bytes after the last whole pixel come out as zero.
pub fn bgra_to_rgba(bgra: &[u8]) -> (r: Vec<u8>)
    ensures
        is_rgba_of(bgra@, r@),
{
    let n = bgra.len();
    let indices: [u8; 16] = [2, 1, 0, 3, 6, 5, 4, 7, 10, 9, 8, 11, 14, 13, 12, 15];
    let mut out: Vec<u8> = Vec::new();
    let chunks = n / 16;
    let mut c: usize = 0;
    while c < chunks
        invariant
            n == bgra@.len(),
            chunks == n / 16,
            c <= chunks,
            out@.len() == 16 * c,
            indices@ == seq![2u8, 1, 0, 3, 6, 5, 4, 7, 10, 9, 8, 11, 14, 13, 12, 15],
            forall|p: int| 0 <= p < 4 * c ==> #[trigger] pixel(out@, p) == swap_red_blue(pixel(bgra@, p)),
        decreases chunks - c,
    {
        let o = c * 16;
        let src: [u8; 16] = [
            bgra[o], bgra[o + 1], bgra[o + 2], bgra[o + 3], bgra[o + 4], bgra[o + 5], bgra[o + 6],
            bgra[o + 7], bgra[o + 8], bgra[o + 9], bgra[o + 10], bgra[o + 11], bgra[o + 12],
            bgra[o + 13], bgra[o + 14], bgra[o + 15],
        ];
        let shuffled = shuffle_bytes(src, indices);
        let ghost before = out@;
        let mut k: usize = 0;
        while k < 16
            invariant
                k <= 16,
                out@.len() == 16 * c + k,
                out@.take(16 * c) == before,
                before.len() == 16 * c,
                forall|j: int| 0 <= j < k ==> out@[16 * c + j] == #[trigger] shuffled@[j],
            decreases 16 - k,
        {
            out.push(shuffled[k]);
            k = k + 1;
            assert(out@.take(16 * c) =~= before);
        }
        proof {
            assert forall|j: int| 0 <= j < 16 implies out@[16 * c + j] == shuffled@[j] by {
                assert(shuffled@[j] == shuffled@[j]);
            }
            assert(shuffled@[0] == src@[2] && shuffled@[1] == src@[1] && shuffled@[2] == src@[0]
                && shuffled@[3] == src@[3]);
            assert(shuffled@[4] == src@[6] && shuffled@[5] == src@[5] && shuffled@[6] == src@[4]
                && shuffled@[7] == src@[7]);
            assert(shuffled@[8] == src@[10] && shuffled@[9] == src@[9] && shuffled@[10] == src@[8]
                && shuffled@[11] == src@[11]);
            assert(shuffled@[12] == src@[14] && shuffled@[13] == src@[13] && shuffled@[14]
                == src@[12] && shuffled@[15] == src@[15]);
            assert forall|p: int| 0 <= p < 4 * (c + 1) implies #[trigger] pixel(out@, p)
                == swap_red_blue(pixel(bgra@, p)) by {
                if p < 4 * c {
                    assert(pixel(before, p) == swap_red_blue(pixel(bgra@, p)));
                    assert(out@[4 * p] == before[4 * p]);
                    assert(out@[4 * p + 1] == before[4 * p + 1]);
                    assert(out@[4 * p + 2] == before[4 * p + 2]);
                    assert(out@[4 * p + 3] == before[4 * p + 3]);
                } else {
                    let q = p - 4 * c;
                    assert(0 <= q < 4);
                    assert(out@[16 * c + 4 * q] == shuffled@[4 * q]);
                    assert(out@[16 * c + 4 * q + 1] == shuffled@[4 * q + 1]);
                    assert(out@[16 * c + 4 * q + 2] == shuffled@[4 * q + 2]);
                    assert(out@[16 * c + 4 * q + 3] == shuffled@[4 * q + 3]);
                }
            }
        }
        c = c + 1;
    }
    let pixels = n / 4;
    let mut p: usize = 4 * chunks;
    while p < pixels
        invariant
            n == bgra@.len(),
            pixels == n / 4,
            4 * chunks <= p <= pixels,
            out@.len() == 4 * p,
            forall|q: int| 0 <= q < p ==> #[trigger] pixel(out@, q) == swap_red_blue(pixel(bgra@, q)),
        decreases pixels - p,
    {
        let ghost before = out@;
        out.push(bgra[4 * p + 2]);
        out.push(bgra[4 * p + 1]);
        out.push(bgra[4 * p]);
        out.push(bgra[4 * p + 3]);
        proof {
            assert forall|q: int| 0 <= q < p + 1 implies #[trigger] pixel(out@, q)
                == swap_red_blue(pixel(bgra@, q)) by {
                if q < p {
                    assert(pixel(before, q) == swap_red_blue(pixel(bgra@, q)));
                    assert(out@[4 * q] == before[4 * q]);
                    assert(out@[4 * q + 1] == before[4 * q + 1]);
                    assert(out@[4 * q + 2] == before[4 * q + 2]);
                    assert(out@[4 * q + 3] == before[4 * q + 3]);
                }
            }
        }
        p = p + 1;
    }
    let ghost whole = out@;
    while out.len() < n
        invariant
            n == bgra@.len(),
            4 * (n / 4) <= out@.len() <= n,
            whole.len() == 4 * (n / 4),
            out@.take(whole.len() as int) == whole,
            forall|i: int| whole.len() <= i < out@.len() ==> out@[i] == 0,
        decreases n - out.len(),
    {
        out.push(0);
        assert(out@.take(whole.len() as int) =~= whole);
    }
    proof {
        assert forall|q: int| 0 <= q < n / 4 implies #[trigger] pixel(out@, q)
            == swap_red_blue(pixel(bgra@, q)) by {
            assert(pixel(whole, q) == swap_red_blue(pixel(bgra@, q)));
            assert(out@[4 * q] == whole[4 * q]);
            assert(out@[4 * q + 1] == whole[4 * q + 1]);
            assert(out@[4 * q + 2] == whole[4 * q + 2]);
            assert(out@[4 * q + 3] == whole[4 * q + 3]);
        }
    }
    out
}

/// Converting twice gives the pixels back: exchanging the red and blue
/// channels undoes itself, on buffers made of whole pixels.
pub proof fn lemma_rgba_roundtrip(bgra: Seq<u8>, rgba: Seq<u8>, back: Seq<u8>)
    requires
        bgra.len() % 4 == 0,
        is_rgba_of(bgra, rgba),
        is_rgba_of(rgba, back),
    ensures
        back == bgra,
{
    assert forall|i: int| 0 <= i < bgra.len() implies back[i] == bgra[i] by {
        let p = i / 4;
        assert(0 <= p < bgra.len() / 4);
        assert(pixel(rgba, p) == swap_red_blue(pixel(bgra, p)));
        assert(pixel(back, p) == swap_red_blue(pixel(rgba, p)));
        assert(i == 4 * p || i == 4 * p + 1 || i == 4 * p + 2 || i == 4 * p + 3);
    }
    assert(back =~= bgra);
}

/// Whether the popup is shown over the frame: it is visible and has pixels.
pub open spec fn popup_shown(popup: Option<&PopupState>) -> bool {
    popup matches Some(ps) && ps.visible && ps.buffer@.len() > 0
}

/// Whether the texture must be refreshed: the frame or a shown popup changed,
/// and the frame has pixels.
pub open spec fn frame_needs_upload(fb: &FrameBuffer, popup: Option<&PopupState>) -> bool {
    &&& fb.dirty || (popup_shown(popup) && popup.unwrap().dirty)
    &&& fb.data@.len() > 0
}

/// The pixels to upload to the view texture, or `None` where nothing changed
/// (or the frame is still empty). A shown popup is composited onto a copy of
/// the frame at `(popup_x, popup_y)`, its offset in physical pixels.
pub fn software_frame_update(
    fb: &FrameBuffer,
    popup: Option<&PopupState>,
    popup_x: i32,
    popup_y: i32,
) -> (r: Option<Vec<u8>>)
    requires
        frame_needs_upload(fb, popup) && popup_shown(popup) ==> composite_fits(
            fb.width,
            fb.height,
            popup.unwrap().width,
            popup.unwrap().height,
            popup_x,
            popup_y,
        ),
    ensures
        r is Some <==> frame_needs_upload(fb, popup),
        r matches Some(out) ==> {
            &&& out@.len() == fb.data@.len()
            &&& !popup_shown(popup) ==> out@ == fb.data@
            &&& popup_shown(popup) ==> {
                let ps = popup.unwrap();
                let p = placement(fb.width, fb.height, ps.width, ps.height, popup_x, popup_y);
                let src = ps.buffer@;
                let dlen = fb.data@.len() as int;
                &&& forall|row: int, col: int|
                    row_copied(p, row, src.len() as int, dlen) && 0 <= col < row_bytes(p)
                        ==> #[trigger] out@[dst_row_start(p, row) + col] == src[src_row_start(p, row) + col]
                &&& forall|k: int|
                    0 <= k < dlen && !covered(p, k, src.len() as int, dlen) ==> #[trigger] out@[k]
                        == fb.data@[k]
            }
        },
{
    let shown = match popup {
        Some(ps) => ps.visible && ps.buffer.len() > 0,
        None => false,
    };
    let popup_dirty = match popup {
        Some(ps) => shown && ps.dirty,
        None => false,
    };
    if !fb.dirty && !popup_dirty {
        return None;
    }
    if fb.data.len() == 0 {
        return None;
    }
    match popup {
        Some(ps) => {
            if shown {
                let mut composited = fb.data.clone();
                let src = PopupBuffer {
                    data: ps.buffer.as_slice(),
                    width: ps.width,
                    height: ps.height,
                    x: popup_x,
                    y: popup_y,
                };
                let mut dst = DestBuffer {
                    data: composited.as_mut_slice(),
                    width: fb.width,
                    height: fb.height,
                };
                composite_popup(&mut dst, &src);
                Some(vstd::slice::slice_to_vec(dst.data))
            } else {
                Some(fb.data.clone())
            }
        },
        None => Some(fb.data.clone()),
    }
}

/// The frame rate the browser renders at: Godot's frame cap where one is
/// set, else the screen's refresh rate where it is known, else 60.
pub fn select_max_fps(engine_max_fps: i32, screen_refresh_rate: i32) -> (r: i32)
    ensures
        r == if engine_max_fps > 0 {
            engine_max_fps
        } else if screen_refresh_rate > 0 {
            screen_refresh_rate
        } else {
            60
        },
{
    if engine_max_fps > 0 {
        engine_max_fps
    } else if screen_refresh_rate > 0 {
        screen_refresh_rate
    } else {
        60
    }
}

} // verus!
