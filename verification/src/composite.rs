//! Software compositing of a popup (such as a `<select>` dropdown) onto
//! the browser's frame, both as tightly packed 4-byte pixels.

use vstd::prelude::*;

verus! {

/// The frame that receives the popup.
pub struct DestBuffer<'a> {
    pub data: &'a mut [u8],
    pub width: u32,
    pub height: u32,
}

/// The popup's pixels and its position over the frame.
pub struct PopupBuffer<'a> {
    pub data: &'a [u8],
    pub width: u32,
    pub height: u32,
    pub x: i32,
    pub y: i32,
}

/// Where the visible part of a popup lands: the frame pixel it starts at
/// (`start_*`), the popup pixels cut off at its left and top (`skip_*`),
/// and the visible size.
pub struct Placement {
    pub popup_width: int,
    pub dest_width: int,
    pub start_x: int,
    pub start_y: int,
    pub skip_x: int,
    pub skip_y: int,
    pub visible_width: int,
    pub visible_height: int,
}

pub open spec fn saturating_sub(a: int, b: int) -> int {
    if a > b {
        a - b
    } else {
        0
    }
}

pub open spec fn min_int(a: int, b: int) -> int {
    if a < b {
        a
    } else {
        b
    }
}

/// The placement of a popup of `pw`×`ph` pixels at `(x, y)` over a frame
/// of `dw`×`dh` pixels.
pub open spec fn placement(dw: u32, dh: u32, pw: u32, ph: u32, x: i32, y: i32) -> Placement {
    let start_x = if x > 0 { x as int } else { 0 };
    let start_y = if y > 0 { y as int } else { 0 };
    let skip_x = if x < 0 { -x } else { 0 };
    let skip_y = if y < 0 { -y } else { 0 };
    Placement {
        popup_width: pw as int,
        dest_width: dw as int,
        start_x,
        start_y,
        skip_x,
        skip_y,
        visible_width: min_int(saturating_sub(pw as int, skip_x), saturating_sub(dw as int, start_x)),
        visible_height: min_int(saturating_sub(ph as int, skip_y), saturating_sub(dh as int, start_y)),
    }
}

/// Byte offset in the popup of the first visible pixel of visible row `row`.
pub open spec fn src_row_start(p: Placement, row: int) -> int {
    ((p.skip_y + row) * p.popup_width + p.skip_x) * 4
}

/// Byte offset in the frame where visible row `row` goes.
pub open spec fn dst_row_start(p: Placement, row: int) -> int {
    ((p.start_y + row) * p.dest_width + p.start_x) * 4
}

pub open spec fn row_bytes(p: Placement) -> int {
    p.visible_width * 4
}

/// Visible row `row` is copied: both buffers hold it entirely.
pub open spec fn row_copied(p: Placement, row: int, src_len: int, dst_len: int) -> bool {
    &&& 0 <= row < p.visible_height
    &&& src_row_start(p, row) + row_bytes(p) <= src_len
    &&& dst_row_start(p, row) + row_bytes(p) <= dst_len
}

/// Frame byte `k` is overwritten by the popup.
pub open spec fn covered(p: Placement, k: int, src_len: int, dst_len: int) -> bool {
    exists|row: int, col: int|
        #![trigger row_copied(p, row, src_len, dst_len), dst_row_start(p, row) + col]
        row_copied(p, row, src_len, dst_len) && 0 <= col < row_bytes(p) && k == dst_row_start(p, row)
            + col
}

/// The byte offsets computed for the visible rows fit in 32 bits, as the
/// computation requires.
pub open spec fn offsets_fit(p: Placement) -> bool {
    p.visible_width > 0 && p.visible_height > 0 ==> {
        &&& src_row_start(p, p.visible_height - 1) <= u32::MAX
        &&& dst_row_start(p, p.visible_height - 1) <= u32::MAX
        &&& row_bytes(p) <= u32::MAX
    }
}

proof fn lemma_row_offsets(p: Placement, row: int)
    requires
        0 <= row < p.visible_height,
        p.popup_width >= 0,
        p.dest_width >= 0,
        p.skip_x >= 0,
        p.skip_y >= 0,
        p.start_x >= 0,
        p.start_y >= 0,
    ensures
        0 <= src_row_start(p, row) <= src_row_start(p, p.visible_height - 1),
        0 <= dst_row_start(p, row) <= dst_row_start(p, p.visible_height - 1),
        (p.skip_y + row) * p.popup_width <= (p.skip_y + p.visible_height - 1) * p.popup_width,
        (p.start_y + row) * p.dest_width <= (p.start_y + p.visible_height - 1) * p.dest_width,
        0 <= (p.skip_y + row) * p.popup_width,
        0 <= (p.start_y + row) * p.dest_width,
{
    assert((p.skip_y + row) * p.popup_width <= (p.skip_y + p.visible_height - 1) * p.popup_width)
        by (nonlinear_arith)
        requires
            row <= p.visible_height - 1,
            p.popup_width >= 0,
    ;
    assert((p.start_y + row) * p.dest_width <= (p.start_y + p.visible_height - 1) * p.dest_width)
        by (nonlinear_arith)
        requires
            row <= p.visible_height - 1,
            p.dest_width >= 0,
    ;
    assert(0 <= (p.skip_y + row) * p.popup_width) by (nonlinear_arith)
        requires
            p.skip_y + row >= 0,
            p.popup_width >= 0,
    ;
    assert(0 <= (p.start_y + row) * p.dest_width) by (nonlinear_arith)
        requires
            p.start_y + row >= 0,
            p.dest_width >= 0,
    ;
}

/// Visible rows land on disjoint stretches of the frame: each ends before
/// the next begins.
pub proof fn lemma_rows_disjoint(p: Placement, r1: int, r2: int)
    requires
        0 <= r1 < r2,
        p.dest_width >= 0,
        p.start_x >= 0,
        p.start_y >= 0,
        0 <= p.visible_width <= p.dest_width - p.start_x,
    ensures
        dst_row_start(p, r1) + row_bytes(p) <= dst_row_start(p, r2),
{
    assert((p.start_y + r1) * p.dest_width + p.dest_width <= (p.start_y + r2) * p.dest_width)
        by (nonlinear_arith)
        requires
            r1 < r2,
            p.dest_width >= 0,
    ;
}

/// The frame bytes after compositing: each visible row that both buffers
/// hold entirely is copied from the popup, and every other byte is kept.
pub open spec fn composite_result(p: Placement, src: Seq<u8>, old_data: Seq<u8>, new_data: Seq<u8>) -> bool {
    &&& new_data.len() == old_data.len()
    &&& forall|row: int, col: int|
        row_copied(p, row, src.len() as int, old_data.len() as int) && 0 <= col < row_bytes(p)
            ==> #[trigger] new_data[dst_row_start(p, row) + col] == src[src_row_start(p, row) + col]
    &&& forall|k: int|
        0 <= k < old_data.len() && !covered(p, k, src.len() as int, old_data.len() as int)
            ==> #[trigger] new_data[k] == old_data[k]
}

/// The frame pixel at `(r, c)`, byte `k`, after compositing: the popup's
/// pixel under it where the visible part of the popup covers it, else the
/// frame's own.
pub open spec fn composited_byte(
    dw: u32,
    dh: u32,
    pw: u32,
    ph: u32,
    x: i32,
    y: i32,
    src: Seq<u8>,
    old_data: Seq<u8>,
    r: int,
    c: int,
    k: int,
) -> u8 {
    let p = placement(dw, dh, pw, ph, x, y);
    if p.start_y <= r < p.start_y + p.visible_height && p.start_x <= c < p.start_x
        + p.visible_width {
        src[4 * ((r - p.start_y + p.skip_y) * pw + (c - p.start_x + p.skip_x)) + k]
    } else {
        old_data[4 * (r * dw + c) + k]
    }
}

/// Two splits `a * d + b` with `0 <= b < d` of one number agree.
proof fn lemma_row_col_unique(a: int, b: int, a2: int, b2: int, d: int)
    requires
        0 <= b < d,
        0 <= b2 < d,
        a * d + b == a2 * d + b2,
    ensures
        a == a2,
        b == b2,
{
    if a < a2 {
        assert(a * d + d <= a2 * d) by (nonlinear_arith)
            requires
                a < a2,
                d > 0,
        ;
    } else if a > a2 {
        assert(a2 * d + d <= a * d) by (nonlinear_arith)
            requires
                a2 < a,
                d > 0,
        ;
    }
}

/// On buffers that hold exactly their pixels, compositing sets each frame
/// byte to the popup's byte where the visible part of the popup covers it,
/// and leaves every other byte as it was.
pub proof fn lemma_composite_pointwise(
    dw: u32,
    dh: u32,
    pw: u32,
    ph: u32,
    x: i32,
    y: i32,
    src: Seq<u8>,
    old_data: Seq<u8>,
    new_data: Seq<u8>,
)
    requires
        src.len() == 4 * (pw * ph),
        old_data.len() == 4 * (dw * dh),
        composite_result(placement(dw, dh, pw, ph, x, y), src, old_data, new_data),
    ensures
        forall|r: int, c: int, k: int|
            0 <= r < dh && 0 <= c < dw && 0 <= k < 4 ==> #[trigger] new_data[4 * (r * dw + c) + k]
                == composited_byte(dw, dh, pw, ph, x, y, src, old_data, r, c, k),
{
    let p = placement(dw, dh, pw, ph, x, y);
    let slen = src.len() as int;
    let dlen = old_data.len() as int;
    let dwi = dw as int;
    let pwi = pw as int;
    assert forall|r: int, c: int, k: int|
        0 <= r < dh && 0 <= c < dw && 0 <= k < 4 implies #[trigger] new_data[4 * (r * dw + c) + k]
        == composited_byte(dw, dh, pw, ph, x, y, src, old_data, r, c, k) by {
        let idx = 4 * (r * dwi + c) + k;
        assert(0 <= r * dwi + c < dwi * dh) by (nonlinear_arith)
            requires
                0 <= r < dh,
                0 <= c < dwi,
        ;
        assert(dwi * dh == dw * dh);
        if p.start_y <= r < p.start_y + p.visible_height && p.start_x <= c < p.start_x
            + p.visible_width {
            let row = r - p.start_y;
            let cc = c - p.start_x;
            let col = 4 * cc + k;
            let a = p.skip_y + row;
            assert(a + 1 <= ph && p.skip_x + p.visible_width <= pwi);
            assert(a * pwi + pwi <= pwi * ph) by (nonlinear_arith)
                requires
                    a + 1 <= ph,
                    pwi >= 0,
            ;
            assert(pwi * ph == pw * ph);
            assert(r + 1 <= dh && p.start_x + p.visible_width <= dwi);
            assert(r * dwi + dwi <= dwi * dh) by (nonlinear_arith)
                requires
                    r + 1 <= dh,
                    dwi >= 0,
            ;
            assert(p.start_y + row == r);
            assert(dst_row_start(p, row) == (r * dwi + p.start_x) * 4);
            assert(src_row_start(p, row) == (a * pwi + p.skip_x) * 4);
            assert(row_copied(p, row, slen, dlen));
            assert(dst_row_start(p, row) + col == idx);
            assert(new_data[dst_row_start(p, row) + col] == src[src_row_start(p, row) + col]);
            assert(src_row_start(p, row) + col == 4 * ((r - p.start_y + p.skip_y) * pw + (c
                - p.start_x + p.skip_x)) + k);
        } else {
            assert(!covered(p, idx, slen, dlen)) by {
                if covered(p, idx, slen, dlen) {
                    let (row2, col2) = choose|row2: int, col2: int|
                        #![trigger row_copied(p, row2, slen, dlen), dst_row_start(p, row2) + col2]
                        row_copied(p, row2, slen, dlen) && 0 <= col2 < row_bytes(p) && idx
                            == dst_row_start(p, row2) + col2;
                    let q = col2 / 4;
                    assert(0 <= q < p.visible_width);
                    assert(p.start_x + p.visible_width <= dwi);
                    assert(idx == 4 * ((p.start_y + row2) * dwi + p.start_x + q) + col2 % 4);
                    assert(r * dwi + c == (p.start_y + row2) * dwi + (p.start_x + q));
                    lemma_row_col_unique(r, c, p.start_y + row2, p.start_x + q, dwi);
                }
            }
            assert(new_data[idx] == old_data[idx]);
        }
    }
}

/// A visible row that does not fit in both buffers is not copied: the
/// frame keeps every byte where that row would have gone.
pub proof fn lemma_skipped_row_kept(
    dw: u32,
    dh: u32,
    pw: u32,
    ph: u32,
    x: i32,
    y: i32,
    src: Seq<u8>,
    old_data: Seq<u8>,
    new_data: Seq<u8>,
    row: int,
    col: int,
)
    requires
        composite_result(placement(dw, dh, pw, ph, x, y), src, old_data, new_data),
        0 <= row < placement(dw, dh, pw, ph, x, y).visible_height,
        !row_copied(placement(dw, dh, pw, ph, x, y), row, src.len() as int, old_data.len() as int),
        0 <= col < row_bytes(placement(dw, dh, pw, ph, x, y)),
        0 <= dst_row_start(placement(dw, dh, pw, ph, x, y), row) + col < old_data.len(),
    ensures
        new_data[dst_row_start(placement(dw, dh, pw, ph, x, y), row) + col] == old_data[dst_row_start(
            placement(dw, dh, pw, ph, x, y),
            row,
        ) + col],
{
    let p = placement(dw, dh, pw, ph, x, y);
    let slen = src.len() as int;
    let dlen = old_data.len() as int;
    let idx = dst_row_start(p, row) + col;
    assert(p.visible_width > 0);
    assert(p.visible_width <= p.dest_width - p.start_x);
    assert(!covered(p, idx, slen, dlen)) by {
        if covered(p, idx, slen, dlen) {
            let (row2, col2) = choose|row2: int, col2: int|
                #![trigger row_copied(p, row2, slen, dlen), dst_row_start(p, row2) + col2]
                row_copied(p, row2, slen, dlen) && 0 <= col2 < row_bytes(p) && idx
                    == dst_row_start(p, row2) + col2;
            if row2 < row {
                lemma_rows_disjoint(p, row2, row);
            } else if row < row2 {
                lemma_rows_disjoint(p, row, row2);
            }
        }
    }
}

/// Whether a popup of `pw`×`ph` pixels at `(x, y)` can be composited onto a
/// frame of `dw`×`dh` pixels: the position is not `i32::MIN` on either axis
/// and the byte offsets of the visible rows fit in 32 bits.
pub open spec fn composite_fits(dw: u32, dh: u32, pw: u32, ph: u32, x: i32, y: i32) -> bool {
    x > i32::MIN && y > i32::MIN && offsets_fit(placement(dw, dh, pw, ph, x, y))
}

/// Tells whether `composite_popup` accepts a popup at this position.
pub fn can_composite(dw: u32, dh: u32, pw: u32, ph: u32, x: i32, y: i32) -> (r: bool)
    ensures
        r == composite_fits(dw, dh, pw, ph, x, y),
{
    if x == i32::MIN || y == i32::MIN {
        return false;
    }
    let ghost p = placement(dw, dh, pw, ph, x, y);
    let start_x: u128 = if x > 0 { x as u128 } else { 0 };
    let start_y: u128 = if y > 0 { y as u128 } else { 0 };
    let skip_x: u128 = if x < 0 { (-x) as u128 } else { 0 };
    let skip_y: u128 = if y < 0 { (-y) as u128 } else { 0 };
    let vw1: u128 = if (pw as u128) > skip_x { pw as u128 - skip_x } else { 0 };
    let vw2: u128 = if (dw as u128) > start_x { dw as u128 - start_x } else { 0 };
    let vw: u128 = if vw1 < vw2 { vw1 } else { vw2 };
    let vh1: u128 = if (ph as u128) > skip_y { ph as u128 - skip_y } else { 0 };
    let vh2: u128 = if (dh as u128) > start_y { dh as u128 - start_y } else { 0 };
    let vh: u128 = if vh1 < vh2 { vh1 } else { vh2 };
    assert(vw == p.visible_width && vh == p.visible_height);
    assert(start_x == p.start_x && start_y == p.start_y && skip_x == p.skip_x && skip_y == p.skip_y);
    if vw == 0 || vh == 0 {
        return true;
    }
    let last: u128 = vh - 1;
    assert(skip_y + last <= 0x1_0000_0000 && pw <= 0xffff_ffff);
    assert((skip_y + last) * (pw as u128) <= 0x1_0000_0000 * 0xffff_ffff) by (nonlinear_arith)
        requires
            skip_y + last <= 0x1_0000_0000,
            pw <= 0xffff_ffff,
    ;
    assert((start_y + last) * (dw as u128) <= 0x1_0000_0000 * 0xffff_ffff) by (nonlinear_arith)
        requires
            start_y + last <= 0x1_0000_0000,
            dw <= 0xffff_ffff,
    ;
    let src_last: u128 = ((skip_y + last) * (pw as u128) + skip_x) * 4;
    let dst_last: u128 = ((start_y + last) * (dw as u128) + start_x) * 4;
    let bytes: u128 = vw * 4;
    assert(src_last == src_row_start(p, p.visible_height - 1));
    assert(dst_last == dst_row_start(p, p.visible_height - 1));
    src_last <= 0xffff_ffff && dst_last <= 0xffff_ffff && bytes <= 0xffff_ffff
}

/// Copies the visible part of `popup` onto `dst`.
pub fn composite_popup(dst: &mut DestBuffer, popup: &PopupBuffer)
    requires
        popup.x > i32::MIN,
        popup.y > i32::MIN,
        offsets_fit(
            placement(
                old(dst).width,
                old(dst).height,
                popup.width,
                popup.height,
                popup.x,
                popup.y,
            ),
        ),
    ensures
        composite_result(
            placement(old(dst).width, old(dst).height, popup.width, popup.height, popup.x, popup.y),
            popup.data@,
            old(dst).data@,
            final(dst).data@,
        ),
        final(dst).width == old(dst).width,
        final(dst).height == old(dst).height,
{
    let ghost p = placement(dst.width, dst.height, popup.width, popup.height, popup.x, popup.y);
    let ghost src = popup.data@;
    let ghost old_data = dst.data@;
    let ghost slen = src.len() as int;
    let ghost dlen = old_data.len() as int;
    let start_x: u32 = if popup.x > 0 { popup.x as u32 } else { 0 };
    let start_y: u32 = if popup.y > 0 { popup.y as u32 } else { 0 };
    let skip_x: u32 = if popup.x < 0 { (-popup.x) as u32 } else { 0 };
    let skip_y: u32 = if popup.y < 0 { (-popup.y) as u32 } else { 0 };
    let vw1 = popup.width.saturating_sub(skip_x);
    let vw2 = dst.width.saturating_sub(start_x);
    let visible_width = if vw1 < vw2 { vw1 } else { vw2 };
    let vh1 = popup.height.saturating_sub(skip_y);
    let vh2 = dst.height.saturating_sub(start_y);
    let visible_height = if vh1 < vh2 { vh1 } else { vh2 };
    assert(visible_width == p.visible_width && visible_height == p.visible_height);
    if visible_width == 0 || visible_height == 0 {
        assert forall|k: int| 0 <= k < dlen && !covered(p, k, slen, dlen) implies #[trigger] dst.data@[k]
            == old_data[k] by {}
        return;
    }
    let copy_bytes = (visible_width * 4) as usize;
    let src_len = popup.data.len();
    let dst_len = dst.data.len();
    assert(src_len == slen && dst_len == dlen);
    let mut row: u32 = 0;
    while row < visible_height
        invariant
            p == placement(dst.width, dst.height, popup.width, popup.height, popup.x, popup.y),
            dst.width == old(dst).width,
            dst.height == old(dst).height,
            old_data == old(dst).data@,
            offsets_fit(p),
            src == popup.data@,
            slen == src.len(),
            dlen == old_data.len(),
            slen <= usize::MAX,
            dlen <= usize::MAX,
            dst.data@.len() == dlen,
            p.start_x == start_x && p.start_y == start_y && p.skip_x == skip_x && p.skip_y == skip_y,
            p.visible_width == visible_width && p.visible_height == visible_height,
            visible_width > 0,
            copy_bytes == row_bytes(p),
            row <= visible_height,
            forall|r: int, c: int|
                row_copied(p, r, slen, dlen) && r < row && 0 <= c < row_bytes(p)
                    ==> #[trigger] dst.data@[dst_row_start(p, r) + c] == src[src_row_start(p, r) + c],
            forall|k: int|
                0 <= k < dlen && !covered(p, k, slen, dlen) ==> #[trigger] dst.data@[k] == old_data[k],
            forall|k: int|
                0 <= k < dlen && dst_row_start(p, row as int) <= k ==> #[trigger] dst.data@[k]
                    == old_data[k],
        decreases visible_height - row,
    {
        proof {
            lemma_row_offsets(p, row as int);
        }
        let src_row = skip_y + row;
        let dst_row = start_y + row;
        let src_row_start_v = ((src_row * popup.width + skip_x) * 4) as usize;
        let dst_row_start_v = ((dst_row * dst.width + start_x) * 4) as usize;
        assert(src_row_start_v == src_row_start(p, row as int));
        assert(dst_row_start_v == dst_row_start(p, row as int));
        if src_row_start_v <= popup.data.len() && copy_bytes <= popup.data.len() - src_row_start_v
            && dst_row_start_v <= dst.data.len() && copy_bytes <= dst.data.len() - dst_row_start_v {
            let ghost before = dst.data@;
            let mut col: usize = 0;
            while col < copy_bytes
                invariant
                    col <= copy_bytes,
                    src_row_start_v + copy_bytes <= slen,
                    dst_row_start_v + copy_bytes <= dlen,
                    src == popup.data@,
                    slen == src.len(),
                    slen <= usize::MAX,
                    dlen <= usize::MAX,
                    dst.data@.len() == dlen,
                    dst.width == old(dst).width,
                    dst.height == old(dst).height,
                    forall|c: int| 0 <= c < col ==> #[trigger] dst.data@[dst_row_start_v + c] == src[src_row_start_v + c],
                    forall|k: int|
                        0 <= k < dlen && !(dst_row_start_v <= k < dst_row_start_v + col) ==> #[trigger] dst.data@[k] == before[k],
                decreases copy_bytes - col,
            {
                dst.data[dst_row_start_v + col] = popup.data[src_row_start_v + col];
                col = col + 1;
            }
            proof {
                assert(row_copied(p, row as int, slen, dlen));
                assert forall|r: int, c: int|
                    row_copied(p, r, slen, dlen) && r < row + 1 && 0 <= c < row_bytes(p)
                        implies #[trigger] dst.data@[dst_row_start(p, r) + c] == src[src_row_start(p, r) + c] by {
                    if r < row {
                        lemma_rows_disjoint(p, r, row as int);
                        assert(dst.data@[dst_row_start(p, r) + c] == before[dst_row_start(p, r) + c]);
                    }
                }
                lemma_rows_disjoint(p, row as int, row + 1);
                assert forall|k: int|
                    0 <= k < dlen && dst_row_start(p, row + 1) <= k implies #[trigger] dst.data@[k]
                        == old_data[k] by {
                    assert(dst.data@[k] == before[k]);
                }
                assert forall|k: int|
                    0 <= k < dlen && !covered(p, k, slen, dlen) implies #[trigger] dst.data@[k] == old_data[k] by {
                    if dst_row_start_v <= k < dst_row_start_v + copy_bytes {
                        assert(row_copied(p, row as int, slen, dlen) && 0 <= k - dst_row_start_v < row_bytes(p)
                            && k == dst_row_start(p, row as int) + (k - dst_row_start_v));
                        assert(covered(p, k, slen, dlen));
                    }
                }
            }
        } else {
            proof {
                assert(!row_copied(p, row as int, slen, dlen));
            }
        }
        proof {
            lemma_rows_disjoint(p, row as int, row + 1);
        }
        row = row + 1;
    }
}

} // verus!
