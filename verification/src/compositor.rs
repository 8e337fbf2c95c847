//! Multi-monitor frame compositing.
//!
//! Each monitor delivers frames of its own size at an offset in the
//! virtual desktop.  The compositor blits the latest frame of every
//! monitor onto one BGRA canvas whose size is the bounding box of the
//! layout, clipping at the canvas edges.

use vstd::prelude::*;

use crate::frame::{CapturedFrame, CursorInfo, DamageRect, PixelFormat};

verus! {

/// Information about a single captured monitor.
#[derive(Debug, Clone)]
pub struct MonitorInfo {
    /// Capture node ID of the monitor's stream.
    pub node_id: u32,
    /// Monitor width in pixels.
    pub width: u16,
    /// Monitor height in pixels.
    pub height: u16,
    /// X offset in the virtual desktop.
    pub x: i32,
    /// Y offset in the virtual desktop.
    pub y: i32,
}

/// The largest right edge (`x + width`) over the monitors, at least 0.
pub open spec fn spec_max_right(ms: Seq<MonitorInfo>) -> int
    decreases ms.len(),
{
    if ms.len() == 0 {
        0
    } else {
        let rest = spec_max_right(ms.drop_last());
        let right = ms.last().x + ms.last().width;
        if right > rest {
            right
        } else {
            rest
        }
    }
}

/// The largest bottom edge (`y + height`) over the monitors, at least 0.
pub open spec fn spec_max_bottom(ms: Seq<MonitorInfo>) -> int
    decreases ms.len(),
{
    if ms.len() == 0 {
        0
    } else {
        let rest = spec_max_bottom(ms.drop_last());
        let bottom = ms.last().y + ms.last().height;
        if bottom > rest {
            bottom
        } else {
            rest
        }
    }
}

/// Clamping of an edge coordinate to the `u16` range.
pub open spec fn spec_clamp_u16(v: int) -> int {
    if v < 0 {
        0
    } else if v > 65535 {
        65535
    } else {
        v
    }
}

/// Compute the bounding box of a set of monitors.
///
/// Returns the `(width, height)` of the virtual desktop that encloses
/// every monitor at its position: the largest `x + width` and the
/// largest `y + height`, each clamped to the `u16` range.  An empty
/// layout yields `(0, 0)`.
pub fn bounding_box(monitors: &Vec<MonitorInfo>) -> (r: (u16, u16))
    requires
        forall|i: int|
            0 <= i < monitors@.len() ==> (#[trigger] monitors@[i]).x + monitors@[i].width
                <= i32::MAX && monitors@[i].y + monitors@[i].height <= i32::MAX,
    ensures
        r.0 == spec_clamp_u16(spec_max_right(monitors@)),
        r.1 == spec_clamp_u16(spec_max_bottom(monitors@)),
{
    let n = monitors.len();
    let mut max_x: i32 = 0;
    let mut max_y: i32 = 0;
    let mut i: usize = 0;
    while i < n
        invariant
            0 <= i <= n,
            n == monitors@.len(),
            forall|k: int|
                0 <= k < n ==> (#[trigger] monitors@[k]).x + monitors@[k].width <= i32::MAX
                    && monitors@[k].y + monitors@[k].height <= i32::MAX,
            max_x as int == spec_max_right(monitors@.take(i as int)),
            max_y as int == spec_max_bottom(monitors@.take(i as int)),
            max_x >= 0,
            max_y >= 0,
        decreases n - i,
    {
        let m = &monitors[i];
        let right: i32 = m.x + (m.width as i32);
        let bottom: i32 = m.y + (m.height as i32);
        if right > max_x {
            max_x = right;
        }
        if bottom > max_y {
            max_y = bottom;
        }
        proof {
            assert(monitors@.take(i + 1).drop_last() =~= monitors@.take(i as int));
            assert(monitors@.take(i + 1).last() == monitors@[i as int]);
        }
        i += 1;
    }
    proof {
        assert(monitors@.take(n as int) =~= monitors@);
    }
    let width: u16 = if max_x > 65535 {
        65535
    } else {
        max_x as u16
    };
    let height: u16 = if max_y > 65535 {
        65535
    } else {
        max_y as u16
    };
    (width, height)
}

/// The flat canvas index of byte `c` of the pixel at column `cx` of
/// row `cy`, for a canvas with the given row stride.
pub open spec fn pix_index(cstride: int, cy: int, cx: int, c: int) -> int {
    cy * cstride + 4 * cx + c
}

/// Whether row `row` of `frame` may be read: the frame buffer holds
/// the full row at the frame's stride.
pub open spec fn spec_src_row_ok(frame: CapturedFrame, row: int) -> bool {
    row * frame.stride + 4 * frame.width <= frame.data.len()
}

/// The byte at `(cy, cx, c)` of the canvas after blitting `frame` at
/// offset `(xo, yo)`: the frame byte where the pixel falls inside the
/// frame and the frame's row is readable, the previous canvas byte
/// everywhere else.
pub open spec fn spec_blit_byte(
    canvas: Seq<u8>,
    frame: CapturedFrame,
    xo: int,
    yo: int,
    cstride: int,
    cy: int,
    cx: int,
    c: int,
) -> u8 {
    let row = cy - yo;
    let col = cx - xo;
    if 0 <= row < frame.height && spec_src_row_ok(frame, row) && 0 <= col < frame.width {
        frame.data[row * frame.stride + 4 * col + c]
    } else {
        canvas[pix_index(cstride, cy, cx, c)]
    }
}

/// Distinct pixel-byte coordinates have distinct flat indices.
pub proof fn lemma_pix_index_injective(
    cstride: int,
    cw: int,
    cy1: int,
    cx1: int,
    c1: int,
    cy2: int,
    cx2: int,
    c2: int,
)
    requires
        cstride == 4 * cw,
        0 <= cx1 < cw,
        0 <= cx2 < cw,
        0 <= c1 < 4,
        0 <= c2 < 4,
        pix_index(cstride, cy1, cx1, c1) == pix_index(cstride, cy2, cx2, c2),
    ensures
        cy1 == cy2 && cx1 == cx2 && c1 == c2,
{
    assert(cy1 == cy2 && cx1 == cx2 && c1 == c2) by (nonlinear_arith)
        requires
            cstride == 4 * cw,
            0 <= cx1 < cw,
            0 <= cx2 < cw,
            0 <= c1 < 4,
            0 <= c2 < 4,
            cy1 * cstride + 4 * cx1 + c1 == cy2 * cstride + 4 * cx2 + c2,
    ;
}

/// Pixel-byte coordinates within the canvas bounds give flat indices
/// within the canvas buffer.
pub proof fn lemma_pix_in_range(cstride: int, cw: int, ch: int, cy: int, cx: int, c: int)
    requires
        cstride == 4 * cw,
        0 <= cy < ch,
        0 <= cx < cw,
        0 <= c < 4,
    ensures
        0 <= pix_index(cstride, cy, cx, c) < cstride * ch,
{
    assert(0 <= cy * cstride + 4 * cx + c < cstride * ch) by (nonlinear_arith)
        requires
            cstride == 4 * cw,
            0 <= cy < ch,
            0 <= cx < cw,
            0 <= c < 4,
    ;
}

/// Machine bounds under which a frame can be blitted: row offsets stay
/// inside `usize` and edge coordinates inside `i32`.
pub open spec fn spec_blit_bounds_ok(frame: CapturedFrame, xo: int, yo: int) -> bool {
    &&& frame.height * frame.stride + 4 * frame.width <= usize::MAX
    &&& xo + frame.width <= i32::MAX
    &&& yo + frame.height <= i32::MAX
}

/// Blit one row of `frame` onto the canvas.
///
/// Writes the visible part of frame row `row` at canvas row
/// `yo + row`, clipped to the canvas, and leaves every other byte
/// unchanged.
#[verifier::rlimit(80)]
fn blit_row(
    canvas: &mut Vec<u8>,
    canvas_stride: usize,
    frame: &CapturedFrame,
    x_offset: i32,
    y_offset: i32,
    canvas_width: u16,
    canvas_height: u16,
    row: u32,
)
    requires
        row < frame.height,
        canvas_stride == 4 * canvas_width,
        old(canvas)@.len() == canvas_stride * canvas_height,
        spec_blit_bounds_ok(*frame, x_offset as int, y_offset as int),
    ensures
        final(canvas)@.len() == old(canvas)@.len(),
        forall|cy: int, cx: int, c: int|
            0 <= cy < canvas_height && 0 <= cx < canvas_width && 0 <= c < 4
                ==> final(canvas)@[pix_index(canvas_stride as int, cy, cx, c)] == (
            if cy == y_offset + row && spec_src_row_ok(*frame, row as int) && 0 <= cx - x_offset
                < frame.width {
                frame.data@[row * frame.stride + 4 * (cx - x_offset) + c]
            } else {
                old(canvas)@[pix_index(canvas_stride as int, cy, cx, c)]
            }),
{
    let dst_y: i64 = (y_offset as i64) + (row as i64);
    if dst_y < 0 || dst_y >= (canvas_height as i64) {
        return ;
    }
    proof {
        assert(row * frame.stride <= frame.height * frame.stride) by (nonlinear_arith)
            requires
                0 <= row < frame.height,
                frame.stride >= 0,
        ;
    }
    let src_start: usize = (row as usize) * (frame.stride as usize);
    if src_start + 4 * (frame.width as usize) > frame.data.len() {
        return ;
    }
    let dst_x_start: i64 = if x_offset > 0 {
        x_offset as i64
    } else {
        0
    };
    let dst_x_end: i64 = {
        let edge = (x_offset as i64) + (frame.width as i64);
        if edge < (canvas_width as i64) {
            edge
        } else {
            canvas_width as i64
        }
    };
    if dst_x_start >= dst_x_end {
        return ;
    }
    let start: usize = dst_x_start as usize;
    let copy_pixels: usize = (dst_x_end - dst_x_start) as usize;
    let clen: usize = canvas.len();
    let dlen: usize = frame.data.len();
    proof {
        assert((dst_y as int) * (canvas_stride as int) + 4 * (start as int) + 4 * (copy_pixels
            as int) <= (canvas_stride as int) * (canvas_height as int)) by (nonlinear_arith)
            requires
                0 <= dst_y < canvas_height as int,
                canvas_stride == 4 * canvas_width,
                start + copy_pixels <= canvas_width as int,
                start >= 0,
                copy_pixels > 0,
        ;
        assert((canvas_stride as int) * (canvas_height as int) == clen as int);
        assert(dst_x_start - x_offset >= 0);
        assert((dst_x_start - x_offset) + copy_pixels <= frame.width as int);
        assert(src_start + 4 * (frame.width as int) <= dlen as int);
    }
    let dst_off: usize = (dst_y as usize) * canvas_stride + 4 * start;
    let src_off: usize = src_start + 4 * ((dst_x_start - (x_offset as i64)) as usize);
    let nbytes: usize = 4 * copy_pixels;
    let mut k: usize = 0;
    while k < nbytes
        invariant
            0 <= k <= nbytes,
            nbytes == 4 * copy_pixels,
            canvas@.len() == old(canvas)@.len() == canvas_stride * canvas_height,
            canvas_stride == 4 * canvas_width,
            0 <= dst_y < canvas_height as int,
            dst_y == y_offset + row,
            row < frame.height,
            spec_src_row_ok(*frame, row as int),
            0 <= start,
            x_offset <= start,
            start + copy_pixels <= canvas_width,
            copy_pixels > 0,
            start == (if x_offset > 0 { x_offset as int } else { 0 }),
            start + copy_pixels == (if x_offset + frame.width < canvas_width {
                x_offset + frame.width
            } else {
                canvas_width as int
            }),
            dst_off == dst_y * canvas_stride + 4 * start,
            src_off == row * frame.stride + 4 * (start - x_offset),
            src_off + nbytes <= frame.data.len(),
            dst_off + nbytes <= canvas.len(),
            canvas.len() == canvas@.len(),
            forall|cy: int, cx: int, c: int|
                0 <= cy < canvas_height && 0 <= cx < canvas_width && 0 <= c < 4
                    ==> canvas@[pix_index(canvas_stride as int, cy, cx, c)] == (
                if cy == dst_y && start <= cx && 4 * (cx - start) + c < k {
                    frame.data@[row * frame.stride + 4 * (cx - x_offset) + c]
                } else {
                    old(canvas)@[pix_index(canvas_stride as int, cy, cx, c)]
                }),
        decreases nbytes - k,
    {
        let byte = frame.data[src_off + k];
        let ghost prev = canvas@;
        canvas.set(dst_off + k, byte);
        proof {
            let cxk = start + (k as int) / 4;
            let ck = (k as int) % 4;
            assert(4 * ((k as int) / 4) + (k as int) % 4 == k as int);
            assert(cxk < canvas_width as int);
            assert(pix_index(canvas_stride as int, dst_y as int, cxk, ck) == dst_off + k);
            assert(src_off + k == row * frame.stride + 4 * (cxk - x_offset) + ck);
            assert forall|cy: int, cx: int, c: int|
                0 <= cy < canvas_height && 0 <= cx < canvas_width && 0 <= c
                    < 4 implies canvas@[pix_index(canvas_stride as int, cy, cx, c)] == (
            if cy == dst_y && start <= cx && 4 * (cx - start) + c < k + 1 {
                frame.data@[row * frame.stride + 4 * (cx - x_offset) + c]
            } else {
                old(canvas)@[pix_index(canvas_stride as int, cy, cx, c)]
            }) by {
                lemma_pix_in_range(
                    canvas_stride as int,
                    canvas_width as int,
                    canvas_height as int,
                    cy,
                    cx,
                    c,
                );
                if pix_index(canvas_stride as int, cy, cx, c) == dst_off + k {
                    lemma_pix_index_injective(
                        canvas_stride as int,
                        canvas_width as int,
                        cy,
                        cx,
                        c,
                        dst_y as int,
                        cxk,
                        ck,
                    );
                } else {
                    assert(canvas@[pix_index(canvas_stride as int, cy, cx, c)] == prev[pix_index(
                        canvas_stride as int,
                        cy,
                        cx,
                        c,
                    )]);
                }
            }
        }
        k += 1;
    }
    proof {
        assert forall|cy: int, cx: int, c: int|
            0 <= cy < canvas_height && 0 <= cx < canvas_width && 0 <= c
                < 4 implies canvas@[pix_index(canvas_stride as int, cy, cx, c)] == (
        if cy == y_offset + row && spec_src_row_ok(*frame, row as int) && 0 <= cx - x_offset
            < frame.width {
            frame.data@[row * frame.stride + 4 * (cx - x_offset) + c]
        } else {
            old(canvas)@[pix_index(canvas_stride as int, cy, cx, c)]
        }) by {
            if cy == dst_y && 0 <= cx - x_offset < frame.width {
                assert(start <= cx && cx < start + copy_pixels);
                assert(4 * (cx - start) + c < nbytes);
            }
        }
    }
}

/// Blit a single frame onto the canvas at the given offset.
///
/// Every canvas byte whose pixel falls inside the frame (after
/// clipping to the canvas, and only for frame rows whose data is
/// complete at the frame's stride) takes the corresponding frame byte;
/// every other byte keeps its previous value.
pub fn blit_frame(
    canvas: &mut Vec<u8>,
    canvas_stride: usize,
    frame: &CapturedFrame,
    x_offset: i32,
    y_offset: i32,
    canvas_width: u16,
    canvas_height: u16,
)
    requires
        canvas_stride == 4 * canvas_width,
        old(canvas)@.len() == canvas_stride * canvas_height,
        spec_blit_bounds_ok(*frame, x_offset as int, y_offset as int),
    ensures
        final(canvas)@.len() == old(canvas)@.len(),
        forall|cy: int, cx: int, c: int|
            0 <= cy < canvas_height && 0 <= cx < canvas_width && 0 <= c < 4
                ==> final(canvas)@[pix_index(canvas_stride as int, cy, cx, c)]
                == spec_blit_byte(
                old(canvas)@,
                *frame,
                x_offset as int,
                y_offset as int,
                canvas_stride as int,
                cy,
                cx,
                c,
            ),
{
    let mut row: u32 = 0;
    while row < frame.height
        invariant
            0 <= row <= frame.height,
            canvas_stride == 4 * canvas_width,
            canvas@.len() == old(canvas)@.len() == canvas_stride * canvas_height,
            spec_blit_bounds_ok(*frame, x_offset as int, y_offset as int),
            forall|cy: int, cx: int, c: int|
                0 <= cy < canvas_height && 0 <= cx < canvas_width && 0 <= c < 4
                    ==> canvas@[pix_index(canvas_stride as int, cy, cx, c)] == (
                if cy - y_offset < row {
                    spec_blit_byte(
                        old(canvas)@,
                        *frame,
                        x_offset as int,
                        y_offset as int,
                        canvas_stride as int,
                        cy,
                        cx,
                        c,
                    )
                } else {
                    old(canvas)@[pix_index(canvas_stride as int, cy, cx, c)]
                }),
        decreases frame.height - row,
    {
        let ghost prev = canvas@;
        blit_row(
            canvas,
            canvas_stride,
            frame,
            x_offset,
            y_offset,
            canvas_width,
            canvas_height,
            row,
        );
        row += 1;
    }
}

/// The canvas after blitting `frame` at offset `(xo, yo)`, as a
/// function on byte sequences: each flat index is decomposed into its
/// row, column and byte-within-pixel.
pub open spec fn spec_blit_flat(
    canvas: Seq<u8>,
    frame: CapturedFrame,
    xo: int,
    yo: int,
    cw: int,
) -> Seq<u8> {
    let cstride = 4 * cw;
    Seq::new(
        canvas.len(),
        |idx: int|
            spec_blit_byte(
                canvas,
                frame,
                xo,
                yo,
                cstride,
                idx / cstride,
                (idx % cstride) / 4,
                idx % 4,
            ),
    )
}

/// Decomposing a flat canvas index yields in-bounds pixel-byte
/// coordinates that map back to the same index.
proof fn lemma_flat_decompose(cw: int, ch: int, idx: int)
    requires
        cw > 0,
        0 <= idx < 4 * cw * ch,
    ensures
        0 <= idx / (4 * cw) < ch,
        0 <= (idx % (4 * cw)) / 4 < cw,
        0 <= idx % 4 < 4,
        pix_index(4 * cw, idx / (4 * cw), (idx % (4 * cw)) / 4, idx % 4) == idx,
        (idx % (4 * cw)) % 4 == idx % 4,
{
    let cstride = 4 * cw;
    vstd::arithmetic::div_mod::lemma_fundamental_div_mod(idx, cstride);
    vstd::arithmetic::div_mod::lemma_mod_bound(idx, cstride);
    let cy = idx / cstride;
    let rem = idx % cstride;
    assert(0 <= cy < ch) by (nonlinear_arith)
        requires
            0 <= idx < cstride * ch,
            idx == cstride * cy + rem,
            0 <= rem < cstride,
            cstride > 0,
    ;
    vstd::arithmetic::div_mod::lemma_fundamental_div_mod(rem, 4);
    vstd::arithmetic::div_mod::lemma_mod_bound(rem, 4);
    let cx = rem / 4;
    let c2 = rem % 4;
    assert(0 <= cx < cw) by (nonlinear_arith)
        requires
            0 <= rem < 4 * cw,
            rem == 4 * cx + c2,
            0 <= c2 < 4,
    ;
    assert(idx == 4 * (cw * cy + cx) + c2) by (nonlinear_arith)
        requires
            idx == cstride * cy + rem,
            cstride == 4 * cw,
            rem == 4 * cx + c2,
    ;
    vstd::arithmetic::div_mod::lemma_mod_multiples_vanish(cw * cy + cx, c2, 4);
    vstd::arithmetic::div_mod::lemma_small_mod(c2 as nat, 4nat);
    assert(idx % 4 == c2);
    assert(cy * cstride == cstride * cy) by (nonlinear_arith);
    assert(pix_index(cstride, cy, cx, c2) == idx);
}

/// After [`blit_frame`], the canvas equals [`spec_blit_flat`] of its
/// previous contents: the two contract forms agree.
pub proof fn lemma_blit_flat_agrees(
    oldc: Seq<u8>,
    newc: Seq<u8>,
    frame: CapturedFrame,
    xo: int,
    yo: int,
    cstride: int,
    cw: int,
    ch: int,
)
    requires
        cw > 0,
        cstride == 4 * cw,
        oldc.len() == cstride * ch,
        newc.len() == oldc.len(),
        forall|cy: int, cx: int, c: int|
            0 <= cy < ch && 0 <= cx < cw && 0 <= c < 4 ==> #[trigger] newc[pix_index(
                cstride,
                cy,
                cx,
                c,
            )] == spec_blit_byte(oldc, frame, xo, yo, cstride, cy, cx, c),
    ensures
        newc == spec_blit_flat(oldc, frame, xo, yo, cw),
{
    let flat = spec_blit_flat(oldc, frame, xo, yo, cw);
    assert(oldc.len() == 4 * cw * ch) by (nonlinear_arith)
        requires
            cstride == 4 * cw,
            oldc.len() == cstride * ch,
    ;
    assert forall|idx: int| 0 <= idx < newc.len() implies newc[idx] == flat[idx] by {
        lemma_flat_decompose(cw, ch, idx);
    }
    assert(newc =~= flat);
}

/// The composed canvas after folding the frames of monitors `i..` over
/// the accumulator `acc`: each present frame is blitted at its
/// monitor's offset, in order.
pub open spec fn spec_compose_from(
    frames: Seq<Option<CapturedFrame>>,
    monitors: Seq<MonitorInfo>,
    i: int,
    acc: Seq<u8>,
    cw: int,
) -> Seq<u8>
    decreases frames.len() - i,
{
    if i < 0 || i >= frames.len() {
        acc
    } else {
        let acc2 = match frames[i] {
            Some(f) => spec_blit_flat(acc, f, monitors[i].x as int, monitors[i].y as int, cw),
            None => acc,
        };
        spec_compose_from(frames, monitors, i + 1, acc2, cw)
    }
}

/// The fully composed canvas: every present frame blitted in monitor
/// order onto a zeroed canvas of the given size.
pub open spec fn spec_compose_data(
    frames: Seq<Option<CapturedFrame>>,
    monitors: Seq<MonitorInfo>,
    cw: int,
    ch: int,
) -> Seq<u8> {
    spec_compose_from(frames, monitors, 0, Seq::new((4 * cw * ch) as nat, |idx: int| 0u8), cw)
}

/// A zero-filled byte vector of length `n`.
fn zero_vec(n: usize) -> (v: Vec<u8>)
    ensures
        v@ == Seq::new(n as nat, |idx: int| 0u8),
{
    let mut v: Vec<u8> = Vec::new();
    let mut i: usize = 0;
    while i < n
        invariant
            0 <= i <= n,
            v@.len() == i,
            forall|j: int| 0 <= j < i ==> v@[j] == 0u8,
        decreases n - i,
    {
        v.push(0);
        i += 1;
    }
    proof {
        assert(v@ =~= Seq::new(n as nat, |idx: int| 0u8));
    }
    v
}

/// Blit the latest frame of every monitor onto a single BGRA canvas.
///
/// `frames` holds the most recent frame per monitor, position by
/// position; monitors without a frame yet are skipped.  Returns `None`
/// when no monitor has delivered a frame.  The output frame is sized
/// exactly to the given canvas (normally the layout's bounding box),
/// carries the caller's sequence number and reports full-frame damage.
pub fn compose_frames(
    frames: &Vec<Option<CapturedFrame>>,
    monitors: &Vec<MonitorInfo>,
    canvas_width: u16,
    canvas_height: u16,
    sequence: u64,
) -> (r: Option<CapturedFrame>)
    requires
        frames@.len() == monitors@.len(),
        4 * canvas_width * canvas_height <= usize::MAX,
        forall|i: int|
            0 <= i < frames@.len() && (#[trigger] frames@[i]) is Some ==> spec_blit_bounds_ok(
                frames@[i].unwrap(),
                monitors@[i].x as int,
                monitors@[i].y as int,
            ),
    ensures
        r is Some <==> exists|i: int| 0 <= i < frames@.len() && (#[trigger] frames@[i]) is Some,
        r matches Some(f) ==> {
            &&& f.width == canvas_width
            &&& f.height == canvas_height
            &&& f.stride == 4 * canvas_width
            &&& f.format is Bgra
            &&& f.sequence == sequence
            &&& f.data@ == spec_compose_data(
                frames@,
                monitors@,
                canvas_width as int,
                canvas_height as int,
            )
            &&& f.damage matches Some(dv) && dv@ == seq![
                DamageRect {
                    x: 0i32,
                    y: 0i32,
                    width: canvas_width as u32,
                    height: canvas_height as u32,
                },
            ]
        },
{
    let cstride: usize = 4 * (canvas_width as usize);
    proof {
        assert(4 * (canvas_width as int) * (canvas_height as int) == (4 * canvas_width as int) * (
        canvas_height as int)) by (nonlinear_arith);
    }
    let total: usize = cstride * (canvas_height as usize);
    let mut canvas = zero_vec(total);
    let ghost zeros = canvas@;
    let mut any_frame = false;
    let n = monitors.len();
    let mut i: usize = 0;
    while i < n
        invariant
            0 <= i <= n,
            n == monitors@.len() == frames@.len(),
            cstride == 4 * canvas_width,
            total == cstride * canvas_height,
            canvas@.len() == total,
            zeros == Seq::new(total as nat, |idx: int| 0u8),
            forall|j: int|
                0 <= j < n && (#[trigger] frames@[j]) is Some ==> spec_blit_bounds_ok(
                    frames@[j].unwrap(),
                    monitors@[j].x as int,
                    monitors@[j].y as int,
                ),
            spec_compose_from(
                frames@,
                monitors@,
                0,
                zeros,
                canvas_width as int,
            ) == spec_compose_from(frames@, monitors@, i as int, canvas@, canvas_width as int),
            any_frame <==> exists|j: int| 0 <= j < i && (#[trigger] frames@[j]) is Some,
        decreases n - i,
    {
        match &frames[i] {
            Some(f) => {
                any_frame = true;
                let ghost before = canvas@;
                let m = &monitors[i];
                blit_frame(&mut canvas, cstride, f, m.x, m.y, canvas_width, canvas_height);
                proof {
                    if canvas_width > 0 {
                        lemma_blit_flat_agrees(
                            before,
                            canvas@,
                            *f,
                            m.x as int,
                            m.y as int,
                            cstride as int,
                            canvas_width as int,
                            canvas_height as int,
                        );
                    } else {
                        // A zero-width canvas is empty; blitting onto it
                        // is the identity in both contract forms.
                        assert(canvas@ =~= spec_blit_flat(
                            before,
                            *f,
                            m.x as int,
                            m.y as int,
                            canvas_width as int,
                        ));
                    }
                }
            },
            None => {},
        }
        i += 1;
    }
    if !any_frame {
        return None;
    }
    let mut damage: Vec<DamageRect> = Vec::new();
    damage.push(
        DamageRect {
            x: 0,
            y: 0,
            width: canvas_width as u32,
            height: canvas_height as u32,
        },
    );
    proof {
        assert(damage@ =~= seq![
            DamageRect {
                x: 0i32,
                y: 0i32,
                width: canvas_width as u32,
                height: canvas_height as u32,
            },
        ]);
        assert(spec_compose_data(frames@, monitors@, canvas_width as int, canvas_height as int)
            == canvas@);
    }
    Some(
        CapturedFrame {
            data: canvas,
            width: canvas_width as u32,
            height: canvas_height as u32,
            format: PixelFormat::Bgra,
            stride: (4 * (canvas_width as u32)),
            sequence,
            damage: Some(damage),
        },
    )
}

/// Compose the virtual desktop: one canvas sized exactly to the
/// monitors' bounding box, with every monitor's latest frame blitted
/// at its offset.
///
/// The composed frame's size equals the layout's bounding box.  An
/// empty or zero-width layout, or a tick without any frame, yields
/// nothing.
pub fn compose_virtual_desktop(
    frames: &Vec<Option<CapturedFrame>>,
    monitors: &Vec<MonitorInfo>,
    sequence: u64,
) -> (r: Option<CapturedFrame>)
    requires
        frames@.len() == monitors@.len(),
        forall|i: int|
            0 <= i < monitors@.len() ==> (#[trigger] monitors@[i]).x + monitors@[i].width
                <= i32::MAX && monitors@[i].y + monitors@[i].height <= i32::MAX,
        forall|i: int|
            0 <= i < frames@.len() && (#[trigger] frames@[i]) is Some ==> spec_blit_bounds_ok(
                frames@[i].unwrap(),
                monitors@[i].x as int,
                monitors@[i].y as int,
            ),
        4 * spec_clamp_u16(spec_max_right(monitors@)) * spec_clamp_u16(
            spec_max_bottom(monitors@),
        ) <= usize::MAX,
    ensures
        r is Some <==> exists|i: int| 0 <= i < frames@.len() && (#[trigger] frames@[i]) is Some,
        r matches Some(f) ==> {
            &&& f.width == spec_clamp_u16(spec_max_right(monitors@))
            &&& f.height == spec_clamp_u16(spec_max_bottom(monitors@))
            &&& f.stride == 4 * spec_clamp_u16(spec_max_right(monitors@))
            &&& f.format is Bgra
            &&& f.sequence == sequence
            &&& f.data@ == spec_compose_data(
                frames@,
                monitors@,
                spec_clamp_u16(spec_max_right(monitors@)),
                spec_clamp_u16(spec_max_bottom(monitors@)),
            )
            &&& f.damage matches Some(dv) && dv@ == seq![
                DamageRect {
                    x: 0i32,
                    y: 0i32,
                    width: spec_clamp_u16(spec_max_right(monitors@)) as u32,
                    height: spec_clamp_u16(spec_max_bottom(monitors@)) as u32,
                },
            ]
        },
{
    let (width, height) = bounding_box(monitors);
    compose_frames(frames, monitors, width, height, sequence)
}

/// Adjust a cursor position by a monitor's offset in the virtual
/// desktop.
pub fn adjust_cursor(cursor: CursorInfo, x_offset: i32, y_offset: i32) -> (r: CursorInfo)
    requires
        i32::MIN <= cursor.x + x_offset <= i32::MAX,
        i32::MIN <= cursor.y + y_offset <= i32::MAX,
    ensures
        r.x == cursor.x + x_offset,
        r.y == cursor.y + y_offset,
        r.visible == cursor.visible,
        r.bitmap == cursor.bitmap,
{
    CursorInfo {
        x: cursor.x + x_offset,
        y: cursor.y + y_offset,
        visible: cursor.visible,
        bitmap: cursor.bitmap,
    }
}

} // verus!
