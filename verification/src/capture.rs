//! Capture-side frame processing: dimension inference, channel-order
//! fixing, cursor bitmap conversion and audio chunk timing.
//!
//! The media stack delivers raw buffers on its own thread; the logic
//! that turns them into frames of the server's internal BGRA format is
//! here, on plain values.

use vstd::prelude::*;

verus! {

/// Errors of the video capture stream.
#[derive(Debug, Clone, Copy, PartialEq, Eq, Structural)]
pub enum PwError {
    /// The capture main loop could not be created.
    MainLoop,
    /// The capture context could not be created.
    Context,
    /// The portal's file descriptor could not be connected.
    ConnectFd,
    /// The capture stream could not be created.
    CreateStream,
    /// The stream listener could not be registered.
    RegisterListener,
    /// The stream could not be connected to the node.
    StreamConnect,
    /// The capture thread could not be spawned.
    SpawnThread,
}

/// Errors of the audio capture stream.
#[derive(Debug, Clone, Copy, PartialEq, Eq, Structural)]
pub enum AudioCaptureError {
    /// The audio main loop could not be created.
    MainLoop,
    /// The audio context could not be created.
    Context,
    /// The audio service could not be connected.
    Connect,
    /// The audio stream could not be created.
    CreateStream,
    /// The audio stream listener could not be registered.
    RegisterListener,
    /// The audio stream could not be connected.
    StreamConnect,
    /// The audio thread could not be spawned.
    SpawnThread,
}

/// Errors of the capture session as a whole.
#[derive(Debug, Clone, Copy, PartialEq, Eq, Structural)]
pub enum CaptureError {
    /// The screen-cast portal session failed.
    Portal,
    /// The capture stream failed.
    PipeWire(PwError),
}

/// The prefix of a damage-region list before its first zero-size
/// rectangle, which terminates the list in the buffer metadata.
pub open spec fn spec_damage_until_sentinel(rects: Seq<crate::frame::DamageRect>) -> Seq<
    crate::frame::DamageRect,
>
    decreases rects.len(),
{
    if rects.len() == 0 {
        Seq::empty()
    } else if rects[0].width == 0 && rects[0].height == 0 {
        Seq::empty()
    } else {
        seq![rects[0]] + spec_damage_until_sentinel(rects.drop_first())
    }
}

/// Keep the damage rectangles before the zero-size sentinel that
/// terminates the metadata array.
pub fn damage_until_sentinel(rects: &Vec<crate::frame::DamageRect>) -> (r: Vec<
    crate::frame::DamageRect,
>)
    ensures
        r@ == spec_damage_until_sentinel(rects@),
{
    let mut out: Vec<crate::frame::DamageRect> = Vec::new();
    let n = rects.len();
    let mut i: usize = 0;
    while i < n
        invariant
            0 <= i <= n,
            n == rects@.len(),
            out@ == rects@.take(i as int),
            forall|j: int|
                0 <= j < i ==> !((#[trigger] rects@[j]).width == 0 && rects@[j].height == 0),
        decreases n - i,
    {
        let rect = &rects[i];
        if rect.width == 0 && rect.height == 0 {
            proof {
                lemma_damage_sentinel_at(rects@, i as int);
            }
            return out;
        }
        out.push(crate::frame::DamageRect {
            x: rect.x,
            y: rect.y,
            width: rect.width,
            height: rect.height,
        });
        proof {
            assert(out@ =~= rects@.take(i + 1));
        }
        i += 1;
    }
    proof {
        assert(rects@.take(n as int) =~= rects@);
        lemma_damage_sentinel_at(rects@, n as int);
    }
    out
}

/// If no rectangle before `i` is the sentinel and the one at `i` is
/// (or `i` is the end), the kept prefix is exactly the first `i`
/// rectangles.
proof fn lemma_damage_sentinel_at(rects: Seq<crate::frame::DamageRect>, i: int)
    requires
        0 <= i <= rects.len(),
        forall|j: int|
            0 <= j < i ==> !((#[trigger] rects[j]).width == 0 && rects[j].height == 0),
        i < rects.len() ==> rects[i].width == 0 && rects[i].height == 0,
    ensures
        spec_damage_until_sentinel(rects) == rects.take(i),
    decreases rects.len(),
{
    if rects.len() == 0 {
        assert(rects.take(i) =~= Seq::<crate::frame::DamageRect>::empty());
    } else if i == 0 {
        assert(rects.take(0) =~= Seq::<crate::frame::DamageRect>::empty());
    } else {
        lemma_damage_sentinel_at(rects.drop_first(), i - 1);
        assert(rects.drop_first().take(i - 1) =~= rects.take(i).drop_first());
        assert(seq![rects[0]] + rects.take(i).drop_first() =~= rects.take(i));
    }
}

/// Infer frame dimensions from a buffer's stride and size: four bytes
/// per pixel, one row per stride.  Degenerate buffers are rejected.
pub fn infer_frame_dims(stride: u32, size: usize) -> (r: Option<(u32, u32)>)
    requires
        size <= u32::MAX,
    ensures
        stride == 0 || size == 0 ==> r is None,
        stride != 0 && size != 0 ==> {
            let w = stride as int / 4;
            let h = size as int / stride as int;
            if w == 0 || h == 0 {
                r is None
            } else {
                r == Some((w as u32, h as u32))
            }
        },
{
    if stride == 0 || size == 0 {
        return None;
    }
    let width: u32 = stride / 4;
    let height: u32 = (size as u32) / stride;
    if width == 0 || height == 0 {
        return None;
    }
    Some((width, height))
}

/// Whether the pixel bytes must have their R and B channels swapped to
/// reach the server's internal BGRA order: exactly when the source is
/// in RGB order, inverted by the field-debugging override.
pub fn needs_rb_swap(format_is_rgb_order: bool, swap_colors: bool) -> (r: bool)
    ensures
        r == (format_is_rgb_order != swap_colors),
{
    format_is_rgb_order != swap_colors
}

/// Swap the R and B channels of every complete four-byte pixel,
/// turning RGBA byte order into BGRA (and back).
pub fn swap_rb_channels(data: &mut Vec<u8>)
    ensures
        final(data)@.len() == old(data)@.len(),
        forall|j: int|
            0 <= j < old(data)@.len() ==> final(data)@[j] == (
            if j % 4 == 0 && j + 4 <= old(data)@.len() {
                old(data)@[j + 2]
            } else if j % 4 == 2 && j + 2 <= old(data)@.len() {
                old(data)@[j - 2]
            } else {
                old(data)@[j]
            }),
{
    let len = data.len();
    let mut i: usize = 0;
    while len - i >= 4
        invariant
            len == data@.len(),
            i % 4 == 0,
            i <= len,
            forall|j: int|
                0 <= j < len ==> data@[j] == (
                if j < i && j % 4 == 0 {
                    old(data)@[j + 2]
                } else if j < i && j % 4 == 2 {
                    old(data)@[j - 2]
                } else {
                    old(data)@[j]
                }),
        decreases len - i,
    {
        let b0 = data[i];
        let b2 = data[i + 2];
        data.set(i, b2);
        data.set(i + 2, b0);
        i += 4;
    }
    proof {
        assert forall|j: int| 0 <= j < len implies (#[trigger] data@[j]) == (
        if j % 4 == 0 && j + 4 <= len {
            old(data)@[j + 2]
        } else if j % 4 == 2 && j + 2 <= len {
            old(data)@[j - 2]
        } else {
            old(data)@[j]
        }) by {
            if j >= i {
                if j % 4 == 0 && j + 4 <= len {
                    assert((j - i) % 4 == 0) by (nonlinear_arith)
                        requires
                            i % 4 == 0,
                            j % 4 == 0,
                            j >= i >= 0,
                    ;
                    assert(i + 4 <= len);
                    assert(false);
                } else if j % 4 == 2 && j + 2 <= len {
                    assert((j - i) % 4 == 2) by (nonlinear_arith)
                        requires
                            i % 4 == 0,
                            j % 4 == 2,
                            j >= i >= 0,
                    ;
                    assert(j - i >= 2);
                    assert(i + 4 <= len);
                    assert(false);
                }
            }
        }
    }
}

/// The flat index of channel `c` of pixel `(row, col)` in a packed
/// RGBA buffer of width `w`.
pub open spec fn spec_rgba_index(w: int, row: int, col: int, c: int) -> int {
    (row * w + col) * 4 + c
}

/// The source channel of RGBA channel `c` in ARGB memory order (B, G,
/// R, A on a little-endian machine): R and B trade places.
pub open spec fn spec_argb_src_channel(c: int) -> int {
    if c == 0 {
        2int
    } else if c == 1 {
        1int
    } else if c == 2 {
        0int
    } else {
        3int
    }
}

/// Convert a cursor bitmap from ARGB memory order to RGBA, dropping
/// any row padding.
pub fn argb_rows_to_rgba(data: &Vec<u8>, width: u32, height: u32, stride: usize) -> (r: Vec<u8>)
    requires
        4 * width <= stride,
        height * stride == data.len(),
        4 * width * height <= usize::MAX,
    ensures
        r@.len() == 4 * width * height,
        forall|row: int, col: int, c: int|
            0 <= row < height && 0 <= col < width && 0 <= c < 4 ==> r@[spec_rgba_index(
                width as int,
                row,
                col,
                c,
            )] == data@[row * stride + 4 * col + spec_argb_src_channel(c)],
{
    let mut out: Vec<u8> = Vec::new();
    let w = width as usize;
    let h = height as usize;
    let dlen = data.len();
    let mut row: usize = 0;
    while row < h
        invariant
            0 <= row <= h,
            w == width as int,
            h == height as int,
            4 * w <= stride,
            h * stride == dlen,
            dlen == data.len(),
            4 * w * h <= usize::MAX,
            out@.len() == row * (4 * w),
            forall|pr: int, pc: int, c: int|
                0 <= pr < row && 0 <= pc < w && 0 <= c < 4 ==> out@[spec_rgba_index(
                    w as int,
                    pr,
                    pc,
                    c,
                )] == data@[pr * stride + 4 * pc + spec_argb_src_channel(c)],
        decreases h - row,
    {
        proof {
            assert(row * stride + 4 * w <= h * stride) by (nonlinear_arith)
                requires
                    0 <= row < h,
                    0 <= 4 * w <= stride,
            ;
            assert(row * (4 * w) + 4 * w <= 4 * w * h) by (nonlinear_arith)
                requires
                    0 <= row < h,
                    w >= 0,
            ;
        }
        let row_base: usize = row * stride;
        let mut col: usize = 0;
        while col < w
            invariant
                0 <= col <= w,
                0 <= row < h,
                w == width as int,
                h == height as int,
                4 * w <= stride,
                h * stride == dlen,
                dlen == data.len(),
                4 * w * h <= usize::MAX,
                row_base == row * stride,
                row * stride + 4 * w <= h * stride,
                row * (4 * w) + 4 * w <= 4 * w * h,
                out@.len() == row * (4 * w) + 4 * col,
                forall|pr: int, pc: int, c: int|
                    0 <= pr < row && 0 <= pc < w && 0 <= c < 4 ==> out@[spec_rgba_index(
                        w as int,
                        pr,
                        pc,
                        c,
                    )] == data@[pr * stride + 4 * pc + spec_argb_src_channel(c)],
                forall|pc: int, c: int|
                    0 <= pc < col && 0 <= c < 4 ==> out@[spec_rgba_index(
                        w as int,
                        row as int,
                        pc,
                        c,
                    )] == data@[row * stride + 4 * pc + spec_argb_src_channel(c)],
            decreases w - col,
        {
            let px = row_base + 4 * col;
            let ghost before = out@;
            out.push(data[px + 2]);
            out.push(data[px + 1]);
            out.push(data[px]);
            out.push(data[px + 3]);
            proof {
                let base = row * (4 * (w as int)) + 4 * col;
                assert(base == before.len());
                assert(out@ =~= before + seq![
                    data@[px + 2],
                    data@[px + 1],
                    data@[px as int],
                    data@[px + 3],
                ]);
                assert forall|pr: int, pc: int, c: int|
                    ((0 <= pr < row && 0 <= pc < w) || (pr == row && 0 <= pc <= col)) && 0 <= c
                        < 4 implies out@[spec_rgba_index(w as int, pr, pc, c)] == data@[pr * stride
                    + 4 * pc + spec_argb_src_channel(c)] by {
                    let idx = spec_rgba_index(w as int, pr, pc, c);
                    assert(idx == pr * (4 * (w as int)) + 4 * pc + c) by (nonlinear_arith)
                        requires
                            idx == (pr * (w as int) + pc) * 4 + c,
                    ;
                    if pr == row && pc == col {
                        assert(idx == base + c);
                        assert(out@[base + c] == data@[px + spec_argb_src_channel(c)]);
                    } else {
                        assert(idx < base) by (nonlinear_arith)
                            requires
                                0 <= pc < w,
                                0 <= c < 4,
                                0 <= pr <= row,
                                pr < row || pc < col,
                                idx == pr * (4 * (w as int)) + 4 * pc + c,
                                base == row * (4 * (w as int)) + 4 * col,
                        ;
                        assert(out@[idx] == before[idx]);
                    }
                }
            }
            col += 1;
        }
        proof {
            assert(row * (4 * w) + 4 * w == (row + 1) * (4 * w)) by (nonlinear_arith);
        }
        row += 1;
    }
    proof {
        assert(h * (4 * w) == 4 * w * h) by (nonlinear_arith);
    }
    out
}

/// The wave timestamp of an audio chunk, in milliseconds, derived
/// from its sequence number at the stream's sample rate; the protocol
/// field wraps at 32 bits.
pub fn audio_wave_timestamp(sequence: u64, sample_rate: u32) -> (r: u32)
    requires
        sample_rate > 0,
        sequence <= u64::MAX / 1000,
    ensures
        r == (sequence * 1000 / (sample_rate as int)) % 0x1_0000_0000,
{
    let ms: u64 = sequence * 1000 / (sample_rate as u64);
    let wrapped: u64 = ms % 0x1_0000_0000;
    wrapped as u32
}

/// The PCM block alignment and average byte rate advertised for audio
/// forwarding: 16-bit samples, so two bytes per channel per sample.
pub fn pcm_format_params(channels: u16, sample_rate: u32) -> (r: (u16, u32))
    requires
        2 * channels <= u16::MAX,
        2 * channels * sample_rate <= u32::MAX,
    ensures
        r.0 == 2 * channels,
        r.1 == 2 * channels * sample_rate,
{
    let block_align: u16 = 2 * channels;
    proof {
        assert((block_align as int) * (sample_rate as int) == 2 * (channels as int) * (
        sample_rate as int)) by (nonlinear_arith)
            requires
                block_align as int == 2 * channels as int,
        ;
    }
    let avg: u32 = (block_align as u32) * sample_rate;
    (block_align, avg)
}

} // verus!
