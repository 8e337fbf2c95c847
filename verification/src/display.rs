//! Display-side logic of the per-user server: the static fallback
//! display, pointer and bitmap conversion, the frame-delivery policy
//! and the cursor-pairing sequencer.

use vstd::prelude::*;

use crate::compositor::pix_index;
use crate::frame::{CaptureEvent, CapturedFrame, CursorInfo};

verus! {

/// The default desktop width before capture reports a size.
pub const DEFAULT_WIDTH: u16 = 1920;

/// The default desktop height before capture reports a size.
pub const DEFAULT_HEIGHT: u16 = 1080;

/// Information about the captured desktop.
#[derive(Debug, Clone)]
pub struct DesktopInfo {
    /// Desktop width in pixels.
    pub width: u16,
    /// Desktop height in pixels.
    pub height: u16,
    /// Capture node ID.
    pub node_id: u32,
    /// Restore token for reconnecting to the same portal session.
    pub restore_token: Option<String>,
}

/// Credentials for network-level authentication.
pub struct AuthCredentials {
    /// Username.
    pub username: String,
    /// Password.
    pub password: String,
    /// Windows domain (optional).
    pub domain: Option<String>,
}

/// Input handler that accepts events and takes no action; used before
/// input injection is available and in view-only mode.
pub struct StaticInputHandler;

/// Display of a fixed resolution whose single update is a solid blue
/// bitmap; the fallback when live capture cannot start.
pub struct StaticDisplay {
    /// Reported width.
    pub width: u16,
    /// Reported height.
    pub height: u16,
}

impl StaticDisplay {
    /// A static display of the given size.
    pub fn new(width: u16, height: u16) -> (r: Self)
        ensures
            r.width == width,
            r.height == height,
    {
        StaticDisplay { width, height }
    }

    /// The advertised desktop size.
    pub fn size(&self) -> (r: (u16, u16))
        ensures
            r.0 == self.width,
            r.1 == self.height,
    {
        (self.width, self.height)
    }
}

impl Default for StaticDisplay {
    /// The default capture resolution.
    fn default() -> (r: Self)
        ensures
            r.width == 1920,
            r.height == 1080,
    {
        StaticDisplay { width: DEFAULT_WIDTH, height: DEFAULT_HEIGHT }
    }
}

/// The blue of the fallback screen, as BGRA bytes.
pub open spec fn spec_blue_bgra(c: int) -> u8 {
    if c == 0 {
        0xCCu8
    } else if c == 1 {
        0x44u8
    } else if c == 2 {
        0x11u8
    } else {
        0xFFu8
    }
}

/// The pixels of the static blue screen: every pixel is the same BGRA
/// blue.
pub fn create_blue_pixels(width: u16, height: u16) -> (r: Vec<u8>)
    requires
        4 * width * height <= usize::MAX,
    ensures
        r@.len() == 4 * width * height,
        forall|j: int| 0 <= j < r@.len() ==> r@[j] == spec_blue_bgra(j % 4),
{
    let w = width as usize;
    let h = height as usize;
    proof {
        assert((w * 4) * h == 4 * (w * h)) by (nonlinear_arith);
        assert(4 * (w * h) == 4 * w * h) by (nonlinear_arith);
        vstd::arithmetic::div_mod::lemma_mod_multiples_vanish(w * h, 0, 4);
    }
    let stride = w * 4;
    let total = stride * h;
    let mut data: Vec<u8> = Vec::new();
    let mut i: usize = 0;
    while i < total
        invariant
            0 <= i <= total,
            i % 4 == 0,
            total % 4 == 0,
            total == 4 * width * height,
            data@.len() == i,
            forall|j: int| 0 <= j < i ==> data@[j] == spec_blue_bgra(j % 4),
        decreases total - i,
    {
        data.push(0xCC);
        data.push(0x44);
        data.push(0x11);
        data.push(0xFF);
        proof {
            assert forall|j: int| i <= j < i + 4 implies data@[j] == spec_blue_bgra(j % 4) by {
                assert((j - i) % 4 == j % 4) by (nonlinear_arith)
                    requires
                        i % 4 == 0,
                        i <= j < i + 4,
                ;
            }
        }
        i += 4;
    }
    data
}

/// One byte of the RGBW color test pattern in BGRA order: red in the
/// top-left quadrant, green top-right, blue bottom-left, white
/// bottom-right.  A channel swap anywhere in the encode/decode
/// pipeline shows up as a wrongly colored quadrant.
pub open spec fn spec_pattern_byte(w: int, h: int, x: int, y: int, c: int) -> u8 {
    let top = y < h / 2;
    let left = x < w / 2;
    if top && left {
        // Red: B=0, G=0, R=0xFF.
        if c == 2 || c == 3 {
            0xFFu8
        } else {
            0x00u8
        }
    } else if top {
        // Green.
        if c == 1 || c == 3 {
            0xFFu8
        } else {
            0x00u8
        }
    } else if left {
        // Blue.
        if c == 0 || c == 3 {
            0xFFu8
        } else {
            0x00u8
        }
    } else {
        // White.
        0xFFu8
    }
}

/// Create the RGBW quadrant test pattern for visual color
/// verification, in BGRA pixel order.
pub fn create_color_test_pattern(width: u16, height: u16) -> (r: Vec<u8>)
    requires
        4 * width * height <= usize::MAX,
    ensures
        r@.len() == 4 * width * height,
        forall|x: int, y: int, c: int|
            0 <= x < width && 0 <= y < height && 0 <= c < 4 ==> r@[pix_index(
                4 * width as int,
                y,
                x,
                c,
            )] == spec_pattern_byte(width as int, height as int, x, y, c),
{
    let w = width as usize;
    let h = height as usize;
    let half_w = w / 2;
    let half_h = h / 2;
    let mut data: Vec<u8> = Vec::new();
    let mut y: usize = 0;
    while y < h
        invariant
            0 <= y <= h,
            w == width as int,
            h == height as int,
            half_w == w / 2,
            half_h == h / 2,
            4 * w * h <= usize::MAX,
            data@.len() == y * (4 * w),
            forall|px: int, py: int, c: int|
                0 <= px < w && 0 <= py < y && 0 <= c < 4 ==> data@[pix_index(
                    4 * w as int,
                    py,
                    px,
                    c,
                )] == spec_pattern_byte(w as int, h as int, px, py, c),
        decreases h - y,
    {
        proof {
            assert(y * (4 * w) + 4 * w <= 4 * w * h) by (nonlinear_arith)
                requires
                    0 <= y < h,
                    w >= 0,
            ;
        }
        let mut x: usize = 0;
        while x < w
            invariant
                0 <= x <= w,
                0 <= y < h,
                w == width as int,
                h == height as int,
                half_w == w / 2,
                half_h == h / 2,
                4 * w * h <= usize::MAX,
                y * (4 * w) + 4 * w <= 4 * w * h,
                data@.len() == y * (4 * w) + 4 * x,
                forall|px: int, py: int, c: int|
                    0 <= px < w && 0 <= py < y && 0 <= c < 4 ==> data@[pix_index(
                        4 * w as int,
                        py,
                        px,
                        c,
                    )] == spec_pattern_byte(w as int, h as int, px, py, c),
                forall|px: int, c: int|
                    0 <= px < x && 0 <= c < 4 ==> data@[pix_index(4 * w as int, y as int, px, c)]
                        == spec_pattern_byte(w as int, h as int, px, y as int, c),
            decreases w - x,
        {
            let top = y < half_h;
            let left = x < half_w;
            let pixel: (u8, u8, u8, u8) = if top && left {
                (0x00, 0x00, 0xFF, 0xFF)
            } else if top {
                (0x00, 0xFF, 0x00, 0xFF)
            } else if left {
                (0xFF, 0x00, 0x00, 0xFF)
            } else {
                (0xFF, 0xFF, 0xFF, 0xFF)
            };
            let ghost before = data@;
            data.push(pixel.0);
            data.push(pixel.1);
            data.push(pixel.2);
            data.push(pixel.3);
            proof {
                let base = y * (4 * (w as int)) + 4 * x;
                assert(base == pix_index(4 * w as int, y as int, x as int, 0));
                assert forall|px: int, py: int, c: int|
                    (0 <= px < w && 0 <= py < y && 0 <= c < 4) || (0 <= px <= x && py == y && 0
                        <= c < 4) implies data@[pix_index(4 * w as int, py, px, c)]
                    == spec_pattern_byte(w as int, h as int, px, py, c) by {
                    let idx = pix_index(4 * w as int, py, px, c);
                    if py == y && px == x {
                        assert(idx == base + c);
                    } else {
                        assert(idx == py * (4 * (w as int)) + 4 * px + c);
                        assert(idx < base) by (nonlinear_arith)
                            requires
                                0 <= px < w,
                                0 <= c < 4,
                                0 <= py <= y,
                                py < y || px < x,
                                idx == py * (4 * (w as int)) + 4 * px + c,
                                base == y * (4 * (w as int)) + 4 * x,
                        ;
                        assert(data@[idx] == before[idx]);
                    }
                }
            }
            x += 1;
        }
        proof {
            assert(y * (4 * w) + 4 * w == (y + 1) * (4 * w)) by (nonlinear_arith);
        }
        y += 1;
    }
    proof {
        assert(h * (4 * w) == 4 * w * h && 4 * w * h == 4 * width * height) by (nonlinear_arith)
            requires
                w == width as int,
                h == height as int,
        ;
    }
    data
}

/// A pointer update for the RDP client, derived from a captured
/// cursor.
#[derive(Debug)]
pub enum PointerUpdate {
    /// Hide the pointer.
    Hide,
    /// Replace the pointer shape with an RGBA bitmap.
    Rgba {
        /// Bitmap width in pixels.
        width: u16,
        /// Bitmap height in pixels.
        height: u16,
        /// Hotspot X.
        hot_x: u16,
        /// Hotspot Y.
        hot_y: u16,
        /// RGBA pixel data.
        data: Vec<u8>,
    },
    /// Move the pointer.
    Position {
        /// X position.
        x: u16,
        /// Y position.
        y: u16,
    },
}

/// Convert a captured cursor to the pointer update it stands for: an
/// invisible cursor hides the pointer, a bitmap replaces its shape,
/// and a bare position moves it (negative coordinates clamp to zero).
pub fn cursor_to_pointer_update(cursor: CursorInfo) -> (r: PointerUpdate)
    requires
        cursor.bitmap matches Some(b) ==> b.width <= u16::MAX && b.height <= u16::MAX && b.hot_x
            <= u16::MAX && b.hot_y <= u16::MAX,
        cursor.x <= u16::MAX,
        cursor.y <= u16::MAX,
    ensures
        !cursor.visible ==> r is Hide,
        cursor.visible ==> (cursor.bitmap matches Some(b) ==> (r matches PointerUpdate::Rgba {
            width,
            height,
            hot_x,
            hot_y,
            data,
        } && width == b.width && height == b.height && hot_x == b.hot_x && hot_y == b.hot_y
            && data == b.data)),
        cursor.visible && cursor.bitmap is None ==> (r matches PointerUpdate::Position { x, y }
            && x == (if cursor.x < 0 {
            0int
        } else {
            cursor.x as int
        }) && y == (if cursor.y < 0 {
            0int
        } else {
            cursor.y as int
        })),
{
    if !cursor.visible {
        return PointerUpdate::Hide;
    }
    match cursor.bitmap {
        Some(b) => PointerUpdate::Rgba {
            width: b.width as u16,
            height: b.height as u16,
            hot_x: b.hot_x as u16,
            hot_y: b.hot_y as u16,
            data: b.data,
        },
        None => {
            let x: u16 = if cursor.x < 0 {
                0
            } else {
                cursor.x as u16
            };
            let y: u16 = if cursor.y < 0 {
                0
            } else {
                cursor.y as u16
            };
            PointerUpdate::Position { x, y }
        },
    }
}

/// Why a captured frame cannot be sent as a bitmap update.
#[derive(Debug, Clone, Copy, PartialEq, Eq, Structural)]
pub enum BitmapError {
    /// The frame width exceeds the protocol's 16-bit field.
    WidthTooLarge,
    /// The frame height exceeds the protocol's 16-bit field.
    HeightTooLarge,
    /// The frame width is zero.
    WidthZero,
    /// The frame height is zero.
    HeightZero,
    /// The frame stride is zero.
    StrideZero,
}

/// A validated full-screen bitmap update at origin (0, 0).
#[derive(Debug)]
pub struct BitmapUpdateParams {
    /// Width in pixels (nonzero).
    pub width: u16,
    /// Height in pixels (nonzero).
    pub height: u16,
    /// Row stride in bytes (nonzero).
    pub stride: usize,
    /// BGRA pixel data.
    pub data: Vec<u8>,
}

/// Validate a captured frame as a raw bitmap update.
///
/// Accepts exactly the frames with nonzero dimensions and stride that
/// fit the protocol's 16-bit size fields, and carries the pixel data
/// through unchanged.
pub fn frame_to_bitmap(frame: CapturedFrame) -> (r: Result<BitmapUpdateParams, BitmapError>)
    ensures
        r is Ok <==> 0 < frame.width <= u16::MAX && 0 < frame.height <= u16::MAX && frame.stride
            > 0,
        r matches Ok(b) ==> b.width == frame.width && b.height == frame.height && b.stride
            == frame.stride && b.data == frame.data,
        frame.width > u16::MAX ==> r == Err::<BitmapUpdateParams, BitmapError>(
            BitmapError::WidthTooLarge,
        ),
        frame.width <= u16::MAX && frame.height > u16::MAX ==> r == Err::<
            BitmapUpdateParams,
            BitmapError,
        >(BitmapError::HeightTooLarge),
        frame.width <= u16::MAX && frame.height <= u16::MAX && frame.width == 0 ==> r == Err::<
            BitmapUpdateParams,
            BitmapError,
        >(BitmapError::WidthZero),
        0 < frame.width <= u16::MAX && frame.height <= u16::MAX && frame.height == 0 ==> r
            == Err::<BitmapUpdateParams, BitmapError>(BitmapError::HeightZero),
        0 < frame.width <= u16::MAX && 0 < frame.height <= u16::MAX && frame.stride == 0 ==> r
            == Err::<BitmapUpdateParams, BitmapError>(BitmapError::StrideZero),
{
    if frame.width > u16::MAX as u32 {
        return Err(BitmapError::WidthTooLarge);
    }
    if frame.height > u16::MAX as u32 {
        return Err(BitmapError::HeightTooLarge);
    }
    if frame.width == 0 {
        return Err(BitmapError::WidthZero);
    }
    if frame.height == 0 {
        return Err(BitmapError::HeightZero);
    }
    if frame.stride == 0 {
        return Err(BitmapError::StrideZero);
    }
    Ok(
        BitmapUpdateParams {
            width: frame.width as u16,
            height: frame.height as u16,
            stride: frame.stride as usize,
            data: frame.data,
        },
    )
}

/// How many frames to suppress while the EGFX handshake is in flight:
/// about ten seconds at thirty frames per second.  Sending bitmaps at
/// the capture resolution during the handshake crashes clients whose
/// desktop is smaller.
pub const EGFX_WAIT_FRAMES: u32 = 300;

/// What to do with a captured frame after the EGFX path had its
/// chance.
#[derive(Debug, Clone, Copy, PartialEq, Eq, Structural)]
pub enum FrameAction {
    /// The frame went out over EGFX; nothing more to send.
    Done,
    /// Drop the frame: EGFX is still negotiating.
    Suppress,
    /// Send the frame as a raw bitmap update.
    Bitmap,
}

/// Decide the fate of one captured frame.
///
/// A frame already sent over EGFX is done.  Otherwise, while an EGFX
/// controller exists and the wait window has not elapsed, the frame is
/// suppressed and the window advances; after the window (or with no
/// EGFX at all) the frame falls back to a bitmap update.
pub fn frame_fallback_action(egfx_present: bool, egfx_sent: bool, wait_frames: &mut u32) -> (r:
    FrameAction)
    ensures
        egfx_sent ==> r is Done && *final(wait_frames) == *old(wait_frames),
        !egfx_sent && egfx_present && *old(wait_frames) < EGFX_WAIT_FRAMES ==> r is Suppress && *
        final(wait_frames) == *old(wait_frames) + 1,
        !egfx_sent && !(egfx_present && *old(wait_frames) < EGFX_WAIT_FRAMES) ==> r is Bitmap && *
        final(wait_frames) == *old(wait_frames),
{
    if egfx_sent {
        FrameAction::Done
    } else if egfx_present && *wait_frames < EGFX_WAIT_FRAMES {
        *wait_frames = *wait_frames + 1;
        FrameAction::Suppress
    } else {
        FrameAction::Bitmap
    }
}

/// Whether the lazily created encoder must be rebuilt for this frame:
/// it exists but its dimensions no longer match the frame's.
pub fn encoder_needs_recreate(
    encoder_present: bool,
    encoder_width: u32,
    encoder_height: u32,
    frame_width: u32,
    frame_height: u32,
) -> (r: bool)
    ensures
        r <==> encoder_present && (frame_width != encoder_width || frame_height
            != encoder_height),
{
    encoder_present && (frame_width != encoder_width || frame_height != encoder_height)
}

/// What to do with a client's layout request.
#[derive(Debug, Clone, Copy, PartialEq, Eq, Structural)]
pub enum ResizeDecision {
    /// The dimensions are unchanged: nothing to do.
    Unchanged,
    /// Route the resize through the graphics pipeline's reset.
    ApplyViaEgfx,
    /// The graphics pipeline is not ready: a bare resize is known to
    /// break clients, so the request is ignored.
    Ignore,
}

/// Decide what to do with the primary monitor's dimensions from a
/// layout request: nothing when they are unchanged, a graphics-
/// pipeline reset when the channel is ready, and nothing otherwise.
pub fn resize_decision(
    current_width: u16,
    current_height: u16,
    new_width: u16,
    new_height: u16,
    egfx_ready: bool,
) -> (r: ResizeDecision)
    ensures
        new_width == current_width && new_height == current_height ==> r is Unchanged,
        (new_width != current_width || new_height != current_height) && egfx_ready
            ==> r is ApplyViaEgfx,
        (new_width != current_width || new_height != current_height) && !egfx_ready
            ==> r is Ignore,
{
    if new_width == current_width && new_height == current_height {
        ResizeDecision::Unchanged
    } else if egfx_ready {
        ResizeDecision::ApplyViaEgfx
    } else {
        ResizeDecision::Ignore
    }
}

/// One step of the display update stream.
#[derive(Debug)]
pub enum DisplayStep {
    /// Deliver this frame.
    EmitFrame(CapturedFrame),
    /// Deliver this cursor update.
    EmitCursor(CursorInfo),
}

/// Sequencer that pairs frames with their cursors without reordering:
/// when a frame and a cursor arrive together, the frame goes out first
/// and the cursor is held for the next poll.
pub struct UpdateSequencer {
    /// The cursor buffered from the last combined event.
    pub pending_cursor: Option<CursorInfo>,
}

impl UpdateSequencer {
    /// A sequencer with nothing buffered.
    pub fn new() -> (r: Self)
        ensures
            r.pending_cursor is None,
    {
        UpdateSequencer { pending_cursor: None }
    }

    /// Take the buffered cursor, if any; it must be delivered before
    /// the next capture event is consumed.
    pub fn take_pending(&mut self) -> (r: Option<CursorInfo>)
        ensures
            r == old(self).pending_cursor,
            final(self).pending_cursor is None,
    {
        let mut taken: Option<CursorInfo> = None;
        core::mem::swap(&mut taken, &mut self.pending_cursor);
        taken
    }

    /// Consume one capture event: a lone frame or cursor goes out as
    /// is; a combined event emits the frame now and buffers the cursor
    /// for the next poll.
    pub fn on_event(&mut self, event: CaptureEvent) -> (r: DisplayStep)
        requires
            old(self).pending_cursor is None,
        ensures
            match event {
                CaptureEvent::Frame(f) => r == DisplayStep::EmitFrame(f)
                    && final(self).pending_cursor is None,
                CaptureEvent::Cursor(c) => r == DisplayStep::EmitCursor(c)
                    && final(self).pending_cursor is None,
                CaptureEvent::FrameAndCursor(f, c) => r == DisplayStep::EmitFrame(f)
                    && final(self).pending_cursor == Some(c),
            },
    {
        match event {
            CaptureEvent::Frame(f) => DisplayStep::EmitFrame(f),
            CaptureEvent::Cursor(c) => DisplayStep::EmitCursor(c),
            CaptureEvent::FrameAndCursor(f, c) => {
                self.pending_cursor = Some(c);
                DisplayStep::EmitFrame(f)
            },
        }
    }
}

} // verus!
