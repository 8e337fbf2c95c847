//! The captured-frame data model: damage rectangles, pixel formats,
//! cursor shapes, audio chunks and the capture event type.

use vstd::prelude::*;

verus! {

/// A rectangular region of damage (changed pixels).
#[derive(Debug, Clone, PartialEq, Eq, Structural)]
pub struct DamageRect {
    /// Left edge in pixels (may be negative in virtual coordinates).
    pub x: i32,
    /// Top edge in pixels.
    pub y: i32,
    /// Width in pixels.
    pub width: u32,
    /// Height in pixels.
    pub height: u32,
}

impl DamageRect {
    /// Build a rectangle from its coordinates.
    pub fn new(x: i32, y: i32, width: u32, height: u32) -> (r: Self)
        ensures
            r == (DamageRect { x, y, width, height }),
    {
        DamageRect { x, y, width, height }
    }

    /// Create a damage rect covering the full frame.
    pub fn full_frame(width: u32, height: u32) -> (r: Self)
        ensures
            r == (DamageRect { x: 0i32, y: 0i32, width, height }),
    {
        DamageRect { x: 0, y: 0, width, height }
    }

    /// The area of the rectangle in pixels.
    pub fn area(&self) -> (r: u64)
        ensures
            r == self.width * self.height,
    {
        let w = self.width as u64;
        let h = self.height as u64;
        proof {
            assert(w * h <= 0xFFFF_FFFFu64 * 0xFFFF_FFFFu64) by (nonlinear_arith)
                requires
                    w <= 0xFFFF_FFFF,
                    h <= 0xFFFF_FFFF,
            ;
        }
        w * h
    }
}

/// Pixel format of captured frames.
#[derive(Debug, Clone, Copy, PartialEq, Eq, Structural)]
pub enum PixelFormat {
    /// BGRA with 8 bits per channel (`BGRx` input with alpha forced to 0xFF).
    Bgra,
    /// RGBA with 8 bits per channel.
    Rgba,
}

impl PixelFormat {
    /// Bytes per pixel; both supported formats use four.
    pub fn bytes_per_pixel(self) -> (r: usize)
        ensures
            r == 4,
    {
        match self {
            PixelFormat::Bgra | PixelFormat::Rgba => 4,
        }
    }
}

/// Cursor bitmap data (RGBA pixels).
#[derive(Debug, Clone)]
pub struct CursorBitmap {
    /// Width in pixels.
    pub width: u32,
    /// Height in pixels.
    pub height: u32,
    /// Hotspot X coordinate.
    pub hot_x: u32,
    /// Hotspot Y coordinate.
    pub hot_y: u32,
    /// RGBA pixel data (4 bytes per pixel, top-to-bottom row order).
    pub data: Vec<u8>,
}

impl CursorBitmap {
    /// Expected data length for the given dimensions.
    pub fn expected_len(width: u32, height: u32) -> (r: usize)
        requires
            width * height * 4 <= usize::MAX,
        ensures
            r == width * height * 4,
    {
        (width as usize) * (height as usize) * 4
    }

    /// Whether the bitmap data matches the declared dimensions.
    pub fn is_valid(&self) -> (r: bool)
        ensures
            r <==> self.data@.len() == self.width * self.height * 4,
    {
        let w = self.width as u128;
        let h = self.height as u128;
        proof {
            assert(w * h <= 0xFFFF_FFFFu128 * 0xFFFF_FFFFu128) by (nonlinear_arith)
                requires
                    w <= 0xFFFF_FFFF,
                    h <= 0xFFFF_FFFF,
            ;
        }
        let expected: u128 = w * h * 4;
        (self.data.len() as u128) == expected
    }
}

/// Cursor position and optional shape information.
#[derive(Debug, Clone)]
pub struct CursorInfo {
    /// Cursor X position relative to the captured region.
    pub x: i32,
    /// Cursor Y position relative to the captured region.
    pub y: i32,
    /// Whether the cursor is visible.
    pub visible: bool,
    /// Cursor bitmap, if the shape changed since the last update.
    pub bitmap: Option<CursorBitmap>,
}

/// A chunk of captured audio data.
#[derive(Debug, Clone)]
pub struct AudioChunk {
    /// Raw PCM audio data.
    pub data: Vec<u8>,
    /// Number of audio channels.
    pub channels: u16,
    /// Sample rate in Hz.
    pub sample_rate: u32,
    /// Bits per sample.
    pub bits_per_sample: u16,
    /// Monotonically increasing sequence number.
    pub sequence: u64,
}

/// A single captured video frame.
#[derive(Debug, Clone)]
pub struct CapturedFrame {
    /// Raw pixel data (BGRA or RGBA, top-to-bottom row order).
    pub data: Vec<u8>,
    /// Frame width in pixels.
    pub width: u32,
    /// Frame height in pixels.
    pub height: u32,
    /// Pixel format.
    pub format: PixelFormat,
    /// Row stride in bytes.
    pub stride: u32,
    /// Frame sequence number (monotonically increasing per stream).
    pub sequence: u64,
    /// Damage regions, if available.  `None` means no damage info
    /// (treat as full frame); an empty vector means no change.
    pub damage: Option<Vec<DamageRect>>,
}

impl CapturedFrame {
    /// Convert `BGRx` data to BGRA by setting every alpha byte to 0xFF.
    ///
    /// Capture sources typically deliver `BGRx` where the padding byte
    /// is undefined; this forces the alpha channel fully opaque.  Only
    /// frames already tagged BGRA are touched, and only the alpha byte
    /// of each complete four-byte pixel changes.
    pub fn ensure_alpha_opaque(&mut self)
        ensures
            final(self).width == old(self).width,
            final(self).height == old(self).height,
            final(self).format == old(self).format,
            final(self).stride == old(self).stride,
            final(self).sequence == old(self).sequence,
            final(self).damage == old(self).damage,
            final(self).data@.len() == old(self).data@.len(),
            old(self).format is Bgra ==> forall|j: int|
                0 <= j < old(self).data@.len() ==> final(self).data@[j] == (
                if j % 4 == 3 {
                    0xFFu8
                } else {
                    old(self).data@[j]
                }),
            !(old(self).format is Bgra) ==> final(self).data@ == old(self).data@,
    {
        if self.format == PixelFormat::Bgra {
            let len = self.data.len();
            let mut i: usize = 0;
            while len - i >= 4
                invariant
                    len == self.data@.len(),
                    i % 4 == 0,
                    i <= len,
                    self.width == old(self).width,
                    self.height == old(self).height,
                    self.format == old(self).format,
                    self.stride == old(self).stride,
                    self.sequence == old(self).sequence,
                    self.damage == old(self).damage,
                    forall|j: int| 0 <= j < len ==> self.data@[j] == (
                    if j % 4 == 3 && j < i {
                        0xFFu8
                    } else {
                        old(self).data@[j]
                    }),
                decreases len - i,
            {
                self.data.set(i + 3, 0xFF);
                i += 4;
            }
            proof {
                // Past the last complete pixel there is no alpha byte:
                // an index with remainder 3 at or after `i` would leave
                // room for one more complete pixel, against the exit
                // condition of the loop.
                assert forall|j: int| 0 <= j < len implies #[trigger] self.data@[j] == (
                if j % 4 == 3 {
                    0xFFu8
                } else {
                    old(self).data@[j]
                }) by {
                    if j % 4 == 3 && j >= i {
                        assert((j - i) % 4 == 3) by (nonlinear_arith)
                            requires
                                i % 4 == 0,
                                j % 4 == 3,
                                j >= i >= 0,
                        ;
                        assert(j - i >= 3);
                        assert(i + 4 <= len);
                        assert(false);
                    }
                }
            }
        }
    }
}

/// Events produced by the capture pipeline.
#[derive(Debug, Clone)]
pub enum CaptureEvent {
    /// A new video frame is available.
    Frame(CapturedFrame),
    /// Cursor position or shape changed (no new frame).
    Cursor(CursorInfo),
    /// A new video frame and a cursor update arrived together.
    FrameAndCursor(CapturedFrame, CursorInfo),
}

} // verus!
