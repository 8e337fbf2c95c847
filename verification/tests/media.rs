//! Tests of the media side: frames, compositing, ZGFX framing, the
//! EGFX state machine, display policy, clipboard decoding and input
//! mapping.

use rdp_core::capture::argb_rows_to_rgba;
use rdp_core::capture::audio_wave_timestamp;
use rdp_core::capture::damage_until_sentinel;
use rdp_core::capture::infer_frame_dims;
use rdp_core::capture::needs_rb_swap;
use rdp_core::capture::pcm_format_params;
use rdp_core::capture::swap_rb_channels;
use rdp_core::clipboard::choose_paste_format;
use rdp_core::clipboard::decode_ansi_text;
use rdp_core::clipboard::decode_utf16le_text;
use rdp_core::clipboard::CF_TEXT;
use rdp_core::clipboard::CF_UNICODETEXT;
use rdp_core::compositor::adjust_cursor;
use rdp_core::compositor::blit_frame;
use rdp_core::compositor::bounding_box;
use rdp_core::compositor::compose_frames;
use rdp_core::compositor::compose_virtual_desktop;
use rdp_core::compositor::MonitorInfo;
use rdp_core::display::create_blue_pixels;
use rdp_core::display::create_color_test_pattern;
use rdp_core::display::cursor_to_pointer_update;
use rdp_core::display::encoder_needs_recreate;
use rdp_core::display::frame_fallback_action;
use rdp_core::display::frame_to_bitmap;
use rdp_core::display::BitmapError;
use rdp_core::display::DisplayStep;
use rdp_core::display::FrameAction;
use rdp_core::display::resize_decision;
use rdp_core::display::PointerUpdate;
use rdp_core::display::ResizeDecision;
use rdp_core::display::StaticDisplay;
use rdp_core::display::UpdateSequencer;
use rdp_core::egfx::egfx_channel_name;
use rdp_core::egfx::next_frame_timestamp;
use rdp_core::egfx::EgfxState;
use rdp_core::encode::bitrate_kbps;
use rdp_core::encode::choose_encoder;
use rdp_core::encode::encoder_properties;
use rdp_core::encode::EncoderConfig;
use rdp_core::encode::EncoderProp;
use rdp_core::encode::EncoderType;
use rdp_core::frame::CaptureEvent;
use rdp_core::frame::CapturedFrame;
use rdp_core::frame::CursorBitmap;
use rdp_core::frame::CursorInfo;
use rdp_core::frame::DamageRect;
use rdp_core::frame::PixelFormat;
use rdp_core::input::evdev_to_ei_keycode;
use rdp_core::input::fold_capability_masks;
use rdp_core::input::EmulationState;
use rdp_core::input::LockState;
use rdp_core::input::MouseButton;
use rdp_core::input::KEY_CAPSLOCK;
use rdp_core::input::KEY_NUMLOCK;
use rdp_core::input::KEY_SCROLLLOCK;
use rdp_core::keymap::rdp_scancode_to_evdev;
use rdp_core::keymap::unicode_to_scancode;
use rdp_core::zgfx::zgfx_build_multipart;
use rdp_core::zgfx::zgfx_wrap_payload;

fn monitor(node_id: u32, width: u16, height: u16, x: i32, y: i32) -> MonitorInfo {
    MonitorInfo { node_id, width, height, x, y }
}

fn bgra_frame(data: Vec<u8>, width: u32, height: u32, stride: u32) -> CapturedFrame {
    CapturedFrame {
        data,
        width,
        height,
        format: PixelFormat::Bgra,
        stride,
        sequence: 0,
        damage: None,
    }
}

#[test]
fn bounding_box_empty() {
    assert_eq!(bounding_box(&vec![]), (0, 0));
}

#[test]
fn bounding_box_single() {
    let monitors = vec![monitor(1, 1920, 1080, 0, 0)];
    assert_eq!(bounding_box(&monitors), (1920, 1080));
}

#[test]
fn bounding_box_dual_side_by_side() {
    let monitors = vec![monitor(1, 1920, 1080, 0, 0), monitor(2, 1920, 1080, 1920, 0)];
    assert_eq!(bounding_box(&monitors), (3840, 1080));
}

#[test]
fn bounding_box_stacked() {
    let monitors = vec![monitor(1, 1920, 1080, 0, 0), monitor(2, 1920, 1080, 0, 1080)];
    assert_eq!(bounding_box(&monitors), (1920, 2160));
}

#[test]
fn bounding_box_clamps_negative() {
    let monitors = vec![monitor(1, 100, 100, -200, -200)];
    assert_eq!(bounding_box(&monitors), (0, 0));
}

#[test]
fn blit_simple() {
    let canvas_w = 4u16;
    let canvas_h = 4u16;
    let canvas_stride = usize::from(canvas_w) * 4;
    let mut canvas = vec![0u8; canvas_stride * usize::from(canvas_h)];

    // A 2x2 solid frame at offset (1, 1).
    let frame = bgra_frame(vec![0xFF; 2 * 2 * 4], 2, 2, 8);
    blit_frame(&mut canvas, canvas_stride, &frame, 1, 1, canvas_w, canvas_h);

    // Pixel (1, 1) is filled; pixel (0, 0) is untouched.
    let offset = canvas_stride + 4;
    assert_eq!(canvas[offset], 0xFF);
    assert_eq!(canvas[0], 0);
}

#[test]
fn blit_clips_at_canvas_edge() {
    let canvas_stride = 4usize * 4;
    let mut canvas = vec![0u8; canvas_stride * 4];
    let frame = bgra_frame(vec![0xAB; 2 * 2 * 4], 2, 2, 8);
    blit_frame(&mut canvas, canvas_stride, &frame, 3, 3, 4, 4);
    // Only pixel (3, 3) lands on the canvas.
    assert_eq!(canvas[3 * canvas_stride + 3 * 4], 0xAB);
    assert_eq!(canvas[3 * canvas_stride + 2 * 4], 0);
}

#[test]
fn compose_two_monitors() {
    let monitors = vec![monitor(1, 2, 2, 0, 0), monitor(2, 2, 2, 2, 0)];
    let frames = vec![
        Some(bgra_frame(vec![0x11; 2 * 2 * 4], 2, 2, 8)),
        Some(bgra_frame(vec![0x22; 2 * 2 * 4], 2, 2, 8)),
    ];
    let (w, h) = bounding_box(&monitors);
    assert_eq!((w, h), (4, 2));
    let composed = compose_frames(&frames, &monitors, w, h, 7).expect("frames present");
    assert_eq!(composed.width, 4);
    assert_eq!(composed.height, 2);
    assert_eq!(composed.stride, 16);
    assert_eq!(composed.sequence, 7);
    assert_eq!(composed.data.len(), 4 * 2 * 4);
    // Left half from monitor 1, right half from monitor 2.
    assert_eq!(composed.data[0], 0x11);
    assert_eq!(composed.data[2 * 4], 0x22);
    assert_eq!(composed.damage, Some(vec![DamageRect { x: 0, y: 0, width: 4, height: 2 }]));
}

#[test]
fn compose_virtual_desktop_matches_bounding_box() {
    let monitors = vec![monitor(1, 2, 2, 0, 0), monitor(2, 2, 2, 0, 2)];
    let frames = vec![Some(bgra_frame(vec![0x33; 2 * 2 * 4], 2, 2, 8)), None];
    let composed = compose_virtual_desktop(&frames, &monitors, 1).expect("one frame present");
    assert_eq!((composed.width, composed.height), (2, 4));
    assert_eq!(composed.data.len(), 2 * 4 * 4);
    assert_eq!(composed.data[0], 0x33);
    // The lower monitor has no frame yet: its rows stay black.
    assert_eq!(composed.data[16..], vec![0u8; 16][..]);

    let empty: Vec<Option<CapturedFrame>> = Vec::new();
    assert!(compose_virtual_desktop(&empty, &vec![], 1).is_none());

    // A degenerate zero-size layout still composes (to an empty canvas).
    let degenerate = vec![monitor(1, 0, 0, 0, 0)];
    let frames = vec![Some(bgra_frame(vec![0x44; 4], 1, 1, 4))];
    let composed = compose_virtual_desktop(&frames, &degenerate, 2).expect("frame present");
    assert_eq!((composed.width, composed.height), (0, 0));
    assert!(composed.data.is_empty());
}

#[test]
fn compose_without_frames_is_none() {
    let monitors = vec![monitor(1, 2, 2, 0, 0)];
    let frames: Vec<Option<CapturedFrame>> = vec![None];
    assert!(compose_frames(&frames, &monitors, 2, 2, 1).is_none());
}

#[test]
fn cursor_offset_adjustment() {
    let c = CursorInfo { x: 10, y: 20, visible: true, bitmap: None };
    let adjusted = adjust_cursor(c, 1920, 0);
    assert_eq!(adjusted.x, 1930);
    assert_eq!(adjusted.y, 20);
    assert!(adjusted.visible);
}

#[test]
fn alpha_opaque_round_trip() {
    // A frame with every alpha byte zero: afterwards every alpha byte
    // is 0xFF and the color bytes are untouched.
    let mut frame = bgra_frame(vec![0x10, 0x20, 0x30, 0x00, 0x40, 0x50, 0x60, 0x00], 2, 1, 8);
    frame.ensure_alpha_opaque();
    assert_eq!(frame.data, vec![0x10, 0x20, 0x30, 0xFF, 0x40, 0x50, 0x60, 0xFF]);

    // RGBA frames are left alone.
    let mut rgba = CapturedFrame {
        data: vec![1, 2, 3, 0],
        width: 1,
        height: 1,
        format: PixelFormat::Rgba,
        stride: 4,
        sequence: 0,
        damage: None,
    };
    rgba.ensure_alpha_opaque();
    assert_eq!(rgba.data, vec![1, 2, 3, 0]);
}

#[test]
fn damage_rect_basics() {
    let r = DamageRect::new(5, -3, 10, 20);
    assert_eq!(r, DamageRect { x: 5, y: -3, width: 10, height: 20 });
    assert_eq!(r.area(), 200);
    assert_eq!(DamageRect::full_frame(7, 9), DamageRect { x: 0, y: 0, width: 7, height: 9 });
    assert_eq!(PixelFormat::Bgra.bytes_per_pixel(), 4);
}

#[test]
fn cursor_bitmap_validity() {
    let bm = CursorBitmap { width: 2, height: 2, hot_x: 0, hot_y: 0, data: vec![0; 16] };
    assert!(bm.is_valid());
    let bad = CursorBitmap { width: 2, height: 2, hot_x: 0, hot_y: 0, data: vec![0; 15] };
    assert!(!bad.is_valid());
    assert_eq!(CursorBitmap::expected_len(2, 2), 16);
}

#[test]
fn zgfx_single_segment() {
    // For |B| <= 65534 the wrapped form is [0xE0, 0x04, B...].
    let payload = b"abc".to_vec();
    let wrapped = zgfx_wrap_payload(&payload);
    assert_eq!(wrapped, vec![0xE0, 0x04, b'a', b'b', b'c']);
    assert_eq!(wrapped.len(), payload.len() + 2);

    let empty = zgfx_wrap_payload(&vec![]);
    assert_eq!(empty, vec![0xE0, 0x04]);

    let max = vec![0x55u8; 65534];
    let wrapped_max = zgfx_wrap_payload(&max);
    assert_eq!(wrapped_max.len(), 65536);
    assert_eq!(wrapped_max[0], 0xE0);
    assert_eq!(wrapped_max[1], 0x04);
    assert_eq!(wrapped_max[2..], max[..]);
}

#[test]
fn zgfx_multipart_boundary() {
    // Four concatenated PDUs summing to 130 000 bytes: two segments,
    // the first of 65 534 data bytes, the second of the remaining
    // 64 466.
    let mut payload = Vec::new();
    payload.extend_from_slice(&vec![0xA1u8; 40000]);
    payload.extend_from_slice(&vec![0xA2u8; 40000]);
    payload.extend_from_slice(&vec![0xA3u8; 40000]);
    payload.extend_from_slice(&vec![0xA4u8; 10000]);
    assert_eq!(payload.len(), 130000);

    let wrapped = zgfx_wrap_payload(&payload);
    assert_eq!(wrapped[0], 0xE1);
    // Segment count 2, little-endian 16-bit.
    assert_eq!(&wrapped[1..3], &[2, 0]);
    // Uncompressed size 130000 = 0x0001FBD0, little-endian 32-bit.
    assert_eq!(&wrapped[3..7], &[0xD0, 0xFB, 0x01, 0x00]);
    // First segment: size 65535 (1 + 65534), then the bulk header.
    assert_eq!(&wrapped[7..11], &[0xFF, 0xFF, 0x00, 0x00]);
    assert_eq!(wrapped[11], 0x04);
    assert_eq!(wrapped[12], 0xA1);
    // Second segment: size 64467 (1 + 64466) = 0x0000FBD3.
    let seg2 = 12 + 65534;
    assert_eq!(&wrapped[seg2..seg2 + 4], &[0xD3, 0xFB, 0x00, 0x00]);
    assert_eq!(wrapped[seg2 + 4], 0x04);
    // Total length: 7 header + 2 * 5 segment headers + payload.
    assert_eq!(wrapped.len(), 7 + 10 + 130000);
    // The multipart builder alone agrees.
    assert_eq!(zgfx_build_multipart(&payload), wrapped);
}

#[test]
fn egfx_channel_lifecycle() {
    assert_eq!(egfx_channel_name(), "Microsoft::Windows::RDS::Graphics");

    let mut st = EgfxState::new(1920, 1080);
    assert!(!st.is_ready());
    assert!(!st.supports_avc420);
    assert!(st.dvc_channel_id.is_none());
    assert!(st.surface_id.is_none());

    st.on_channel_start(42);
    assert_eq!(st.dvc_channel_id, Some(42));

    assert!(st.should_create_surface(true));
    st.on_process(true, Some(1));
    assert!(st.is_ready());
    assert!(st.supports_avc420);
    assert_eq!(st.surface_id, Some(1));

    // No frame goes out until the event sender is injected.
    assert!(st.send_frame_gate(false).is_none());
    st.set_event_sender_present();
    assert_eq!(st.send_frame_gate(false), Some((1, 42)));
    // Backpressure drops the frame.
    assert!(st.send_frame_gate(true).is_none());

    // A resize on a ready channel forces a keyframe.
    assert!(st.resize(1280, 720));
    assert_eq!((st.width, st.height), (1280, 720));
    assert!(st.take_needs_keyframe());
    assert!(!st.take_needs_keyframe());
    st.on_surface_recreated(Some(2));
    assert_eq!(st.surface_id, Some(2));
    st.on_surface_recreated(None);
    assert_eq!(st.surface_id, Some(2));

    st.on_channel_close();
    assert!(st.surface_id.is_none());
    assert!(st.dvc_channel_id.is_none());
    assert!(!st.is_ready());

    // Reset keeps dimensions and the event sender.
    st.reset();
    assert_eq!((st.width, st.height), (1280, 720));
    assert!(st.has_event_sender);
}

#[test]
fn egfx_resize_before_ready_only_stores() {
    let mut st = EgfxState::new(800, 600);
    assert!(!st.resize(1024, 768));
    assert_eq!((st.width, st.height), (1024, 768));
    assert!(!st.needs_keyframe);
}

#[test]
fn frame_timestamps_advance_and_wrap() {
    assert_eq!(next_frame_timestamp(0), 33);
    assert_eq!(next_frame_timestamp(33), 66);
    assert_eq!(next_frame_timestamp(u32::MAX), 32);
}

#[test]
fn static_display_sizes() {
    let d = StaticDisplay::new(800, 600);
    assert_eq!(d.size(), (800, 600));
    let d = StaticDisplay::default();
    assert_eq!(d.size(), (1920, 1080));
}

#[test]
fn blue_pixels_pattern() {
    let data = create_blue_pixels(2, 2);
    assert_eq!(data.len(), 16);
    for px in data.chunks(4) {
        assert_eq!(px, &[0xCC, 0x44, 0x11, 0xFF]);
    }
}

#[test]
fn color_test_pattern_quadrants() {
    let w = 4u16;
    let data = create_color_test_pattern(w, 4);
    assert_eq!(data.len(), 64);
    let px = |x: usize, y: usize| -> &[u8] {
        let o = (y * usize::from(w) + x) * 4;
        &data[o..o + 4]
    };
    assert_eq!(px(0, 0), &[0x00, 0x00, 0xFF, 0xFF]); // red
    assert_eq!(px(3, 0), &[0x00, 0xFF, 0x00, 0xFF]); // green
    assert_eq!(px(0, 3), &[0xFF, 0x00, 0x00, 0xFF]); // blue
    assert_eq!(px(3, 3), &[0xFF, 0xFF, 0xFF, 0xFF]); // white
}

#[test]
fn pointer_updates() {
    let hidden = CursorInfo { x: 5, y: 5, visible: false, bitmap: None };
    assert!(matches!(cursor_to_pointer_update(hidden), PointerUpdate::Hide));

    let moved = CursorInfo { x: -4, y: 9, visible: true, bitmap: None };
    match cursor_to_pointer_update(moved) {
        PointerUpdate::Position { x, y } => {
            assert_eq!((x, y), (0, 9));
        }
        _ => panic!("expected a position update"),
    }

    let shaped = CursorInfo {
        x: 0,
        y: 0,
        visible: true,
        bitmap: Some(CursorBitmap { width: 2, height: 1, hot_x: 1, hot_y: 0, data: vec![9; 8] }),
    };
    match cursor_to_pointer_update(shaped) {
        PointerUpdate::Rgba { width, height, hot_x, hot_y, data } => {
            assert_eq!((width, height, hot_x, hot_y), (2, 1, 1, 0));
            assert_eq!(data, vec![9; 8]);
        }
        _ => panic!("expected a bitmap update"),
    }
}

#[test]
fn bitmap_validation() {
    let ok = frame_to_bitmap(bgra_frame(vec![0; 16], 2, 2, 8)).expect("valid frame");
    assert_eq!((ok.width, ok.height, ok.stride), (2, 2, 8));
    assert_eq!(ok.data, vec![0; 16]);

    assert_eq!(
        frame_to_bitmap(bgra_frame(vec![], 70000, 2, 8)).err(),
        Some(BitmapError::WidthTooLarge)
    );
    assert_eq!(
        frame_to_bitmap(bgra_frame(vec![], 2, 70000, 8)).err(),
        Some(BitmapError::HeightTooLarge)
    );
    assert_eq!(frame_to_bitmap(bgra_frame(vec![], 0, 2, 8)).err(), Some(BitmapError::WidthZero));
    assert_eq!(frame_to_bitmap(bgra_frame(vec![], 2, 0, 8)).err(), Some(BitmapError::HeightZero));
    assert_eq!(frame_to_bitmap(bgra_frame(vec![], 2, 2, 0)).err(), Some(BitmapError::StrideZero));
}

#[test]
fn frame_fallback_policy() {
    let mut wait = 0u32;
    assert_eq!(frame_fallback_action(true, true, &mut wait), FrameAction::Done);
    assert_eq!(wait, 0);

    assert_eq!(frame_fallback_action(true, false, &mut wait), FrameAction::Suppress);
    assert_eq!(wait, 1);

    let mut wait = 300u32;
    assert_eq!(frame_fallback_action(true, false, &mut wait), FrameAction::Bitmap);
    assert_eq!(wait, 300);

    let mut wait = 0u32;
    assert_eq!(frame_fallback_action(false, false, &mut wait), FrameAction::Bitmap);
    assert_eq!(wait, 0);
}

#[test]
fn layout_resize_decision() {
    assert_eq!(resize_decision(1920, 1080, 1920, 1080, true), ResizeDecision::Unchanged);
    assert_eq!(resize_decision(1920, 1080, 1280, 720, true), ResizeDecision::ApplyViaEgfx);
    assert_eq!(resize_decision(1920, 1080, 1280, 720, false), ResizeDecision::Ignore);
}

#[test]
fn encoder_recreation_decision() {
    assert!(!encoder_needs_recreate(false, 0, 0, 1920, 1080));
    assert!(!encoder_needs_recreate(true, 1920, 1080, 1920, 1080));
    assert!(encoder_needs_recreate(true, 1920, 1080, 1280, 720));
}

#[test]
fn sequencer_pairs_frame_and_cursor() {
    let mut seq = UpdateSequencer::new();
    assert!(seq.take_pending().is_none());

    let frame = bgra_frame(vec![0; 4], 1, 1, 4);
    let cursor = CursorInfo { x: 3, y: 4, visible: true, bitmap: None };
    let step = seq.on_event(CaptureEvent::FrameAndCursor(frame, cursor));
    match step {
        DisplayStep::EmitFrame(f) => assert_eq!(f.width, 1),
        DisplayStep::EmitCursor(_) => panic!("the frame goes first"),
    }
    // The cursor comes out on the next poll, exactly once.
    let pending = seq.take_pending().expect("cursor buffered");
    assert_eq!((pending.x, pending.y), (3, 4));
    assert!(seq.take_pending().is_none());

    match seq.on_event(CaptureEvent::Cursor(CursorInfo {
        x: 1,
        y: 1,
        visible: false,
        bitmap: None,
    })) {
        DisplayStep::EmitCursor(c) => assert!(!c.visible),
        DisplayStep::EmitFrame(_) => panic!("expected a cursor step"),
    }
}

#[test]
fn decode_utf16le() {
    // "Hello" in UTF-16LE with a null terminator.
    let data: Vec<u8> = "Hello"
        .encode_utf16()
        .flat_map(|c| c.to_le_bytes())
        .chain([0, 0])
        .collect();
    assert_eq!(decode_utf16le_text(&data), Some("Hello".to_string()));
}

#[test]
fn decode_ansi() {
    let data = b"Hello\0".to_vec();
    assert_eq!(decode_ansi_text(&data), Some("Hello".to_string()));
}

#[test]
fn decode_empty_returns_none() {
    assert_eq!(decode_utf16le_text(&vec![]), None);
    assert_eq!(decode_ansi_text(&vec![]), None);
}

#[test]
fn decode_rejects_bad_input() {
    // Odd byte count cannot be UTF-16.
    assert_eq!(decode_utf16le_text(&vec![0x41, 0x00, 0x42]), None);
    // An unpaired surrogate is invalid UTF-16.
    assert_eq!(decode_utf16le_text(&vec![0x00, 0xD8, 0x00, 0x00]), None);
    // Invalid UTF-8 bytes.
    assert_eq!(decode_ansi_text(&vec![0xFF, 0xFE, 0x00]), None);
    // Only a terminator: empty text.
    assert_eq!(decode_ansi_text(&vec![0x00]), None);
    assert_eq!(decode_utf16le_text(&vec![0x00, 0x00]), None);
}

#[test]
fn paste_format_preference() {
    assert_eq!(choose_paste_format(&vec![CF_TEXT, CF_UNICODETEXT]), Some(CF_UNICODETEXT));
    assert_eq!(choose_paste_format(&vec![CF_TEXT]), Some(CF_TEXT));
    assert_eq!(choose_paste_format(&vec![99]), None);
    assert_eq!(choose_paste_format(&vec![]), None);
}

#[test]
fn test_standard_keys() {
    assert_eq!(rdp_scancode_to_evdev(0x1E, false), Some(38)); // A
    assert_eq!(rdp_scancode_to_evdev(0x39, false), Some(65)); // Space
    assert_eq!(rdp_scancode_to_evdev(0x1C, false), Some(36)); // Enter
    assert_eq!(rdp_scancode_to_evdev(0x01, false), Some(9)); // Escape
    assert_eq!(rdp_scancode_to_evdev(0x3B, false), Some(67)); // F1
}

#[test]
fn test_extended_keys() {
    assert_eq!(rdp_scancode_to_evdev(0x1D, true), Some(105)); // Right Ctrl
    assert_eq!(rdp_scancode_to_evdev(0x48, true), Some(111)); // Up Arrow
    assert_eq!(rdp_scancode_to_evdev(0x5B, true), Some(133)); // Left Super
    assert_eq!(rdp_scancode_to_evdev(0x53, true), Some(119)); // Delete
}

#[test]
fn test_unmapped_returns_none() {
    assert_eq!(rdp_scancode_to_evdev(0x00, false), None);
    assert_eq!(rdp_scancode_to_evdev(0x7F, false), None);
    assert_eq!(rdp_scancode_to_evdev(0xFF, true), None);
}

#[test]
fn unicode_control_fallback() {
    assert_eq!(unicode_to_scancode(0x0008), Some((0x0E, false))); // Backspace
    assert_eq!(unicode_to_scancode(0x0009), Some((0x0F, false))); // Tab
    assert_eq!(unicode_to_scancode(0x000D), Some((0x1C, false))); // Enter
    assert_eq!(unicode_to_scancode(0x001B), Some((0x01, false))); // Escape
    assert_eq!(unicode_to_scancode(0x007F), Some((0x53, true))); // Delete
    assert_eq!(unicode_to_scancode(b'a' as u16), None);
}

#[test]
fn lock_state_default_all_off() {
    let state = LockState::default();
    assert!(!state.caps_lock);
    assert!(!state.num_lock);
    assert!(!state.scroll_lock);
}

#[test]
fn lock_state_toggle_on_press() {
    let mut state = LockState::default();

    state.toggle_on_press(KEY_CAPSLOCK);
    assert!(state.caps_lock);
    assert!(!state.num_lock);

    state.toggle_on_press(KEY_CAPSLOCK);
    assert!(!state.caps_lock);

    state.toggle_on_press(KEY_NUMLOCK);
    assert!(state.num_lock);

    state.toggle_on_press(KEY_SCROLLLOCK);
    assert!(state.scroll_lock);

    // A non-lock key does nothing.
    state.toggle_on_press(38);
    assert!(state.num_lock);
    assert!(state.scroll_lock);
}

#[test]
fn locks_to_toggle_no_diff() {
    let current = LockState { caps_lock: true, num_lock: false, scroll_lock: true };
    let target = current.clone();
    assert!(current.locks_to_toggle(&target).is_empty());
}

#[test]
fn locks_to_toggle_all_different() {
    let current = LockState::default();
    let target = LockState { caps_lock: true, num_lock: true, scroll_lock: true };
    let mut keys = current.locks_to_toggle(&target);
    keys.sort_unstable();
    assert_eq!(keys, vec![KEY_CAPSLOCK, KEY_NUMLOCK, KEY_SCROLLLOCK]);
}

#[test]
fn locks_to_toggle_partial_diff() {
    let current = LockState { caps_lock: true, num_lock: false, scroll_lock: false };
    let target = LockState { caps_lock: true, num_lock: true, scroll_lock: false };
    let keys = current.locks_to_toggle(&target);
    assert_eq!(keys, vec![KEY_NUMLOCK]);
}

#[test]
fn emulation_batches() {
    assert_eq!(evdev_to_ei_keycode(38), 30);

    let mut st = EmulationState::new();
    assert!(!st.needs_stop_emulating());
    // The first event of a batch starts emulating with sequence 0.
    assert_eq!(st.ensure_emulating(), Some(0));
    // Further events in the batch do not restart it.
    assert_eq!(st.ensure_emulating(), None);
    assert!(st.needs_stop_emulating());
    // The next activation uses a fresh sequence number.
    st.emulating = false;
    assert_eq!(st.ensure_emulating(), Some(1));
}

#[test]
fn mouse_button_codes() {
    assert_eq!(MouseButton::Left.to_linux_code(), 0x110);
    assert_eq!(MouseButton::Right.to_linux_code(), 0x111);
    assert_eq!(MouseButton::Middle.to_linux_code(), 0x112);
    assert_eq!(MouseButton::Back.to_linux_code(), 0x116);
    assert_eq!(MouseButton::Forward.to_linux_code(), 0x115);
}

#[test]
fn encoder_selection_order() {
    assert_eq!(choose_encoder(true, true), EncoderType::Vaapi);
    assert_eq!(choose_encoder(false, true), EncoderType::Nvenc);
    assert_eq!(choose_encoder(false, false), EncoderType::Software);
    assert_eq!(EncoderType::Vaapi.element_name(), "vaapih264enc");
    assert_eq!(EncoderType::Software.element_name(), "x264enc");
}

#[test]
fn encoder_property_tables() {
    // The software encoder always pins BT.601 limited-range metadata.
    let props = encoder_properties(EncoderType::Software, 10_000_000, 30, true);
    assert_eq!(
        props,
        vec![
            EncoderProp::U32 { name: "bitrate".to_string(), value: 10_000 },
            EncoderProp::U32 { name: "key-int-max".to_string(), value: 30 },
            EncoderProp::Text { name: "tune".to_string(), value: "zerolatency".to_string() },
            EncoderProp::Text { name: "speed-preset".to_string(), value: "ultrafast".to_string() },
            EncoderProp::Text {
                name: "option-string".to_string(),
                value: "colorprim=bt601:transfer=bt601:colormatrix=bt601".to_string(),
            },
        ]
    );
    // The option string stays even without the low-latency tuning.
    let props = encoder_properties(EncoderType::Software, 10_000_000, 30, false);
    assert_eq!(props.len(), 3);
    assert_eq!(
        props[2],
        EncoderProp::Text {
            name: "option-string".to_string(),
            value: "colorprim=bt601:transfer=bt601:colormatrix=bt601".to_string(),
        }
    );

    let props = encoder_properties(EncoderType::Vaapi, 8_000_000, 60, true);
    assert_eq!(
        props,
        vec![
            EncoderProp::U32 { name: "rate-control".to_string(), value: 2 },
            EncoderProp::U32 { name: "bitrate".to_string(), value: 8_000 },
            EncoderProp::U32 { name: "keyframe-period".to_string(), value: 60 },
            EncoderProp::U32 { name: "tune".to_string(), value: 3 },
        ]
    );

    let props = encoder_properties(EncoderType::Nvenc, 8_000_000, 60, true);
    assert_eq!(
        props,
        vec![
            EncoderProp::U32 { name: "bitrate".to_string(), value: 8_000 },
            EncoderProp::I32 { name: "gop-size".to_string(), value: 60 },
            EncoderProp::U32 { name: "preset".to_string(), value: 5 },
            EncoderProp::Bool { name: "zerolatency".to_string(), value: true },
        ]
    );
}

#[test]
fn capability_mask_folding() {
    assert_eq!(fold_capability_masks(&vec![]), 0);
    assert_eq!(fold_capability_masks(&vec![0b0001, 0b0100, 0b0001]), 0b0101);
}

#[test]
fn encoder_defaults_and_bitrate() {
    let cfg = EncoderConfig::default();
    assert_eq!((cfg.width, cfg.height), (1920, 1080));
    assert_eq!(cfg.bitrate, 10_000_000);
    assert_eq!(cfg.keyframe_interval, 30);
    assert!(cfg.low_latency);
    assert_eq!(bitrate_kbps(cfg.bitrate), 10_000);
}

#[test]
fn damage_list_ends_at_sentinel() {
    let rects = vec![
        DamageRect::new(10, 20, 100, 50),
        DamageRect::new(200, 300, 64, 32),
        DamageRect::new(0, 0, 0, 0),
        DamageRect::new(1, 1, 5, 5),
    ];
    let kept = damage_until_sentinel(&rects);
    assert_eq!(
        kept,
        vec![DamageRect::new(10, 20, 100, 50), DamageRect::new(200, 300, 64, 32)]
    );
    assert!(damage_until_sentinel(&vec![DamageRect::new(0, 0, 0, 0)]).is_empty());
    assert!(damage_until_sentinel(&vec![]).is_empty());
}

#[test]
fn frame_dimension_inference() {
    assert_eq!(infer_frame_dims(7680, 8294400), Some((1920, 1080)));
    assert_eq!(infer_frame_dims(0, 100), None);
    assert_eq!(infer_frame_dims(100, 0), None);
    assert_eq!(infer_frame_dims(2, 100), None); // width 0 after division
}

#[test]
fn channel_swap_decision_and_swap() {
    assert!(needs_rb_swap(true, false));
    assert!(!needs_rb_swap(true, true));
    assert!(needs_rb_swap(false, true));
    assert!(!needs_rb_swap(false, false));

    let mut data = vec![1u8, 2, 3, 4, 5, 6, 7, 8];
    swap_rb_channels(&mut data);
    assert_eq!(data, vec![3, 2, 1, 4, 7, 6, 5, 8]);
}

#[test]
fn cursor_argb_conversion() {
    // One ARGB pixel (memory order B, G, R, A) with row padding.
    let data = vec![0x10, 0x20, 0x30, 0x40, 0xEE, 0xEE, 0xEE, 0xEE];
    let rgba = argb_rows_to_rgba(&data, 1, 1, 8);
    assert_eq!(rgba, vec![0x30, 0x20, 0x10, 0x40]);
}

#[test]
fn audio_timing_and_format() {
    assert_eq!(audio_wave_timestamp(44100, 44100), 1000);
    assert_eq!(audio_wave_timestamp(0, 44100), 0);
    assert_eq!(pcm_format_params(2, 44100), (4, 176_400));
}
