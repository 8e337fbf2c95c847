//! The EGFX channel state machine.
//!
//! The graphics pipeline extension runs over a dynamic virtual
//! channel: capabilities are negotiated, a surface is created and
//! mapped to the output, and H.264 frames are then submitted against
//! it, subject to backpressure from unacknowledged frames.  This
//! module holds the state shared between the per-connection bridge,
//! the display-side controller and the event-sender setter; the wire
//! protocol itself is driven outside the library, which reports each
//! outcome back as plain values.

use vstd::prelude::*;

verus! {

/// H.264 quantization parameter for full-frame AVC420 regions; the
/// usual quality range for remote desktops is 18-23.
pub const EGFX_QP: u8 = 22;

/// The published DVC channel name of the graphics pipeline.
pub fn egfx_channel_name() -> (r: &'static str)
    ensures
        r@ == "Microsoft::Windows::RDS::Graphics"@,
{
    "Microsoft::Windows::RDS::Graphics"
}

/// The phase of an EGFX channel, derived from its state.
#[derive(Debug, Clone, Copy, PartialEq, Eq, Structural)]
pub enum EgfxPhase {
    /// No DVC channel is open.
    Closed,
    /// The channel is open; capabilities are not negotiated yet.
    Opened,
    /// AVC420 is negotiated but no surface is mapped (creation may
    /// have failed; H.264 delivery is then disabled).
    Ready,
    /// A surface is mapped: frames can be submitted.
    SurfaceMapped,
}

/// The EGFX state shared by the bridge, the controller and the
/// event-sender setter.
#[derive(Debug, Clone, Copy, PartialEq, Eq)]
pub struct EgfxState {
    /// Whether capability negotiation has completed.
    pub ready: bool,
    /// The surface mapped to the output, if one was created.
    pub surface_id: Option<u16>,
    /// The DVC channel id recorded at `start`.
    pub dvc_channel_id: Option<u32>,
    /// Whether the negotiated capabilities include AVC420.
    pub supports_avc420: bool,
    /// Current surface width.
    pub width: u16,
    /// Current surface height.
    pub height: u16,
    /// Whether the outbound event sender has been injected.
    pub has_event_sender: bool,
    /// Whether the next encoded frame must be an IDR keyframe.
    pub needs_keyframe: bool,
}

impl EgfxState {
    /// The channel phase this state is in.
    pub open spec fn phase(&self) -> EgfxPhase {
        if self.surface_id is Some {
            EgfxPhase::SurfaceMapped
        } else if self.ready {
            EgfxPhase::Ready
        } else if self.dvc_channel_id is Some {
            EgfxPhase::Opened
        } else {
            EgfxPhase::Closed
        }
    }

    /// Fresh EGFX state at the given dimensions: channel closed,
    /// nothing negotiated.
    pub fn new(width: u16, height: u16) -> (r: Self)
        ensures
            !r.ready,
            r.surface_id is None,
            r.dvc_channel_id is None,
            !r.supports_avc420,
            r.width == width,
            r.height == height,
            !r.has_event_sender,
            !r.needs_keyframe,
            r.phase() is Closed,
    {
        EgfxState {
            ready: false,
            surface_id: None,
            dvc_channel_id: None,
            supports_avc420: false,
            width,
            height,
            has_event_sender: false,
            needs_keyframe: false,
        }
    }

    /// Reset for a new RDP connection: negotiation state cleared, the
    /// dimensions and the event sender kept.
    pub fn reset(&mut self)
        ensures
            !final(self).ready,
            final(self).surface_id is None,
            final(self).dvc_channel_id is None,
            !final(self).supports_avc420,
            final(self).width == old(self).width,
            final(self).height == old(self).height,
            final(self).has_event_sender == old(self).has_event_sender,
            !final(self).needs_keyframe,
            final(self).phase() is Closed,
    {
        self.ready = false;
        self.surface_id = None;
        self.dvc_channel_id = None;
        self.supports_avc420 = false;
        self.needs_keyframe = false;
    }

    /// Record the channel id when the DVC channel opens.
    pub fn on_channel_start(&mut self, channel_id: u32)
        ensures
            final(self).dvc_channel_id == Some(channel_id),
            final(self).ready == old(self).ready,
            final(self).surface_id == old(self).surface_id,
            final(self).supports_avc420 == old(self).supports_avc420,
            final(self).width == old(self).width,
            final(self).height == old(self).height,
            final(self).has_event_sender == old(self).has_event_sender,
            final(self).needs_keyframe == old(self).needs_keyframe,
    {
        self.dvc_channel_id = Some(channel_id);
    }

    /// Clear the negotiation state when the DVC channel closes.
    pub fn on_channel_close(&mut self)
        ensures
            !final(self).ready,
            final(self).surface_id is None,
            final(self).dvc_channel_id is None,
            !final(self).supports_avc420,
            final(self).width == old(self).width,
            final(self).height == old(self).height,
            final(self).has_event_sender == old(self).has_event_sender,
            final(self).needs_keyframe == old(self).needs_keyframe,
            final(self).phase() is Closed,
    {
        self.ready = false;
        self.surface_id = None;
        self.dvc_channel_id = None;
        self.supports_avc420 = false;
    }

    /// Whether processing the inbound payload has just completed the
    /// negotiation, so that a surface must now be created at the
    /// current dimensions.
    pub fn should_create_surface(&self, now_ready: bool) -> (r: bool)
        ensures
            r <==> !self.ready && now_ready && self.surface_id is None,
    {
        !self.ready && now_ready && self.surface_id.is_none()
    }

    /// Account for one inbound `process` call: the pipeline reports
    /// whether it is ready (which is also AVC420 support), and, on the
    /// transition to ready, the surface that was auto-created — or
    /// `None` if creation failed, which leaves H.264 delivery
    /// disabled.
    pub fn on_process(&mut self, now_ready: bool, created_surface: Option<u16>)
        ensures
            final(self).ready == now_ready,
            final(self).supports_avc420 == now_ready,
            final(self).surface_id == (if !old(self).ready && now_ready && old(self).surface_id
                is None {
                created_surface
            } else {
                old(self).surface_id
            }),
            final(self).dvc_channel_id == old(self).dvc_channel_id,
            final(self).width == old(self).width,
            final(self).height == old(self).height,
            final(self).has_event_sender == old(self).has_event_sender,
            final(self).needs_keyframe == old(self).needs_keyframe,
    {
        let was_ready = self.ready;
        self.ready = now_ready;
        self.supports_avc420 = now_ready;
        if !was_ready && now_ready && self.surface_id.is_none() {
            self.surface_id = created_surface;
        }
    }

    /// Record that the outbound event sender has been injected.
    pub fn set_event_sender_present(&mut self)
        ensures
            final(self).has_event_sender,
            final(self).ready == old(self).ready,
            final(self).surface_id == old(self).surface_id,
            final(self).dvc_channel_id == old(self).dvc_channel_id,
            final(self).supports_avc420 == old(self).supports_avc420,
            final(self).width == old(self).width,
            final(self).height == old(self).height,
            final(self).needs_keyframe == old(self).needs_keyframe,
    {
        self.has_event_sender = true;
    }

    /// Take and clear the keyframe-forcing flag.
    pub fn take_needs_keyframe(&mut self) -> (r: bool)
        ensures
            r == old(self).needs_keyframe,
            !final(self).needs_keyframe,
            final(self).ready == old(self).ready,
            final(self).surface_id == old(self).surface_id,
            final(self).dvc_channel_id == old(self).dvc_channel_id,
            final(self).supports_avc420 == old(self).supports_avc420,
            final(self).width == old(self).width,
            final(self).height == old(self).height,
            final(self).has_event_sender == old(self).has_event_sender,
    {
        let r = self.needs_keyframe;
        self.needs_keyframe = false;
        r
    }

    /// Whether the channel is ready to accept H.264 frames.
    pub fn is_ready(&self) -> (r: bool)
        ensures
            r == self.ready,
    {
        self.ready
    }

    /// Admission test for frame submission: a frame may be sent only
    /// when an event sender is registered, a surface is mapped, the
    /// channel id is known, and the pipeline reports no backpressure.
    /// On backpressure the frame is dropped, never queued.
    ///
    /// Returns the surface and channel to address, or `None` when the
    /// frame must be dropped.  The pipeline may still refuse the
    /// submitted region afterwards; that outcome is the caller's.
    pub fn send_frame_gate(&self, backpressure: bool) -> (r: Option<(u16, u32)>)
        ensures
            r is Some <==> self.has_event_sender && self.surface_id is Some
                && self.dvc_channel_id is Some && !backpressure,
            r matches Some((sid, cid)) ==> self.surface_id == Some(sid)
                && self.dvc_channel_id == Some(cid),
    {
        if !self.has_event_sender {
            return None;
        }
        let sid = match self.surface_id {
            Some(s) => s,
            None => {
                return None;
            },
        };
        if backpressure {
            return None;
        }
        match self.dvc_channel_id {
            Some(cid) => Some((sid, cid)),
            None => None,
        }
    }

    /// Record a resize request.
    ///
    /// The new dimensions are always stored.  Only when the channel is
    /// ready and an event sender exists does the resize go further:
    /// the keyframe flag is raised and the caller must reset the
    /// pipeline, create a surface at the new size and send the
    /// resulting messages — exactly when the result is `true`.
    pub fn resize(&mut self, width: u16, height: u16) -> (r: bool)
        ensures
            final(self).width == width,
            final(self).height == height,
            r <==> old(self).has_event_sender && old(self).ready,
            final(self).needs_keyframe == (if r {
                true
            } else {
                old(self).needs_keyframe
            }),
            final(self).ready == old(self).ready,
            final(self).surface_id == old(self).surface_id,
            final(self).dvc_channel_id == old(self).dvc_channel_id,
            final(self).supports_avc420 == old(self).supports_avc420,
            final(self).has_event_sender == old(self).has_event_sender,
    {
        self.width = width;
        self.height = height;
        if self.has_event_sender && self.ready {
            self.needs_keyframe = true;
            true
        } else {
            false
        }
    }

    /// Record the surface created after a resize; a failed creation
    /// (`None`) keeps the previous surface.
    pub fn on_surface_recreated(&mut self, created_surface: Option<u16>)
        ensures
            final(self).surface_id == (match created_surface {
                Some(id) => Some(id),
                None => old(self).surface_id,
            }),
            final(self).ready == old(self).ready,
            final(self).dvc_channel_id == old(self).dvc_channel_id,
            final(self).supports_avc420 == old(self).supports_avc420,
            final(self).width == old(self).width,
            final(self).height == old(self).height,
            final(self).has_event_sender == old(self).has_event_sender,
            final(self).needs_keyframe == old(self).needs_keyframe,
    {
        if let Some(id) = created_surface {
            self.surface_id = Some(id);
        }
    }
}

/// The next frame timestamp: advanced by one frame interval at ~30
/// fps, wrapping at the 32-bit boundary as the protocol field does.
pub fn next_frame_timestamp(timestamp_ms: u32) -> (r: u32)
    ensures
        r == (timestamp_ms + 33) % 0x1_0000_0000,
{
    if timestamp_ms <= u32::MAX - 33 {
        timestamp_ms + 33
    } else {
        // Wrap past the 32-bit boundary.
        let r = timestamp_ms - (u32::MAX - 32);
        proof {
            assert((timestamp_ms + 33) - 0x1_0000_0000 == r as int);
            assert((timestamp_ms + 33) % 0x1_0000_0000 == r as int) by (nonlinear_arith)
                requires
                    0x1_0000_0000 <= timestamp_ms + 33 < 0x2_0000_0000,
                    (timestamp_ms + 33) - 0x1_0000_0000 == r as int,
            ;
        }
        r
    }
}

} // verus!
