//! The H.264 encoder bridge model: configuration, encoded frames and
//! backend selection.
//!
//! The encoder itself is a hardware media pipeline outside the
//! library; the library fixes its configuration and the order in which
//! backends are probed, and carries the encoded frames as plain
//! values.

use vstd::prelude::*;

verus! {

/// Hardware encoder backend.
#[derive(Debug, Clone, Copy, PartialEq, Eq, Structural)]
pub enum EncoderType {
    /// Intel/AMD VAAPI hardware encoder.
    Vaapi,
    /// NVIDIA NVENC hardware encoder.
    Nvenc,
    /// x264 software encoder.
    Software,
}

impl EncoderType {
    /// The media framework's element factory name of this backend.
    pub fn element_name(self) -> (r: &'static str)
        ensures
            self is Vaapi ==> r@ == "vaapih264enc"@,
            self is Nvenc ==> r@ == "nvh264enc"@,
            self is Software ==> r@ == "x264enc"@,
    {
        match self {
            EncoderType::Vaapi => "vaapih264enc",
            EncoderType::Nvenc => "nvh264enc",
            EncoderType::Software => "x264enc",
        }
    }

    /// The human-readable backend name.
    pub fn label(self) -> (r: &'static str)
        ensures
            self is Vaapi ==> r@ == "VAAPI"@,
            self is Nvenc ==> r@ == "NVENC"@,
            self is Software ==> r@ == "x264 (software)"@,
    {
        match self {
            EncoderType::Vaapi => "VAAPI",
            EncoderType::Nvenc => "NVENC",
            EncoderType::Software => "x264 (software)",
        }
    }
}

/// Pick the best available H.264 backend: VAAPI first, then NVENC,
/// then the always-available software encoder.
pub fn choose_encoder(vaapi_available: bool, nvenc_available: bool) -> (r: EncoderType)
    ensures
        vaapi_available ==> r is Vaapi,
        !vaapi_available && nvenc_available ==> r is Nvenc,
        !vaapi_available && !nvenc_available ==> r is Software,
{
    if vaapi_available {
        EncoderType::Vaapi
    } else if nvenc_available {
        EncoderType::Nvenc
    } else {
        EncoderType::Software
    }
}

/// One property to set on the H.264 encoder element.
#[derive(Debug, Clone, PartialEq, Eq)]
pub enum EncoderProp {
    /// An unsigned integer property.
    U32 {
        /// Property name.
        name: String,
        /// Property value.
        value: u32,
    },
    /// A signed integer property.
    I32 {
        /// Property name.
        name: String,
        /// Property value.
        value: i32,
    },
    /// A boolean property.
    Bool {
        /// Property name.
        name: String,
        /// Property value.
        value: bool,
    },
    /// A string-valued property, set from its textual form.
    Text {
        /// Property name.
        name: String,
        /// Property value.
        value: String,
    },
}

/// The properties to set on the H.264 encoder element: CBR rate
/// control and keyframe period for VAAPI, GOP size and the
/// low-latency preset for NVENC, and for the software encoder the
/// zero-latency tune plus the option string pinning BT.601
/// limited-range metadata — the colorimetry the client decoder's
/// fixed-point coefficients demand.
pub fn encoder_properties(
    encoder_type: EncoderType,
    bitrate_bps: u32,
    keyframe_interval: u32,
    low_latency: bool,
) -> (r: Vec<EncoderProp>)
    requires
        keyframe_interval <= i32::MAX,
    ensures
        encoder_type is Vaapi ==> {
            &&& r@.len() == (if low_latency {
                4int
            } else {
                3int
            })
            &&& (r@[0] matches EncoderProp::U32 { name, value } && name@ == "rate-control"@
                && value == 2)
            &&& (r@[1] matches EncoderProp::U32 { name, value } && name@ == "bitrate"@ && value
                == bitrate_bps / 1000)
            &&& (r@[2] matches EncoderProp::U32 { name, value } && name@ == "keyframe-period"@
                && value == keyframe_interval)
            &&& low_latency ==> (r@[3] matches EncoderProp::U32 { name, value } && name@
                == "tune"@ && value == 3)
        },
        encoder_type is Nvenc ==> {
            &&& r@.len() == (if low_latency {
                4int
            } else {
                2int
            })
            &&& (r@[0] matches EncoderProp::U32 { name, value } && name@ == "bitrate"@ && value
                == bitrate_bps / 1000)
            &&& (r@[1] matches EncoderProp::I32 { name, value } && name@ == "gop-size"@ && value
                == keyframe_interval)
            &&& low_latency ==> (r@[2] matches EncoderProp::U32 { name, value } && name@
                == "preset"@ && value == 5)
            &&& low_latency ==> (r@[3] matches EncoderProp::Bool { name, value } && name@
                == "zerolatency"@ && value == true)
        },
        encoder_type is Software ==> {
            &&& r@.len() == (if low_latency {
                5int
            } else {
                3int
            })
            &&& (r@[0] matches EncoderProp::U32 { name, value } && name@ == "bitrate"@ && value
                == bitrate_bps / 1000)
            &&& (r@[1] matches EncoderProp::U32 { name, value } && name@ == "key-int-max"@
                && value == keyframe_interval)
            &&& low_latency ==> (r@[2] matches EncoderProp::Text { name, value } && name@
                == "tune"@ && value@ == "zerolatency"@)
            &&& low_latency ==> (r@[3] matches EncoderProp::Text { name, value } && name@
                == "speed-preset"@ && value@ == "ultrafast"@)
            &&& (r@[(if low_latency {
                4int
            } else {
                2int
            })] matches EncoderProp::Text { name, value } && name@ == "option-string"@ && value@
                == "colorprim=bt601:transfer=bt601:colormatrix=bt601"@)
        },
{
    let kbps = bitrate_bps / 1000;
    let mut props: Vec<EncoderProp> = Vec::new();
    match encoder_type {
        EncoderType::Vaapi => {
            props.push(EncoderProp::U32 { name: "rate-control".to_owned(), value: 2 });
            props.push(EncoderProp::U32 { name: "bitrate".to_owned(), value: kbps });
            props.push(
                EncoderProp::U32 { name: "keyframe-period".to_owned(), value: keyframe_interval },
            );
            if low_latency {
                props.push(EncoderProp::U32 { name: "tune".to_owned(), value: 3 });
            }
        },
        EncoderType::Nvenc => {
            props.push(EncoderProp::U32 { name: "bitrate".to_owned(), value: kbps });
            props.push(
                EncoderProp::I32 {
                    name: "gop-size".to_owned(),
                    value: keyframe_interval as i32,
                },
            );
            if low_latency {
                props.push(EncoderProp::U32 { name: "preset".to_owned(), value: 5 });
                props.push(EncoderProp::Bool { name: "zerolatency".to_owned(), value: true });
            }
        },
        EncoderType::Software => {
            props.push(EncoderProp::U32 { name: "bitrate".to_owned(), value: kbps });
            props.push(
                EncoderProp::U32 { name: "key-int-max".to_owned(), value: keyframe_interval },
            );
            if low_latency {
                props.push(
                    EncoderProp::Text {
                        name: "tune".to_owned(),
                        value: "zerolatency".to_owned(),
                    },
                );
                props.push(
                    EncoderProp::Text {
                        name: "speed-preset".to_owned(),
                        value: "ultrafast".to_owned(),
                    },
                );
            }
            props.push(
                EncoderProp::Text {
                    name: "option-string".to_owned(),
                    value: "colorprim=bt601:transfer=bt601:colormatrix=bt601".to_owned(),
                },
            );
        },
    }
    props
}

/// Configuration for the video encoder.
#[derive(Debug, Clone)]
pub struct EncoderConfig {
    /// Video width in pixels.
    pub width: u32,
    /// Video height in pixels.
    pub height: u32,
    /// Target bitrate in bits per second.
    pub bitrate: u32,
    /// Target frame rate.
    pub framerate: u32,
    /// Backend to use; `None` means probe for the best available.
    pub encoder_type: Option<EncoderType>,
    /// Select the backend's lowest-latency preset and tuning.
    pub low_latency: bool,
    /// Keyframe interval in frames (GOP size).
    pub keyframe_interval: u32,
}

impl Default for EncoderConfig {
    /// Full HD at thirty frames per second, 10 Mbps, automatic
    /// backend, low latency, one keyframe per second.
    fn default() -> (r: Self)
        ensures
            r.width == 1920,
            r.height == 1080,
            r.bitrate == 10_000_000,
            r.framerate == 30,
            r.encoder_type is None,
            r.low_latency,
            r.keyframe_interval == 30,
    {
        EncoderConfig {
            width: 1920,
            height: 1080,
            bitrate: 10_000_000,
            framerate: 30,
            encoder_type: None,
            low_latency: true,
            keyframe_interval: 30,
        }
    }
}

/// The bitrate handed to the encoder elements, in kilobits per
/// second.
pub fn bitrate_kbps(bitrate_bps: u32) -> (r: u32)
    ensures
        r == bitrate_bps / 1000,
{
    bitrate_bps / 1000
}

/// An H.264 encoded frame ready for delivery.
#[derive(Debug, Clone)]
pub struct EncodedFrame {
    /// H.264 NAL units in byte-stream (Annex-B) format.
    pub data: Vec<u8>,
    /// Presentation timestamp in microseconds.
    pub pts: u64,
    /// Frame duration in microseconds.
    pub duration: u64,
    /// Whether this is an IDR keyframe.
    pub is_keyframe: bool,
}

/// Errors from the encoding pipeline.
#[derive(Debug)]
pub enum EncodeError {
    /// Media framework initialisation failed.
    GstInit(String),
    /// A pipeline element could not be created.
    ElementCreate {
        /// Element name.
        name: String,
        /// Reason.
        reason: String,
    },
    /// The pipeline elements could not be linked.
    PipelineLink(String),
    /// A pipeline state change failed.
    StateChange(String),
    /// A raw frame could not be pushed into the pipeline.
    PushBuffer(String),
    /// A pipeline buffer could not be mapped.
    BufferMap,
}

} // verus!
