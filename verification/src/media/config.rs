//! Settings of decoders.

use vstd::prelude::*;

verus! {

/// Kind of device for hardware decoding.
#[derive(Clone, Copy, Debug, PartialEq, Eq, Structural)]
#[non_exhaustive]
pub enum HwDevice {
    VideoToolbox,
    Vaapi,
    Cuda,
    Qsv,
}

/// Settings of a video decoder.
#[derive(Clone, Debug, PartialEq, Eq)]
pub struct VideoDecoderConfig {
    /// Whether hardware decoding is preferred where there is any.
    pub prefer_hw: bool,
    /// The device to use; `None` leaves the choice open.
    pub hw_device: Option<HwDevice>,
}

impl Default for VideoDecoderConfig {
    fn default() -> (r: VideoDecoderConfig)
        ensures
            !r.prefer_hw,
            r.hw_device is None,
    {
        VideoDecoderConfig { prefer_hw: false, hw_device: None }
    }
}

impl VideoDecoderConfig {
    /// Software decoding.
    pub fn new() -> (r: VideoDecoderConfig)
        ensures
            !r.prefer_hw,
            r.hw_device is None,
    {
        VideoDecoderConfig { prefer_hw: false, hw_device: None }
    }

    /// Hardware decoding on whatever device there is.
    pub fn with_hw_accel() -> (r: VideoDecoderConfig)
        ensures
            r.prefer_hw,
            r.hw_device is None,
    {
        VideoDecoderConfig { prefer_hw: true, hw_device: None }
    }

    /// Hardware decoding on the device `device`.
    pub fn with_hw_device(device: HwDevice) -> (r: VideoDecoderConfig)
        ensures
            r.prefer_hw,
            r.hw_device == Some(device),
    {
        VideoDecoderConfig { prefer_hw: true, hw_device: Some(device) }
    }
}

/// Settings of an audio decoder: none so far.
#[derive(Clone, Debug, PartialEq, Eq)]
pub struct AudioDecoderConfig {}

impl Default for AudioDecoderConfig {
    fn default() -> (r: AudioDecoderConfig) {
        AudioDecoderConfig {  }
    }
}

impl AudioDecoderConfig {
    /// The default settings.
    pub fn new() -> (r: AudioDecoderConfig)
        ensures
            r == (AudioDecoderConfig {  }),
    {
        AudioDecoderConfig {  }
    }
}

} // verus!
