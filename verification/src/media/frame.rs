//! Decoded frames of video and audio.

use vstd::prelude::*;

use crate::media::format::{ChannelLayout, PixelFormat, SampleFormat};
use crate::media::rational::Rational;
use crate::media::timestamp::Pts;

verus! {

/// Raw pixels of one picture, laid out as `format` says.
#[derive(Clone, Debug)]
pub struct VideoFrame {
    pub data: Vec<u8>,
    pub width: u32,
    pub height: u32,
    pub format: PixelFormat,
    pub pts: Option<Pts>,
    pub time_base: Rational,
}

impl VideoFrame {
    /// The frame with these fields.
    pub fn new(
        data: Vec<u8>,
        width: u32,
        height: u32,
        format: PixelFormat,
        pts: Option<Pts>,
        time_base: Rational,
    ) -> (r: VideoFrame)
        ensures
            r == (VideoFrame { data, width, height, format, pts, time_base }),
    {
        VideoFrame { data, width, height, format, pts, time_base }
    }
}

/// Raw samples of a stretch of sound, the channels interleaved.
#[derive(Clone, Debug)]
pub struct AudioFrame {
    pub data: Vec<u8>,
    /// Number of samples in each channel.
    pub samples: usize,
    /// Samples per second.
    pub sample_rate: u32,
    pub channels: ChannelLayout,
    pub format: SampleFormat,
    pub pts: Option<Pts>,
    pub time_base: Rational,
}

impl AudioFrame {
    /// The frame with these fields.
    pub fn new(
        data: Vec<u8>,
        samples: usize,
        sample_rate: u32,
        channels: ChannelLayout,
        format: SampleFormat,
        pts: Option<Pts>,
        time_base: Rational,
    ) -> (r: AudioFrame)
        ensures
            r == (AudioFrame { data, samples, sample_rate, channels, format, pts, time_base }),
    {
        AudioFrame { data, samples, sample_rate, channels, format, pts, time_base }
    }

    /// Number of channels of the frame.
    pub open spec fn channel_count(&self) -> int {
        if self.channels is Mono {
            1
        } else {
            2
        }
    }

    /// Samples of all channels together.
    pub open spec fn sample_count(&self) -> int {
        self.samples * self.channel_count()
    }

    /// Samples of all channels together.
    pub fn total_samples(&self) -> (r: usize)
        requires
            self.sample_count() <= usize::MAX,
        ensures
            r == self.sample_count(),
    {
        let channels: usize = self.channels.channels() as usize;
        assert(self.samples * channels == self.sample_count());
        self.samples * channels
    }

    /// Number of bytes that the samples of the frame take.
    pub fn expected_data_len(&self) -> (r: usize)
        requires
            self.sample_count() * self.format.size() <= usize::MAX,
        ensures
            r == self.sample_count() * self.format.size(),
    {
        assert(self.sample_count() <= self.sample_count() * self.format.size()) by (nonlinear_arith)
            requires
                self.sample_count() >= 0,
                self.format.size() >= 1,
        ;
        self.total_samples() * self.format.bytes_per_sample()
    }
}

} // verus!
