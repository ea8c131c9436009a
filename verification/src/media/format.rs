//! Pixel and sample formats.

use vstd::prelude::*;

verus! {

/// Pixel formats of video frames.
#[derive(Clone, Copy, Debug, PartialEq, Eq, Hash, Structural)]
#[non_exhaustive]
pub enum PixelFormat {
    Yuv420p,
    Nv12,
    Bgra,
    Rgba,
    Rgb24,
    Bgr24,
    Yuv422p,
    Yuv444p,
    Yuv420p10,
}

impl PixelFormat {
    /// Bits per pixel; for planar formats the average over the planes.
    pub open spec fn bits(self) -> u32 {
        match self {
            PixelFormat::Yuv420p | PixelFormat::Nv12 => 12,
            PixelFormat::Yuv420p10 => 15,
            PixelFormat::Yuv422p => 16,
            PixelFormat::Rgb24 | PixelFormat::Bgr24 | PixelFormat::Yuv444p => 24,
            PixelFormat::Bgra | PixelFormat::Rgba => 32,
        }
    }

    /// Whether the format keeps its components in planes; a semi-planar
    /// format counts as planar.
    pub open spec fn planar(self) -> bool {
        self is Yuv420p || self is Yuv422p || self is Yuv444p || self is Yuv420p10 || self is Nv12
    }

    /// Bits per pixel.
    pub fn bits_per_pixel(self) -> (r: u32)
        ensures
            r == self.bits(),
    {
        match self {
            PixelFormat::Yuv420p | PixelFormat::Nv12 => 12,
            PixelFormat::Yuv420p10 => 15,
            PixelFormat::Yuv422p => 16,
            PixelFormat::Rgb24 | PixelFormat::Bgr24 | PixelFormat::Yuv444p => 24,
            PixelFormat::Bgra | PixelFormat::Rgba => 32,
        }
    }

    /// Whether this is a planar format.
    pub fn is_planar(self) -> (r: bool)
        ensures
            r == self.planar(),
    {
        match self {
            PixelFormat::Yuv420p
            | PixelFormat::Yuv422p
            | PixelFormat::Yuv444p
            | PixelFormat::Yuv420p10 => true,
            PixelFormat::Nv12 => true,
            PixelFormat::Bgra | PixelFormat::Rgba | PixelFormat::Rgb24 | PixelFormat::Bgr24 => false,
        }
    }
}

/// Formats of audio samples.
#[derive(Clone, Copy, Debug, PartialEq, Eq, Hash, Structural)]
#[non_exhaustive]
pub enum SampleFormat {
    F32,
    F64,
    S16,
    S32,
    U8,
}

impl SampleFormat {
    /// Size of one sample in bytes.
    pub open spec fn size(self) -> usize {
        match self {
            SampleFormat::U8 => 1,
            SampleFormat::S16 => 2,
            SampleFormat::S32 | SampleFormat::F32 => 4,
            SampleFormat::F64 => 8,
        }
    }

    /// Size of one sample in bytes.
    pub fn bytes_per_sample(self) -> (r: usize)
        ensures
            r == self.size(),
    {
        match self {
            SampleFormat::U8 => 1,
            SampleFormat::S16 => 2,
            SampleFormat::S32 | SampleFormat::F32 => 4,
            SampleFormat::F64 => 8,
        }
    }

    /// Whether samples are floating-point numbers.
    pub fn is_float(self) -> (r: bool)
        ensures
            r == (self is F32 || self is F64),
    {
        match self {
            SampleFormat::F32 | SampleFormat::F64 => true,
            _ => false,
        }
    }
}

/// Layout of audio channels.
#[derive(Clone, Copy, Debug, PartialEq, Eq, Hash, Structural)]
#[non_exhaustive]
pub enum ChannelLayout {
    Mono,
    Stereo,
}

impl ChannelLayout {
    /// Number of channels.
    pub fn channels(self) -> (r: u16)
        ensures
            r == (if self is Mono {
                1int
            } else {
                2int
            }),
    {
        match self {
            ChannelLayout::Mono => 1,
            ChannelLayout::Stereo => 2,
        }
    }
}

} // verus!
