//! Codec identification.

use vstd::prelude::*;

verus! {

/// The codecs that a media pipeline is expected to meet.
#[derive(Clone, Copy, Debug, PartialEq, Eq, Hash, Structural)]
#[non_exhaustive]
pub enum CodecId {
    H264,
    H265,
    Vp8,
    Vp9,
    Av1,
    Mpeg4,
    Mpeg2Video,
    Aac,
    Opus,
    Mp3,
    Vorbis,
    Flac,
    PcmS16Le,
    PcmS16Be,
    PcmF32Le,
    Ac3,
}

impl CodecId {
    /// Whether the codec encodes video.
    pub open spec fn video(self) -> bool {
        self is H264 || self is H265 || self is Vp8 || self is Vp9 || self is Av1 || self is Mpeg4
            || self is Mpeg2Video
    }

    /// Whether the codec loses nothing of what it encodes.
    pub open spec fn lossless(self) -> bool {
        self is Flac || self is PcmS16Le || self is PcmS16Be || self is PcmF32Le
    }

    /// Whether this is a video codec.
    pub fn is_video(self) -> (r: bool)
        ensures
            r == self.video(),
    {
        match self {
            CodecId::H264
            | CodecId::H265
            | CodecId::Vp8
            | CodecId::Vp9
            | CodecId::Av1
            | CodecId::Mpeg4
            | CodecId::Mpeg2Video => true,
            _ => false,
        }
    }

    /// Whether this is an audio codec: every codec is one of the two.
    pub fn is_audio(self) -> (r: bool)
        ensures
            r == !self.video(),
    {
        match self {
            CodecId::Aac
            | CodecId::Opus
            | CodecId::Mp3
            | CodecId::Vorbis
            | CodecId::Flac
            | CodecId::PcmS16Le
            | CodecId::PcmS16Be
            | CodecId::PcmF32Le
            | CodecId::Ac3 => true,
            _ => false,
        }
    }

    /// Whether this is a lossless codec. Only audio codecs are.
    pub fn is_lossless(self) -> (r: bool)
        ensures
            r == self.lossless(),
            r ==> !self.video(),
    {
        match self {
            CodecId::Flac | CodecId::PcmS16Le | CodecId::PcmS16Be | CodecId::PcmF32Le => true,
            _ => false,
        }
    }
}

} // verus!
