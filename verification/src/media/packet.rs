//! Encoded packets, as they pass between a demuxer and a decoder.

use vstd::prelude::*;

use crate::media::rational::Rational;
use crate::media::timestamp::{MediaDuration, Pts};

verus! {

/// The kind of stream that a packet belongs to.
#[derive(Clone, Copy, Debug, PartialEq, Eq, Hash, Structural)]
pub enum StreamType {
    Video,
    Audio,
}

/// Compressed data of one stream, with its timing.
#[derive(Clone, Debug)]
pub struct Packet {
    pub data: Vec<u8>,
    pub pts: Option<Pts>,
    pub dts: Option<Pts>,
    pub duration: MediaDuration,
    pub time_base: Rational,
    pub is_keyframe: bool,
    pub stream_type: StreamType,
}

impl Packet {
    /// The packet with these fields.
    pub fn new(
        data: Vec<u8>,
        pts: Option<Pts>,
        dts: Option<Pts>,
        duration: MediaDuration,
        time_base: Rational,
        is_keyframe: bool,
        stream_type: StreamType,
    ) -> (r: Packet)
        ensures
            r == (Packet { data, pts, dts, duration, time_base, is_keyframe, stream_type }),
    {
        Packet { data, pts, dts, duration, time_base, is_keyframe, stream_type }
    }

    /// Whether the packet holds video.
    pub fn is_video(&self) -> (r: bool)
        ensures
            r == (self.stream_type is Video),
    {
        match self.stream_type {
            StreamType::Video => true,
            StreamType::Audio => false,
        }
    }

    /// Whether the packet holds audio.
    pub fn is_audio(&self) -> (r: bool)
        ensures
            r == (self.stream_type is Audio),
    {
        match self.stream_type {
            StreamType::Video => false,
            StreamType::Audio => true,
        }
    }
}

} // verus!
