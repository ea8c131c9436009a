//! Container formats that a stream can be written to.

use std::time::Duration;
use vstd::prelude::*;

verus! {

/// `Duration::clone`: the copy is the duration itself.
pub assume_specification[ <Duration as Clone>::clone ](d: &Duration) -> (r: Duration)
    ensures
        r == *d,
;

/// A container format for output.
#[derive(Clone, Debug)]
pub enum ContainerFormat {
    Mp4,
    Mkv,
    MpegTs,
    /// Segments of the given length, with a playlist.
    Hls { segment_duration: Duration },
}

impl ContainerFormat {
    /// The name by which a muxer knows the format.
    pub open spec fn format_name(&self) -> Seq<char> {
        match self {
            ContainerFormat::Mp4 => "mp4"@,
            ContainerFormat::Mkv => "matroska"@,
            ContainerFormat::MpegTs => "mpegts"@,
            ContainerFormat::Hls { .. } => "hls"@,
        }
    }

    /// The usual ending of a file name in the format.
    pub open spec fn file_extension(&self) -> Seq<char> {
        match self {
            ContainerFormat::Mp4 => "mp4"@,
            ContainerFormat::Mkv => "mkv"@,
            ContainerFormat::MpegTs => "ts"@,
            ContainerFormat::Hls { .. } => "m3u8"@,
        }
    }

    /// The name by which a muxer knows the format.
    pub fn ffmpeg_format_name(&self) -> (r: &'static str)
        ensures
            r@ == self.format_name(),
    {
        match self {
            ContainerFormat::Mp4 => "mp4",
            ContainerFormat::Mkv => "matroska",
            ContainerFormat::MpegTs => "mpegts",
            ContainerFormat::Hls { .. } => "hls",
        }
    }

    /// The usual ending of a file name in the format.
    pub fn extension(&self) -> (r: &'static str)
        ensures
            r@ == self.file_extension(),
    {
        match self {
            ContainerFormat::Mp4 => "mp4",
            ContainerFormat::Mkv => "mkv",
            ContainerFormat::MpegTs => "ts",
            ContainerFormat::Hls { .. } => "m3u8",
        }
    }
}

} // verus!
