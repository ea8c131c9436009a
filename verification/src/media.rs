//! Plain descriptions of media: codecs, sample and pixel formats, time
//! bases, timestamps, packets, frames, containers, decoder settings, pipeline
//! signals and errors.

pub mod codec;
pub mod config;
pub mod container;
pub mod error;
pub mod format;
pub mod frame;
pub mod packet;
pub mod rational;
pub mod signal;
pub mod timestamp;

pub use self::codec::CodecId;
pub use self::config::{AudioDecoderConfig, HwDevice, VideoDecoderConfig};
pub use self::container::ContainerFormat;
pub use self::error::Error;
pub use self::format::{ChannelLayout, PixelFormat, SampleFormat};
pub use self::frame::{AudioFrame, VideoFrame};
pub use self::packet::{Packet, StreamType};
pub use self::rational::Rational;
pub use self::signal::PipelineSignal;
pub use self::timestamp::{MediaDuration, Pts};
