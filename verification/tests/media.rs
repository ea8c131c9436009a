use drm_trust::media::{
    AudioDecoderConfig, ChannelLayout, CodecId, HwDevice, PipelineSignal, PixelFormat, Rational,
    SampleFormat, VideoDecoderConfig,
};

#[test]
fn video_codecs() {
    assert!(CodecId::H264.is_video());
    assert!(CodecId::H265.is_video());
    assert!(CodecId::Vp9.is_video());
    assert!(CodecId::Av1.is_video());
    assert!(!CodecId::Aac.is_video());
}

#[test]
fn audio_codecs() {
    assert!(CodecId::Aac.is_audio());
    assert!(CodecId::Opus.is_audio());
    assert!(CodecId::Mp3.is_audio());
    assert!(CodecId::Flac.is_audio());
    assert!(!CodecId::H264.is_audio());
}

#[test]
fn lossless_codecs() {
    assert!(CodecId::Flac.is_lossless());
    assert!(CodecId::PcmS16Le.is_lossless());
    assert!(!CodecId::Aac.is_lossless());
    assert!(!CodecId::Mp3.is_lossless());
}

#[test]
fn codec_is_copy() {
    let c = CodecId::H264;
    let c2 = c;
    assert_eq!(c, c2);
}

#[test]
fn pixel_format_bits_per_pixel() {
    assert_eq!(PixelFormat::Yuv420p.bits_per_pixel(), 12);
    assert_eq!(PixelFormat::Bgra.bits_per_pixel(), 32);
    assert_eq!(PixelFormat::Rgb24.bits_per_pixel(), 24);
}

#[test]
fn pixel_format_is_planar() {
    assert!(PixelFormat::Yuv420p.is_planar());
    assert!(PixelFormat::Nv12.is_planar());
    assert!(!PixelFormat::Bgra.is_planar());
    assert!(!PixelFormat::Rgb24.is_planar());
}

#[test]
fn sample_format_bytes_per_sample() {
    assert_eq!(SampleFormat::U8.bytes_per_sample(), 1);
    assert_eq!(SampleFormat::S16.bytes_per_sample(), 2);
    assert_eq!(SampleFormat::F32.bytes_per_sample(), 4);
    assert_eq!(SampleFormat::F64.bytes_per_sample(), 8);
}

#[test]
fn sample_format_is_float() {
    assert!(SampleFormat::F32.is_float());
    assert!(SampleFormat::F64.is_float());
    assert!(!SampleFormat::S16.is_float());
    assert!(!SampleFormat::S32.is_float());
}

#[test]
fn channel_layout_channels() {
    assert_eq!(ChannelLayout::Mono.channels(), 1);
    assert_eq!(ChannelLayout::Stereo.channels(), 2);
}

#[test]
fn signal_equality() {
    assert_eq!(PipelineSignal::Flush, PipelineSignal::Flush);
    assert_eq!(PipelineSignal::Eos, PipelineSignal::Eos);
    assert_ne!(PipelineSignal::Flush, PipelineSignal::Eos);
}

#[test]
fn signal_is_copy() {
    let s = PipelineSignal::Flush;
    let s2 = s; // Copy
    assert_eq!(s, s2);
}

#[test]
fn new_rational() {
    let r = Rational::new(1, 1000);
    assert_eq!(r.num, 1);
    assert_eq!(r.den, 1000);
}

#[test]
fn invert() {
    let r = Rational::new(1, 90000);
    let inv = r.invert();
    assert_eq!(inv.num, 90000);
    assert_eq!(inv.den, 1);
}

#[test]
fn from_i32() {
    let r: Rational = 25.into();
    assert_eq!(r.num, 25);
    assert_eq!(r.den, 1);
}

#[test]
fn rational_display() {
    assert_eq!(Rational::new(1, 90000).to_string(), "1/90000");
}

#[test]
fn rational_keeps_signs_and_does_not_reduce() {
    let r = Rational::new(-24000, 1001);
    assert_eq!(r.to_string(), "-24000/1001");
    assert_eq!(r.invert(), Rational { num: 1001, den: -24000 });
    assert_eq!(Rational::new(2, 4), Rational { num: 2, den: 4 });
}

#[test]
fn every_codec_is_video_or_audio_and_lossless_ones_are_audio() {
    for c in [
        CodecId::H264,
        CodecId::H265,
        CodecId::Vp8,
        CodecId::Vp9,
        CodecId::Av1,
        CodecId::Mpeg4,
        CodecId::Mpeg2Video,
        CodecId::Aac,
        CodecId::Opus,
        CodecId::Mp3,
        CodecId::Vorbis,
        CodecId::Flac,
        CodecId::PcmS16Le,
        CodecId::PcmS16Be,
        CodecId::PcmF32Le,
        CodecId::Ac3,
    ] {
        assert_ne!(c.is_video(), c.is_audio());
        if c.is_lossless() {
            assert!(c.is_audio());
        }
    }
    assert_eq!(PixelFormat::Yuv420p10.bits_per_pixel(), 15);
    assert_eq!(PixelFormat::Yuv422p.bits_per_pixel(), 16);
    assert_eq!(SampleFormat::S32.bytes_per_sample(), 4);
}

#[test]
fn decoder_settings() {
    let soft = VideoDecoderConfig::new();
    assert!(!soft.prefer_hw);
    assert!(soft.hw_device.is_none());
    assert_eq!(soft, VideoDecoderConfig::default());
    let any = VideoDecoderConfig::with_hw_accel();
    assert!(any.prefer_hw);
    assert!(any.hw_device.is_none());
    let cuda = VideoDecoderConfig::with_hw_device(HwDevice::Cuda);
    assert!(cuda.prefer_hw);
    assert_eq!(cuda.hw_device, Some(HwDevice::Cuda));
    assert_eq!(AudioDecoderConfig::new(), AudioDecoderConfig::default());
}
