//! The raw video formats the source produces, and how the pixel formats of
//! ScreenCaptureKit map onto them.

use vstd::prelude::*;
use crate::fourcc::{chars_of_code, code_of_chars, four_char_code, four_char_code_chars};

verus! {

/// A GStreamer raw video format, as far as this source deals in them.
#[derive(Clone, Copy, Debug, PartialEq, Eq, Structural)]
pub enum VideoFormat {
    Unknown,
    Bgra,
    Gbra10le,
    Nv12,
}

/// A pixel format that a ScreenCaptureKit stream can deliver.
#[derive(Clone, Copy, Debug, PartialEq, Eq, Structural)]
pub enum PixelFormat {
    /// Packed 32-bit BGRA, code `BGRA`.
    ARGB8888,
    /// Packed 10-bit ARGB, code `l10r`.
    ARGB2101010,
    /// Bi-planar 4:2:0 YCbCr, video range, code `420v`.
    YCbCr420v,
    /// Bi-planar 4:2:0 YCbCr, full range, code `420f`.
    YCbCr420f,
}

/// `BGRA`
pub open spec fn bgra_chars() -> Seq<u8> {
    seq![0x42, 0x47, 0x52, 0x41]
}

/// `l10r`
pub open spec fn l10r_chars() -> Seq<u8> {
    seq![0x6c, 0x31, 0x30, 0x72]
}

/// `420v`
pub open spec fn ycbcr_420v_chars() -> Seq<u8> {
    seq![0x34, 0x32, 0x30, 0x76]
}

/// `420f`
pub open spec fn ycbcr_420f_chars() -> Seq<u8> {
    seq![0x34, 0x32, 0x30, 0x66]
}

/// The video format named by the characters of a pixel format code.
pub open spec fn format_of_chars(chars: Seq<u8>) -> VideoFormat {
    if chars == bgra_chars() {
        VideoFormat::Bgra
    } else if chars == l10r_chars() {
        VideoFormat::Gbra10le
    } else if chars == ycbcr_420v_chars() || chars == ycbcr_420f_chars() {
        VideoFormat::Nv12
    } else {
        VideoFormat::Unknown
    }
}

/// The video format of the Core Video pixel format code `code`.
pub open spec fn format_of_code(code: u32) -> VideoFormat {
    format_of_chars(chars_of_code(code))
}

/// The four characters of the code of a pixel format.
pub open spec fn pixel_format_chars(format: PixelFormat) -> Seq<u8> {
    match format {
        PixelFormat::ARGB8888 => bgra_chars(),
        PixelFormat::ARGB2101010 => l10r_chars(),
        PixelFormat::YCbCr420v => ycbcr_420v_chars(),
        PixelFormat::YCbCr420f => ycbcr_420f_chars(),
    }
}

/// The video format of a pixel format.
pub open spec fn spec_video_format_of(format: PixelFormat) -> VideoFormat {
    match format {
        PixelFormat::ARGB8888 => VideoFormat::Bgra,
        PixelFormat::ARGB2101010 => VideoFormat::Gbra10le,
        PixelFormat::YCbCr420v => VideoFormat::Nv12,
        PixelFormat::YCbCr420f => VideoFormat::Nv12,
    }
}

/// The formats the source pad advertises in its caps, in that order.
pub open spec fn advertised_formats() -> Seq<VideoFormat> {
    seq![VideoFormat::Bgra, VideoFormat::Gbra10le, VideoFormat::Nv12]
}

/// Whether the four characters `a` are `b0`, `b1`, `b2`, `b3`.
fn chars_equal(a: &[u8; 4], b0: u8, b1: u8, b2: u8, b3: u8) -> (r: bool)
    ensures
        r == (a@ == seq![b0, b1, b2, b3]),
{
    let r = a[0] == b0 && a[1] == b1 && a[2] == b2 && a[3] == b3;
    if r {
        assert(a@ =~= seq![b0, b1, b2, b3]);
    } else {
        assert(a@[0] != b0 || a@[1] != b1 || a@[2] != b2 || a@[3] != b3);
    }
    r
}

/// Maps a Core Video pixel format code to the video format it names:
/// `BGRA` to BGRA, `l10r` to GBRA 10-bit, `420v` and `420f` to NV12, and
/// every other code to `Unknown`.
pub fn apple_format_to_gst_format(raw_code: u32) -> (format: VideoFormat)
    ensures
        format == format_of_code(raw_code),
{
    let chars = four_char_code_chars(raw_code);
    if chars_equal(&chars, 0x42, 0x47, 0x52, 0x41) {
        // "BGRA"
        VideoFormat::Bgra
    } else if chars_equal(&chars, 0x6c, 0x31, 0x30, 0x72) {
        // "l10r"
        VideoFormat::Gbra10le
    } else if chars_equal(&chars, 0x34, 0x32, 0x30, 0x76) {
        // "420v"
        VideoFormat::Nv12
    } else if chars_equal(&chars, 0x34, 0x32, 0x30, 0x66) {
        // "420f"
        VideoFormat::Nv12
    } else {
        VideoFormat::Unknown
    }
}

/// The video format in which frames of a pixel format leave the source.
pub fn into_video_format(pixel_format: PixelFormat) -> (format: VideoFormat)
    ensures
        format == spec_video_format_of(pixel_format),
{
    match pixel_format {
        PixelFormat::ARGB8888 => VideoFormat::Bgra,
        PixelFormat::ARGB2101010 => VideoFormat::Gbra10le,
        PixelFormat::YCbCr420v => VideoFormat::Nv12,
        PixelFormat::YCbCr420f => VideoFormat::Nv12,
    }
}

impl PixelFormat {
    /// The Core Video code of the pixel format.
    pub fn four_char_code(&self) -> (code: u32)
        ensures
            code == code_of_chars(pixel_format_chars(*self)),
    {
        let chars: [u8; 4] = match self {
            PixelFormat::ARGB8888 => [0x42, 0x47, 0x52, 0x41],
            PixelFormat::ARGB2101010 => [0x6c, 0x31, 0x30, 0x72],
            PixelFormat::YCbCr420v => [0x34, 0x32, 0x30, 0x76],
            PixelFormat::YCbCr420f => [0x34, 0x32, 0x30, 0x66],
        };
        assert(chars@ =~= pixel_format_chars(*self));
        four_char_code(chars)
    }
}

/// The formats the source pad advertises in its caps.
pub fn src_pad_formats() -> (formats: Vec<VideoFormat>)
    ensures
        formats@ == advertised_formats(),
{
    let mut formats: Vec<VideoFormat> = Vec::new();
    formats.push(VideoFormat::Bgra);
    formats.push(VideoFormat::Gbra10le);
    formats.push(VideoFormat::Nv12);
    assert(formats@ =~= advertised_formats());
    formats
}

/// A pixel format leaves the source in the format its own code names: mapping
/// the pixel format directly agrees with mapping its four-character code.
pub proof fn lemma_pixel_format_agrees_with_code(pixel_format: PixelFormat)
    ensures
        code_of_chars(pixel_format_chars(pixel_format)) <= u32::MAX,
        format_of_code(code_of_chars(pixel_format_chars(pixel_format)) as u32)
            == spec_video_format_of(pixel_format),
{
    let chars = pixel_format_chars(pixel_format);
    crate::fourcc::lemma_chars_code_round_trip(chars);
    assert(bgra_chars() != l10r_chars());
    assert(bgra_chars()[0] != ycbcr_420v_chars()[0]);
    assert(bgra_chars()[0] != ycbcr_420f_chars()[0]);
    assert(l10r_chars()[0] != ycbcr_420v_chars()[0]);
    assert(l10r_chars()[0] != ycbcr_420f_chars()[0]);
}

/// Every format a pixel format maps to is one the source pad advertises.
pub proof fn lemma_pixel_formats_advertised(pixel_format: PixelFormat)
    ensures
        advertised_formats().contains(spec_video_format_of(pixel_format)),
{
    let f = spec_video_format_of(pixel_format);
    if f == VideoFormat::Bgra {
        assert(advertised_formats()[0] == f);
    } else if f == VideoFormat::Gbra10le {
        assert(advertised_formats()[1] == f);
    } else {
        assert(advertised_formats()[2] == f);
    }
}

/// A code maps to a known format exactly when it is the code of one of the
/// pixel formats, and the known formats are all advertised on the source pad.
pub proof fn lemma_known_codes(code: u32)
    ensures
        format_of_code(code) != VideoFormat::Unknown <==> exists|p: PixelFormat|
            code_of_chars(pixel_format_chars(p)) == code,
        format_of_code(code) != VideoFormat::Unknown ==> advertised_formats().contains(
            format_of_code(code),
        ),
{
    let chars = chars_of_code(code);
    crate::fourcc::lemma_code_chars_round_trip(code);
    if format_of_code(code) != VideoFormat::Unknown {
        let p = if chars == bgra_chars() {
            PixelFormat::ARGB8888
        } else if chars == l10r_chars() {
            PixelFormat::ARGB2101010
        } else if chars == ycbcr_420v_chars() {
            PixelFormat::YCbCr420v
        } else {
            PixelFormat::YCbCr420f
        };
        assert(pixel_format_chars(p) == chars);
        assert(code_of_chars(pixel_format_chars(p)) == code);
        lemma_pixel_formats_advertised(p);
        lemma_pixel_format_agrees_with_code(p);
    } else {
        assert forall|p: PixelFormat| code_of_chars(pixel_format_chars(p)) != code by {
            if code_of_chars(pixel_format_chars(p)) == code {
                lemma_pixel_format_agrees_with_code(p);
            }
        }
    }
}

} // verus!
