use gst_screencapturekit::format::{
    apple_format_to_gst_format, into_video_format, src_pad_formats, PixelFormat, VideoFormat,
};
use gst_screencapturekit::fourcc::{four_char_code, four_char_code_chars};

#[test]
fn four_char_code_of_known_formats() {
    assert_eq!(four_char_code(*b"BGRA"), 0x4247_5241);
    assert_eq!(four_char_code(*b"420v"), 0x3432_3076);
    assert_eq!(four_char_code(*b"avc1"), 0x6176_6331);
}

#[test]
fn four_char_code_chars_most_significant_first() {
    assert_eq!(four_char_code_chars(0x6176_6331), *b"avc1");
    assert_eq!(four_char_code_chars(0), [0, 0, 0, 0]);
    assert_eq!(four_char_code_chars(u32::MAX), [0xff, 0xff, 0xff, 0xff]);
}

#[test]
fn four_char_code_round_trips() {
    for code in [0u32, 1, 0x4247_5241, 0x7f00_ff01, u32::MAX, 0x8000_0000] {
        assert_eq!(four_char_code(four_char_code_chars(code)), code);
    }
    for chars in [*b"BGRA", *b"l10r", [0xff, 0, 0x80, 1]] {
        assert_eq!(four_char_code_chars(four_char_code(chars)), chars);
    }
}

#[test]
fn apple_codes_map_to_video_formats() {
    assert_eq!(apple_format_to_gst_format(four_char_code(*b"BGRA")), VideoFormat::Bgra);
    assert_eq!(apple_format_to_gst_format(four_char_code(*b"l10r")), VideoFormat::Gbra10le);
    assert_eq!(apple_format_to_gst_format(four_char_code(*b"420v")), VideoFormat::Nv12);
    assert_eq!(apple_format_to_gst_format(four_char_code(*b"420f")), VideoFormat::Nv12);
}

#[test]
fn other_codes_are_unknown() {
    assert_eq!(apple_format_to_gst_format(four_char_code(*b"ARGB")), VideoFormat::Unknown);
    assert_eq!(apple_format_to_gst_format(four_char_code(*b"bgra")), VideoFormat::Unknown);
    assert_eq!(apple_format_to_gst_format(four_char_code(*b"xf44")), VideoFormat::Unknown);
    assert_eq!(apple_format_to_gst_format(four_char_code(*b"AGRB")), VideoFormat::Unknown);
    assert_eq!(apple_format_to_gst_format(0), VideoFormat::Unknown);
    // the code of "BGRA" read little-endian
    assert_eq!(apple_format_to_gst_format(0x4152_4742), VideoFormat::Unknown);
}

#[test]
fn pixel_formats_map_to_video_formats() {
    assert_eq!(into_video_format(PixelFormat::ARGB8888), VideoFormat::Bgra);
    assert_eq!(into_video_format(PixelFormat::ARGB2101010), VideoFormat::Gbra10le);
    assert_eq!(into_video_format(PixelFormat::YCbCr420v), VideoFormat::Nv12);
    assert_eq!(into_video_format(PixelFormat::YCbCr420f), VideoFormat::Nv12);
}

#[test]
fn pixel_format_codes() {
    assert_eq!(PixelFormat::ARGB8888.four_char_code(), 0x4247_5241);
    assert_eq!(PixelFormat::ARGB2101010.four_char_code(), four_char_code(*b"l10r"));
    assert_eq!(PixelFormat::YCbCr420v.four_char_code(), 0x3432_3076);
    assert_eq!(PixelFormat::YCbCr420f.four_char_code(), four_char_code(*b"420f"));
}

#[test]
fn pixel_format_agrees_with_its_code() {
    for p in [
        PixelFormat::ARGB8888,
        PixelFormat::ARGB2101010,
        PixelFormat::YCbCr420v,
        PixelFormat::YCbCr420f,
    ] {
        assert_eq!(apple_format_to_gst_format(p.four_char_code()), into_video_format(p));
        assert!(src_pad_formats().contains(&into_video_format(p)));
    }
}

#[test]
fn src_pad_advertises_three_formats() {
    assert_eq!(
        src_pad_formats(),
        vec![VideoFormat::Bgra, VideoFormat::Gbra10le, VideoFormat::Nv12]
    );
}
