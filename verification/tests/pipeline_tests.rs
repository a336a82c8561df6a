use thumbnail_converter::fit::fit_dimensions;
use thumbnail_converter::transcode::{process_payload, transcode, ConversionError, ThumbnailSpec};

fn rgb_raster(w: u32, h: u32) -> image::RgbImage {
    image::RgbImage::from_fn(w, h, |x, y| {
        image::Rgb([(x % 256) as u8, (y % 256) as u8, ((x * 7 + y * 13) % 256) as u8])
    })
}

fn png_bytes(w: u32, h: u32) -> Vec<u8> {
    let img = image::DynamicImage::ImageRgb8(rgb_raster(w, h));
    let mut buf = std::io::Cursor::new(Vec::new());
    img.write_to(&mut buf, image::ImageFormat::Png).unwrap();
    buf.into_inner()
}

fn rgba_png_bytes(w: u32, h: u32) -> Vec<u8> {
    let img = image::RgbaImage::from_fn(w, h, |x, y| {
        image::Rgba([(x % 256) as u8, (y % 256) as u8, 0x40, (y % 200) as u8])
    });
    let img = image::DynamicImage::ImageRgba8(img);
    let mut buf = std::io::Cursor::new(Vec::new());
    img.write_to(&mut buf, image::ImageFormat::Png).unwrap();
    buf.into_inner()
}

fn jpeg_bytes(w: u32, h: u32, quality: u8) -> Vec<u8> {
    let img = rgb_raster(w, h);
    let mut out = Vec::new();
    let mut enc = image::codecs::jpeg::JpegEncoder::new_with_quality(&mut out, quality);
    enc.encode(img.as_raw(), w, h, image::ExtendedColorType::Rgb8)
        .unwrap();
    out
}

fn settings(max_dimension: u32, jpeg_quality: u8) -> ThumbnailSpec {
    ThumbnailSpec {
        max_dimension,
        jpeg_quality,
    }
}

#[test]
fn png_800_600_fits_box_of_170() {
    let payload = png_bytes(800, 600);
    let out = process_payload(&payload, &settings(170, 85)).unwrap();
    assert_eq!(&out[..2], &[0xFFu8, 0xD8]);
    let decoded = image::load_from_memory(&out).unwrap();
    // 800:600 scaled so the longer side lands on 170; 600*170/800 = 127.5
    // rounds to 128.
    assert_eq!((decoded.width(), decoded.height()), (170, 128));
    assert_eq!(decoded.color(), image::ColorType::Rgb8);
}

#[test]
fn jpeg_at_target_size_is_reencoded_not_passed_through() {
    let payload = jpeg_bytes(170, 170, 85);
    let out = process_payload(&payload, &settings(170, 85)).unwrap();
    assert_eq!(&out[..2], &[0xFFu8, 0xD8]);
    let decoded = image::load_from_memory(&out).unwrap();
    assert_eq!((decoded.width(), decoded.height()), (170, 170));
    assert_ne!(out, payload);
}

#[test]
fn three_byte_payload_is_too_small() {
    let res = process_payload(&[0xFF, 0xD8, 0xFF], &settings(170, 85));
    assert!(matches!(res, Err(ConversionError::PayloadTooSmall)));
}

#[test]
fn zeroed_signature_is_unrecognized() {
    let payload = vec![0x00u8; 32];
    let res = process_payload(&payload, &settings(170, 85));
    assert!(matches!(res, Err(ConversionError::UnrecognizedFormat)));
}

#[test]
fn truncated_png_fails_at_decode() {
    let mut payload = png_bytes(64, 64);
    payload.truncate(16);
    let res = process_payload(&payload, &settings(170, 85));
    assert!(matches!(res, Err(ConversionError::DecodeFailed(_))));
}

#[test]
fn transcode_rejects_unrecognized_payloads_at_decode() {
    // Called directly, the transcoder never guesses: a payload without a
    // recognized signature fails at decode, as does an impossibly small one.
    let res = transcode(&[0x00u8; 16], &settings(170, 85));
    assert!(matches!(res, Err(ConversionError::DecodeFailed(_))));
    let res = transcode(&[], &settings(170, 85));
    assert!(matches!(res, Err(ConversionError::DecodeFailed(_))));
}

#[test]
fn png_signature_on_jpeg_body_fails_at_decode() {
    // The sniffed format decides the decoder: a JPEG body behind a PNG
    // signature is decoded as PNG and rejected.
    let mut payload = jpeg_bytes(32, 32, 85);
    payload[0] = 0x89;
    payload[1] = 0x50;
    payload[2] = 0x4E;
    payload[3] = 0x47;
    let res = process_payload(&payload, &settings(170, 85));
    assert!(matches!(res, Err(ConversionError::DecodeFailed(_))));
}

#[test]
fn corrupt_png_body_fails_at_decode() {
    let payload = vec![0x89u8, 0x50, 0x4E, 0x47, 0x00, 0x01, 0x02, 0x03, 0x04];
    let res = process_payload(&payload, &settings(170, 85));
    assert!(matches!(res, Err(ConversionError::DecodeFailed(_))));
}

#[test]
fn rgba_input_loses_its_alpha_channel() {
    let payload = rgba_png_bytes(200, 100);
    let out = process_payload(&payload, &settings(170, 85)).unwrap();
    let decoded = image::load_from_memory(&out).unwrap();
    assert_eq!(decoded.color(), image::ColorType::Rgb8);
    assert_eq!(decoded.color().channel_count(), 3);
    assert_eq!((decoded.width(), decoded.height()), (170, 85));
}

#[test]
fn jpeg_output_round_trips_through_the_pipeline() {
    let payload = jpeg_bytes(300, 200, 85);
    let cfg = settings(170, 85);
    let once = transcode(&payload, &cfg).unwrap();
    let twice = transcode(&once, &cfg).unwrap();
    assert_eq!(&twice[..2], &[0xFFu8, 0xD8]);
    let decoded = image::load_from_memory(&twice).unwrap();
    assert_eq!(decoded.width(), 170);
}

#[test]
fn higher_quality_does_not_shrink_the_output() {
    let payload = png_bytes(640, 480);
    let low = transcode(&payload, &settings(170, 30)).unwrap();
    let high = transcode(&payload, &settings(170, 90)).unwrap();
    assert!(high.len() >= low.len());
}

#[test]
fn zero_bound_is_a_reported_encode_failure() {
    let payload = png_bytes(100, 100);
    let res = process_payload(&payload, &settings(0, 85));
    assert!(matches!(
        res,
        Err(ConversionError::EncodeFailed {
            width: 0,
            height: 0
        })
    ));
}

#[test]
fn small_source_is_upscaled_to_fit() {
    let payload = png_bytes(10, 10);
    let out = process_payload(&payload, &settings(170, 85)).unwrap();
    let decoded = image::load_from_memory(&out).unwrap();
    assert_eq!((decoded.width(), decoded.height()), (170, 170));
}

#[test]
fn fit_dimensions_concrete_values() {
    assert_eq!(fit_dimensions(800, 600, 170), (170, 128));
    assert_eq!(fit_dimensions(600, 800, 170), (128, 170));
    assert_eq!(fit_dimensions(170, 170, 170), (170, 170));
    assert_eq!(fit_dimensions(10, 10, 170), (170, 170));
    // The shorter side never drops below one pixel.
    assert_eq!(fit_dimensions(10000, 1, 170), (170, 1));
    // Degenerate inputs give the zero target.
    assert_eq!(fit_dimensions(0, 100, 170), (0, 0));
    assert_eq!(fit_dimensions(100, 100, 0), (0, 0));
}

#[test]
fn default_settings_match_the_reference() {
    let cfg = ThumbnailSpec::default();
    assert_eq!(cfg.max_dimension, 170);
    assert_eq!(cfg.jpeg_quality, 85);
}
