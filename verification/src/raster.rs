//! The trusted boundary around the `image` crate: decoding a payload as the
//! format its signature names, resampling a raster to exact dimensions,
//! dropping the alpha channel, and encoding as baseline JPEG. Each wrapper's
//! contract states what the crate's source shows of the call; the raster
//! itself stays opaque to the verifier, carried beside its dimensions as
//! plain values.
//!
//! Decoding always names the format outright (`load_from_memory_with_format`
//! with a built-in format): that path constructs the built-in decoder under
//! the library's fixed default limits and consults none of the crate's
//! runtime-registrable hook registries, so its outcome depends on the bytes
//! alone — which is what the two `uninterp` names below claim. The guessing
//! entry point (`load_from_memory`) checks those registries first and is
//! deliberately not used.

use vstd::prelude::*;

verus! {

#[verifier::external_type_specification]
#[verifier::external_body]
pub struct ExDynamicImage(image::DynamicImage);

/// What `image::load_from_memory_with_format` returns for the bytes `b` read
/// as PNG: `None` where the built-in PNG decoder (under the crate's default
/// limits) rejects them, otherwise the width and height of the decoded
/// raster. On that hook-free path, a pure function of the bytes alone.
pub uninterp spec fn png_decode_dims(b: Seq<u8>) -> Option<(u32, u32)>;

/// What `image::load_from_memory_with_format` returns for the bytes `b` read
/// as JPEG: `None` where the built-in JPEG decoder (under the crate's
/// default limits) rejects them, otherwise the width and height of the
/// decoded raster. On that hook-free path, a pure function of the bytes
/// alone.
pub uninterp spec fn jpeg_decode_dims(b: Seq<u8>) -> Option<(u32, u32)>;

/// A decoded raster held for the pipeline: the pixel data, opaque to the
/// verifier, beside its dimensions and an RGB flag. The fields are private,
/// so every `Raster` a caller can hold was made by one of the trusted
/// wrappers below, which keep the plain fields consistent with the raster
/// they describe; in particular the flag is set only where the underlying
/// buffer really is 3-channel 8-bit RGB of exactly `width * height` pixels,
/// which is what makes the encoder wrapper's panic-freedom sound.
pub struct Raster {
    img: image::DynamicImage,
    width: u32,
    height: u32,
    rgb: bool,
}

impl Raster {
    /// The raster's width in pixels.
    pub closed spec fn spec_width(self) -> u32 {
        self.width
    }

    /// The raster's height in pixels.
    pub closed spec fn spec_height(self) -> u32 {
        self.height
    }

    /// Whether the raster is known to be 3-channel 8-bit RGB.
    pub closed spec fn spec_is_rgb(self) -> bool {
        self.rgb
    }

    /// The raster's width in pixels.
    pub fn width(&self) -> (w: u32)
        ensures
            w == self.spec_width(),
    {
        self.width
    }

    /// The raster's height in pixels.
    pub fn height(&self) -> (h: u32)
        ensures
            h == self.spec_height(),
    {
        self.height
    }
}

/// Relies on `image::load_from_memory_with_format` with the built-in PNG
/// format, and the `width`, `height` and `color` accessors of the result:
/// the format is pinned, so no runtime hook is consulted and the outcome
/// depends on the bytes alone. On failure the decoder's diagnostic is
/// returned; the RGB flag is set exactly where the decoder produced a
/// 3-channel 8-bit raster.
#[verifier::external_body]
pub(crate) fn decode_png(payload: &[u8]) -> (r: Result<Raster, String>)
    ensures
        match r {
            Ok(raster) => png_decode_dims(payload@) == Some(
                (raster.spec_width(), raster.spec_height()),
            ),
            Err(_) => png_decode_dims(payload@) is None,
        },
{
    match image::load_from_memory_with_format(payload, image::ImageFormat::Png) {
        Ok(img) => Ok(Raster {
            width: img.width(),
            height: img.height(),
            rgb: matches!(img.color(), image::ColorType::Rgb8),
            img,
        }),
        Err(e) => Err(format!("{e}")),
    }
}

/// Relies on `image::load_from_memory_with_format` with the built-in JPEG
/// format, and the `width`, `height` and `color` accessors of the result:
/// the format is pinned, so no runtime hook is consulted and the outcome
/// depends on the bytes alone. On failure the decoder's diagnostic is
/// returned; the RGB flag is set exactly where the decoder produced a
/// 3-channel 8-bit raster.
#[verifier::external_body]
pub(crate) fn decode_jpeg(payload: &[u8]) -> (r: Result<Raster, String>)
    ensures
        match r {
            Ok(raster) => jpeg_decode_dims(payload@) == Some(
                (raster.spec_width(), raster.spec_height()),
            ),
            Err(_) => jpeg_decode_dims(payload@) is None,
        },
{
    match image::load_from_memory_with_format(payload, image::ImageFormat::Jpeg) {
        Ok(img) => Ok(Raster {
            width: img.width(),
            height: img.height(),
            rgb: matches!(img.color(), image::ColorType::Rgb8),
            img,
        }),
        Err(e) => Err(format!("{e}")),
    }
}

/// Relies on `image::DynamicImage::resize_exact` with the Lanczos-windowed
/// sinc filter (3 lobes): the returned raster has exactly the requested
/// dimensions and the pixel format of the source. The bound keeps the
/// requested allocation within what the JPEG encoder could accept.
#[verifier::external_body]
pub(crate) fn resize_lanczos(r: &Raster, tw: u32, th: u32) -> (s: Raster)
    requires
        1 <= tw <= 65535,
        1 <= th <= 65535,
    ensures
        s.spec_width() == tw,
        s.spec_height() == th,
        s.spec_is_rgb() == r.spec_is_rgb(),
{
    Raster {
        img: r.img.resize_exact(tw, th, image::imageops::FilterType::Lanczos3),
        width: tw,
        height: th,
        rgb: r.rgb,
    }
}

/// Relies on `image::DynamicImage::to_rgb8`: the result is a 3-channel 8-bit
/// RGB raster of the same dimensions; any alpha channel is dropped outright,
/// not composited.
#[verifier::external_body]
pub(crate) fn to_rgb(r: &Raster) -> (s: Raster)
    ensures
        s.spec_width() == r.spec_width(),
        s.spec_height() == r.spec_height(),
        s.spec_is_rgb(),
{
    Raster {
        img: image::DynamicImage::ImageRgb8(r.img.to_rgb8()),
        width: r.width,
        height: r.height,
        rgb: true,
    }
}

/// Relies on `image::codecs::jpeg::JpegEncoder::new_with_quality` and
/// `JpegEncoder::encode`, and on the built-in JPEG decoder reading the frame
/// header back: the quality is clamped into `1..=100`; writing to a `Vec`
/// cannot fail; encoding a matching RGB buffer succeeds exactly when both
/// dimensions lie in `1..=65535`; the stream then opens with the `FF D8`
/// start-of-image marker followed by further segments; and — for rasters up
/// to 8192 pixels a side, which stay far inside the decoder's default
/// 512 MiB allocation limit — decoding the stream as JPEG yields exactly the
/// encoded dimensions, which the encoder wrote into the frame header.
#[verifier::external_body]
pub(crate) fn encode_jpeg(r: &Raster, quality: u8) -> (res: Option<Vec<u8>>)
    requires
        r.spec_is_rgb(),
    ensures
        res is Some <==> (1 <= r.spec_width() <= 65535 && 1 <= r.spec_height() <= 65535),
        match res {
            Some(bytes) => {
                &&& bytes@.len() >= 4
                &&& bytes@[0] == 0xffu8
                &&& bytes@[1] == 0xd8u8
                &&& (r.spec_width() <= 8192 && r.spec_height() <= 8192 ==> jpeg_decode_dims(
                    bytes@,
                ) == Some((r.spec_width(), r.spec_height())))
            },
            None => true,
        },
{
    let mut out: Vec<u8> = Vec::new();
    let mut encoder = image::codecs::jpeg::JpegEncoder::new_with_quality(&mut out, quality);
    let outcome = encoder.encode(
        r.img.as_bytes(),
        r.width,
        r.height,
        image::ExtendedColorType::Rgb8,
    );
    match outcome {
        Ok(()) => Some(out),
        Err(_) => None,
    }
}

} // verus!
