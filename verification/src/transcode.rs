//! The conversion pipeline: classify a payload by its signature, decode it
//! as the format the signature names, resize it to fit the configured square
//! box, strip any alpha channel, and re-encode it as baseline JPEG at the
//! configured quality. A pure, stateless transformation: all publishing and
//! logging stays with the caller, and a failure ends the handling of the one
//! payload only.

use crate::fit::{fit_dimensions, lemma_fit_preserves_aspect, spec_fit};
use crate::format::{classify, spec_classify, ImageFormat};
use crate::raster::{
    decode_jpeg, decode_png, encode_jpeg, jpeg_decode_dims, png_decode_dims, resize_lanczos,
    to_rgb,
};
use vstd::prelude::*;

verus! {

/// The per-process conversion settings: every side of the output is bounded
/// by `max_dimension`, and the re-encoded JPEG uses `jpeg_quality`.
#[derive(Clone, Copy, Debug, PartialEq, Eq, Structural)]
pub struct ThumbnailSpec {
    pub max_dimension: u32,
    pub jpeg_quality: u8,
}

impl ThumbnailSpec {
    /// The configuration the data model calls for: a positive bounding
    /// dimension and a quality in `1..=100`.
    pub open spec fn wf(self) -> bool {
        &&& self.max_dimension >= 1
        &&& 1 <= self.jpeg_quality <= 100
    }
}

impl Default for ThumbnailSpec {
    /// The reference defaults: a 170-pixel bounding box at quality 85.
    fn default() -> (r: Self)
        ensures
            r.max_dimension == 170,
            r.jpeg_quality == 85,
            r.wf(),
    {
        ThumbnailSpec { max_dimension: 170, jpeg_quality: 85 }
    }
}

/// Why a payload produced no output. Every kind ends the handling of the one
/// payload only; none is fatal to the caller's receive loop.
#[derive(Debug, PartialEq, Eq)]
pub enum ConversionError {
    /// The payload holds fewer than four bytes: too small to carry a
    /// signature, reported distinctly from an unrecognized one.
    PayloadTooSmall,
    /// The signature bytes match neither PNG nor JPEG.
    UnrecognizedFormat,
    /// The decoder rejected the payload body; carries its diagnostic.
    DecodeFailed(String),
    /// The resize target is no size the JPEG encoder accepts; carries that
    /// target.
    EncodeFailed { width: u32, height: u32 },
}

/// What decoding an inbound payload yields: the payload is decoded as the
/// format its signature names, and one whose signature names neither PNG nor
/// JPEG is never handed to a decoder.
pub open spec fn spec_decode(b: Seq<u8>) -> Option<(u32, u32)> {
    match spec_classify(b) {
        ImageFormat::Png => png_decode_dims(b),
        ImageFormat::Jpeg => jpeg_decode_dims(b),
        ImageFormat::Unknown => None,
    }
}

/// The resize target for a `w`-by-`h` source under the bound `m` is a size
/// the JPEG encoder accepts: both sides in `1..=65535`.
pub open spec fn spec_encodable(w: int, h: int, m: int) -> bool {
    let f = spec_fit(w, h, m);
    &&& 1 <= f.0 <= 65535
    &&& 1 <= f.1 <= 65535
}

/// The bytes `out` are the JPEG the pipeline owes for a source of decoded
/// dimensions `d` under the bound `m`: they carry the JPEG signature (so a
/// second pass classifies them as JPEG), and — whenever the resize target
/// stays within the decoder's default allocation limit, 8192 pixels a side —
/// they decode as a JPEG of exactly the target dimensions.
pub open spec fn spec_output_ok(out: Seq<u8>, d: (u32, u32), m: int) -> bool {
    &&& out.len() >= 4
    &&& out[0] == 0xffu8
    &&& out[1] == 0xd8u8
    &&& spec_classify(out) == ImageFormat::Jpeg
    &&& ({
        let f = spec_fit(d.0 as int, d.1 as int, m);
        f.0 <= 8192 && f.1 <= 8192 ==> (jpeg_decode_dims(out) matches Some(od) && (
        od.0 as int,
        od.1 as int,
        ) == f)
    })
}

/// Classify a payload by its signature, decode it as that format, resize it
/// to fit the square box of `settings` with the aspect ratio preserved,
/// strip any alpha channel, and re-encode the 3-channel RGB raster as
/// baseline JPEG at the configured quality. Succeeds exactly when the
/// payload decodes and the resize target is an encodable JPEG size; the
/// output is a JPEG of the target dimensions (pinned by the contract
/// whenever the target stays within the decoder's allocation limit). A
/// payload that decodes — a signature-less or impossibly small one never
/// does — fails at decode. Re-encoding is unconditional: a JPEG source of
/// fitting size is still decoded and re-encoded, never passed through.
pub fn transcode(payload: &[u8], settings: &ThumbnailSpec) -> (res: Result<
    Vec<u8>,
    ConversionError,
>)
    ensures
        match res {
            Ok(bytes) => {
                &&& spec_decode(payload@) matches Some(d) && spec_encodable(
                    d.0 as int,
                    d.1 as int,
                    settings.max_dimension as int,
                ) && spec_output_ok(bytes@, d, settings.max_dimension as int)
            },
            Err(e) => match e {
                ConversionError::DecodeFailed(_) => spec_decode(payload@) is None,
                ConversionError::EncodeFailed { width, height } => {
                    &&& spec_decode(payload@) matches Some(d) && !spec_encodable(
                        d.0 as int,
                        d.1 as int,
                        settings.max_dimension as int,
                    ) && (width as int, height as int) == spec_fit(
                        d.0 as int,
                        d.1 as int,
                        settings.max_dimension as int,
                    )
                },
                _ => false,
            },
        },
{
    let decoded = match classify(payload) {
        ImageFormat::Png => decode_png(payload),
        ImageFormat::Jpeg => decode_jpeg(payload),
        ImageFormat::Unknown => Err("no recognized image signature".to_owned()),
    };
    let raster = match decoded {
        Ok(r) => r,
        Err(msg) => {
            return Err(ConversionError::DecodeFailed(msg));
        },
    };
    let (tw, th) = fit_dimensions(raster.width(), raster.height(), settings.max_dimension);
    if tw < 1 || tw > 65535 || th < 1 || th > 65535 {
        return Err(ConversionError::EncodeFailed { width: tw, height: th });
    }
    let resized = resize_lanczos(&raster, tw, th);
    let rgb = to_rgb(&resized);
    match encode_jpeg(&rgb, settings.jpeg_quality) {
        Some(bytes) => Ok(bytes),
        None => Err(ConversionError::EncodeFailed { width: tw, height: th }),
    }
}

/// Handle one inbound payload: classify it by its signature bytes and
/// transcode the recognized ones. A payload shorter than four bytes is
/// reported as too small, an unrecognized signature as such, and neither is
/// ever handed to the decoder; recognized payloads fail or succeed as
/// `transcode` says.
pub fn process_payload(payload: &[u8], settings: &ThumbnailSpec) -> (res: Result<
    Vec<u8>,
    ConversionError,
>)
    ensures
        match res {
            Ok(bytes) => {
                &&& spec_classify(payload@) != ImageFormat::Unknown
                &&& spec_decode(payload@) matches Some(d) && spec_encodable(
                    d.0 as int,
                    d.1 as int,
                    settings.max_dimension as int,
                ) && spec_output_ok(bytes@, d, settings.max_dimension as int)
            },
            Err(e) => match e {
                ConversionError::PayloadTooSmall => payload@.len() < 4,
                ConversionError::UnrecognizedFormat => payload@.len() >= 4 && spec_classify(
                    payload@,
                ) == ImageFormat::Unknown,
                ConversionError::DecodeFailed(_) => spec_classify(payload@)
                    != ImageFormat::Unknown && spec_decode(payload@) is None,
                ConversionError::EncodeFailed { width, height } => {
                    &&& spec_classify(payload@) != ImageFormat::Unknown
                    &&& spec_decode(payload@) matches Some(d) && !spec_encodable(
                        d.0 as int,
                        d.1 as int,
                        settings.max_dimension as int,
                    ) && (width as int, height as int) == spec_fit(
                        d.0 as int,
                        d.1 as int,
                        settings.max_dimension as int,
                    )
                },
            },
        },
{
    if payload.len() < 4 {
        return Err(ConversionError::PayloadTooSmall);
    }
    match classify(payload) {
        ImageFormat::Unknown => Err(ConversionError::UnrecognizedFormat),
        _ => transcode(payload, settings),
    }
}

/// Success is owed to every decoded payload under a bound within the JPEG
/// dimension limit: a raster of positive dimensions always has an encodable
/// resize target when the bound lies in `1..=65535`. The channel layout of
/// the source — an alpha channel included — never enters: after a
/// successful decode, failure can only come from a degenerate raster or a
/// bound beyond the JPEG limit, never from the pixels.
pub proof fn lemma_success_owed(w: u32, h: u32, m: u32)
    requires
        1 <= w,
        1 <= h,
        1 <= m <= 65535,
    ensures
        spec_encodable(w as int, h as int, m as int),
{
    lemma_fit_preserves_aspect(w as int, h as int, m as int);
}

/// A successful conversion's output re-enters the pipeline: it carries the
/// JPEG signature, so a second pass classifies it as JPEG and consults the
/// JPEG decoder; and whenever that decoder reads dimensions within the JPEG
/// limit — as it does for every output whose resize target stayed within
/// the decoder's allocation limit, by `spec_output_ok` — the second pass's
/// own resize target is encodable again under any bound in `1..=65535`.
pub proof fn lemma_output_reconverts(out: Seq<u8>, m: u32)
    requires
        out.len() >= 4,
        out[0] == 0xffu8,
        out[1] == 0xd8u8,
        1 <= m <= 65535,
    ensures
        spec_classify(out) == ImageFormat::Jpeg,
        spec_decode(out) == jpeg_decode_dims(out),
        (jpeg_decode_dims(out) matches Some(od) ==> (1 <= od.0 <= 65535 && 1 <= od.1 <= 65535
            ==> spec_decode(out) is Some && spec_encodable(od.0 as int, od.1 as int, m as int))),
{
    match jpeg_decode_dims(out) {
        Some(od) => {
            if 1 <= od.0 <= 65535 && 1 <= od.1 <= 65535 {
                lemma_success_owed(od.0, od.1, m);
            }
        },
        None => {},
    }
}

} // verus!
