//! Signature-based classification of an incoming payload.
//!
//! The first four bytes of a payload decide its format: a PNG begins with
//! `89 50 4E 47`, a JPEG with `FF D8`. Anything else, and any payload shorter
//! than four bytes, is unrecognized. Classification never looks past the
//! fourth byte.

use vstd::prelude::*;

verus! {

/// The format a payload is classified as from its signature bytes alone.
#[derive(Clone, Copy, Debug, PartialEq, Eq, Structural)]
pub enum ImageFormat {
    Png,
    Jpeg,
    Unknown,
}

/// The first four bytes of `b` are the PNG signature prefix `89 50 4E 47`.
pub open spec fn is_png_signature(b: Seq<u8>) -> bool {
    b.len() >= 4 && b[0] == 0x89u8 && b[1] == 0x50u8 && b[2] == 0x4eu8 && b[3] == 0x47u8
}

/// The first two bytes of `b` are the JPEG start-of-image marker `FF D8`.
pub open spec fn is_jpeg_signature(b: Seq<u8>) -> bool {
    b.len() >= 2 && b[0] == 0xffu8 && b[1] == 0xd8u8
}

/// What `classify` returns on a payload whose bytes are `b`.
pub open spec fn spec_classify(b: Seq<u8>) -> ImageFormat {
    if b.len() < 4 {
        ImageFormat::Unknown
    } else if is_png_signature(b) {
        ImageFormat::Png
    } else if is_jpeg_signature(b) {
        ImageFormat::Jpeg
    } else {
        ImageFormat::Unknown
    }
}

/// Classify a payload from its signature bytes: PNG and JPEG are recognized,
/// everything else — including any payload shorter than four bytes — is
/// `Unknown`. A cheap prefilter only: no decoding is attempted.
pub fn classify(payload: &[u8]) -> (r: ImageFormat)
    ensures
        r == spec_classify(payload@),
{
    if payload.len() < 4 {
        ImageFormat::Unknown
    } else if payload[0] == 0x89 && payload[1] == 0x50 && payload[2] == 0x4e && payload[3] == 0x47 {
        ImageFormat::Png
    } else if payload[0] == 0xff && payload[1] == 0xd8 {
        ImageFormat::Jpeg
    } else {
        ImageFormat::Unknown
    }
}

/// Classification is determined by the first four bytes alone: two payloads
/// of length at least four that agree on those bytes classify identically,
/// whatever their remaining bytes or lengths.
pub proof fn lemma_classify_depends_on_prefix(a: Seq<u8>, b: Seq<u8>)
    requires
        a.len() >= 4,
        b.len() >= 4,
        a.subrange(0, 4) =~= b.subrange(0, 4),
    ensures
        spec_classify(a) == spec_classify(b),
{
    assert forall|i: int| 0 <= i < 4 implies a[i] == b[i] by {
        assert(a.subrange(0, 4)[i] == a[i]);
        assert(b.subrange(0, 4)[i] == b[i]);
    }
}

/// Every payload shorter than four bytes is classified `Unknown`; callers
/// report it as too small rather than as an unrecognized format.
pub proof fn lemma_short_payload_unknown(b: Seq<u8>)
    requires
        b.len() < 4,
    ensures
        spec_classify(b) == ImageFormat::Unknown,
{
}

} // verus!
