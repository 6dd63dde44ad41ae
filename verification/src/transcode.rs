//! The transcode step's outcome rules and the metadata sanitizer.
//!
//! The external JPEG codec decodes and re-encodes at a fixed policy (quality
//! 80 of 100, progressive scans, scan optimization and multi-scan trellis
//! quantization on) and may abort abnormally on malformed input; the
//! unverified shell catches that abort at an isolation boundary and reports
//! a plain outcome here. The metadata sanitizer is verified over the
//! library's own reading of an image's descriptive metadata.

use vstd::prelude::*;

verus! {

/// Why a transcode step failed: the codec aborted, or the metadata step
/// could not read the tags, or could not save them back.
#[derive(Clone, Copy, Debug, PartialEq, Eq, Structural)]
pub enum TranscodeError {
    CodecAborted,
    MetadataRead,
    MetadataSave,
}

/// How the metadata step failed: reading or parsing the tags, or persisting
/// them back to the derived file. A save failure is reported distinctly from
/// a read failure.
#[derive(Clone, Copy, Debug, PartialEq, Eq, Structural)]
pub enum MetaFailure {
    Read,
    Save,
}

/// An image's descriptive metadata as the sanitizer reads it: whether any
/// location (GPS) tags are present, the orientation tag, and the remaining
/// descriptive tags held opaquely.
pub struct ImageMeta {
    pub has_gps: bool,
    pub orientation: u8,
    pub other_tags: Vec<u8>,
}

/// Sanitize a derived asset's metadata: unconditionally strip location data,
/// and copy exactly one field — orientation — from the original. Every other
/// descriptive tag stays however the encoder produced it.
pub fn sanitize_metadata(original: &ImageMeta, derived: ImageMeta) -> (r: ImageMeta)
    ensures
        !r.has_gps,
        r.orientation == original.orientation,
        r.other_tags@ == derived.other_tags@,
{
    ImageMeta { has_gps: false, orientation: original.orientation, other_tags: derived.other_tags }
}

/// The result a transcode step reports, from the encode outcome and — only
/// when the encode succeeded — the metadata step's outcome.
pub open spec fn transcode_result_spec(encode_ok: bool, meta: Result<(), MetaFailure>) -> Result<
    (),
    TranscodeError,
> {
    if !encode_ok {
        Err(TranscodeError::CodecAborted)
    } else {
        match meta {
            Ok(u) => Ok(u),
            Err(MetaFailure::Read) => Err(TranscodeError::MetadataRead),
            Err(MetaFailure::Save) => Err(TranscodeError::MetadataSave),
        }
    }
}

/// Combine a transcode step's outcomes: success only when both the encode
/// and the metadata step succeeded. A codec abort is surfaced on its own —
/// the sanitizer runs only against a successfully written output.
pub fn transcode_result(encode_ok: bool, meta: Result<(), MetaFailure>) -> (r: Result<
    (),
    TranscodeError,
>)
    ensures
        r == transcode_result_spec(encode_ok, meta),
{
    if !encode_ok {
        Err(TranscodeError::CodecAborted)
    } else {
        match meta {
            Ok(_) => Ok(()),
            Err(MetaFailure::Read) => Err(TranscodeError::MetadataRead),
            Err(MetaFailure::Save) => Err(TranscodeError::MetadataSave),
        }
    }
}

} // verus!
