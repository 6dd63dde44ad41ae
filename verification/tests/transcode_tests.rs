use media_relay::transcode::{
    sanitize_metadata, transcode_result, ImageMeta, MetaFailure, TranscodeError,
};

#[test]
fn sanitization_strips_gps_and_copies_orientation() {
    let original = ImageMeta { has_gps: true, orientation: 6, other_tags: vec![1, 2, 3] };
    let derived = ImageMeta { has_gps: true, orientation: 1, other_tags: vec![9] };
    let r = sanitize_metadata(&original, derived);
    assert!(!r.has_gps);
    assert_eq!(r.orientation, 6);
    assert_eq!(r.other_tags, vec![9]);
}

#[test]
fn sanitization_strips_gps_even_when_the_original_has_none() {
    let original = ImageMeta { has_gps: false, orientation: 1, other_tags: vec![] };
    let derived = ImageMeta { has_gps: true, orientation: 8, other_tags: vec![7, 7] };
    let r = sanitize_metadata(&original, derived);
    assert!(!r.has_gps);
    assert_eq!(r.orientation, 1);
    assert_eq!(r.other_tags, vec![7, 7]);
}

#[test]
fn codec_abort_is_the_reported_failure() {
    assert_eq!(transcode_result(false, Ok(())), Err(TranscodeError::CodecAborted));
    assert_eq!(
        transcode_result(false, Err(MetaFailure::Read)),
        Err(TranscodeError::CodecAborted)
    );
}

#[test]
fn success_needs_both_steps() {
    assert_eq!(transcode_result(true, Ok(())), Ok(()));
}

#[test]
fn metadata_read_and_save_failures_are_distinct() {
    assert_eq!(
        transcode_result(true, Err(MetaFailure::Read)),
        Err(TranscodeError::MetadataRead)
    );
    assert_eq!(
        transcode_result(true, Err(MetaFailure::Save)),
        Err(TranscodeError::MetadataSave)
    );
}
