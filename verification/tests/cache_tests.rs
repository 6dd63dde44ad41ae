use media_relay::cache::{
    after_transcode, has_transcoder, identity_transcoder, optimized_rel_path, plan_optimized,
    plan_raw, raw_rel_path, OptimizedStep, RawStep,
};

#[test]
fn tier_paths_mirror_the_two_directories() {
    assert_eq!(raw_rel_path("abc.jpg"), "images/abc.jpg");
    assert_eq!(optimized_rel_path("abc.jpg"), "optimized/abc.jpg");
}

#[test]
fn only_jpeg_has_a_transcoder() {
    assert!(has_transcoder("jpg"));
    assert!(has_transcoder("jpeg"));
    assert!(has_transcoder("JPG"));
    assert!(has_transcoder("JpEg"));
    assert!(!has_transcoder("png"));
    assert!(!has_transcoder("gif"));
    assert!(!has_transcoder(""));
}

#[test]
fn identity_transcoder_reads_the_claimed_extension() {
    assert!(identity_transcoder("abc.jpg"));
    assert!(identity_transcoder("abc.JPEG"));
    assert!(!identity_transcoder("abc.png"));
    assert!(!identity_transcoder("noext"));
}

#[test]
fn cached_raw_entry_is_served_directly() {
    match plan_raw("x.jpg", true) {
        RawStep::ServeLocal(p) => assert_eq!(p, "images/x.jpg"),
        RawStep::Fetch { .. } => panic!("a cached entry must not be fetched again"),
    }
}

#[test]
fn raw_miss_fetches_the_remote_object_into_the_raw_tier() {
    match plan_raw("x.jpg", false) {
        RawStep::Fetch { key, destination } => {
            assert_eq!(key, "images/x.jpg");
            assert_eq!(destination, "images/x.jpg");
        }
        RawStep::ServeLocal(_) => panic!("a miss must fetch"),
    }
}

#[test]
fn existing_optimized_entry_is_served_without_reencoding() {
    match plan_optimized("abc.jpg", true) {
        OptimizedStep::ServeOptimized(p) => assert_eq!(p, "optimized/abc.jpg"),
        _ => panic!("an existing optimized entry must be served as is"),
    }
}

#[test]
fn optimized_miss_on_a_jpeg_transcodes_raw_into_optimized() {
    match plan_optimized("abc.jpg", false) {
        OptimizedStep::Transcode { input, output } => {
            assert_eq!(input, "images/abc.jpg");
            assert_eq!(output, "optimized/abc.jpg");
        }
        _ => panic!("a jpeg miss must transcode"),
    }
}

#[test]
fn unregistered_format_bypasses_the_optimized_tier() {
    match plan_optimized("abc.png", false) {
        OptimizedStep::ServeRaw(p) => assert_eq!(p, "images/abc.png"),
        _ => panic!("a format without a transcoder must serve the raw path"),
    }
}

#[test]
fn identity_without_extension_bypasses_the_optimized_tier() {
    match plan_optimized("rawblob", false) {
        OptimizedStep::ServeRaw(p) => assert_eq!(p, "images/rawblob"),
        _ => panic!("an identity claiming no extension must serve the raw path"),
    }
}

#[test]
fn successful_transcode_serves_the_optimized_rendition() {
    assert_eq!(after_transcode("a.jpg", true), "optimized/a.jpg");
}

#[test]
fn failed_transcode_falls_back_to_the_raw_entry() {
    assert_eq!(after_transcode("a.jpg", false), "images/a.jpg");
}
