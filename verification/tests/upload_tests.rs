use media_relay::upload::{check_auth, plan_upload, UploadDecision};

const SECRET: &str = "correct-horse-battery";

#[test]
fn missing_credential_is_rejected() {
    assert!(!check_auth(None, SECRET));
    let r = plan_upload(None, SECRET, "photo.jpg", b"0123456789", "https://example.com");
    assert!(matches!(r, UploadDecision::Unauthorized));
}

#[test]
fn wrong_credential_is_rejected() {
    assert!(!check_auth(Some("guess"), SECRET));
    let r = plan_upload(Some("guess"), SECRET, "photo.jpg", b"0123456789", "https://example.com");
    assert!(matches!(r, UploadDecision::Unauthorized));
}

#[test]
fn correct_credential_stores_under_the_derived_identity() {
    assert!(check_auth(Some(SECRET), SECRET));
    let data: &[u8] = b"0123456789";
    let digest = blake3::hash(data).to_hex();
    match plan_upload(Some(SECRET), SECRET, "photo.jpg", data, "https://example.com") {
        UploadDecision::Store { key, identity, url } => {
            assert_eq!(identity, format!("{digest}.jpg"));
            assert_eq!(key, format!("images/{digest}.jpg"));
            assert_eq!(url, format!("https://example.com/i/{digest}.jpg"));
        }
        _ => panic!("a correct credential must store the payload"),
    }
}

#[test]
fn only_the_extension_of_the_client_name_is_kept() {
    let data: &[u8] = b"same bytes";
    let a = plan_upload(Some(SECRET), SECRET, "holiday-snap.png", data, "b");
    let b = plan_upload(Some(SECRET), SECRET, "unrelated name.png", data, "b");
    match (a, b) {
        (
            UploadDecision::Store { identity: ia, .. },
            UploadDecision::Store { identity: ib, .. },
        ) => assert_eq!(ia, ib),
        _ => panic!("both uploads must be stored"),
    }
}

#[test]
fn name_without_extension_cannot_be_stored() {
    let r = plan_upload(Some(SECRET), SECRET, "noext", b"bytes", "https://example.com");
    assert!(matches!(r, UploadDecision::NoExtension));
}

#[test]
fn reupload_of_the_same_content_targets_the_same_object() {
    // A second upload of the same bytes under the same extension addresses
    // exactly the same remote key, so it lands as a safe overwrite.
    let data: &[u8] = b"the very same bytes";
    let first = plan_upload(Some(SECRET), SECRET, "a.jpg", data, "https://example.com");
    let second = plan_upload(Some(SECRET), SECRET, "b.jpg", data, "https://example.com");
    match (first, second) {
        (
            UploadDecision::Store { key: k1, identity: i1, url: u1 },
            UploadDecision::Store { key: k2, identity: i2, url: u2 },
        ) => {
            assert_eq!(k1, k2);
            assert_eq!(i1, i2);
            assert_eq!(u1, u2);
        }
        _ => panic!("both uploads must be stored"),
    }
}

#[test]
fn stored_identity_survives_the_download_pipeline() {
    // A 10-byte payload tagged as JPEG: too short to decode, so a download
    // would fall back to the raw entry — served under the jpeg content type.
    let data: &[u8] = b"0123456789";
    match plan_upload(Some(SECRET), SECRET, "photo.jpg", data, "https://example.com") {
        UploadDecision::Store { identity, .. } => {
            // The identity is already clean: sanitizing it changes nothing.
            assert_eq!(media_relay::filename::sanitize_filename(&identity), identity);
            assert_eq!(
                media_relay::content_type::download_content_type(&identity),
                "image/jpeg"
            );
            assert_eq!(
                media_relay::cache::after_transcode(&identity, false),
                format!("images/{identity}")
            );
        }
        _ => panic!("the upload must be stored"),
    }
}
