use base64::Engine;
use rustdesk_managed::api_error::{DirectoryApiError, DirectoryApiErrorKind};
use rustdesk_managed::managed_update::{
    check_manifest_form, digest_matches, managed_build_number, managed_update_channel,
    managed_update_check_and_download, managed_update_signed_payload,
    managed_update_signing_public_key, managed_update_temp_name, signature_from_bytes,
    signing_key_from_bytes, verify_managed_update_file, verify_managed_update_manifest,
    ManagedUpdateManifest, UpdateAction, UpdateCheck, UpdateError, UpdateEvent, UpdateStep,
};
use rustdesk_managed::persisted_auth::{PersistedDirectoryAuth, PersistedEnrollmentStatus};
use rustdesk_managed::web::{PATH_TEXT_LIMIT, URL_TEXT_LIMIT};
use sodiumoxide::crypto::sign;

const BASE: &str = "https://directory.example/";
// The digest of the three bytes "abc".
const ABC: &str = "BA7816BF8F01CFEA414140DE5DAE2223B00361A396177A9CB410FF61F20015AD";

fn encode(bytes: &[u8]) -> String {
    base64::engine::general_purpose::STANDARD.encode(bytes)
}

fn keys() -> (String, sign::SecretKey) {
    let (public, secret) = sign::keypair_from_seed(&sign::Seed([7; 32]));
    (encode(public.as_ref()), secret)
}

fn unsigned() -> ManagedUpdateManifest {
    ManagedUpdateManifest {
        channel: "stable".to_owned(),
        build_number: 12,
        version: "1.4.1".to_owned(),
        file_name: "rustdesk.EXE".to_owned(),
        size: 3,
        sha256: ABC.to_owned(),
        signature: String::new(),
        published_at: "2026-01-01".to_owned(),
        download_path: "/v1/updates/releases/rustdesk.EXE".to_owned(),
    }
}

fn sign_manifest(mut manifest: ManagedUpdateManifest) -> ManagedUpdateManifest {
    let payload = managed_update_signed_payload(&manifest);
    let signature = sign::sign_detached(payload.as_bytes(), &keys().1);
    manifest.signature = encode(signature.as_ref());
    manifest
}

fn signed() -> ManagedUpdateManifest {
    sign_manifest(unsigned())
}

fn state(status: PersistedEnrollmentStatus) -> PersistedDirectoryAuth {
    PersistedDirectoryAuth {
        version: 1,
        rustdesk_id: "123456789".to_owned(),
        device_public_key: "public-key".to_owned(),
        status,
        device_id: Some("device-1".to_owned()),
        enrollment_poll_token: Some("token-1".to_owned()),
        poll_expires_at: None,
        poll_after_seconds: None,
        device_credential: Some("credential-1".to_owned()),
        credential_serial: Some("serial-1".to_owned()),
    }
}

fn check() -> UpdateCheck {
    let approved = state(PersistedEnrollmentStatus::Approved);
    managed_update_check_and_download(Some(BASE), "stable", Some(keys().0), 11, Some(&approved))
        .ok()
        .unwrap()
        .unwrap()
        .0
}

fn failure(action: UpdateAction) -> String {
    match action {
        UpdateAction::Fail(error) => error.text(),
        _ => panic!(),
    }
}

#[test]
fn build_number_defaults_to_zero() {
    assert_eq!(managed_build_number(None), 0);
    assert_eq!(managed_build_number(Some("")), 0);
    assert_eq!(managed_build_number(Some(" 42 \n")), 42);
    assert_eq!(managed_build_number(Some("forty")), 0);
    assert_eq!(managed_build_number(Some("-1")), 0);
}

#[test]
fn channel_defaults_to_stable() {
    assert_eq!(managed_update_channel(None), "stable");
    assert_eq!(managed_update_channel(Some("  ")), "stable");
    assert_eq!(managed_update_channel(Some(" beta ")), "beta");
}

#[test]
fn signing_key_is_thirty_two_bytes_of_base64() {
    let (public, _) = keys();
    let padded = format!(" {} ", public);
    let key = managed_update_signing_public_key(Some(padded.as_str())).ok().unwrap();
    assert_eq!(encode(&key), public);
    let text = |configured| managed_update_signing_public_key(configured).err().unwrap().text();
    assert_eq!(text(None), "Managed update signing key is not compiled in");
    assert_eq!(text(Some(" ")), "Managed update signing key is not compiled in");
    assert_eq!(text(Some("???")), "Managed update signing key is invalid base64");
    assert_eq!(text(Some("AAAA")), "Managed update signing key has invalid length");
    assert!(signing_key_from_bytes(vec![0; 32]).is_ok());
    assert!(signing_key_from_bytes(vec![0; 33]).is_err());
}

#[test]
fn payload_has_every_signed_field() {
    assert_eq!(
        managed_update_signed_payload(&unsigned()),
        format!(
            "rustdesk-managed-update-v1\nchannel=stable\nbuild_number=12\nversion=1.4.1\n\
             file_name=rustdesk.EXE\nsize=3\nsha256={}\npublished_at=2026-01-01\n",
            ABC
        )
    );
    assert_eq!(
        managed_update_temp_name(&unsigned()),
        "rustdesk-managed-update-12-rustdesk.EXE"
    );
}

#[test]
fn signed_manifest_is_taken() {
    let (public, _) = keys();
    assert!(verify_managed_update_manifest(&signed(), "stable", Some(public.as_str())).is_ok());
}

#[test]
fn changed_manifest_is_refused() {
    let (public, _) = keys();
    let mut changed = signed();
    changed.version = "9.9.9".to_owned();
    let error = verify_managed_update_manifest(&changed, "stable", Some(public.as_str()));
    assert_eq!(
        error.err().unwrap().text(),
        "Managed update signature verification failed"
    );
    let (other, _) = sign::keypair_from_seed(&sign::Seed([8; 32]));
    let other = encode(other.as_ref());
    let error = verify_managed_update_manifest(&signed(), "stable", Some(other.as_str()));
    assert!(matches!(error, Err(UpdateError::SignatureVerification)));
    let error = verify_managed_update_manifest(&signed(), "stable", None);
    assert!(matches!(error, Err(UpdateError::KeyNotConfigured)));
}

#[test]
fn signature_is_sixty_four_bytes_of_base64() {
    let (public, _) = keys();
    let mut manifest = signed();
    manifest.signature = "not base64".to_owned();
    let error = verify_managed_update_manifest(&manifest, "stable", Some(public.as_str()));
    assert_eq!(error.err().unwrap().text(), "Managed update signature is invalid base64");
    manifest.signature = encode(&[1; 63]);
    let error = verify_managed_update_manifest(&manifest, "stable", Some(public.as_str()));
    assert_eq!(error.err().unwrap().text(), "Managed update signature has invalid length");
    assert!(signature_from_bytes(Some(vec![0; 64])).is_ok());
    assert!(matches!(signature_from_bytes(None), Err(UpdateError::SignatureNotBase64)));
}

#[test]
fn fields_of_a_manifest_are_checked() {
    assert!(check_manifest_form(&unsigned(), "stable").is_none());
    let text = |manifest: ManagedUpdateManifest| {
        check_manifest_form(&manifest, "stable").unwrap().text()
    };
    let mut manifest = unsigned();
    manifest.channel = "beta".to_owned();
    assert_eq!(text(manifest), "Managed update channel mismatch");
    for name in ["", "a/b.exe", "a\\b.exe", "setup.msi", "exe", ".ex", "a.exe "] {
        let mut manifest = unsigned();
        manifest.file_name = name.to_owned();
        manifest.download_path = format!("/v1/updates/releases/{}", name);
        assert_eq!(text(manifest), "Managed update file name is invalid");
    }
    let mut manifest = unsigned();
    manifest.file_name = ".exe".to_owned();
    assert_eq!(text(manifest), "Managed update download path is invalid");
    for sha256 in ["", "ab", &ABC[1..], &format!("{}0", ABC), &ABC.replace('B', "g")] {
        let mut manifest = unsigned();
        manifest.sha256 = sha256.to_owned();
        assert_eq!(text(manifest), "Managed update SHA256 is invalid");
    }
}

#[test]
fn file_must_fit_its_manifest() {
    assert!(verify_managed_update_file(&b"abc".to_vec(), &unsigned()).is_ok());
    let error = verify_managed_update_file(&b"abcd".to_vec(), &unsigned()).err().unwrap();
    assert_eq!(error.text(), "Managed update file size mismatch");
    let error = verify_managed_update_file(&b"abd".to_vec(), &unsigned()).err().unwrap();
    assert_eq!(error.text(), "Managed update SHA256 verification failed");
    assert!(digest_matches("ab", "AB"));
    assert!(!digest_matches("AB", "AB"));
}

#[test]
fn checks_are_for_approved_devices() {
    let start = |base, state: Option<&PersistedDirectoryAuth>| {
        managed_update_check_and_download(base, "beta & co", None, 1, state)
    };
    let approved = state(PersistedEnrollmentStatus::Approved);
    let (check, request) = start(Some(BASE), Some(&approved)).ok().unwrap().unwrap();
    assert_eq!(
        request.url,
        "https://directory.example/v1/updates/latest?channel=beta+%26+co"
    );
    assert_eq!(request.bearer.as_deref(), Some("credential-1"));
    assert!(matches!(check.step, UpdateStep::Latest));
    let pending = state(PersistedEnrollmentStatus::Pending);
    assert!(start(Some(BASE), Some(&pending)).ok().unwrap().is_none());
    assert_eq!(
        start(None, Some(&approved)).err().unwrap().text(),
        "Managed directory URL is not compiled in"
    );
    assert_eq!(start(Some(BASE), None).err().unwrap().text(), "Managed device is not enrolled");
    assert_eq!(
        start(Some("http://x"), Some(&approved)).err().unwrap().text(),
        "managed update failed (configuration)"
    );
    let mut bare = state(PersistedEnrollmentStatus::Approved);
    bare.device_credential = None;
    assert_eq!(
        start(Some(BASE), Some(&bare)).err().unwrap().text(),
        "managed update failed (configuration)"
    );
}

#[test]
fn check_ends_without_an_update() {
    let mut check = check();
    let action = check.advance(UpdateEvent::Answered { status: 204, retry_after: None });
    assert!(matches!(action, UpdateAction::NoUpdate));

    let mut check = self::check();
    let action = check.advance(UpdateEvent::Answered { status: 200, retry_after: None });
    assert!(matches!(action, UpdateAction::ReadManifest));
    let mut same_build = unsigned();
    same_build.build_number = 11;
    let action = check.advance(UpdateEvent::ManifestReceived(sign_manifest(same_build)));
    assert!(matches!(action, UpdateAction::NoUpdate));
    let action = check.advance(UpdateEvent::Renamed);
    assert!(matches!(action, UpdateAction::OutOfTurn));
}

#[test]
fn check_fails_on_bad_answers() {
    let action = check().advance(UpdateEvent::Answered {
        status: 429,
        retry_after: Some("5".to_owned()),
    });
    assert_eq!(
        failure(action),
        "managed update failed with HTTP 429 (retry after 5 seconds)"
    );
    let action = check().advance(UpdateEvent::RequestFailed(DirectoryApiError::transport(
        "managed update",
        true,
        false,
    )));
    assert_eq!(failure(action), "managed update failed (timeout)");

    let mut check = check();
    check.advance(UpdateEvent::Answered { status: 200, retry_after: None });
    let action = check.advance(UpdateEvent::ManifestUnreadable);
    assert_eq!(failure(action), "managed update failed (invalid response)");

    let mut check = self::check();
    check.advance(UpdateEvent::Answered { status: 200, retry_after: None });
    let action = check.advance(UpdateEvent::ManifestReceived(unsigned()));
    assert_eq!(failure(action), "Managed update signature has invalid length");
}

fn looking() -> UpdateCheck {
    let mut check = check();
    check.advance(UpdateEvent::Answered { status: 200, retry_after: None });
    match check.advance(UpdateEvent::ManifestReceived(signed())) {
        UpdateAction::ReadFile(name) => {
            assert_eq!(name, "rustdesk-managed-update-12-rustdesk.EXE");
        }
        _ => panic!(),
    }
    check
}

#[test]
fn fitting_file_is_offered_at_once() {
    let action = looking().advance(UpdateEvent::FileRead {
        path: "/tmp/update".to_owned(),
        data: b"abc".to_vec(),
    });
    match action {
        UpdateAction::Offer(candidate) => {
            assert_eq!(candidate.build_number, 12);
            assert_eq!(candidate.version, "1.4.1");
            assert_eq!(candidate.file_path, "/tmp/update");
        }
        _ => panic!(),
    }
}

fn downloading(check: &mut UpdateCheck) {
    let action = check.advance(UpdateEvent::FileAbsent("/tmp/update".to_owned()));
    match action {
        UpdateAction::Send(request) => {
            assert_eq!(
                request.url,
                "https://directory.example/v1/updates/releases/rustdesk.EXE"
            );
            assert_eq!(request.bearer.as_deref(), Some("credential-1"));
        }
        _ => panic!(),
    }
}

#[test]
fn path_that_no_address_holds_cannot_be_sent() {
    let mut long = unsigned();
    long.download_path = format!("/{}", "a".repeat(URL_TEXT_LIMIT));
    let mut check = check();
    check.step = UpdateStep::Existing(long);
    match check.advance(UpdateEvent::FileAbsent("/tmp/update".to_owned())) {
        UpdateAction::Send(request) => {
            assert_eq!(
                request.url.len(),
                "https://directory.example/".len() + URL_TEXT_LIMIT
            );
        }
        _ => panic!(),
    }

    let too_long = || {
        let mut manifest = unsigned();
        manifest.download_path = format!("/{}", "a".repeat(PATH_TEXT_LIMIT));
        UpdateStep::Existing(manifest)
    };
    let mut check = self::check();
    check.step = too_long();
    let action = check.advance(UpdateEvent::FileAbsent("/tmp/update".to_owned()));
    assert_eq!(failure(action), "managed update download failed (transport)");
    let mut check = self::check();
    check.base_url = "http://directory.example".to_owned();
    check.step = too_long();
    let action = check.advance(UpdateEvent::FileAbsent("/tmp/update".to_owned()));
    assert_eq!(failure(action), "managed update download failed (configuration)");
}

#[test]
fn file_that_does_not_fit_is_replaced() {
    let mut check = looking();
    let action = check.advance(UpdateEvent::FileRead {
        path: "/tmp/update".to_owned(),
        data: b"abd".to_vec(),
    });
    assert!(matches!(action, UpdateAction::RemoveFile));
    let action = check.advance(UpdateEvent::FileRemoved);
    assert!(matches!(action, UpdateAction::Send(_)));

    let mut check = looking();
    let action = check.advance(UpdateEvent::FileUnreadable("/tmp/update".to_owned()));
    assert!(matches!(action, UpdateAction::RemoveFile));
}

#[test]
fn downloaded_file_is_checked_before_it_is_offered() {
    let mut check = looking();
    downloading(&mut check);
    let action = check.advance(UpdateEvent::Answered { status: 200, retry_after: None });
    assert!(matches!(action, UpdateAction::ReadBody));
    match check.advance(UpdateEvent::BodyReceived(b"abc".to_vec())) {
        UpdateAction::WritePart(data) => assert_eq!(data, b"abc".to_vec()),
        _ => panic!(),
    }
    let action = check.advance(UpdateEvent::PartRead(b"abc".to_vec()));
    assert!(matches!(action, UpdateAction::Rename));
    match check.advance(UpdateEvent::Renamed) {
        UpdateAction::Offer(candidate) => assert_eq!(candidate.file_path, "/tmp/update"),
        _ => panic!(),
    }
}

#[test]
fn download_that_does_not_fit_fails() {
    let mut check = looking();
    downloading(&mut check);
    let action = check.advance(UpdateEvent::Answered { status: 404, retry_after: None });
    assert_eq!(failure(action), "managed update download failed with HTTP 404");

    let mut check = looking();
    downloading(&mut check);
    let action = check.advance(UpdateEvent::RequestFailed(DirectoryApiError::transport(
        "managed update download",
        false,
        true,
    )));
    assert_eq!(failure(action), "managed update download failed (connection)");

    let mut check = looking();
    downloading(&mut check);
    check.advance(UpdateEvent::Answered { status: 200, retry_after: None });
    let action = check.advance(UpdateEvent::BodyUnreadable);
    assert_eq!(failure(action), "managed update download failed (invalid response)");

    let mut check = looking();
    downloading(&mut check);
    check.advance(UpdateEvent::Answered { status: 200, retry_after: None });
    let action = check.advance(UpdateEvent::BodyReceived(b"ab".to_vec()));
    assert_eq!(failure(action), "Managed update download size mismatch");

    let mut check = looking();
    downloading(&mut check);
    check.advance(UpdateEvent::Answered { status: 200, retry_after: None });
    check.advance(UpdateEvent::BodyReceived(b"abd".to_vec()));
    let action = check.advance(UpdateEvent::PartRead(b"abd".to_vec()));
    assert_eq!(failure(action), "Managed update SHA256 verification failed");

    let mut check = looking();
    downloading(&mut check);
    check.advance(UpdateEvent::Answered { status: 200, retry_after: None });
    check.advance(UpdateEvent::BodyReceived(b"abc".to_vec()));
    let action = check.advance(UpdateEvent::FileFailed("disk full".to_owned()));
    assert_eq!(failure(action), "disk full");

    let mut check = looking();
    check.base_url = "http://x".to_owned();
    let action = check.advance(UpdateEvent::FileAbsent("/tmp/update".to_owned()));
    assert_eq!(failure(action), "managed update download failed (configuration)");
    assert_eq!(
        UpdateError::Api(DirectoryApiError::configuration("x")).text(),
        "x failed (configuration)"
    );
    assert_eq!(
        DirectoryApiError::configuration("x").kind,
        DirectoryApiErrorKind::Configuration
    );
}
