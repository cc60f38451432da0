use rustdesk_managed::api_error::{DirectoryApiError, DirectoryApiErrorKind};
use rustdesk_managed::api_types::{
    DirectoryIdentity, EnrollmentDevice, EnrollmentResponse, ReenrollmentRequestResponse,
};
use rustdesk_managed::directory_state::{
    reenrollment_snapshot_flags, set_state, snapshot_json, store_directory_snapshot,
    DirectoryRuntime, DirectoryState,
};
use rustdesk_managed::enrollment::{
    enroll_once, enrollment_failed, pending_enrollment_stored, persist_pending_enrollment,
    reenrollment_requested, request_reenrollment_once, require_enrollment_settings,
    update_contact_email_once, OperationError,
};
use rustdesk_managed::identity::{current_identity, IdentityError};
use rustdesk_managed::persisted_auth::{
    EnrollmentResponseError, PersistedDirectoryAuth, PersistedEnrollmentStatus,
};

const BASE: &str = "https://directory.example";

fn identity() -> DirectoryIdentity {
    DirectoryIdentity {
        rustdesk_id: "123456789".to_owned(),
        hostname: "host".to_owned(),
        friendly_name: "Front desk".to_owned(),
        contact_email: String::new(),
        device_public_key: "public-key".to_owned(),
        client_version: "1.4.0".to_owned(),
    }
}

fn stored(status: PersistedEnrollmentStatus) -> PersistedDirectoryAuth {
    PersistedDirectoryAuth {
        version: 1,
        rustdesk_id: "123456789".to_owned(),
        device_public_key: "public-key".to_owned(),
        status,
        device_id: Some("device-1".to_owned()),
        enrollment_poll_token: Some("token-1".to_owned()),
        poll_expires_at: None,
        poll_after_seconds: None,
        device_credential: Some("credential-1".to_owned()),
        credential_serial: Some("serial-1".to_owned()),
    }
}

#[test]
fn enrolling_needs_a_password_and_a_directory() {
    assert_eq!(require_enrollment_settings("p", Some(BASE)).ok(), Some(BASE));
    let error = require_enrollment_settings("", Some(BASE)).err().unwrap();
    assert_eq!(error.text(), "Directory enrollment password is required");
    let error = require_enrollment_settings("p", None).err().unwrap();
    assert_eq!(error.text(), "Managed directory endpoint is not configured");

    let approved = stored(PersistedEnrollmentStatus::Approved);
    for existing in [None, Some(&approved)] {
        let mut runtime = DirectoryRuntime::new();
        for base in [Some(BASE), None] {
            let error = enroll_once(&mut runtime, base, &identity(), "", existing);
            assert_eq!(error.err().unwrap().text(), "Directory enrollment password is required");
            assert_eq!(runtime.state, DirectoryState::NotEnrolled);
        }
        let error = enroll_once(&mut runtime, None, &identity(), "p", existing);
        assert_eq!(error.err().unwrap().text(), "Managed directory endpoint is not configured");
        assert_eq!(runtime.state, DirectoryState::NotEnrolled);
    }
}

#[test]
fn enrolled_devices_do_not_enroll_again() {
    let mut runtime = DirectoryRuntime::new();
    let pending = stored(PersistedEnrollmentStatus::Pending);
    let error = enroll_once(&mut runtime, Some(BASE), &identity(), "p", Some(&pending));
    assert_eq!(error.err().unwrap().text(), "Directory enrollment is already pending");
    let approved = stored(PersistedEnrollmentStatus::Approved);
    let error = enroll_once(&mut runtime, Some(BASE), &identity(), "p", Some(&approved));
    assert_eq!(error.err().unwrap().text(), "Device is already enrolled");
    assert_eq!(runtime.state, DirectoryState::NotEnrolled);
}

#[test]
fn turned_away_devices_enroll_with_their_token() {
    for (status, state) in [
        (PersistedEnrollmentStatus::Denied, DirectoryState::Denied),
        (PersistedEnrollmentStatus::Blocked, DirectoryState::Blocked),
        (PersistedEnrollmentStatus::Revoked, DirectoryState::Revoked),
    ] {
        let mut runtime = DirectoryRuntime::new();
        let existing = stored(status);
        let (previous, request) =
            enroll_once(&mut runtime, Some(BASE), &identity(), "p", Some(&existing)).ok().unwrap();
        assert_eq!(previous, state);
        assert_eq!(runtime.state, DirectoryState::Enrolling);
        assert!(request.body.unwrap().contains("\"reenrollment_poll_token\":\"token-1\""));
    }
    for existing in [None, Some(stored(PersistedEnrollmentStatus::NotEnrolled))] {
        let mut runtime = DirectoryRuntime::new();
        let begun = enroll_once(&mut runtime, Some(BASE), &identity(), "p", existing.as_ref());
        let (previous, request) = begun.ok().unwrap();
        assert_eq!(previous, DirectoryState::NotEnrolled);
        assert!(!request.body.unwrap().contains("reenrollment_poll_token"));
    }
}

#[test]
fn failed_enrollment_falls_back() {
    let mut runtime = DirectoryRuntime::new();
    let existing = stored(PersistedEnrollmentStatus::Revoked);
    let error = enroll_once(&mut runtime, Some("http://x"), &identity(), "p", Some(&existing));
    assert_eq!(error.err().unwrap().text(), "directory enrollment failed (configuration)");
    assert_eq!(runtime.state, DirectoryState::Revoked);

    set_state(&mut runtime, DirectoryState::Enrolling);
    let server = DirectoryApiError::from_http_response("directory enrollment", 502, None);
    let error = enrollment_failed(&mut runtime, DirectoryState::Revoked, server);
    assert_eq!(error.text(), "directory enrollment failed with HTTP 502");
    assert_eq!(runtime.state, DirectoryState::Unavailable);

    let refused = DirectoryApiError::from_http_response("directory enrollment", 422, None);
    assert_eq!(refused.kind, DirectoryApiErrorKind::Unprocessable);
    enrollment_failed(&mut runtime, DirectoryState::NotEnrolled, refused);
    assert_eq!(runtime.state, DirectoryState::NotEnrolled);
}

#[test]
fn accepted_enrollment_is_stored_as_pending() {
    let answer = |status: &str| EnrollmentResponse {
        result: "accepted_pending".to_owned(),
        device: EnrollmentDevice {
            id: "device-9".to_owned(),
            rustdesk_id: "123456789".to_owned(),
            hostname: "host".to_owned(),
            friendly_name: Some("Front desk".to_owned()),
            status: status.to_owned(),
            created_at: "now".to_owned(),
        },
        poll_token: "token-9".to_owned(),
        poll_expires_at: "later".to_owned(),
        poll_after_seconds: 20,
    };
    let state = persist_pending_enrollment(&identity(), answer("pending")).ok().unwrap();
    assert_eq!(state.status, PersistedEnrollmentStatus::Pending);
    assert_eq!(
        persist_pending_enrollment(&identity(), answer("denied")).err(),
        Some(EnrollmentResponseError::UnexpectedStatus)
    );
    let mut runtime = DirectoryRuntime::new();
    set_state(&mut runtime, DirectoryState::Enrolling);
    store_directory_snapshot(&mut runtime, Some("{}".to_owned()));
    pending_enrollment_stored(&mut runtime);
    assert_eq!(runtime.state, DirectoryState::Pending);
    assert_eq!(snapshot_json(Some(&runtime)), "");
}

#[test]
fn reenrollment_is_for_turned_away_devices() {
    let blocked = stored(PersistedEnrollmentStatus::Blocked);
    let request = request_reenrollment_once(Some(BASE), Some(&blocked)).ok().unwrap();
    assert_eq!(
        request.url,
        "https://directory.example/v1/enrollment/reenrollment-request"
    );
    let error = request_reenrollment_once(None, Some(&blocked)).err().unwrap();
    assert_eq!(error.text(), "Managed directory endpoint is not configured");
    let error = request_reenrollment_once(Some(BASE), None).err().unwrap();
    assert_eq!(error.text(), "Managed device continuity state is unavailable");
    let approved = stored(PersistedEnrollmentStatus::Approved);
    let error = request_reenrollment_once(Some(BASE), Some(&approved)).err().unwrap();
    assert_eq!(
        error.text(),
        "Re-enrollment may only be requested for denied, blocked, or revoked devices"
    );
    let error = request_reenrollment_once(Some("http://x"), Some(&blocked)).err().unwrap();
    assert_eq!(error.text(), "directory re-enrollment request failed (configuration)");
}

#[test]
fn answer_to_a_reenrollment_request_is_shown() {
    let answer = |status: &str, device_id: &str| ReenrollmentRequestResponse {
        status: status.to_owned(),
        device_id: device_id.to_owned(),
        device_status: "blocked".to_owned(),
        poll_expires_at: "later".to_owned(),
        reenrollment_requested: true,
        reenrollment_request_id: None,
        reenrollment_request_expires_at: None,
        reenrollment_authorized: false,
        reenrollment_authorization_expires_at: None,
    };
    let blocked = stored(PersistedEnrollmentStatus::Blocked);
    let mut runtime = DirectoryRuntime::new();
    let error =
        reenrollment_requested(&mut runtime, &blocked, &answer("refused", "device-1")).err();
    assert!(matches!(error, Some(OperationError::InvalidRequestState)));
    assert_eq!(
        error.unwrap().text(),
        "Directory returned an invalid re-enrollment request state"
    );
    let error =
        reenrollment_requested(&mut runtime, &blocked, &answer("requested", "device-2")).err();
    assert_eq!(
        error.unwrap().text(),
        "Re-enrollment response belongs to a different device"
    );
    assert_eq!(snapshot_json(Some(&runtime)), "");
    assert!(
        reenrollment_requested(&mut runtime, &blocked, &answer("requested", "device-1")).is_ok()
    );
    assert_eq!(reenrollment_snapshot_flags(Some(&runtime)), (true, false));
}

#[test]
fn contact_address_is_changed_by_enrolled_devices() {
    let approved = stored(PersistedEnrollmentStatus::Approved);
    let request = update_contact_email_once(Some(BASE), Some(&approved), "a@b.c").ok().unwrap();
    assert_eq!(request.url, "https://directory.example/v1/device/contact-email");
    let error = update_contact_email_once(None, Some(&approved), "a@b.c").err().unwrap();
    assert_eq!(error.text(), "Managed directory endpoint is not configured");
    let error = update_contact_email_once(Some(BASE), None, "a@b.c").err().unwrap();
    assert_eq!(error.text(), "Device is not enrolled");
    let denied = stored(PersistedEnrollmentStatus::Denied);
    let error = update_contact_email_once(Some(BASE), Some(&denied), "a@b.c").err().unwrap();
    assert_eq!(error.text(), "directory contact email update failed (configuration)");
}

#[test]
fn identity_is_trimmed_and_encoded() {
    let identity = current_identity(
        " 123 ",
        Some("\thost\n"),
        " Front desk ",
        "  ",
        &vec![0, 1, 2, 255],
        "1.4.0",
    )
    .ok()
    .unwrap();
    assert_eq!(identity.rustdesk_id, "123");
    assert_eq!(identity.hostname, "host");
    assert_eq!(identity.friendly_name, "Front desk");
    assert_eq!(identity.contact_email, "");
    assert_eq!(identity.device_public_key, "AAEC/w==");
    assert_eq!(identity.client_version, "1.4.0");
}

#[test]
fn incomplete_identity_is_an_error() {
    let make = |id: &str, host: Option<&str>, name: &str, key: Vec<u8>| {
        current_identity(id, host, name, "", &key, "1").err()
    };
    assert_eq!(
        make(" ", Some("h"), "n", vec![1]),
        Some(IdentityError::RustdeskIdUnavailable)
    );
    assert_eq!(make("1", None, "n", vec![1]), Some(IdentityError::HostnameUnavailable));
    assert_eq!(make("1", Some(" "), "n", vec![1]), Some(IdentityError::HostnameUnavailable));
    assert_eq!(
        make("1", Some("h"), "\n", vec![1]),
        Some(IdentityError::FriendlyNameNotConfigured)
    );
    assert_eq!(make("1", Some("h"), "n", vec![]), Some(IdentityError::PublicKeyUnavailable));
    assert_eq!(IdentityError::RustdeskIdUnavailable.text(), "RustDesk ID is unavailable");
    assert_eq!(IdentityError::HostnameUnavailable.text(), "Windows hostname is unavailable");
    assert_eq!(
        IdentityError::FriendlyNameNotConfigured.text(),
        "Managed friendly name is not configured"
    );
    assert_eq!(
        IdentityError::PublicKeyUnavailable.text(),
        "RustDesk device public key is unavailable"
    );
}
