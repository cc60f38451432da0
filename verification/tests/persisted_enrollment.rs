use rustdesk_managed::api_types::{
    DeviceMeResponse, DirectoryIdentity, EnrollmentDevice, EnrollmentResponse,
    EnrollmentStatusResponse,
};
use rustdesk_managed::persisted_auth::{
    approved_credential, continuity_identity, is_turned_away, parse_device_status,
    pending_state_from_enrollment, require_protected_bytes, require_schema_version,
    runtime_state_from_persisted_status, state_from_enrollment_status,
    validate_device_me_response, validate_enrollment_status_response,
    validate_persisted_auth_identity, DeviceMeError, EnrollmentResponseError,
    EnrollmentStatusError, PersistedAuthError, PersistedDirectoryAuth, PersistedEnrollmentStatus,
    DIRECTORY_STATE_SCHEMA_VERSION,
};
use rustdesk_managed::directory_state::DirectoryState;

fn identity() -> DirectoryIdentity {
    DirectoryIdentity {
        rustdesk_id: "123456789".to_owned(),
        hostname: "host".to_owned(),
        friendly_name: "Front desk".to_owned(),
        contact_email: "desk@example.com".to_owned(),
        device_public_key: "public-key".to_owned(),
        client_version: "1.4.0".to_owned(),
    }
}

fn approved() -> PersistedDirectoryAuth {
    PersistedDirectoryAuth {
        version: DIRECTORY_STATE_SCHEMA_VERSION,
        rustdesk_id: "123456789".to_owned(),
        device_public_key: "public-key".to_owned(),
        status: PersistedEnrollmentStatus::Approved,
        device_id: Some("device-1".to_owned()),
        enrollment_poll_token: Some("token-1".to_owned()),
        poll_expires_at: Some("old-expiry".to_owned()),
        poll_after_seconds: Some(7),
        device_credential: Some("credential-1".to_owned()),
        credential_serial: Some("serial-1".to_owned()),
    }
}

fn status_answer(status: &str) -> EnrollmentStatusResponse {
    EnrollmentStatusResponse {
        device_id: "device-1".to_owned(),
        rustdesk_id: "123456789".to_owned(),
        hostname: "host".to_owned(),
        friendly_name: None,
        status: status.to_owned(),
        status_reason: None,
        status_changed_at: None,
        poll_expires_at: None,
        poll_after_seconds: 12,
        credential: Some("credential-2".to_owned()),
        credential_serial: Some("serial-2".to_owned()),
        client_settings: None,
        reenrollment_requested: false,
        reenrollment_request_id: None,
        reenrollment_request_expires_at: None,
        reenrollment_authorized: false,
        reenrollment_authorization_expires_at: None,
    }
}

fn enrollment_answer() -> EnrollmentResponse {
    EnrollmentResponse {
        result: "accepted_pending".to_owned(),
        device: EnrollmentDevice {
            id: "device-9".to_owned(),
            rustdesk_id: "123456789".to_owned(),
            hostname: "host".to_owned(),
            friendly_name: Some("Front desk".to_owned()),
            status: "pending".to_owned(),
            created_at: "now".to_owned(),
        },
        poll_token: "token-9".to_owned(),
        poll_expires_at: "later".to_owned(),
        poll_after_seconds: 20,
    }
}

fn device_me() -> DeviceMeResponse {
    DeviceMeResponse {
        id: "device-1".to_owned(),
        rustdesk_id: "123456789".to_owned(),
        hostname: "host".to_owned(),
        friendly_name: None,
        status: "approved".to_owned(),
        credential_serial: "serial-1".to_owned(),
        credential_issued_at: "then".to_owned(),
        credential_expires_at: None,
        instance_id: "instance".to_owned(),
    }
}

#[test]
fn stored_enrollment_must_fit_the_device() {
    assert!(validate_persisted_auth_identity(&approved(), &identity()).is_ok());

    let mut other_id = approved();
    other_id.rustdesk_id = "987654321".to_owned();
    let error = validate_persisted_auth_identity(&other_id, &identity()).err().unwrap();
    assert!(matches!(error, PersistedAuthError::DifferentRustdeskId));
    assert_eq!(error.text(), "Protected directory state belongs to a different RustDesk ID");

    let mut other_key = approved();
    other_key.device_public_key = "other".to_owned();
    let error = validate_persisted_auth_identity(&other_key, &identity()).err().unwrap();
    assert!(matches!(error, PersistedAuthError::DifferentDeviceKey));
    assert_eq!(error.text(), "Protected directory state belongs to a different device key");
}

#[test]
fn stored_enrollment_must_fit_its_status() {
    let mut blank_id = approved();
    blank_id.device_id = Some(" \u{3000}\t".to_owned());
    let error = validate_persisted_auth_identity(&blank_id, &identity()).err().unwrap();
    assert!(matches!(error, PersistedAuthError::MissingDeviceId));
    assert_eq!(error.text(), "Protected directory state is missing device continuity ID");

    let mut no_token = approved();
    no_token.enrollment_poll_token = None;
    let error = validate_persisted_auth_identity(&no_token, &identity()).err().unwrap();
    assert!(matches!(error, PersistedAuthError::MissingPollToken));
    assert_eq!(
        error.text(),
        "Protected directory state is missing enrollment continuity token"
    );

    let mut no_credential = approved();
    no_credential.device_credential = Some(String::new());
    let error = validate_persisted_auth_identity(&no_credential, &identity()).err().unwrap();
    assert!(matches!(error, PersistedAuthError::MissingCredential));
    assert_eq!(error.text(), "Approved directory state is missing device credential");

    let mut no_serial = approved();
    no_serial.credential_serial = Some("  ".to_owned());
    let error = validate_persisted_auth_identity(&no_serial, &identity()).err().unwrap();
    assert!(matches!(error, PersistedAuthError::MissingCredentialSerial));
    assert_eq!(error.text(), "Approved directory state is missing credential serial");

    // A poll token of white space is a token, and a device that is not enrolled needs none.
    let mut blank_token = approved();
    blank_token.enrollment_poll_token = Some(" ".to_owned());
    assert!(validate_persisted_auth_identity(&blank_token, &identity()).is_ok());
    let mut not_enrolled = approved();
    not_enrolled.status = PersistedEnrollmentStatus::NotEnrolled;
    not_enrolled.device_id = None;
    not_enrolled.enrollment_poll_token = None;
    assert!(validate_persisted_auth_identity(&not_enrolled, &identity()).is_ok());
}

#[test]
fn only_the_known_schema_is_read() {
    assert!(require_schema_version(approved()).is_ok());
    let mut later = approved();
    later.version = 2;
    let error = require_schema_version(later).err().unwrap();
    assert!(matches!(error, PersistedAuthError::UnsupportedVersion(2)));
    assert_eq!(error.text(), "Unsupported directory state schema version: 2");
}

#[test]
fn empty_state_file_is_an_error() {
    assert!(require_protected_bytes(&vec![1], "C:\\x").is_ok());
    let error = require_protected_bytes(&vec![], "C:\\x").err().unwrap();
    assert_eq!(error.text(), "Protected directory state file is empty: 'C:\\x'");
}

#[test]
fn status_answer_must_be_about_this_enrollment() {
    assert!(validate_enrollment_status_response(&approved(), &status_answer("pending")).is_ok());

    let mut no_id = approved();
    no_id.device_id = None;
    let error = validate_enrollment_status_response(&no_id, &status_answer("pending"));
    assert_eq!(error, Err(EnrollmentStatusError::MissingDeviceId));
    assert_eq!(
        EnrollmentStatusError::MissingDeviceId.text(),
        "Protected directory state is missing device continuity ID"
    );

    let mut other_device = status_answer("pending");
    other_device.device_id = "device-2".to_owned();
    let error = validate_enrollment_status_response(&approved(), &other_device);
    assert_eq!(error, Err(EnrollmentStatusError::DifferentDevice));
    assert_eq!(
        EnrollmentStatusError::DifferentDevice.text(),
        "Enrollment status response belongs to a different device"
    );

    let mut other_id = status_answer("pending");
    other_id.rustdesk_id = "1".to_owned();
    let error = validate_enrollment_status_response(&approved(), &other_id);
    assert_eq!(error, Err(EnrollmentStatusError::DifferentRustdeskId));
    assert_eq!(
        EnrollmentStatusError::DifferentRustdeskId.text(),
        "Enrollment status response RustDesk ID does not match this device"
    );

    let error = validate_enrollment_status_response(&approved(), &status_answer("Approved"));
    assert_eq!(error, Err(EnrollmentStatusError::UnknownStatus));
    assert_eq!(
        EnrollmentStatusError::UnknownStatus.text(),
        "Enrollment status response returned an unknown device status"
    );

    let mut no_credential = status_answer("approved");
    no_credential.credential = None;
    let error = validate_enrollment_status_response(&approved(), &no_credential);
    assert_eq!(error, Err(EnrollmentStatusError::MissingCredential));
    assert_eq!(
        EnrollmentStatusError::MissingCredential.text(),
        "Approved enrollment status is missing device credential"
    );

    let mut no_serial = status_answer("approved");
    no_serial.credential_serial = Some("\n".to_owned());
    let error = validate_enrollment_status_response(&approved(), &no_serial);
    assert_eq!(error, Err(EnrollmentStatusError::MissingCredentialSerial));
    assert_eq!(
        EnrollmentStatusError::MissingCredentialSerial.text(),
        "Approved enrollment status is missing credential serial"
    );
}

#[test]
fn every_status_keeps_the_continuity_identity() {
    for (word, status) in [
        ("pending", PersistedEnrollmentStatus::Pending),
        ("approved", PersistedEnrollmentStatus::Approved),
        ("denied", PersistedEnrollmentStatus::Denied),
        ("blocked", PersistedEnrollmentStatus::Blocked),
        ("revoked", PersistedEnrollmentStatus::Revoked),
    ] {
        assert_eq!(parse_device_status(word), Some(status));
        let updated = state_from_enrollment_status(approved(), status_answer(word)).ok().unwrap();
        assert_eq!(updated.status, status);
        assert_eq!(updated.device_id.as_deref(), Some("device-1"));
        assert_eq!(updated.enrollment_poll_token.as_deref(), Some("token-1"));
        // An answer without an expiry leaves the old one.
        assert_eq!(updated.poll_expires_at.as_deref(), Some("old-expiry"));
        assert_eq!(updated.poll_after_seconds, Some(12));
        if status == PersistedEnrollmentStatus::Approved {
            assert_eq!(updated.device_credential.as_deref(), Some("credential-2"));
            assert_eq!(updated.credential_serial.as_deref(), Some("serial-2"));
        } else {
            assert!(updated.device_credential.is_none());
            assert!(updated.credential_serial.is_none());
        }
        // What is stored is taken when it is read back.
        assert!(validate_persisted_auth_identity(&updated, &identity()).is_ok());
    }
    assert_eq!(parse_device_status("not_enrolled"), None);
    assert!(state_from_enrollment_status(approved(), status_answer("gone")).is_err());
}

#[test]
fn device_identity_must_match_exactly() {
    assert!(validate_device_me_response(&approved(), &device_me()).is_ok());

    let mut no_id = approved();
    no_id.device_id = None;
    assert_eq!(
        validate_device_me_response(&no_id, &device_me()),
        Err(DeviceMeError::MissingDeviceId)
    );
    let mut no_serial = approved();
    no_serial.credential_serial = None;
    assert_eq!(
        validate_device_me_response(&no_serial, &device_me()),
        Err(DeviceMeError::MissingCredentialSerial)
    );
    let mut other = device_me();
    other.id = "device-2".to_owned();
    assert_eq!(
        validate_device_me_response(&approved(), &other),
        Err(DeviceMeError::DifferentDevice)
    );
    let mut other = device_me();
    other.rustdesk_id = "2".to_owned();
    assert_eq!(
        validate_device_me_response(&approved(), &other),
        Err(DeviceMeError::DifferentRustdeskId)
    );
    let mut other = device_me();
    other.status = "blocked".to_owned();
    assert_eq!(
        validate_device_me_response(&approved(), &other),
        Err(DeviceMeError::NotApproved)
    );
    let mut other = device_me();
    other.credential_serial = "serial-2".to_owned();
    assert_eq!(
        validate_device_me_response(&approved(), &other),
        Err(DeviceMeError::DifferentCredentialSerial)
    );

    assert_eq!(
        DeviceMeError::MissingDeviceId.text(),
        "Protected directory state is missing device continuity ID"
    );
    assert_eq!(
        DeviceMeError::MissingCredentialSerial.text(),
        "Protected directory state is missing credential serial"
    );
    assert_eq!(
        DeviceMeError::DifferentDevice.text(),
        "Device identity response belongs to a different device"
    );
    assert_eq!(
        DeviceMeError::DifferentRustdeskId.text(),
        "Device identity response RustDesk ID does not match this device"
    );
    assert_eq!(DeviceMeError::NotApproved.text(), "Device identity response is not approved");
    assert_eq!(
        DeviceMeError::DifferentCredentialSerial.text(),
        "Device identity response credential serial does not match"
    );
}

#[test]
fn enrollment_answer_starts_a_pending_enrollment() {
    let state = pending_state_from_enrollment(&identity(), enrollment_answer()).ok().unwrap();
    assert_eq!(state.version, 1);
    assert_eq!(state.rustdesk_id, "123456789");
    assert_eq!(state.device_public_key, "public-key");
    assert_eq!(state.status, PersistedEnrollmentStatus::Pending);
    assert_eq!(state.device_id.as_deref(), Some("device-9"));
    assert_eq!(state.enrollment_poll_token.as_deref(), Some("token-9"));
    assert_eq!(state.poll_expires_at.as_deref(), Some("later"));
    assert_eq!(state.poll_after_seconds, Some(20));
    assert!(state.device_credential.is_none());
    assert!(state.credential_serial.is_none());
    assert!(validate_persisted_auth_identity(&state, &identity()).is_ok());
}

#[test]
fn enrollment_answer_must_be_about_this_device() {
    let mut answer = enrollment_answer();
    answer.result = "accepted".to_owned();
    assert_eq!(
        pending_state_from_enrollment(&identity(), answer).err(),
        Some(EnrollmentResponseError::UnexpectedResult)
    );
    let mut answer = enrollment_answer();
    answer.device.status = "approved".to_owned();
    assert_eq!(
        pending_state_from_enrollment(&identity(), answer).err(),
        Some(EnrollmentResponseError::UnexpectedStatus)
    );
    let mut answer = enrollment_answer();
    answer.device.rustdesk_id = "1".to_owned();
    assert_eq!(
        pending_state_from_enrollment(&identity(), answer).err(),
        Some(EnrollmentResponseError::DifferentRustdeskId)
    );
    let mut answer = enrollment_answer();
    answer.device.hostname = "elsewhere".to_owned();
    assert_eq!(
        pending_state_from_enrollment(&identity(), answer).err(),
        Some(EnrollmentResponseError::DifferentHostname)
    );
    let mut answer = enrollment_answer();
    answer.device.friendly_name = None;
    assert_eq!(
        pending_state_from_enrollment(&identity(), answer).err(),
        Some(EnrollmentResponseError::DifferentFriendlyName)
    );
    let mut answer = enrollment_answer();
    answer.device.id = " ".to_owned();
    assert_eq!(
        pending_state_from_enrollment(&identity(), answer).err(),
        Some(EnrollmentResponseError::MissingDeviceId)
    );
    let mut answer = enrollment_answer();
    answer.poll_token = String::new();
    assert_eq!(
        pending_state_from_enrollment(&identity(), answer).err(),
        Some(EnrollmentResponseError::MissingPollToken)
    );

    assert_eq!(
        EnrollmentResponseError::UnexpectedResult.text(),
        "Enrollment response returned unexpected result"
    );
    assert_eq!(
        EnrollmentResponseError::UnexpectedStatus.text(),
        "Enrollment response returned unexpected device status"
    );
    assert_eq!(
        EnrollmentResponseError::DifferentRustdeskId.text(),
        "Enrollment response RustDesk ID does not match this device"
    );
    assert_eq!(
        EnrollmentResponseError::DifferentHostname.text(),
        "Enrollment response hostname does not match this device"
    );
    assert_eq!(
        EnrollmentResponseError::DifferentFriendlyName.text(),
        "Enrollment response friendly name does not match this device"
    );
    assert_eq!(
        EnrollmentResponseError::MissingDeviceId.text(),
        "Enrollment response is missing device continuity ID"
    );
    assert_eq!(
        EnrollmentResponseError::MissingPollToken.text(),
        "Enrollment response is missing continuity poll token"
    );
}

#[test]
fn restored_states_are_never_ready() {
    for (status, state) in [
        (PersistedEnrollmentStatus::NotEnrolled, DirectoryState::NotEnrolled),
        (PersistedEnrollmentStatus::Pending, DirectoryState::Pending),
        (PersistedEnrollmentStatus::Approved, DirectoryState::Unavailable),
        (PersistedEnrollmentStatus::Denied, DirectoryState::Denied),
        (PersistedEnrollmentStatus::Blocked, DirectoryState::Blocked),
        (PersistedEnrollmentStatus::Revoked, DirectoryState::Revoked),
    ] {
        assert_eq!(runtime_state_from_persisted_status(&status), state);
    }
    assert!(is_turned_away(PersistedEnrollmentStatus::Denied));
    assert!(is_turned_away(PersistedEnrollmentStatus::Blocked));
    assert!(is_turned_away(PersistedEnrollmentStatus::Revoked));
    assert!(!is_turned_away(PersistedEnrollmentStatus::Pending));
}

#[test]
fn credentials_and_continuity_are_needed() {
    let mut empty_credential = approved();
    empty_credential.device_credential = Some(String::new());
    let error = approved_credential(&empty_credential, "reading").err().unwrap();
    assert_eq!(error.text(), "reading failed (configuration)");

    let state = approved();
    assert_eq!(
        continuity_identity(&state, "polling").ok(),
        Some(("device-1", "token-1"))
    );
    let mut blank_id = approved();
    blank_id.device_id = Some("  ".to_owned());
    assert!(continuity_identity(&blank_id, "polling").is_err());
    let mut no_token = approved();
    no_token.enrollment_poll_token = None;
    assert!(continuity_identity(&no_token, "polling").is_err());
}

#[test]
fn copies_of_an_enrollment_are_equal() {
    let copy = approved().duplicate();
    assert_eq!(copy.version, 1);
    assert_eq!(copy.rustdesk_id, "123456789");
    assert_eq!(copy.device_public_key, "public-key");
    assert_eq!(copy.status, PersistedEnrollmentStatus::Approved);
    assert_eq!(copy.device_id.as_deref(), Some("device-1"));
    assert_eq!(copy.enrollment_poll_token.as_deref(), Some("token-1"));
    assert_eq!(copy.poll_expires_at.as_deref(), Some("old-expiry"));
    assert_eq!(copy.poll_after_seconds, Some(7));
    assert_eq!(copy.device_credential.as_deref(), Some("credential-1"));
    assert_eq!(copy.credential_serial.as_deref(), Some("serial-1"));
}
