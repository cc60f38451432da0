use rustdesk_managed::api_error::{
    directory_retry_delay_seconds, DirectoryApiError, DirectoryApiErrorKind,
};
use rustdesk_managed::api_types::{
    DirectoryDevice, DirectoryResponse, EnrollmentStatusResponse, HeartbeatResponse,
    RelayLeaseResponse,
};
use rustdesk_managed::directory_state::DirectoryState;
use rustdesk_managed::persisted_auth::{
    approved_credential, runtime_state_from_persisted_status, state_from_enrollment_status,
    PersistedDirectoryAuth, PersistedEnrollmentStatus, DIRECTORY_STATE_SCHEMA_VERSION,
};
use rustdesk_managed::requests::EnrollmentRequest;
use rustdesk_managed::responses::{
    normalize_directory_refresh_seconds, remove_current_device_from_directory,
    validate_heartbeat_response, validate_relay_lease_response, DIRECTORY_HEARTBEAT_SECONDS,
    DIRECTORY_REFRESH_MAX_SECONDS,
};
use rustdesk_managed::web::directory_api_url;

#[test]
fn first_enrollment_omits_reenrollment_poll_token() {
    let request = EnrollmentRequest {
        enrollment_password: "test-password",
        rustdesk_id: "123456789",
        hostname: "test-host",
        friendly_name: Some("test-friendly"),
        contact_email: Some("test@example.com"),
        device_public_key: "test-public-key",
        client_version: Some("1.0.0"),
        reenrollment_poll_token: None,
    };

    let value: serde_json::Value = serde_json::from_str(&request.json()).unwrap();

    assert!(value.get("reenrollment_poll_token").is_none());
}

#[test]
fn transient_errors_use_bounded_exponential_backoff() {
    let error = DirectoryApiError {
        operation: "test operation",
        kind: DirectoryApiErrorKind::Server,
        status: Some(503),
        retry_after_seconds: None,
    };

    assert_eq!(directory_retry_delay_seconds(&error, 0), Some(5));
    assert_eq!(directory_retry_delay_seconds(&error, 1), Some(10));
    assert_eq!(directory_retry_delay_seconds(&error, 6), Some(30));

    let rate_limited = DirectoryApiError {
        operation: "test operation",
        kind: DirectoryApiErrorKind::RateLimited,
        status: Some(429),
        retry_after_seconds: Some(60),
    };

    assert_eq!(directory_retry_delay_seconds(&rate_limited, 0), Some(60));

    let unauthorized = DirectoryApiError {
        operation: "test operation",
        kind: DirectoryApiErrorKind::Unauthorized,
        status: Some(401),
        retry_after_seconds: None,
    };

    assert_eq!(directory_retry_delay_seconds(&unauthorized, 0), None);
}

#[test]
fn relay_lease_must_match_device_and_credential() {
    let state = PersistedDirectoryAuth {
        version: DIRECTORY_STATE_SCHEMA_VERSION,
        rustdesk_id: "123456789".to_owned(),
        device_public_key: "test-public-key".to_owned(),
        status: PersistedEnrollmentStatus::Approved,
        device_id: Some("test-device-id".to_owned()),
        enrollment_poll_token: Some("test-poll-token".to_owned()),
        poll_expires_at: None,
        poll_after_seconds: Some(10),
        device_credential: Some("test-credential".to_owned()),
        credential_serial: Some("test-serial".to_owned()),
    };

    let good = RelayLeaseResponse {
        status: "authorized".to_owned(),
        lease_id: "test-lease".to_owned(),
        device_id: "test-device-id".to_owned(),
        credential_serial: "test-serial".to_owned(),
        source_ip: "192.0.2.1".to_owned(),
        issued_at: "test-issued".to_owned(),
        expires_at: "test-expires".to_owned(),
        renew_after_seconds: 240,
        firewall_sync_after_seconds: 3,
        guard_mode: "staged".to_owned(),
        rustdesk_server: "example.invalid".to_owned(),
        guarded_tcp_ports: vec![21115, 21116, 21117],
        guarded_udp_ports: vec![21116],
    };

    assert!(validate_relay_lease_response(&state, &good).is_ok());

    let mut bad = good;
    bad.credential_serial = "wrong-serial".to_owned();

    assert!(validate_relay_lease_response(&state, &bad).is_err());
}

#[test]
fn protected_routes_require_approved_credential() {
    let pending = PersistedDirectoryAuth {
        version: DIRECTORY_STATE_SCHEMA_VERSION,
        rustdesk_id: "123456789".to_owned(),
        device_public_key: "test-public-key".to_owned(),
        status: PersistedEnrollmentStatus::Pending,
        device_id: Some("test-device-id".to_owned()),
        enrollment_poll_token: Some("test-poll-token".to_owned()),
        poll_expires_at: None,
        poll_after_seconds: Some(10),
        device_credential: None,
        credential_serial: None,
    };

    assert!(approved_credential(&pending, "test operation").is_err());

    let mut approved = pending;
    approved.status = PersistedEnrollmentStatus::Approved;
    approved.device_credential = Some("test-credential".to_owned());
    approved.credential_serial = Some("test-serial".to_owned());

    assert_eq!(
        approved_credential(&approved, "test operation").unwrap(),
        "test-credential"
    );
}

#[test]
fn heartbeat_requires_approved_response() {
    let good = HeartbeatResponse {
        status: "ok".to_owned(),
        server_time: "test-time".to_owned(),
        device_status: "approved".to_owned(),
        client_version: Some("1.0.0".to_owned()),
        client_settings: None,
    };

    assert!(validate_heartbeat_response(&good).is_ok());

    let bad = HeartbeatResponse {
        status: "ok".to_owned(),
        server_time: "test-time".to_owned(),
        device_status: "blocked".to_owned(),
        client_version: Some("1.0.0".to_owned()),
        client_settings: None,
    };

    assert!(validate_heartbeat_response(&bad).is_err());
}

#[test]
fn directory_api_requires_https() {
    assert!(directory_api_url(
        "http://example.invalid",
        "/v1/enrollment/devices",
        "test operation",
    )
    .is_err());

    assert!(directory_api_url(
        "https://example.invalid",
        "/v1/enrollment/devices",
        "test operation",
    )
    .is_ok());
}

#[test]
fn restored_approved_state_requires_validation_before_ready() {
    assert_eq!(
        runtime_state_from_persisted_status(&PersistedEnrollmentStatus::Approved),
        DirectoryState::Unavailable
    );

    assert_eq!(
        runtime_state_from_persisted_status(&PersistedEnrollmentStatus::Pending),
        DirectoryState::Pending
    );

    assert_eq!(
        runtime_state_from_persisted_status(&PersistedEnrollmentStatus::Blocked),
        DirectoryState::Blocked
    );
}

#[test]
fn blocked_status_removes_credential_but_preserves_continuity() {
    let state = PersistedDirectoryAuth {
        version: DIRECTORY_STATE_SCHEMA_VERSION,
        rustdesk_id: "123456789".to_owned(),
        device_public_key: "test-device-public-key".to_owned(),
        status: PersistedEnrollmentStatus::Approved,
        device_id: Some("test-device-id".to_owned()),
        enrollment_poll_token: Some("test-poll-token".to_owned()),
        poll_expires_at: Some("test-expiry".to_owned()),
        poll_after_seconds: Some(10),
        device_credential: Some("test-credential".to_owned()),
        credential_serial: Some("test-serial".to_owned()),
    };

    let response = EnrollmentStatusResponse {
        device_id: "test-device-id".to_owned(),
        rustdesk_id: "123456789".to_owned(),
        hostname: "test-host".to_owned(),
        friendly_name: Some("test-friendly".to_owned()),
        status: "blocked".to_owned(),
        status_reason: Some("test-reason".to_owned()),
        status_changed_at: Some("test-time".to_owned()),
        poll_expires_at: Some("new-expiry".to_owned()),
        poll_after_seconds: 10,
        credential: None,
        credential_serial: None,
        client_settings: None,
        reenrollment_requested: false,
        reenrollment_request_id: None,
        reenrollment_request_expires_at: None,
        reenrollment_authorized: false,
        reenrollment_authorization_expires_at: None,
    };

    let updated = state_from_enrollment_status(state, response).ok().unwrap();

    assert!(matches!(updated.status, PersistedEnrollmentStatus::Blocked));
    assert_eq!(
        updated.enrollment_poll_token.as_deref(),
        Some("test-poll-token")
    );
    assert!(updated.device_credential.is_none());
    assert!(updated.credential_serial.is_none());
}

#[test]
fn approved_status_preserves_continuity() {
    let state = PersistedDirectoryAuth {
        version: DIRECTORY_STATE_SCHEMA_VERSION,
        rustdesk_id: "123456789".to_owned(),
        device_public_key: "test-device-public-key".to_owned(),
        status: PersistedEnrollmentStatus::Pending,
        device_id: Some("test-device-id".to_owned()),
        enrollment_poll_token: Some("test-poll-token".to_owned()),
        poll_expires_at: Some("test-expiry".to_owned()),
        poll_after_seconds: Some(10),
        device_credential: None,
        credential_serial: None,
    };

    let response = EnrollmentStatusResponse {
        device_id: "test-device-id".to_owned(),
        rustdesk_id: "123456789".to_owned(),
        hostname: "test-host".to_owned(),
        friendly_name: Some("test-friendly".to_owned()),
        status: "approved".to_owned(),
        status_reason: None,
        status_changed_at: Some("test-time".to_owned()),
        poll_expires_at: Some("new-expiry".to_owned()),
        poll_after_seconds: 10,
        credential: Some("test-credential".to_owned()),
        credential_serial: Some("test-serial".to_owned()),
        client_settings: None,
        reenrollment_requested: false,
        reenrollment_request_id: None,
        reenrollment_request_expires_at: None,
        reenrollment_authorized: false,
        reenrollment_authorization_expires_at: None,
    };

    let updated = state_from_enrollment_status(state, response).ok().unwrap();

    assert!(matches!(
        updated.status,
        PersistedEnrollmentStatus::Approved
    ));
    assert_eq!(
        updated.enrollment_poll_token.as_deref(),
        Some("test-poll-token")
    );
    assert_eq!(
        updated.device_credential.as_deref(),
        Some("test-credential")
    );
    assert_eq!(updated.credential_serial.as_deref(), Some("test-serial"));
}

#[test]
fn directory_snapshot_excludes_current_device_uuid() {
    let mut response = DirectoryResponse {
        instance_id: "instance".to_owned(),
        generated_at: "2026-08-08T00:00:00Z".to_owned(),
        refresh_seconds: 15,
        devices: vec![
            DirectoryDevice {
                id: "device-self".to_owned(),
                rustdesk_id: "111111111".to_owned(),
                display_name: "Self".to_owned(),
                hostname: "self-host".to_owned(),
                last_ip: None,
                last_seen_at: None,
                online: true,
            },
            DirectoryDevice {
                id: "device-peer".to_owned(),
                rustdesk_id: "222222222".to_owned(),
                display_name: "Peer".to_owned(),
                hostname: "peer-host".to_owned(),
                last_ip: None,
                last_seen_at: None,
                online: true,
            },
        ],
        client_settings: None,
        server_stats: None,
    };

    remove_current_device_from_directory(&mut response, Some("device-self"));

    assert_eq!(response.devices.len(), 1);
    assert_eq!(response.devices[0].id, "device-peer");
}

#[test]
fn managed_poll_intervals_are_capped_at_fifteen_seconds() {
    assert_eq!(DIRECTORY_HEARTBEAT_SECONDS, 15);
    assert_eq!(DIRECTORY_REFRESH_MAX_SECONDS, 15);

    assert_eq!(normalize_directory_refresh_seconds(0), 15);
    assert_eq!(normalize_directory_refresh_seconds(1), 1);
    assert_eq!(normalize_directory_refresh_seconds(10), 10);
    assert_eq!(normalize_directory_refresh_seconds(15), 15);
    assert_eq!(normalize_directory_refresh_seconds(16), 15);
    assert_eq!(normalize_directory_refresh_seconds(300), 15);
}
