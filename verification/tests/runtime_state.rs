use rustdesk_managed::api_types::{EnrollmentStatusResponse, ReenrollmentRequestResponse};
use rustdesk_managed::directory_state::{
    clear_directory_snapshot, get_state, management_snapshot_from_request,
    management_snapshot_from_status, reenrollment_snapshot_flags, set_state, snapshot_json,
    state_key, status_text, status_text_for, store_directory_snapshot, DirectoryRuntime,
    DirectoryState,
};

fn status_answer(requested: bool, authorized: bool) -> EnrollmentStatusResponse {
    EnrollmentStatusResponse {
        device_id: "device-1".to_owned(),
        rustdesk_id: "123456789".to_owned(),
        hostname: "host".to_owned(),
        friendly_name: None,
        status: "blocked".to_owned(),
        status_reason: Some("said \"no\"".to_owned()),
        status_changed_at: None,
        poll_expires_at: None,
        poll_after_seconds: 12,
        credential: None,
        credential_serial: None,
        client_settings: None,
        reenrollment_requested: requested,
        reenrollment_request_id: Some("request-1".to_owned()),
        reenrollment_request_expires_at: None,
        reenrollment_authorized: authorized,
        reenrollment_authorization_expires_at: None,
    }
}

#[test]
fn states_have_keys() {
    let mut runtime = DirectoryRuntime::new();
    assert_eq!(get_state(Some(&runtime)), DirectoryState::NotEnrolled);
    for (state, key) in [
        (DirectoryState::NotEnrolled, "not_enrolled"),
        (DirectoryState::Enrolling, "enrolling"),
        (DirectoryState::Pending, "pending"),
        (DirectoryState::Ready, "ready"),
        (DirectoryState::Unavailable, "unavailable"),
        (DirectoryState::Denied, "denied"),
        (DirectoryState::Blocked, "blocked"),
        (DirectoryState::Revoked, "revoked"),
    ] {
        set_state(&mut runtime, state);
        assert_eq!(get_state(Some(&runtime)), state);
        assert_eq!(state_key(Some(&runtime)), key);
    }
}

#[test]
fn unreachable_runtime_is_unavailable() {
    assert_eq!(get_state(None), DirectoryState::Unavailable);
    assert_eq!(state_key(None), "unavailable");
    assert_eq!(snapshot_json(None), "");
    assert_eq!(reenrollment_snapshot_flags(None), (false, false));
    assert_eq!(status_text(None, " Desk "), "Directory unavailable \u{2014} Desk");
}

#[test]
fn status_lines_name_the_device() {
    let mut runtime = DirectoryRuntime::new();
    for (state, line) in [
        (DirectoryState::NotEnrolled, "Not enrolled \u{2014} Desk"),
        (DirectoryState::Enrolling, "Enrolling \u{2014} Desk"),
        (DirectoryState::Pending, "Pending approval \u{2014} Desk"),
        (DirectoryState::Ready, "Ready \u{2014} Desk"),
        (DirectoryState::Unavailable, "Directory unavailable \u{2014} Desk"),
        (DirectoryState::Denied, "Enrollment denied \u{2014} Re-enrollment required"),
        (DirectoryState::Blocked, "Device blocked \u{2014} Re-enrollment required"),
        (DirectoryState::Revoked, "Access revoked \u{2014} Re-enrollment required"),
    ] {
        set_state(&mut runtime, state);
        assert_eq!(status_text(Some(&runtime), "  Desk\n"), line);
    }
}

#[test]
fn status_lines_follow_the_flags() {
    let requested = "Re-enrollment requested \u{2014} Waiting for approval";
    let authorized = "Re-enrollment authorized \u{2014} Recovering managed enrollment";
    for state in [DirectoryState::Denied, DirectoryState::Blocked, DirectoryState::Revoked] {
        assert_eq!(status_text_for(state, "Desk", (true, false)), requested);
        assert_eq!(status_text_for(state, "Desk", (true, true)), authorized);
        assert_eq!(status_text_for(state, "Desk", (false, true)), authorized);
    }
    assert_eq!(
        status_text_for(DirectoryState::Ready, "Desk", (true, true)),
        "Ready \u{2014} Desk"
    );
}

#[test]
fn snapshot_gives_back_the_flags_of_a_status() {
    let mut runtime = DirectoryRuntime::new();
    set_state(&mut runtime, DirectoryState::Blocked);
    for (requested, authorized) in [(false, false), (true, false), (false, true), (true, true)] {
        management_snapshot_from_status(&mut runtime, &status_answer(requested, authorized));
        assert_eq!(reenrollment_snapshot_flags(Some(&runtime)), (requested, authorized));
        assert_eq!(get_state(Some(&runtime)), DirectoryState::Blocked);
    }
    let value: serde_json::Value = serde_json::from_str(&snapshot_json(Some(&runtime))).unwrap();
    assert_eq!(value.as_object().unwrap().len(), 7);
    assert_eq!(value["reenrollment_requested"], serde_json::Value::Bool(true));
    assert_eq!(value["reenrollment_request_id"], "request-1");
    assert_eq!(value["reenrollment_request_expires_at"], serde_json::Value::Null);
    assert_eq!(value["status_reason"], "said \"no\"");
    assert_eq!(value["status_changed_at"], serde_json::Value::Null);
}

#[test]
fn snapshot_gives_back_the_flags_of_a_request() {
    let mut runtime = DirectoryRuntime::new();
    let answer = ReenrollmentRequestResponse {
        status: "requested".to_owned(),
        device_id: "device-1".to_owned(),
        device_status: "blocked".to_owned(),
        poll_expires_at: "later".to_owned(),
        reenrollment_requested: true,
        reenrollment_request_id: None,
        reenrollment_request_expires_at: Some("soon".to_owned()),
        reenrollment_authorized: false,
        reenrollment_authorization_expires_at: None,
    };
    management_snapshot_from_request(&mut runtime, &answer);
    assert_eq!(reenrollment_snapshot_flags(Some(&runtime)), (true, false));
    assert_eq!(
        snapshot_json(Some(&runtime)),
        "{\"reenrollment_authorization_expires_at\":null,\"reenrollment_authorized\":false,\
         \"reenrollment_request_expires_at\":\"soon\",\"reenrollment_request_id\":null,\
         \"reenrollment_requested\":true}"
    );
}

#[test]
fn other_snapshots_have_no_flags() {
    let mut runtime = DirectoryRuntime::new();
    for text in [
        "",
        "no json",
        "[true]",
        "{\"reenrollment_requested\":\"true\"}",
        "{\"reenrollment_requested\":1,\"reenrollment_authorized\":null}",
    ] {
        store_directory_snapshot(&mut runtime, Some(text.to_owned()));
        assert_eq!(reenrollment_snapshot_flags(Some(&runtime)), (false, false));
    }
    store_directory_snapshot(
        &mut runtime,
        Some("{\"reenrollment_authorized\":true}".to_owned()),
    );
    assert_eq!(reenrollment_snapshot_flags(Some(&runtime)), (false, true));
}

#[test]
fn snapshots_are_stored_and_cleared() {
    let mut runtime = DirectoryRuntime::new();
    store_directory_snapshot(&mut runtime, Some("{}".to_owned()));
    assert_eq!(snapshot_json(Some(&runtime)), "{}");
    store_directory_snapshot(&mut runtime, None);
    assert_eq!(snapshot_json(Some(&runtime)), "{}");
    clear_directory_snapshot(&mut runtime);
    assert_eq!(snapshot_json(Some(&runtime)), "");
}
