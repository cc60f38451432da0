use rustdesk_managed::api_error::{DirectoryApiError, DirectoryApiErrorKind};
use rustdesk_managed::api_types::{
    DeviceMeResponse, DirectoryDevice, DirectoryIdentity, DirectoryResponse, EnrollmentDevice,
    EnrollmentResponse, EnrollmentStatusResponse, HeartbeatResponse, RelayLeaseResponse,
};
use rustdesk_managed::directory_state::{
    reenrollment_snapshot_flags, set_state, snapshot_json, DirectoryRuntime, DirectoryState,
};
use rustdesk_managed::persisted_auth::{PersistedDirectoryAuth, PersistedEnrollmentStatus};
use rustdesk_managed::schedule::{ApprovedSchedule, NANOS_PER_SECOND};
use rustdesk_managed::worker::{Expected, Worker, WorkerAction, WorkerEvent, WorkerStep};

const BASE: &str = "https://directory.example";
const START: u128 = 1_000 * NANOS_PER_SECOND;

fn worker() -> Worker {
    Worker::new(Some(BASE.to_owned()), None, START)
}

fn reading(runtime: &mut DirectoryRuntime) -> Worker {
    let mut worker = worker();
    let action = worker.advance(runtime, WorkerEvent::StateAbsent, START);
    assert!(matches!(action, WorkerAction::ReadState));
    worker
}

fn enrollment(status: PersistedEnrollmentStatus) -> PersistedDirectoryAuth {
    let approved = status == PersistedEnrollmentStatus::Approved;
    PersistedDirectoryAuth {
        version: 1,
        rustdesk_id: "123456789".to_owned(),
        device_public_key: "public-key".to_owned(),
        status,
        device_id: Some("device-1".to_owned()),
        enrollment_poll_token: Some("token-1".to_owned()),
        poll_expires_at: None,
        poll_after_seconds: None,
        device_credential: if approved { Some("credential-1".to_owned()) } else { None },
        credential_serial: if approved { Some("serial-1".to_owned()) } else { None },
    }
}

fn identity() -> DirectoryIdentity {
    DirectoryIdentity {
        rustdesk_id: "123456789".to_owned(),
        hostname: "host".to_owned(),
        friendly_name: "Front desk".to_owned(),
        contact_email: String::new(),
        device_public_key: "public-key".to_owned(),
        client_version: "1.4.0".to_owned(),
    }
}

fn status_answer(status: &str, poll_after_seconds: u64) -> EnrollmentStatusResponse {
    EnrollmentStatusResponse {
        device_id: "device-1".to_owned(),
        rustdesk_id: "123456789".to_owned(),
        hostname: "host".to_owned(),
        friendly_name: None,
        status: status.to_owned(),
        status_reason: None,
        status_changed_at: None,
        poll_expires_at: None,
        poll_after_seconds,
        credential: Some("credential-1".to_owned()),
        credential_serial: Some("serial-1".to_owned()),
        client_settings: None,
        reenrollment_requested: false,
        reenrollment_request_id: None,
        reenrollment_request_expires_at: None,
        reenrollment_authorized: false,
        reenrollment_authorization_expires_at: None,
    }
}

fn device_me(serial: &str) -> DeviceMeResponse {
    DeviceMeResponse {
        id: "device-1".to_owned(),
        rustdesk_id: "123456789".to_owned(),
        hostname: "host".to_owned(),
        friendly_name: None,
        status: "approved".to_owned(),
        credential_serial: serial.to_owned(),
        credential_issued_at: "then".to_owned(),
        credential_expires_at: None,
        instance_id: "instance".to_owned(),
    }
}

fn heartbeat(device_status: &str) -> HeartbeatResponse {
    HeartbeatResponse {
        status: "ok".to_owned(),
        server_time: "now".to_owned(),
        device_status: device_status.to_owned(),
        client_version: None,
        client_settings: None,
    }
}

fn beat(device_status: &str, debug_log_requested: bool) -> WorkerEvent {
    WorkerEvent::HeartbeatReceived { response: heartbeat(device_status), debug_log_requested }
}

fn lease(renew_after_seconds: u64) -> RelayLeaseResponse {
    RelayLeaseResponse {
        status: "authorized".to_owned(),
        lease_id: "lease".to_owned(),
        device_id: "device-1".to_owned(),
        credential_serial: "serial-1".to_owned(),
        source_ip: "192.0.2.1".to_owned(),
        issued_at: "now".to_owned(),
        expires_at: "later".to_owned(),
        renew_after_seconds,
        firewall_sync_after_seconds: 3,
        guard_mode: "enforced".to_owned(),
        rustdesk_server: "relay.example".to_owned(),
        guarded_tcp_ports: vec![21115],
        guarded_udp_ports: vec![],
    }
}

fn directory(refresh_seconds: u64) -> DirectoryResponse {
    let device = |id: &str| DirectoryDevice {
        id: id.to_owned(),
        rustdesk_id: "1".to_owned(),
        display_name: "name".to_owned(),
        hostname: "host".to_owned(),
        last_ip: None,
        last_seen_at: None,
        online: false,
    };
    DirectoryResponse {
        instance_id: "instance".to_owned(),
        generated_at: "now".to_owned(),
        refresh_seconds,
        devices: vec![device("device-2"), device(" device-1 "), device("device-3")],
        client_settings: None,
        server_stats: None,
    }
}

fn error(kind: DirectoryApiErrorKind) -> DirectoryApiError {
    DirectoryApiError {
        operation: "an operation",
        kind,
        status: None,
        retry_after_seconds: None,
    }
}

fn slept_for(action: &WorkerAction) -> Option<u128> {
    match action {
        WorkerAction::Sleep(nanos) => {
            assert_eq!(nanos % NANOS_PER_SECOND, 0);
            Some(nanos / NANOS_PER_SECOND)
        }
        _ => None,
    }
}

fn upload_forced(action: &WorkerAction) -> Option<bool> {
    match action {
        WorkerAction::UploadLog { credential, force } => {
            assert_eq!(credential, "credential-1");
            Some(*force)
        }
        _ => None,
    }
}

fn sent(action: &WorkerAction) -> Option<(String, Expected)> {
    match action {
        WorkerAction::Send(request, expected) => Some((request.url.clone(), *expected)),
        _ => None,
    }
}

#[test]
fn restoring_follows_the_stored_status() {
    for (status, state) in [
        (PersistedEnrollmentStatus::Approved, DirectoryState::Unavailable),
        (PersistedEnrollmentStatus::Revoked, DirectoryState::Revoked),
    ] {
        let mut runtime = DirectoryRuntime::new();
        let mut worker = worker();
        let action =
            worker.advance(&mut runtime, WorkerEvent::StateFound(enrollment(status)), START);
        assert!(matches!(action, WorkerAction::ReadState));
        assert!(matches!(worker.step, WorkerStep::Reading));
        assert_eq!(runtime.state, state);
    }
    let mut runtime = DirectoryRuntime::new();
    let mut worker = worker();
    let action = worker.advance(&mut runtime, WorkerEvent::StateUnreadable, START);
    assert!(matches!(action, WorkerAction::Stop));
    let action = worker.advance(&mut runtime, WorkerEvent::Slept, START);
    assert!(matches!(action, WorkerAction::OutOfTurn));
}

#[test]
fn worker_without_a_directory_only_sleeps() {
    let mut runtime = DirectoryRuntime::new();
    let mut worker = Worker::new(None, None, START);
    let action = worker.advance(&mut runtime, WorkerEvent::StateAbsent, START);
    assert_eq!(slept_for(&action), Some(300));
    assert_eq!(runtime.state, DirectoryState::NotEnrolled);
    let action = worker.advance(&mut runtime, WorkerEvent::Slept, START);
    assert_eq!(slept_for(&action), Some(300));
    assert!(matches!(worker.step, WorkerStep::Unconfigured));
}

#[test]
fn nothing_to_read_makes_the_worker_rest() {
    let mut runtime = DirectoryRuntime::new();
    let mut worker = reading(&mut runtime);
    let action = worker.advance(&mut runtime, WorkerEvent::StateAbsent, START);
    assert_eq!(slept_for(&action), Some(5));
    let action = worker.advance(&mut runtime, WorkerEvent::Slept, START);
    assert!(matches!(action, WorkerAction::ReadState));
    let action = worker.advance(&mut runtime, WorkerEvent::StateUnreadable, START);
    assert_eq!(slept_for(&action), Some(300));
    assert_eq!(runtime.state, DirectoryState::Unavailable);
    worker.advance(&mut runtime, WorkerEvent::Slept, START);
    worker.consecutive_failures = 3;
    let action = worker.advance(
        &mut runtime,
        WorkerEvent::StateFound(enrollment(PersistedEnrollmentStatus::NotEnrolled)),
        START,
    );
    assert_eq!(slept_for(&action), Some(5));
    assert_eq!(worker.consecutive_failures, 0);
    assert_eq!(runtime.state, DirectoryState::NotEnrolled);
}

fn pending_worker(runtime: &mut DirectoryRuntime) -> Worker {
    let mut worker = reading(runtime);
    let action = worker.advance(
        runtime,
        WorkerEvent::StateFound(enrollment(PersistedEnrollmentStatus::Pending)),
        START,
    );
    assert_eq!(
        sent(&action),
        Some(("https://directory.example/v1/enrollment/status".to_owned(), Expected::Status))
    );
    worker
}

#[test]
fn pending_enrollment_is_polled() {
    for (status, poll, state, rest) in [
        ("pending", 40, DirectoryState::Pending, 40),
        ("pending", 0, DirectoryState::Pending, 1),
        ("approved", 40, DirectoryState::Unavailable, 1),
        ("denied", 40, DirectoryState::Denied, 300),
    ] {
        let mut runtime = DirectoryRuntime::new();
        let mut worker = pending_worker(&mut runtime);
        worker.consecutive_failures = 2;
        let action = worker.advance(
            &mut runtime,
            WorkerEvent::StatusReceived(status_answer(status, poll)),
            START,
        );
        match action {
            WorkerAction::WriteState(written) => {
                assert_eq!(written.device_id.as_deref(), Some("device-1"));
                assert_eq!(written.enrollment_poll_token.as_deref(), Some("token-1"));
            }
            _ => panic!(),
        }
        let action = worker.advance(&mut runtime, WorkerEvent::Written, START);
        assert_eq!(slept_for(&action), Some(rest));
        assert_eq!(runtime.state, state);
        assert_eq!(worker.consecutive_failures, 0);
    }
}

#[test]
fn pending_failures_make_the_directory_unavailable() {
    let mut runtime = DirectoryRuntime::new();
    let mut worker = pending_worker(&mut runtime);
    let action = worker.advance(
        &mut runtime,
        WorkerEvent::RequestFailed(error(DirectoryApiErrorKind::Server)),
        START,
    );
    assert_eq!(slept_for(&action), Some(5));
    assert_eq!(worker.consecutive_failures, 1);
    assert_eq!(runtime.state, DirectoryState::Unavailable);

    let mut worker = pending_worker(&mut runtime);
    let action = worker.advance(
        &mut runtime,
        WorkerEvent::StatusReceived(status_answer("odd", 1)),
        START,
    );
    assert_eq!(slept_for(&action), Some(300));
    assert_eq!(reenrollment_snapshot_flags(Some(&runtime)), (false, false));
    assert_ne!(snapshot_json(Some(&runtime)), "");

    let mut worker = pending_worker(&mut runtime);
    worker.advance(
        &mut runtime,
        WorkerEvent::StatusReceived(status_answer("pending", 1)),
        START,
    );
    let action = worker.advance(&mut runtime, WorkerEvent::WriteFailed, START);
    assert_eq!(slept_for(&action), Some(300));
    assert_eq!(runtime.state, DirectoryState::Unavailable);

    // Without its continuity identity the device cannot even ask.
    let mut worker = reading(&mut runtime);
    let mut bare = enrollment(PersistedEnrollmentStatus::Pending);
    bare.device_id = None;
    let action = worker.advance(&mut runtime, WorkerEvent::StateFound(bare), START);
    assert_eq!(slept_for(&action), Some(300));
}

fn terminal_worker(runtime: &mut DirectoryRuntime) -> Worker {
    let mut worker = reading(runtime);
    let action = worker.advance(
        runtime,
        WorkerEvent::StateFound(enrollment(PersistedEnrollmentStatus::Blocked)),
        START,
    );
    assert!(sent(&action).is_some());
    worker
}

#[test]
fn turned_away_device_looks_at_its_status() {
    for (poll, rest) in [(1, 5), (12, 12), (900, 30)] {
        let mut runtime = DirectoryRuntime::new();
        let mut worker = terminal_worker(&mut runtime);
        let action = worker.advance(
            &mut runtime,
            WorkerEvent::StatusReceived(status_answer("blocked", poll)),
            START,
        );
        assert!(matches!(action, WorkerAction::WriteState(_)));
        let action = worker.advance(&mut runtime, WorkerEvent::Written, START);
        assert_eq!(slept_for(&action), Some(rest));
        assert_eq!(runtime.state, DirectoryState::Blocked);
    }

    let mut runtime = DirectoryRuntime::new();
    let mut worker = terminal_worker(&mut runtime);
    let action = worker.advance(
        &mut runtime,
        WorkerEvent::RequestFailed(error(DirectoryApiErrorKind::Forbidden)),
        START,
    );
    assert_eq!(slept_for(&action), Some(30));
    assert_eq!(runtime.state, DirectoryState::Blocked);

    let mut worker = terminal_worker(&mut runtime);
    let action = worker.advance(
        &mut runtime,
        WorkerEvent::StatusReceived(status_answer("odd", 1)),
        START,
    );
    assert_eq!(slept_for(&action), Some(5));
    assert_eq!(runtime.state, DirectoryState::Unavailable);

    let mut worker = terminal_worker(&mut runtime);
    worker.advance(
        &mut runtime,
        WorkerEvent::StatusReceived(status_answer("revoked", 1)),
        START,
    );
    let action = worker.advance(&mut runtime, WorkerEvent::WriteFailed, START);
    assert_eq!(slept_for(&action), Some(5));
}

fn authorized_worker(runtime: &mut DirectoryRuntime) -> Worker {
    let mut worker = terminal_worker(runtime);
    let mut answer = status_answer("blocked", 1);
    answer.reenrollment_authorized = true;
    worker.advance(runtime, WorkerEvent::StatusReceived(answer), START);
    let action = worker.advance(runtime, WorkerEvent::Written, START);
    assert!(matches!(action, WorkerAction::ReadIdentity));
    worker
}

fn enrollment_answer() -> EnrollmentResponse {
    EnrollmentResponse {
        result: "accepted_pending".to_owned(),
        device: EnrollmentDevice {
            id: "device-1".to_owned(),
            rustdesk_id: "123456789".to_owned(),
            hostname: "host".to_owned(),
            friendly_name: Some("Front desk".to_owned()),
            status: "pending".to_owned(),
            created_at: "now".to_owned(),
        },
        poll_token: "token-2".to_owned(),
        poll_expires_at: "later".to_owned(),
        poll_after_seconds: 20,
    }
}

#[test]
fn authorized_reenrollment_is_completed() {
    let mut runtime = DirectoryRuntime::new();
    let mut worker = authorized_worker(&mut runtime);
    assert_eq!(reenrollment_snapshot_flags(Some(&runtime)), (false, true));
    let action = worker.advance(&mut runtime, WorkerEvent::IdentityFound(identity()), START);
    assert_eq!(
        sent(&action),
        Some(("https://directory.example/v1/enrollment/reenroll".to_owned(), Expected::Enrollment))
    );
    let action = worker.advance(
        &mut runtime,
        WorkerEvent::EnrollmentReceived(enrollment_answer()),
        START,
    );
    match action {
        WorkerAction::WriteState(written) => {
            assert_eq!(written.status, PersistedEnrollmentStatus::Pending);
            assert_eq!(written.enrollment_poll_token.as_deref(), Some("token-2"));
        }
        _ => panic!(),
    }
    let action = worker.advance(&mut runtime, WorkerEvent::Written, START);
    assert_eq!(slept_for(&action), Some(1));
    assert_eq!(runtime.state, DirectoryState::Pending);
    assert_eq!(snapshot_json(Some(&runtime)), "");
}

#[test]
fn reenrollment_that_fails_is_tried_again() {
    let mut runtime = DirectoryRuntime::new();
    let mut worker = authorized_worker(&mut runtime);
    let action = worker.advance(&mut runtime, WorkerEvent::IdentityUnavailable, START);
    assert_eq!(slept_for(&action), Some(15));

    let mut worker = authorized_worker(&mut runtime);
    worker.advance(&mut runtime, WorkerEvent::IdentityFound(identity()), START);
    let action = worker.advance(
        &mut runtime,
        WorkerEvent::RequestFailed(error(DirectoryApiErrorKind::Conflict)),
        START,
    );
    assert_eq!(slept_for(&action), Some(30));

    let mut worker = authorized_worker(&mut runtime);
    worker.advance(&mut runtime, WorkerEvent::IdentityFound(identity()), START);
    let mut odd = enrollment_answer();
    odd.result = "odd".to_owned();
    let action = worker.advance(&mut runtime, WorkerEvent::EnrollmentReceived(odd), START);
    assert_eq!(slept_for(&action), Some(15));

    let mut worker = authorized_worker(&mut runtime);
    worker.advance(&mut runtime, WorkerEvent::IdentityFound(identity()), START);
    worker.advance(&mut runtime, WorkerEvent::EnrollmentReceived(enrollment_answer()), START);
    let action = worker.advance(&mut runtime, WorkerEvent::WriteFailed, START);
    assert_eq!(slept_for(&action), Some(15));
    assert_eq!(runtime.state, DirectoryState::Blocked);
}

fn approved_worker(runtime: &mut DirectoryRuntime) -> Worker {
    let mut worker = reading(runtime);
    set_state(runtime, DirectoryState::Unavailable);
    let action = worker.advance(
        runtime,
        WorkerEvent::StateFound(enrollment(PersistedEnrollmentStatus::Approved)),
        START,
    );
    assert!(matches!(action, WorkerAction::ReadIdentity));
    let action = worker.advance(runtime, WorkerEvent::IdentityFound(identity()), START);
    assert_eq!(
        sent(&action),
        Some(("https://directory.example/v1/device/me".to_owned(), Expected::DeviceMe))
    );
    worker
}

#[test]
fn approved_cycle_does_everything_that_is_due() {
    let mut runtime = DirectoryRuntime::new();
    let mut worker = approved_worker(&mut runtime);
    let action =
        worker.advance(&mut runtime, WorkerEvent::DeviceMeReceived(device_me("serial-1")), START);
    assert_eq!(runtime.state, DirectoryState::Ready);
    assert_eq!(
        sent(&action),
        Some(("https://directory.example/v1/device/heartbeat".to_owned(), Expected::Heartbeat))
    );
    let action = worker.advance(&mut runtime, beat("approved", true), START);
    assert_eq!(
        sent(&action),
        Some(("https://directory.example/v1/directory".to_owned(), Expected::Directory))
    );
    let action = worker.advance(&mut runtime, WorkerEvent::DirectoryReceived(directory(7)), START);
    match action {
        WorkerAction::SerializeDirectory(shown) => {
            assert_eq!(shown.refresh_seconds, 7);
            let ids: Vec<&str> = shown.devices.iter().map(|device| device.id.as_str()).collect();
            assert_eq!(ids, vec!["device-2", "device-3"]);
        }
        _ => panic!(),
    }
    let action = worker.advance(
        &mut runtime,
        WorkerEvent::DirectorySerialized(Some("{\"shown\":1}".to_owned())),
        START,
    );
    assert_eq!(snapshot_json(Some(&runtime)), "{\"shown\":1}");
    assert_eq!(
        sent(&action),
        Some(("https://directory.example/v1/device/relay-lease".to_owned(), Expected::RelayLease))
    );
    let action = worker.advance(&mut runtime, WorkerEvent::RelayLeaseReceived(lease(240)), START);
    assert_eq!(upload_forced(&action), Some(true));
    assert_eq!(runtime.state, DirectoryState::Ready);
    let action = worker.advance(
        &mut runtime,
        WorkerEvent::LogUploadTried,
        START + 2 * NANOS_PER_SECOND,
    );
    assert_eq!(slept_for(&action), Some(5));
    assert_eq!(runtime.state, DirectoryState::Ready);
    assert_eq!(
        worker.schedule,
        ApprovedSchedule {
            next_heartbeat: START + 15 * NANOS_PER_SECOND,
            next_directory: START + 7 * NANOS_PER_SECOND,
            next_relay_lease: START + 240 * NANOS_PER_SECOND,
        }
    );

    // After the rest only the directory is due, and the credential is confirmed already.
    let later = START + 7 * NANOS_PER_SECOND;
    worker.advance(&mut runtime, WorkerEvent::Slept, later);
    worker.advance(
        &mut runtime,
        WorkerEvent::StateFound(enrollment(PersistedEnrollmentStatus::Approved)),
        later,
    );
    let action = worker.advance(&mut runtime, WorkerEvent::IdentityFound(identity()), later);
    assert_eq!(sent(&action).unwrap().1, Expected::Directory);
    let action = worker.advance(&mut runtime, WorkerEvent::DirectoryReceived(directory(0)), later);
    assert!(matches!(action, WorkerAction::SerializeDirectory(_)));
    let action = worker.advance(&mut runtime, WorkerEvent::DirectorySerialized(None), later);
    assert_eq!(upload_forced(&action), Some(true));
    let action = worker.advance(&mut runtime, WorkerEvent::LogUploadTried, later);
    assert_eq!(slept_for(&action), Some(8));
    assert_eq!(snapshot_json(Some(&runtime)), "{\"shown\":1}");
}

#[test]
fn request_for_a_log_stands_until_the_next_heartbeat() {
    let mut runtime = DirectoryRuntime::new();
    let mut worker = approved_worker(&mut runtime);
    worker.advance(&mut runtime, WorkerEvent::DeviceMeReceived(device_me("serial-1")), START);
    worker.advance(&mut runtime, beat("approved", true), START);
    assert!(worker.log_requested);
    let failure = WorkerEvent::RequestFailed(error(DirectoryApiErrorKind::Timeout));
    worker.advance(&mut runtime, failure, START);
    assert!(worker.log_requested);

    // Nothing is due again, and the device is Ready: the log is still asked for.
    set_state(&mut runtime, DirectoryState::Ready);
    worker.schedule.next_directory = START + 60 * NANOS_PER_SECOND;
    worker.schedule.next_relay_lease = START + 60 * NANOS_PER_SECOND;
    for (now, force) in [(START, true), (START + 15 * NANOS_PER_SECOND, false)] {
        worker.advance(&mut runtime, WorkerEvent::Slept, now);
        worker.advance(
            &mut runtime,
            WorkerEvent::StateFound(enrollment(PersistedEnrollmentStatus::Approved)),
            now,
        );
        let mut action =
            worker.advance(&mut runtime, WorkerEvent::IdentityFound(identity()), now);
        if !force {
            assert_eq!(sent(&action).unwrap().1, Expected::Heartbeat);
            action = worker.advance(&mut runtime, beat("approved", false), now);
        }
        assert_eq!(upload_forced(&action), Some(force));
        let action = worker.advance(&mut runtime, WorkerEvent::LogUploadTried, now);
        assert_eq!(slept_for(&action), Some(15));
    }
}

#[test]
fn without_a_credential_no_log_is_uploaded() {
    let mut runtime = DirectoryRuntime::new();
    let mut worker = reading(&mut runtime);
    set_state(&mut runtime, DirectoryState::Ready);
    worker.schedule = ApprovedSchedule {
        next_heartbeat: START + 9 * NANOS_PER_SECOND,
        next_directory: START + 9 * NANOS_PER_SECOND,
        next_relay_lease: START + 9 * NANOS_PER_SECOND,
    };
    let mut bare = enrollment(PersistedEnrollmentStatus::Approved);
    bare.device_credential = None;
    worker.advance(&mut runtime, WorkerEvent::StateFound(bare), START);
    let action = worker.advance(&mut runtime, WorkerEvent::IdentityFound(identity()), START);
    assert_eq!(slept_for(&action), Some(9));
}

#[test]
fn leases_can_be_issued_elsewhere() {
    let mut runtime = DirectoryRuntime::new();
    let mut worker = Worker::new(
        Some(BASE.to_owned()),
        Some("https://relay.example".to_owned()),
        START,
    );
    worker.advance(&mut runtime, WorkerEvent::StateAbsent, START);
    set_state(&mut runtime, DirectoryState::Ready);
    worker.schedule.next_heartbeat = START + 1;
    worker.schedule.next_directory = START + 1;
    worker.advance(
        &mut runtime,
        WorkerEvent::StateFound(enrollment(PersistedEnrollmentStatus::Approved)),
        START,
    );
    let action = worker.advance(&mut runtime, WorkerEvent::IdentityFound(identity()), START);
    assert_eq!(
        sent(&action),
        Some(("https://relay.example/v1/device/relay-lease".to_owned(), Expected::RelayLease))
    );
}

#[test]
fn approved_answers_that_are_not_taken_end_the_cycle() {
    let mut runtime = DirectoryRuntime::new();
    let mut worker = approved_worker(&mut runtime);
    let action =
        worker.advance(&mut runtime, WorkerEvent::DeviceMeReceived(device_me("serial-2")), START);
    assert_eq!(slept_for(&action), Some(300));
    assert_eq!(runtime.state, DirectoryState::Unavailable);

    let mut worker = approved_worker(&mut runtime);
    worker.advance(&mut runtime, WorkerEvent::DeviceMeReceived(device_me("serial-1")), START);
    let action = worker.advance(&mut runtime, beat("blocked", true), START);
    assert_eq!(slept_for(&action), Some(300));
    assert_eq!(runtime.state, DirectoryState::Unavailable);

    let mut worker = approved_worker(&mut runtime);
    worker.advance(&mut runtime, WorkerEvent::DeviceMeReceived(device_me("serial-1")), START);
    worker.advance(&mut runtime, beat("approved", false), START);
    worker.advance(&mut runtime, WorkerEvent::DirectoryReceived(directory(9)), START);
    worker.advance(&mut runtime, WorkerEvent::DirectorySerialized(None), START);
    let action = worker.advance(&mut runtime, WorkerEvent::RelayLeaseReceived(lease(0)), START);
    assert_eq!(slept_for(&action), Some(300));
    assert_eq!(runtime.state, DirectoryState::Unavailable);

    let mut worker = approved_worker(&mut runtime);
    let action = worker.advance(
        &mut runtime,
        WorkerEvent::RequestFailed(error(DirectoryApiErrorKind::Timeout)),
        START,
    );
    assert_eq!(slept_for(&action), Some(5));
    assert_eq!(worker.consecutive_failures, 1);
}

#[test]
fn approved_device_needs_its_identity() {
    let mut runtime = DirectoryRuntime::new();
    let mut worker = reading(&mut runtime);
    worker.advance(
        &mut runtime,
        WorkerEvent::StateFound(enrollment(PersistedEnrollmentStatus::Approved)),
        START,
    );
    let action = worker.advance(&mut runtime, WorkerEvent::IdentityUnavailable, START);
    assert_eq!(slept_for(&action), Some(300));
    assert_eq!(runtime.state, DirectoryState::Unavailable);
}

fn resolving_worker(runtime: &mut DirectoryRuntime) -> Worker {
    let mut worker = approved_worker(runtime);
    let action = worker.advance(
        runtime,
        WorkerEvent::RequestFailed(error(DirectoryApiErrorKind::Unauthorized)),
        START,
    );
    assert!(matches!(action, WorkerAction::ReadState));
    assert_eq!(runtime.state, DirectoryState::Unavailable);
    worker.consecutive_failures = 2;
    let action = worker.advance(
        runtime,
        WorkerEvent::StateFound(enrollment(PersistedEnrollmentStatus::Approved)),
        START,
    );
    assert_eq!(sent(&action).unwrap().1, Expected::Status);
    worker
}

#[test]
fn rejected_credential_is_not_taken_up_again() {
    let mut runtime = DirectoryRuntime::new();
    let mut worker = resolving_worker(&mut runtime);
    let action = worker.advance(
        &mut runtime,
        WorkerEvent::StatusReceived(status_answer("approved", 1)),
        START,
    );
    assert_eq!(slept_for(&action), Some(30));
    assert_eq!(runtime.state, DirectoryState::Unavailable);
    assert_eq!(worker.consecutive_failures, 0);
}

#[test]
fn replaced_credential_is_stored() {
    for (event, rest) in [(WorkerEvent::Written, 1), (WorkerEvent::WriteFailed, 30)] {
        let mut runtime = DirectoryRuntime::new();
        let mut worker = resolving_worker(&mut runtime);
        let mut answer = status_answer("approved", 1);
        answer.credential = Some("credential-2".to_owned());
        let action = worker.advance(&mut runtime, WorkerEvent::StatusReceived(answer), START);
        match action {
            WorkerAction::WriteState(written) => {
                assert_eq!(written.device_credential.as_deref(), Some("credential-2"));
            }
            _ => panic!(),
        }
        let action = worker.advance(&mut runtime, event, START);
        assert_eq!(slept_for(&action), Some(rest));
        assert_eq!(runtime.state, DirectoryState::Unavailable);
        assert_eq!(worker.consecutive_failures, 0);
    }
}

#[test]
fn refusal_behind_a_rejected_credential_is_stored() {
    let mut runtime = DirectoryRuntime::new();
    let mut worker = resolving_worker(&mut runtime);
    let action = worker.advance(
        &mut runtime,
        WorkerEvent::StatusReceived(status_answer("revoked", 1)),
        START,
    );
    assert!(matches!(action, WorkerAction::WriteState(_)));
    let action = worker.advance(&mut runtime, WorkerEvent::Written, START);
    assert_eq!(slept_for(&action), Some(300));
    assert_eq!(runtime.state, DirectoryState::Revoked);

    let mut worker = resolving_worker(&mut runtime);
    worker.advance(
        &mut runtime,
        WorkerEvent::StatusReceived(status_answer("denied", 1)),
        START,
    );
    let action = worker.advance(&mut runtime, WorkerEvent::WriteFailed, START);
    assert_eq!(slept_for(&action), Some(300));
    assert_eq!(runtime.state, DirectoryState::Unavailable);
}

#[test]
fn resolving_rests_where_nothing_helps() {
    let mut runtime = DirectoryRuntime::new();
    for (event, rest) in [
        (WorkerEvent::StatusReceived(status_answer("pending", 1)), 300),
        (WorkerEvent::StatusReceived(status_answer("odd", 1)), 300),
        (WorkerEvent::RequestFailed(error(DirectoryApiErrorKind::Server)), 20),
    ] {
        let mut worker = resolving_worker(&mut runtime);
        let action = worker.advance(&mut runtime, event, START);
        assert_eq!(slept_for(&action), Some(rest));
        assert_eq!(runtime.state, DirectoryState::Unavailable);
    }
    for event in [WorkerEvent::StateAbsent, WorkerEvent::StateUnreadable] {
        let mut worker = approved_worker(&mut runtime);
        worker.advance(
            &mut runtime,
            WorkerEvent::RequestFailed(error(DirectoryApiErrorKind::Forbidden)),
            START,
        );
        let action = worker.advance(&mut runtime, event, START);
        assert_eq!(slept_for(&action), Some(300));
    }
}

#[test]
fn events_out_of_turn_change_nothing() {
    let mut runtime = DirectoryRuntime::new();
    let mut worker = pending_worker(&mut runtime);
    let action = worker.advance(&mut runtime, WorkerEvent::Slept, START);
    assert!(matches!(action, WorkerAction::OutOfTurn));
    let action = worker.advance(&mut runtime, WorkerEvent::Written, START);
    assert!(matches!(action, WorkerAction::OutOfTurn));
    assert!(matches!(worker.step, WorkerStep::PendingStatus(_)));
    let action = worker.advance(
        &mut runtime,
        WorkerEvent::StatusReceived(status_answer("pending", 3)),
        START,
    );
    assert!(matches!(action, WorkerAction::WriteState(_)));
}

#[test]
fn answers_have_operations() {
    for (expected, operation) in [
        (Expected::Status, "directory enrollment status"),
        (Expected::Enrollment, "directory re-enrollment recovery"),
        (Expected::DeviceMe, "directory device identity"),
        (Expected::Heartbeat, "directory heartbeat"),
        (Expected::Directory, "directory download"),
        (Expected::RelayLease, "directory relay lease"),
    ] {
        assert_eq!(expected.operation(), operation);
    }
}

#[test]
fn schedule_waits_for_the_first_thing() {
    let second = NANOS_PER_SECOND;
    let schedule = ApprovedSchedule {
        next_heartbeat: 30 * second,
        next_directory: 20 * second,
        next_relay_lease: 25 * second,
    };
    assert_eq!(schedule.next_delay(5 * second), 15 * second);
    assert_eq!(schedule.next_delay(19 * second + 1), second);
    assert_eq!(schedule.next_delay(100 * second), second);
    assert_eq!(
        ApprovedSchedule { next_relay_lease: 6 * second, ..schedule }.next_delay(0),
        6 * second
    );
    assert_eq!(ApprovedSchedule::due_now(9).next_delay(9), second);
}
