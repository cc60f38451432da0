use rustdesk_managed::debug_log::{
    counts_as_upload, find_active_log_file, gather_hardware_info, log_tail_start, read_log_tail,
    should_upload, system_drive_space, upload, upload_outcome, HardwareFacts, UploadAttempt,
    MAX_LOG_BYTES, MIN_UPLOAD_INTERVAL_NANOS,
};
use rustdesk_managed::local_input_guard::{
    local_mouse_has_priority, sample_text, HookOutcome, HookTerms, LocalInputGuard, MouseEvent,
};
use rustdesk_managed::requests::HttpMethod;
use rustdesk_managed::state_file::{
    input_blob_length, next_write_action, require_blob_output, temporary_file_name,
    write_failure_text, Protection, ProtectionError, WriteAction, WriteStep, FIRST_WRITE_STEP,
};

const TERMS: HookTerms = HookTerms { action_code: 0, move_message: 0x200, injected_marker: 100 };

const LOCAL: MouseEvent = MouseEvent { code: 0, message: 0x200, extra_info: 0 };

#[test]
fn only_a_sent_log_counts_as_an_upload() {
    assert!(counts_as_upload(UploadAttempt::Sent));
    assert!(!counts_as_upload(UploadAttempt::NothingToSend));
    assert!(!counts_as_upload(UploadAttempt::Failed));
}

#[test]
fn uploads_are_daily() {
    assert!(should_upload(true, Some(0)));
    assert!(should_upload(false, None));
    assert!(!should_upload(false, Some(MIN_UPLOAD_INTERVAL_NANOS - 1)));
    assert!(should_upload(false, Some(MIN_UPLOAD_INTERVAL_NANOS)));
    assert_eq!(MIN_UPLOAD_INTERVAL_NANOS, 24 * 3600 * 1_000_000_000);
    assert_eq!(MAX_LOG_BYTES, 2 * 1024 * 1024);
}

#[test]
fn log_that_was_written_last_is_taken() {
    assert_eq!(find_active_log_file(&vec![]), None);
    assert_eq!(find_active_log_file(&vec![-5]), Some(0));
    assert_eq!(find_active_log_file(&vec![3, 9, 1, 9, 2]), Some(3));
}

#[test]
fn logs_are_cut_at_their_start() {
    assert_eq!(log_tail_start(10, 20), 0);
    assert_eq!(log_tail_start(20, 20), 0);
    assert_eq!(log_tail_start(25, 20), 5);
}

#[test]
fn tail_of_a_log_is_read_as_text() {
    let log = "ab\u{e9}cd".as_bytes();
    assert_eq!(log.len(), 6);
    assert_eq!(read_log_tail(log, 0, 6, 6), "ab\u{e9}cd");
    assert_eq!(read_log_tail(log, 0, 6, 100), "ab\u{e9}cd");
    assert_eq!(read_log_tail(log, 0, 6, 4), "\u{e9}cd");
    // The tail begins in the middle of a character.
    assert_eq!(read_log_tail(log, 0, 6, 3), "\u{fffd}cd");
    assert_eq!(read_log_tail(&log[3..], 3, 6, 3), "\u{fffd}cd");
    assert_eq!(read_log_tail(b"x\xff\xfey", 0, 4, 4), "x\u{fffd}\u{fffd}y");
    assert_eq!(read_log_tail(log, 0, 6, 0), "");
    // The log has grown, or was cut, since its length was taken.
    assert_eq!(read_log_tail(log, 0, 4, 2), "\u{e9}cd");
    assert_eq!(read_log_tail(b"ab", 0, 6, 2), "");
}

#[test]
fn system_drive_is_found_in_any_case() {
    let mounts = vec!["D:\\".to_owned(), "c:\\".to_owned(), "C:\\".to_owned()];
    assert_eq!(system_drive_space(&mounts, "C:"), Some(1));
    assert_eq!(system_drive_space(&mounts, "E:"), None);
    assert_eq!(system_drive_space(&mounts, "C:\\"), None);
}

fn facts() -> HardwareFacts {
    HardwareFacts {
        architecture: "x86_64".to_owned(),
        client_reported_time: "now".to_owned(),
        managed_build_number: 12,
        pending_managed_update: Some((13, "1.5".to_owned())),
        manufacturer: Some("Maker".to_owned()),
        model: None,
        uptime_seconds: Some(99),
        system_drive: Some((1000, 10)),
    }
}

#[test]
fn hardware_facts_are_added() {
    let mut system = serde_json::Map::new();
    system.insert("cpu".to_owned(), serde_json::Value::from(2.5));
    let info = gather_hardware_info(system.clone(), &facts());
    assert_eq!(
        serde_json::Value::Object(info).to_string(),
        "{\"architecture\":\"x86_64\",\"client_reported_time\":\"now\",\"cpu\":2.5,\
         \"managed_build_number\":12,\"manufacturer\":\"Maker\",\
         \"pending_managed_update\":{\"build_number\":13,\"version\":\"1.5\"},\
         \"system_drive_available_bytes\":10,\"system_drive_total_bytes\":1000,\
         \"uptime_seconds\":99}"
    );
    let bare = HardwareFacts {
        pending_managed_update: None,
        manufacturer: None,
        uptime_seconds: None,
        system_drive: None,
        ..facts()
    };
    let info = gather_hardware_info(system, &bare);
    assert_eq!(info.len(), 5);
    assert_eq!(info["pending_managed_update"], serde_json::Value::Null);
}

#[test]
fn logs_are_sent_with_their_trace() {
    let info = serde_json::Map::new;
    let send = |log: Option<&str>, diag| {
        upload(
            "https://directory.example/",
            "cred",
            "1.4.0",
            log.map(|text| text.to_owned()),
            diag,
            info(),
        )
    };
    assert!(send(None, Some("trace")).is_none());
    assert!(send(Some(" \n"), Some("trace")).is_none());
    let request = send(Some("log"), Some("trace")).unwrap();
    assert_eq!(request.method, HttpMethod::Post);
    assert_eq!(request.url, "https://directory.example/v1/device/log-upload");
    assert_eq!(request.bearer.as_deref(), Some("cred"));
    let body: serde_json::Value = serde_json::from_str(&request.body.unwrap()).unwrap();
    assert_eq!(
        body["log_content"],
        "log\n\n=== Ctrl+Alt+Del / SAS / watchdog diagnostic trace \
         (C:\\ProgramData\\rustdesk-ctrlaltdel-diag.txt) ===\ntrace"
    );
    assert_eq!(body["client_version"], "1.4.0");
    assert!(body["hardware_info"].as_object().unwrap().is_empty());
    for diag in [None, Some("  ")] {
        let request = send(Some("log"), diag).unwrap();
        assert_eq!(
            request.body.as_deref(),
            Some("{\"log_content\":\"log\",\"client_version\":\"1.4.0\",\"hardware_info\":{}}")
        );
    }
    assert_eq!(upload_outcome(200, "200 OK"), Ok(()));
    assert_eq!(
        upload_outcome(413, "413 Payload Too Large"),
        Err("debug log upload failed: HTTP 413 Payload Too Large".to_owned())
    );
}

#[test]
fn only_local_movements_count() {
    let mut guard = LocalInputGuard::new();
    assert_eq!(guard.priority_window_ms, 250);
    for event in [
        MouseEvent { code: 1, ..LOCAL },
        MouseEvent { message: 0x201, ..LOCAL },
        MouseEvent { extra_info: 100, ..LOCAL },
    ] {
        assert_eq!(guard.mouse_hook(TERMS, event, 5), HookOutcome::Pass);
        assert_eq!(guard, LocalInputGuard::new());
    }
    assert_eq!(guard.mouse_hook(TERMS, LOCAL, 5), HookOutcome::Local { sampled: true });
    assert_eq!(guard.last_local_mouse_ms, 5);
    guard.sample_count = 39;
    assert_eq!(guard.mouse_hook(TERMS, LOCAL, 6), HookOutcome::Local { sampled: true });
    assert_eq!(guard.mouse_hook(TERMS, LOCAL, 7), HookOutcome::Local { sampled: false });
    guard.sample_count = u64::MAX;
    assert_eq!(guard.mouse_hook(TERMS, LOCAL, 8), HookOutcome::Local { sampled: false });
    assert_eq!(guard.sample_count, 0);
    assert_eq!(
        sample_text(7, 100, 42),
        "mouse_hook: counted as LOCAL, dwExtraInfo=7 expected_enigo_value=100 pid=42"
    );
}

#[test]
fn local_mouse_has_priority_for_a_while() {
    let mut guard = LocalInputGuard::new();
    guard.mouse_hook(TERMS, LOCAL, 1_000);
    assert!(!local_mouse_has_priority(&mut guard, 300, 1_000));
    guard.set_monitor_started(true);
    assert!(local_mouse_has_priority(&mut guard, 300, 1_299));
    assert!(!local_mouse_has_priority(&mut guard, 300, 1_300));
    // A clock that went back counts as no time.
    assert!(local_mouse_has_priority(&mut guard, 300, 10));
    assert_eq!(guard.priority_window_ms, 300);
    assert!(!local_mouse_has_priority(&mut guard, 0, 1_000));
    assert_eq!(guard.priority_window_ms, 1);
    let mut still = LocalInputGuard::new();
    still.set_monitor_started(true);
    assert!(!local_mouse_has_priority(&mut still, 300, 0));
}

#[test]
fn applied_priority_ends_with_the_window() {
    let mut guard = LocalInputGuard::new();
    guard.mouse_hook(TERMS, LOCAL, 1_000);
    assert_eq!(guard.priority_to_apply(1_249), Some(1_250));
    assert_eq!(guard.priority_to_apply(1_250), None);
    assert!(guard.local_mouse_has_priority_now(250, 1_249));
    assert!(!guard.local_mouse_has_priority_now(250, 1_250));
    guard.priority_window_ms = 0;
    assert_eq!(guard.priority_to_apply(1_000), Some(1_001));
    assert_eq!(guard.local_mouse_priority_until_ms(u64::MAX), u64::MAX);
}

#[test]
fn state_is_written_in_order() {
    let mut steps = vec![FIRST_WRITE_STEP];
    loop {
        match next_write_action(*steps.last().unwrap(), true) {
            WriteAction::Perform(step) => steps.push(step),
            WriteAction::Finish => break,
            WriteAction::Abandon => panic!(),
        }
    }
    assert_eq!(
        steps,
        vec![
            WriteStep::CreateTemporary,
            WriteStep::RestrictTemporary,
            WriteStep::WriteProtected,
            WriteStep::Flush,
            WriteStep::Replace,
            WriteStep::RestrictState,
        ]
    );
    for step in steps {
        assert_eq!(next_write_action(step, false), WriteAction::Abandon);
    }
}

#[test]
fn failed_steps_describe_themselves() {
    for (step, text) in [
        (
            WriteStep::CreateTemporary,
            "Failed to create protected directory state temporary file 'p': why",
        ),
        (
            WriteStep::WriteProtected,
            "Failed to write protected directory state temporary file 'p': why",
        ),
        (
            WriteStep::Flush,
            "Failed to flush protected directory state temporary file 'p': why",
        ),
        (
            WriteStep::Replace,
            "Failed to atomically replace protected directory state 'p': why",
        ),
        (WriteStep::RestrictTemporary, "why"),
        (WriteStep::RestrictState, "why"),
    ] {
        assert_eq!(write_failure_text(step, "p", "why"), text);
    }
    assert_eq!(
        temporary_file_name(42, 340282366920938463463374607431768211455),
        "directory_state.dpapi.42.340282366920938463463374607431768211455.tmp"
    );
}

#[test]
fn protection_needs_data() {
    assert_eq!(input_blob_length(Protection::Protect, b"abc"), Ok(3));
    let error = ProtectionError::EmptyInput(Protection::Protect);
    assert_eq!(input_blob_length(Protection::Protect, b""), Err(error));
    assert_eq!(error.text(), "DPAPI cannot protect an empty value");
    let error = ProtectionError::EmptyInput(Protection::Unprotect);
    assert_eq!(input_blob_length(Protection::Unprotect, b""), Err(error));
    assert_eq!(error.text(), "DPAPI cannot unprotect an empty value");
    assert_eq!(ProtectionError::InputTooLarge.text(), "DPAPI input is too large");
    assert_eq!(require_blob_output(Protection::Protect, true, 1), Ok(()));
    let error = ProtectionError::NoOutput(Protection::Protect);
    assert_eq!(require_blob_output(Protection::Protect, true, 0), Err(error));
    assert_eq!(error.text(), "CryptProtectData returned no protected data");
    let error = ProtectionError::NoOutput(Protection::Unprotect);
    assert_eq!(require_blob_output(Protection::Unprotect, false, 1), Err(error));
    assert_eq!(error.text(), "CryptUnprotectData returned no plaintext data");
}
