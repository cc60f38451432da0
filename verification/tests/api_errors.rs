use rustdesk_managed::api_error::{
    directory_api_error_is_transient, directory_retry_delay_seconds, require_success,
    worker_error_delay, DirectoryApiError, DirectoryApiErrorKind, DIRECTORY_IDLE_SECONDS,
};

fn of_kind(kind: DirectoryApiErrorKind) -> DirectoryApiError {
    DirectoryApiError {
        operation: "an operation",
        kind,
        status: None,
        retry_after_seconds: None,
    }
}

#[test]
fn statuses_are_classified() {
    for (status, kind) in [
        (401, DirectoryApiErrorKind::Unauthorized),
        (403, DirectoryApiErrorKind::Forbidden),
        (404, DirectoryApiErrorKind::NotFound),
        (409, DirectoryApiErrorKind::Conflict),
        (422, DirectoryApiErrorKind::Unprocessable),
        (429, DirectoryApiErrorKind::RateLimited),
        (500, DirectoryApiErrorKind::Server),
        (599, DirectoryApiErrorKind::Server),
        (600, DirectoryApiErrorKind::UnexpectedStatus),
        (204, DirectoryApiErrorKind::UnexpectedStatus),
        (418, DirectoryApiErrorKind::UnexpectedStatus),
    ] {
        let error = DirectoryApiError::from_http_response("an operation", status, None);
        assert_eq!(error.kind, kind);
        assert_eq!(error.status, Some(status));
        assert_eq!(error.retry_after_seconds, None);
    }
}

#[test]
fn retry_after_is_read_as_whole_seconds() {
    for (header, seconds) in [
        ("60", Some(60)),
        ("  7\t", Some(7)),
        ("+5", Some(5)),
        ("", None),
        ("+", None),
        ("-1", None),
        ("1.5", None),
        ("soon", None),
        ("18446744073709551615", Some(u64::MAX)),
        ("18446744073709551616", None),
        ("99999999999999999999999", None),
        ("0000000000000000000000012", Some(12)),
    ] {
        let error = DirectoryApiError::from_http_response("an operation", 429, Some(header));
        assert_eq!(error.retry_after_seconds, seconds);
    }
}

#[test]
fn errors_describe_themselves() {
    let with_retry = DirectoryApiError::from_http_response("directory download", 429, Some("9"));
    assert_eq!(
        with_retry.text(),
        "directory download failed with HTTP 429 (retry after 9 seconds)"
    );
    let without = DirectoryApiError::from_http_response("directory download", 503, None);
    assert_eq!(without.text(), "directory download failed with HTTP 503");

    for (kind, reason) in [
        (DirectoryApiErrorKind::Configuration, "configuration"),
        (DirectoryApiErrorKind::Timeout, "timeout"),
        (DirectoryApiErrorKind::Connection, "connection"),
        (DirectoryApiErrorKind::Transport, "transport"),
        (DirectoryApiErrorKind::InvalidResponse, "invalid response"),
        (DirectoryApiErrorKind::Unauthorized, "unauthorized"),
        (DirectoryApiErrorKind::Forbidden, "forbidden"),
        (DirectoryApiErrorKind::NotFound, "not found"),
        (DirectoryApiErrorKind::Conflict, "conflict"),
        (DirectoryApiErrorKind::Unprocessable, "unprocessable"),
        (DirectoryApiErrorKind::RateLimited, "rate limited"),
        (DirectoryApiErrorKind::Server, "server"),
        (DirectoryApiErrorKind::UnexpectedStatus, "unexpected status"),
    ] {
        assert_eq!(of_kind(kind).text(), format!("an operation failed ({})", reason));
    }
}

#[test]
fn requests_without_an_answer_are_classified() {
    let kind = |timed_out, not_connected| {
        DirectoryApiError::transport("an operation", timed_out, not_connected).kind
    };
    assert_eq!(kind(true, true), DirectoryApiErrorKind::Timeout);
    assert_eq!(kind(true, false), DirectoryApiErrorKind::Timeout);
    assert_eq!(kind(false, true), DirectoryApiErrorKind::Connection);
    assert_eq!(kind(false, false), DirectoryApiErrorKind::Transport);
    assert_eq!(
        DirectoryApiError::configuration("an operation").kind,
        DirectoryApiErrorKind::Configuration
    );
    assert_eq!(
        DirectoryApiError::invalid_response("an operation").kind,
        DirectoryApiErrorKind::InvalidResponse
    );
}

#[test]
fn only_the_status_of_success_is_success() {
    assert!(require_success("an operation", 200, None).is_ok());
    let error = require_success("an operation", 201, None).err().unwrap();
    assert_eq!(error.kind, DirectoryApiErrorKind::UnexpectedStatus);
    let error = require_success("an operation", 429, Some("3")).err().unwrap();
    assert_eq!(error.retry_after_seconds, Some(3));
}

#[test]
fn backoff_doubles_up_to_its_maximum() {
    let error = of_kind(DirectoryApiErrorKind::Timeout);
    let delays: Vec<u64> = (0..9)
        .map(|failures| directory_retry_delay_seconds(&error, failures).unwrap())
        .collect();
    assert_eq!(delays, vec![5, 10, 20, 30, 30, 30, 30, 30, 30]);
    assert_eq!(directory_retry_delay_seconds(&error, u32::MAX), Some(30));
}

#[test]
fn rate_limits_are_waited_for() {
    let asked = DirectoryApiError::from_http_response("an operation", 429, Some("0"));
    assert_eq!(directory_retry_delay_seconds(&asked, 4), Some(1));
    let long = DirectoryApiError::from_http_response("an operation", 429, Some("3600"));
    assert_eq!(directory_retry_delay_seconds(&long, 0), Some(3600));
    let not_asked = DirectoryApiError::from_http_response("an operation", 429, None);
    assert_eq!(directory_retry_delay_seconds(&not_asked, 1), Some(10));
    // The header counts for a limited rate only.
    let server = DirectoryApiError::from_http_response("an operation", 503, Some("3600"));
    assert_eq!(directory_retry_delay_seconds(&server, 0), Some(5));
}

#[test]
fn transient_errors_are_counted() {
    let mut failures = 0;
    let server = of_kind(DirectoryApiErrorKind::Server);
    assert_eq!(worker_error_delay(&server, &mut failures), 5);
    assert_eq!(worker_error_delay(&server, &mut failures), 10);
    assert_eq!(failures, 2);
    let forbidden = of_kind(DirectoryApiErrorKind::Forbidden);
    assert!(!directory_api_error_is_transient(&forbidden));
    assert_eq!(worker_error_delay(&forbidden, &mut failures), DIRECTORY_IDLE_SECONDS);
    assert_eq!(failures, 2);
    let mut full = u32::MAX;
    assert_eq!(worker_error_delay(&server, &mut full), 30);
    assert_eq!(full, u32::MAX);
}
