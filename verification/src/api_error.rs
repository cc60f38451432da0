//! Errors of the directory API: how a failed request is classified, described
//! and retried.

use crate::text::{
    borrowed_view, decimal, decimal_text, joined, parse_unsigned, trimmed, unsigned_value,
};
use vstd::arithmetic::power2::pow2;
use vstd::prelude::*;
use vstd::string::*;

verus! {

#[derive(Debug, Clone, Copy, PartialEq, Eq, Structural)]
pub enum DirectoryApiErrorKind {
    Configuration,
    Timeout,
    Connection,
    Transport,
    Unauthorized,
    Forbidden,
    NotFound,
    Conflict,
    Unprocessable,
    RateLimited,
    Server,
    UnexpectedStatus,
    InvalidResponse,
}

#[derive(Debug)]
pub struct DirectoryApiError {
    pub operation: &'static str,
    pub kind: DirectoryApiErrorKind,
    pub status: Option<u16>,
    pub retry_after_seconds: Option<u64>,
}

pub type DirectoryApiResult<T> = Result<T, DirectoryApiError>;

/// How an HTTP status other than success is classified.
pub open spec fn kind_of_status(status: u16) -> DirectoryApiErrorKind {
    if status == 401 {
        DirectoryApiErrorKind::Unauthorized
    } else if status == 403 {
        DirectoryApiErrorKind::Forbidden
    } else if status == 404 {
        DirectoryApiErrorKind::NotFound
    } else if status == 409 {
        DirectoryApiErrorKind::Conflict
    } else if status == 422 {
        DirectoryApiErrorKind::Unprocessable
    } else if status == 429 {
        DirectoryApiErrorKind::RateLimited
    } else if 500 <= status < 600 {
        DirectoryApiErrorKind::Server
    } else {
        DirectoryApiErrorKind::UnexpectedStatus
    }
}

/// The whole seconds that a Retry-After header asks for; nothing where it is
/// absent or no number.
pub open spec fn retry_after_value(header: Option<Seq<char>>) -> Option<u64> {
    match header {
        Some(value) => unsigned_value(trimmed(value)),
        None => None,
    }
}

/// An error without an HTTP status.
pub open spec fn plain_error(
    operation: &'static str,
    kind: DirectoryApiErrorKind,
) -> DirectoryApiError {
    DirectoryApiError { operation, kind, status: None, retry_after_seconds: None }
}

/// The error of a response with the given status and Retry-After header.
pub open spec fn status_error(
    operation: &'static str,
    status: u16,
    retry_after: Option<Seq<char>>,
) -> DirectoryApiError {
    DirectoryApiError {
        operation,
        kind: kind_of_status(status),
        status: Some(status),
        retry_after_seconds: retry_after_value(retry_after),
    }
}

/// The words for a kind of error.
pub open spec fn reason_of(kind: DirectoryApiErrorKind) -> Seq<char> {
    match kind {
        DirectoryApiErrorKind::Configuration => "configuration"@,
        DirectoryApiErrorKind::Timeout => "timeout"@,
        DirectoryApiErrorKind::Connection => "connection"@,
        DirectoryApiErrorKind::Transport => "transport"@,
        DirectoryApiErrorKind::InvalidResponse => "invalid response"@,
        DirectoryApiErrorKind::Unauthorized => "unauthorized"@,
        DirectoryApiErrorKind::Forbidden => "forbidden"@,
        DirectoryApiErrorKind::NotFound => "not found"@,
        DirectoryApiErrorKind::Conflict => "conflict"@,
        DirectoryApiErrorKind::Unprocessable => "unprocessable"@,
        DirectoryApiErrorKind::RateLimited => "rate limited"@,
        DirectoryApiErrorKind::Server => "server"@,
        DirectoryApiErrorKind::UnexpectedStatus => "unexpected status"@,
    }
}

/// The one-line description of an error.
pub open spec fn error_text(error: DirectoryApiError) -> Seq<char> {
    match error.status {
        Some(status) => match error.retry_after_seconds {
            Some(seconds) => error.operation@ + " failed with HTTP "@ + decimal(status as nat)
                + " (retry after "@ + decimal(seconds as nat) + " seconds)"@,
            None => error.operation@ + " failed with HTTP "@ + decimal(status as nat),
        },
        None => error.operation@ + " failed ("@ + reason_of(error.kind) + ")"@,
    }
}

impl DirectoryApiError {
    /// A request that this device cannot make as it is set up.
    pub fn configuration(operation: &'static str) -> (r: Self)
        ensures
            r == plain_error(operation, DirectoryApiErrorKind::Configuration),
    {
        DirectoryApiError {
            operation,
            kind: DirectoryApiErrorKind::Configuration,
            status: None,
            retry_after_seconds: None,
        }
    }

    /// A response that does not hold what it must.
    pub fn invalid_response(operation: &'static str) -> (r: Self)
        ensures
            r == plain_error(operation, DirectoryApiErrorKind::InvalidResponse),
    {
        DirectoryApiError {
            operation,
            kind: DirectoryApiErrorKind::InvalidResponse,
            status: None,
            retry_after_seconds: None,
        }
    }

    /// A request that got no response: timed out, could not connect, or failed
    /// otherwise on the way.
    pub fn transport(operation: &'static str, timed_out: bool, not_connected: bool) -> (r: Self)
        ensures
            r == plain_error(
                operation,
                if timed_out {
                    DirectoryApiErrorKind::Timeout
                } else if not_connected {
                    DirectoryApiErrorKind::Connection
                } else {
                    DirectoryApiErrorKind::Transport
                },
            ),
    {
        let kind = if timed_out {
            DirectoryApiErrorKind::Timeout
        } else if not_connected {
            DirectoryApiErrorKind::Connection
        } else {
            DirectoryApiErrorKind::Transport
        };
        DirectoryApiError { operation, kind, status: None, retry_after_seconds: None }
    }

    /// A response whose status is not success, with its Retry-After header.
    pub fn from_http_response(
        operation: &'static str,
        status: u16,
        retry_after: Option<&str>,
    ) -> (r: Self)
        ensures
            r == status_error(operation, status, borrowed_view(retry_after)),
    {
        let retry_after_seconds = match retry_after {
            Some(value) => parse_unsigned(value.trim()),
            None => None,
        };
        let kind = match status {
            401 => DirectoryApiErrorKind::Unauthorized,
            403 => DirectoryApiErrorKind::Forbidden,
            404 => DirectoryApiErrorKind::NotFound,
            409 => DirectoryApiErrorKind::Conflict,
            422 => DirectoryApiErrorKind::Unprocessable,
            429 => DirectoryApiErrorKind::RateLimited,
            _ => if 500 <= status && status < 600 {
                DirectoryApiErrorKind::Server
            } else {
                DirectoryApiErrorKind::UnexpectedStatus
            },
        };
        DirectoryApiError { operation, kind, status: Some(status), retry_after_seconds }
    }

    /// Describes the error in one line.
    pub fn text(&self) -> (r: String)
        ensures
            r@ == error_text(*self),
    {
        if let Some(status) = self.status {
            let head = joined(self.operation, " failed with HTTP ").concat(
                decimal_text(status as u128).as_str(),
            );
            if let Some(seconds) = self.retry_after_seconds {
                return head.concat(" (retry after ").concat(
                    decimal_text(seconds as u128).as_str(),
                ).concat(" seconds)");
            }
            return head;
        }
        let reason = match self.kind {
            DirectoryApiErrorKind::Configuration => "configuration",
            DirectoryApiErrorKind::Timeout => "timeout",
            DirectoryApiErrorKind::Connection => "connection",
            DirectoryApiErrorKind::Transport => "transport",
            DirectoryApiErrorKind::InvalidResponse => "invalid response",
            DirectoryApiErrorKind::Unauthorized => "unauthorized",
            DirectoryApiErrorKind::Forbidden => "forbidden",
            DirectoryApiErrorKind::NotFound => "not found",
            DirectoryApiErrorKind::Conflict => "conflict",
            DirectoryApiErrorKind::Unprocessable => "unprocessable",
            DirectoryApiErrorKind::RateLimited => "rate limited",
            DirectoryApiErrorKind::Server => "server",
            DirectoryApiErrorKind::UnexpectedStatus => "unexpected status",
        };
        joined(self.operation, " failed (").concat(reason).concat(")")
    }
}

/// Holds a response to the status of success.
pub fn require_success(
    operation: &'static str,
    status: u16,
    retry_after: Option<&str>,
) -> (r: DirectoryApiResult<()>)
    ensures
        r == (if status == 200 {
            Ok::<(), DirectoryApiError>(())
        } else {
            Err(status_error(operation, status, borrowed_view(retry_after)))
        }),
{
    if status != 200 {
        return Err(DirectoryApiError::from_http_response(operation, status, retry_after));
    }
    Ok(())
}

pub const DIRECTORY_RETRY_BASE_SECONDS: u64 = 5;

pub const DIRECTORY_RETRY_MAX_SECONDS: u64 = 30;

/// How long the worker rests where there is nothing to retry soon.
pub const DIRECTORY_IDLE_SECONDS: u64 = 300;

/// An error of this kind may go away by itself.
pub open spec fn transient(kind: DirectoryApiErrorKind) -> bool {
    ||| kind == DirectoryApiErrorKind::Timeout
    ||| kind == DirectoryApiErrorKind::Connection
    ||| kind == DirectoryApiErrorKind::Transport
    ||| kind == DirectoryApiErrorKind::RateLimited
    ||| kind == DirectoryApiErrorKind::Server
}

/// Five seconds after the first failure, twice as long after each further one,
/// and never more than thirty.
pub open spec fn backoff_seconds(failures: u32) -> u64 {
    if failures == 0 {
        5
    } else if failures == 1 {
        10
    } else if failures == 2 {
        20
    } else {
        30
    }
}

/// How long to wait before retrying; nothing where retrying is of no use.
pub open spec fn retry_delay(error: DirectoryApiError, failures: u32) -> Option<u64> {
    if !transient(error.kind) {
        None
    } else if error.kind == DirectoryApiErrorKind::RateLimited
        && error.retry_after_seconds is Some {
        let seconds = error.retry_after_seconds->0;
        Some(
            if seconds < 1 {
                1
            } else {
                seconds
            },
        )
    } else {
        Some(backoff_seconds(failures))
    }
}

/// The delay after an error, whatever its kind: the retry delay, or the idle time.
pub open spec fn error_delay(error: DirectoryApiError, failures: u32) -> u64 {
    match retry_delay(error, failures) {
        Some(seconds) => seconds,
        None => DIRECTORY_IDLE_SECONDS,
    }
}

/// The failure count after an error: one more for a transient one.
pub open spec fn failures_after(error: DirectoryApiError, failures: u32) -> u32 {
    if transient(error.kind) && failures < u32::MAX {
        (failures + 1) as u32
    } else {
        failures
    }
}

/// Whether an error may go away by itself.
pub fn directory_api_error_is_transient(error: &DirectoryApiError) -> (r: bool)
    ensures
        r == transient(error.kind),
{
    matches!(
        error.kind,
        DirectoryApiErrorKind::Timeout | DirectoryApiErrorKind::Connection
            | DirectoryApiErrorKind::Transport | DirectoryApiErrorKind::RateLimited
            | DirectoryApiErrorKind::Server
    )
}

/// How long to wait before retrying after `consecutive_failures` failures in a row.
pub fn directory_retry_delay_seconds(
    error: &DirectoryApiError,
    consecutive_failures: u32,
) -> (r: Option<u64>)
    ensures
        r == retry_delay(*error, consecutive_failures),
{
    if !directory_api_error_is_transient(error) {
        return None;
    }
    // HTTP 429 must honor the server's Retry-After value.
    if error.kind == DirectoryApiErrorKind::RateLimited {
        if let Some(retry_after) = error.retry_after_seconds {
            return Some(
                if retry_after < 1 {
                    1
                } else {
                    retry_after
                },
            );
        }
    }
    let exponent: u32 = if consecutive_failures < 6 {
        consecutive_failures
    } else {
        6
    };
    let multiplier: u64 = 1u64 << exponent;
    proof {
        assert(1u64 << 0u32 == 1) by (bit_vector);
        assert(1u64 << 1u32 == 2) by (bit_vector);
        assert(1u64 << 2u32 == 4) by (bit_vector);
        assert(3 <= exponent <= 6 ==> 8 <= (1u64 << exponent) <= 64) by (bit_vector);
    }
    let seconds: u64 = DIRECTORY_RETRY_BASE_SECONDS * multiplier;
    Some(
        if seconds < DIRECTORY_RETRY_MAX_SECONDS {
            seconds
        } else {
            DIRECTORY_RETRY_MAX_SECONDS
        },
    )
}

/// How many seconds the worker rests after an error. A transient error counts as
/// one more failure in a row.
pub fn worker_error_delay(error: &DirectoryApiError, consecutive_failures: &mut u32) -> (r: u64)
    ensures
        r == error_delay(*error, *old(consecutive_failures)),
        *final(consecutive_failures) == failures_after(*error, *old(consecutive_failures)),
{
    let delay = directory_retry_delay_seconds(error, *consecutive_failures);
    if let Some(seconds) = delay {
        *consecutive_failures = consecutive_failures.saturating_add(1);
        if seconds < 1 {
            1
        } else {
            seconds
        }
    } else {
        DIRECTORY_IDLE_SECONDS
    }
}

/// Without a Retry-After value the delay is bounded exponential backoff: the base
/// times two to the number of failures, at most the maximum.
pub proof fn law_backoff_is_bounded_exponential(failures: u32)
    ensures
        backoff_seconds(failures) == (if DIRECTORY_RETRY_BASE_SECONDS * pow2(failures as nat)
            < DIRECTORY_RETRY_MAX_SECONDS {
            (DIRECTORY_RETRY_BASE_SECONDS * pow2(failures as nat)) as u64
        } else {
            DIRECTORY_RETRY_MAX_SECONDS
        }),
{
    vstd::arithmetic::power2::lemma2_to64();
    if failures >= 3 {
        lemma_pow2_at_least(failures as nat);
    }
}

proof fn lemma_pow2_at_least(n: nat)
    requires
        n >= 3,
    ensures
        pow2(n) >= 8,
    decreases n,
{
    vstd::arithmetic::power2::lemma2_to64();
    if n > 3 {
        lemma_pow2_at_least((n - 1) as nat);
        vstd::arithmetic::power2::lemma_pow2_unfold(n);
    }
}

/// A longer row of failures never shortens the delay, and the delay of a retry is
/// at least one second. A server that limits the rate is waited for as long as its
/// Retry-After value asks, and only that makes the delay longer than the maximum.
pub proof fn law_retry_delay_bounds(error: DirectoryApiError, fewer: u32, more: u32)
    requires
        fewer <= more,
    ensures
        retry_delay(error, fewer) is Some <==> transient(error.kind),
        retry_delay(error, more) is Some <==> transient(error.kind),
        error.kind == DirectoryApiErrorKind::RateLimited ==> (
            error.retry_after_seconds matches Some(asked) ==> (
                retry_delay(error, more) matches Some(seconds) && seconds >= asked
                    && (asked >= 1 ==> seconds == asked)
            )
        ),
        retry_delay(error, fewer) matches Some(seconds) ==> seconds >= 1 && seconds
            <= retry_delay(error, more)->0 && (seconds <= DIRECTORY_RETRY_MAX_SECONDS || (error.kind
            == DirectoryApiErrorKind::RateLimited && error.retry_after_seconds == Some(seconds))),
{
}

/// Each error is made with the operation that it is about and with the kind that its cause has.
pub proof fn law_errors_keep_their_operation(
    operation: &'static str,
    timed_out: bool,
    not_connected: bool,
    setup: DirectoryApiError,
    odd: DirectoryApiError,
    lost: DirectoryApiError,
)
    requires
        call_ensures(DirectoryApiError::configuration, (operation,), setup),
        call_ensures(DirectoryApiError::invalid_response, (operation,), odd),
        call_ensures(DirectoryApiError::transport, (operation, timed_out, not_connected), lost),
    ensures
        setup.operation == operation && odd.operation == operation && lost.operation == operation,
        setup.kind == DirectoryApiErrorKind::Configuration,
        odd.kind == DirectoryApiErrorKind::InvalidResponse,
        timed_out <==> lost.kind == DirectoryApiErrorKind::Timeout,
        !timed_out && not_connected <==> lost.kind == DirectoryApiErrorKind::Connection,
        !timed_out && !not_connected <==> lost.kind == DirectoryApiErrorKind::Transport,
        setup.status is None && odd.status is None && lost.status is None,
        setup.retry_after_seconds is None && odd.retry_after_seconds is None
            && lost.retry_after_seconds is None,
        setup == plain_error(operation, DirectoryApiErrorKind::Configuration),
        odd == plain_error(operation, DirectoryApiErrorKind::InvalidResponse),
{
}

/// A plain error has its operation and its kind and nothing more.
pub proof fn law_plain_errors_are_plain(operation: &'static str, kind: DirectoryApiErrorKind)
    ensures
        plain_error(operation, kind).operation == operation,
        plain_error(operation, kind).kind == kind,
        plain_error(operation, kind).status is None,
        plain_error(operation, kind).retry_after_seconds is None,
{
}

/// The error of a response has its operation and its status, the kind that the status stands
/// for, and the time that its Retry-After header asks for, where that is a number.
pub proof fn law_status_decides_the_kind(
    operation: &'static str,
    status: u16,
    retry_after: Option<&str>,
    r: DirectoryApiError,
)
    requires
        call_ensures(DirectoryApiError::from_http_response, (operation, status, retry_after), r),
    ensures
        r.operation == operation,
        r.status == Some(status),
        retry_after is None ==> r.retry_after_seconds is None,
        retry_after matches Some(text) ==> r.retry_after_seconds == unsigned_value(trimmed(text@)),
        status == 401 <==> r.kind == DirectoryApiErrorKind::Unauthorized,
        status == 403 <==> r.kind == DirectoryApiErrorKind::Forbidden,
        status == 404 <==> r.kind == DirectoryApiErrorKind::NotFound,
        status == 409 <==> r.kind == DirectoryApiErrorKind::Conflict,
        status == 422 <==> r.kind == DirectoryApiErrorKind::Unprocessable,
        status == 429 <==> r.kind == DirectoryApiErrorKind::RateLimited,
        500 <= status <= 599 <==> r.kind == DirectoryApiErrorKind::Server,
        status != 401 && status != 403 && status != 404 && status != 409 && status != 422 && status
            != 429 && !(500 <= status <= 599) <==> r.kind
            == DirectoryApiErrorKind::UnexpectedStatus,
        r == status_error(operation, status, borrowed_view(retry_after)),
{
}

/// A response is good exactly where its status is that of success, and otherwise has the error
/// of its status.
pub proof fn law_success_is_one_status(
    operation: &'static str,
    status: u16,
    retry_after: Option<&str>,
    error: DirectoryApiError,
    r: DirectoryApiResult<()>,
)
    requires
        call_ensures(require_success, (operation, status, retry_after), r),
        call_ensures(
            DirectoryApiError::from_http_response,
            (operation, status, retry_after),
            error,
        ),
    ensures
        r is Ok <==> status == 200,
        status != 200 ==> r == Err::<(), DirectoryApiError>(error),
{
}

/// The text of an error names its operation, and then its status and the time to wait, where
/// it has them, or else its kind.
pub proof fn law_error_text_names_the_cause(error: DirectoryApiError, r: String)
    requires
        call_ensures(DirectoryApiError::text, (&error,), r),
    ensures
        error.status matches Some(status) ==> {
            &&& error.retry_after_seconds is None ==> r@ == error.operation@ + " failed with HTTP "@
                + decimal(status as nat)
            &&& error.retry_after_seconds matches Some(seconds) ==> r@ == error.operation@
                + " failed with HTTP "@ + decimal(status as nat) + " (retry after "@ + decimal(
                seconds as nat,
            ) + " seconds)"@
        },
        error.status is None ==> r@ == error.operation@ + " failed ("@ + (match error.kind {
            DirectoryApiErrorKind::Configuration => "configuration"@,
            DirectoryApiErrorKind::Timeout => "timeout"@,
            DirectoryApiErrorKind::Connection => "connection"@,
            DirectoryApiErrorKind::Transport => "transport"@,
            DirectoryApiErrorKind::InvalidResponse => "invalid response"@,
            DirectoryApiErrorKind::Unauthorized => "unauthorized"@,
            DirectoryApiErrorKind::Forbidden => "forbidden"@,
            DirectoryApiErrorKind::NotFound => "not found"@,
            DirectoryApiErrorKind::Conflict => "conflict"@,
            DirectoryApiErrorKind::Unprocessable => "unprocessable"@,
            DirectoryApiErrorKind::RateLimited => "rate limited"@,
            DirectoryApiErrorKind::Server => "server"@,
            DirectoryApiErrorKind::UnexpectedStatus => "unexpected status"@,
        }) + ")"@,
        r@ == error_text(error),
{
}

/// The worker waits after an error that may go away for a time that doubles from five seconds
/// to thirty, or for as long as a server that limits the rate asks, and counts it; after any
/// other error it rests for five minutes and counts nothing.
pub proof fn law_worker_waits_by_the_kind_of_error(
    error: DirectoryApiError,
    failures: &mut u32,
    transient: bool,
    delay: Option<u64>,
    r: u64,
)
    requires
        call_ensures(worker_error_delay, (&error, failures), r),
        call_ensures(directory_api_error_is_transient, (&error,), transient),
        call_ensures(directory_retry_delay_seconds, (&error, *old(failures)), delay),
    ensures
        transient <==> error.kind == DirectoryApiErrorKind::Timeout || error.kind
            == DirectoryApiErrorKind::Connection || error.kind == DirectoryApiErrorKind::Transport
            || error.kind == DirectoryApiErrorKind::RateLimited || error.kind
            == DirectoryApiErrorKind::Server,
        !transient ==> r == 300 && *final(failures) == *old(failures) && delay is None,
        transient ==> delay == Some(r) && *final(failures) == (if *old(failures) == u32::MAX {
            u32::MAX
        } else {
            (*old(failures) + 1) as u32
        }),
        transient && !(error.kind == DirectoryApiErrorKind::RateLimited
            && error.retry_after_seconds is Some) ==> {
            &&& *old(failures) == 0 ==> r == 5
            &&& *old(failures) == 1 ==> r == 10
            &&& *old(failures) == 2 ==> r == 20
            &&& *old(failures) >= 3 ==> r == 30
        },
        error.kind == DirectoryApiErrorKind::RateLimited ==> (
        error.retry_after_seconds matches Some(asked) ==> r == (if asked == 0 {
            1
        } else {
            asked
        })),
        r == error_delay(error, *old(failures)),
        *final(failures) == failures_after(error, *old(failures)),
{
}

} // verus!
