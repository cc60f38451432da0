//! Enrolling, asking for re-enrollment and changing the contact address: what each
//! needs before it is sent, and what its answer changes.

use crate::api_error::{
    directory_api_error_is_transient, error_text, plain_error, transient, DirectoryApiError,
    DirectoryApiErrorKind, DirectoryApiResult,
};
use crate::api_types::{
    DirectoryIdentity, EnrollmentResponse, ReenrollmentRequestResponse,
};
use crate::directory_state::{
    clear_directory_snapshot, management_snapshot_from_request, reenrollment_flags,
    request_members, set_state, DirectoryRuntime, DirectoryState, RuntimeView,
};
use crate::json::rendered;
use crate::persisted_auth::{
    enrollment_fault, identity_fault, is_turned_away, law_pending_enrollment_is_valid,
    pending_enrollment, pending_state_from_enrollment, runtime_state_from_persisted_status,
    runtime_state_of, turned_away, EnrollmentResponseError, PersistedDirectoryAuth,
    PersistedEnrollmentStatus,
};
use crate::requests::{
    contact_email_request, enrollment_request, post_enrollment_request,
    post_reenrollment_request, put_contact_email_request, reenrollment_request, HttpRequest,
};
use crate::text::{
    borrowed, borrowed_or_empty, borrowed_view, optional_view, same_text, text_or_empty,
};
use crate::web::URL_TEXT_LIMIT;
use vstd::prelude::*;
use vstd::string::*;

verus! {

/// Why an operation that someone asked for is not carried out.
#[derive(Debug)]
pub enum OperationError {
    PasswordRequired,
    NotConfigured,
    AlreadyPending,
    AlreadyEnrolled,
    ContinuityUnavailable,
    NotTurnedAway,
    InvalidRequestState,
    DifferentDevice,
    NotEnrolled,
    Request(DirectoryApiError),
}

impl OperationError {
    pub open spec fn words(self) -> Seq<char> {
        match self {
            OperationError::PasswordRequired => "Directory enrollment password is required"@,
            OperationError::NotConfigured => "Managed directory endpoint is not configured"@,
            OperationError::AlreadyPending => "Directory enrollment is already pending"@,
            OperationError::AlreadyEnrolled => "Device is already enrolled"@,
            OperationError::ContinuityUnavailable => {
                "Managed device continuity state is unavailable"@
            },
            OperationError::NotTurnedAway => {
                "Re-enrollment may only be requested for denied, blocked, or revoked devices"@
            },
            OperationError::InvalidRequestState => {
                "Directory returned an invalid re-enrollment request state"@
            },
            OperationError::DifferentDevice => {
                "Re-enrollment response belongs to a different device"@
            },
            OperationError::NotEnrolled => "Device is not enrolled"@,
            OperationError::Request(error) => error_text(error),
        }
    }

    /// Describes the error in one line.
    pub fn text(&self) -> (r: String)
        ensures
            r@ == self.words(),
    {
        match self {
            OperationError::PasswordRequired => {
                "Directory enrollment password is required".to_owned()
            },
            OperationError::NotConfigured => {
                "Managed directory endpoint is not configured".to_owned()
            },
            OperationError::AlreadyPending => "Directory enrollment is already pending".to_owned(),
            OperationError::AlreadyEnrolled => "Device is already enrolled".to_owned(),
            OperationError::ContinuityUnavailable => {
                "Managed device continuity state is unavailable".to_owned()
            },
            OperationError::NotTurnedAway => {
                "Re-enrollment may only be requested for denied, blocked, or revoked devices"
                    .to_owned()
            },
            OperationError::InvalidRequestState => {
                "Directory returned an invalid re-enrollment request state".to_owned()
            },
            OperationError::DifferentDevice => {
                "Re-enrollment response belongs to a different device".to_owned()
            },
            OperationError::NotEnrolled => "Device is not enrolled".to_owned(),
            OperationError::Request(error) => error.text(),
        }
    }
}

/// What keeps a device from enrolling before anything is read: no password, or no
/// directory.
pub open spec fn early_obstacle(
    enrollment_password: Seq<char>,
    base: Option<Seq<char>>,
) -> Option<OperationError> {
    if enrollment_password.len() == 0 {
        Some(OperationError::PasswordRequired)
    } else if base is None {
        Some(OperationError::NotConfigured)
    } else {
        None
    }
}

/// Where the directory is, once a password was given.
pub fn require_enrollment_settings<'a>(
    enrollment_password: &str,
    base_url: Option<&'a str>,
) -> (r: Result<&'a str, OperationError>)
    ensures
        match early_obstacle(enrollment_password@, borrowed_view(base_url)) {
            Some(error) => r == Err::<&'a str, OperationError>(error),
            None => r == Ok::<&'a str, OperationError>(base_url->0),
        },
{
    if enrollment_password.is_empty() {
        return Err(OperationError::PasswordRequired);
    }
    match base_url {
        Some(base_url) => Ok(base_url),
        None => Err(OperationError::NotConfigured),
    }
}

/// What keeps an enrolled device from enrolling again: it waits for approval, or has it.
pub open spec fn enrollment_obstacle(existing: Option<PersistedDirectoryAuth>) -> Option<
    OperationError,
> {
    match existing {
        Some(state) => match state.status {
            PersistedEnrollmentStatus::Pending => Some(OperationError::AlreadyPending),
            PersistedEnrollmentStatus::Approved => Some(OperationError::AlreadyEnrolled),
            _ => None,
        },
        None => None,
    }
}

/// What keeps a device from enrolling: no password, no directory, or the enrollment that
/// it has, in this order.
pub open spec fn enrolling_obstacle(
    enrollment_password: Seq<char>,
    base: Option<Seq<char>>,
    existing: Option<PersistedDirectoryAuth>,
) -> Option<OperationError> {
    match early_obstacle(enrollment_password, base) {
        Some(error) => Some(error),
        None => enrollment_obstacle(existing),
    }
}

/// The runtime state of a device that is not enrolling.
pub open spec fn state_before(existing: Option<PersistedDirectoryAuth>) -> DirectoryState {
    match existing {
        Some(state) => runtime_state_of(state.status),
        None => DirectoryState::NotEnrolled,
    }
}

/// The poll token that a turned-away device enrolls again with; a device that was never
/// enrolled has none.
pub open spec fn token_for(existing: Option<PersistedDirectoryAuth>) -> Option<Seq<char>> {
    match existing {
        Some(state) => if turned_away(state.status) {
            optional_view(state.enrollment_poll_token)
        } else {
            None
        },
        None => None,
    }
}

/// The runtime state after an enrollment request failed: Unavailable where the error
/// may go away, and otherwise what it was before.
pub open spec fn state_after_failure(
    previous: DirectoryState,
    error: DirectoryApiError,
) -> DirectoryState {
    if transient(error.kind) {
        DirectoryState::Unavailable
    } else {
        previous
    }
}

/// Ends an enrollment whose request failed.
pub fn enrollment_failed(
    runtime: &mut DirectoryRuntime,
    previous: DirectoryState,
    error: DirectoryApiError,
) -> (r: OperationError)
    ensures
        r == OperationError::Request(error),
        final(runtime)@ == (RuntimeView {
            state: state_after_failure(previous, error),
            ..old(runtime)@
        }),
{
    if directory_api_error_is_transient(&error) {
        set_state(runtime, DirectoryState::Unavailable);
    } else {
        set_state(runtime, previous);
    }
    OperationError::Request(error)
}

/// Begins to enroll this device: the runtime state becomes Enrolling, and the request
/// and the state to fall back to are returned. Without a password or a directory nothing
/// is begun. A device that waits for approval or has it does not enroll, and one that
/// cannot make the request falls back at once.
pub fn enroll_once(
    runtime: &mut DirectoryRuntime,
    base_url: Option<&str>,
    identity: &DirectoryIdentity,
    enrollment_password: &str,
    existing: Option<&PersistedDirectoryAuth>,
) -> (r: Result<(DirectoryState, HttpRequest), OperationError>)
    requires
        base_url is Some ==> base_url->0@.len() <= URL_TEXT_LIMIT,
    ensures
        ({
            let stored = match existing {
                Some(state) => Some(*state),
                None => None,
            };
            match enrolling_obstacle(enrollment_password@, borrowed_view(base_url), stored) {
                Some(error) => r == Err::<(DirectoryState, HttpRequest), OperationError>(error)
                    && final(runtime)@ == old(runtime)@,
                None => match enrollment_request(
                    base_url->0@,
                    *identity,
                    enrollment_password@,
                    token_for(stored),
                ) {
                    Some(request) => r is Ok && r->Ok_0.0 == state_before(stored) && r->Ok_0.1@
                        == request && final(runtime)@ == (RuntimeView {
                        state: DirectoryState::Enrolling,
                        ..old(runtime)@
                    }),
                    None => r == Err::<(DirectoryState, HttpRequest), OperationError>(
                        OperationError::Request(
                            plain_error(
                                "directory enrollment",
                                DirectoryApiErrorKind::Configuration,
                            ),
                        ),
                    ) && final(runtime)@ == (RuntimeView {
                        state: state_before(stored),
                        ..old(runtime)@
                    }),
                },
            }
        }),
{
    let base_url = match require_enrollment_settings(enrollment_password, base_url) {
        Ok(base_url) => base_url,
        Err(error) => {
            return Err(error);
        },
    };
    let previous = match existing {
        Some(state) => runtime_state_from_persisted_status(&state.status),
        None => DirectoryState::NotEnrolled,
    };
    let reenrollment_poll_token: Option<&str> = match existing {
        None => None,
        Some(state) => match state.status {
            PersistedEnrollmentStatus::NotEnrolled => None,
            PersistedEnrollmentStatus::Pending => {
                return Err(OperationError::AlreadyPending);
            },
            PersistedEnrollmentStatus::Approved => {
                return Err(OperationError::AlreadyEnrolled);
            },
            PersistedEnrollmentStatus::Denied
            | PersistedEnrollmentStatus::Blocked
            | PersistedEnrollmentStatus::Revoked => borrowed(&state.enrollment_poll_token),
        },
    };
    set_state(runtime, DirectoryState::Enrolling);
    match post_enrollment_request(
        base_url,
        identity,
        enrollment_password,
        reenrollment_poll_token,
    ) {
        Ok(request) => Ok((previous, request)),
        Err(error) => Err(enrollment_failed(runtime, previous, error)),
    }
}

/// The enrollment to store once the answer to an enrollment request has come.
pub fn persist_pending_enrollment(
    identity: &DirectoryIdentity,
    response: EnrollmentResponse,
) -> (r: Result<PersistedDirectoryAuth, EnrollmentResponseError>)
    ensures
        r == (match enrollment_fault(*identity, response) {
            Some(error) => Err(error),
            None => Ok(pending_enrollment(*identity, response)),
        }),
        r matches Ok(state) ==> identity_fault(state, *identity) is None,
{
    proof {
        if enrollment_fault(*identity, response) is None {
            law_pending_enrollment_is_valid(*identity, response);
        }
    }
    pending_state_from_enrollment(identity, response)
}

/// The pending enrollment is stored: the snapshot is emptied, and the device waits for
/// approval.
pub fn pending_enrollment_stored(runtime: &mut DirectoryRuntime)
    ensures
        final(runtime)@ == (RuntimeView {
            state: DirectoryState::Pending,
            snapshot: Seq::empty(),
        }),
{
    clear_directory_snapshot(runtime);
    set_state(runtime, DirectoryState::Pending);
}

/// What keeps a device from asking for re-enrollment.
pub open spec fn reenrollment_obstacle(
    base: Option<Seq<char>>,
    state: Option<PersistedDirectoryAuth>,
) -> Option<OperationError> {
    if base is None {
        Some(OperationError::NotConfigured)
    } else if state is None {
        Some(OperationError::ContinuityUnavailable)
    } else if !turned_away(state->0.status) {
        Some(OperationError::NotTurnedAway)
    } else {
        None
    }
}

/// Asks for re-enrollment, which only a device that was turned away may do.
pub fn request_reenrollment_once(
    base_url: Option<&str>,
    state: Option<&PersistedDirectoryAuth>,
) -> (r: Result<HttpRequest, OperationError>)
    requires
        base_url is Some ==> base_url->0@.len() <= URL_TEXT_LIMIT,
    ensures
        ({
            let stored = match state {
                Some(state) => Some(*state),
                None => None,
            };
            match reenrollment_obstacle(borrowed_view(base_url), stored) {
                Some(error) => r == Err::<HttpRequest, OperationError>(error),
                None => match reenrollment_request(base_url->0@, stored->0) {
                    Some(request) => r is Ok && r->Ok_0@ == request,
                    None => r == Err::<HttpRequest, OperationError>(
                        OperationError::Request(
                            plain_error(
                                "directory re-enrollment request",
                                DirectoryApiErrorKind::Configuration,
                            ),
                        ),
                    ),
                },
            }
        }),
{
    let base_url = match base_url {
        Some(base_url) => base_url,
        None => {
            return Err(OperationError::NotConfigured);
        },
    };
    let state = match state {
        Some(state) => state,
        None => {
            return Err(OperationError::ContinuityUnavailable);
        },
    };
    if !is_turned_away(state.status) {
        return Err(OperationError::NotTurnedAway);
    }
    match post_reenrollment_request(base_url, state) {
        Ok(request) => Ok(request),
        Err(error) => Err(OperationError::Request(error)),
    }
}

/// What is wrong with the answer to a request for re-enrollment.
pub open spec fn reenrollment_answer_fault(
    state: PersistedDirectoryAuth,
    response: ReenrollmentRequestResponse,
) -> Option<OperationError> {
    if response.status@ != "requested"@ {
        Some(OperationError::InvalidRequestState)
    } else if response.device_id@ != text_or_empty(state.device_id) {
        Some(OperationError::DifferentDevice)
    } else {
        None
    }
}

/// Takes the answer to a request for re-enrollment: the snapshot shows it, and its two
/// flags are the ones that the snapshot then gives back.
pub fn reenrollment_requested(
    runtime: &mut DirectoryRuntime,
    state: &PersistedDirectoryAuth,
    response: &ReenrollmentRequestResponse,
) -> (r: Result<(), OperationError>)
    ensures
        match reenrollment_answer_fault(*state, *response) {
            Some(error) => r == Err::<(), OperationError>(error) && final(runtime)@
                == old(runtime)@,
            None => r == Ok::<(), OperationError>(()) && final(runtime)@ == (RuntimeView {
                snapshot: rendered(request_members(*response)),
                ..old(runtime)@
            }) && reenrollment_flags(final(runtime)@.snapshot) == (
                response.reenrollment_requested,
                response.reenrollment_authorized,
            ),
        },
{
    if !same_text(response.status.as_str(), "requested") {
        return Err(OperationError::InvalidRequestState);
    }
    if !same_text(response.device_id.as_str(), borrowed_or_empty(&state.device_id)) {
        return Err(OperationError::DifferentDevice);
    }
    management_snapshot_from_request(runtime, response);
    Ok(())
}

/// Changes the contact address of an enrolled device.
pub fn update_contact_email_once(
    base_url: Option<&str>,
    state: Option<&PersistedDirectoryAuth>,
    contact_email: &str,
) -> (r: Result<HttpRequest, OperationError>)
    requires
        base_url is Some ==> base_url->0@.len() <= URL_TEXT_LIMIT,
    ensures
        base_url is None ==> r == Err::<HttpRequest, OperationError>(OperationError::NotConfigured),
        base_url is Some && state is None ==> r == Err::<HttpRequest, OperationError>(
            OperationError::NotEnrolled,
        ),
        base_url is Some && state is Some ==> match contact_email_request(
            base_url->0@,
            *state->0,
            contact_email@,
        ) {
            Some(request) => r is Ok && r->Ok_0@ == request,
            None => r == Err::<HttpRequest, OperationError>(
                OperationError::Request(
                    plain_error(
                        "directory contact email update",
                        DirectoryApiErrorKind::Configuration,
                    ),
                ),
            ),
        },
{
    let base_url = match base_url {
        Some(base_url) => base_url,
        None => {
            return Err(OperationError::NotConfigured);
        },
    };
    let state = match state {
        Some(state) => state,
        None => {
            return Err(OperationError::NotEnrolled);
        },
    };
    match put_contact_email_request(base_url, state, contact_email) {
        Ok(request) => Ok(request),
        Err(error) => Err(OperationError::Request(error)),
    }
}

/// A device that was turned away can always enroll again, and does so with the poll
/// token of its continuity identity; a first enrollment has no token.
pub proof fn law_turned_away_devices_keep_their_token(state: PersistedDirectoryAuth)
    ensures
        turned_away(state.status) ==> enrollment_obstacle(Some(state)) is None && token_for(
            Some(state),
        ) == optional_view(state.enrollment_poll_token),
        enrollment_obstacle(None) is None,
        token_for(None) is None,
{
}

/// An enrollment whose request failed leaves the device neither Enrolling nor Ready.
pub proof fn law_failed_enrollment_request_ends(
    existing: Option<PersistedDirectoryAuth>,
    error: DirectoryApiError,
)
    ensures
        state_after_failure(state_before(existing), error) != DirectoryState::Enrolling,
        state_after_failure(state_before(existing), error) != DirectoryState::Ready,
{
}

/// An enrollment begins exactly where there is a password and a directory that may be reached,
/// and the device neither waits for approval nor has it. It makes the device Enrolling and
/// nothing else, and sends the password and, for a device that was turned away, its token.
pub proof fn law_enrollment_begins_with_the_password(
    runtime: &mut DirectoryRuntime,
    base: Option<&str>,
    identity: DirectoryIdentity,
    password: &str,
    existing: Option<&PersistedDirectoryAuth>,
    token: Option<&str>,
    plain: DirectoryApiResult<HttpRequest>,
    r: Result<(DirectoryState, HttpRequest), OperationError>,
)
    requires
        call_ensures(enroll_once, (runtime, base, &identity, password, existing), r),
        base matches Some(url) ==> call_ensures(
            post_enrollment_request,
            (url, &identity, password, token),
            plain,
        ),
        borrowed_view(token) == (match existing {
            Some(state) => if state.status == PersistedEnrollmentStatus::Denied || state.status
                == PersistedEnrollmentStatus::Blocked || state.status
                == PersistedEnrollmentStatus::Revoked {
                optional_view(state.enrollment_poll_token)
            } else {
                None
            },
            None => None,
        }),
    ensures
        r is Ok <==> {
            &&& password@.len() > 0
            &&& base matches Some(url)
            &&& plain is Ok
            &&& existing matches Some(state) ==> state.status != PersistedEnrollmentStatus::Pending
                && state.status != PersistedEnrollmentStatus::Approved
        },
        r matches Ok((previous, request)) ==> {
            &&& request@ == plain->Ok_0@
            &&& final(runtime).state == DirectoryState::Enrolling
            &&& final(runtime).snapshot@ == old(runtime).snapshot@
            &&& existing is None ==> previous == DirectoryState::NotEnrolled
            &&& existing matches Some(state) ==> {
                &&& state.status == PersistedEnrollmentStatus::NotEnrolled ==> previous
                    == DirectoryState::NotEnrolled
                &&& state.status == PersistedEnrollmentStatus::Denied ==> previous
                    == DirectoryState::Denied
                &&& state.status == PersistedEnrollmentStatus::Blocked ==> previous
                    == DirectoryState::Blocked
                &&& state.status == PersistedEnrollmentStatus::Revoked ==> previous
                    == DirectoryState::Revoked
            }
        },
        password@.len() == 0 ==> r == Err::<(DirectoryState, HttpRequest), OperationError>(
            OperationError::PasswordRequired,
        ) && final(runtime).state == old(runtime).state,
        password@.len() > 0 && base is None ==> r == Err::<
            (DirectoryState, HttpRequest),
            OperationError,
        >(OperationError::NotConfigured) && final(runtime).state == old(runtime).state,
        password@.len() > 0 && base is Some ==> (existing matches Some(state) ==> {
            &&& state.status == PersistedEnrollmentStatus::Pending ==> r == Err::<
                (DirectoryState, HttpRequest),
                OperationError,
            >(OperationError::AlreadyPending) && final(runtime).state == old(runtime).state
            &&& state.status == PersistedEnrollmentStatus::Approved ==> r == Err::<
                (DirectoryState, HttpRequest),
                OperationError,
            >(OperationError::AlreadyEnrolled) && final(runtime).state == old(runtime).state
        }),
        r is Err ==> final(runtime).state != DirectoryState::Enrolling || old(runtime).state
            == DirectoryState::Enrolling,
        final(runtime).snapshot@ == old(runtime).snapshot@,
        password@.len() > 0 && base is Some && (existing is None || (existing->0.status
            != PersistedEnrollmentStatus::Pending && existing->0.status
            != PersistedEnrollmentStatus::Approved)) ==> (plain matches Err(error) ==> {
            &&& r == Err::<(DirectoryState, HttpRequest), OperationError>(
                OperationError::Request(error),
            )
            &&& existing is None ==> final(runtime).state == DirectoryState::NotEnrolled
            &&& existing matches Some(state) ==> {
                &&& state.status == PersistedEnrollmentStatus::NotEnrolled ==> final(runtime).state
                    == DirectoryState::NotEnrolled
                &&& state.status == PersistedEnrollmentStatus::Denied ==> final(runtime).state
                    == DirectoryState::Denied
                &&& state.status == PersistedEnrollmentStatus::Blocked ==> final(runtime).state
                    == DirectoryState::Blocked
                &&& state.status == PersistedEnrollmentStatus::Revoked ==> final(runtime).state
                    == DirectoryState::Revoked
            }
        }),
{
    let before = old(runtime)@;
    let after = final(runtime)@;
}

/// The settings that an enrollment needs are a password, which is asked for first, and a
/// directory.
pub proof fn law_enrollment_needs_password_and_directory(
    password: &str,
    base: Option<&str>,
    r: Result<&str, OperationError>,
)
    requires
        call_ensures(require_enrollment_settings, (password, base), r),
    ensures
        password@.len() == 0 <==> r == Err::<&str, OperationError>(
            OperationError::PasswordRequired,
        ),
        password@.len() > 0 && base is None <==> r == Err::<&str, OperationError>(
            OperationError::NotConfigured,
        ),
        r matches Ok(url) ==> base is Some && url@ == base->0@,
{
}

/// A failed request ends an enrollment with its error: the directory is unavailable where the
/// error may go away, and otherwise the state is again what it was. The snapshot stays.
pub proof fn law_failed_request_is_answered_by_its_kind(
    runtime: &mut DirectoryRuntime,
    previous: DirectoryState,
    error: DirectoryApiError,
    r: OperationError,
)
    requires
        call_ensures(enrollment_failed, (runtime, previous, error), r),
    ensures
        r == OperationError::Request(error),
        final(runtime).snapshot@ == old(runtime).snapshot@,
        error.kind == DirectoryApiErrorKind::Timeout || error.kind
            == DirectoryApiErrorKind::Connection || error.kind == DirectoryApiErrorKind::Transport
            || error.kind == DirectoryApiErrorKind::RateLimited || error.kind
            == DirectoryApiErrorKind::Server ==> final(runtime).state
            == DirectoryState::Unavailable,
        !(error.kind == DirectoryApiErrorKind::Timeout || error.kind
            == DirectoryApiErrorKind::Connection || error.kind == DirectoryApiErrorKind::Transport
            || error.kind == DirectoryApiErrorKind::RateLimited || error.kind
            == DirectoryApiErrorKind::Server) ==> final(runtime).state == previous,
{
    let before = old(runtime)@;
    let after = final(runtime)@;
}

/// What is stored after an enrollment is what its answer says, and the device waits for
/// approval then, showing nothing.
pub proof fn law_enrolled_device_waits_for_approval(
    identity: DirectoryIdentity,
    response: EnrollmentResponse,
    plain: Result<PersistedDirectoryAuth, EnrollmentResponseError>,
    r: Result<PersistedDirectoryAuth, EnrollmentResponseError>,
    runtime: &mut DirectoryRuntime,
)
    requires
        call_ensures(persist_pending_enrollment, (&identity, response), r),
        call_ensures(pending_state_from_enrollment, (&identity, response), plain),
        call_ensures(pending_enrollment_stored, (runtime,), ()),
    ensures
        r == plain,
        final(runtime).state == DirectoryState::Pending,
        final(runtime).snapshot@.len() == 0,
{
    let after = final(runtime)@;
}

/// Re-enrollment is asked for exactly by a device that was denied, blocked or revoked, where
/// there is a directory, and with its continuity.
pub proof fn law_reenrollment_is_for_turned_away_devices(
    base: Option<&str>,
    state: Option<&PersistedDirectoryAuth>,
    plain: DirectoryApiResult<HttpRequest>,
    r: Result<HttpRequest, OperationError>,
)
    requires
        call_ensures(request_reenrollment_once, (base, state), r),
        base is Some && state is Some ==> call_ensures(
            post_reenrollment_request,
            (base->0, state->0),
            plain,
        ),
    ensures
        base is None <==> r == Err::<HttpRequest, OperationError>(OperationError::NotConfigured),
        base is Some && state is None <==> r == Err::<HttpRequest, OperationError>(
            OperationError::ContinuityUnavailable,
        ),
        base is Some && state is Some ==> {
            let away = state->0.status == PersistedEnrollmentStatus::Denied || state->0.status
                == PersistedEnrollmentStatus::Blocked || state->0.status
                == PersistedEnrollmentStatus::Revoked;
            &&& !away ==> r == Err::<HttpRequest, OperationError>(OperationError::NotTurnedAway)
            &&& away ==> match plain {
                Ok(request) => r is Ok && r->Ok_0@ == request@,
                Err(error) => r == Err::<HttpRequest, OperationError>(
                    OperationError::Request(error),
                ),
            }
        },
{
}

/// The answer to a request for re-enrollment is shown where it is about this device and says
/// that the request was made; otherwise nothing changes.
pub proof fn law_answered_reenrollment_is_shown(
    runtime: &mut DirectoryRuntime,
    state: PersistedDirectoryAuth,
    response: ReenrollmentRequestResponse,
    shown: &mut DirectoryRuntime,
    r: Result<(), OperationError>,
)
    requires
        call_ensures(reenrollment_requested, (runtime, &state, &response), r),
        call_ensures(management_snapshot_from_request, (shown, &response), ()),
    ensures
        r is Ok <==> response.status@ == "requested"@ && response.device_id@ == text_or_empty(
            state.device_id,
        ),
        response.status@ != "requested"@ <==> r == Err::<(), OperationError>(
            OperationError::InvalidRequestState,
        ),
        r is Err && response.status@ == "requested"@ ==> r == Err::<(), OperationError>(
            OperationError::DifferentDevice,
        ),
        final(runtime).state == old(runtime).state,
        r is Ok ==> final(runtime).snapshot@ == final(shown).snapshot@,
        r is Err ==> final(runtime).snapshot@ == old(runtime).snapshot@,
{
    let before = old(runtime)@;
    let after = final(runtime)@;
    let there = final(shown)@;
}

/// The contact address of an enrolled device is changed by the request for that, with the
/// address that is given.
pub proof fn law_contact_address_is_changed_for_enrolled_devices(
    base: Option<&str>,
    state: Option<&PersistedDirectoryAuth>,
    contact_email: &str,
    plain: DirectoryApiResult<HttpRequest>,
    r: Result<HttpRequest, OperationError>,
)
    requires
        call_ensures(update_contact_email_once, (base, state, contact_email), r),
        base is Some && state is Some ==> call_ensures(
            put_contact_email_request,
            (base->0, state->0, contact_email),
            plain,
        ),
    ensures
        base is None <==> r == Err::<HttpRequest, OperationError>(OperationError::NotConfigured),
        base is Some && state is None <==> r == Err::<HttpRequest, OperationError>(
            OperationError::NotEnrolled,
        ),
        base is Some && state is Some ==> match plain {
            Ok(request) => r is Ok && r->Ok_0@ == request@,
            Err(error) => r == Err::<HttpRequest, OperationError>(OperationError::Request(error)),
        },
{
}

/// Each reason for which an operation is not carried out is told in its own words.
pub proof fn law_operation_errors_are_told_in_their_own_words(error: OperationError, r: String)
    requires
        call_ensures(OperationError::text, (&error,), r),
    ensures
        error is PasswordRequired ==> r@ == "Directory enrollment password is required"@,
        error is NotConfigured ==> r@ == "Managed directory endpoint is not configured"@,
        error is AlreadyPending ==> r@ == "Directory enrollment is already pending"@,
        error is AlreadyEnrolled ==> r@ == "Device is already enrolled"@,
        error is ContinuityUnavailable ==> r@ == "Managed device continuity state is unavailable"@,
        error is NotTurnedAway ==> r@
            == "Re-enrollment may only be requested for denied, blocked, or revoked devices"@,
        error is InvalidRequestState ==> r@
            == "Directory returned an invalid re-enrollment request state"@,
        error is DifferentDevice ==> r@ == "Re-enrollment response belongs to a different device"@,
        error is NotEnrolled ==> r@ == "Device is not enrolled"@,
        error matches OperationError::Request(error) ==> r@ == error_text(error),
{
}

} // verus!
