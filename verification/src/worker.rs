//! The directory worker: what it does next, given what happened last. It performs
//! nothing itself; whoever runs it performs each action and reports the outcome.

use crate::api_error::{
    error_delay, failures_after, plain_error, worker_error_delay, DirectoryApiError,
    DirectoryApiErrorKind, DIRECTORY_IDLE_SECONDS, DIRECTORY_RETRY_BASE_SECONDS,
    DIRECTORY_RETRY_MAX_SECONDS,
};
use crate::api_types::{
    DeviceMeResponse, DirectoryIdentity, DirectoryResponse, EnrollmentResponse,
    EnrollmentStatusResponse, HeartbeatResponse, RelayLeaseResponse,
};
use crate::directory_state::{
    clear_directory_snapshot, management_snapshot_from_status, set_state, status_members,
    store_directory_snapshot, DirectoryRuntime, DirectoryState, RuntimeView,
};
use crate::json::rendered;
use crate::persisted_auth::{
    approved_credential, device_me_fault, device_status, enrollment_fault,
    has_approved_credential, is_turned_away,
    pending_enrollment, pending_state_from_enrollment, runtime_state_from_persisted_status,
    runtime_state_of, state_from_enrollment_status, status_applied, status_fault, turned_away,
    PersistedDirectoryAuth, PersistedEnrollmentStatus,
};
use crate::requests::{
    completion_request, device_me_request, directory_request, get_device_me_request,
    get_directory_request, heartbeat_request, post_enrollment_status_request,
    post_heartbeat_request, post_reenrollment_complete, post_relay_lease_request,
    relay_lease_request, status_request, HttpRequest, RequestView,
};
use crate::responses::{
    accept_device_me, heartbeat_valid, normalized_directory, refresh_interval, relay_lease_valid,
    shown_directory, validate_heartbeat_response, validate_relay_lease_response, DirectoryView,
    DIRECTORY_HEARTBEAT_SECONDS,
};
use crate::schedule::{in_nanos, nanos, ApprovedSchedule, NANOS_PER_SECOND, TIME_LIMIT};
use crate::text::{borrowed_or_empty, copied_text, optional_view, same_text, text_or_empty};
use crate::web::URL_TEXT_LIMIT;
use vstd::prelude::*;
use vstd::string::*;

verus! {

/// Where the worker is: what it waits for, and what it will need then.
pub enum WorkerStep {
    /// The stored enrollment is being read for the first time.
    Restoring,
    /// There is no directory to work with.
    Unconfigured,
    Sleeping,
    /// The stored enrollment is being read.
    Reading,
    PendingStatus(PersistedDirectoryAuth),
    PendingWriting { status: PersistedEnrollmentStatus, poll_after_seconds: Option<u64> },
    TerminalStatus(PersistedDirectoryAuth),
    TerminalWriting { updated: PersistedDirectoryAuth, authorized: bool },
    ReenrollmentIdentity(PersistedDirectoryAuth),
    ReenrollmentSent(DirectoryIdentity),
    ReenrollmentWriting,
    ApprovedIdentity(PersistedDirectoryAuth),
    DeviceMe(PersistedDirectoryAuth, DirectoryIdentity),
    Heartbeat(PersistedDirectoryAuth),
    Directory(PersistedDirectoryAuth),
    DirectorySnapshot { state: PersistedDirectoryAuth, refresh_seconds: u64 },
    RelayLease(PersistedDirectoryAuth),
    /// Everything that was due is done; the log is being uploaded, where that is due.
    LogUpload(PersistedDirectoryAuth),
    /// A credential was rejected; the stored enrollment is being read again.
    Resolving,
    ResolvingStatus(PersistedDirectoryAuth),
    ResolvingRefusal(PersistedEnrollmentStatus),
    ResolvingReplacement,
    Stopped,
}

/// What happened.
pub enum WorkerEvent {
    StateFound(PersistedDirectoryAuth),
    StateAbsent,
    StateUnreadable,
    IdentityFound(DirectoryIdentity),
    IdentityUnavailable,
    StatusReceived(EnrollmentStatusResponse),
    EnrollmentReceived(EnrollmentResponse),
    DeviceMeReceived(DeviceMeResponse),
    /// The answer to a heartbeat, and whether it asks for a fresh log.
    HeartbeatReceived { response: HeartbeatResponse, debug_log_requested: bool },
    DirectoryReceived(DirectoryResponse),
    /// The JSON text of the directory that was to be serialized, where it has one.
    DirectorySerialized(Option<String>),
    RelayLeaseReceived(RelayLeaseResponse),
    /// The log was uploaded, or it was not due, or there was none, or that failed.
    LogUploadTried,
    RequestFailed(DirectoryApiError),
    Written,
    WriteFailed,
    Slept,
}

/// The kind of answer that a request has.
#[derive(Debug, Clone, Copy, PartialEq, Eq, Structural)]
pub enum Expected {
    Status,
    Enrollment,
    DeviceMe,
    Heartbeat,
    Directory,
    RelayLease,
}

impl Expected {
    /// The name of the operation that has such an answer.
    pub open spec fn name(self) -> &'static str {
        match self {
            Expected::Status => "directory enrollment status",
            Expected::Enrollment => "directory re-enrollment recovery",
            Expected::DeviceMe => "directory device identity",
            Expected::Heartbeat => "directory heartbeat",
            Expected::Directory => "directory download",
            Expected::RelayLease => "directory relay lease",
        }
    }

    /// The name of the operation that has such an answer.
    pub fn operation(&self) -> (r: &'static str)
        ensures
            r == self.name(),
    {
        match self {
            Expected::Status => "directory enrollment status",
            Expected::Enrollment => "directory re-enrollment recovery",
            Expected::DeviceMe => "directory device identity",
            Expected::Heartbeat => "directory heartbeat",
            Expected::Directory => "directory download",
            Expected::RelayLease => "directory relay lease",
        }
    }
}

/// What to do next.
pub enum WorkerAction {
    ReadState,
    ReadIdentity,
    /// Send a request, whose answer is of the given kind.
    Send(HttpRequest, Expected),
    WriteState(PersistedDirectoryAuth),
    SerializeDirectory(DirectoryResponse),
    /// Upload the log where that is due; where it is forced, it is.
    UploadLog { credential: String, force: bool },
    /// Rest for so many nanoseconds.
    Sleep(u128),
    Stop,
    /// The event is not one that the worker waits for.
    OutOfTurn,
}

/// The mathematical form of an action.
pub enum ActionView {
    ReadState,
    ReadIdentity,
    Send(RequestView, Expected),
    WriteState(PersistedDirectoryAuth),
    SerializeDirectory(DirectoryView),
    UploadLog { credential: Seq<char>, force: bool },
    Sleep(u128),
    Stop,
    OutOfTurn,
}

impl View for WorkerAction {
    type V = ActionView;

    open spec fn view(&self) -> ActionView {
        match *self {
            WorkerAction::ReadState => ActionView::ReadState,
            WorkerAction::ReadIdentity => ActionView::ReadIdentity,
            WorkerAction::Send(request, expected) => ActionView::Send(request@, expected),
            WorkerAction::WriteState(state) => ActionView::WriteState(state),
            WorkerAction::SerializeDirectory(response) => ActionView::SerializeDirectory(
                response@,
            ),
            WorkerAction::UploadLog { credential, force } => ActionView::UploadLog {
                credential: credential@,
                force,
            },
            WorkerAction::Sleep(nanos) => ActionView::Sleep(nanos),
            WorkerAction::Stop => ActionView::Stop,
            WorkerAction::OutOfTurn => ActionView::OutOfTurn,
        }
    }
}

/// What a turn depends on besides the step and the event.
pub struct Here {
    /// Where the directory is, if there is one.
    pub base: Option<Seq<char>>,
    /// Where relay leases are issued, if not there.
    pub relay_base: Option<Seq<char>>,
    pub runtime: RuntimeView,
    pub schedule: ApprovedSchedule,
    pub failures: u32,
    /// The last heartbeat was answered with a request for a fresh log.
    pub log_requested: bool,
    pub now: u128,
}

impl Here {
    /// The same, in another runtime state.
    pub open spec fn in_state(self, state: DirectoryState) -> Here {
        Here { runtime: RuntimeView { state, ..self.runtime }, ..self }
    }

    /// The same, showing another snapshot.
    pub open spec fn showing(self, snapshot: Seq<char>) -> Here {
        Here { runtime: RuntimeView { snapshot, ..self.runtime }, ..self }
    }

    /// The same, after so many failures in a row.
    pub open spec fn after_failures(self, failures: u32) -> Here {
        Here { failures, ..self }
    }

    /// The same, on another schedule.
    pub open spec fn on(self, schedule: ApprovedSchedule) -> Here {
        Here { schedule, ..self }
    }

    /// The same, after an answer that asked for a fresh log, or did not.
    pub open spec fn with_log_requested(self, log_requested: bool) -> Here {
        Here { log_requested, ..self }
    }

    pub open spec fn base_text(self) -> Seq<char> {
        match self.base {
            Some(base) => base,
            None => Seq::empty(),
        }
    }

    pub open spec fn relay_text(self) -> Seq<char> {
        match self.relay_base {
            Some(base) => base,
            None => self.base_text(),
        }
    }
}

/// What a turn leaves: the situation after it, the step, and what to do.
pub struct Turn {
    pub here: Here,
    pub step: WorkerStep,
    pub action: ActionView,
}

/// Go on with `action`, and wait for its outcome at `step`.
pub open spec fn proceed(h: Here, step: WorkerStep, action: ActionView) -> Turn {
    Turn { here: h, step, action }
}

/// Rest for so many seconds.
pub open spec fn rest(h: Here, seconds: u64) -> Turn {
    proceed(h, WorkerStep::Sleeping, ActionView::Sleep(in_nanos(seconds)))
}

/// Rest after an error for as long as it asks for.
pub open spec fn rest_after(h: Here, error: DirectoryApiError) -> Turn {
    rest(h.after_failures(failures_after(error, h.failures)), error_delay(error, h.failures))
}

/// Rest after an error, but not longer than the longest retry delay.
pub open spec fn rest_briefly_after(h: Here, error: DirectoryApiError) -> Turn {
    rest(
        h.after_failures(failures_after(error, h.failures)),
        if error_delay(error, h.failures) < 30 {
            error_delay(error, h.failures)
        } else {
            30
        },
    )
}

/// The error of a request that the device is not set up for.
pub open spec fn not_set_up(operation: &'static str) -> DirectoryApiError {
    plain_error(operation, DirectoryApiErrorKind::Configuration)
}

/// The error of an answer that is not taken.
pub open spec fn not_taken(operation: &'static str) -> DirectoryApiError {
    plain_error(operation, DirectoryApiErrorKind::InvalidResponse)
}

/// The status of a pending enrollment could not be had.
pub open spec fn pending_failed(h: Here, error: DirectoryApiError) -> Turn {
    rest_after(h.in_state(DirectoryState::Unavailable), error)
}

/// Ask for the status of a pending enrollment.
pub open spec fn begin_pending(h: Here, state: PersistedDirectoryAuth) -> Turn {
    match status_request(h.base_text(), state) {
        Some(request) => proceed(
            h,
            WorkerStep::PendingStatus(state),
            ActionView::Send(request, Expected::Status),
        ),
        None => pending_failed(h, not_set_up("directory enrollment status")),
    }
}

/// The status of a pending enrollment has come.
pub open spec fn after_pending_status(
    h: Here,
    state: PersistedDirectoryAuth,
    response: EnrollmentStatusResponse,
) -> Turn {
    let h = h.showing(rendered(status_members(response)));
    if status_fault(state, response) is Some {
        rest(h.in_state(DirectoryState::Unavailable), DIRECTORY_IDLE_SECONDS)
    } else {
        let updated = status_applied(state, response);
        proceed(
            h,
            WorkerStep::PendingWriting {
                status: updated.status,
                poll_after_seconds: updated.poll_after_seconds,
            },
            ActionView::WriteState(updated),
        )
    }
}

/// How long to rest after the status of a pending enrollment was stored.
pub open spec fn pending_rest(
    status: PersistedEnrollmentStatus,
    poll_after_seconds: Option<u64>,
) -> u64 {
    match status {
        PersistedEnrollmentStatus::Pending => match poll_after_seconds {
            Some(seconds) => if seconds < 1 {
                1
            } else {
                seconds
            },
            None => 10,
        },
        PersistedEnrollmentStatus::Approved => 1,
        _ => DIRECTORY_IDLE_SECONDS,
    }
}

/// The status of a turned-away device could not be had.
pub open spec fn terminal_failed(
    h: Here,
    state: PersistedDirectoryAuth,
    error: DirectoryApiError,
) -> Turn {
    rest_briefly_after(h.in_state(runtime_state_of(state.status)), error)
}

/// Ask for the status of a turned-away device.
pub open spec fn begin_terminal(h: Here, state: PersistedDirectoryAuth) -> Turn {
    match status_request(h.base_text(), state) {
        Some(request) => proceed(
            h,
            WorkerStep::TerminalStatus(state),
            ActionView::Send(request, Expected::Status),
        ),
        None => terminal_failed(h, state, not_set_up("directory enrollment status")),
    }
}

/// The status of a turned-away device has come.
pub open spec fn after_terminal_status(
    h: Here,
    state: PersistedDirectoryAuth,
    response: EnrollmentStatusResponse,
) -> Turn {
    let h = h.showing(rendered(status_members(response)));
    if status_fault(state, response) is Some {
        rest(h.in_state(DirectoryState::Unavailable), DIRECTORY_RETRY_BASE_SECONDS)
    } else {
        let updated = status_applied(state, response);
        proceed(
            h,
            WorkerStep::TerminalWriting { updated, authorized: response.reenrollment_authorized },
            ActionView::WriteState(updated),
        )
    }
}

/// How long a turned-away device rests between two looks at its status: as long as
/// the server asks for, but between five and thirty seconds.
pub open spec fn terminal_rest(poll_after_seconds: Option<u64>) -> u64 {
    let seconds = match poll_after_seconds {
        Some(seconds) => seconds,
        None => 15,
    };
    if seconds < 5 {
        5
    } else if seconds > 30 {
        30
    } else {
        seconds
    }
}

/// The status of a turned-away device was stored. A device whose re-enrollment is
/// authorized completes it.
pub open spec fn after_terminal_write(
    h: Here,
    updated: PersistedDirectoryAuth,
    authorized: bool,
) -> Turn {
    let h = h.in_state(runtime_state_of(updated.status)).after_failures(0);
    if authorized && turned_away(updated.status) {
        proceed(h, WorkerStep::ReenrollmentIdentity(updated), ActionView::ReadIdentity)
    } else {
        rest(h, terminal_rest(updated.poll_after_seconds))
    }
}

/// Complete an authorized re-enrollment.
pub open spec fn begin_reenrollment(
    h: Here,
    state: PersistedDirectoryAuth,
    identity: DirectoryIdentity,
) -> Turn {
    match completion_request(h.base_text(), state, identity) {
        Some(request) => proceed(
            h,
            WorkerStep::ReenrollmentSent(identity),
            ActionView::Send(request, Expected::Enrollment),
        ),
        None => rest_briefly_after(h, not_set_up("directory re-enrollment recovery")),
    }
}

/// The answer to a completed re-enrollment has come.
pub open spec fn after_reenrollment(
    h: Here,
    identity: DirectoryIdentity,
    response: EnrollmentResponse,
) -> Turn {
    if enrollment_fault(identity, response) is Some {
        rest(h, 15)
    } else {
        proceed(
            h,
            WorkerStep::ReenrollmentWriting,
            ActionView::WriteState(pending_enrollment(identity, response)),
        )
    }
}

/// A request of an approved device failed. A rejected credential has the stored
/// enrollment looked at again.
pub open spec fn approved_failed(h: Here, error: DirectoryApiError) -> Turn {
    let h = h.in_state(DirectoryState::Unavailable);
    if error.kind == DirectoryApiErrorKind::Unauthorized || error.kind
        == DirectoryApiErrorKind::Forbidden {
        proceed(h, WorkerStep::Resolving, ActionView::ReadState)
    } else {
        rest_after(h, error)
    }
}

/// Rest until something is due again.
pub open spec fn rest_until_due(h: Here) -> Turn {
    proceed(h, WorkerStep::Sleeping, ActionView::Sleep(h.schedule.wait(h.now)))
}

/// Everything that was due is done. Once a cycle the log is uploaded, where that is due
/// or was asked for.
pub open spec fn finish_approved(h: Here, state: PersistedDirectoryAuth) -> Turn {
    let h = h.in_state(DirectoryState::Ready);
    if has_approved_credential(state) {
        proceed(
            h,
            WorkerStep::LogUpload(state),
            ActionView::UploadLog {
                credential: text_or_empty(state.device_credential),
                force: h.log_requested,
            },
        )
    } else {
        rest_until_due(h)
    }
}

/// Renew the relay lease, where that is due.
pub open spec fn lease_due(h: Here, state: PersistedDirectoryAuth) -> Turn {
    if h.now >= h.schedule.next_relay_lease {
        match relay_lease_request(h.relay_text(), state) {
            Some(request) => proceed(
                h,
                WorkerStep::RelayLease(state),
                ActionView::Send(request, Expected::RelayLease),
            ),
            None => approved_failed(h, not_set_up("directory relay lease")),
        }
    } else {
        finish_approved(h, state)
    }
}

/// Get the directory, where that is due.
pub open spec fn directory_due(h: Here, state: PersistedDirectoryAuth) -> Turn {
    if h.now >= h.schedule.next_directory {
        match directory_request(h.base_text(), state) {
            Some(request) => proceed(
                h,
                WorkerStep::Directory(state),
                ActionView::Send(request, Expected::Directory),
            ),
            None => approved_failed(h, not_set_up("directory download")),
        }
    } else {
        lease_due(h, state)
    }
}

/// Send a heartbeat, where that is due.
pub open spec fn heartbeat_due(
    h: Here,
    state: PersistedDirectoryAuth,
    identity: DirectoryIdentity,
) -> Turn {
    if h.now >= h.schedule.next_heartbeat {
        match heartbeat_request(h.base_text(), state, identity) {
            Some(request) => proceed(
                h,
                WorkerStep::Heartbeat(state),
                ActionView::Send(request, Expected::Heartbeat),
            ),
            None => approved_failed(h, not_set_up("directory heartbeat")),
        }
    } else {
        directory_due(h, state)
    }
}

/// A cycle of an approved device begins. Unless it is Ready, its credential is
/// confirmed first.
pub open spec fn begin_approved(
    h: Here,
    state: PersistedDirectoryAuth,
    identity: DirectoryIdentity,
) -> Turn {
    if h.runtime.state != DirectoryState::Ready {
        match device_me_request(h.base_text(), state) {
            Some(request) => proceed(
                h,
                WorkerStep::DeviceMe(state, identity),
                ActionView::Send(request, Expected::DeviceMe),
            ),
            None => approved_failed(h, not_set_up("directory device identity")),
        }
    } else {
        heartbeat_due(h, state, identity)
    }
}

/// The identity that the credential stands for has come.
pub open spec fn after_device_me(
    h: Here,
    state: PersistedDirectoryAuth,
    identity: DirectoryIdentity,
    response: DeviceMeResponse,
) -> Turn {
    if device_me_fault(state, response) is None {
        heartbeat_due(h.after_failures(0).in_state(DirectoryState::Ready), state, identity)
    } else {
        approved_failed(h, not_taken("directory device identity"))
    }
}

/// The answer to a heartbeat has come.
pub open spec fn after_heartbeat(
    h: Here,
    state: PersistedDirectoryAuth,
    response: HeartbeatResponse,
    debug_log_requested: bool,
) -> Turn {
    if heartbeat_valid(response) {
        directory_due(
            h.after_failures(0).with_log_requested(debug_log_requested).on(
                ApprovedSchedule {
                    next_heartbeat: (h.now + in_nanos(DIRECTORY_HEARTBEAT_SECONDS)) as u128,
                    ..h.schedule
                },
            ),
            state,
        )
    } else {
        approved_failed(h, not_taken("directory heartbeat"))
    }
}

/// At least one second.
pub open spec fn at_least_one(seconds: u64) -> u64 {
    if seconds < 1 {
        1
    } else {
        seconds
    }
}

/// The directory has its text.
pub open spec fn after_directory(
    h: Here,
    state: PersistedDirectoryAuth,
    refresh_seconds: u64,
    snapshot: Option<Seq<char>>,
) -> Turn {
    let shown = match snapshot {
        Some(text) => h.showing(text),
        None => h,
    };
    lease_due(
        shown.after_failures(0).on(
            ApprovedSchedule {
                next_directory: (h.now + in_nanos(at_least_one(refresh_seconds))) as u128,
                ..h.schedule
            },
        ),
        state,
    )
}

/// A relay lease has come.
pub open spec fn after_relay_lease(
    h: Here,
    state: PersistedDirectoryAuth,
    response: RelayLeaseResponse,
) -> Turn {
    if relay_lease_valid(state, response) {
        finish_approved(
            h.after_failures(0).on(
                ApprovedSchedule {
                    next_relay_lease: (h.now + in_nanos(
                        at_least_one(response.renew_after_seconds),
                    )) as u128,
                    ..h.schedule
                },
            ),
            state,
        )
    } else {
        approved_failed(h, not_taken("directory relay lease"))
    }
}

/// The enrollment behind a rejected credential was read: ask for its status.
pub open spec fn begin_resolving(h: Here, current: PersistedDirectoryAuth) -> Turn {
    match status_request(h.base_text(), current) {
        Some(request) => proceed(
            h,
            WorkerStep::ResolvingStatus(current),
            ActionView::Send(request, Expected::Status),
        ),
        None => rest_after(
            h.in_state(DirectoryState::Unavailable),
            not_set_up("directory enrollment status"),
        ),
    }
}

/// The credential that `updated` has is another one than the rejected one.
pub open spec fn credential_replaced(
    rejected: PersistedDirectoryAuth,
    updated: PersistedDirectoryAuth,
) -> bool {
    text_or_empty(updated.device_credential).len() > 0 && optional_view(updated.device_credential)
        != optional_view(rejected.device_credential)
}

/// The status behind a rejected credential has come. A refusal is stored, and so is
/// a credential that replaces the rejected one; the rejected one itself is not taken
/// up again.
pub open spec fn after_resolving_status(
    h: Here,
    current: PersistedDirectoryAuth,
    response: EnrollmentStatusResponse,
) -> Turn {
    if status_fault(current, response) is Some {
        rest(h.in_state(DirectoryState::Unavailable), DIRECTORY_IDLE_SECONDS)
    } else {
        let updated = status_applied(current, response);
        if turned_away(updated.status) {
            proceed(
                h,
                WorkerStep::ResolvingRefusal(updated.status),
                ActionView::WriteState(updated),
            )
        } else if updated.status == PersistedEnrollmentStatus::Approved {
            if credential_replaced(current, updated) {
                proceed(h, WorkerStep::ResolvingReplacement, ActionView::WriteState(updated))
            } else {
                rest(
                    h.in_state(DirectoryState::Unavailable).after_failures(0),
                    DIRECTORY_RETRY_MAX_SECONDS,
                )
            }
        } else {
            rest(
                h.in_state(DirectoryState::Unavailable).after_failures(0),
                DIRECTORY_IDLE_SECONDS,
            )
        }
    }
}

/// The stored enrollment was read at the start of a cycle.
pub open spec fn begin_cycle(h: Here, state: PersistedDirectoryAuth) -> Turn {
    match state.status {
        PersistedEnrollmentStatus::Pending => begin_pending(
            h.on(ApprovedSchedule::all_due(h.now)),
            state,
        ),
        PersistedEnrollmentStatus::Approved => proceed(
            h,
            WorkerStep::ApprovedIdentity(state),
            ActionView::ReadIdentity,
        ),
        PersistedEnrollmentStatus::Denied
        | PersistedEnrollmentStatus::Blocked
        | PersistedEnrollmentStatus::Revoked => begin_terminal(
            h.on(ApprovedSchedule::all_due(h.now)),
            state,
        ),
        PersistedEnrollmentStatus::NotEnrolled => rest(
            h.after_failures(0).in_state(DirectoryState::NotEnrolled),
            5,
        ),
    }
}

/// The stored enrollment was read for the first time: the runtime state follows it,
/// and the cycles begin where there is a directory.
pub open spec fn after_restoring(h: Here, state: DirectoryState) -> Turn {
    let h = h.in_state(state);
    match h.base {
        Some(_) => proceed(
            h.after_failures(0).on(ApprovedSchedule::all_due(h.now)),
            WorkerStep::Reading,
            ActionView::ReadState,
        ),
        None => proceed(
            h,
            WorkerStep::Unconfigured,
            ActionView::Sleep(in_nanos(DIRECTORY_IDLE_SECONDS)),
        ),
    }
}

/// The event is not one that the worker waits for.
pub open spec fn out_of_turn(h: Here, step: WorkerStep) -> Turn {
    proceed(h, step, ActionView::OutOfTurn)
}

/// Turns between two cycles.
pub open spec fn between_cycles(h: Here, step: WorkerStep, event: WorkerEvent) -> Turn {
    match step {
        WorkerStep::Restoring => match event {
            WorkerEvent::StateFound(state) => after_restoring(h, runtime_state_of(state.status)),
            WorkerEvent::StateAbsent => after_restoring(h, DirectoryState::NotEnrolled),
            WorkerEvent::StateUnreadable => proceed(h, WorkerStep::Stopped, ActionView::Stop),
            _ => out_of_turn(h, step),
        },
        WorkerStep::Unconfigured => match event {
            WorkerEvent::Slept => proceed(
                h,
                WorkerStep::Unconfigured,
                ActionView::Sleep(in_nanos(DIRECTORY_IDLE_SECONDS)),
            ),
            _ => out_of_turn(h, step),
        },
        WorkerStep::Sleeping => match event {
            WorkerEvent::Slept => proceed(h, WorkerStep::Reading, ActionView::ReadState),
            _ => out_of_turn(h, step),
        },
        WorkerStep::Reading => match event {
            WorkerEvent::StateFound(state) => begin_cycle(h, state),
            WorkerEvent::StateAbsent => rest(h.in_state(DirectoryState::NotEnrolled), 5),
            WorkerEvent::StateUnreadable => rest(
                h.in_state(DirectoryState::Unavailable),
                DIRECTORY_IDLE_SECONDS,
            ),
            _ => out_of_turn(h, step),
        },
        _ => out_of_turn(h, step),
    }
}

/// Turns of a device whose enrollment is pending.
pub open spec fn while_pending(h: Here, step: WorkerStep, event: WorkerEvent) -> Turn {
    match step {
        WorkerStep::PendingStatus(state) => match event {
            WorkerEvent::StatusReceived(response) => after_pending_status(h, state, response),
            WorkerEvent::RequestFailed(error) => pending_failed(h, error),
            _ => out_of_turn(h, step),
        },
        WorkerStep::PendingWriting { status, poll_after_seconds } => match event {
            WorkerEvent::Written => rest(
                h.in_state(runtime_state_of(status)).after_failures(0),
                pending_rest(status, poll_after_seconds),
            ),
            WorkerEvent::WriteFailed => rest(
                h.in_state(DirectoryState::Unavailable),
                DIRECTORY_IDLE_SECONDS,
            ),
            _ => out_of_turn(h, step),
        },
        _ => out_of_turn(h, step),
    }
}

/// Turns of a device that was turned away.
pub open spec fn while_turned_away(h: Here, step: WorkerStep, event: WorkerEvent) -> Turn {
    match step {
        WorkerStep::TerminalStatus(state) => match event {
            WorkerEvent::StatusReceived(response) => after_terminal_status(h, state, response),
            WorkerEvent::RequestFailed(error) => terminal_failed(h, state, error),
            _ => out_of_turn(h, step),
        },
        WorkerStep::TerminalWriting { updated, authorized } => match event {
            WorkerEvent::Written => after_terminal_write(h, updated, authorized),
            WorkerEvent::WriteFailed => rest(
                h.in_state(DirectoryState::Unavailable),
                DIRECTORY_RETRY_BASE_SECONDS,
            ),
            _ => out_of_turn(h, step),
        },
        WorkerStep::ReenrollmentIdentity(state) => match event {
            WorkerEvent::IdentityFound(identity) => begin_reenrollment(h, state, identity),
            WorkerEvent::IdentityUnavailable => rest(h, 15),
            _ => out_of_turn(h, step),
        },
        WorkerStep::ReenrollmentSent(identity) => match event {
            WorkerEvent::EnrollmentReceived(response) => after_reenrollment(h, identity, response),
            WorkerEvent::RequestFailed(error) => rest_briefly_after(h, error),
            _ => out_of_turn(h, step),
        },
        WorkerStep::ReenrollmentWriting => match event {
            WorkerEvent::Written => rest(
                h.showing(Seq::empty()).in_state(DirectoryState::Pending),
                1,
            ),
            WorkerEvent::WriteFailed => rest(h, 15),
            _ => out_of_turn(h, step),
        },
        _ => out_of_turn(h, step),
    }
}

/// Turns of an approved device.
pub open spec fn while_approved(h: Here, step: WorkerStep, event: WorkerEvent) -> Turn {
    match step {
        WorkerStep::ApprovedIdentity(state) => match event {
            WorkerEvent::IdentityFound(identity) => begin_approved(h, state, identity),
            WorkerEvent::IdentityUnavailable => rest(
                h.in_state(DirectoryState::Unavailable),
                DIRECTORY_IDLE_SECONDS,
            ),
            _ => out_of_turn(h, step),
        },
        WorkerStep::DeviceMe(state, identity) => match event {
            WorkerEvent::DeviceMeReceived(response) => after_device_me(
                h,
                state,
                identity,
                response,
            ),
            WorkerEvent::RequestFailed(error) => approved_failed(h, error),
            _ => out_of_turn(h, step),
        },
        WorkerStep::Heartbeat(state) => match event {
            WorkerEvent::HeartbeatReceived { response, debug_log_requested } => after_heartbeat(
                h,
                state,
                response,
                debug_log_requested,
            ),
            WorkerEvent::RequestFailed(error) => approved_failed(h, error),
            _ => out_of_turn(h, step),
        },
        WorkerStep::Directory(state) => match event {
            WorkerEvent::DirectoryReceived(response) => proceed(
                h,
                WorkerStep::DirectorySnapshot {
                    state,
                    refresh_seconds: refresh_interval(response.refresh_seconds),
                },
                ActionView::SerializeDirectory(shown_directory(response@, state)),
            ),
            WorkerEvent::RequestFailed(error) => approved_failed(h, error),
            _ => out_of_turn(h, step),
        },
        WorkerStep::DirectorySnapshot { state, refresh_seconds } => match event {
            WorkerEvent::DirectorySerialized(snapshot) => after_directory(
                h,
                state,
                refresh_seconds,
                optional_view(snapshot),
            ),
            _ => out_of_turn(h, step),
        },
        WorkerStep::RelayLease(state) => match event {
            WorkerEvent::RelayLeaseReceived(response) => after_relay_lease(h, state, response),
            WorkerEvent::RequestFailed(error) => approved_failed(h, error),
            _ => out_of_turn(h, step),
        },
        WorkerStep::LogUpload(_) => match event {
            WorkerEvent::LogUploadTried => rest_until_due(h),
            _ => out_of_turn(h, step),
        },
        _ => out_of_turn(h, step),
    }
}

/// Turns that look into a rejected credential.
pub open spec fn while_resolving(h: Here, step: WorkerStep, event: WorkerEvent) -> Turn {
    match step {
        WorkerStep::Resolving => match event {
            WorkerEvent::StateFound(state) => begin_resolving(h, state),
            WorkerEvent::StateAbsent | WorkerEvent::StateUnreadable => rest(
                h.in_state(DirectoryState::Unavailable),
                DIRECTORY_IDLE_SECONDS,
            ),
            _ => out_of_turn(h, step),
        },
        WorkerStep::ResolvingStatus(current) => match event {
            WorkerEvent::StatusReceived(response) => after_resolving_status(h, current, response),
            WorkerEvent::RequestFailed(error) => rest_after(
                h.in_state(DirectoryState::Unavailable),
                error,
            ),
            _ => out_of_turn(h, step),
        },
        WorkerStep::ResolvingRefusal(status) => match event {
            WorkerEvent::Written => rest(
                h.in_state(runtime_state_of(status)).after_failures(0),
                DIRECTORY_IDLE_SECONDS,
            ),
            WorkerEvent::WriteFailed => rest(
                h.in_state(DirectoryState::Unavailable),
                DIRECTORY_IDLE_SECONDS,
            ),
            _ => out_of_turn(h, step),
        },
        WorkerStep::ResolvingReplacement => match event {
            WorkerEvent::Written => rest(
                h.in_state(DirectoryState::Unavailable).after_failures(0),
                1,
            ),
            WorkerEvent::WriteFailed => rest(
                h.in_state(DirectoryState::Unavailable).after_failures(0),
                DIRECTORY_RETRY_MAX_SECONDS,
            ),
            _ => out_of_turn(h, step),
        },
        _ => out_of_turn(h, step),
    }
}

/// What the worker does at `step` when `event` happens.
pub open spec fn transition(h: Here, step: WorkerStep, event: WorkerEvent) -> Turn {
    match step {
        WorkerStep::Restoring
        | WorkerStep::Unconfigured
        | WorkerStep::Sleeping
        | WorkerStep::Reading => between_cycles(h, step, event),
        WorkerStep::PendingStatus(_)
        | WorkerStep::PendingWriting { .. } => while_pending(h, step, event),
        WorkerStep::TerminalStatus(_)
        | WorkerStep::TerminalWriting { .. }
        | WorkerStep::ReenrollmentIdentity(_)
        | WorkerStep::ReenrollmentSent(_)
        | WorkerStep::ReenrollmentWriting => while_turned_away(h, step, event),
        WorkerStep::ApprovedIdentity(_)
        | WorkerStep::DeviceMe(_, _)
        | WorkerStep::Heartbeat(_)
        | WorkerStep::Directory(_)
        | WorkerStep::DirectorySnapshot { .. }
        | WorkerStep::RelayLease(_)
        | WorkerStep::LogUpload(_) => while_approved(h, step, event),
        WorkerStep::Resolving
        | WorkerStep::ResolvingStatus(_)
        | WorkerStep::ResolvingRefusal(_)
        | WorkerStep::ResolvingReplacement => while_resolving(h, step, event),
        WorkerStep::Stopped => out_of_turn(h, step),
    }
}

/// The directory worker.
pub struct Worker {
    pub base_url: Option<String>,
    pub relay_lease_base_url: Option<String>,
    pub schedule: ApprovedSchedule,
    pub consecutive_failures: u32,
    pub log_requested: bool,
    pub step: WorkerStep,
}

impl Worker {
    /// Its addresses are short enough to be worked with.
    pub open spec fn well_formed(self) -> bool {
        &&& self.base_url is Some ==> self.base_url->0@.len() <= URL_TEXT_LIMIT
        &&& self.relay_lease_base_url is Some ==> self.relay_lease_base_url->0@.len()
            <= URL_TEXT_LIMIT
    }

    /// It works with the same addresses as `other`.
    pub open spec fn same_places(self, other: Worker) -> bool {
        self.base_url == other.base_url && self.relay_lease_base_url == other.relay_lease_base_url
    }

    /// What its turns depend on.
    pub open spec fn here(self, runtime: RuntimeView, now: u128) -> Here {
        Here {
            base: optional_view(self.base_url),
            relay_base: optional_view(self.relay_lease_base_url),
            runtime,
            schedule: self.schedule,
            failures: self.consecutive_failures,
            log_requested: self.log_requested,
            now,
        }
    }

    /// The turn that left the worker and the runtime as they are.
    pub open spec fn turn(
        self,
        runtime: RuntimeView,
        now: u128,
        outcome: (WorkerStep, WorkerAction),
    ) -> Turn {
        Turn { here: self.here(runtime, now), step: outcome.0, action: outcome.1@ }
    }

    /// A worker at its start. The first thing to do is to read the stored enrollment.
    pub fn new(
        base_url: Option<String>,
        relay_lease_base_url: Option<String>,
        now: u128,
    ) -> (r: Self)
        ensures
            r == (Worker {
                base_url,
                relay_lease_base_url,
                schedule: ApprovedSchedule::all_due(now),
                consecutive_failures: 0,
                log_requested: false,
                step: WorkerStep::Restoring,
            }),
    {
        Worker {
            base_url,
            relay_lease_base_url,
            schedule: ApprovedSchedule::due_now(now),
            consecutive_failures: 0,
            log_requested: false,
            step: WorkerStep::Restoring,
        }
    }

    fn base(&self) -> (r: &str)
        requires
            self.well_formed(),
        ensures
            r@ == text_or_empty(self.base_url),
            r@.len() <= URL_TEXT_LIMIT,
    {
        borrowed_or_empty(&self.base_url)
    }

    fn relay_base(&self) -> (r: &str)
        requires
            self.well_formed(),
        ensures
            r@ == (match self.relay_lease_base_url {
                Some(base) => base@,
                None => text_or_empty(self.base_url),
            }),
            r@.len() <= URL_TEXT_LIMIT,
    {
        match &self.relay_lease_base_url {
            Some(base) => base.as_str(),
            None => borrowed_or_empty(&self.base_url),
        }
    }

    fn rest_in(
        &mut self,
        runtime: &mut DirectoryRuntime,
        state: DirectoryState,
        seconds: u64,
        now: u128,
    ) -> (r: (WorkerStep, WorkerAction))
        requires
            old(self).well_formed(),
        ensures
            final(self).turn(final(runtime)@, now, r) == rest(
                old(self).here(old(runtime)@, now).in_state(state),
                seconds,
            ),
            final(self).same_places(*old(self)),
    {
        set_state(runtime, state);
        (WorkerStep::Sleeping, WorkerAction::Sleep(nanos(seconds)))
    }

    fn settle_in(
        &mut self,
        runtime: &mut DirectoryRuntime,
        state: DirectoryState,
        seconds: u64,
        now: u128,
    ) -> (r: (WorkerStep, WorkerAction))
        requires
            old(self).well_formed(),
        ensures
            final(self).turn(final(runtime)@, now, r) == rest(
                old(self).here(old(runtime)@, now).in_state(state).after_failures(0),
                seconds,
            ),
            final(self).same_places(*old(self)),
    {
        set_state(runtime, state);
        self.consecutive_failures = 0;
        (WorkerStep::Sleeping, WorkerAction::Sleep(nanos(seconds)))
    }

    fn rest_after(
        &mut self,
        runtime: &mut DirectoryRuntime,
        state: DirectoryState,
        error: &DirectoryApiError,
        now: u128,
    ) -> (r: (WorkerStep, WorkerAction))
        requires
            old(self).well_formed(),
        ensures
            final(self).turn(final(runtime)@, now, r) == rest_after(
                old(self).here(old(runtime)@, now).in_state(state),
                *error,
            ),
            final(self).same_places(*old(self)),
    {
        set_state(runtime, state);
        let seconds: u64 = worker_error_delay(error, &mut self.consecutive_failures);
        (WorkerStep::Sleeping, WorkerAction::Sleep(nanos(seconds)))
    }

    fn rest_briefly_after(&mut self, error: &DirectoryApiError) -> (r: (WorkerStep, WorkerAction))
        ensures
            r.0 == WorkerStep::Sleeping,
            r.1@ == ActionView::Sleep(
                in_nanos(
                    if error_delay(*error, old(self).consecutive_failures) < 30 {
                        error_delay(*error, old(self).consecutive_failures)
                    } else {
                        30
                    },
                ),
            ),
            *final(self) == (Worker {
                consecutive_failures: failures_after(*error, old(self).consecutive_failures),
                ..*old(self)
            }),
    {
        let seconds: u64 = worker_error_delay(error, &mut self.consecutive_failures);
        let brief: u64 = if seconds < 30 {
            seconds
        } else {
            30
        };
        (WorkerStep::Sleeping, WorkerAction::Sleep(nanos(brief)))
    }

    fn begin_pending(
        &mut self,
        runtime: &mut DirectoryRuntime,
        state: PersistedDirectoryAuth,
        now: u128,
    ) -> (r: (WorkerStep, WorkerAction))
        requires
            old(self).well_formed(),
        ensures
            final(self).turn(final(runtime)@, now, r) == begin_pending(
                old(self).here(old(runtime)@, now),
                state,
            ),
            final(self).same_places(*old(self)),
    {
        match post_enrollment_status_request(self.base(), &state) {
            Ok(request) => (
                WorkerStep::PendingStatus(state),
                WorkerAction::Send(request, Expected::Status),
            ),
            Err(error) => self.rest_after(runtime, DirectoryState::Unavailable, &error, now),
        }
    }

    fn after_pending_status(
        &mut self,
        runtime: &mut DirectoryRuntime,
        state: PersistedDirectoryAuth,
        response: EnrollmentStatusResponse,
        now: u128,
    ) -> (r: (WorkerStep, WorkerAction))
        requires
            old(self).well_formed(),
        ensures
            final(self).turn(final(runtime)@, now, r) == after_pending_status(
                old(self).here(old(runtime)@, now),
                state,
                response,
            ),
            final(self).same_places(*old(self)),
    {
        management_snapshot_from_status(runtime, &response);
        match state_from_enrollment_status(state, response) {
            Ok(updated) => (
                WorkerStep::PendingWriting {
                    status: updated.status,
                    poll_after_seconds: updated.poll_after_seconds,
                },
                WorkerAction::WriteState(updated),
            ),
            Err(_) => self.rest_in(
                runtime,
                DirectoryState::Unavailable,
                DIRECTORY_IDLE_SECONDS,
                now,
            ),
        }
    }

    fn after_pending_write(
        &mut self,
        runtime: &mut DirectoryRuntime,
        status: PersistedEnrollmentStatus,
        poll_after_seconds: Option<u64>,
        now: u128,
    ) -> (r: (WorkerStep, WorkerAction))
        requires
            old(self).well_formed(),
        ensures
            final(self).turn(final(runtime)@, now, r) == rest(
                old(self).here(old(runtime)@, now).in_state(
                    runtime_state_of(status),
                ).after_failures(0),
                pending_rest(status, poll_after_seconds),
            ),
            final(self).same_places(*old(self)),
    {
        let seconds: u64 = match status {
            PersistedEnrollmentStatus::Pending => match poll_after_seconds {
                Some(seconds) => if seconds < 1 {
                    1
                } else {
                    seconds
                },
                None => 10,
            },
            PersistedEnrollmentStatus::Approved => 1,
            PersistedEnrollmentStatus::Denied
            | PersistedEnrollmentStatus::Blocked
            | PersistedEnrollmentStatus::Revoked
            | PersistedEnrollmentStatus::NotEnrolled => DIRECTORY_IDLE_SECONDS,
        };
        self.settle_in(runtime, runtime_state_from_persisted_status(&status), seconds, now)
    }

    fn terminal_failed(
        &mut self,
        runtime: &mut DirectoryRuntime,
        state: &PersistedDirectoryAuth,
        error: &DirectoryApiError,
        now: u128,
    ) -> (r: (WorkerStep, WorkerAction))
        requires
            old(self).well_formed(),
        ensures
            final(self).turn(final(runtime)@, now, r) == terminal_failed(
                old(self).here(old(runtime)@, now),
                *state,
                *error,
            ),
            final(self).same_places(*old(self)),
    {
        set_state(runtime, runtime_state_from_persisted_status(&state.status));
        self.rest_briefly_after(error)
    }

    fn begin_terminal(
        &mut self,
        runtime: &mut DirectoryRuntime,
        state: PersistedDirectoryAuth,
        now: u128,
    ) -> (r: (WorkerStep, WorkerAction))
        requires
            old(self).well_formed(),
        ensures
            final(self).turn(final(runtime)@, now, r) == begin_terminal(
                old(self).here(old(runtime)@, now),
                state,
            ),
            final(self).same_places(*old(self)),
    {
        match post_enrollment_status_request(self.base(), &state) {
            Ok(request) => (
                WorkerStep::TerminalStatus(state),
                WorkerAction::Send(request, Expected::Status),
            ),
            Err(error) => self.terminal_failed(runtime, &state, &error, now),
        }
    }

    fn after_terminal_status(
        &mut self,
        runtime: &mut DirectoryRuntime,
        state: PersistedDirectoryAuth,
        response: EnrollmentStatusResponse,
        now: u128,
    ) -> (r: (WorkerStep, WorkerAction))
        requires
            old(self).well_formed(),
        ensures
            final(self).turn(final(runtime)@, now, r) == after_terminal_status(
                old(self).here(old(runtime)@, now),
                state,
                response,
            ),
            final(self).same_places(*old(self)),
    {
        let authorized = response.reenrollment_authorized;
        management_snapshot_from_status(runtime, &response);
        match state_from_enrollment_status(state, response) {
            Ok(updated) => {
                let written = updated.duplicate();
                (
                    WorkerStep::TerminalWriting { updated, authorized },
                    WorkerAction::WriteState(written),
                )
            },
            Err(_) => self.rest_in(
                runtime,
                DirectoryState::Unavailable,
                DIRECTORY_RETRY_BASE_SECONDS,
                now,
            ),
        }
    }

    fn after_terminal_write(
        &mut self,
        runtime: &mut DirectoryRuntime,
        updated: PersistedDirectoryAuth,
        authorized: bool,
        now: u128,
    ) -> (r: (WorkerStep, WorkerAction))
        requires
            old(self).well_formed(),
        ensures
            final(self).turn(final(runtime)@, now, r) == after_terminal_write(
                old(self).here(old(runtime)@, now),
                updated,
                authorized,
            ),
            final(self).same_places(*old(self)),
    {
        let state = runtime_state_from_persisted_status(&updated.status);
        if authorized && is_turned_away(updated.status) {
            set_state(runtime, state);
            self.consecutive_failures = 0;
            return (WorkerStep::ReenrollmentIdentity(updated), WorkerAction::ReadIdentity);
        }
        let asked: u64 = match updated.poll_after_seconds {
            Some(seconds) => seconds,
            None => 15,
        };
        let seconds: u64 = if asked < 5 {
            5
        } else if asked > 30 {
            30
        } else {
            asked
        };
        self.settle_in(runtime, state, seconds, now)
    }

    fn begin_reenrollment(
        &mut self,
        runtime: &mut DirectoryRuntime,
        state: PersistedDirectoryAuth,
        identity: DirectoryIdentity,
        now: u128,
    ) -> (r: (WorkerStep, WorkerAction))
        requires
            old(self).well_formed(),
        ensures
            final(self).turn(final(runtime)@, now, r) == begin_reenrollment(
                old(self).here(old(runtime)@, now),
                state,
                identity,
            ),
            final(self).same_places(*old(self)),
    {
        match post_reenrollment_complete(self.base(), &state, &identity) {
            Ok(request) => (
                WorkerStep::ReenrollmentSent(identity),
                WorkerAction::Send(request, Expected::Enrollment),
            ),
            Err(error) => self.rest_briefly_after(&error),
        }
    }

    fn approved_request_error_delay(
        &mut self,
        runtime: &mut DirectoryRuntime,
        error: &DirectoryApiError,
        now: u128,
    ) -> (r: (WorkerStep, WorkerAction))
        requires
            old(self).well_formed(),
        ensures
            final(self).turn(final(runtime)@, now, r) == approved_failed(
                old(self).here(old(runtime)@, now),
                *error,
            ),
            final(self).same_places(*old(self)),
    {
        if matches!(
            error.kind,
            DirectoryApiErrorKind::Unauthorized | DirectoryApiErrorKind::Forbidden
        ) {
            set_state(runtime, DirectoryState::Unavailable);
            return (WorkerStep::Resolving, WorkerAction::ReadState);
        }
        self.rest_after(runtime, DirectoryState::Unavailable, error, now)
    }

    fn finish_approved(
        &mut self,
        runtime: &mut DirectoryRuntime,
        state: PersistedDirectoryAuth,
        now: u128,
    ) -> (r: (WorkerStep, WorkerAction))
        requires
            old(self).well_formed(),
        ensures
            final(self).turn(final(runtime)@, now, r) == finish_approved(
                old(self).here(old(runtime)@, now),
                state,
            ),
            final(self).same_places(*old(self)),
    {
        set_state(runtime, DirectoryState::Ready);
        let credential = match approved_credential(&state, "debug log upload") {
            Ok(credential) => credential.to_owned(),
            Err(_) => {
                return (
                    WorkerStep::Sleeping,
                    WorkerAction::Sleep(self.schedule.next_delay(now)),
                );
            },
        };
        (
            WorkerStep::LogUpload(state),
            WorkerAction::UploadLog { credential, force: self.log_requested },
        )
    }

    fn lease_due(
        &mut self,
        runtime: &mut DirectoryRuntime,
        state: PersistedDirectoryAuth,
        now: u128,
    ) -> (r: (WorkerStep, WorkerAction))
        requires
            old(self).well_formed(),
        ensures
            final(self).turn(final(runtime)@, now, r) == lease_due(
                old(self).here(old(runtime)@, now),
                state,
            ),
            final(self).same_places(*old(self)),
    {
        if now >= self.schedule.next_relay_lease {
            match post_relay_lease_request(self.relay_base(), &state) {
                Ok(request) => (
                    WorkerStep::RelayLease(state),
                    WorkerAction::Send(request, Expected::RelayLease),
                ),
                Err(error) => self.approved_request_error_delay(runtime, &error, now),
            }
        } else {
            self.finish_approved(runtime, state, now)
        }
    }

    fn directory_due(
        &mut self,
        runtime: &mut DirectoryRuntime,
        state: PersistedDirectoryAuth,
        now: u128,
    ) -> (r: (WorkerStep, WorkerAction))
        requires
            old(self).well_formed(),
        ensures
            final(self).turn(final(runtime)@, now, r) == directory_due(
                old(self).here(old(runtime)@, now),
                state,
            ),
            final(self).same_places(*old(self)),
    {
        if now >= self.schedule.next_directory {
            match get_directory_request(self.base(), &state) {
                Ok(request) => (
                    WorkerStep::Directory(state),
                    WorkerAction::Send(request, Expected::Directory),
                ),
                Err(error) => self.approved_request_error_delay(runtime, &error, now),
            }
        } else {
            self.lease_due(runtime, state, now)
        }
    }

    fn heartbeat_due(
        &mut self,
        runtime: &mut DirectoryRuntime,
        state: PersistedDirectoryAuth,
        identity: &DirectoryIdentity,
        now: u128,
    ) -> (r: (WorkerStep, WorkerAction))
        requires
            old(self).well_formed(),
        ensures
            final(self).turn(final(runtime)@, now, r) == heartbeat_due(
                old(self).here(old(runtime)@, now),
                state,
                *identity,
            ),
            final(self).same_places(*old(self)),
    {
        if now >= self.schedule.next_heartbeat {
            match post_heartbeat_request(self.base(), &state, identity) {
                Ok(request) => (
                    WorkerStep::Heartbeat(state),
                    WorkerAction::Send(request, Expected::Heartbeat),
                ),
                Err(error) => self.approved_request_error_delay(runtime, &error, now),
            }
        } else {
            self.directory_due(runtime, state, now)
        }
    }

    fn begin_approved(
        &mut self,
        runtime: &mut DirectoryRuntime,
        state: PersistedDirectoryAuth,
        identity: DirectoryIdentity,
        now: u128,
    ) -> (r: (WorkerStep, WorkerAction))
        requires
            old(self).well_formed(),
        ensures
            final(self).turn(final(runtime)@, now, r) == begin_approved(
                old(self).here(old(runtime)@, now),
                state,
                identity,
            ),
            final(self).same_places(*old(self)),
    {
        // A restored Approved credential starts as Unavailable. It becomes Ready only
        // after the server confirms it.
        if runtime.state != DirectoryState::Ready {
            match get_device_me_request(self.base(), &state) {
                Ok(request) => (
                    WorkerStep::DeviceMe(state, identity),
                    WorkerAction::Send(request, Expected::DeviceMe),
                ),
                Err(error) => self.approved_request_error_delay(runtime, &error, now),
            }
        } else {
            self.heartbeat_due(runtime, state, &identity, now)
        }
    }

    fn after_device_me(
        &mut self,
        runtime: &mut DirectoryRuntime,
        state: PersistedDirectoryAuth,
        identity: DirectoryIdentity,
        response: DeviceMeResponse,
        now: u128,
    ) -> (r: (WorkerStep, WorkerAction))
        requires
            old(self).well_formed(),
        ensures
            final(self).turn(final(runtime)@, now, r) == after_device_me(
                old(self).here(old(runtime)@, now),
                state,
                identity,
                response,
            ),
            final(self).same_places(*old(self)),
    {
        match accept_device_me(&state, &response) {
            Ok(()) => {
                self.consecutive_failures = 0;
                set_state(runtime, DirectoryState::Ready);
                self.heartbeat_due(runtime, state, &identity, now)
            },
            Err(error) => self.approved_request_error_delay(runtime, &error, now),
        }
    }

    fn after_heartbeat(
        &mut self,
        runtime: &mut DirectoryRuntime,
        state: PersistedDirectoryAuth,
        response: HeartbeatResponse,
        debug_log_requested: bool,
        now: u128,
    ) -> (r: (WorkerStep, WorkerAction))
        requires
            old(self).well_formed(),
            now < TIME_LIMIT,
        ensures
            final(self).turn(final(runtime)@, now, r) == after_heartbeat(
                old(self).here(old(runtime)@, now),
                state,
                response,
                debug_log_requested,
            ),
            final(self).same_places(*old(self)),
    {
        match validate_heartbeat_response(&response) {
            Ok(()) => {
                self.consecutive_failures = 0;
                self.log_requested = debug_log_requested;
                self.schedule.next_heartbeat = now + nanos(DIRECTORY_HEARTBEAT_SECONDS);
                self.directory_due(runtime, state, now)
            },
            Err(error) => self.approved_request_error_delay(runtime, &error, now),
        }
    }

    fn after_directory(
        &mut self,
        runtime: &mut DirectoryRuntime,
        state: PersistedDirectoryAuth,
        refresh_seconds: u64,
        snapshot: Option<String>,
        now: u128,
    ) -> (r: (WorkerStep, WorkerAction))
        requires
            old(self).well_formed(),
            now < TIME_LIMIT,
        ensures
            final(self).turn(final(runtime)@, now, r) == after_directory(
                old(self).here(old(runtime)@, now),
                state,
                refresh_seconds,
                optional_view(snapshot),
            ),
            final(self).same_places(*old(self)),
    {
        self.consecutive_failures = 0;
        store_directory_snapshot(runtime, snapshot);
        let seconds: u64 = if refresh_seconds < 1 {
            1
        } else {
            refresh_seconds
        };
        self.schedule.next_directory = now + nanos(seconds);
        self.lease_due(runtime, state, now)
    }

    fn after_relay_lease(
        &mut self,
        runtime: &mut DirectoryRuntime,
        state: PersistedDirectoryAuth,
        response: RelayLeaseResponse,
        now: u128,
    ) -> (r: (WorkerStep, WorkerAction))
        requires
            old(self).well_formed(),
            now < TIME_LIMIT,
        ensures
            final(self).turn(final(runtime)@, now, r) == after_relay_lease(
                old(self).here(old(runtime)@, now),
                state,
                response,
            ),
            final(self).same_places(*old(self)),
    {
        match validate_relay_lease_response(&state, &response) {
            Ok(()) => {
                self.consecutive_failures = 0;
                let seconds: u64 = if response.renew_after_seconds < 1 {
                    1
                } else {
                    response.renew_after_seconds
                };
                self.schedule.next_relay_lease = now + nanos(seconds);
                self.finish_approved(runtime, state, now)
            },
            Err(error) => self.approved_request_error_delay(runtime, &error, now),
        }
    }

    fn begin_resolving(
        &mut self,
        runtime: &mut DirectoryRuntime,
        current: PersistedDirectoryAuth,
        now: u128,
    ) -> (r: (WorkerStep, WorkerAction))
        requires
            old(self).well_formed(),
        ensures
            final(self).turn(final(runtime)@, now, r) == begin_resolving(
                old(self).here(old(runtime)@, now),
                current,
            ),
            final(self).same_places(*old(self)),
    {
        match post_enrollment_status_request(self.base(), &current) {
            Ok(request) => (
                WorkerStep::ResolvingStatus(current),
                WorkerAction::Send(request, Expected::Status),
            ),
            Err(error) => self.rest_after(runtime, DirectoryState::Unavailable, &error, now),
        }
    }

    fn after_resolving_status(
        &mut self,
        runtime: &mut DirectoryRuntime,
        current: PersistedDirectoryAuth,
        response: EnrollmentStatusResponse,
        now: u128,
    ) -> (r: (WorkerStep, WorkerAction))
        requires
            old(self).well_formed(),
        ensures
            final(self).turn(final(runtime)@, now, r) == after_resolving_status(
                old(self).here(old(runtime)@, now),
                current,
                response,
            ),
            final(self).same_places(*old(self)),
    {
        let rejected = copied_text(&current.device_credential);
        let updated = match state_from_enrollment_status(current, response) {
            Ok(updated) => updated,
            Err(_) => {
                return self.rest_in(
                    runtime,
                    DirectoryState::Unavailable,
                    DIRECTORY_IDLE_SECONDS,
                    now,
                );
            },
        };
        match updated.status {
            PersistedEnrollmentStatus::Denied
            | PersistedEnrollmentStatus::Blocked
            | PersistedEnrollmentStatus::Revoked => (
                WorkerStep::ResolvingRefusal(updated.status),
                WorkerAction::WriteState(updated),
            ),
            PersistedEnrollmentStatus::Approved => {
                let replacement = borrowed_or_empty(&updated.device_credential);
                let unchanged = match &rejected {
                    Some(credential) => same_text(credential.as_str(), replacement),
                    None => false,
                };
                if !replacement.is_empty() && !unchanged {
                    return (
                        WorkerStep::ResolvingReplacement,
                        WorkerAction::WriteState(updated),
                    );
                }
                // The status still says Approved but came with the credential that was
                // just rejected: it is not taken up again, and not retried at once.
                self.settle_in(
                    runtime,
                    DirectoryState::Unavailable,
                    DIRECTORY_RETRY_MAX_SECONDS,
                    now,
                )
            },
            PersistedEnrollmentStatus::Pending
            | PersistedEnrollmentStatus::NotEnrolled => self.settle_in(
                runtime,
                DirectoryState::Unavailable,
                DIRECTORY_IDLE_SECONDS,
                now,
            ),
        }
    }

    fn begin_cycle(
        &mut self,
        runtime: &mut DirectoryRuntime,
        state: PersistedDirectoryAuth,
        now: u128,
    ) -> (r: (WorkerStep, WorkerAction))
        requires
            old(self).well_formed(),
        ensures
            final(self).turn(final(runtime)@, now, r) == begin_cycle(
                old(self).here(old(runtime)@, now),
                state,
            ),
            final(self).same_places(*old(self)),
    {
        match state.status {
            PersistedEnrollmentStatus::Pending => {
                self.schedule = ApprovedSchedule::due_now(now);
                self.begin_pending(runtime, state, now)
            },
            PersistedEnrollmentStatus::Approved => (
                WorkerStep::ApprovedIdentity(state),
                WorkerAction::ReadIdentity,
            ),
            PersistedEnrollmentStatus::Denied
            | PersistedEnrollmentStatus::Blocked
            | PersistedEnrollmentStatus::Revoked => {
                self.schedule = ApprovedSchedule::due_now(now);
                self.begin_terminal(runtime, state, now)
            },
            PersistedEnrollmentStatus::NotEnrolled => self.settle_in(
                runtime,
                DirectoryState::NotEnrolled,
                5,
                now,
            ),
        }
    }

    fn after_restoring(
        &mut self,
        runtime: &mut DirectoryRuntime,
        state: DirectoryState,
        now: u128,
    ) -> (r: (WorkerStep, WorkerAction))
        requires
            old(self).well_formed(),
        ensures
            final(self).turn(final(runtime)@, now, r) == after_restoring(
                old(self).here(old(runtime)@, now),
                state,
            ),
            final(self).same_places(*old(self)),
    {
        set_state(runtime, state);
        if self.base_url.is_some() {
            self.consecutive_failures = 0;
            self.schedule = ApprovedSchedule::due_now(now);
            (WorkerStep::Reading, WorkerAction::ReadState)
        } else {
            (WorkerStep::Unconfigured, WorkerAction::Sleep(nanos(DIRECTORY_IDLE_SECONDS)))
        }
    }

    fn take_turn(
        &mut self,
        runtime: &mut DirectoryRuntime,
        step: WorkerStep,
        event: WorkerEvent,
        now: u128,
    ) -> (r: (WorkerStep, WorkerAction))
        requires
            old(self).well_formed(),
            now < TIME_LIMIT,
        ensures
            final(self).turn(final(runtime)@, now, r) == transition(
                old(self).here(old(runtime)@, now),
                step,
                event,
            ),
            final(self).same_places(*old(self)),
    {
        match (step, event) {
            (WorkerStep::Restoring, WorkerEvent::StateFound(state)) => self.after_restoring(
                runtime,
                runtime_state_from_persisted_status(&state.status),
                now,
            ),
            (WorkerStep::Restoring, WorkerEvent::StateAbsent) => self.after_restoring(
                runtime,
                DirectoryState::NotEnrolled,
                now,
            ),
            (WorkerStep::Restoring, WorkerEvent::StateUnreadable) => (
                WorkerStep::Stopped,
                WorkerAction::Stop,
            ),
            (WorkerStep::Unconfigured, WorkerEvent::Slept) => (
                WorkerStep::Unconfigured,
                WorkerAction::Sleep(nanos(DIRECTORY_IDLE_SECONDS)),
            ),
            (WorkerStep::Sleeping, WorkerEvent::Slept) => (
                WorkerStep::Reading,
                WorkerAction::ReadState,
            ),
            (WorkerStep::Reading, WorkerEvent::StateFound(state)) => self.begin_cycle(
                runtime,
                state,
                now,
            ),
            (WorkerStep::Reading, WorkerEvent::StateAbsent) => self.rest_in(
                runtime,
                DirectoryState::NotEnrolled,
                5,
                now,
            ),
            (WorkerStep::Reading, WorkerEvent::StateUnreadable) => self.rest_in(
                runtime,
                DirectoryState::Unavailable,
                DIRECTORY_IDLE_SECONDS,
                now,
            ),
            (
                WorkerStep::PendingStatus(state),
                WorkerEvent::StatusReceived(response),
            ) => self.after_pending_status(runtime, state, response, now),
            (WorkerStep::PendingStatus(_), WorkerEvent::RequestFailed(error)) => self.rest_after(
                runtime,
                DirectoryState::Unavailable,
                &error,
                now,
            ),
            (
                WorkerStep::PendingWriting { status, poll_after_seconds },
                WorkerEvent::Written,
            ) => self.after_pending_write(runtime, status, poll_after_seconds, now),
            (WorkerStep::PendingWriting { .. }, WorkerEvent::WriteFailed) => self.rest_in(
                runtime,
                DirectoryState::Unavailable,
                DIRECTORY_IDLE_SECONDS,
                now,
            ),
            (
                WorkerStep::TerminalStatus(state),
                WorkerEvent::StatusReceived(response),
            ) => self.after_terminal_status(runtime, state, response, now),
            (
                WorkerStep::TerminalStatus(state),
                WorkerEvent::RequestFailed(error),
            ) => self.terminal_failed(runtime, &state, &error, now),
            (
                WorkerStep::TerminalWriting { updated, authorized },
                WorkerEvent::Written,
            ) => self.after_terminal_write(runtime, updated, authorized, now),
            (WorkerStep::TerminalWriting { .. }, WorkerEvent::WriteFailed) => self.rest_in(
                runtime,
                DirectoryState::Unavailable,
                DIRECTORY_RETRY_BASE_SECONDS,
                now,
            ),
            (
                WorkerStep::ReenrollmentIdentity(state),
                WorkerEvent::IdentityFound(identity),
            ) => self.begin_reenrollment(runtime, state, identity, now),
            (WorkerStep::ReenrollmentIdentity(_), WorkerEvent::IdentityUnavailable) => (
                WorkerStep::Sleeping,
                WorkerAction::Sleep(nanos(15)),
            ),
            (
                WorkerStep::ReenrollmentSent(identity),
                WorkerEvent::EnrollmentReceived(response),
            ) => match pending_state_from_enrollment(&identity, response) {
                Ok(pending) => (
                    WorkerStep::ReenrollmentWriting,
                    WorkerAction::WriteState(pending),
                ),
                Err(_) => (WorkerStep::Sleeping, WorkerAction::Sleep(nanos(15))),
            },
            (
                WorkerStep::ReenrollmentSent(_),
                WorkerEvent::RequestFailed(error),
            ) => self.rest_briefly_after(&error),
            (WorkerStep::ReenrollmentWriting, WorkerEvent::Written) => {
                clear_directory_snapshot(runtime);
                self.rest_in(runtime, DirectoryState::Pending, 1, now)
            },
            (WorkerStep::ReenrollmentWriting, WorkerEvent::WriteFailed) => (
                WorkerStep::Sleeping,
                WorkerAction::Sleep(nanos(15)),
            ),
            (
                WorkerStep::ApprovedIdentity(state),
                WorkerEvent::IdentityFound(identity),
            ) => self.begin_approved(runtime, state, identity, now),
            (WorkerStep::ApprovedIdentity(_), WorkerEvent::IdentityUnavailable) => self.rest_in(
                runtime,
                DirectoryState::Unavailable,
                DIRECTORY_IDLE_SECONDS,
                now,
            ),
            (
                WorkerStep::DeviceMe(state, identity),
                WorkerEvent::DeviceMeReceived(response),
            ) => self.after_device_me(runtime, state, identity, response, now),
            (
                WorkerStep::DeviceMe(_, _),
                WorkerEvent::RequestFailed(error),
            ) => self.approved_request_error_delay(runtime, &error, now),
            (
                WorkerStep::Heartbeat(state),
                WorkerEvent::HeartbeatReceived { response, debug_log_requested },
            ) => self.after_heartbeat(runtime, state, response, debug_log_requested, now),
            (
                WorkerStep::Heartbeat(_),
                WorkerEvent::RequestFailed(error),
            ) => self.approved_request_error_delay(runtime, &error, now),
            (WorkerStep::Directory(state), WorkerEvent::DirectoryReceived(response)) => {
                let shown = normalized_directory(response, &state);
                (
                    WorkerStep::DirectorySnapshot { state, refresh_seconds: shown.refresh_seconds },
                    WorkerAction::SerializeDirectory(shown),
                )
            },
            (
                WorkerStep::Directory(_),
                WorkerEvent::RequestFailed(error),
            ) => self.approved_request_error_delay(runtime, &error, now),
            (
                WorkerStep::DirectorySnapshot { state, refresh_seconds },
                WorkerEvent::DirectorySerialized(snapshot),
            ) => self.after_directory(runtime, state, refresh_seconds, snapshot, now),
            (
                WorkerStep::RelayLease(state),
                WorkerEvent::RelayLeaseReceived(response),
            ) => self.after_relay_lease(runtime, state, response, now),
            (
                WorkerStep::RelayLease(_),
                WorkerEvent::RequestFailed(error),
            ) => self.approved_request_error_delay(runtime, &error, now),
            (WorkerStep::LogUpload(_), WorkerEvent::LogUploadTried) => (
                WorkerStep::Sleeping,
                WorkerAction::Sleep(self.schedule.next_delay(now)),
            ),
            (WorkerStep::Resolving, WorkerEvent::StateFound(state)) => self.begin_resolving(
                runtime,
                state,
                now,
            ),
            (WorkerStep::Resolving, WorkerEvent::StateAbsent) => self.rest_in(
                runtime,
                DirectoryState::Unavailable,
                DIRECTORY_IDLE_SECONDS,
                now,
            ),
            (WorkerStep::Resolving, WorkerEvent::StateUnreadable) => self.rest_in(
                runtime,
                DirectoryState::Unavailable,
                DIRECTORY_IDLE_SECONDS,
                now,
            ),
            (
                WorkerStep::ResolvingStatus(current),
                WorkerEvent::StatusReceived(response),
            ) => self.after_resolving_status(runtime, current, response, now),
            (WorkerStep::ResolvingStatus(_), WorkerEvent::RequestFailed(error)) => self.rest_after(
                runtime,
                DirectoryState::Unavailable,
                &error,
                now,
            ),
            (WorkerStep::ResolvingRefusal(status), WorkerEvent::Written) => self.settle_in(
                runtime,
                runtime_state_from_persisted_status(&status),
                DIRECTORY_IDLE_SECONDS,
                now,
            ),
            (WorkerStep::ResolvingRefusal(_), WorkerEvent::WriteFailed) => self.rest_in(
                runtime,
                DirectoryState::Unavailable,
                DIRECTORY_IDLE_SECONDS,
                now,
            ),
            (WorkerStep::ResolvingReplacement, WorkerEvent::Written) => self.settle_in(
                runtime,
                DirectoryState::Unavailable,
                1,
                now,
            ),
            (WorkerStep::ResolvingReplacement, WorkerEvent::WriteFailed) => self.settle_in(
                runtime,
                DirectoryState::Unavailable,
                DIRECTORY_RETRY_MAX_SECONDS,
                now,
            ),
            (step, _) => (step, WorkerAction::OutOfTurn),
        }
    }

    /// Takes one turn: `event` has happened at `now`, and what is returned is to be
    /// done next. An event that the worker does not wait for changes nothing.
    pub fn advance(
        &mut self,
        runtime: &mut DirectoryRuntime,
        event: WorkerEvent,
        now: u128,
    ) -> (action: WorkerAction)
        requires
            old(self).well_formed(),
            now < TIME_LIMIT,
        ensures
            (Turn {
                here: final(self).here(final(runtime)@, now),
                step: final(self).step,
                action: action@,
            }) == transition(old(self).here(old(runtime)@, now), old(self).step, event),
            final(self).same_places(*old(self)),
            final(self).well_formed(),
    {
        let mut step = WorkerStep::Stopped;
        std::mem::swap(&mut step, &mut self.step);
        let (step, action) = self.take_turn(runtime, step, event, now);
        self.step = step;
        action
    }
}

/// `event` is one of the outcomes that `action` can have.
pub open spec fn outcome_of(action: ActionView, event: WorkerEvent) -> bool {
    match action {
        ActionView::ReadState => event is StateFound || event is StateAbsent || event
            is StateUnreadable,
        ActionView::ReadIdentity => event is IdentityFound || event is IdentityUnavailable,
        ActionView::Send(_, expected) => event is RequestFailed || match expected {
            Expected::Status => event is StatusReceived,
            Expected::Enrollment => event is EnrollmentReceived,
            Expected::DeviceMe => event is DeviceMeReceived,
            Expected::Heartbeat => event is HeartbeatReceived,
            Expected::Directory => event is DirectoryReceived,
            Expected::RelayLease => event is RelayLeaseReceived,
        },
        ActionView::WriteState(_) => event is Written || event is WriteFailed,
        ActionView::SerializeDirectory(_) => event is DirectorySerialized,
        ActionView::UploadLog { .. } => event is LogUploadTried,
        ActionView::Sleep(_) => event is Slept,
        ActionView::Stop | ActionView::OutOfTurn => false,
    }
}

/// The enrollment that a step holds.
pub open spec fn enrollment_at(step: WorkerStep) -> Option<PersistedDirectoryAuth> {
    match step {
        WorkerStep::PendingStatus(state) => Some(state),
        WorkerStep::TerminalStatus(state) => Some(state),
        WorkerStep::TerminalWriting { updated, .. } => Some(updated),
        WorkerStep::ReenrollmentIdentity(state) => Some(state),
        WorkerStep::ApprovedIdentity(state) => Some(state),
        WorkerStep::DeviceMe(state, _) => Some(state),
        WorkerStep::Heartbeat(state) => Some(state),
        WorkerStep::Directory(state) => Some(state),
        WorkerStep::DirectorySnapshot { state, .. } => Some(state),
        WorkerStep::RelayLease(state) => Some(state),
        WorkerStep::LogUpload(state) => Some(state),
        WorkerStep::ResolvingStatus(state) => Some(state),
        _ => None,
    }
}

/// The steps of an approved cycle that come after the credential was confirmed.
pub open spec fn confirmed(step: WorkerStep) -> bool {
    ||| step is Heartbeat
    ||| step is Directory
    ||| step is DirectorySnapshot
    ||| step is RelayLease
    ||| step is LogUpload
}

/// While nothing else changes the runtime state, it is Ready at every step after the
/// credential was confirmed.
pub open spec fn ready_where_confirmed(h: Here, step: WorkerStep) -> bool {
    confirmed(step) ==> h.runtime.state == DirectoryState::Ready
}

/// At `step` the worker waits for the outcome of `action`.
pub open spec fn waits_for(step: WorkerStep, action: ActionView) -> bool {
    match step {
        WorkerStep::Restoring | WorkerStep::Reading | WorkerStep::Resolving => action is ReadState,
        WorkerStep::Unconfigured | WorkerStep::Sleeping => action is Sleep,
        WorkerStep::PendingStatus(_)
        | WorkerStep::TerminalStatus(_)
        | WorkerStep::ResolvingStatus(_) => action matches ActionView::Send(_, expected) && expected
            == Expected::Status,
        WorkerStep::ReenrollmentSent(_) => action matches ActionView::Send(_, expected) && expected
            == Expected::Enrollment,
        WorkerStep::DeviceMe(_, _) => action matches ActionView::Send(_, expected) && expected
            == Expected::DeviceMe,
        WorkerStep::Heartbeat(_) => action matches ActionView::Send(_, expected) && expected
            == Expected::Heartbeat,
        WorkerStep::Directory(_) => action matches ActionView::Send(_, expected) && expected
            == Expected::Directory,
        WorkerStep::RelayLease(_) => action matches ActionView::Send(_, expected) && expected
            == Expected::RelayLease,
        WorkerStep::PendingWriting { .. }
        | WorkerStep::TerminalWriting { .. }
        | WorkerStep::ReenrollmentWriting
        | WorkerStep::ResolvingRefusal(_)
        | WorkerStep::ResolvingReplacement => action is WriteState,
        WorkerStep::ReenrollmentIdentity(_)
        | WorkerStep::ApprovedIdentity(_) => action is ReadIdentity,
        WorkerStep::DirectorySnapshot { .. } => action is SerializeDirectory,
        WorkerStep::LogUpload(_) => action is UploadLog,
        WorkerStep::Stopped => action is Stop,
    }
}

/// The turn waits for the outcome of what it asks for, unless it was out of turn.
pub open spec fn waits(turn: Turn) -> bool {
    turn.action != ActionView::OutOfTurn ==> waits_for(turn.step, turn.action)
}

proof fn lemma_between_cycles_waits(h: Here, step: WorkerStep, event: WorkerEvent)
    ensures
        waits(between_cycles(h, step, event)),
{
}

proof fn lemma_while_pending_waits(h: Here, step: WorkerStep, event: WorkerEvent)
    ensures
        waits(while_pending(h, step, event)),
{
}

proof fn lemma_while_turned_away_waits(h: Here, step: WorkerStep, event: WorkerEvent)
    ensures
        waits(while_turned_away(h, step, event)),
{
}

proof fn lemma_while_resolving_waits(h: Here, step: WorkerStep, event: WorkerEvent)
    ensures
        waits(while_resolving(h, step, event)),
{
}

proof fn lemma_approved_stages_wait(
    h: Here,
    state: PersistedDirectoryAuth,
    identity: DirectoryIdentity,
)
    ensures
        waits(lease_due(h, state)),
        waits(directory_due(h, state)),
        waits(heartbeat_due(h, state, identity)),
{
}

proof fn lemma_while_approved_waits(h: Here, step: WorkerStep, event: WorkerEvent)
    ensures
        waits(while_approved(h, step, event)),
{
    let turn = while_approved(h, step, event);
    match (step, event) {
        (WorkerStep::ApprovedIdentity(state), WorkerEvent::IdentityFound(identity)) => {
            lemma_approved_stages_wait(h, state, identity);
            assert(turn == begin_approved(h, state, identity));
        },
        (WorkerStep::DeviceMe(state, identity), WorkerEvent::DeviceMeReceived(response)) => {
            lemma_approved_stages_wait(
                h.after_failures(0).in_state(DirectoryState::Ready),
                state,
                identity,
            );
            assert(turn == after_device_me(h, state, identity, response));
        },
        (
            WorkerStep::Heartbeat(state),
            WorkerEvent::HeartbeatReceived { response, debug_log_requested },
        ) => {
            assert(turn == after_heartbeat(h, state, response, debug_log_requested));
        },
        (
            WorkerStep::DirectorySnapshot { state, refresh_seconds },
            WorkerEvent::DirectorySerialized(snapshot),
        ) => {
            assert(turn == after_directory(h, state, refresh_seconds, optional_view(snapshot)));
        },
        (WorkerStep::RelayLease(state), WorkerEvent::RelayLeaseReceived(response)) => {
            assert(turn == after_relay_lease(h, state, response));
        },
        _ => {},
    }
}

proof fn lemma_turn_waits_for_its_action(h: Here, step: WorkerStep, event: WorkerEvent)
    ensures
        waits(transition(h, step, event)),
{
    lemma_between_cycles_waits(h, step, event);
    lemma_while_pending_waits(h, step, event);
    lemma_while_turned_away_waits(h, step, event);
    lemma_while_resolving_waits(h, step, event);
    lemma_while_approved_waits(h, step, event);
}

#[verifier::spinoff_prover]
proof fn lemma_awaited_is_in_turn(
    h: Here,
    step: WorkerStep,
    action: ActionView,
    outcome: WorkerEvent,
)
    requires
        waits_for(step, action),
        outcome_of(action, outcome),
    ensures
        transition(h, step, outcome).action != ActionView::OutOfTurn,
{
}

/// The worker waits for every outcome of what it asks for: an outcome is never out of
/// turn, whatever has changed in between.
pub proof fn law_every_outcome_is_awaited(
    before: Here,
    step: WorkerStep,
    event: WorkerEvent,
    later: Here,
    outcome: WorkerEvent,
)
    requires
        transition(before, step, event).action != ActionView::OutOfTurn,
        outcome_of(transition(before, step, event).action, outcome),
    ensures
        transition(later, transition(before, step, event).step, outcome).action
            != ActionView::OutOfTurn,
{
    let turn = transition(before, step, event);
    lemma_turn_waits_for_its_action(before, step, event);
    lemma_awaited_is_in_turn(later, turn.step, turn.action, outcome);
}

/// An event out of turn changes nothing.
pub proof fn law_out_of_turn_changes_nothing(h: Here, step: WorkerStep, event: WorkerEvent)
    requires
        transition(h, step, event).action == ActionView::OutOfTurn,
    ensures
        transition(h, step, event).here == h,
        transition(h, step, event).step == step,
{
}

/// The worker never rests for less than a second, so that no failure makes it spin.
pub proof fn law_rests_last_a_second(h: Here, step: WorkerStep, event: WorkerEvent)
    ensures
        transition(h, step, event).action matches ActionView::Sleep(nanos) ==> nanos
            >= NANOS_PER_SECOND,
{
}

/// The server confirms the credential for this exact device and credential serial.
pub open spec fn confirms(step: WorkerStep, event: WorkerEvent) -> bool {
    &&& step matches WorkerStep::DeviceMe(state, _)
    &&& event matches WorkerEvent::DeviceMeReceived(response)
    &&& device_me_fault(state, response) is None
}

/// The turn from `h` makes the device Ready only by a confirmation, and leaves it
/// Ready at every step after one.
pub open spec fn ready_by_confirmation(
    h: Here,
    step: WorkerStep,
    event: WorkerEvent,
    turn: Turn,
) -> bool {
    &&& ready_where_confirmed(turn.here, turn.step)
    &&& h.runtime.state != DirectoryState::Ready && turn.here.runtime.state
        == DirectoryState::Ready ==> confirms(step, event)
}

proof fn lemma_between_cycles_ready(h: Here, step: WorkerStep, event: WorkerEvent)
    requires
        ready_where_confirmed(h, step),
    ensures
        ready_by_confirmation(h, step, event, between_cycles(h, step, event)),
{
}

proof fn lemma_while_pending_ready(h: Here, step: WorkerStep, event: WorkerEvent)
    requires
        ready_where_confirmed(h, step),
    ensures
        ready_by_confirmation(h, step, event, while_pending(h, step, event)),
{
}

proof fn lemma_while_turned_away_ready(h: Here, step: WorkerStep, event: WorkerEvent)
    requires
        ready_where_confirmed(h, step),
    ensures
        ready_by_confirmation(h, step, event, while_turned_away(h, step, event)),
{
}

proof fn lemma_while_resolving_ready(h: Here, step: WorkerStep, event: WorkerEvent)
    requires
        ready_where_confirmed(h, step),
    ensures
        ready_by_confirmation(h, step, event, while_resolving(h, step, event)),
{
}

proof fn lemma_approved_stages_ready(
    h: Here,
    state: PersistedDirectoryAuth,
    identity: DirectoryIdentity,
)
    requires
        h.runtime.state == DirectoryState::Ready,
    ensures
        ({
            let turn = heartbeat_due(h, state, identity);
            ready_where_confirmed(turn.here, turn.step)
        }),
        ({
            let turn = directory_due(h, state);
            ready_where_confirmed(turn.here, turn.step)
        }),
        ({
            let turn = lease_due(h, state);
            ready_where_confirmed(turn.here, turn.step)
        }),
{
}

proof fn lemma_while_approved_ready(h: Here, step: WorkerStep, event: WorkerEvent)
    requires
        ready_where_confirmed(h, step),
    ensures
        ready_by_confirmation(h, step, event, while_approved(h, step, event)),
{
    match (step, event) {
        (WorkerStep::ApprovedIdentity(state), WorkerEvent::IdentityFound(identity)) => {
            if h.runtime.state == DirectoryState::Ready {
                lemma_approved_stages_ready(h, state, identity);
            }
        },
        (WorkerStep::DeviceMe(state, identity), WorkerEvent::DeviceMeReceived(_)) => {
            lemma_approved_stages_ready(
                h.after_failures(0).in_state(DirectoryState::Ready),
                state,
                identity,
            );
        },
        _ => {},
    }
}

/// A device becomes Ready only when the server confirms its credential for this exact
/// device and credential serial, and stays so through the rest of the cycle.
pub proof fn law_ready_only_after_confirmation(h: Here, step: WorkerStep, event: WorkerEvent)
    requires
        ready_where_confirmed(h, step),
    ensures
        ready_where_confirmed(transition(h, step, event).here, transition(h, step, event).step),
        h.runtime.state != DirectoryState::Ready && transition(h, step, event).here.runtime.state
            == DirectoryState::Ready ==> confirms(step, event),
{
    lemma_between_cycles_ready(h, step, event);
    lemma_while_pending_ready(h, step, event);
    lemma_while_turned_away_ready(h, step, event);
    lemma_while_resolving_ready(h, step, event);
    lemma_while_approved_ready(h, step, event);
}

/// The credential that the turn uses, if any, is that of the approved enrollment which it
/// holds.
pub open spec fn uses_own_credential(turn: Turn) -> bool {
    match turn.action {
        ActionView::Send(request, _) => request.bearer is Some ==> {
            &&& enrollment_at(turn.step) matches Some(state)
            &&& has_approved_credential(state)
            &&& request.bearer == Some(text_or_empty(state.device_credential))
        },
        ActionView::UploadLog { credential, .. } => {
            &&& enrollment_at(turn.step) matches Some(state)
            &&& has_approved_credential(state)
            &&& credential == text_or_empty(state.device_credential)
        },
        _ => true,
    }
}

proof fn lemma_unapproved_turns_use_no_credential(h: Here, step: WorkerStep, event: WorkerEvent)
    ensures
        uses_own_credential(between_cycles(h, step, event)),
        uses_own_credential(while_pending(h, step, event)),
        uses_own_credential(while_turned_away(h, step, event)),
        uses_own_credential(while_resolving(h, step, event)),
{
}

proof fn lemma_approved_stages_use_own_credential(h: Here, state: PersistedDirectoryAuth)
    ensures
        uses_own_credential(finish_approved(h, state)),
        uses_own_credential(lease_due(h, state)),
        uses_own_credential(directory_due(h, state)),
{
}

proof fn lemma_approved_answers_use_own_credential(
    h: Here,
    state: PersistedDirectoryAuth,
    event: WorkerEvent,
)
    ensures
        event matches WorkerEvent::HeartbeatReceived { response, debug_log_requested }
            ==> uses_own_credential(after_heartbeat(h, state, response, debug_log_requested)),
        event matches WorkerEvent::RelayLeaseReceived(response) ==> uses_own_credential(
            after_relay_lease(h, state, response),
        ),
        event matches WorkerEvent::RequestFailed(error) ==> uses_own_credential(
            approved_failed(h, error),
        ),
{
}

proof fn lemma_approved_turns_use_own_credential(h: Here, step: WorkerStep, event: WorkerEvent)
    ensures
        uses_own_credential(while_approved(h, step, event)),
{
    match step {
        WorkerStep::ApprovedIdentity(state) => {
            lemma_approved_stages_use_own_credential(h, state);
        },
        WorkerStep::DeviceMe(state, _) => {
            lemma_approved_stages_use_own_credential(
                h.after_failures(0).in_state(DirectoryState::Ready),
                state,
            );
        },
        WorkerStep::Heartbeat(state) | WorkerStep::Directory(state) | WorkerStep::RelayLease(
            state,
        ) => {
            lemma_approved_answers_use_own_credential(h, state, event);
        },
        _ => {},
    }
}

/// A credential is sent only where the enrollment that it is sent for is approved and has
/// that credential, with a request as with the upload of a log.
pub proof fn law_credentials_are_sent_only_when_approved(
    h: Here,
    step: WorkerStep,
    event: WorkerEvent,
)
    ensures
        uses_own_credential(transition(h, step, event)),
{
    lemma_unapproved_turns_use_no_credential(h, step, event);
    lemma_approved_turns_use_own_credential(h, step, event);
}

/// What the worker stores after a status answer has the continuity identity of the
/// enrollment that the answer was about. The only other thing that it stores is the
/// pending enrollment of a completed re-enrollment.
#[verifier::rlimit(30)]
pub proof fn law_writes_keep_continuity(h: Here, step: WorkerStep, event: WorkerEvent)
    ensures
        transition(h, step, event).action matches ActionView::WriteState(written) ==> {
            ||| {
                &&& event is StatusReceived
                &&& enrollment_at(step) matches Some(state)
                &&& written.device_id == state.device_id
                &&& written.enrollment_poll_token == state.enrollment_poll_token
                &&& written.rustdesk_id == state.rustdesk_id
                &&& written.device_public_key == state.device_public_key
                &&& written.version == state.version
                &&& written.status != PersistedEnrollmentStatus::Approved
                    ==> written.device_credential is None && written.credential_serial is None
            }
            ||| {
                &&& step matches WorkerStep::ReenrollmentSent(identity)
                &&& event matches WorkerEvent::EnrollmentReceived(response)
                &&& written == pending_enrollment(identity, response)
            }
        },
{
}

/// A credential that was rejected is not stored again: after a rejection the worker
/// stores a refusal, or an approval that comes with another credential. An approval that
/// comes with the rejected one makes it rest for the longest retry delay, so that it is
/// not tried again at once.
pub proof fn law_rejected_credential_is_not_stored_again(
    h: Here,
    current: PersistedDirectoryAuth,
    event: WorkerEvent,
)
    ensures
        transition(h, WorkerStep::ResolvingStatus(current), event).action
            matches ActionView::WriteState(written) ==> turned_away(written.status) || (
        written.status == PersistedEnrollmentStatus::Approved && optional_view(
            written.device_credential,
        ) != optional_view(current.device_credential)),
        event matches WorkerEvent::StatusReceived(response) ==> (status_fault(
            current,
            response,
        ) is None && device_status(response.status@) == Some(PersistedEnrollmentStatus::Approved)
            && optional_view(response.credential) == optional_view(current.device_credential)
            ==> transition(h, WorkerStep::ResolvingStatus(current), event).action
            == ActionView::Sleep(in_nanos(DIRECTORY_RETRY_MAX_SECONDS))),
{
}

/// A rejected credential takes the device out of Ready at once, and has the stored
/// enrollment looked at before anything else is sent.
pub proof fn law_rejection_is_looked_into(
    h: Here,
    step: WorkerStep,
    error: DirectoryApiError,
)
    requires
        confirmed(step) || step is DeviceMe,
        !(step is DirectorySnapshot || step is LogUpload),
        error.kind == DirectoryApiErrorKind::Unauthorized || error.kind
            == DirectoryApiErrorKind::Forbidden,
    ensures
        transition(h, step, WorkerEvent::RequestFailed(error)).here.runtime.state
            == DirectoryState::Unavailable,
        transition(h, step, WorkerEvent::RequestFailed(error)).step == WorkerStep::Resolving,
        transition(h, step, WorkerEvent::RequestFailed(error)).action == ActionView::ReadState,
{
}

/// The steps of an approved cycle.
pub open spec fn in_approved_cycle(step: WorkerStep) -> bool {
    step is ApprovedIdentity || step is DeviceMe || confirmed(step)
}

/// A cycle of an approved device that is finished asks for the upload of the log, forced
/// where the last heartbeat was answered with a request for one. No such cycle comes to
/// rest with the device Ready before it has asked.
#[verifier::rlimit(30)]
pub proof fn law_finished_cycle_asks_for_the_log(
    h: Here,
    step: WorkerStep,
    event: WorkerEvent,
    state: PersistedDirectoryAuth,
)
    requires
        in_approved_cycle(step),
        enrollment_at(step) == Some(state),
        has_approved_credential(state),
    ensures
        ({
            let turn = transition(h, step, event);
            turn.action is Sleep && turn.here.runtime.state == DirectoryState::Ready ==> step
                is LogUpload
        }),
        ({
            let turn = transition(h, step, event);
            turn.step is LogUpload && turn.action != ActionView::OutOfTurn ==> turn.action
                == ActionView::UploadLog {
                credential: text_or_empty(state.device_credential),
                force: turn.here.log_requested,
            }
        }),
{
}

/// A request for a fresh log stands until a later heartbeat is answered, whatever comes of
/// an upload in between, so that it is not lost where the upload fails.
#[verifier::rlimit(30)]
pub proof fn law_log_request_stands_until_the_next_heartbeat(
    h: Here,
    step: WorkerStep,
    event: WorkerEvent,
)
    ensures
        transition(h, step, event).here.log_requested == (match (step, event) {
            (
                WorkerStep::Heartbeat(_),
                WorkerEvent::HeartbeatReceived { response, debug_log_requested },
            ) => if heartbeat_valid(response) {
                debug_log_requested
            } else {
                h.log_requested
            },
            _ => h.log_requested,
        }),
{
}

} // verus!
