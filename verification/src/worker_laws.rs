//! What the worker does, turn by turn: each law speaks of one call of the worker, of what it
//! was given and of what it left.

use crate::api_error::{error_delay, failures_after, DirectoryApiError, DirectoryApiErrorKind};
use crate::api_types::{
    DeviceMeResponse, DirectoryIdentity, DirectoryResponse, EnrollmentStatusResponse,
    HeartbeatResponse, RelayLeaseResponse,
};
use crate::directory_state::{status_members, DirectoryRuntime, DirectoryState};
use crate::json::{rendered, rendered_in_order, JsonNode};
use crate::persisted_auth::{
    device_me_fault, enrollment_fault, pending_enrollment, runtime_state_of, status_applied,
    status_fault, turned_away, PersistedDirectoryAuth, PersistedEnrollmentStatus,
};
use crate::requests::{
    can_prove_continuity, can_use_protected_routes, completion_fields, completion_request,
    continuity_fields, heartbeat_fields, heartbeat_request, status_request, HttpMethod,
};
use crate::responses::{heartbeat_valid, relay_lease_valid, shown_directory};
use crate::schedule::{ApprovedSchedule, TIME_LIMIT};
use crate::text::{lemma_blank_iff_trimmed_empty, optional_view, text_or_empty};
use crate::web::{acceptable_base, route_address};
use crate::worker::{
    law_out_of_turn_changes_nothing, transition, ActionView, Expected, Here, Worker,
    WorkerAction, WorkerEvent, WorkerStep,
};
use vstd::prelude::*;
use vstd::string::*;

verus! {

/// A second, in nanoseconds.
pub const SECOND: u128 = 1_000_000_000;

/// A new worker has everything due, has failed at nothing, and waits for the stored
/// enrollment.
pub proof fn law_new_worker_waits_for_the_stored_enrollment(
    base: Option<String>,
    relay: Option<String>,
    now: u128,
    r: Worker,
)
    requires
        call_ensures(Worker::new, (base, relay, now), r),
    ensures
        r.base_url == base,
        r.relay_lease_base_url == relay,
        r.schedule.next_heartbeat == now,
        r.schedule.next_directory == now,
        r.schedule.next_relay_lease == now,
        r.consecutive_failures == 0,
        !r.log_requested,
        r.step is Restoring,
{
}

/// Each kind of answer is that of the operation of its name.
pub proof fn law_answers_are_of_their_operation(kind: Expected, r: &'static str)
    requires
        call_ensures(Expected::operation, (&kind,), r),
    ensures
        kind == Expected::Status ==> r == "directory enrollment status",
        kind == Expected::Enrollment ==> r == "directory re-enrollment recovery",
        kind == Expected::DeviceMe ==> r == "directory device identity",
        kind == Expected::Heartbeat ==> r == "directory heartbeat",
        kind == Expected::Directory ==> r == "directory download",
        kind == Expected::RelayLease ==> r == "directory relay lease",
{
}

/// The action is to send this request, and to await an answer of this kind.
pub open spec fn sends(
    action: WorkerAction,
    kind: Expected,
    base: Seq<char>,
    path: Seq<char>,
    method: HttpMethod,
    bearer: Option<Seq<char>>,
    body: Option<Seq<char>>,
) -> bool {
    &&& action matches WorkerAction::Send(request, expected)
    &&& expected == kind
    &&& request.method == method
    &&& request.url@ == route_address(base, path)
    &&& optional_view(request.bearer) == bearer
    &&& optional_view(request.body) == body
}

/// What is sent is one request with one kind of answer.
pub proof fn law_what_is_sent_is_one_request(
    action: WorkerAction,
    kind: Expected,
    base: Seq<char>,
    path: Seq<char>,
    method: HttpMethod,
    bearer: Option<Seq<char>>,
    body: Option<Seq<char>>,
)
    requires
        sends(action, kind, base, path, method, bearer, body),
    ensures
        action is Send,
        action->Send_1 == kind,
        action->Send_0.method == method,
        action->Send_0.url@ == route_address(base, path),
        action->Send_0.bearer is Some <==> bearer is Some,
        action->Send_0.bearer matches Some(text) ==> bearer == Some(text@),
        action->Send_0.body is Some <==> body is Some,
        action->Send_0.body matches Some(text) ==> body == Some(text@),
{
}

/// The action is to ask for the status of this enrollment.
pub open spec fn asks_for_status(
    action: WorkerAction,
    base: Seq<char>,
    state: PersistedDirectoryAuth,
) -> bool {
    sends(
        action,
        Expected::Status,
        base,
        "/v1/enrollment/status"@,
        HttpMethod::Post,
        None,
        Some(
            rendered_in_order(
                seq![
                    ("device_id"@, JsonNode::Text(state.device_id->0@)),
                    ("poll_token"@, JsonNode::Text(state.enrollment_poll_token->0@)),
                ],
            ),
        ),
    )
}

proof fn lemma_status_request(base: Seq<char>, state: PersistedDirectoryAuth)
    ensures
        status_request(base, state) is Some <==> acceptable_base(base) && can_prove_continuity(
            state,
        ),
        status_request(base, state) matches Some(request) ==> {
            &&& request.method == HttpMethod::Post
            &&& request.url == route_address(base, "/v1/enrollment/status"@)
            &&& request.bearer is None
            &&& request.body == Some(
                rendered_in_order(
                    seq![
                        ("device_id"@, JsonNode::Text(state.device_id->0@)),
                        ("poll_token"@, JsonNode::Text(state.enrollment_poll_token->0@)),
                    ],
                ),
            )
        },
{
    lemma_blank_iff_trimmed_empty(text_or_empty(state.device_id));
    if can_prove_continuity(state) {
        assert(continuity_fields(
            text_or_empty(state.device_id),
            text_or_empty(state.enrollment_poll_token),
        ) =~= seq![
            ("device_id"@, JsonNode::Text(state.device_id->0@)),
            ("poll_token"@, JsonNode::Text(state.enrollment_poll_token->0@)),
        ]);
    }
}

/// The worker keeps its schedule, its count of failures and the request for a log.
pub open spec fn keeps_course(before: Worker, after: Worker) -> bool {
    &&& after.schedule == before.schedule
    &&& after.consecutive_failures == before.consecutive_failures
    &&& after.log_requested == before.log_requested
}

/// The worker rests for so many seconds.
pub open spec fn rests(after: Worker, action: WorkerAction, seconds: int) -> bool {
    &&& after.step is Sleeping
    &&& action matches WorkerAction::Sleep(nanos)
    &&& nanos == seconds * SECOND
}

/// A worker that keeps its course changes none of its fields but the step, and one that
/// rests waits for the end of one rest.
pub proof fn law_keeping_course_and_resting(
    before: Worker,
    after: Worker,
    action: WorkerAction,
    seconds: int,
)
    ensures
        keeps_course(before, after) ==> after.schedule.next_heartbeat
            == before.schedule.next_heartbeat && after.schedule.next_directory
            == before.schedule.next_directory && after.schedule.next_relay_lease
            == before.schedule.next_relay_lease && after.consecutive_failures
            == before.consecutive_failures && after.log_requested == before.log_requested,
        rests(after, action, seconds) ==> after.step is Sleeping && action is Sleep
            && action->Sleep_0 == seconds * 1_000_000_000,
{
}

/// The worker works with the addresses that it was made with, whatever happens.
pub proof fn law_addresses_stay(
    worker: &mut Worker,
    runtime: &mut DirectoryRuntime,
    event: WorkerEvent,
    now: u128,
    action: WorkerAction,
)
    requires
        call_ensures(Worker::advance, (worker, runtime, event, now), action),
    ensures
        final(worker).base_url == old(worker).base_url,
        final(worker).relay_lease_base_url == old(worker).relay_lease_base_url,
{
}

/// When the stored enrollment was read for the first time, the runtime starts in its state,
/// or in Not enrolled where there is none. The cycles begin at once where there is a
/// directory; otherwise the worker looks for nothing and rests for five minutes at a time.
/// An enrollment that cannot be read stops the worker.
pub proof fn law_restored_enrollment_starts_the_cycles(
    worker: &mut Worker,
    runtime: &mut DirectoryRuntime,
    event: WorkerEvent,
    now: u128,
    action: WorkerAction,
)
    requires
        call_ensures(Worker::advance, (worker, runtime, event, now), action),
        old(worker).step is Restoring,
    ensures
        final(runtime)@.snapshot == old(runtime)@.snapshot,
        final(worker).log_requested == old(worker).log_requested,
        event matches WorkerEvent::StateFound(state) ==> final(runtime)@.state
            == runtime_state_of(state.status),
        event is StateAbsent ==> final(runtime)@.state == DirectoryState::NotEnrolled,
        (event is StateFound || event is StateAbsent) && old(worker).base_url is Some ==> {
            &&& final(worker).step is Reading
            &&& action is ReadState
            &&& final(worker).consecutive_failures == 0
            &&& final(worker).schedule.next_heartbeat == now
            &&& final(worker).schedule.next_directory == now
            &&& final(worker).schedule.next_relay_lease == now
        },
        (event is StateFound || event is StateAbsent) && old(worker).base_url is None ==> {
            &&& final(worker).step is Unconfigured
            &&& action == WorkerAction::Sleep(300_000_000_000)
            &&& keeps_course(*old(worker), *final(worker))
        },
        event is StateUnreadable ==> {
            &&& final(worker).step is Stopped
            &&& action is Stop
            &&& final(runtime)@ == old(runtime)@
            &&& keeps_course(*old(worker), *final(worker))
        },
{
    let seen = action@;
}

/// A rest is followed by a look at the stored enrollment; a worker without a directory goes
/// on resting. Nothing else changes.
pub proof fn law_rest_is_followed_by_a_look(
    worker: &mut Worker,
    runtime: &mut DirectoryRuntime,
    now: u128,
    action: WorkerAction,
)
    requires
        call_ensures(Worker::advance, (worker, runtime, WorkerEvent::Slept, now), action),
        old(worker).step is Sleeping || old(worker).step is Unconfigured,
    ensures
        final(runtime)@ == old(runtime)@,
        keeps_course(*old(worker), *final(worker)),
        old(worker).step is Sleeping ==> final(worker).step is Reading && action is ReadState,
        old(worker).step is Unconfigured ==> final(worker).step is Unconfigured && action
            == WorkerAction::Sleep(300_000_000_000),
{
    let seen = action@;
}

/// Each cycle goes by the stored status: a pending device and one that was turned away have
/// their status asked for, each on its own way, an approved one is identified, and one that
/// is not enrolled is looked at again after five seconds.
#[verifier::rlimit(40)]
pub proof fn law_cycle_goes_by_the_stored_status(
    worker: &mut Worker,
    runtime: &mut DirectoryRuntime,
    state: PersistedDirectoryAuth,
    now: u128,
    action: WorkerAction,
)
    requires
        call_ensures(
            Worker::advance,
            (worker, runtime, WorkerEvent::StateFound(state), now),
            action,
        ),
        old(worker).step is Reading,
    ensures
        final(runtime)@.snapshot == old(runtime)@.snapshot,
        final(worker).log_requested == old(worker).log_requested,
        ({
            let base = text_or_empty(old(worker).base_url);
            let askable = acceptable_base(base) && can_prove_continuity(state);
            let refused = state.status == PersistedEnrollmentStatus::Denied || state.status
                == PersistedEnrollmentStatus::Blocked || state.status
                == PersistedEnrollmentStatus::Revoked;
            &&& state.status == PersistedEnrollmentStatus::Pending || refused ==> {
                &&& final(worker).schedule.next_heartbeat == now
                &&& final(worker).schedule.next_directory == now
                &&& final(worker).schedule.next_relay_lease == now
                &&& final(worker).consecutive_failures == old(worker).consecutive_failures
                &&& askable ==> asks_for_status(action, base, state) && final(runtime)@
                    == old(runtime)@
            }
            &&& state.status == PersistedEnrollmentStatus::Pending && askable ==> final(worker).step
                == WorkerStep::PendingStatus(state)
            &&& state.status == PersistedEnrollmentStatus::Pending && !askable ==> rests(
                *final(worker),
                action,
                300,
            ) && final(runtime)@.state == DirectoryState::Unavailable
            &&& refused && askable ==> final(worker).step == WorkerStep::TerminalStatus(state)
            &&& refused && !askable ==> rests(*final(worker), action, 30)
            &&& state.status == PersistedEnrollmentStatus::Denied && !askable
                ==> final(runtime)@.state == DirectoryState::Denied
            &&& state.status == PersistedEnrollmentStatus::Blocked && !askable
                ==> final(runtime)@.state == DirectoryState::Blocked
            &&& state.status == PersistedEnrollmentStatus::Revoked && !askable
                ==> final(runtime)@.state == DirectoryState::Revoked
            &&& state.status == PersistedEnrollmentStatus::Approved ==> {
                &&& final(worker).step == WorkerStep::ApprovedIdentity(state)
                &&& action is ReadIdentity
                &&& final(runtime)@ == old(runtime)@
                &&& keeps_course(*old(worker), *final(worker))
            }
            &&& state.status == PersistedEnrollmentStatus::NotEnrolled ==> {
                &&& rests(*final(worker), action, 5)
                &&& final(runtime)@.state == DirectoryState::NotEnrolled
                &&& final(worker).consecutive_failures == 0
                &&& final(worker).schedule == old(worker).schedule
            }
        }),
{
    let seen = action@;
    if let WorkerAction::Send(request, kind) = action {
        let sent = request@;
    }
    lemma_status_request(text_or_empty(old(worker).base_url), state);
}

/// A cycle that finds no enrollment shows that, and looks again after five seconds; one that
/// cannot read it looks again after five minutes.
pub proof fn law_cycle_without_an_enrollment_looks_again(
    worker: &mut Worker,
    runtime: &mut DirectoryRuntime,
    event: WorkerEvent,
    now: u128,
    action: WorkerAction,
)
    requires
        call_ensures(Worker::advance, (worker, runtime, event, now), action),
        old(worker).step is Reading,
        event is StateAbsent || event is StateUnreadable,
    ensures
        keeps_course(*old(worker), *final(worker)),
        final(runtime)@.snapshot == old(runtime)@.snapshot,
        event is StateAbsent ==> rests(*final(worker), action, 5) && final(runtime)@.state
            == DirectoryState::NotEnrolled,
        event is StateUnreadable ==> rests(*final(worker), action, 300) && final(runtime)@.state
            == DirectoryState::Unavailable,
{
    let seen = action@;
}

/// The status of a pending device is shown as it came, and stored where it is about this
/// device; another answer, and a failure, leave the enrollment as it is.
#[verifier::rlimit(40)]
pub proof fn law_pending_status_is_shown_and_stored(
    worker: &mut Worker,
    runtime: &mut DirectoryRuntime,
    state: PersistedDirectoryAuth,
    event: WorkerEvent,
    now: u128,
    action: WorkerAction,
)
    requires
        call_ensures(Worker::advance, (worker, runtime, event, now), action),
        old(worker).step == WorkerStep::PendingStatus(state),
    ensures
        final(worker).schedule == old(worker).schedule,
        final(worker).log_requested == old(worker).log_requested,
        event matches WorkerEvent::StatusReceived(response) ==> {
            let updated = status_applied(state, response);
            &&& final(worker).consecutive_failures == old(worker).consecutive_failures
            &&& final(runtime)@.snapshot == rendered(status_members(response))
            &&& status_fault(state, response) is None ==> {
                &&& action == WorkerAction::WriteState(updated)
                &&& final(worker).step == WorkerStep::PendingWriting {
                    status: updated.status,
                    poll_after_seconds: updated.poll_after_seconds,
                }
                &&& final(runtime)@.state == old(runtime)@.state
            }
            &&& status_fault(state, response) is Some ==> rests(*final(worker), action, 300)
                && final(runtime)@.state == DirectoryState::Unavailable
        },
        event matches WorkerEvent::RequestFailed(error) ==> {
            &&& rests(
                *final(worker),
                action,
                error_delay(error, old(worker).consecutive_failures) as int,
            )
            &&& final(worker).consecutive_failures == failures_after(
                error,
                old(worker).consecutive_failures,
            )
            &&& final(runtime)@.state == DirectoryState::Unavailable
            &&& final(runtime)@.snapshot == old(runtime)@.snapshot
        },
{
    let seen = action@;
}

/// Once its status is stored, a pending device shows it and rests for as long as the server
/// asks for, and at least a second; ten seconds where it asks for nothing. An approved one
/// goes on after a second.
pub proof fn law_pending_device_rests_as_asked(
    worker: &mut Worker,
    runtime: &mut DirectoryRuntime,
    status: PersistedEnrollmentStatus,
    poll: Option<u64>,
    event: WorkerEvent,
    now: u128,
    action: WorkerAction,
)
    requires
        call_ensures(Worker::advance, (worker, runtime, event, now), action),
        old(worker).step == (WorkerStep::PendingWriting { status, poll_after_seconds: poll }),
    ensures
        final(worker).schedule == old(worker).schedule,
        final(worker).log_requested == old(worker).log_requested,
        final(runtime)@.snapshot == old(runtime)@.snapshot,
        event is Written ==> {
            &&& final(runtime)@.state == runtime_state_of(status)
            &&& final(worker).consecutive_failures == 0
            &&& status == PersistedEnrollmentStatus::Pending ==> {
                &&& poll is None ==> rests(*final(worker), action, 10)
                &&& poll == Some(0u64) ==> rests(*final(worker), action, 1)
                &&& poll matches Some(asked) ==> (asked > 0 ==> rests(
                    *final(worker),
                    action,
                    asked as int,
                ))
            }
            &&& status == PersistedEnrollmentStatus::Approved ==> rests(*final(worker), action, 1)
            &&& status != PersistedEnrollmentStatus::Pending && status
                != PersistedEnrollmentStatus::Approved ==> rests(*final(worker), action, 300)
        },
        event is WriteFailed ==> {
            &&& rests(*final(worker), action, 300)
            &&& final(runtime)@.state == DirectoryState::Unavailable
            &&& final(worker).consecutive_failures == old(worker).consecutive_failures
        },
{
    let seen = action@;
}

/// The status of a turned-away device is shown as it came, and stored where it is about this
/// device, together with whether its re-enrollment is authorized. Another answer has it
/// asked again after five seconds; after a failure the device shows its refusal.
#[verifier::rlimit(40)]
pub proof fn law_status_of_a_turned_away_device_is_shown_and_stored(
    worker: &mut Worker,
    runtime: &mut DirectoryRuntime,
    state: PersistedDirectoryAuth,
    event: WorkerEvent,
    now: u128,
    action: WorkerAction,
)
    requires
        call_ensures(Worker::advance, (worker, runtime, event, now), action),
        old(worker).step == WorkerStep::TerminalStatus(state),
    ensures
        final(worker).schedule == old(worker).schedule,
        final(worker).log_requested == old(worker).log_requested,
        event matches WorkerEvent::StatusReceived(response) ==> {
            let updated = status_applied(state, response);
            &&& final(worker).consecutive_failures == old(worker).consecutive_failures
            &&& final(runtime)@.snapshot == rendered(status_members(response))
            &&& status_fault(state, response) is None ==> {
                &&& action == WorkerAction::WriteState(updated)
                &&& final(worker).step == WorkerStep::TerminalWriting {
                    updated,
                    authorized: response.reenrollment_authorized,
                }
                &&& final(runtime)@.state == old(runtime)@.state
            }
            &&& status_fault(state, response) is Some ==> rests(*final(worker), action, 5)
                && final(runtime)@.state == DirectoryState::Unavailable
        },
        event matches WorkerEvent::RequestFailed(error) ==> {
            let asked = error_delay(error, old(worker).consecutive_failures);
            &&& asked <= 30 ==> rests(*final(worker), action, asked as int)
            &&& asked > 30 ==> rests(*final(worker), action, 30)
            &&& final(worker).consecutive_failures == failures_after(
                error,
                old(worker).consecutive_failures,
            )
            &&& final(runtime)@.state == runtime_state_of(state.status)
            &&& final(runtime)@.snapshot == old(runtime)@.snapshot
        },
{
    let seen = action@;
}

/// Once its status is stored, a device that is still turned away and is authorized to
/// re-enroll goes on to do so. Every other one rests for as long as the server asks for, but
/// between five and thirty seconds, and fifteen where it asks for nothing.
pub proof fn law_authorized_device_goes_on_to_reenroll(
    worker: &mut Worker,
    runtime: &mut DirectoryRuntime,
    updated: PersistedDirectoryAuth,
    authorized: bool,
    event: WorkerEvent,
    now: u128,
    action: WorkerAction,
)
    requires
        call_ensures(Worker::advance, (worker, runtime, event, now), action),
        old(worker).step == (WorkerStep::TerminalWriting { updated, authorized }),
    ensures
        final(worker).schedule == old(worker).schedule,
        final(worker).log_requested == old(worker).log_requested,
        final(runtime)@.snapshot == old(runtime)@.snapshot,
        event is Written ==> {
            let refused = updated.status == PersistedEnrollmentStatus::Denied || updated.status
                == PersistedEnrollmentStatus::Blocked || updated.status
                == PersistedEnrollmentStatus::Revoked;
            &&& final(runtime)@.state == runtime_state_of(updated.status)
            &&& final(worker).consecutive_failures == 0
            &&& authorized && refused ==> action is ReadIdentity && final(worker).step
                == WorkerStep::ReenrollmentIdentity(updated)
            &&& !(authorized && refused) ==> {
                &&& updated.poll_after_seconds is None ==> rests(*final(worker), action, 15)
                &&& updated.poll_after_seconds matches Some(asked) ==> {
                    &&& asked < 5 ==> rests(*final(worker), action, 5)
                    &&& 5 <= asked <= 30 ==> rests(*final(worker), action, asked as int)
                    &&& asked > 30 ==> rests(*final(worker), action, 30)
                }
            }
        },
        event is WriteFailed ==> {
            &&& rests(*final(worker), action, 5)
            &&& final(runtime)@.state == DirectoryState::Unavailable
            &&& final(worker).consecutive_failures == old(worker).consecutive_failures
        },
{
    let seen = action@;
}

/// The action is to complete the re-enrollment of this device.
pub open spec fn completes_reenrollment(
    action: WorkerAction,
    base: Seq<char>,
    state: PersistedDirectoryAuth,
    identity: DirectoryIdentity,
) -> bool {
    sends(
        action,
        Expected::Enrollment,
        base,
        "/v1/enrollment/reenroll"@,
        HttpMethod::Post,
        None,
        Some(
            rendered_in_order(
                seq![
                    ("device_id"@, JsonNode::Text(state.device_id->0@)),
                    ("poll_token"@, JsonNode::Text(state.enrollment_poll_token->0@)),
                    ("rustdesk_id"@, JsonNode::Text(identity.rustdesk_id@)),
                    ("hostname"@, JsonNode::Text(identity.hostname@)),
                    ("friendly_name"@, JsonNode::Text(identity.friendly_name@)),
                ] + (if identity.contact_email@.len() > 0 {
                    seq![("contact_email"@, JsonNode::Text(identity.contact_email@))]
                } else {
                    Seq::empty()
                }) + seq![
                    ("device_public_key"@, JsonNode::Text(identity.device_public_key@)),
                    ("client_version"@, JsonNode::Text(identity.client_version@)),
                ],
            ),
        ),
    )
}

proof fn lemma_completion_request(
    base: Seq<char>,
    state: PersistedDirectoryAuth,
    identity: DirectoryIdentity,
)
    ensures
        completion_request(base, state, identity) is Some <==> acceptable_base(base)
            && can_prove_continuity(state),
        completion_request(base, state, identity) matches Some(request) ==> {
            &&& request.method == HttpMethod::Post
            &&& request.url == route_address(base, "/v1/enrollment/reenroll"@)
            &&& request.bearer is None
            &&& request.body == Some(
                rendered_in_order(
                    seq![
                        ("device_id"@, JsonNode::Text(state.device_id->0@)),
                        ("poll_token"@, JsonNode::Text(state.enrollment_poll_token->0@)),
                        ("rustdesk_id"@, JsonNode::Text(identity.rustdesk_id@)),
                        ("hostname"@, JsonNode::Text(identity.hostname@)),
                        ("friendly_name"@, JsonNode::Text(identity.friendly_name@)),
                    ] + (if identity.contact_email@.len() > 0 {
                        seq![("contact_email"@, JsonNode::Text(identity.contact_email@))]
                    } else {
                        Seq::empty()
                    }) + seq![
                        ("device_public_key"@, JsonNode::Text(identity.device_public_key@)),
                        ("client_version"@, JsonNode::Text(identity.client_version@)),
                    ],
                ),
            )
        },
{
    lemma_blank_iff_trimmed_empty(text_or_empty(state.device_id));
    if can_prove_continuity(state) {
        assert(completion_fields(state, identity) =~= seq![
            ("device_id"@, JsonNode::Text(state.device_id->0@)),
            ("poll_token"@, JsonNode::Text(state.enrollment_poll_token->0@)),
            ("rustdesk_id"@, JsonNode::Text(identity.rustdesk_id@)),
            ("hostname"@, JsonNode::Text(identity.hostname@)),
            ("friendly_name"@, JsonNode::Text(identity.friendly_name@)),
        ] + (if identity.contact_email@.len() > 0 {
            seq![("contact_email"@, JsonNode::Text(identity.contact_email@))]
        } else {
            Seq::empty()
        }) + seq![
            ("device_public_key"@, JsonNode::Text(identity.device_public_key@)),
            ("client_version"@, JsonNode::Text(identity.client_version@)),
        ]);
    }
}

/// A device that goes on to re-enroll completes that with its id, its token and what
/// identifies it now; where it cannot, it rests for half a minute at most.
#[verifier::rlimit(40)]
pub proof fn law_identified_device_completes_its_reenrollment(
    worker: &mut Worker,
    runtime: &mut DirectoryRuntime,
    state: PersistedDirectoryAuth,
    event: WorkerEvent,
    now: u128,
    action: WorkerAction,
)
    requires
        call_ensures(Worker::advance, (worker, runtime, event, now), action),
        old(worker).step == WorkerStep::ReenrollmentIdentity(state),
    ensures
        final(runtime)@ == old(runtime)@,
        keeps_course(*old(worker), *final(worker)),
        event matches WorkerEvent::IdentityFound(identity) ==> {
            let base = text_or_empty(old(worker).base_url);
            let able = acceptable_base(base) && can_prove_continuity(state);
            &&& able ==> completes_reenrollment(action, base, state, identity) && final(worker).step
                == WorkerStep::ReenrollmentSent(identity)
            &&& !able ==> rests(*final(worker), action, 30)
        },
        event is IdentityUnavailable ==> rests(*final(worker), action, 15),
{
    let seen = action@;
    if let WorkerAction::Send(request, kind) = action {
        let sent = request@;
    }
    if let WorkerEvent::IdentityFound(identity) = event {
        lemma_completion_request(text_or_empty(old(worker).base_url), state, identity);
    }
}

/// A re-enrollment that is answered for this device is stored as pending, and once it is,
/// the snapshot is cleared, the device shows that it is pending, and a new cycle begins
/// after a second. Every failure in between has it tried again within half a minute.
#[verifier::rlimit(40)]
pub proof fn law_completed_reenrollment_is_pending(
    worker: &mut Worker,
    runtime: &mut DirectoryRuntime,
    event: WorkerEvent,
    now: u128,
    action: WorkerAction,
)
    requires
        call_ensures(Worker::advance, (worker, runtime, event, now), action),
        old(worker).step is ReenrollmentSent || old(worker).step is ReenrollmentWriting,
    ensures
        final(worker).schedule == old(worker).schedule,
        final(worker).log_requested == old(worker).log_requested,
        old(worker).step matches WorkerStep::ReenrollmentSent(identity) ==> {
            &&& final(runtime)@ == old(runtime)@
            &&& event matches WorkerEvent::EnrollmentReceived(response) ==> {
                &&& keeps_course(*old(worker), *final(worker))
                &&& enrollment_fault(identity, response) is None ==> action
                    == WorkerAction::WriteState(pending_enrollment(identity, response))
                    && final(worker).step is ReenrollmentWriting
                &&& enrollment_fault(identity, response) is Some ==> rests(
                    *final(worker),
                    action,
                    15,
                )
            }
            &&& event matches WorkerEvent::RequestFailed(error) ==> {
                let asked = error_delay(error, old(worker).consecutive_failures);
                &&& asked <= 30 ==> rests(*final(worker), action, asked as int)
                &&& asked > 30 ==> rests(*final(worker), action, 30)
                &&& final(worker).consecutive_failures == failures_after(
                    error,
                    old(worker).consecutive_failures,
                )
            }
        },
        old(worker).step is ReenrollmentWriting && event is Written ==> {
            &&& keeps_course(*old(worker), *final(worker))
            &&& final(runtime)@.state == DirectoryState::Pending
            &&& final(runtime)@.snapshot.len() == 0
            &&& rests(*final(worker), action, 1)
        },
        old(worker).step is ReenrollmentWriting && event is WriteFailed ==> {
            &&& keeps_course(*old(worker), *final(worker))
            &&& final(runtime)@ == old(runtime)@
            &&& rests(*final(worker), action, 15)
        },
{
    let seen = action@;
}

/// A turned-away device never rests for more than half a minute between two looks at its
/// status, at whatever point of its cycle and whatever happens.
#[verifier::rlimit(60)]
pub proof fn law_turned_away_device_is_looked_at_often(
    worker: &mut Worker,
    runtime: &mut DirectoryRuntime,
    event: WorkerEvent,
    now: u128,
    action: WorkerAction,
)
    requires
        call_ensures(Worker::advance, (worker, runtime, event, now), action),
        ({
            ||| old(worker).step is TerminalStatus
            ||| old(worker).step is TerminalWriting
            ||| old(worker).step is ReenrollmentIdentity
            ||| old(worker).step is ReenrollmentSent
            ||| old(worker).step is ReenrollmentWriting
            ||| {
                &&& old(worker).step is Reading
                &&& event matches WorkerEvent::StateFound(state)
                &&& state.status == PersistedEnrollmentStatus::Denied || state.status
                    == PersistedEnrollmentStatus::Blocked || state.status
                    == PersistedEnrollmentStatus::Revoked
            }
        }),
    ensures
        action matches WorkerAction::Sleep(nanos) ==> nanos <= 30_000_000_000,
        action is Sleep ==> final(worker).step is Sleeping,
{
    let seen = action@;
}

proof fn lemma_refusal_stays_a_refusal(
    state: PersistedDirectoryAuth,
    response: EnrollmentStatusResponse,
)
    requires
        status_fault(state, response) is None,
        response.status@ == "denied"@ || response.status@ == "blocked"@ || response.status@
            == "revoked"@,
    ensures
        turned_away(status_applied(state, response).status),
        status_applied(state, response).device_id == state.device_id,
        status_applied(state, response).enrollment_poll_token == state.enrollment_poll_token,
{
    reveal_strlit("pending");
    reveal_strlit("approved");
    reveal_strlit("denied");
    reveal_strlit("blocked");
    reveal_strlit("revoked");
    assert("pending"@[0] == 'p' && "approved"@[0] == 'a' && "denied"@[0] == 'd' && "blocked"@[0]
        == 'b' && "revoked"@[0] == 'r');
}

proof fn lemma_turned_away_is_asked_for(h: Here, base: Seq<char>, state: PersistedDirectoryAuth)
    requires
        h.base == Some(base),
        acceptable_base(base),
        can_prove_continuity(state),
        state.status == PersistedEnrollmentStatus::Denied || state.status
            == PersistedEnrollmentStatus::Blocked || state.status
            == PersistedEnrollmentStatus::Revoked,
    ensures
        ({
            let turn = transition(h, WorkerStep::Reading, WorkerEvent::StateFound(state));
            &&& turn.here.base == h.base
            &&& turn.step == WorkerStep::TerminalStatus(state)
            &&& turn.action is Send
            &&& turn.action->Send_0.url == route_address(base, "/v1/enrollment/status"@)
            &&& turn.action->Send_1 == Expected::Status
        }),
{
    lemma_status_request(base, state);
}

proof fn lemma_authorization_is_stored(
    h: Here,
    state: PersistedDirectoryAuth,
    response: EnrollmentStatusResponse,
)
    requires
        status_fault(state, response) is None,
        response.reenrollment_authorized,
    ensures
        ({
            let updated = status_applied(state, response);
            let turn = transition(
                h,
                WorkerStep::TerminalStatus(state),
                WorkerEvent::StatusReceived(response),
            );
            &&& turn.here.base == h.base
            &&& turn.step == (WorkerStep::TerminalWriting { updated, authorized: true })
            &&& turn.action == ActionView::WriteState(updated)
        }),
{
}

proof fn lemma_authorized_is_identified(h: Here, updated: PersistedDirectoryAuth)
    requires
        turned_away(updated.status),
    ensures
        ({
            let turn = transition(
                h,
                WorkerStep::TerminalWriting { updated, authorized: true },
                WorkerEvent::Written,
            );
            &&& turn.here.base == h.base
            &&& turn.step == WorkerStep::ReenrollmentIdentity(updated)
            &&& turn.action is ReadIdentity
        }),
{
}

proof fn lemma_identified_completes(
    h: Here,
    base: Seq<char>,
    state: PersistedDirectoryAuth,
    identity: DirectoryIdentity,
)
    requires
        h.base == Some(base),
        acceptable_base(base),
        can_prove_continuity(state),
    ensures
        ({
            let turn = transition(
                h,
                WorkerStep::ReenrollmentIdentity(state),
                WorkerEvent::IdentityFound(identity),
            );
            &&& turn.step == WorkerStep::ReenrollmentSent(identity)
            &&& turn.action is Send
            &&& turn.action->Send_0.url == route_address(base, "/v1/enrollment/reenroll"@)
            &&& turn.action->Send_1 == Expected::Enrollment
        }),
{
    lemma_completion_request(base, state, identity);
}

/// The way back of a turned-away device, in four turns: its status is asked for; an answer
/// that is about this device, that leaves it turned away and that authorizes it to re-enroll
/// is stored; it is identified; and its re-enrollment is completed.
#[verifier::rlimit(60)]
pub proof fn law_turned_away_device_finds_its_way_back(
    worker: Worker,
    runtime: DirectoryRuntime,
    state: PersistedDirectoryAuth,
    response: EnrollmentStatusResponse,
    identity: DirectoryIdentity,
    now: u128,
)
    requires
        worker.base_url is Some,
        acceptable_base(worker.base_url->0@),
        can_prove_continuity(state),
        state.status == PersistedEnrollmentStatus::Denied || state.status
            == PersistedEnrollmentStatus::Blocked || state.status
            == PersistedEnrollmentStatus::Revoked,
        status_fault(state, response) is None,
        response.status@ == "denied"@ || response.status@ == "blocked"@ || response.status@
            == "revoked"@,
        response.reenrollment_authorized,
    ensures
        ({
            let base = worker.base_url->0@;
            let here = worker.here(runtime@, now);
            let asked = transition(here, WorkerStep::Reading, WorkerEvent::StateFound(state));
            let stored = transition(
                asked.here,
                asked.step,
                WorkerEvent::StatusReceived(response),
            );
            let authorized = transition(stored.here, stored.step, WorkerEvent::Written);
            let completed = transition(
                authorized.here,
                authorized.step,
                WorkerEvent::IdentityFound(identity),
            );
            &&& asked.step == WorkerStep::TerminalStatus(state)
            &&& asked.action is Send
            &&& asked.action->Send_0.url == route_address(base, "/v1/enrollment/status"@)
            &&& asked.action->Send_1 == Expected::Status
            &&& stored.action is WriteState
            &&& stored.action->WriteState_0.device_id == state.device_id
            &&& stored.action->WriteState_0.enrollment_poll_token == state.enrollment_poll_token
            &&& authorized.action is ReadIdentity
            &&& completed.step == WorkerStep::ReenrollmentSent(identity)
            &&& completed.action is Send
            &&& completed.action->Send_0.url == route_address(base, "/v1/enrollment/reenroll"@)
            &&& completed.action->Send_1 == Expected::Enrollment
        }),
{
    let base = worker.base_url->0@;
    let updated = status_applied(state, response);
    let here = worker.here(runtime@, now);
    lemma_refusal_stays_a_refusal(state, response);
    lemma_turned_away_is_asked_for(here, base, state);
    let asked = transition(here, WorkerStep::Reading, WorkerEvent::StateFound(state));
    lemma_authorization_is_stored(asked.here, state, response);
    let stored = transition(asked.here, asked.step, WorkerEvent::StatusReceived(response));
    lemma_authorized_is_identified(stored.here, updated);
    let authorized = transition(stored.here, stored.step, WorkerEvent::Written);
    lemma_identified_completes(authorized.here, base, updated, identity);
}

/// The device can be asked for under this address: the address will do, and the enrollment is
/// approved and has a credential.
pub open spec fn can_ask(base: Seq<char>, state: PersistedDirectoryAuth) -> bool {
    acceptable_base(base) && can_use_protected_routes(state)
}

/// The device can be asked for exactly where the address will do and there is a credential of
/// an approved enrollment.
pub proof fn law_asking_needs_address_and_credential(
    base: Seq<char>,
    state: PersistedDirectoryAuth,
)
    ensures
        can_ask(base, state) <==> acceptable_base(base) && state.status
            == PersistedEnrollmentStatus::Approved && state.device_credential is Some
            && state.device_credential->0@.len() > 0,
{
}

/// A request that cannot be made takes the device out of Ready for five minutes.
pub open spec fn gives_up(
    after: Worker,
    runtime: DirectoryRuntime,
    action: WorkerAction,
) -> bool {
    rests(after, action, 300) && runtime@.state == DirectoryState::Unavailable
}

/// Where relay leases are issued: at an address of their own, or at the directory's.
pub open spec fn lease_base(worker: Worker) -> Seq<char> {
    if worker.relay_lease_base_url is Some {
        worker.relay_lease_base_url->0@
    } else {
        text_or_empty(worker.base_url)
    }
}

/// The lease is asked for where it is due; where it is not, the cycle ends with the device
/// Ready and with the upload of the log.
pub open spec fn goes_on_to_the_lease(
    after: Worker,
    runtime: DirectoryRuntime,
    action: WorkerAction,
    state: PersistedDirectoryAuth,
    now: u128,
) -> bool {
    &&& now >= after.schedule.next_relay_lease && can_ask(lease_base(after), state) ==> {
        &&& after.step == WorkerStep::RelayLease(state)
        &&& sends(
            action,
            Expected::RelayLease,
            lease_base(after),
            "/v1/device/relay-lease"@,
            HttpMethod::Post,
            Some(state.device_credential->0@),
            None,
        )
    }
    &&& now >= after.schedule.next_relay_lease && !can_ask(lease_base(after), state) ==> gives_up(
        after,
        runtime,
        action,
    )
    &&& now < after.schedule.next_relay_lease ==> ends_cycle(after, runtime, action, state, now)
}

/// The cycle ends with the device Ready, and its log is uploaded with its credential, forced
/// where one was asked for.
pub open spec fn ends_cycle(
    after: Worker,
    runtime: DirectoryRuntime,
    action: WorkerAction,
    state: PersistedDirectoryAuth,
    now: u128,
) -> bool {
    &&& runtime@.state == DirectoryState::Ready
    &&& can_use_protected_routes(state) ==> {
        &&& after.step == WorkerStep::LogUpload(state)
        &&& action matches WorkerAction::UploadLog { credential, force }
        &&& credential@ == state.device_credential->0@
        &&& force == after.log_requested
    }
    &&& !can_use_protected_routes(state) ==> {
        &&& after.step is Sleeping
        &&& action == WorkerAction::Sleep(after.schedule.wait(now))
    }
}

/// The directory is asked for where it is due, and what comes after it where it is not.
pub open spec fn goes_on_to_the_directory(
    after: Worker,
    runtime: DirectoryRuntime,
    action: WorkerAction,
    state: PersistedDirectoryAuth,
    now: u128,
) -> bool {
    let base = text_or_empty(after.base_url);
    &&& now >= after.schedule.next_directory && can_ask(base, state) ==> {
        &&& after.step == WorkerStep::Directory(state)
        &&& sends(
            action,
            Expected::Directory,
            base,
            "/v1/directory"@,
            HttpMethod::Get,
            Some(state.device_credential->0@),
            None,
        )
    }
    &&& now >= after.schedule.next_directory && !can_ask(base, state) ==> gives_up(
        after,
        runtime,
        action,
    )
    &&& now < after.schedule.next_directory ==> goes_on_to_the_lease(
        after,
        runtime,
        action,
        state,
        now,
    )
}

/// A heartbeat is sent where it is due, and what comes after it is done where it is not.
pub open spec fn goes_on_to_the_heartbeat(
    after: Worker,
    runtime: DirectoryRuntime,
    action: WorkerAction,
    state: PersistedDirectoryAuth,
    identity: DirectoryIdentity,
    now: u128,
) -> bool {
    let base = text_or_empty(after.base_url);
    &&& now >= after.schedule.next_heartbeat && can_ask(base, state) ==> {
        &&& after.step == WorkerStep::Heartbeat(state)
        &&& sends(
            action,
            Expected::Heartbeat,
            base,
            "/v1/device/heartbeat"@,
            HttpMethod::Post,
            Some(state.device_credential->0@),
            Some(
                rendered_in_order(
                    seq![
                        ("hostname"@, JsonNode::Text(identity.hostname@)),
                        ("friendly_name"@, JsonNode::Text(identity.friendly_name@)),
                        ("client_version"@, JsonNode::Text(identity.client_version@)),
                    ],
                ),
            ),
        )
    }
    &&& now >= after.schedule.next_heartbeat && !can_ask(base, state) ==> gives_up(
        after,
        runtime,
        action,
    )
    &&& now < after.schedule.next_heartbeat ==> goes_on_to_the_directory(
        after,
        runtime,
        action,
        state,
        now,
    )
}

/// Of the heartbeat, the directory and the lease at most one is asked for at a time, in this
/// order, each only where it is due and can be asked for, and each with the device's own
/// credential.
pub proof fn law_due_things_are_asked_for_in_order(
    after: Worker,
    runtime: DirectoryRuntime,
    action: WorkerAction,
    state: PersistedDirectoryAuth,
    identity: DirectoryIdentity,
    now: u128,
)
    requires
        goes_on_to_the_heartbeat(after, runtime, action, state, identity, now),
    ensures
        action matches WorkerAction::Send(request, kind) ==> {
            &&& optional_view(request.bearer) == Some(state.device_credential->0@)
            &&& kind == Expected::Heartbeat <==> now >= after.schedule.next_heartbeat
            &&& kind == Expected::Directory <==> now < after.schedule.next_heartbeat && now
                >= after.schedule.next_directory
            &&& kind == Expected::RelayLease <==> now < after.schedule.next_heartbeat && now
                < after.schedule.next_directory && now >= after.schedule.next_relay_lease
        },
        action is UploadLog ==> now < after.schedule.next_heartbeat && now
            < after.schedule.next_directory && now < after.schedule.next_relay_lease
            && runtime@.state == DirectoryState::Ready,
        can_ask(text_or_empty(after.base_url), state) && can_ask(lease_base(after), state)
            ==> action is Send || action is UploadLog,
{
}

proof fn lemma_heartbeat_request(
    base: Seq<char>,
    state: PersistedDirectoryAuth,
    identity: DirectoryIdentity,
)
    ensures
        heartbeat_request(base, state, identity) is Some <==> can_ask(base, state),
        heartbeat_request(base, state, identity) matches Some(request) ==> request.body == Some(
            rendered_in_order(
                seq![
                    ("hostname"@, JsonNode::Text(identity.hostname@)),
                    ("friendly_name"@, JsonNode::Text(identity.friendly_name@)),
                    ("client_version"@, JsonNode::Text(identity.client_version@)),
                ],
            ),
        ),
{
    assert(heartbeat_fields(identity) =~= seq![
        ("hostname"@, JsonNode::Text(identity.hostname@)),
        ("friendly_name"@, JsonNode::Text(identity.friendly_name@)),
        ("client_version"@, JsonNode::Text(identity.client_version@)),
    ]);
}

/// An approved device that is not Ready has its credential confirmed before anything else is
/// sent; one that is goes on with what is due. Without an identity it rests for five minutes.
#[verifier::rlimit(60)]
pub proof fn law_approved_device_is_confirmed_first(
    worker: &mut Worker,
    runtime: &mut DirectoryRuntime,
    state: PersistedDirectoryAuth,
    event: WorkerEvent,
    now: u128,
    action: WorkerAction,
)
    requires
        call_ensures(Worker::advance, (worker, runtime, event, now), action),
        old(worker).step == WorkerStep::ApprovedIdentity(state),
    ensures
        keeps_course(*old(worker), *final(worker)),
        final(runtime)@.snapshot == old(runtime)@.snapshot,
        event is IdentityUnavailable ==> gives_up(*final(worker), *final(runtime), action),
        event matches WorkerEvent::IdentityFound(identity) ==> {
            let base = text_or_empty(old(worker).base_url);
            &&& old(runtime)@.state != DirectoryState::Ready && can_ask(base, state) ==> {
                &&& final(runtime)@ == old(runtime)@
                &&& final(worker).step == WorkerStep::DeviceMe(state, identity)
                &&& sends(
                    action,
                    Expected::DeviceMe,
                    base,
                    "/v1/device/me"@,
                    HttpMethod::Get,
                    Some(state.device_credential->0@),
                    None,
                )
            }
            &&& old(runtime)@.state != DirectoryState::Ready && !can_ask(base, state) ==> gives_up(
                *final(worker),
                *final(runtime),
                action,
            )
            &&& old(runtime)@.state == DirectoryState::Ready ==> goes_on_to_the_heartbeat(
                *final(worker),
                *final(runtime),
                action,
                state,
                identity,
                now,
            )
        },
{
    let seen = (action@, old(runtime)@, final(runtime)@);
    if let WorkerAction::Send(request, kind) = action {
        let sent = request@;
    }
    if let WorkerEvent::IdentityFound(identity) = event {
        lemma_heartbeat_request(text_or_empty(old(worker).base_url), state, identity);
    }
}

/// A credential that is confirmed for this device makes it Ready and ends its failures, and
/// what is due is done; another answer takes it out of Ready for five minutes.
#[verifier::rlimit(60)]
pub proof fn law_confirmed_device_goes_on(
    worker: &mut Worker,
    runtime: &mut DirectoryRuntime,
    state: PersistedDirectoryAuth,
    identity: DirectoryIdentity,
    response: DeviceMeResponse,
    now: u128,
    action: WorkerAction,
)
    requires
        call_ensures(
            Worker::advance,
            (worker, runtime, WorkerEvent::DeviceMeReceived(response), now),
            action,
        ),
        old(worker).step == WorkerStep::DeviceMe(state, identity),
    ensures
        final(worker).schedule == old(worker).schedule,
        final(worker).log_requested == old(worker).log_requested,
        final(runtime)@.snapshot == old(runtime)@.snapshot,
        device_me_fault(state, response) is None ==> {
            &&& final(worker).consecutive_failures == 0
            &&& action is Send ==> final(runtime)@.state == DirectoryState::Ready
            &&& goes_on_to_the_heartbeat(
                *final(worker),
                *final(runtime),
                action,
                state,
                identity,
                now,
            )
        },
        device_me_fault(state, response) is Some ==> {
            &&& gives_up(*final(worker), *final(runtime), action)
            &&& final(worker).consecutive_failures == old(worker).consecutive_failures
        },
{
    let seen = (action@, old(runtime)@, final(runtime)@);
    if let WorkerAction::Send(request, kind) = action {
        let sent = request@;
    }
    lemma_heartbeat_request(text_or_empty(old(worker).base_url), state, identity);
}

/// An answered heartbeat puts the next one fifteen seconds off, ends the failures and notes
/// whether a log is wanted, and what is due is done; another answer takes the device out of
/// Ready for five minutes.
#[verifier::rlimit(60)]
pub proof fn law_answered_heartbeat_goes_on(
    worker: &mut Worker,
    runtime: &mut DirectoryRuntime,
    state: PersistedDirectoryAuth,
    response: HeartbeatResponse,
    debug_log_requested: bool,
    now: u128,
    action: WorkerAction,
)
    requires
        call_ensures(
            Worker::advance,
            (
                worker,
                runtime,
                WorkerEvent::HeartbeatReceived { response, debug_log_requested },
                now,
            ),
            action,
        ),
        old(worker).step == WorkerStep::Heartbeat(state),
        now < TIME_LIMIT,
    ensures
        final(runtime)@.snapshot == old(runtime)@.snapshot,
        final(worker).schedule.next_directory == old(worker).schedule.next_directory,
        final(worker).schedule.next_relay_lease == old(worker).schedule.next_relay_lease,
        heartbeat_valid(response) ==> {
            &&& final(worker).schedule.next_heartbeat == now + 15_000_000_000
            &&& final(worker).consecutive_failures == 0
            &&& final(worker).log_requested == debug_log_requested
            &&& action is Send ==> final(runtime)@.state == old(runtime)@.state
            &&& goes_on_to_the_directory(*final(worker), *final(runtime), action, state, now)
        },
        !heartbeat_valid(response) ==> {
            &&& gives_up(*final(worker), *final(runtime), action)
            &&& keeps_course(*old(worker), *final(worker))
        },
{
    let seen = (action@, old(runtime)@, final(runtime)@);
    if let WorkerAction::Send(request, kind) = action {
        let sent = request@;
    }
}

/// A directory that came is turned into text as it is shown, without this device; its
/// interval is kept for the schedule.
#[verifier::rlimit(40)]
pub proof fn law_directory_is_serialized_as_shown(
    worker: &mut Worker,
    runtime: &mut DirectoryRuntime,
    state: PersistedDirectoryAuth,
    response: DirectoryResponse,
    now: u128,
    action: WorkerAction,
)
    requires
        call_ensures(
            Worker::advance,
            (worker, runtime, WorkerEvent::DirectoryReceived(response), now),
            action,
        ),
        old(worker).step == WorkerStep::Directory(state),
    ensures
        final(runtime)@ == old(runtime)@,
        keeps_course(*old(worker), *final(worker)),
        action matches WorkerAction::SerializeDirectory(shown) && shown@ == shown_directory(
            response@,
            state,
        ),
        final(worker).step matches WorkerStep::DirectorySnapshot { state: kept, refresh_seconds }
            && kept == state && (1 <= response.refresh_seconds <= 15 ==> refresh_seconds
            == response.refresh_seconds) && (!(1 <= response.refresh_seconds <= 15)
            ==> refresh_seconds == 15),
{
    let seen = action@;
}

/// The text of a directory is shown where it has one, the next directory is put off by its
/// interval, at least a second, the failures end, and what is due is done.
#[verifier::rlimit(60)]
pub proof fn law_serialized_directory_is_shown(
    worker: &mut Worker,
    runtime: &mut DirectoryRuntime,
    state: PersistedDirectoryAuth,
    refresh_seconds: u64,
    text: Option<String>,
    now: u128,
    action: WorkerAction,
)
    requires
        call_ensures(
            Worker::advance,
            (worker, runtime, WorkerEvent::DirectorySerialized(text), now),
            action,
        ),
        old(worker).step == (WorkerStep::DirectorySnapshot { state, refresh_seconds }),
        now < TIME_LIMIT,
    ensures
        text matches Some(shown) ==> final(runtime)@.snapshot == shown@,
        text is None ==> final(runtime)@.snapshot == old(runtime)@.snapshot,
        final(worker).schedule.next_heartbeat == old(worker).schedule.next_heartbeat,
        final(worker).schedule.next_relay_lease == old(worker).schedule.next_relay_lease,
        refresh_seconds > 0 ==> final(worker).schedule.next_directory == now + refresh_seconds
            * SECOND,
        refresh_seconds == 0 ==> final(worker).schedule.next_directory == now + SECOND,
        final(worker).consecutive_failures == 0,
        final(worker).log_requested == old(worker).log_requested,
        action is Send ==> final(runtime)@.state == old(runtime)@.state,
        goes_on_to_the_lease(*final(worker), *final(runtime), action, state, now),
{
    let seen = (action@, old(runtime)@, final(runtime)@);
    if let WorkerAction::Send(request, kind) = action {
        let sent = request@;
    }
}

/// A lease for this device puts the next one off for as long as it says, at least a second,
/// ends the failures, and with it the cycle; another answer takes the device out of Ready
/// for five minutes.
#[verifier::rlimit(60)]
pub proof fn law_lease_ends_the_cycle(
    worker: &mut Worker,
    runtime: &mut DirectoryRuntime,
    state: PersistedDirectoryAuth,
    response: RelayLeaseResponse,
    now: u128,
    action: WorkerAction,
)
    requires
        call_ensures(
            Worker::advance,
            (worker, runtime, WorkerEvent::RelayLeaseReceived(response), now),
            action,
        ),
        old(worker).step == WorkerStep::RelayLease(state),
        now < TIME_LIMIT,
    ensures
        final(runtime)@.snapshot == old(runtime)@.snapshot,
        final(worker).schedule.next_heartbeat == old(worker).schedule.next_heartbeat,
        final(worker).schedule.next_directory == old(worker).schedule.next_directory,
        final(worker).log_requested == old(worker).log_requested,
        relay_lease_valid(state, response) ==> {
            &&& response.renew_after_seconds > 0 ==> final(worker).schedule.next_relay_lease == now
                + response.renew_after_seconds * SECOND
            &&& response.renew_after_seconds == 0 ==> final(worker).schedule.next_relay_lease == now
                + SECOND
            &&& final(worker).consecutive_failures == 0
            &&& ends_cycle(*final(worker), *final(runtime), action, state, now)
        },
        !relay_lease_valid(state, response) ==> {
            &&& gives_up(*final(worker), *final(runtime), action)
            &&& keeps_course(*old(worker), *final(worker))
        },
{
    let seen = (action@, old(runtime)@, final(runtime)@);
}

/// After the upload of the log, however it went, the worker rests until something is due,
/// and nothing else changes.
pub proof fn law_cycle_rests_until_something_is_due(
    worker: &mut Worker,
    runtime: &mut DirectoryRuntime,
    now: u128,
    action: WorkerAction,
    delay: u128,
)
    requires
        call_ensures(Worker::advance, (worker, runtime, WorkerEvent::LogUploadTried, now), action),
        old(worker).step is LogUpload,
        call_ensures(ApprovedSchedule::next_delay, (&old(worker).schedule, now), delay),
    ensures
        final(worker).step is Sleeping,
        action == WorkerAction::Sleep(delay),
        delay == old(worker).schedule.wait(now),
        final(runtime)@ == old(runtime)@,
        keeps_course(*old(worker), *final(worker)),
{
    let seen = action@;
}

/// A request of an approved device that fails takes it out of Ready. A rejected credential
/// has the stored enrollment read again at once; every other failure has the worker rest for
/// as long as it asks for.
#[verifier::rlimit(60)]
pub proof fn law_failed_request_of_an_approved_device(
    worker: &mut Worker,
    runtime: &mut DirectoryRuntime,
    error: DirectoryApiError,
    now: u128,
    action: WorkerAction,
)
    requires
        call_ensures(
            Worker::advance,
            (worker, runtime, WorkerEvent::RequestFailed(error), now),
            action,
        ),
        old(worker).step is DeviceMe || old(worker).step is Heartbeat || old(worker).step
            is Directory || old(worker).step is RelayLease,
    ensures
        final(runtime)@.state == DirectoryState::Unavailable,
        final(runtime)@.snapshot == old(runtime)@.snapshot,
        final(worker).schedule == old(worker).schedule,
        final(worker).log_requested == old(worker).log_requested,
        error.kind == DirectoryApiErrorKind::Unauthorized || error.kind
            == DirectoryApiErrorKind::Forbidden ==> {
            &&& final(worker).step is Resolving
            &&& action is ReadState
            &&& final(worker).consecutive_failures == old(worker).consecutive_failures
        },
        error.kind != DirectoryApiErrorKind::Unauthorized && error.kind
            != DirectoryApiErrorKind::Forbidden ==> {
            &&& rests(
                *final(worker),
                action,
                error_delay(error, old(worker).consecutive_failures) as int,
            )
            &&& final(worker).consecutive_failures == failures_after(
                error,
                old(worker).consecutive_failures,
            )
        },
{
    let seen = action@;
}

/// The enrollment behind a rejected credential has its status asked for; where there is none,
/// it cannot be read, or its status cannot be asked for, the worker rests for five minutes.
#[verifier::rlimit(40)]
pub proof fn law_rejected_enrollment_has_its_status_asked_for(
    worker: &mut Worker,
    runtime: &mut DirectoryRuntime,
    event: WorkerEvent,
    now: u128,
    action: WorkerAction,
)
    requires
        call_ensures(Worker::advance, (worker, runtime, event, now), action),
        old(worker).step is Resolving,
    ensures
        keeps_course(*old(worker), *final(worker)),
        final(runtime)@.snapshot == old(runtime)@.snapshot,
        event matches WorkerEvent::StateFound(current) ==> {
            let base = text_or_empty(old(worker).base_url);
            let askable = acceptable_base(base) && can_prove_continuity(current);
            &&& askable ==> {
                &&& asks_for_status(action, base, current)
                &&& final(worker).step == WorkerStep::ResolvingStatus(current)
                &&& final(runtime)@ == old(runtime)@
            }
            &&& !askable ==> gives_up(*final(worker), *final(runtime), action)
        },
        event is StateAbsent || event is StateUnreadable ==> gives_up(
            *final(worker),
            *final(runtime),
            action,
        ),
{
    let seen = action@;
    if let WorkerAction::Send(request, kind) = action {
        let sent = request@;
    }
    if let WorkerEvent::StateFound(current) = event {
        lemma_status_request(text_or_empty(old(worker).base_url), current);
    }
}

/// Of the status behind a rejected credential a refusal is stored, and so is an approval with
/// another credential. An approval with the same one is not taken: the worker rests for half
/// a minute. A device that is pending again, and an answer that is not about this device,
/// have it rest for five minutes.
#[verifier::rlimit(60)]
pub proof fn law_status_behind_a_rejection_decides(
    worker: &mut Worker,
    runtime: &mut DirectoryRuntime,
    current: PersistedDirectoryAuth,
    event: WorkerEvent,
    now: u128,
    action: WorkerAction,
)
    requires
        call_ensures(Worker::advance, (worker, runtime, event, now), action),
        old(worker).step == WorkerStep::ResolvingStatus(current),
    ensures
        final(worker).schedule == old(worker).schedule,
        final(worker).log_requested == old(worker).log_requested,
        final(runtime)@.snapshot == old(runtime)@.snapshot,
        event matches WorkerEvent::StatusReceived(response) ==> {
            let updated = status_applied(current, response);
            let refused = updated.status == PersistedEnrollmentStatus::Denied || updated.status
                == PersistedEnrollmentStatus::Blocked || updated.status
                == PersistedEnrollmentStatus::Revoked;
            let approved = updated.status == PersistedEnrollmentStatus::Approved;
            let replaced = updated.device_credential is Some && updated.device_credential->0@.len()
                > 0 && (current.device_credential is None || current.device_credential->0@
                != updated.device_credential->0@);
            &&& status_fault(current, response) is Some ==> {
                &&& gives_up(*final(worker), *final(runtime), action)
                &&& final(worker).consecutive_failures == old(worker).consecutive_failures
            }
            &&& status_fault(current, response) is None && refused ==> {
                &&& action == WorkerAction::WriteState(updated)
                &&& final(worker).step == WorkerStep::ResolvingRefusal(updated.status)
                &&& final(runtime)@ == old(runtime)@
                &&& keeps_course(*old(worker), *final(worker))
            }
            &&& status_fault(current, response) is None && approved && replaced ==> {
                &&& action == WorkerAction::WriteState(updated)
                &&& final(worker).step is ResolvingReplacement
                &&& final(runtime)@ == old(runtime)@
                &&& keeps_course(*old(worker), *final(worker))
            }
            &&& status_fault(current, response) is None && approved && !replaced ==> {
                &&& rests(*final(worker), action, 30)
                &&& final(runtime)@.state == DirectoryState::Unavailable
                &&& final(worker).consecutive_failures == 0
            }
            &&& status_fault(current, response) is None && !approved && !refused ==> {
                &&& gives_up(*final(worker), *final(runtime), action)
                &&& final(worker).consecutive_failures == 0
            }
        },
        event matches WorkerEvent::RequestFailed(error) ==> {
            &&& rests(
                *final(worker),
                action,
                error_delay(error, old(worker).consecutive_failures) as int,
            )
            &&& final(worker).consecutive_failures == failures_after(
                error,
                old(worker).consecutive_failures,
            )
            &&& final(runtime)@.state == DirectoryState::Unavailable
        },
{
    let seen = action@;
}

/// A refusal that is stored is shown, and the worker rests for five minutes; a credential
/// that is stored is tried after a second, and one that cannot be stored after half a minute.
pub proof fn law_resolution_is_shown_once_stored(
    worker: &mut Worker,
    runtime: &mut DirectoryRuntime,
    event: WorkerEvent,
    now: u128,
    action: WorkerAction,
)
    requires
        call_ensures(Worker::advance, (worker, runtime, event, now), action),
        old(worker).step is ResolvingRefusal || old(worker).step is ResolvingReplacement,
        event is Written || event is WriteFailed,
    ensures
        final(worker).schedule == old(worker).schedule,
        final(worker).log_requested == old(worker).log_requested,
        final(runtime)@.snapshot == old(runtime)@.snapshot,
        old(worker).step matches WorkerStep::ResolvingRefusal(status) ==> {
            &&& rests(*final(worker), action, 300)
            &&& event is Written ==> final(runtime)@.state == runtime_state_of(status)
                && final(worker).consecutive_failures == 0
            &&& event is WriteFailed ==> final(runtime)@.state == DirectoryState::Unavailable
                && final(worker).consecutive_failures == old(worker).consecutive_failures
        },
        old(worker).step is ResolvingReplacement ==> {
            &&& final(runtime)@.state == DirectoryState::Unavailable
            &&& final(worker).consecutive_failures == 0
            &&& event is Written ==> rests(*final(worker), action, 1)
            &&& event is WriteFailed ==> rests(*final(worker), action, 30)
        },
{
    let seen = action@;
}

/// A stopped worker does nothing more, and no event that it does not wait for changes
/// anything.
#[verifier::rlimit(40)]
pub proof fn law_what_is_not_awaited_changes_nothing(
    worker: &mut Worker,
    runtime: &mut DirectoryRuntime,
    event: WorkerEvent,
    now: u128,
    action: WorkerAction,
)
    requires
        call_ensures(Worker::advance, (worker, runtime, event, now), action),
    ensures
        old(worker).step is Stopped ==> action is OutOfTurn,
        action is OutOfTurn ==> final(runtime)@ == old(runtime)@ && keeps_course(
            *old(worker),
            *final(worker),
        ) && final(worker).step == old(worker).step,
{
    let seen = action@;
    let here = old(worker).here(old(runtime)@, now);
    if action is OutOfTurn {
        law_out_of_turn_changes_nothing(here, old(worker).step, event);
    }
}

/// Each step of the worker awaits the outcomes of what it asked for, and no other event.
#[verifier::rlimit(60)]
pub proof fn law_worker_awaits_what_it_asked_for(
    worker: &mut Worker,
    runtime: &mut DirectoryRuntime,
    event: WorkerEvent,
    now: u128,
    action: WorkerAction,
)
    requires
        call_ensures(Worker::advance, (worker, runtime, event, now), action),
    ensures
        action is OutOfTurn <==> !{
            let read = event is StateFound || event is StateAbsent || event is StateUnreadable;
            let identified = event is IdentityFound || event is IdentityUnavailable;
            let wrote = event is Written || event is WriteFailed;
            let step = old(worker).step;
            ||| (step is Restoring || step is Reading || step is Resolving) && read
            ||| (step is Sleeping || step is Unconfigured) && event is Slept
            ||| (step is PendingStatus || step is TerminalStatus || step is ResolvingStatus) && (
            event is StatusReceived || event is RequestFailed)
            ||| (step is PendingWriting || step is TerminalWriting || step is ReenrollmentWriting
                || step is ResolvingRefusal || step is ResolvingReplacement) && wrote
            ||| (step is ReenrollmentIdentity || step is ApprovedIdentity) && identified
            ||| step is ReenrollmentSent && (event is EnrollmentReceived || event is RequestFailed)
            ||| step is DeviceMe && (event is DeviceMeReceived || event is RequestFailed)
            ||| step is Heartbeat && (event is HeartbeatReceived || event is RequestFailed)
            ||| step is Directory && (event is DirectoryReceived || event is RequestFailed)
            ||| step is DirectorySnapshot && event is DirectorySerialized
            ||| step is RelayLease && (event is RelayLeaseReceived || event is RequestFailed)
            ||| step is LogUpload && event is LogUploadTried
        },
{
    let seen = action@;
    let here = old(worker).here(old(runtime)@, now);
    if action is OutOfTurn {
        law_out_of_turn_changes_nothing(here, old(worker).step, event);
    }
}

} // verus!
