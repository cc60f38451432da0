//! Telemetry of a running session: when there is any, and what it sends.

use crate::api_error::{DirectoryApiError, DirectoryApiResult};
use crate::json::rendered_in_order;
use crate::persisted_auth::{
    has_approved_credential, PersistedDirectoryAuth, PersistedEnrollmentStatus,
};
use crate::requests::{
    planned, post_managed_session_heartbeat, route_request, session_fields,
    HttpMethod, HttpRequest,
};
use crate::text::{
    borrowed, borrowed_or_empty, borrowed_view, optional_view, same_text, text_or_empty,
};
use crate::web::URL_TEXT_LIMIT;
use vstd::prelude::*;
use vstd::string::*;

verus! {

/// How many seconds lie between two reports of a session.
pub const SESSION_HEARTBEAT_SECONDS: u64 = 15;

/// What the reports of one session are made of.
pub struct ManagedSessionTelemetry {
    pub base_url: String,
    pub credential: String,
    pub session_id: String,
    pub session_type: &'static str,
    pub peer_rustdesk_id: Option<String>,
}

/// What a report says of the session.
#[derive(Debug, Clone, Copy, PartialEq, Eq, Structural)]
pub enum SessionState {
    Active,
    Ended,
}

impl SessionState {
    pub open spec fn word(self) -> Seq<char> {
        match self {
            SessionState::Active => "active"@,
            SessionState::Ended => "ended"@,
        }
    }
}

/// What happens while a session is reported on.
#[derive(Debug, Clone, Copy, PartialEq, Eq, Structural)]
pub enum SessionEvent {
    /// It is time for a report.
    Tick,
    /// The session is over.
    Stop,
}

/// Sessions of this type are reported on.
pub open spec fn reported_type(session_type: Seq<char>) -> bool {
    session_type == "remote_desktop"@ || session_type == "file_transfer"@
}

/// Begins to report on a session. That is done for remote desktop and file transfer
/// sessions of a device that is approved and has a credential, where there is a
/// directory.
pub fn start_managed_session_telemetry(
    session_id: String,
    session_type: &'static str,
    peer_rustdesk_id: Option<String>,
    base_url: Option<&str>,
    state: Option<&PersistedDirectoryAuth>,
) -> (r: Option<ManagedSessionTelemetry>)
    ensures
        r is Some <==> reported_type(session_type@) && base_url is Some && state is Some
            && has_approved_credential(*state->0),
        r matches Some(telemetry) ==> telemetry.base_url@ == base_url->0@
            && telemetry.credential@ == text_or_empty(state->0.device_credential)
            && telemetry.session_id == session_id && telemetry.session_type == session_type
            && telemetry.peer_rustdesk_id == peer_rustdesk_id,
{
    if !same_text(session_type, "remote_desktop") && !same_text(session_type, "file_transfer") {
        return None;
    }
    let base_url = match base_url {
        Some(base_url) => base_url,
        None => {
            return None;
        },
    };
    let state = match state {
        Some(state) => state,
        None => {
            return None;
        },
    };
    if state.status != PersistedEnrollmentStatus::Approved {
        return None;
    }
    let credential = borrowed_or_empty(&state.device_credential);
    if credential.is_empty() {
        return None;
    }
    Some(
        ManagedSessionTelemetry {
            base_url: base_url.to_owned(),
            credential: credential.to_owned(),
            session_id,
            session_type,
            peer_rustdesk_id,
        },
    )
}

/// What an event has reported, and whether it was the last report: a tick reports an
/// active session, and the end reports that it ended.
pub fn session_report(event: SessionEvent) -> (r: (SessionState, bool))
    ensures
        r == (match event {
            SessionEvent::Tick => (SessionState::Active, false),
            SessionEvent::Stop => (SessionState::Ended, true),
        }),
{
    match event {
        SessionEvent::Tick => (SessionState::Active, false),
        SessionEvent::Stop => (SessionState::Ended, true),
    }
}

impl ManagedSessionTelemetry {
    /// The report of this session in the given state.
    pub fn report(&self, state: SessionState) -> (r: DirectoryApiResult<HttpRequest>)
        requires
            self.base_url@.len() <= URL_TEXT_LIMIT,
        ensures
            planned(
                r,
                route_request(
                    self.base_url@,
                    "/v1/device/session-heartbeat"@,
                    HttpMethod::Post,
                    Some(self.credential@),
                    Some(
                        rendered_in_order(
                            session_fields(
                                self.session_id@,
                                self.session_type@,
                                state.word(),
                                optional_view(self.peer_rustdesk_id),
                            ),
                        ),
                    ),
                ),
                "managed session heartbeat",
            ),
    {
        let word = match state {
            SessionState::Active => "active",
            SessionState::Ended => "ended",
        };
        post_managed_session_heartbeat(
            self.base_url.as_str(),
            self.credential.as_str(),
            self.session_id.as_str(),
            self.session_type,
            word,
            borrowed(&self.peer_rustdesk_id),
        )
    }
}

/// Sessions are reported on exactly for remote desktops and file transfers of an approved
/// device with a credential, where there is a directory, and each report says whose session it
/// is.
pub proof fn law_reports_are_of_the_session(
    session_id: String,
    session_type: &'static str,
    peer: Option<String>,
    base: Option<&str>,
    state: Option<&PersistedDirectoryAuth>,
    r: Option<ManagedSessionTelemetry>,
)
    requires
        call_ensures(
            start_managed_session_telemetry,
            (session_id, session_type, peer, base, state),
            r,
        ),
    ensures
        r is Some <==> {
            &&& session_type@ == "remote_desktop"@ || session_type@ == "file_transfer"@
            &&& base is Some
            &&& state matches Some(stored)
            &&& stored.status == PersistedEnrollmentStatus::Approved
            &&& stored.device_credential matches Some(credential)
            &&& credential@.len() > 0
        },
        r matches Some(telemetry) ==> {
            &&& telemetry.base_url@ == base->0@
            &&& telemetry.credential@ == state->0.device_credential->0@
            &&& telemetry.session_id@ == session_id@
            &&& telemetry.session_type@ == session_type@
            &&& telemetry.peer_rustdesk_id == peer
        },
{
}

/// A session is reported active while it goes on and ended when it stops, and only the report
/// of its end is the last one.
pub proof fn law_last_report_is_of_the_end(event: SessionEvent, r: (SessionState, bool))
    requires
        call_ensures(session_report, (event,), r),
    ensures
        r.1 <==> event == SessionEvent::Stop,
        r.0 == SessionState::Ended <==> event == SessionEvent::Stop,
        r.0 == SessionState::Active <==> event == SessionEvent::Tick,
{
}

/// A report is the heartbeat of its session, with the word for its state.
pub proof fn law_report_is_the_heartbeat_of_its_session(
    telemetry: ManagedSessionTelemetry,
    state: SessionState,
    base: &str,
    credential: &str,
    session_id: &str,
    word: &str,
    peer: Option<&str>,
    plain: DirectoryApiResult<HttpRequest>,
    r: DirectoryApiResult<HttpRequest>,
)
    requires
        call_ensures(ManagedSessionTelemetry::report, (&telemetry, state), r),
        base@ == telemetry.base_url@,
        credential@ == telemetry.credential@,
        session_id@ == telemetry.session_id@,
        word@ == (if state == SessionState::Active {
            "active"@
        } else {
            "ended"@
        }),
        borrowed_view(peer) == optional_view(telemetry.peer_rustdesk_id),
        call_ensures(
            post_managed_session_heartbeat,
            (base, credential, session_id, telemetry.session_type, word, peer),
            plain,
        ),
    ensures
        r is Ok <==> plain is Ok,
        r matches Ok(request) ==> request@ == plain->Ok_0@,
        r matches Err(error) ==> plain == Err::<HttpRequest, DirectoryApiError>(error),
{
}

} // verus!
