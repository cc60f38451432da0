//! The runtime state of the directory client and what it shows of itself.

use crate::api_types::{EnrollmentStatusResponse, ReenrollmentRequestResponse};
use crate::json::{
    empty_object, flag_member, flat, json_flag, no_members, object_members, optional_text,
    optional_text_node, parsed_flag, put, render_object, rendered, JsonInput, JsonNode,
};
use crate::text::{joined, trimmed};
use vstd::prelude::*;
use vstd::string::*;

verus! {

#[derive(Debug, Clone, Copy, PartialEq, Eq, Structural)]
pub enum DirectoryState {
    NotEnrolled,
    Enrolling,
    Pending,
    Ready,
    Unavailable,
    Denied,
    Blocked,
    Revoked,
}

/// The state of the client and the JSON snapshot that it shows.
pub struct DirectoryRuntime {
    pub state: DirectoryState,
    pub snapshot: String,
}

/// The state and the characters of the snapshot.
pub struct RuntimeView {
    pub state: DirectoryState,
    pub snapshot: Seq<char>,
}

impl View for DirectoryRuntime {
    type V = RuntimeView;

    open spec fn view(&self) -> RuntimeView {
        RuntimeView { state: self.state, snapshot: self.snapshot@ }
    }
}

impl DirectoryRuntime {
    /// Not enrolled, with an empty snapshot.
    pub fn new() -> (r: Self)
        ensures
            r@ == (RuntimeView { state: DirectoryState::NotEnrolled, snapshot: Seq::empty() }),
    {
        DirectoryRuntime { state: DirectoryState::NotEnrolled, snapshot: String::new() }
    }
}

/// Sets the state; the snapshot stays.
pub fn set_state(runtime: &mut DirectoryRuntime, state: DirectoryState)
    ensures
        final(runtime)@ == (RuntimeView { state, ..old(runtime)@ }),
{
    runtime.state = state;
}

/// The snapshot; empty where the runtime cannot be reached.
pub fn snapshot_json(runtime: Option<&DirectoryRuntime>) -> (r: String)
    ensures
        r@ == shown_snapshot(runtime),
{
    match runtime {
        Some(runtime) => runtime.snapshot.clone(),
        None => String::new(),
    }
}

/// The snapshot that is shown.
pub open spec fn shown_snapshot(runtime: Option<&DirectoryRuntime>) -> Seq<char> {
    match runtime {
        Some(runtime) => runtime.snapshot@,
        None => Seq::empty(),
    }
}

/// The state that is shown.
pub open spec fn shown_state(runtime: Option<&DirectoryRuntime>) -> DirectoryState {
    match runtime {
        Some(runtime) => runtime.state,
        None => DirectoryState::Unavailable,
    }
}

/// The state; Unavailable where the runtime cannot be reached.
pub fn get_state(runtime: Option<&DirectoryRuntime>) -> (r: DirectoryState)
    ensures
        r == shown_state(runtime),
{
    match runtime {
        Some(runtime) => runtime.state,
        None => DirectoryState::Unavailable,
    }
}

/// The key of a state.
pub open spec fn key_of(state: DirectoryState) -> Seq<char> {
    match state {
        DirectoryState::NotEnrolled => "not_enrolled"@,
        DirectoryState::Enrolling => "enrolling"@,
        DirectoryState::Pending => "pending"@,
        DirectoryState::Ready => "ready"@,
        DirectoryState::Unavailable => "unavailable"@,
        DirectoryState::Denied => "denied"@,
        DirectoryState::Blocked => "blocked"@,
        DirectoryState::Revoked => "revoked"@,
    }
}

/// The key of the state that is shown.
pub fn state_key(runtime: Option<&DirectoryRuntime>) -> (r: &'static str)
    ensures
        r@ == key_of(shown_state(runtime)),
{
    match get_state(runtime) {
        DirectoryState::NotEnrolled => "not_enrolled",
        DirectoryState::Enrolling => "enrolling",
        DirectoryState::Pending => "pending",
        DirectoryState::Ready => "ready",
        DirectoryState::Unavailable => "unavailable",
        DirectoryState::Denied => "denied",
        DirectoryState::Blocked => "blocked",
        DirectoryState::Revoked => "revoked",
    }
}

/// Replaces the snapshot by the text of a JSON object.
pub fn store_management_snapshot(
    runtime: &mut DirectoryRuntime,
    value: serde_json::Map<String, serde_json::Value>,
)
    ensures
        final(runtime)@ == (RuntimeView {
            snapshot: rendered(object_members(value)),
            ..old(runtime)@
        }),
        flat(object_members(value)) ==> forall|key: Seq<char>| #[trigger]
            parsed_flag(final(runtime)@.snapshot, key) == flag_member(object_members(value), key),
{
    runtime.snapshot = render_object(value);
}

/// Replaces the snapshot by a directory's text, where there is one.
pub fn store_directory_snapshot(runtime: &mut DirectoryRuntime, snapshot: Option<String>)
    ensures
        final(runtime)@ == (RuntimeView {
            snapshot: match snapshot {
                Some(text) => text@,
                None => old(runtime)@.snapshot,
            },
            ..old(runtime)@
        }),
{
    if let Some(text) = snapshot {
        runtime.snapshot = text;
    }
}

/// Empties the snapshot.
pub fn clear_directory_snapshot(runtime: &mut DirectoryRuntime)
    ensures
        final(runtime)@ == (RuntimeView { snapshot: Seq::empty(), ..old(runtime)@ }),
{
    runtime.snapshot = String::new();
}

/// Whether a snapshot says that re-enrollment is requested, and whether it is
/// authorized; neither where the snapshot does not say so.
pub open spec fn reenrollment_flags(snapshot: Seq<char>) -> (bool, bool) {
    (
        parsed_flag(snapshot, "reenrollment_requested"@) == Some(true),
        parsed_flag(snapshot, "reenrollment_authorized"@) == Some(true),
    )
}

/// The members of the snapshot that an enrollment status answer leaves.
pub open spec fn status_members(response: EnrollmentStatusResponse) -> Map<Seq<char>, JsonNode> {
    no_members().insert(
        "reenrollment_requested"@,
        JsonNode::Flag(response.reenrollment_requested),
    ).insert(
        "reenrollment_request_id"@,
        optional_text_node(response.reenrollment_request_id),
    ).insert(
        "reenrollment_request_expires_at"@,
        optional_text_node(response.reenrollment_request_expires_at),
    ).insert(
        "reenrollment_authorized"@,
        JsonNode::Flag(response.reenrollment_authorized),
    ).insert(
        "reenrollment_authorization_expires_at"@,
        optional_text_node(response.reenrollment_authorization_expires_at),
    ).insert("status_reason"@, optional_text_node(response.status_reason)).insert(
        "status_changed_at"@,
        optional_text_node(response.status_changed_at),
    )
}

/// The members of the snapshot that the answer to a re-enrollment request leaves.
pub open spec fn request_members(response: ReenrollmentRequestResponse) -> Map<
    Seq<char>,
    JsonNode,
> {
    no_members().insert(
        "reenrollment_requested"@,
        JsonNode::Flag(response.reenrollment_requested),
    ).insert(
        "reenrollment_request_id"@,
        optional_text_node(response.reenrollment_request_id),
    ).insert(
        "reenrollment_request_expires_at"@,
        optional_text_node(response.reenrollment_request_expires_at),
    ).insert(
        "reenrollment_authorized"@,
        JsonNode::Flag(response.reenrollment_authorized),
    ).insert(
        "reenrollment_authorization_expires_at"@,
        optional_text_node(response.reenrollment_authorization_expires_at),
    )
}

proof fn lemma_snapshot_keys_differ()
    ensures
        "reenrollment_requested"@ != "reenrollment_request_id"@,
        "reenrollment_requested"@ != "reenrollment_request_expires_at"@,
        "reenrollment_requested"@ != "reenrollment_authorized"@,
        "reenrollment_requested"@ != "reenrollment_authorization_expires_at"@,
        "reenrollment_requested"@ != "status_reason"@,
        "reenrollment_requested"@ != "status_changed_at"@,
        "reenrollment_authorized"@ != "reenrollment_authorization_expires_at"@,
        "reenrollment_authorized"@ != "status_reason"@,
        "reenrollment_authorized"@ != "status_changed_at"@,
{
    reveal_strlit("reenrollment_requested");
    reveal_strlit("reenrollment_request_id");
    reveal_strlit("reenrollment_request_expires_at");
    reveal_strlit("reenrollment_authorized");
    reveal_strlit("reenrollment_authorization_expires_at");
    reveal_strlit("status_reason");
    reveal_strlit("status_changed_at");
    assert("reenrollment_requested"@.len() == 22);
    assert("reenrollment_request_id"@.len() == 23);
    assert("reenrollment_request_expires_at"@.len() == 31);
    assert("reenrollment_authorized"@.len() == 23);
    assert("reenrollment_authorization_expires_at"@.len() == 37);
    assert("status_reason"@.len() == 13);
    assert("status_changed_at"@.len() == 17);
}

/// Shows an enrollment status answer in the snapshot. The two flags of the answer
/// are the ones that the snapshot then gives back.
pub fn management_snapshot_from_status(
    runtime: &mut DirectoryRuntime,
    response: &EnrollmentStatusResponse,
)
    ensures
        final(runtime)@ == (RuntimeView {
            snapshot: rendered(status_members(*response)),
            ..old(runtime)@
        }),
        reenrollment_flags(final(runtime)@.snapshot) == (
            response.reenrollment_requested,
            response.reenrollment_authorized,
        ),
{
    let mut value = empty_object();
    put(&mut value, "reenrollment_requested", JsonInput::Flag(response.reenrollment_requested));
    put(
        &mut value,
        "reenrollment_request_id",
        optional_text(&response.reenrollment_request_id),
    );
    put(
        &mut value,
        "reenrollment_request_expires_at",
        optional_text(&response.reenrollment_request_expires_at),
    );
    put(&mut value, "reenrollment_authorized", JsonInput::Flag(response.reenrollment_authorized));
    put(
        &mut value,
        "reenrollment_authorization_expires_at",
        optional_text(&response.reenrollment_authorization_expires_at),
    );
    put(&mut value, "status_reason", optional_text(&response.status_reason));
    put(&mut value, "status_changed_at", optional_text(&response.status_changed_at));
    proof {
        lemma_snapshot_keys_differ();
        assert(object_members(value) == status_members(*response));
        assert(flat(status_members(*response)));
    }
    store_management_snapshot(runtime, value);
}

/// Shows the answer to a re-enrollment request in the snapshot. The two flags of
/// the answer are the ones that the snapshot then gives back.
pub fn management_snapshot_from_request(
    runtime: &mut DirectoryRuntime,
    response: &ReenrollmentRequestResponse,
)
    ensures
        final(runtime)@ == (RuntimeView {
            snapshot: rendered(request_members(*response)),
            ..old(runtime)@
        }),
        reenrollment_flags(final(runtime)@.snapshot) == (
            response.reenrollment_requested,
            response.reenrollment_authorized,
        ),
{
    let mut value = empty_object();
    put(&mut value, "reenrollment_requested", JsonInput::Flag(response.reenrollment_requested));
    put(
        &mut value,
        "reenrollment_request_id",
        optional_text(&response.reenrollment_request_id),
    );
    put(
        &mut value,
        "reenrollment_request_expires_at",
        optional_text(&response.reenrollment_request_expires_at),
    );
    put(&mut value, "reenrollment_authorized", JsonInput::Flag(response.reenrollment_authorized));
    put(
        &mut value,
        "reenrollment_authorization_expires_at",
        optional_text(&response.reenrollment_authorization_expires_at),
    );
    proof {
        lemma_snapshot_keys_differ();
        assert(object_members(value) == request_members(*response));
        assert(flat(request_members(*response)));
    }
    store_management_snapshot(runtime, value);
}

/// Reads the two re-enrollment flags out of the snapshot.
pub fn reenrollment_snapshot_flags(runtime: Option<&DirectoryRuntime>) -> (r: (bool, bool))
    ensures
        r == reenrollment_flags(shown_snapshot(runtime)),
{
    let snapshot = snapshot_json(runtime);
    let requested = match json_flag(snapshot.as_str(), "reenrollment_requested") {
        Some(flag) => flag,
        None => false,
    };
    let authorized = match json_flag(snapshot.as_str(), "reenrollment_authorized") {
        Some(flag) => flag,
        None => false,
    };
    (requested, authorized)
}

/// The line that a turned-away device shows.
pub open spec fn turned_away_line(refusal: Seq<char>, flags: (bool, bool)) -> Seq<char> {
    if flags.1 {
        "Re-enrollment authorized \u{2014} Recovering managed enrollment"@
    } else if flags.0 {
        "Re-enrollment requested \u{2014} Waiting for approval"@
    } else {
        refusal
    }
}

/// The line that a device shows in `state`, given its name and the re-enrollment
/// flags (requested, authorized).
pub open spec fn status_line(
    state: DirectoryState,
    name: Seq<char>,
    flags: (bool, bool),
) -> Seq<char> {
    match state {
        DirectoryState::NotEnrolled => "Not enrolled \u{2014} "@ + name,
        DirectoryState::Enrolling => "Enrolling \u{2014} "@ + name,
        DirectoryState::Pending => "Pending approval \u{2014} "@ + name,
        DirectoryState::Ready => "Ready \u{2014} "@ + name,
        DirectoryState::Unavailable => "Directory unavailable \u{2014} "@ + name,
        DirectoryState::Denied => turned_away_line(
            "Enrollment denied \u{2014} Re-enrollment required"@,
            flags,
        ),
        DirectoryState::Blocked => turned_away_line(
            "Device blocked \u{2014} Re-enrollment required"@,
            flags,
        ),
        DirectoryState::Revoked => turned_away_line(
            "Access revoked \u{2014} Re-enrollment required"@,
            flags,
        ),
    }
}

fn refusal_text(refusal: &str, flags: (bool, bool)) -> (r: String)
    ensures
        r@ == turned_away_line(refusal@, flags),
{
    if flags.1 {
        "Re-enrollment authorized \u{2014} Recovering managed enrollment".to_owned()
    } else if flags.0 {
        "Re-enrollment requested \u{2014} Waiting for approval".to_owned()
    } else {
        refusal.to_owned()
    }
}

/// The line for a state, a device name and the re-enrollment flags.
pub fn status_text_for(state: DirectoryState, friendly_name: &str, flags: (bool, bool)) -> (r:
    String)
    ensures
        r@ == status_line(state, trimmed(friendly_name@), flags),
{
    let name = friendly_name.trim();
    match state {
        DirectoryState::NotEnrolled => joined("Not enrolled \u{2014} ", name),
        DirectoryState::Enrolling => joined("Enrolling \u{2014} ", name),
        DirectoryState::Pending => joined("Pending approval \u{2014} ", name),
        DirectoryState::Ready => joined("Ready \u{2014} ", name),
        DirectoryState::Unavailable => joined("Directory unavailable \u{2014} ", name),
        DirectoryState::Denied => refusal_text(
            "Enrollment denied \u{2014} Re-enrollment required",
            flags,
        ),
        DirectoryState::Blocked => refusal_text(
            "Device blocked \u{2014} Re-enrollment required",
            flags,
        ),
        DirectoryState::Revoked => refusal_text(
            "Access revoked \u{2014} Re-enrollment required",
            flags,
        ),
    }
}

/// The line that the client shows of itself, with the configured device name.
pub fn status_text(runtime: Option<&DirectoryRuntime>, friendly_name: &str) -> (r: String)
    ensures
        r@ == status_line(
            shown_state(runtime),
            trimmed(friendly_name@),
            reenrollment_flags(shown_snapshot(runtime)),
        ),
{
    let flags = reenrollment_snapshot_flags(runtime);
    status_text_for(get_state(runtime), friendly_name, flags)
}

/// A runtime is seen by its state and the characters of its snapshot. A new one is not enrolled
/// and shows nothing.
pub proof fn law_runtime_is_seen_as_it_is(runtime: DirectoryRuntime, fresh: DirectoryRuntime)
    requires
        call_ensures(DirectoryRuntime::new, (), fresh),
    ensures
        runtime@.state == runtime.state,
        runtime@.snapshot == runtime.snapshot@,
        fresh.state == DirectoryState::NotEnrolled,
        fresh.snapshot@.len() == 0,
{
}

/// Setting the state leaves the snapshot, and setting or clearing the snapshot leaves the
/// state.
pub proof fn law_state_and_snapshot_change_apart(
    one: &mut DirectoryRuntime,
    state: DirectoryState,
    two: &mut DirectoryRuntime,
    snapshot: Option<String>,
    three: &mut DirectoryRuntime,
)
    requires
        call_ensures(set_state, (one, state), ()),
        call_ensures(store_directory_snapshot, (two, snapshot), ()),
        call_ensures(clear_directory_snapshot, (three,), ()),
    ensures
        final(one).state == state,
        final(one).snapshot@ == old(one).snapshot@,
        final(two).state == old(two).state,
        snapshot matches Some(text) ==> final(two).snapshot@ == text@,
        snapshot is None ==> final(two).snapshot@ == old(two).snapshot@,
        final(three).state == old(three).state,
        final(three).snapshot@.len() == 0,
{
    let a = (old(one)@, final(one)@);
    let b = (old(two)@, final(two)@);
    let c = (old(three)@, final(three)@);
}

/// What is shown is the runtime's own, and where that cannot be reached an empty snapshot and
/// an unavailable directory.
pub proof fn law_what_is_shown_is_the_runtimes_own(
    runtime: Option<&DirectoryRuntime>,
    snapshot: String,
    state: DirectoryState,
    key: &'static str,
)
    requires
        call_ensures(snapshot_json, (runtime,), snapshot),
        call_ensures(get_state, (runtime,), state),
        call_ensures(state_key, (runtime,), key),
    ensures
        runtime matches Some(shown) ==> snapshot@ == shown.snapshot@ && state == shown.state,
        runtime is None ==> snapshot@.len() == 0 && state == DirectoryState::Unavailable,
        state == DirectoryState::NotEnrolled ==> key@ == "not_enrolled"@,
        state == DirectoryState::Enrolling ==> key@ == "enrolling"@,
        state == DirectoryState::Pending ==> key@ == "pending"@,
        state == DirectoryState::Ready ==> key@ == "ready"@,
        state == DirectoryState::Unavailable ==> key@ == "unavailable"@,
        state == DirectoryState::Denied ==> key@ == "denied"@,
        state == DirectoryState::Blocked ==> key@ == "blocked"@,
        state == DirectoryState::Revoked ==> key@ == "revoked"@,
{
}

/// The text of a member that may be missing: itself, or null.
pub open spec fn text_or_null(value: Option<String>) -> JsonNode {
    match value {
        Some(text) => JsonNode::Text(text@),
        None => JsonNode::Null,
    }
}

/// The snapshot of a status answer has its two flags, its two times, its request and its
/// reason, each under its own name, and gives the flags back. The state stays.
pub proof fn law_status_snapshot_has_the_answers_members(
    runtime: &mut DirectoryRuntime,
    response: EnrollmentStatusResponse,
)
    requires
        call_ensures(management_snapshot_from_status, (runtime, &response), ()),
    ensures
        final(runtime).state == old(runtime).state,
        final(runtime).snapshot@ == rendered(
            map![
                "reenrollment_requested"@ => JsonNode::Flag(response.reenrollment_requested),
                "reenrollment_request_id"@ => text_or_null(response.reenrollment_request_id),
                "reenrollment_request_expires_at"@ => text_or_null(
                    response.reenrollment_request_expires_at,
                ),
                "reenrollment_authorized"@ => JsonNode::Flag(response.reenrollment_authorized),
                "reenrollment_authorization_expires_at"@ => text_or_null(
                    response.reenrollment_authorization_expires_at,
                ),
                "status_reason"@ => text_or_null(response.status_reason),
                "status_changed_at"@ => text_or_null(response.status_changed_at),
            ],
        ),
        parsed_flag(final(runtime).snapshot@, "reenrollment_requested"@) == Some(true)
            <==> response.reenrollment_requested,
        parsed_flag(final(runtime).snapshot@, "reenrollment_authorized"@) == Some(true)
            <==> response.reenrollment_authorized,
{
    let after = final(runtime)@;
    let before = old(runtime)@;
    assert(status_members(response) =~= map![
        "reenrollment_requested"@ => JsonNode::Flag(response.reenrollment_requested),
        "reenrollment_request_id"@ => text_or_null(response.reenrollment_request_id),
        "reenrollment_request_expires_at"@ => text_or_null(
            response.reenrollment_request_expires_at,
        ),
        "reenrollment_authorized"@ => JsonNode::Flag(response.reenrollment_authorized),
        "reenrollment_authorization_expires_at"@ => text_or_null(
            response.reenrollment_authorization_expires_at,
        ),
        "status_reason"@ => text_or_null(response.status_reason),
        "status_changed_at"@ => text_or_null(response.status_changed_at),
    ]);
}

/// The snapshot of an answer to a request for re-enrollment has its two flags, its two times
/// and its request, each under its own name, and gives the flags back. The state stays.
pub proof fn law_request_snapshot_has_the_answers_members(
    runtime: &mut DirectoryRuntime,
    response: ReenrollmentRequestResponse,
)
    requires
        call_ensures(management_snapshot_from_request, (runtime, &response), ()),
    ensures
        final(runtime).state == old(runtime).state,
        final(runtime).snapshot@ == rendered(
            map![
                "reenrollment_requested"@ => JsonNode::Flag(response.reenrollment_requested),
                "reenrollment_request_id"@ => text_or_null(response.reenrollment_request_id),
                "reenrollment_request_expires_at"@ => text_or_null(
                    response.reenrollment_request_expires_at,
                ),
                "reenrollment_authorized"@ => JsonNode::Flag(response.reenrollment_authorized),
                "reenrollment_authorization_expires_at"@ => text_or_null(
                    response.reenrollment_authorization_expires_at,
                ),
            ],
        ),
        parsed_flag(final(runtime).snapshot@, "reenrollment_requested"@) == Some(true)
            <==> response.reenrollment_requested,
        parsed_flag(final(runtime).snapshot@, "reenrollment_authorized"@) == Some(true)
            <==> response.reenrollment_authorized,
{
    let after = final(runtime)@;
    let before = old(runtime)@;
    assert(request_members(response) =~= map![
        "reenrollment_requested"@ => JsonNode::Flag(response.reenrollment_requested),
        "reenrollment_request_id"@ => text_or_null(response.reenrollment_request_id),
        "reenrollment_request_expires_at"@ => text_or_null(
            response.reenrollment_request_expires_at,
        ),
        "reenrollment_authorized"@ => JsonNode::Flag(response.reenrollment_authorized),
        "reenrollment_authorization_expires_at"@ => text_or_null(
            response.reenrollment_authorization_expires_at,
        ),
    ]);
}

/// A member that may be missing is its text where it is there, and null where it is not.
pub proof fn law_missing_text_is_null(value: Option<String>)
    ensures
        value matches Some(text) ==> text_or_null(value) == JsonNode::Text(text@),
        value is None ==> text_or_null(value) == JsonNode::Null,
{
}

/// The flags are read out of the snapshot under their own names, first whether re-enrollment
/// is requested and then whether it is authorized, and are down where the snapshot has none.
pub proof fn law_flags_are_read_by_their_names(
    runtime: Option<&DirectoryRuntime>,
    r: (bool, bool),
)
    requires
        call_ensures(reenrollment_snapshot_flags, (runtime,), r),
    ensures
        runtime matches Some(shown) ==> {
            &&& r.0 <==> parsed_flag(shown.snapshot@, "reenrollment_requested"@) == Some(true)
            &&& r.1 <==> parsed_flag(shown.snapshot@, "reenrollment_authorized"@) == Some(true)
        },
        runtime is None ==> {
            &&& r.0 <==> parsed_flag(Seq::empty(), "reenrollment_requested"@) == Some(true)
            &&& r.1 <==> parsed_flag(Seq::empty(), "reenrollment_authorized"@) == Some(true)
        },
{
}

/// The line of a device that was not turned away has its name; that of a turned-away one says
/// what comes next: an authorization before a request, and a request before the refusal.
pub proof fn law_line_says_what_comes_next(
    state: DirectoryState,
    name: &str,
    flags: (bool, bool),
    r: String,
)
    requires
        call_ensures(status_text_for, (state, name, flags), r),
    ensures
        state == DirectoryState::NotEnrolled ==> r@ == "Not enrolled \u{2014} "@ + trimmed(name@),
        state == DirectoryState::Enrolling ==> r@ == "Enrolling \u{2014} "@ + trimmed(name@),
        state == DirectoryState::Pending ==> r@ == "Pending approval \u{2014} "@ + trimmed(name@),
        state == DirectoryState::Ready ==> r@ == "Ready \u{2014} "@ + trimmed(name@),
        state == DirectoryState::Unavailable ==> r@ == "Directory unavailable \u{2014} "@ + trimmed(
            name@,
        ),
        state == DirectoryState::Denied || state == DirectoryState::Blocked || state
            == DirectoryState::Revoked ==> {
            &&& flags.1 ==> r@
                == "Re-enrollment authorized \u{2014} Recovering managed enrollment"@
            &&& flags.0 && !flags.1 ==> r@
                == "Re-enrollment requested \u{2014} Waiting for approval"@
        },
        !flags.0 && !flags.1 ==> {
            &&& state == DirectoryState::Denied ==> r@
                == "Enrollment denied \u{2014} Re-enrollment required"@
            &&& state == DirectoryState::Blocked ==> r@
                == "Device blocked \u{2014} Re-enrollment required"@
            &&& state == DirectoryState::Revoked ==> r@
                == "Access revoked \u{2014} Re-enrollment required"@
        },
{
}

/// The line that is shown is that of the runtime's state, of this name and of the flags in the
/// runtime's snapshot.
pub proof fn law_shown_line_is_of_the_runtime(
    runtime: Option<&DirectoryRuntime>,
    name: &str,
    state: DirectoryState,
    flags: (bool, bool),
    line: String,
    r: String,
)
    requires
        call_ensures(get_state, (runtime,), state),
        call_ensures(reenrollment_snapshot_flags, (runtime,), flags),
        call_ensures(status_text_for, (state, name, flags), line),
        call_ensures(status_text, (runtime, name), r),
    ensures
        r@ == line@,
{
}

/// A snapshot of an object is the text of that object, and the state stays as it is.
pub proof fn law_object_becomes_the_snapshot(
    runtime: &mut DirectoryRuntime,
    value: serde_json::Map<String, serde_json::Value>,
)
    requires
        call_ensures(store_management_snapshot, (runtime, value), ()),
    ensures
        final(runtime).snapshot@ == rendered(object_members(value)),
        final(runtime).state == old(runtime).state,
{
    let seen = (old(runtime)@, final(runtime)@);
}

} // verus!
