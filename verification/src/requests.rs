//! The requests of the directory API: where each one goes, what it carries, and
//! what a device must hold to make it.

use crate::api_error::{
    plain_error, DirectoryApiError, DirectoryApiErrorKind, DirectoryApiResult,
};
use crate::api_types::DirectoryIdentity;
use crate::json::{
    field_views, has_field, no_fields, object_members, put, render_in_order, rendered_in_order,
    text_member, JsonInput, JsonNode,
};
use crate::persisted_auth::{
    approved_credential, continuity_identity, has_approved_credential, has_continuity,
    PersistedDirectoryAuth, PersistedEnrollmentStatus,
};
use crate::text::{
    borrowed_view, joined, lemma_blank_iff_trimmed_empty, optional_view, text_or_empty, trimmed,
};
use crate::web::{acceptable_base, directory_api_url, route_address, URL_TEXT_LIMIT};
use vstd::prelude::*;
use vstd::string::*;

verus! {

#[derive(Debug, Clone, Copy, PartialEq, Eq, Structural)]
pub enum HttpMethod {
    Get,
    Post,
    Put,
}

/// A request to send: its address, its bearer credential and its JSON body.
#[derive(Debug)]
pub struct HttpRequest {
    pub method: HttpMethod,
    pub url: String,
    pub bearer: Option<String>,
    pub body: Option<String>,
}

/// The characters of a request.
pub struct RequestView {
    pub method: HttpMethod,
    pub url: Seq<char>,
    pub bearer: Option<Seq<char>>,
    pub body: Option<Seq<char>>,
}

impl View for HttpRequest {
    type V = RequestView;

    open spec fn view(&self) -> RequestView {
        RequestView {
            method: self.method,
            url: self.url@,
            bearer: optional_view(self.bearer),
            body: optional_view(self.body),
        }
    }
}

/// The outcome of planning a request: the wanted one, or the error of a device
/// that is not set up for it.
pub open spec fn planned(
    r: DirectoryApiResult<HttpRequest>,
    wanted: Option<RequestView>,
    operation: &'static str,
) -> bool {
    match wanted {
        Some(request) => r is Ok && r->Ok_0@ == request,
        None => r == Err::<HttpRequest, DirectoryApiError>(
            plain_error(operation, DirectoryApiErrorKind::Configuration),
        ),
    }
}

/// A request to the route `path`, where the directory may be reached under `base`.
pub open spec fn route_request(
    base: Seq<char>,
    path: Seq<char>,
    method: HttpMethod,
    bearer: Option<Seq<char>>,
    body: Option<Seq<char>>,
) -> Option<RequestView> {
    if acceptable_base(base) {
        Some(RequestView { method, url: route_address(base, path), bearer, body })
    } else {
        None
    }
}

fn plan(
    base_url: &str,
    path: &str,
    operation: &'static str,
    method: HttpMethod,
    bearer: Option<String>,
    body: Option<String>,
) -> (r: DirectoryApiResult<HttpRequest>)
    requires
        base_url@.len() <= URL_TEXT_LIMIT,
        path@.len() <= URL_TEXT_LIMIT,
    ensures
        planned(
            r,
            route_request(
                base_url@,
                path@,
                method,
                optional_view(bearer),
                optional_view(body),
            ),
            operation,
        ),
{
    match directory_api_url(base_url, path, operation) {
        Ok(url) => Ok(HttpRequest { method, url, bearer, body }),
        Err(error) => Err(error),
    }
}

/// `members` with a text under `key`.
pub open spec fn with_text(
    members: Map<Seq<char>, JsonNode>,
    key: Seq<char>,
    value: Seq<char>,
) -> Map<Seq<char>, JsonNode> {
    members.insert(key, JsonNode::Text(value))
}

/// `members` with a text under `key` where there is one, and as they are where not.
pub open spec fn with_optional(
    members: Map<Seq<char>, JsonNode>,
    key: Seq<char>,
    value: Option<Seq<char>>,
) -> Map<Seq<char>, JsonNode> {
    match value {
        Some(text) => members.insert(key, JsonNode::Text(text)),
        None => members,
    }
}

/// Sets a text under `key`.
pub(crate) fn put_text(
    object: &mut serde_json::Map<String, serde_json::Value>,
    key: &str,
    value: &str,
)
    ensures
        object_members(*final(object)) == with_text(object_members(*old(object)), key@, value@),
{
    put(object, key, text_member(value));
}

/// Sets a text under `key` where there is one.
pub(crate) fn put_optional(
    object: &mut serde_json::Map<String, serde_json::Value>,
    key: &str,
    value: Option<&str>,
)
    ensures
        object_members(*final(object)) == with_optional(
            object_members(*old(object)),
            key@,
            borrowed_view(value),
        ),
{
    if let Some(text) = value {
        put(object, key, text_member(text));
    }
}

/// `fields`, then a text under `key`.
pub open spec fn and_text(
    fields: Seq<(Seq<char>, JsonNode)>,
    key: Seq<char>,
    value: Seq<char>,
) -> Seq<(Seq<char>, JsonNode)> {
    fields.push((key, JsonNode::Text(value)))
}

/// `fields`, then a text under `key`, or null where there is none.
pub open spec fn and_nullable(
    fields: Seq<(Seq<char>, JsonNode)>,
    key: Seq<char>,
    value: Option<Seq<char>>,
) -> Seq<(Seq<char>, JsonNode)> {
    match value {
        Some(text) => fields.push((key, JsonNode::Text(text))),
        None => fields.push((key, JsonNode::Null)),
    }
}

/// `fields`, then a text under `key` where there is one, and nothing more where not.
pub open spec fn and_optional(
    fields: Seq<(Seq<char>, JsonNode)>,
    key: Seq<char>,
    value: Option<Seq<char>>,
) -> Seq<(Seq<char>, JsonNode)> {
    match value {
        Some(text) => fields.push((key, JsonNode::Text(text))),
        None => fields,
    }
}

/// Adds a field.
pub(crate) fn add_field(fields: &mut Vec<(String, JsonInput)>, key: &str, value: JsonInput)
    ensures
        field_views(final(fields)@) == field_views(old(fields)@).push((key@, value.node())),
{
    fields.push((key.to_owned(), value));
    proof {
        assert(field_views(fields@) =~= field_views(old(fields)@).push((key@, value.node())));
    }
}

/// Adds a text.
pub(crate) fn add_text(fields: &mut Vec<(String, JsonInput)>, key: &str, value: &str)
    ensures
        field_views(final(fields)@) == and_text(field_views(old(fields)@), key@, value@),
{
    add_field(fields, key, text_member(value));
}

/// Adds a text, or null where there is none.
pub(crate) fn add_nullable(
    fields: &mut Vec<(String, JsonInput)>,
    key: &str,
    value: Option<&str>,
)
    ensures
        field_views(final(fields)@) == and_nullable(
            field_views(old(fields)@),
            key@,
            borrowed_view(value),
        ),
{
    match value {
        Some(text) => add_field(fields, key, text_member(text)),
        None => add_field(fields, key, JsonInput::Null),
    }
}

/// Adds a text where there is one.
pub(crate) fn add_optional(
    fields: &mut Vec<(String, JsonInput)>,
    key: &str,
    value: Option<&str>,
)
    ensures
        field_views(final(fields)@) == and_optional(
            field_views(old(fields)@),
            key@,
            borrowed_view(value),
        ),
{
    if let Some(text) = value {
        add_field(fields, key, text_member(text));
    }
}

/// The body of a request, without fields.
pub(crate) fn empty_body() -> (r: Vec<(String, JsonInput)>)
    ensures
        field_views(r@) == no_fields(),
{
    let body: Vec<(String, JsonInput)> = Vec::new();
    proof {
        assert(field_views(body@) =~= no_fields());
    }
    body
}

/// What a device sends to enroll.
pub struct EnrollmentRequest<'a> {
    pub enrollment_password: &'a str,
    pub rustdesk_id: &'a str,
    pub hostname: &'a str,
    pub friendly_name: Option<&'a str>,
    pub contact_email: Option<&'a str>,
    pub device_public_key: &'a str,
    pub client_version: Option<&'a str>,
    pub reenrollment_poll_token: Option<&'a str>,
}

impl<'a> EnrollmentRequest<'a> {
    /// The fields of the body. The contact address and the poll token are left
    /// out where there is none.
    pub open spec fn fields(self) -> Seq<(Seq<char>, JsonNode)> {
        enrollment_fields(
            self.enrollment_password@,
            self.rustdesk_id@,
            self.hostname@,
            borrowed_view(self.friendly_name),
            borrowed_view(self.contact_email),
            self.device_public_key@,
            borrowed_view(self.client_version),
            borrowed_view(self.reenrollment_poll_token),
        )
    }

    /// The JSON text of the body.
    pub fn json(&self) -> (r: String)
        ensures
            r@ == rendered_in_order(self.fields()),
    {
        let mut body = empty_body();
        add_text(&mut body, "enrollment_password", self.enrollment_password);
        add_text(&mut body, "rustdesk_id", self.rustdesk_id);
        add_text(&mut body, "hostname", self.hostname);
        add_nullable(&mut body, "friendly_name", self.friendly_name);
        add_optional(&mut body, "contact_email", self.contact_email);
        add_text(&mut body, "device_public_key", self.device_public_key);
        add_nullable(&mut body, "client_version", self.client_version);
        add_optional(&mut body, "reenrollment_poll_token", self.reenrollment_poll_token);
        render_in_order(body)
    }
}

/// The fields of an enrollment body.
pub open spec fn enrollment_fields(
    enrollment_password: Seq<char>,
    rustdesk_id: Seq<char>,
    hostname: Seq<char>,
    friendly_name: Option<Seq<char>>,
    contact_email: Option<Seq<char>>,
    device_public_key: Seq<char>,
    client_version: Option<Seq<char>>,
    reenrollment_poll_token: Option<Seq<char>>,
) -> Seq<(Seq<char>, JsonNode)> {
    let fields = and_text(no_fields(), "enrollment_password"@, enrollment_password);
    let fields = and_text(fields, "rustdesk_id"@, rustdesk_id);
    let fields = and_text(fields, "hostname"@, hostname);
    let fields = and_nullable(fields, "friendly_name"@, friendly_name);
    let fields = and_optional(fields, "contact_email"@, contact_email);
    let fields = and_text(fields, "device_public_key"@, device_public_key);
    let fields = and_nullable(fields, "client_version"@, client_version);
    and_optional(fields, "reenrollment_poll_token"@, reenrollment_poll_token)
}

/// The contact address of an identity, where it has one.
pub open spec fn contact_of(identity: DirectoryIdentity) -> Option<Seq<char>> {
    if identity.contact_email@.len() > 0 {
        Some(identity.contact_email@)
    } else {
        None
    }
}

fn contact_email_of(identity: &DirectoryIdentity) -> (r: Option<&str>)
    ensures
        borrowed_view(r) == contact_of(*identity),
{
    if identity.contact_email.as_str().is_empty() {
        None
    } else {
        Some(identity.contact_email.as_str())
    }
}

/// The enrollment request of this device.
pub open spec fn enrollment_request(
    base: Seq<char>,
    identity: DirectoryIdentity,
    enrollment_password: Seq<char>,
    reenrollment_poll_token: Option<Seq<char>>,
) -> Option<RequestView> {
    route_request(
        base,
        "/v1/enrollment/devices"@,
        HttpMethod::Post,
        None,
        Some(
            rendered_in_order(
                enrollment_fields(
                    enrollment_password,
                    identity.rustdesk_id@,
                    identity.hostname@,
                    Some(identity.friendly_name@),
                    contact_of(identity),
                    identity.device_public_key@,
                    Some(identity.client_version@),
                    reenrollment_poll_token,
                ),
            ),
        ),
    )
}

/// Enrolls this device with the enrollment password and, where it was enrolled
/// before, its poll token.
pub fn post_enrollment_request(
    base_url: &str,
    identity: &DirectoryIdentity,
    enrollment_password: &str,
    reenrollment_poll_token: Option<&str>,
) -> (r: DirectoryApiResult<HttpRequest>)
    requires
        base_url@.len() <= URL_TEXT_LIMIT,
    ensures
        planned(
            r,
            enrollment_request(
                base_url@,
                *identity,
                enrollment_password@,
                borrowed_view(reenrollment_poll_token),
            ),
            "directory enrollment",
        ),
{
    let request = EnrollmentRequest {
        enrollment_password,
        rustdesk_id: identity.rustdesk_id.as_str(),
        hostname: identity.hostname.as_str(),
        friendly_name: Some(identity.friendly_name.as_str()),
        contact_email: contact_email_of(identity),
        device_public_key: identity.device_public_key.as_str(),
        client_version: Some(identity.client_version.as_str()),
        reenrollment_poll_token,
    };
    proof {
        reveal_strlit("/v1/enrollment/devices");
    }
    plan(
        base_url,
        "/v1/enrollment/devices",
        "directory enrollment",
        HttpMethod::Post,
        None,
        Some(request.json()),
    )
}

/// The fields of a body that proves continuity.
pub open spec fn continuity_fields(device_id: Seq<char>, poll_token: Seq<char>) -> Seq<
    (Seq<char>, JsonNode),
> {
    and_text(and_text(no_fields(), "device_id"@, device_id), "poll_token"@, poll_token)
}

fn continuity_body(device_id: &str, poll_token: &str) -> (r: String)
    ensures
        r@ == rendered_in_order(continuity_fields(device_id@, poll_token@)),
{
    let mut body = empty_body();
    add_text(&mut body, "device_id", device_id);
    add_text(&mut body, "poll_token", poll_token);
    render_in_order(body)
}

/// A request that proves continuity, where the enrollment can.
pub open spec fn continuity_request(
    base: Seq<char>,
    path: Seq<char>,
    state: PersistedDirectoryAuth,
) -> Option<RequestView> {
    if has_continuity(state) {
        route_request(
            base,
            path,
            HttpMethod::Post,
            None,
            Some(
                rendered_in_order(
                    continuity_fields(
                        text_or_empty(state.device_id),
                        text_or_empty(state.enrollment_poll_token),
                    ),
                ),
            ),
        )
    } else {
        None
    }
}

/// The request for the status of the enrollment.
pub open spec fn status_request(base: Seq<char>, state: PersistedDirectoryAuth) -> Option<
    RequestView,
> {
    continuity_request(base, "/v1/enrollment/status"@, state)
}

/// Asks for the status of the enrollment.
pub fn post_enrollment_status_request(base_url: &str, state: &PersistedDirectoryAuth) -> (r:
    DirectoryApiResult<HttpRequest>)
    requires
        base_url@.len() <= URL_TEXT_LIMIT,
    ensures
        planned(r, status_request(base_url@, *state), "directory enrollment status"),
{
    match continuity_identity(state, "directory enrollment status") {
        Ok((device_id, poll_token)) => {
            proof {
                reveal_strlit("/v1/enrollment/status");
            }
            plan(
                base_url,
                "/v1/enrollment/status",
                "directory enrollment status",
                HttpMethod::Post,
                None,
                Some(continuity_body(device_id, poll_token)),
            )
        },
        Err(error) => Err(error),
    }
}

/// The request to be enrolled anew.
pub open spec fn reenrollment_request(base: Seq<char>, state: PersistedDirectoryAuth) -> Option<
    RequestView,
> {
    continuity_request(base, "/v1/enrollment/reenrollment-request"@, state)
}

/// Asks to be enrolled anew.
pub fn post_reenrollment_request(base_url: &str, state: &PersistedDirectoryAuth) -> (r:
    DirectoryApiResult<HttpRequest>)
    requires
        base_url@.len() <= URL_TEXT_LIMIT,
    ensures
        planned(r, reenrollment_request(base_url@, *state), "directory re-enrollment request"),
{
    match continuity_identity(state, "directory re-enrollment request") {
        Ok((device_id, poll_token)) => {
            proof {
                reveal_strlit("/v1/enrollment/reenrollment-request");
            }
            plan(
                base_url,
                "/v1/enrollment/reenrollment-request",
                "directory re-enrollment request",
                HttpMethod::Post,
                None,
                Some(continuity_body(device_id, poll_token)),
            )
        },
        Err(error) => Err(error),
    }
}

/// The fields of the body that completes a re-enrollment.
pub open spec fn completion_fields(
    state: PersistedDirectoryAuth,
    identity: DirectoryIdentity,
) -> Seq<(Seq<char>, JsonNode)> {
    let fields = continuity_fields(
        text_or_empty(state.device_id),
        text_or_empty(state.enrollment_poll_token),
    );
    let fields = and_text(fields, "rustdesk_id"@, identity.rustdesk_id@);
    let fields = and_text(fields, "hostname"@, identity.hostname@);
    let fields = and_text(fields, "friendly_name"@, identity.friendly_name@);
    let fields = and_optional(fields, "contact_email"@, contact_of(identity));
    let fields = and_text(fields, "device_public_key"@, identity.device_public_key@);
    and_text(fields, "client_version"@, identity.client_version@)
}

/// The request that completes a re-enrollment.
pub open spec fn completion_request(
    base: Seq<char>,
    state: PersistedDirectoryAuth,
    identity: DirectoryIdentity,
) -> Option<RequestView> {
    if has_continuity(state) {
        route_request(
            base,
            "/v1/enrollment/reenroll"@,
            HttpMethod::Post,
            None,
            Some(rendered_in_order(completion_fields(state, identity))),
        )
    } else {
        None
    }
}

/// Completes a re-enrollment that was authorized.
pub fn post_reenrollment_complete(
    base_url: &str,
    state: &PersistedDirectoryAuth,
    identity: &DirectoryIdentity,
) -> (r: DirectoryApiResult<HttpRequest>)
    requires
        base_url@.len() <= URL_TEXT_LIMIT,
    ensures
        planned(
            r,
            completion_request(base_url@, *state, *identity),
            "directory re-enrollment recovery",
        ),
{
    match continuity_identity(state, "directory re-enrollment recovery") {
        Ok((device_id, poll_token)) => {
            let mut body = empty_body();
            add_text(&mut body, "device_id", device_id);
            add_text(&mut body, "poll_token", poll_token);
            add_text(&mut body, "rustdesk_id", identity.rustdesk_id.as_str());
            add_text(&mut body, "hostname", identity.hostname.as_str());
            add_text(&mut body, "friendly_name", identity.friendly_name.as_str());
            add_optional(&mut body, "contact_email", contact_email_of(identity));
            add_text(&mut body, "device_public_key", identity.device_public_key.as_str());
            add_text(&mut body, "client_version", identity.client_version.as_str());
            proof {
                reveal_strlit("/v1/enrollment/reenroll");
            }
            plan(
                base_url,
                "/v1/enrollment/reenroll",
                "directory re-enrollment recovery",
                HttpMethod::Post,
                None,
                Some(render_in_order(body)),
            )
        },
        Err(error) => Err(error),
    }
}

/// A request to a protected route, which needs an approved credential.
pub open spec fn protected_request(
    base: Seq<char>,
    path: Seq<char>,
    method: HttpMethod,
    state: PersistedDirectoryAuth,
    body: Option<Seq<char>>,
) -> Option<RequestView> {
    if has_approved_credential(state) {
        route_request(base, path, method, Some(text_or_empty(state.device_credential)), body)
    } else {
        None
    }
}

fn plan_protected(
    base_url: &str,
    path: &str,
    operation: &'static str,
    method: HttpMethod,
    state: &PersistedDirectoryAuth,
    body: Option<String>,
) -> (r: DirectoryApiResult<HttpRequest>)
    requires
        base_url@.len() <= URL_TEXT_LIMIT,
        path@.len() <= URL_TEXT_LIMIT,
    ensures
        planned(
            r,
            protected_request(base_url@, path@, method, *state, optional_view(body)),
            operation,
        ),
{
    match approved_credential(state, operation) {
        Ok(credential) => plan(
            base_url,
            path,
            operation,
            method,
            Some(credential.to_owned()),
            body,
        ),
        Err(error) => Err(error),
    }
}

/// The request for the identity that the credential stands for.
pub open spec fn device_me_request(base: Seq<char>, state: PersistedDirectoryAuth) -> Option<
    RequestView,
> {
    protected_request(base, "/v1/device/me"@, HttpMethod::Get, state, None)
}

/// Asks which device the credential stands for.
pub fn get_device_me_request(base_url: &str, state: &PersistedDirectoryAuth) -> (r:
    DirectoryApiResult<HttpRequest>)
    requires
        base_url@.len() <= URL_TEXT_LIMIT,
    ensures
        planned(r, device_me_request(base_url@, *state), "directory device identity"),
{
    proof {
        reveal_strlit("/v1/device/me");
    }
    plan_protected(
        base_url,
        "/v1/device/me",
        "directory device identity",
        HttpMethod::Get,
        state,
        None,
    )
}

/// The fields of a heartbeat body.
pub open spec fn heartbeat_fields(identity: DirectoryIdentity) -> Seq<(Seq<char>, JsonNode)> {
    let fields = and_text(no_fields(), "hostname"@, identity.hostname@);
    let fields = and_text(fields, "friendly_name"@, identity.friendly_name@);
    and_text(fields, "client_version"@, identity.client_version@)
}

/// The heartbeat of this device.
pub open spec fn heartbeat_request(
    base: Seq<char>,
    state: PersistedDirectoryAuth,
    identity: DirectoryIdentity,
) -> Option<RequestView> {
    protected_request(
        base,
        "/v1/device/heartbeat"@,
        HttpMethod::Post,
        state,
        Some(rendered_in_order(heartbeat_fields(identity))),
    )
}

/// Reports that this device is there.
pub fn post_heartbeat_request(
    base_url: &str,
    state: &PersistedDirectoryAuth,
    identity: &DirectoryIdentity,
) -> (r: DirectoryApiResult<HttpRequest>)
    requires
        base_url@.len() <= URL_TEXT_LIMIT,
    ensures
        planned(r, heartbeat_request(base_url@, *state, *identity), "directory heartbeat"),
{
    let mut body = empty_body();
    add_text(&mut body, "hostname", identity.hostname.as_str());
    add_text(&mut body, "friendly_name", identity.friendly_name.as_str());
    add_text(&mut body, "client_version", identity.client_version.as_str());
    proof {
        reveal_strlit("/v1/device/heartbeat");
    }
    plan_protected(
        base_url,
        "/v1/device/heartbeat",
        "directory heartbeat",
        HttpMethod::Post,
        state,
        Some(render_in_order(body)),
    )
}

/// The request for the directory.
pub open spec fn directory_request(base: Seq<char>, state: PersistedDirectoryAuth) -> Option<
    RequestView,
> {
    protected_request(base, "/v1/directory"@, HttpMethod::Get, state, None)
}

/// Asks for the directory.
pub fn get_directory_request(base_url: &str, state: &PersistedDirectoryAuth) -> (r:
    DirectoryApiResult<HttpRequest>)
    requires
        base_url@.len() <= URL_TEXT_LIMIT,
    ensures
        planned(r, directory_request(base_url@, *state), "directory download"),
{
    proof {
        reveal_strlit("/v1/directory");
    }
    plan_protected(
        base_url,
        "/v1/directory",
        "directory download",
        HttpMethod::Get,
        state,
        None,
    )
}

/// The request that changes the contact address.
pub open spec fn contact_email_request(
    base: Seq<char>,
    state: PersistedDirectoryAuth,
    contact_email: Seq<char>,
) -> Option<RequestView> {
    protected_request(
        base,
        "/v1/device/contact-email"@,
        HttpMethod::Put,
        state,
        Some(rendered_in_order(and_text(no_fields(), "contact_email"@, contact_email))),
    )
}

/// Changes the contact address. The route names no device: the server takes it from
/// the credential, so that a device can change its own address only.
pub fn put_contact_email_request(
    base_url: &str,
    state: &PersistedDirectoryAuth,
    contact_email: &str,
) -> (r: DirectoryApiResult<HttpRequest>)
    requires
        base_url@.len() <= URL_TEXT_LIMIT,
    ensures
        planned(
            r,
            contact_email_request(base_url@, *state, contact_email@),
            "directory contact email update",
        ),
{
    let mut body = empty_body();
    add_text(&mut body, "contact_email", contact_email);
    proof {
        reveal_strlit("/v1/device/contact-email");
    }
    plan_protected(
        base_url,
        "/v1/device/contact-email",
        "directory contact email update",
        HttpMethod::Put,
        state,
        Some(render_in_order(body)),
    )
}

/// The request for a relay lease.
pub open spec fn relay_lease_request(base: Seq<char>, state: PersistedDirectoryAuth) -> Option<
    RequestView,
> {
    protected_request(base, "/v1/device/relay-lease"@, HttpMethod::Post, state, None)
}

/// Asks for a relay lease, under the address that leases are issued at.
pub fn post_relay_lease_request(
    relay_lease_base_url: &str,
    state: &PersistedDirectoryAuth,
) -> (r: DirectoryApiResult<HttpRequest>)
    requires
        relay_lease_base_url@.len() <= URL_TEXT_LIMIT,
    ensures
        planned(r, relay_lease_request(relay_lease_base_url@, *state), "directory relay lease"),
{
    proof {
        reveal_strlit("/v1/device/relay-lease");
    }
    plan_protected(
        relay_lease_base_url,
        "/v1/device/relay-lease",
        "directory relay lease",
        HttpMethod::Post,
        state,
        None,
    )
}

/// The fields of a session heartbeat. The peer is left out where there is none.
pub open spec fn session_fields(
    session_id: Seq<char>,
    session_type: Seq<char>,
    state: Seq<char>,
    peer_rustdesk_id: Option<Seq<char>>,
) -> Seq<(Seq<char>, JsonNode)> {
    let fields = and_text(no_fields(), "session_id"@, session_id);
    let fields = and_text(fields, "session_type"@, session_type);
    let fields = and_text(fields, "state"@, state);
    and_optional(fields, "peer_rustdesk_id"@, peer_rustdesk_id)
}

/// Reports the state of a session.
pub fn post_managed_session_heartbeat(
    base_url: &str,
    credential: &str,
    session_id: &str,
    session_type: &str,
    state: &str,
    peer_rustdesk_id: Option<&str>,
) -> (r: DirectoryApiResult<HttpRequest>)
    requires
        base_url@.len() <= URL_TEXT_LIMIT,
    ensures
        planned(
            r,
            route_request(
                base_url@,
                "/v1/device/session-heartbeat"@,
                HttpMethod::Post,
                Some(credential@),
                Some(
                    rendered_in_order(
                        session_fields(
                            session_id@,
                            session_type@,
                            state@,
                            borrowed_view(peer_rustdesk_id),
                        ),
                    ),
                ),
            ),
            "managed session heartbeat",
        ),
{
    let mut body = empty_body();
    add_text(&mut body, "session_id", session_id);
    add_text(&mut body, "session_type", session_type);
    add_text(&mut body, "state", state);
    add_optional(&mut body, "peer_rustdesk_id", peer_rustdesk_id);
    proof {
        reveal_strlit("/v1/device/session-heartbeat");
    }
    plan(
        base_url,
        "/v1/device/session-heartbeat",
        "managed session heartbeat",
        HttpMethod::Post,
        Some(credential.to_owned()),
        Some(render_in_order(body)),
    )
}

/// Holds the answer to a session heartbeat to the status of success; otherwise says
/// which status came, by its own words.
pub fn session_heartbeat_outcome(status: u16, status_text: &str) -> (r: Result<(), String>)
    ensures
        r is Ok <==> status == 200,
        r matches Err(text) ==> text@ == "Managed session heartbeat returned HTTP "@
            + status_text@,
{
    if status != 200 {
        return Err(joined("Managed session heartbeat returned HTTP ", status_text));
    }
    Ok(())
}

/// A first enrollment sends no poll token, and a device without a contact address
/// sends none: neither field is in the body, not even as null.
pub proof fn law_absent_fields_are_left_out(
    identity: DirectoryIdentity,
    enrollment_password: Seq<char>,
)
    ensures
        ({
            let fields = enrollment_fields(
                enrollment_password,
                identity.rustdesk_id@,
                identity.hostname@,
                Some(identity.friendly_name@),
                contact_of(identity),
                identity.device_public_key@,
                Some(identity.client_version@),
                None,
            );
            &&& !has_field(fields, "reenrollment_poll_token"@)
            &&& has_field(fields, "contact_email"@) <==> identity.contact_email@.len() > 0
        }),
{
    reveal_strlit("enrollment_password");
    reveal_strlit("rustdesk_id");
    reveal_strlit("hostname");
    reveal_strlit("friendly_name");
    reveal_strlit("contact_email");
    reveal_strlit("device_public_key");
    reveal_strlit("client_version");
    reveal_strlit("reenrollment_poll_token");
    assert("reenrollment_poll_token"@.len() == 23);
    assert("enrollment_password"@.len() == 19);
    assert("rustdesk_id"@.len() == 11);
    assert("hostname"@.len() == 8);
    assert("friendly_name"@[0] == 'f');
    assert("contact_email"@[0] == 'c' && "contact_email"@.len() == 13);
    assert("friendly_name"@.len() == 13);
    assert("device_public_key"@.len() == 17);
    assert("client_version"@.len() == 14);
    if identity.contact_email@.len() > 0 {
        let fields = enrollment_fields(
            enrollment_password,
            identity.rustdesk_id@,
            identity.hostname@,
            Some(identity.friendly_name@),
            contact_of(identity),
            identity.device_public_key@,
            Some(identity.client_version@),
            None,
        );
        assert(fields[4].0 == "contact_email"@);
    }
}

/// A protected route is requested exactly where the enrollment is approved and has
/// a credential, and the request carries that credential.
pub proof fn law_protected_routes_need_approval(
    base: Seq<char>,
    state: PersistedDirectoryAuth,
    identity: DirectoryIdentity,
    contact_email: Seq<char>,
)
    ensures
        forall|request: RequestView|
            ({
                ||| device_me_request(base, state) == Some(request)
                ||| heartbeat_request(base, state, identity) == Some(request)
                ||| directory_request(base, state) == Some(request)
                ||| contact_email_request(base, state, contact_email) == Some(request)
                ||| relay_lease_request(base, state) == Some(request)
            }) ==> has_approved_credential(state) && #[trigger] request.bearer == Some(
                text_or_empty(state.device_credential),
            ),
        acceptable_base(base) && has_approved_credential(state) ==> {
            &&& device_me_request(base, state) is Some
            &&& heartbeat_request(base, state, identity) is Some
            &&& directory_request(base, state) is Some
            &&& contact_email_request(base, state, contact_email) is Some
            &&& relay_lease_request(base, state) is Some
        },
{
}

/// A request is seen by its method and by the characters of its address, its credential and
/// its body.
pub proof fn law_request_is_seen_as_it_is(request: HttpRequest)
    ensures
        request@.method == request.method,
        request@.url == request.url@,
        request@.bearer == optional_view(request.bearer),
        request@.body == optional_view(request.body),
{
}

/// A request for the route `path` under `base`, with a bearer credential and a body, or the
/// error of a device that is not set up for it.
pub open spec fn asks(
    r: DirectoryApiResult<HttpRequest>,
    base: Seq<char>,
    path: Seq<char>,
    method: HttpMethod,
    bearer: Option<Seq<char>>,
    body: Option<Seq<char>>,
) -> bool {
    &&& r matches Ok(request)
    &&& request.method == method
    &&& request.url@ == route_address(base, path)
    &&& optional_view(request.bearer) == bearer
    &&& optional_view(request.body) == body
}

/// The error of an operation that a device is not set up for.
pub open spec fn refuses(r: DirectoryApiResult<HttpRequest>, operation: &'static str) -> bool {
    &&& r matches Err(error)
    &&& error.operation == operation
    &&& error.kind == DirectoryApiErrorKind::Configuration
    &&& error.status is None
    &&& error.retry_after_seconds is None
}

/// What is asked is asked by exactly one request, and what is refused is not asked.
pub proof fn law_asking_and_refusing(
    r: DirectoryApiResult<HttpRequest>,
    base: Seq<char>,
    path: Seq<char>,
    method: HttpMethod,
    bearer: Option<Seq<char>>,
    body: Option<Seq<char>>,
    operation: &'static str,
)
    ensures
        asks(r, base, path, method, bearer, body) ==> {
            &&& r is Ok
            &&& r->Ok_0.method == method
            &&& r->Ok_0.url@ == route_address(base, path)
            &&& bearer matches Some(text) ==> r->Ok_0.bearer is Some && r->Ok_0.bearer->0@ == text
            &&& bearer is None ==> r->Ok_0.bearer is None
            &&& body matches Some(text) ==> r->Ok_0.body is Some && r->Ok_0.body->0@ == text
            &&& body is None ==> r->Ok_0.body is None
        },
        refuses(r, operation) ==> r is Err && r->Err_0.operation == operation && r->Err_0.kind
            == DirectoryApiErrorKind::Configuration && r->Err_0.status is None,
{
}

/// A device enrolls with its password and with what identifies it, each in the field of its
/// name: the contact address only where it has one, and the poll token only where it was
/// enrolled before. It sends no credential.
pub proof fn law_enrollment_sends_the_identity(
    base: &str,
    identity: DirectoryIdentity,
    password: &str,
    token: Option<&str>,
    r: DirectoryApiResult<HttpRequest>,
)
    requires
        call_ensures(post_enrollment_request, (base, &identity, password, token), r),
    ensures
        !acceptable_base(base@) ==> refuses(r, "directory enrollment"),
        acceptable_base(base@) ==> asks(
            r,
            base@,
            "/v1/enrollment/devices"@,
            HttpMethod::Post,
            None,
            Some(
                rendered_in_order(
                    seq![
                        ("enrollment_password"@, JsonNode::Text(password@)),
                        ("rustdesk_id"@, JsonNode::Text(identity.rustdesk_id@)),
                        ("hostname"@, JsonNode::Text(identity.hostname@)),
                        ("friendly_name"@, JsonNode::Text(identity.friendly_name@)),
                    ] + (if identity.contact_email@.len() > 0 {
                        seq![("contact_email"@, JsonNode::Text(identity.contact_email@))]
                    } else {
                        Seq::empty()
                    }) + seq![
                        ("device_public_key"@, JsonNode::Text(identity.device_public_key@)),
                        ("client_version"@, JsonNode::Text(identity.client_version@)),
                    ] + (match token {
                        Some(text) => seq![("reenrollment_poll_token"@, JsonNode::Text(text@))],
                        None => Seq::empty(),
                    }),
                ),
            ),
        ),
{
    let fields = enrollment_fields(
        password@,
        identity.rustdesk_id@,
        identity.hostname@,
        Some(identity.friendly_name@),
        contact_of(identity),
        identity.device_public_key@,
        Some(identity.client_version@),
        borrowed_view(token),
    );
    assert(fields =~= seq![
        ("enrollment_password"@, JsonNode::Text(password@)),
        ("rustdesk_id"@, JsonNode::Text(identity.rustdesk_id@)),
        ("hostname"@, JsonNode::Text(identity.hostname@)),
        ("friendly_name"@, JsonNode::Text(identity.friendly_name@)),
    ] + (if identity.contact_email@.len() > 0 {
        seq![("contact_email"@, JsonNode::Text(identity.contact_email@))]
    } else {
        Seq::empty()
    }) + seq![
        ("device_public_key"@, JsonNode::Text(identity.device_public_key@)),
        ("client_version"@, JsonNode::Text(identity.client_version@)),
    ] + (match token {
        Some(text) => seq![("reenrollment_poll_token"@, JsonNode::Text(text@))],
        None => Seq::empty(),
    }));
}

/// The body of an enrollment has a field for each of its parts; a name and a version that are
/// not there are null, and an address and a token that are not there are left out.
pub proof fn law_enrollment_body_has_its_parts(request: EnrollmentRequest<'_>, r: String)
    requires
        call_ensures(EnrollmentRequest::json, (&request,), r),
    ensures
        r@ == rendered_in_order(
            seq![
                ("enrollment_password"@, JsonNode::Text(request.enrollment_password@)),
                ("rustdesk_id"@, JsonNode::Text(request.rustdesk_id@)),
                ("hostname"@, JsonNode::Text(request.hostname@)),
                (
                    "friendly_name"@,
                    match request.friendly_name {
                        Some(name) => JsonNode::Text(name@),
                        None => JsonNode::Null,
                    },
                ),
            ] + (match request.contact_email {
                Some(email) => seq![("contact_email"@, JsonNode::Text(email@))],
                None => Seq::empty(),
            }) + seq![
                ("device_public_key"@, JsonNode::Text(request.device_public_key@)),
                (
                    "client_version"@,
                    match request.client_version {
                        Some(version) => JsonNode::Text(version@),
                        None => JsonNode::Null,
                    },
                ),
            ] + (match request.reenrollment_poll_token {
                Some(token) => seq![("reenrollment_poll_token"@, JsonNode::Text(token@))],
                None => Seq::empty(),
            }),
        ),
{
    assert(request.fields() =~= seq![
        ("enrollment_password"@, JsonNode::Text(request.enrollment_password@)),
        ("rustdesk_id"@, JsonNode::Text(request.rustdesk_id@)),
        ("hostname"@, JsonNode::Text(request.hostname@)),
        (
            "friendly_name"@,
            match request.friendly_name {
                Some(name) => JsonNode::Text(name@),
                None => JsonNode::Null,
            },
        ),
    ] + (match request.contact_email {
        Some(email) => seq![("contact_email"@, JsonNode::Text(email@))],
        None => Seq::empty(),
    }) + seq![
        ("device_public_key"@, JsonNode::Text(request.device_public_key@)),
        (
            "client_version"@,
            match request.client_version {
                Some(version) => JsonNode::Text(version@),
                None => JsonNode::Null,
            },
        ),
    ] + (match request.reenrollment_poll_token {
        Some(token) => seq![("reenrollment_poll_token"@, JsonNode::Text(token@))],
        None => Seq::empty(),
    }));
}

/// The status of an enrollment is asked for, and so is a new enrollment, with the device id
/// and the poll token, where the enrollment has both, and with no credential.
pub proof fn law_continuity_is_proved_by_id_and_token(
    base: &str,
    state: PersistedDirectoryAuth,
    status: DirectoryApiResult<HttpRequest>,
    again: DirectoryApiResult<HttpRequest>,
)
    requires
        call_ensures(post_enrollment_status_request, (base, &state), status),
        call_ensures(post_reenrollment_request, (base, &state), again),
    ensures
        acceptable_base(base@) && can_prove_continuity(state) ==> {
            let body = Some(
                rendered_in_order(
                    seq![
                        ("device_id"@, JsonNode::Text(state.device_id->0@)),
                        ("poll_token"@, JsonNode::Text(state.enrollment_poll_token->0@)),
                    ],
                ),
            );
            &&& asks(status, base@, "/v1/enrollment/status"@, HttpMethod::Post, None, body)
            &&& asks(
                again,
                base@,
                "/v1/enrollment/reenrollment-request"@,
                HttpMethod::Post,
                None,
                body,
            )
        },
        !(acceptable_base(base@) && can_prove_continuity(state)) ==> refuses(
            status,
            "directory enrollment status",
        ) && refuses(again, "directory re-enrollment request"),
{
    lemma_blank_iff_trimmed_empty(text_or_empty(state.device_id));
    if can_prove_continuity(state) {
        assert(continuity_fields(
            text_or_empty(state.device_id),
            text_or_empty(state.enrollment_poll_token),
        ) =~= seq![
            ("device_id"@, JsonNode::Text(state.device_id->0@)),
            ("poll_token"@, JsonNode::Text(state.enrollment_poll_token->0@)),
        ]);
    }
}

/// The enrollment has a device id that is more than white space, and a poll token.
pub open spec fn can_prove_continuity(state: PersistedDirectoryAuth) -> bool {
    &&& state.device_id matches Some(id)
    &&& trimmed(id@).len() > 0
    &&& state.enrollment_poll_token matches Some(token)
    &&& token@.len() > 0
}

/// An authorized re-enrollment is completed with the device id and the poll token, and with
/// what identifies the device now.
pub proof fn law_completion_sends_continuity_and_identity(
    base: &str,
    state: PersistedDirectoryAuth,
    identity: DirectoryIdentity,
    r: DirectoryApiResult<HttpRequest>,
)
    requires
        call_ensures(post_reenrollment_complete, (base, &state, &identity), r),
    ensures
        acceptable_base(base@) && can_prove_continuity(state) ==> asks(
            r,
            base@,
            "/v1/enrollment/reenroll"@,
            HttpMethod::Post,
            None,
            Some(
                rendered_in_order(
                    seq![
                        ("device_id"@, JsonNode::Text(state.device_id->0@)),
                        ("poll_token"@, JsonNode::Text(state.enrollment_poll_token->0@)),
                        ("rustdesk_id"@, JsonNode::Text(identity.rustdesk_id@)),
                        ("hostname"@, JsonNode::Text(identity.hostname@)),
                        ("friendly_name"@, JsonNode::Text(identity.friendly_name@)),
                    ] + (if identity.contact_email@.len() > 0 {
                        seq![("contact_email"@, JsonNode::Text(identity.contact_email@))]
                    } else {
                        Seq::empty()
                    }) + seq![
                        ("device_public_key"@, JsonNode::Text(identity.device_public_key@)),
                        ("client_version"@, JsonNode::Text(identity.client_version@)),
                    ],
                ),
            ),
        ),
        !(acceptable_base(base@) && can_prove_continuity(state)) ==> refuses(
            r,
            "directory re-enrollment recovery",
        ),
{
    lemma_blank_iff_trimmed_empty(text_or_empty(state.device_id));
    if can_prove_continuity(state) {
        assert(completion_fields(state, identity) =~= seq![
            ("device_id"@, JsonNode::Text(state.device_id->0@)),
            ("poll_token"@, JsonNode::Text(state.enrollment_poll_token->0@)),
            ("rustdesk_id"@, JsonNode::Text(identity.rustdesk_id@)),
            ("hostname"@, JsonNode::Text(identity.hostname@)),
            ("friendly_name"@, JsonNode::Text(identity.friendly_name@)),
        ] + (if identity.contact_email@.len() > 0 {
            seq![("contact_email"@, JsonNode::Text(identity.contact_email@))]
        } else {
            Seq::empty()
        }) + seq![
            ("device_public_key"@, JsonNode::Text(identity.device_public_key@)),
            ("client_version"@, JsonNode::Text(identity.client_version@)),
        ]);
    }
}

/// The enrollment is approved and has a credential.
pub open spec fn can_use_protected_routes(state: PersistedDirectoryAuth) -> bool {
    &&& state.status == PersistedEnrollmentStatus::Approved
    &&& state.device_credential matches Some(credential)
    &&& credential@.len() > 0
}

/// Each protected route is asked with the credential of an approved enrollment, with its own
/// method and at its own path, and only what has something to say has a body.
pub proof fn law_protected_routes_are_asked_with_the_credential(
    base: &str,
    state: PersistedDirectoryAuth,
    identity: DirectoryIdentity,
    contact_email: &str,
    me: DirectoryApiResult<HttpRequest>,
    beat: DirectoryApiResult<HttpRequest>,
    directory: DirectoryApiResult<HttpRequest>,
    contact: DirectoryApiResult<HttpRequest>,
    lease: DirectoryApiResult<HttpRequest>,
)
    requires
        call_ensures(get_device_me_request, (base, &state), me),
        call_ensures(post_heartbeat_request, (base, &state, &identity), beat),
        call_ensures(get_directory_request, (base, &state), directory),
        call_ensures(put_contact_email_request, (base, &state, contact_email), contact),
        call_ensures(post_relay_lease_request, (base, &state), lease),
    ensures
        acceptable_base(base@) && can_use_protected_routes(state) ==> {
            let bearer = Some(state.device_credential->0@);
            &&& asks(me, base@, "/v1/device/me"@, HttpMethod::Get, bearer, None)
            &&& asks(
                beat,
                base@,
                "/v1/device/heartbeat"@,
                HttpMethod::Post,
                bearer,
                Some(
                    rendered_in_order(
                        seq![
                            ("hostname"@, JsonNode::Text(identity.hostname@)),
                            ("friendly_name"@, JsonNode::Text(identity.friendly_name@)),
                            ("client_version"@, JsonNode::Text(identity.client_version@)),
                        ],
                    ),
                ),
            )
            &&& asks(directory, base@, "/v1/directory"@, HttpMethod::Get, bearer, None)
            &&& asks(
                contact,
                base@,
                "/v1/device/contact-email"@,
                HttpMethod::Put,
                bearer,
                Some(
                    rendered_in_order(
                        seq![("contact_email"@, JsonNode::Text(contact_email@))],
                    ),
                ),
            )
            &&& asks(lease, base@, "/v1/device/relay-lease"@, HttpMethod::Post, bearer, None)
        },
        !(acceptable_base(base@) && can_use_protected_routes(state)) ==> {
            &&& refuses(me, "directory device identity")
            &&& refuses(beat, "directory heartbeat")
            &&& refuses(directory, "directory download")
            &&& refuses(contact, "directory contact email update")
            &&& refuses(lease, "directory relay lease")
        },
{
    assert(heartbeat_fields(identity) =~= seq![
        ("hostname"@, JsonNode::Text(identity.hostname@)),
        ("friendly_name"@, JsonNode::Text(identity.friendly_name@)),
        ("client_version"@, JsonNode::Text(identity.client_version@)),
    ]);
    assert(and_text(no_fields(), "contact_email"@, contact_email@) =~= seq![
        ("contact_email"@, JsonNode::Text(contact_email@)),
    ]);
}

/// A session is reported by its id, its type and its state, and by its peer where it has one.
pub proof fn law_session_report_says_what_it_is_given(
    base: &str,
    credential: &str,
    session_id: &str,
    session_type: &str,
    state: &str,
    peer: Option<&str>,
    r: DirectoryApiResult<HttpRequest>,
)
    requires
        call_ensures(
            post_managed_session_heartbeat,
            (base, credential, session_id, session_type, state, peer),
            r,
        ),
    ensures
        !acceptable_base(base@) ==> refuses(r, "managed session heartbeat"),
        acceptable_base(base@) ==> asks(
            r,
            base@,
            "/v1/device/session-heartbeat"@,
            HttpMethod::Post,
            Some(credential@),
            Some(
                rendered_in_order(
                    seq![
                        ("session_id"@, JsonNode::Text(session_id@)),
                        ("session_type"@, JsonNode::Text(session_type@)),
                        ("state"@, JsonNode::Text(state@)),
                    ] + (match peer {
                        Some(id) => seq![("peer_rustdesk_id"@, JsonNode::Text(id@))],
                        None => Seq::empty(),
                    }),
                ),
            ),
        ),
{
    assert(session_fields(session_id@, session_type@, state@, borrowed_view(peer)) =~= seq![
        ("session_id"@, JsonNode::Text(session_id@)),
        ("session_type"@, JsonNode::Text(session_type@)),
        ("state"@, JsonNode::Text(state@)),
    ] + (match peer {
        Some(id) => seq![("peer_rustdesk_id"@, JsonNode::Text(id@))],
        None => Seq::empty(),
    }));
}

/// The answer to a report is good exactly where its status is that of success, and otherwise
/// the status is named.
pub proof fn law_report_needs_success(status: u16, status_text: &str, r: Result<(), String>)
    requires
        call_ensures(session_heartbeat_outcome, (status, status_text), r),
    ensures
        r is Ok <==> status == 200,
        r matches Err(text) ==> text@ == "Managed session heartbeat returned HTTP "@
            + status_text@,
{
}

} // verus!
