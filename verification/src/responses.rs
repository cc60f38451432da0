//! What is held against the answers of protected routes before they are taken, and
//! what is made of the directory.

use crate::api_error::{
    plain_error, DirectoryApiError, DirectoryApiErrorKind, DirectoryApiResult,
};
use crate::api_types::{
    DeviceMeResponse, DirectoryDevice, DirectoryResponse, DirectoryServerStats, HeartbeatResponse,
    RelayLeaseResponse,
};
use crate::persisted_auth::{
    device_me_fault, validate_device_me_response, PersistedDirectoryAuth,
};
use crate::text::{
    blank, borrowed_or_empty, borrowed_view, is_blank, lemma_blank_iff_trimmed_empty,
    optional_view, same_text, text_or_empty, trimmed,
};
use vstd::prelude::*;
use vstd::string::*;

verus! {

pub const DIRECTORY_HEARTBEAT_SECONDS: u64 = 15;

pub const DIRECTORY_REFRESH_MAX_SECONDS: u64 = 15;

/// The outcome of holding an answer to what it must say.
pub open spec fn accepted(valid: bool, operation: &'static str) -> DirectoryApiResult<()> {
    if valid {
        Ok(())
    } else {
        Err(plain_error(operation, DirectoryApiErrorKind::InvalidResponse))
    }
}

/// Takes a device identity answer only where it is about this exact device and
/// credential serial.
pub fn accept_device_me(state: &PersistedDirectoryAuth, response: &DeviceMeResponse) -> (r:
    DirectoryApiResult<()>)
    ensures
        r == accepted(device_me_fault(*state, *response) is None, "directory device identity"),
{
    match validate_device_me_response(state, response) {
        Ok(()) => Ok(()),
        Err(_) => Err(DirectoryApiError::invalid_response("directory device identity")),
    }
}

/// The heartbeat was taken, and the device is approved.
pub open spec fn heartbeat_valid(response: HeartbeatResponse) -> bool {
    response.status@ == "ok"@ && response.device_status@ == "approved"@
}

/// Takes the answer to a heartbeat only where the device is approved.
pub fn validate_heartbeat_response(response: &HeartbeatResponse) -> (r: DirectoryApiResult<()>)
    ensures
        r == accepted(heartbeat_valid(*response), "directory heartbeat"),
{
    if !same_text(response.status.as_str(), "ok") || !same_text(
        response.device_status.as_str(),
        "approved",
    ) {
        return Err(DirectoryApiError::invalid_response("directory heartbeat"));
    }
    Ok(())
}

/// The lease is authorized, for this device and credential, and says when it ends
/// and is renewed and how it is guarded.
pub open spec fn relay_lease_valid(
    state: PersistedDirectoryAuth,
    response: RelayLeaseResponse,
) -> bool {
    &&& response.status@ == "authorized"@
    &&& !blank(response.lease_id@)
    &&& response.device_id@ == text_or_empty(state.device_id)
    &&& response.credential_serial@ == text_or_empty(state.credential_serial)
    &&& response.renew_after_seconds > 0
    &&& !blank(response.expires_at@)
    &&& (response.guard_mode@ == "staged"@ || response.guard_mode@ == "enforced"@)
}

/// Takes a relay lease only where it is for this device and credential.
pub fn validate_relay_lease_response(
    state: &PersistedDirectoryAuth,
    response: &RelayLeaseResponse,
) -> (r: DirectoryApiResult<()>)
    ensures
        r == accepted(relay_lease_valid(*state, *response), "directory relay lease"),
{
    let expected_device_id = borrowed_or_empty(&state.device_id);
    let expected_serial = borrowed_or_empty(&state.credential_serial);
    if !same_text(response.status.as_str(), "authorized") || is_blank(response.lease_id.as_str())
        || !same_text(response.device_id.as_str(), expected_device_id) || !same_text(
        response.credential_serial.as_str(),
        expected_serial,
    ) || response.renew_after_seconds == 0 || is_blank(response.expires_at.as_str()) || !(
    same_text(response.guard_mode.as_str(), "staged") || same_text(
        response.guard_mode.as_str(),
        "enforced",
    )) {
        return Err(DirectoryApiError::invalid_response("directory relay lease"));
    }
    Ok(())
}

/// A refresh interval between one second and the maximum; the maximum where the
/// server asks for none or for more.
pub open spec fn refresh_interval(refresh_seconds: u64) -> u64 {
    if 1 <= refresh_seconds <= DIRECTORY_REFRESH_MAX_SECONDS {
        refresh_seconds
    } else {
        DIRECTORY_REFRESH_MAX_SECONDS
    }
}

/// Bounds a refresh interval.
pub fn normalize_directory_refresh_seconds(refresh_seconds: u64) -> (r: u64)
    ensures
        r == refresh_interval(refresh_seconds),
{
    if refresh_seconds == 0 || refresh_seconds > DIRECTORY_REFRESH_MAX_SECONDS {
        DIRECTORY_REFRESH_MAX_SECONDS
    } else {
        refresh_seconds
    }
}

/// The device has another id than `current`, white space around either aside.
pub open spec fn is_other_device(current: Seq<char>) -> spec_fn(DirectoryDevice) -> bool {
    |device: DirectoryDevice| trimmed(device.id@) != trimmed(current)
}

/// The devices without this one; all of them where this one has no id.
pub open spec fn other_devices(
    devices: Seq<DirectoryDevice>,
    current: Option<Seq<char>>,
) -> Seq<DirectoryDevice> {
    match current {
        Some(id) => if blank(id) {
            devices
        } else {
            devices.filter(is_other_device(id))
        },
        None => devices,
    }
}

/// What a directory shows.
pub struct DirectoryView {
    pub instance_id: Seq<char>,
    pub generated_at: Seq<char>,
    pub refresh_seconds: u64,
    pub devices: Seq<DirectoryDevice>,
    pub client_settings: Option<serde_json::Value>,
    pub server_stats: Option<DirectoryServerStats>,
}

impl View for DirectoryResponse {
    type V = DirectoryView;

    open spec fn view(&self) -> DirectoryView {
        DirectoryView {
            instance_id: self.instance_id@,
            generated_at: self.generated_at@,
            refresh_seconds: self.refresh_seconds,
            devices: self.devices@,
            client_settings: self.client_settings,
            server_stats: self.server_stats,
        }
    }
}

/// A directory as the device `state` shows it: its interval bounded and the device
/// itself taken out.
pub open spec fn shown_directory(
    response: DirectoryView,
    state: PersistedDirectoryAuth,
) -> DirectoryView {
    DirectoryView {
        refresh_seconds: refresh_interval(response.refresh_seconds),
        devices: other_devices(response.devices, optional_view(state.device_id)),
        ..response
    }
}

fn devices_other_than(devices: Vec<DirectoryDevice>, current: &str) -> (r: Vec<DirectoryDevice>)
    ensures
        r@ == devices@.filter(is_other_device(current@)),
{
    let wanted = current.trim();
    let ghost all = devices@;
    let mut kept: Vec<DirectoryDevice> = Vec::new();
    proof {
        reveal(Seq::filter);
        assert(all.take(0).filter(is_other_device(current@)) == Seq::<DirectoryDevice>::empty());
    }
    for device in it: devices.into_iter()
        invariant
            it.seq() == all,
            wanted@ == trimmed(current@),
            kept@ == all.take(it.index() as int).filter(is_other_device(current@)),
    {
        proof {
            reveal(Seq::filter);
            assert(all.take(it.index() as int + 1).drop_last() == all.take(it.index() as int));
            assert(all.take(it.index() as int + 1).last() == device);
        }
        if !same_text(device.id.as_str().trim(), wanted) {
            kept.push(device);
        }
    }
    proof {
        assert(all.take(all.len() as int) == all);
    }
    kept
}

/// Takes this device out of a directory. Nothing else of it changes.
pub fn remove_current_device_from_directory(
    response: &mut DirectoryResponse,
    current_device_id: Option<&str>,
)
    ensures
        final(response)@ == (DirectoryView {
            devices: other_devices(old(response)@.devices, borrowed_view(current_device_id)),
            ..old(response)@
        }),
{
    if let Some(current) = current_device_id {
        if !is_blank(current) {
            let mut devices: Vec<DirectoryDevice> = Vec::new();
            std::mem::swap(&mut devices, &mut response.devices);
            response.devices = devices_other_than(devices, current);
        }
    }
}

/// Bounds the interval of a directory and takes this device out of it.
pub fn normalized_directory(
    response: DirectoryResponse,
    state: &PersistedDirectoryAuth,
) -> (r: DirectoryResponse)
    ensures
        r@ == shown_directory(response@, *state),
{
    let mut response = response;
    response.refresh_seconds = normalize_directory_refresh_seconds(response.refresh_seconds);
    match &state.device_id {
        Some(device_id) => remove_current_device_from_directory(
            &mut response,
            Some(device_id.as_str()),
        ),
        None => {},
    }
    response
}

/// A shown directory never lists the device that shows it, keeps every other
/// device, and is refreshed after one to fifteen seconds.
pub proof fn law_directory_excludes_this_device(
    devices: Seq<DirectoryDevice>,
    current: Seq<char>,
    refresh_seconds: u64,
)
    requires
        !blank(current),
    ensures
        forall|i: int|
            0 <= i < other_devices(devices, Some(current)).len() ==> trimmed(
                #[trigger] other_devices(devices, Some(current))[i].id@,
            ) != trimmed(current),
        forall|i: int|
            0 <= i < devices.len() && trimmed(#[trigger] devices[i].id@) != trimmed(current)
                ==> other_devices(devices, Some(current)).contains(devices[i]),
        1 <= refresh_interval(refresh_seconds) <= DIRECTORY_REFRESH_MAX_SECONDS,
{
    let keep = is_other_device(current);
    assert forall|i: int| 0 <= i < devices.filter(keep).len() implies trimmed(
        #[trigger] devices.filter(keep)[i].id@,
    ) != trimmed(current) by {
        devices.lemma_filter_pred(keep, i);
    }
    assert forall|i: int|
        0 <= i < devices.len() && trimmed(#[trigger] devices[i].id@) != trimmed(
            current,
        ) implies devices.filter(keep).contains(devices[i]) by {
        assert(keep(devices[i]));
        devices.lemma_filter_contains(keep, i);
    }
}

/// Showing a directory changes nothing but its interval and its devices: everything else that
/// the server said is shown as it came, and of the devices only this one is left out, by its
/// id without the white space around it. The others stay in their order.
pub proof fn law_showing_changes_only_the_interval_and_the_devices(
    response: DirectoryResponse,
    state: PersistedDirectoryAuth,
    r: DirectoryResponse,
)
    requires
        call_ensures(normalized_directory, (response, &state), r),
    ensures
        r.instance_id@ == response.instance_id@,
        r.generated_at@ == response.generated_at@,
        r.client_settings == response.client_settings,
        r.server_stats == response.server_stats,
        1 <= response.refresh_seconds <= 15 ==> r.refresh_seconds == response.refresh_seconds,
        response.refresh_seconds == 0 || response.refresh_seconds > 15 ==> r.refresh_seconds == 15,
        state.device_id is None ==> r.devices@ == response.devices@,
        state.device_id matches Some(id) ==> {
            &&& trimmed(id@).len() == 0 ==> r.devices@ == response.devices@
            &&& trimmed(id@).len() > 0 ==> r.devices@ == response.devices@.filter(
                |device: DirectoryDevice| trimmed(device.id@) != trimmed(id@),
            )
        },
{
    if let Some(id) = state.device_id {
        lemma_blank_iff_trimmed_empty(id@);
        assert(is_other_device(id@) =~= (|device: DirectoryDevice|
            trimmed(device.id@) != trimmed(id@)));
    }
}

/// Taking this device out of a directory leaves everything but the devices as it was.
pub proof fn law_taking_a_device_out_leaves_the_rest(
    response: &mut DirectoryResponse,
    current: Option<&str>,
)
    requires
        call_ensures(remove_current_device_from_directory, (response, current), ()),
    ensures
        final(response).instance_id@ == old(response).instance_id@,
        final(response).generated_at@ == old(response).generated_at@,
        final(response).refresh_seconds == old(response).refresh_seconds,
        final(response).client_settings == old(response).client_settings,
        final(response).server_stats == old(response).server_stats,
        current is None ==> final(response).devices@ == old(response).devices@,
        current matches Some(id) ==> {
            &&& trimmed(id@).len() == 0 ==> final(response).devices@ == old(response).devices@
            &&& trimmed(id@).len() > 0 ==> final(response).devices@
                == old(response).devices@.filter(
                |device: DirectoryDevice| trimmed(device.id@) != trimmed(id@),
            )
        },
{
    let before = old(response)@;
    let after = final(response)@;
    if let Some(id) = current {
        lemma_blank_iff_trimmed_empty(id@);
        assert(is_other_device(id@) =~= (|device: DirectoryDevice|
            trimmed(device.id@) != trimmed(id@)));
    }
}

/// A refresh interval from one to fifteen seconds is taken as it is, and any other one as
/// fifteen.
pub proof fn law_refresh_interval_is_bounded(refresh_seconds: u64, r: u64)
    requires
        call_ensures(normalize_directory_refresh_seconds, (refresh_seconds,), r),
    ensures
        1 <= r <= 15,
        1 <= refresh_seconds <= 15 ==> r == refresh_seconds,
        refresh_seconds == 0 || refresh_seconds > 15 ==> r == 15,
{
}

/// A heartbeat's answer is taken exactly where it is in order and the device approved.
pub proof fn law_heartbeat_needs_an_approved_device(
    response: HeartbeatResponse,
    r: DirectoryApiResult<()>,
)
    requires
        call_ensures(validate_heartbeat_response, (&response,), r),
    ensures
        r is Ok <==> response.status@ == "ok"@ && response.device_status@ == "approved"@,
        r matches Err(error) ==> error.operation == "directory heartbeat" && error.kind
            == DirectoryApiErrorKind::InvalidResponse && error.status is None
            && error.retry_after_seconds is None,
{
}

/// A relay lease is taken exactly where it is authorized, has an id and an end, is for this
/// device and this credential, is renewed after some time and is guarded in a known way.
pub proof fn law_lease_is_for_this_device(
    state: PersistedDirectoryAuth,
    response: RelayLeaseResponse,
    r: DirectoryApiResult<()>,
)
    requires
        call_ensures(validate_relay_lease_response, (&state, &response), r),
    ensures
        r is Ok <==> {
            &&& response.status@ == "authorized"@
            &&& trimmed(response.lease_id@).len() > 0
            &&& response.device_id@ == text_or_empty(state.device_id)
            &&& response.credential_serial@ == text_or_empty(state.credential_serial)
            &&& response.renew_after_seconds >= 1
            &&& trimmed(response.expires_at@).len() > 0
            &&& response.guard_mode@ == "staged"@ || response.guard_mode@ == "enforced"@
        },
        r matches Err(error) ==> error.operation == "directory relay lease" && error.kind
            == DirectoryApiErrorKind::InvalidResponse && error.status is None
            && error.retry_after_seconds is None,
{
    lemma_blank_iff_trimmed_empty(response.lease_id@);
    lemma_blank_iff_trimmed_empty(response.expires_at@);
}

/// A credential is confirmed exactly where the answer is about this device, by its id and its
/// RustDesk id, is approved and has the serial of the credential.
pub proof fn law_confirmation_is_for_this_credential(
    state: PersistedDirectoryAuth,
    response: DeviceMeResponse,
    r: DirectoryApiResult<()>,
)
    requires
        call_ensures(accept_device_me, (&state, &response), r),
    ensures
        r is Ok <==> {
            &&& state.device_id matches Some(id)
            &&& id@.len() > 0
            &&& response.id@ == id@
            &&& state.credential_serial matches Some(serial)
            &&& serial@.len() > 0
            &&& response.credential_serial@ == serial@
            &&& response.rustdesk_id@ == state.rustdesk_id@
            &&& response.status@ == "approved"@
        },
        r matches Err(error) ==> error.operation == "directory device identity" && error.kind
            == DirectoryApiErrorKind::InvalidResponse && error.status is None
            && error.retry_after_seconds is None,
{
}

} // verus!
