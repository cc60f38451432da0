//! The enrollment that this device keeps across restarts: what must hold of it,
//! how the server's answers change it, and which parts survive every change.

use crate::api_error::{
    plain_error, DirectoryApiError, DirectoryApiErrorKind, DirectoryApiResult,
};
use crate::api_types::{
    DeviceMeResponse, DirectoryIdentity, EnrollmentResponse, EnrollmentStatusResponse,
};
use crate::directory_state::DirectoryState;
use crate::text::{
    blank, borrowed_or_empty, copied_text, decimal, decimal_text, is_blank, joined,
    lemma_blank_iff_trimmed_empty, same_text, text_or_empty, trimmed,
};
use vstd::prelude::*;
use vstd::string::*;

verus! {

/// The only schema of the stored state that is understood.
pub const DIRECTORY_STATE_SCHEMA_VERSION: u32 = 1;

#[derive(Debug, Clone, Copy, PartialEq, Eq, Structural)]
pub enum PersistedEnrollmentStatus {
    NotEnrolled,
    Pending,
    Approved,
    Denied,
    Blocked,
    Revoked,
}

pub struct PersistedDirectoryAuth {
    pub version: u32,
    pub rustdesk_id: String,
    pub device_public_key: String,
    pub status: PersistedEnrollmentStatus,
    // Durable enrollment continuity identity. Once first enrollment succeeds,
    // these remain stored across Pending, Approved, Blocked, and Revoked.
    pub device_id: Option<String>,
    pub enrollment_poll_token: Option<String>,
    // Server-directed polling metadata. These may change over the device
    // lifetime without changing the continuity identity above.
    pub poll_expires_at: Option<String>,
    pub poll_after_seconds: Option<u64>,
    // Approved-device authorization. This may be removed or invalidated
    // without erasing device_id or enrollment_poll_token.
    pub device_credential: Option<String>,
    pub credential_serial: Option<String>,
}

impl PersistedDirectoryAuth {
    /// A copy of the enrollment.
    pub fn duplicate(&self) -> (r: Self)
        ensures
            r == *self,
    {
        PersistedDirectoryAuth {
            version: self.version,
            rustdesk_id: self.rustdesk_id.clone(),
            device_public_key: self.device_public_key.clone(),
            status: self.status,
            device_id: copied_text(&self.device_id),
            enrollment_poll_token: copied_text(&self.enrollment_poll_token),
            poll_expires_at: copied_text(&self.poll_expires_at),
            poll_after_seconds: self.poll_after_seconds,
            device_credential: copied_text(&self.device_credential),
            credential_serial: copied_text(&self.credential_serial),
        }
    }
}

/// Why a stored enrollment is not taken.
#[derive(Debug)]
pub enum PersistedAuthError {
    EmptyFile(String),
    UnsupportedVersion(u32),
    DifferentRustdeskId,
    DifferentDeviceKey,
    MissingDeviceId,
    MissingPollToken,
    MissingCredential,
    MissingCredentialSerial,
}

impl PersistedAuthError {
    pub open spec fn words(self) -> Seq<char> {
        match self {
            PersistedAuthError::EmptyFile(path) => {
                "Protected directory state file is empty: '"@ + path@ + "'"@
            },
            PersistedAuthError::UnsupportedVersion(version) => {
                "Unsupported directory state schema version: "@ + decimal(version as nat)
            },
            PersistedAuthError::DifferentRustdeskId => {
                "Protected directory state belongs to a different RustDesk ID"@
            },
            PersistedAuthError::DifferentDeviceKey => {
                "Protected directory state belongs to a different device key"@
            },
            PersistedAuthError::MissingDeviceId => {
                "Protected directory state is missing device continuity ID"@
            },
            PersistedAuthError::MissingPollToken => {
                "Protected directory state is missing enrollment continuity token"@
            },
            PersistedAuthError::MissingCredential => {
                "Approved directory state is missing device credential"@
            },
            PersistedAuthError::MissingCredentialSerial => {
                "Approved directory state is missing credential serial"@
            },
        }
    }

    /// Describes the error in one line.
    pub fn text(&self) -> (r: String)
        ensures
            r@ == self.words(),
    {
        match self {
            PersistedAuthError::EmptyFile(path) => joined(
                "Protected directory state file is empty: '",
                path.as_str(),
            ).concat("'"),
            PersistedAuthError::UnsupportedVersion(version) => joined(
                "Unsupported directory state schema version: ",
                decimal_text(*version as u128).as_str(),
            ),
            PersistedAuthError::DifferentRustdeskId => {
                "Protected directory state belongs to a different RustDesk ID".to_owned()
            },
            PersistedAuthError::DifferentDeviceKey => {
                "Protected directory state belongs to a different device key".to_owned()
            },
            PersistedAuthError::MissingDeviceId => {
                "Protected directory state is missing device continuity ID".to_owned()
            },
            PersistedAuthError::MissingPollToken => {
                "Protected directory state is missing enrollment continuity token".to_owned()
            },
            PersistedAuthError::MissingCredential => {
                "Approved directory state is missing device credential".to_owned()
            },
            PersistedAuthError::MissingCredentialSerial => {
                "Approved directory state is missing credential serial".to_owned()
            },
        }
    }
}

/// `Ok` where nothing is wrong, otherwise what is.
pub open spec fn verdict<E>(fault: Option<E>) -> Result<(), E> {
    match fault {
        None => Ok(()),
        Some(error) => Err(error),
    }
}

/// The first thing wrong with a stored enrollment on the device `identity`.
pub open spec fn identity_fault(
    state: PersistedDirectoryAuth,
    identity: DirectoryIdentity,
) -> Option<PersistedAuthError> {
    if state.rustdesk_id@ != identity.rustdesk_id@ {
        Some(PersistedAuthError::DifferentRustdeskId)
    } else if state.device_public_key@ != identity.device_public_key@ {
        Some(PersistedAuthError::DifferentDeviceKey)
    } else if state.status != PersistedEnrollmentStatus::NotEnrolled && blank(
        text_or_empty(state.device_id),
    ) {
        Some(PersistedAuthError::MissingDeviceId)
    } else if state.status != PersistedEnrollmentStatus::NotEnrolled && text_or_empty(
        state.enrollment_poll_token,
    ).len() == 0 {
        Some(PersistedAuthError::MissingPollToken)
    } else if state.status == PersistedEnrollmentStatus::Approved && text_or_empty(
        state.device_credential,
    ).len() == 0 {
        Some(PersistedAuthError::MissingCredential)
    } else if state.status == PersistedEnrollmentStatus::Approved && blank(
        text_or_empty(state.credential_serial),
    ) {
        Some(PersistedAuthError::MissingCredentialSerial)
    } else {
        None
    }
}

/// Holds a stored enrollment to the device it was made for and to its own status.
pub fn validate_persisted_auth_identity(
    state: &PersistedDirectoryAuth,
    identity: &DirectoryIdentity,
) -> (r: Result<(), PersistedAuthError>)
    ensures
        r == verdict(identity_fault(*state, *identity)),
{
    if state.rustdesk_id != identity.rustdesk_id {
        return Err(PersistedAuthError::DifferentRustdeskId);
    }
    if state.device_public_key != identity.device_public_key {
        return Err(PersistedAuthError::DifferentDeviceKey);
    }
    match state.status {
        PersistedEnrollmentStatus::NotEnrolled => {},
        PersistedEnrollmentStatus::Pending
        | PersistedEnrollmentStatus::Approved
        | PersistedEnrollmentStatus::Denied
        | PersistedEnrollmentStatus::Blocked
        | PersistedEnrollmentStatus::Revoked => {
            if is_blank(borrowed_or_empty(&state.device_id)) {
                return Err(PersistedAuthError::MissingDeviceId);
            }
            if borrowed_or_empty(&state.enrollment_poll_token).is_empty() {
                return Err(PersistedAuthError::MissingPollToken);
            }
        },
    }
    if state.status == PersistedEnrollmentStatus::Approved {
        if borrowed_or_empty(&state.device_credential).is_empty() {
            return Err(PersistedAuthError::MissingCredential);
        }
        if is_blank(borrowed_or_empty(&state.credential_serial)) {
            return Err(PersistedAuthError::MissingCredentialSerial);
        }
    }
    Ok(())
}

/// Holds a decoded enrollment to the schema that is understood.
pub fn require_schema_version(state: PersistedDirectoryAuth) -> (r: Result<
    PersistedDirectoryAuth,
    PersistedAuthError,
>)
    ensures
        r == (if state.version == DIRECTORY_STATE_SCHEMA_VERSION {
            Ok(state)
        } else {
            Err(PersistedAuthError::UnsupportedVersion(state.version))
        }),
{
    if state.version != DIRECTORY_STATE_SCHEMA_VERSION {
        return Err(PersistedAuthError::UnsupportedVersion(state.version));
    }
    Ok(state)
}

/// A protected state file that holds no bytes is an error, not an absent state.
pub fn require_protected_bytes(protected: &Vec<u8>, path: &str) -> (r: Result<
    (),
    PersistedAuthError,
>)
    ensures
        r is Ok <==> protected@.len() > 0,
        r matches Err(error) ==> error matches PersistedAuthError::EmptyFile(named) && named@
            == path@,
{
    if protected.len() == 0 {
        return Err(PersistedAuthError::EmptyFile(path.to_owned()));
    }
    Ok(())
}

/// The runtime state that a stored status starts with.
pub open spec fn runtime_state_of(status: PersistedEnrollmentStatus) -> DirectoryState {
    match status {
        PersistedEnrollmentStatus::NotEnrolled => DirectoryState::NotEnrolled,
        PersistedEnrollmentStatus::Pending => DirectoryState::Pending,
        PersistedEnrollmentStatus::Approved => DirectoryState::Unavailable,
        PersistedEnrollmentStatus::Denied => DirectoryState::Denied,
        PersistedEnrollmentStatus::Blocked => DirectoryState::Blocked,
        PersistedEnrollmentStatus::Revoked => DirectoryState::Revoked,
    }
}

/// The runtime state that a stored status starts with. An approved credential is
/// not Ready until the server validates it for this exact device and serial.
pub fn runtime_state_from_persisted_status(status: &PersistedEnrollmentStatus) -> (r:
    DirectoryState)
    ensures
        r == runtime_state_of(*status),
{
    match status {
        PersistedEnrollmentStatus::NotEnrolled => DirectoryState::NotEnrolled,
        PersistedEnrollmentStatus::Pending => DirectoryState::Pending,
        PersistedEnrollmentStatus::Approved => DirectoryState::Unavailable,
        PersistedEnrollmentStatus::Denied => DirectoryState::Denied,
        PersistedEnrollmentStatus::Blocked => DirectoryState::Blocked,
        PersistedEnrollmentStatus::Revoked => DirectoryState::Revoked,
    }
}

/// The server has turned the device away.
pub open spec fn turned_away(status: PersistedEnrollmentStatus) -> bool {
    ||| status == PersistedEnrollmentStatus::Denied
    ||| status == PersistedEnrollmentStatus::Blocked
    ||| status == PersistedEnrollmentStatus::Revoked
}

/// Whether the server has turned the device away.
pub fn is_turned_away(status: PersistedEnrollmentStatus) -> (r: bool)
    ensures
        r == turned_away(status),
{
    matches!(
        status,
        PersistedEnrollmentStatus::Denied | PersistedEnrollmentStatus::Blocked
            | PersistedEnrollmentStatus::Revoked
    )
}

/// The status that the server's word for it denotes.
pub open spec fn device_status(word: Seq<char>) -> Option<PersistedEnrollmentStatus> {
    if word == "pending"@ {
        Some(PersistedEnrollmentStatus::Pending)
    } else if word == "approved"@ {
        Some(PersistedEnrollmentStatus::Approved)
    } else if word == "denied"@ {
        Some(PersistedEnrollmentStatus::Denied)
    } else if word == "blocked"@ {
        Some(PersistedEnrollmentStatus::Blocked)
    } else if word == "revoked"@ {
        Some(PersistedEnrollmentStatus::Revoked)
    } else {
        None
    }
}

/// Reads the server's word for a device status.
pub fn parse_device_status(word: &str) -> (r: Option<PersistedEnrollmentStatus>)
    ensures
        r == device_status(word@),
{
    if same_text(word, "pending") {
        Some(PersistedEnrollmentStatus::Pending)
    } else if same_text(word, "approved") {
        Some(PersistedEnrollmentStatus::Approved)
    } else if same_text(word, "denied") {
        Some(PersistedEnrollmentStatus::Denied)
    } else if same_text(word, "blocked") {
        Some(PersistedEnrollmentStatus::Blocked)
    } else if same_text(word, "revoked") {
        Some(PersistedEnrollmentStatus::Revoked)
    } else {
        None
    }
}

/// Why an enrollment status answer is not taken.
#[derive(Debug, Clone, Copy, PartialEq, Eq, Structural)]
pub enum EnrollmentStatusError {
    MissingDeviceId,
    DifferentDevice,
    DifferentRustdeskId,
    MissingCredential,
    MissingCredentialSerial,
    UnknownStatus,
}

impl EnrollmentStatusError {
    pub open spec fn words(self) -> Seq<char> {
        match self {
            EnrollmentStatusError::MissingDeviceId => {
                "Protected directory state is missing device continuity ID"@
            },
            EnrollmentStatusError::DifferentDevice => {
                "Enrollment status response belongs to a different device"@
            },
            EnrollmentStatusError::DifferentRustdeskId => {
                "Enrollment status response RustDesk ID does not match this device"@
            },
            EnrollmentStatusError::MissingCredential => {
                "Approved enrollment status is missing device credential"@
            },
            EnrollmentStatusError::MissingCredentialSerial => {
                "Approved enrollment status is missing credential serial"@
            },
            EnrollmentStatusError::UnknownStatus => {
                "Enrollment status response returned an unknown device status"@
            },
        }
    }

    /// Describes the error in one line.
    pub fn text(&self) -> (r: &'static str)
        ensures
            r@ == self.words(),
    {
        match self {
            EnrollmentStatusError::MissingDeviceId => {
                "Protected directory state is missing device continuity ID"
            },
            EnrollmentStatusError::DifferentDevice => {
                "Enrollment status response belongs to a different device"
            },
            EnrollmentStatusError::DifferentRustdeskId => {
                "Enrollment status response RustDesk ID does not match this device"
            },
            EnrollmentStatusError::MissingCredential => {
                "Approved enrollment status is missing device credential"
            },
            EnrollmentStatusError::MissingCredentialSerial => {
                "Approved enrollment status is missing credential serial"
            },
            EnrollmentStatusError::UnknownStatus => {
                "Enrollment status response returned an unknown device status"
            },
        }
    }
}

/// The first thing wrong with a status answer to the enrollment `state`.
pub open spec fn status_fault(
    state: PersistedDirectoryAuth,
    response: EnrollmentStatusResponse,
) -> Option<EnrollmentStatusError> {
    if text_or_empty(state.device_id).len() == 0 {
        Some(EnrollmentStatusError::MissingDeviceId)
    } else if response.device_id@ != text_or_empty(state.device_id) {
        Some(EnrollmentStatusError::DifferentDevice)
    } else if response.rustdesk_id@ != state.rustdesk_id@ {
        Some(EnrollmentStatusError::DifferentRustdeskId)
    } else if device_status(response.status@) is None {
        Some(EnrollmentStatusError::UnknownStatus)
    } else if device_status(response.status@) == Some(PersistedEnrollmentStatus::Approved)
        && text_or_empty(response.credential).len() == 0 {
        Some(EnrollmentStatusError::MissingCredential)
    } else if device_status(response.status@) == Some(PersistedEnrollmentStatus::Approved) && blank(
        text_or_empty(response.credential_serial),
    ) {
        Some(EnrollmentStatusError::MissingCredentialSerial)
    } else {
        None
    }
}

/// Holds a status answer to the enrollment it is about.
pub fn validate_enrollment_status_response(
    state: &PersistedDirectoryAuth,
    response: &EnrollmentStatusResponse,
) -> (r: Result<(), EnrollmentStatusError>)
    ensures
        r == verdict(status_fault(*state, *response)),
{
    let expected_device_id = borrowed_or_empty(&state.device_id);
    if expected_device_id.is_empty() {
        return Err(EnrollmentStatusError::MissingDeviceId);
    }
    if !same_text(response.device_id.as_str(), expected_device_id) {
        return Err(EnrollmentStatusError::DifferentDevice);
    }
    if response.rustdesk_id != state.rustdesk_id {
        return Err(EnrollmentStatusError::DifferentRustdeskId);
    }
    match parse_device_status(response.status.as_str()) {
        Some(PersistedEnrollmentStatus::Approved) => {
            if borrowed_or_empty(&response.credential).is_empty() {
                return Err(EnrollmentStatusError::MissingCredential);
            }
            if is_blank(borrowed_or_empty(&response.credential_serial)) {
                return Err(EnrollmentStatusError::MissingCredentialSerial);
            }
        },
        Some(_) => {},
        None => {
            return Err(EnrollmentStatusError::UnknownStatus);
        },
    }
    Ok(())
}

/// The enrollment after a status answer that is taken: the answer's status and
/// polling metadata, its credential where it approves and none otherwise, and the
/// continuity identity as it was.
pub open spec fn status_applied(
    state: PersistedDirectoryAuth,
    response: EnrollmentStatusResponse,
) -> PersistedDirectoryAuth {
    let status = device_status(response.status@)->0;
    let approved = status == PersistedEnrollmentStatus::Approved;
    PersistedDirectoryAuth {
        status,
        poll_expires_at: if response.poll_expires_at is Some {
            response.poll_expires_at
        } else {
            state.poll_expires_at
        },
        poll_after_seconds: Some(response.poll_after_seconds),
        device_credential: if approved {
            response.credential
        } else {
            None
        },
        credential_serial: if approved {
            response.credential_serial
        } else {
            None
        },
        ..state
    }
}

/// Applies a status answer to the enrollment, where it is taken.
pub fn state_from_enrollment_status(
    state: PersistedDirectoryAuth,
    response: EnrollmentStatusResponse,
) -> (r: Result<PersistedDirectoryAuth, EnrollmentStatusError>)
    ensures
        r == (match status_fault(state, response) {
            Some(error) => Err(error),
            None => Ok(status_applied(state, response)),
        }),
{
    if let Err(error) = validate_enrollment_status_response(&state, &response) {
        return Err(error);
    }
    let poll_expires_at = match response.poll_expires_at {
        Some(expires_at) => Some(expires_at),
        None => state.poll_expires_at,
    };
    let status = match parse_device_status(response.status.as_str()) {
        Some(status) => status,
        None => {
            return Err(EnrollmentStatusError::UnknownStatus);
        },
    };
    let (device_credential, credential_serial) = match status {
        PersistedEnrollmentStatus::Approved => (response.credential, response.credential_serial),
        _ => (None, None),
    };
    Ok(
        PersistedDirectoryAuth {
            version: state.version,
            rustdesk_id: state.rustdesk_id,
            device_public_key: state.device_public_key,
            status,
            device_id: state.device_id,
            enrollment_poll_token: state.enrollment_poll_token,
            poll_expires_at,
            poll_after_seconds: Some(response.poll_after_seconds),
            device_credential,
            credential_serial,
        },
    )
}

/// Why a device identity answer is not taken.
#[derive(Debug, Clone, Copy, PartialEq, Eq, Structural)]
pub enum DeviceMeError {
    MissingDeviceId,
    MissingCredentialSerial,
    DifferentDevice,
    DifferentRustdeskId,
    NotApproved,
    DifferentCredentialSerial,
}

impl DeviceMeError {
    pub open spec fn words(self) -> Seq<char> {
        match self {
            DeviceMeError::MissingDeviceId => {
                "Protected directory state is missing device continuity ID"@
            },
            DeviceMeError::MissingCredentialSerial => {
                "Protected directory state is missing credential serial"@
            },
            DeviceMeError::DifferentDevice => {
                "Device identity response belongs to a different device"@
            },
            DeviceMeError::DifferentRustdeskId => {
                "Device identity response RustDesk ID does not match this device"@
            },
            DeviceMeError::NotApproved => "Device identity response is not approved"@,
            DeviceMeError::DifferentCredentialSerial => {
                "Device identity response credential serial does not match"@
            },
        }
    }

    /// Describes the error in one line.
    pub fn text(&self) -> (r: &'static str)
        ensures
            r@ == self.words(),
    {
        match self {
            DeviceMeError::MissingDeviceId => {
                "Protected directory state is missing device continuity ID"
            },
            DeviceMeError::MissingCredentialSerial => {
                "Protected directory state is missing credential serial"
            },
            DeviceMeError::DifferentDevice => {
                "Device identity response belongs to a different device"
            },
            DeviceMeError::DifferentRustdeskId => {
                "Device identity response RustDesk ID does not match this device"
            },
            DeviceMeError::NotApproved => "Device identity response is not approved",
            DeviceMeError::DifferentCredentialSerial => {
                "Device identity response credential serial does not match"
            },
        }
    }
}

/// The first thing wrong with a device identity answer to the enrollment `state`.
pub open spec fn device_me_fault(
    state: PersistedDirectoryAuth,
    response: DeviceMeResponse,
) -> Option<DeviceMeError> {
    if text_or_empty(state.device_id).len() == 0 {
        Some(DeviceMeError::MissingDeviceId)
    } else if text_or_empty(state.credential_serial).len() == 0 {
        Some(DeviceMeError::MissingCredentialSerial)
    } else if response.id@ != text_or_empty(state.device_id) {
        Some(DeviceMeError::DifferentDevice)
    } else if response.rustdesk_id@ != state.rustdesk_id@ {
        Some(DeviceMeError::DifferentRustdeskId)
    } else if response.status@ != "approved"@ {
        Some(DeviceMeError::NotApproved)
    } else if response.credential_serial@ != text_or_empty(state.credential_serial) {
        Some(DeviceMeError::DifferentCredentialSerial)
    } else {
        None
    }
}

/// Holds a device identity answer to this exact device and credential serial.
pub fn validate_device_me_response(
    state: &PersistedDirectoryAuth,
    response: &DeviceMeResponse,
) -> (r: Result<(), DeviceMeError>)
    ensures
        r == verdict(device_me_fault(*state, *response)),
{
    let expected_device_id = borrowed_or_empty(&state.device_id);
    let expected_serial = borrowed_or_empty(&state.credential_serial);
    if expected_device_id.is_empty() {
        return Err(DeviceMeError::MissingDeviceId);
    }
    if expected_serial.is_empty() {
        return Err(DeviceMeError::MissingCredentialSerial);
    }
    if !same_text(response.id.as_str(), expected_device_id) {
        return Err(DeviceMeError::DifferentDevice);
    }
    if response.rustdesk_id != state.rustdesk_id {
        return Err(DeviceMeError::DifferentRustdeskId);
    }
    if !same_text(response.status.as_str(), "approved") {
        return Err(DeviceMeError::NotApproved);
    }
    if !same_text(response.credential_serial.as_str(), expected_serial) {
        return Err(DeviceMeError::DifferentCredentialSerial);
    }
    Ok(())
}

/// Why an enrollment answer is not taken.
#[derive(Debug, Clone, Copy, PartialEq, Eq, Structural)]
pub enum EnrollmentResponseError {
    UnexpectedResult,
    UnexpectedStatus,
    DifferentRustdeskId,
    DifferentHostname,
    DifferentFriendlyName,
    MissingDeviceId,
    MissingPollToken,
}

impl EnrollmentResponseError {
    pub open spec fn words(self) -> Seq<char> {
        match self {
            EnrollmentResponseError::UnexpectedResult => {
                "Enrollment response returned unexpected result"@
            },
            EnrollmentResponseError::UnexpectedStatus => {
                "Enrollment response returned unexpected device status"@
            },
            EnrollmentResponseError::DifferentRustdeskId => {
                "Enrollment response RustDesk ID does not match this device"@
            },
            EnrollmentResponseError::DifferentHostname => {
                "Enrollment response hostname does not match this device"@
            },
            EnrollmentResponseError::DifferentFriendlyName => {
                "Enrollment response friendly name does not match this device"@
            },
            EnrollmentResponseError::MissingDeviceId => {
                "Enrollment response is missing device continuity ID"@
            },
            EnrollmentResponseError::MissingPollToken => {
                "Enrollment response is missing continuity poll token"@
            },
        }
    }

    /// Describes the error in one line.
    pub fn text(&self) -> (r: &'static str)
        ensures
            r@ == self.words(),
    {
        match self {
            EnrollmentResponseError::UnexpectedResult => {
                "Enrollment response returned unexpected result"
            },
            EnrollmentResponseError::UnexpectedStatus => {
                "Enrollment response returned unexpected device status"
            },
            EnrollmentResponseError::DifferentRustdeskId => {
                "Enrollment response RustDesk ID does not match this device"
            },
            EnrollmentResponseError::DifferentHostname => {
                "Enrollment response hostname does not match this device"
            },
            EnrollmentResponseError::DifferentFriendlyName => {
                "Enrollment response friendly name does not match this device"
            },
            EnrollmentResponseError::MissingDeviceId => {
                "Enrollment response is missing device continuity ID"
            },
            EnrollmentResponseError::MissingPollToken => {
                "Enrollment response is missing continuity poll token"
            },
        }
    }
}

/// The first thing wrong with an enrollment answer to the device `identity`.
pub open spec fn enrollment_fault(
    identity: DirectoryIdentity,
    response: EnrollmentResponse,
) -> Option<EnrollmentResponseError> {
    if response.result@ != "accepted_pending"@ {
        Some(EnrollmentResponseError::UnexpectedResult)
    } else if response.device.status@ != "pending"@ {
        Some(EnrollmentResponseError::UnexpectedStatus)
    } else if response.device.rustdesk_id@ != identity.rustdesk_id@ {
        Some(EnrollmentResponseError::DifferentRustdeskId)
    } else if response.device.hostname@ != identity.hostname@ {
        Some(EnrollmentResponseError::DifferentHostname)
    } else if response.device.friendly_name is None || response.device.friendly_name->0@
        != identity.friendly_name@ {
        Some(EnrollmentResponseError::DifferentFriendlyName)
    } else if blank(response.device.id@) {
        Some(EnrollmentResponseError::MissingDeviceId)
    } else if response.poll_token@.len() == 0 {
        Some(EnrollmentResponseError::MissingPollToken)
    } else {
        None
    }
}

/// The pending enrollment that an enrollment answer starts.
pub open spec fn pending_enrollment(
    identity: DirectoryIdentity,
    response: EnrollmentResponse,
) -> PersistedDirectoryAuth {
    PersistedDirectoryAuth {
        version: DIRECTORY_STATE_SCHEMA_VERSION,
        rustdesk_id: identity.rustdesk_id,
        device_public_key: identity.device_public_key,
        status: PersistedEnrollmentStatus::Pending,
        device_id: Some(response.device.id),
        enrollment_poll_token: Some(response.poll_token),
        poll_expires_at: Some(response.poll_expires_at),
        poll_after_seconds: Some(response.poll_after_seconds),
        device_credential: None,
        credential_serial: None,
    }
}

/// The pending enrollment of this device, where the answer to it is taken.
pub fn pending_state_from_enrollment(
    identity: &DirectoryIdentity,
    response: EnrollmentResponse,
) -> (r: Result<PersistedDirectoryAuth, EnrollmentResponseError>)
    ensures
        r == (match enrollment_fault(*identity, response) {
            Some(error) => Err(error),
            None => Ok(pending_enrollment(*identity, response)),
        }),
{
    if !same_text(response.result.as_str(), "accepted_pending") {
        return Err(EnrollmentResponseError::UnexpectedResult);
    }
    if !same_text(response.device.status.as_str(), "pending") {
        return Err(EnrollmentResponseError::UnexpectedStatus);
    }
    if response.device.rustdesk_id != identity.rustdesk_id {
        return Err(EnrollmentResponseError::DifferentRustdeskId);
    }
    if response.device.hostname != identity.hostname {
        return Err(EnrollmentResponseError::DifferentHostname);
    }
    let friendly_name_matches = match &response.device.friendly_name {
        Some(name) => *name == identity.friendly_name,
        None => false,
    };
    if !friendly_name_matches {
        return Err(EnrollmentResponseError::DifferentFriendlyName);
    }
    if is_blank(response.device.id.as_str()) {
        return Err(EnrollmentResponseError::MissingDeviceId);
    }
    if response.poll_token.as_str().is_empty() {
        return Err(EnrollmentResponseError::MissingPollToken);
    }
    Ok(
        PersistedDirectoryAuth {
            version: DIRECTORY_STATE_SCHEMA_VERSION,
            rustdesk_id: identity.rustdesk_id.clone(),
            device_public_key: identity.device_public_key.clone(),
            status: PersistedEnrollmentStatus::Pending,
            device_id: Some(response.device.id),
            enrollment_poll_token: Some(response.poll_token),
            poll_expires_at: Some(response.poll_expires_at),
            poll_after_seconds: Some(response.poll_after_seconds),
            device_credential: None,
            credential_serial: None,
        },
    )
}

/// The enrollment holds a credential that a request may carry.
pub open spec fn has_approved_credential(state: PersistedDirectoryAuth) -> bool {
    state.status == PersistedEnrollmentStatus::Approved && text_or_empty(
        state.device_credential,
    ).len() > 0
}

/// The credential of an approved enrollment; protected routes need one.
pub fn approved_credential<'a>(
    state: &'a PersistedDirectoryAuth,
    operation: &'static str,
) -> (r: DirectoryApiResult<&'a str>)
    ensures
        has_approved_credential(*state) ==> r is Ok && r->Ok_0@ == text_or_empty(
            state.device_credential,
        ),
        !has_approved_credential(*state) ==> r == Err::<&'a str, DirectoryApiError>(
            plain_error(operation, DirectoryApiErrorKind::Configuration),
        ),
{
    if state.status != PersistedEnrollmentStatus::Approved {
        return Err(DirectoryApiError::configuration(operation));
    }
    let credential = borrowed_or_empty(&state.device_credential);
    if credential.is_empty() {
        return Err(DirectoryApiError::configuration(operation));
    }
    Ok(credential)
}

/// The enrollment holds the continuity identity that a poll needs.
pub open spec fn has_continuity(state: PersistedDirectoryAuth) -> bool {
    !blank(text_or_empty(state.device_id)) && text_or_empty(state.enrollment_poll_token).len() > 0
}

/// The continuity identity of an enrollment: its device id and poll token.
pub fn continuity_identity<'a>(
    state: &'a PersistedDirectoryAuth,
    operation: &'static str,
) -> (r: DirectoryApiResult<(&'a str, &'a str)>)
    ensures
        has_continuity(*state) ==> r is Ok && r->Ok_0.0@ == text_or_empty(state.device_id)
            && r->Ok_0.1@ == text_or_empty(state.enrollment_poll_token),
        !has_continuity(*state) ==> r == Err::<(&'a str, &'a str), DirectoryApiError>(
            plain_error(operation, DirectoryApiErrorKind::Configuration),
        ),
{
    let device_id = borrowed_or_empty(&state.device_id);
    if is_blank(device_id) {
        return Err(DirectoryApiError::configuration(operation));
    }
    let poll_token = borrowed_or_empty(&state.enrollment_poll_token);
    if poll_token.is_empty() {
        return Err(DirectoryApiError::configuration(operation));
    }
    Ok((device_id, poll_token))
}

/// No status answer touches the continuity identity: the device id, the poll
/// token, and the device the enrollment was made for all survive it.
pub proof fn law_status_keeps_continuity(
    state: PersistedDirectoryAuth,
    response: EnrollmentStatusResponse,
)
    ensures
        status_applied(state, response).device_id == state.device_id,
        status_applied(state, response).enrollment_poll_token == state.enrollment_poll_token,
        status_applied(state, response).rustdesk_id == state.rustdesk_id,
        status_applied(state, response).device_public_key == state.device_public_key,
        status_applied(state, response).version == state.version,
        has_continuity(status_applied(state, response)) <==> has_continuity(state),
{
}

/// After a status answer that is taken the enrollment has a credential exactly
/// where the answer approves the device: any other status removes it.
pub proof fn law_credential_only_while_approved(
    state: PersistedDirectoryAuth,
    response: EnrollmentStatusResponse,
)
    requires
        status_fault(state, response) is None,
    ensures
        has_approved_credential(status_applied(state, response)) <==> device_status(
            response.status@,
        ) == Some(PersistedEnrollmentStatus::Approved),
        status_applied(state, response).status != PersistedEnrollmentStatus::Approved
            ==> status_applied(state, response).device_credential is None && status_applied(
            state,
            response,
        ).credential_serial is None,
{
}

/// What a status answer leaves of a valid enrollment with its continuity identity
/// is valid again, so that what is stored is taken when it is read back.
pub proof fn law_status_keeps_validity(
    state: PersistedDirectoryAuth,
    identity: DirectoryIdentity,
    response: EnrollmentStatusResponse,
)
    requires
        identity_fault(state, identity) is None,
        has_continuity(state),
        status_fault(state, response) is None,
    ensures
        identity_fault(status_applied(state, response), identity) is None,
        status_applied(state, response).version == state.version,
{
}

/// A pending enrollment is valid on the device it was made for, has the schema
/// version that is understood and can be polled.
pub proof fn law_pending_enrollment_is_valid(
    identity: DirectoryIdentity,
    response: EnrollmentResponse,
)
    requires
        enrollment_fault(identity, response) is None,
    ensures
        identity_fault(pending_enrollment(identity, response), identity) is None,
        pending_enrollment(identity, response).version == DIRECTORY_STATE_SCHEMA_VERSION,
        has_continuity(pending_enrollment(identity, response)),
        !has_approved_credential(pending_enrollment(identity, response)),
{
}

/// No stored status starts the device as Ready, and an approved one starts it as
/// Unavailable.
pub proof fn law_restored_state_is_never_ready(status: PersistedEnrollmentStatus)
    ensures
        runtime_state_of(status) != DirectoryState::Ready,
        runtime_state_of(status) == DirectoryState::Unavailable <==> status
            == PersistedEnrollmentStatus::Approved,
{
}

/// A stored enrollment is taken exactly where it was made for this device, by its RustDesk id
/// and its key, and has what its status needs: any but a missing enrollment a device id and a
/// poll token, and an approved one a credential and its serial as well.
pub proof fn law_stored_enrollment_is_of_this_device(
    state: PersistedDirectoryAuth,
    identity: DirectoryIdentity,
    r: Result<(), PersistedAuthError>,
)
    requires
        call_ensures(validate_persisted_auth_identity, (&state, &identity), r),
    ensures
        r is Ok <==> {
            &&& state.rustdesk_id@ == identity.rustdesk_id@
            &&& state.device_public_key@ == identity.device_public_key@
            &&& state.status != PersistedEnrollmentStatus::NotEnrolled ==> {
                &&& state.device_id matches Some(id)
                &&& trimmed(id@).len() > 0
                &&& state.enrollment_poll_token matches Some(token)
                &&& token@.len() > 0
            }
            &&& state.status == PersistedEnrollmentStatus::Approved ==> {
                &&& state.device_credential matches Some(credential)
                &&& credential@.len() > 0
                &&& state.credential_serial matches Some(serial)
                &&& trimmed(serial@).len() > 0
            }
        },
        r matches Err(error) ==> match error {
            PersistedAuthError::DifferentRustdeskId => state.rustdesk_id@ != identity.rustdesk_id@,
            PersistedAuthError::DifferentDeviceKey => state.device_public_key@
                != identity.device_public_key@ && state.rustdesk_id@ == identity.rustdesk_id@,
            PersistedAuthError::MissingDeviceId => state.device_id is None || trimmed(
                state.device_id->0@,
            ).len() == 0,
            PersistedAuthError::MissingPollToken => state.enrollment_poll_token is None
                || state.enrollment_poll_token->0@.len() == 0,
            PersistedAuthError::MissingCredential => state.device_credential is None
                || state.device_credential->0@.len() == 0,
            PersistedAuthError::MissingCredentialSerial => state.credential_serial is None
                || trimmed(state.credential_serial->0@).len() == 0,
            PersistedAuthError::EmptyFile(_) | PersistedAuthError::UnsupportedVersion(_) => false,
        },
{
    lemma_blank_iff_trimmed_empty(text_or_empty(state.device_id));
    lemma_blank_iff_trimmed_empty(text_or_empty(state.credential_serial));
    assert(trimmed(Seq::<char>::empty()).len() == 0) by {
        lemma_blank_iff_trimmed_empty(Seq::<char>::empty());
    }
}

/// A state of the first schema is taken as it is, and one of another names its version. A file
/// without bytes is an error that names the file.
pub proof fn law_only_the_first_schema_is_understood(
    state: PersistedDirectoryAuth,
    decoded: Result<PersistedDirectoryAuth, PersistedAuthError>,
    bytes: Vec<u8>,
    path: &str,
    read: Result<(), PersistedAuthError>,
)
    requires
        call_ensures(require_schema_version, (state,), decoded),
        call_ensures(require_protected_bytes, (&bytes, path), read),
    ensures
        state.version == 1 ==> decoded == Ok::<PersistedDirectoryAuth, PersistedAuthError>(state),
        state.version != 1 ==> decoded == Err::<PersistedDirectoryAuth, PersistedAuthError>(
            PersistedAuthError::UnsupportedVersion(state.version),
        ),
        bytes@.len() > 0 <==> read is Ok,
        read matches Err(error) ==> error matches PersistedAuthError::EmptyFile(named) && named@
            == path@,
{
}

/// The runtime state that a stored status starts with has its name, but for an approved one,
/// which is unavailable until it is confirmed. Denied, blocked and revoked devices, and no
/// others, were turned away.
pub proof fn law_stored_status_starts_its_own_state(
    status: PersistedEnrollmentStatus,
    state: DirectoryState,
    away: bool,
)
    requires
        call_ensures(runtime_state_from_persisted_status, (&status,), state),
        call_ensures(is_turned_away, (status,), away),
    ensures
        status == PersistedEnrollmentStatus::NotEnrolled <==> state == DirectoryState::NotEnrolled,
        status == PersistedEnrollmentStatus::Pending <==> state == DirectoryState::Pending,
        status == PersistedEnrollmentStatus::Approved <==> state == DirectoryState::Unavailable,
        status == PersistedEnrollmentStatus::Denied <==> state == DirectoryState::Denied,
        status == PersistedEnrollmentStatus::Blocked <==> state == DirectoryState::Blocked,
        status == PersistedEnrollmentStatus::Revoked <==> state == DirectoryState::Revoked,
        away <==> status == PersistedEnrollmentStatus::Denied || status
            == PersistedEnrollmentStatus::Blocked || status == PersistedEnrollmentStatus::Revoked,
        state == runtime_state_of(status),
        away == turned_away(status),
{
}

/// The server's word for a status denotes that status and no other, and any other word none.
pub proof fn law_status_words_denote_their_status(
    word: &str,
    r: Option<PersistedEnrollmentStatus>,
)
    requires
        call_ensures(parse_device_status, (word,), r),
    ensures
        word@ == "pending"@ <==> r == Some(PersistedEnrollmentStatus::Pending),
        word@ == "approved"@ <==> r == Some(PersistedEnrollmentStatus::Approved),
        word@ == "denied"@ <==> r == Some(PersistedEnrollmentStatus::Denied),
        word@ == "blocked"@ <==> r == Some(PersistedEnrollmentStatus::Blocked),
        word@ == "revoked"@ <==> r == Some(PersistedEnrollmentStatus::Revoked),
        r != Some(PersistedEnrollmentStatus::NotEnrolled),
        r == device_status(word@),
{
    lemma_status_words_differ();
}

proof fn lemma_status_words_differ()
    ensures
        "pending"@ != "approved"@,
        "pending"@ != "denied"@,
        "pending"@ != "blocked"@,
        "pending"@ != "revoked"@,
        "approved"@ != "denied"@,
        "approved"@ != "blocked"@,
        "approved"@ != "revoked"@,
        "denied"@ != "blocked"@,
        "denied"@ != "revoked"@,
        "blocked"@ != "revoked"@,
{
    reveal_strlit("pending");
    reveal_strlit("approved");
    reveal_strlit("denied");
    reveal_strlit("blocked");
    reveal_strlit("revoked");
    assert("pending"@[0] == 'p');
    assert("approved"@[0] == 'a');
    assert("denied"@[0] == 'd');
    assert("blocked"@[0] == 'b');
    assert("revoked"@[0] == 'r');
}

/// A status answer is taken exactly where it is about this device, by its id and its RustDesk
/// id, says a status that is known and, where that is approval, comes with a credential and
/// its serial.
pub proof fn law_status_answer_is_about_this_device(
    state: PersistedDirectoryAuth,
    response: EnrollmentStatusResponse,
    r: Result<(), EnrollmentStatusError>,
)
    requires
        call_ensures(validate_enrollment_status_response, (&state, &response), r),
    ensures
        r is Ok <==> {
            &&& state.device_id matches Some(id)
            &&& id@.len() > 0
            &&& response.device_id@ == id@
            &&& response.rustdesk_id@ == state.rustdesk_id@
            &&& {
                ||| response.status@ == "pending"@
                ||| response.status@ == "denied"@
                ||| response.status@ == "blocked"@
                ||| response.status@ == "revoked"@
                ||| {
                    &&& response.status@ == "approved"@
                    &&& response.credential matches Some(credential)
                    &&& credential@.len() > 0
                    &&& response.credential_serial matches Some(serial)
                    &&& trimmed(serial@).len() > 0
                }
            }
        },
        r is Ok <==> status_fault(state, response) is None,
        r matches Err(error) ==> match error {
            EnrollmentStatusError::MissingDeviceId => state.device_id is None
                || state.device_id->0@.len() == 0,
            EnrollmentStatusError::DifferentDevice => state.device_id is Some
                && response.device_id@ != state.device_id->0@,
            EnrollmentStatusError::DifferentRustdeskId => response.rustdesk_id@
                != state.rustdesk_id@,
            EnrollmentStatusError::MissingCredential => response.status@ == "approved"@ && (
            response.credential is None || response.credential->0@.len() == 0),
            EnrollmentStatusError::MissingCredentialSerial => response.status@ == "approved"@ && (
            response.credential_serial is None || trimmed(response.credential_serial->0@).len()
                == 0),
            EnrollmentStatusError::UnknownStatus => response.status@ != "pending"@
                && response.status@ != "approved"@ && response.status@ != "denied"@
                && response.status@ != "blocked"@ && response.status@ != "revoked"@,
        },
{
    lemma_status_words_differ();
    lemma_blank_iff_trimmed_empty(text_or_empty(response.credential_serial));
}

/// A status answer that is taken gives the enrollment its status, its next look and, with an
/// approval, its credential and serial; the end of polling is the answer's, and the old one
/// where the answer has none. The rest of the enrollment stays, and without an approval no
/// credential does.
pub proof fn law_status_answer_is_applied(
    state: PersistedDirectoryAuth,
    response: EnrollmentStatusResponse,
    word: &str,
    status: PersistedEnrollmentStatus,
    r: Result<PersistedDirectoryAuth, EnrollmentStatusError>,
)
    requires
        call_ensures(state_from_enrollment_status, (state, response), r),
        word@ == response.status@,
        call_ensures(parse_device_status, (word,), Some(status)),
    ensures
        r is Ok <==> status_fault(state, response) is None,
        r matches Err(error) ==> status_fault(state, response) == Some(error),
        r matches Ok(updated) ==> {
            &&& updated.status == status
            &&& updated.version == state.version
            &&& updated.rustdesk_id == state.rustdesk_id
            &&& updated.device_public_key == state.device_public_key
            &&& updated.device_id == state.device_id
            &&& updated.enrollment_poll_token == state.enrollment_poll_token
            &&& updated.poll_after_seconds == Some(response.poll_after_seconds)
            &&& response.poll_expires_at is Some ==> updated.poll_expires_at
                == response.poll_expires_at
            &&& response.poll_expires_at is None ==> updated.poll_expires_at
                == state.poll_expires_at
            &&& status == PersistedEnrollmentStatus::Approved ==> updated.device_credential
                == response.credential && updated.credential_serial == response.credential_serial
            &&& status != PersistedEnrollmentStatus::Approved ==> updated.device_credential is None
                && updated.credential_serial is None
        },
{
}

/// The answer that confirms a credential is held to the device and the serial that it was
/// issued to; each other answer is refused for what is wrong with it.
pub proof fn law_confirmation_is_held_to_device_and_serial(
    state: PersistedDirectoryAuth,
    response: DeviceMeResponse,
    r: Result<(), DeviceMeError>,
)
    requires
        call_ensures(validate_device_me_response, (&state, &response), r),
    ensures
        r is Ok <==> {
            &&& state.device_id matches Some(id)
            &&& id@.len() > 0
            &&& response.id@ == id@
            &&& state.credential_serial matches Some(serial)
            &&& serial@.len() > 0
            &&& response.credential_serial@ == serial@
            &&& response.rustdesk_id@ == state.rustdesk_id@
            &&& response.status@ == "approved"@
        },
        r is Ok <==> device_me_fault(state, response) is None,
        r matches Err(error) ==> match error {
            DeviceMeError::MissingDeviceId => state.device_id is None || state.device_id->0@.len()
                == 0,
            DeviceMeError::MissingCredentialSerial => state.credential_serial is None
                || state.credential_serial->0@.len() == 0,
            DeviceMeError::DifferentDevice => state.device_id is Some && response.id@
                != state.device_id->0@,
            DeviceMeError::DifferentRustdeskId => response.rustdesk_id@ != state.rustdesk_id@,
            DeviceMeError::NotApproved => response.status@ != "approved"@,
            DeviceMeError::DifferentCredentialSerial => state.credential_serial is Some
                && response.credential_serial@ != state.credential_serial->0@,
        },
{
}

/// The answer to an enrollment is taken exactly where the enrollment was accepted and is
/// pending, is of this device by id, host name and name, and comes with a device id and a poll
/// token. What is stored then is a pending enrollment with that id, that token and the
/// answer's times, for this device, and without a credential.
pub proof fn law_accepted_enrollment_is_pending(
    identity: DirectoryIdentity,
    response: EnrollmentResponse,
    r: Result<PersistedDirectoryAuth, EnrollmentResponseError>,
)
    requires
        call_ensures(pending_state_from_enrollment, (&identity, response), r),
    ensures
        r is Ok <==> {
            &&& response.result@ == "accepted_pending"@
            &&& response.device.status@ == "pending"@
            &&& response.device.rustdesk_id@ == identity.rustdesk_id@
            &&& response.device.hostname@ == identity.hostname@
            &&& response.device.friendly_name matches Some(name)
            &&& name@ == identity.friendly_name@
            &&& trimmed(response.device.id@).len() > 0
            &&& response.poll_token@.len() > 0
        },
        r is Ok <==> enrollment_fault(identity, response) is None,
        r matches Ok(state) ==> {
            &&& state == pending_enrollment(identity, response)
            &&& state.version == 1
            &&& state.rustdesk_id@ == identity.rustdesk_id@
            &&& state.device_public_key@ == identity.device_public_key@
            &&& state.status == PersistedEnrollmentStatus::Pending
            &&& state.device_id is Some
            &&& state.device_id->0@ == response.device.id@
            &&& state.enrollment_poll_token is Some
            &&& state.enrollment_poll_token->0@ == response.poll_token@
            &&& state.poll_expires_at is Some
            &&& state.poll_expires_at->0@ == response.poll_expires_at@
            &&& state.poll_after_seconds == Some(response.poll_after_seconds)
            &&& state.device_credential is None
            &&& state.credential_serial is None
        },
        r matches Err(error) ==> match error {
            EnrollmentResponseError::UnexpectedResult => response.result@ != "accepted_pending"@,
            EnrollmentResponseError::UnexpectedStatus => response.device.status@ != "pending"@,
            EnrollmentResponseError::DifferentRustdeskId => response.device.rustdesk_id@
                != identity.rustdesk_id@,
            EnrollmentResponseError::DifferentHostname => response.device.hostname@
                != identity.hostname@,
            EnrollmentResponseError::DifferentFriendlyName => response.device.friendly_name is None
                || response.device.friendly_name->0@ != identity.friendly_name@,
            EnrollmentResponseError::MissingDeviceId => trimmed(response.device.id@).len() == 0,
            EnrollmentResponseError::MissingPollToken => response.poll_token@.len() == 0,
        },
{
    lemma_blank_iff_trimmed_empty(response.device.id@);
}

/// A credential is had from an approved enrollment that has one, and a continuity identity from
/// one with a device id that is more than white space and a poll token; each is the
/// enrollment's own.
pub proof fn law_credential_and_continuity_are_the_enrollments_own(
    state: PersistedDirectoryAuth,
    operation: &'static str,
    credential: DirectoryApiResult<&str>,
    continuity: DirectoryApiResult<(&str, &str)>,
)
    requires
        call_ensures(approved_credential, (&state, operation), credential),
        call_ensures(continuity_identity, (&state, operation), continuity),
    ensures
        credential is Ok <==> state.status == PersistedEnrollmentStatus::Approved && (
        state.device_credential matches Some(text) && text@.len() > 0),
        credential matches Ok(text) ==> text@ == state.device_credential->0@,
        credential is Ok <==> has_approved_credential(state),
        continuity is Ok <==> {
            &&& state.device_id matches Some(id)
            &&& trimmed(id@).len() > 0
            &&& state.enrollment_poll_token matches Some(token)
            &&& token@.len() > 0
        },
        continuity matches Ok((id, token)) ==> id@ == state.device_id->0@ && token@
            == state.enrollment_poll_token->0@,
        continuity is Ok <==> has_continuity(state),
        credential matches Err(error) ==> error.operation == operation && error.kind
            == DirectoryApiErrorKind::Configuration && error.status is None,
        continuity matches Err(error) ==> error.operation == operation && error.kind
            == DirectoryApiErrorKind::Configuration && error.status is None,
{
    lemma_blank_iff_trimmed_empty(text_or_empty(state.device_id));
    lemma_blank_iff_trimmed_empty(Seq::<char>::empty());
}

/// A copy of an enrollment is the enrollment.
pub proof fn law_copies_are_equal(state: PersistedDirectoryAuth, r: PersistedDirectoryAuth)
    requires
        call_ensures(PersistedDirectoryAuth::duplicate, (&state,), r),
    ensures
        r == state,
{
}

/// Each reason for which a stored enrollment is not taken is told in its own words.
pub proof fn law_stored_enrollment_errors_are_told_in_their_own_words(
    error: PersistedAuthError,
    r: String,
)
    requires
        call_ensures(PersistedAuthError::text, (&error,), r),
    ensures
        error matches PersistedAuthError::EmptyFile(path) ==> r@
            == "Protected directory state file is empty: '"@ + path@ + "'"@,
        error matches PersistedAuthError::UnsupportedVersion(version) ==> r@
            == "Unsupported directory state schema version: "@ + decimal(version as nat),
        error is DifferentRustdeskId ==> r@
            == "Protected directory state belongs to a different RustDesk ID"@,
        error is DifferentDeviceKey ==> r@
            == "Protected directory state belongs to a different device key"@,
        error is MissingDeviceId ==> r@
            == "Protected directory state is missing device continuity ID"@,
        error is MissingPollToken ==> r@
            == "Protected directory state is missing enrollment continuity token"@,
        error is MissingCredential ==> r@
            == "Approved directory state is missing device credential"@,
        error is MissingCredentialSerial ==> r@
            == "Approved directory state is missing credential serial"@,
{
}

/// Each reason for which a status answer is not taken is told in its own words.
pub proof fn law_status_errors_are_told_in_their_own_words(
    error: EnrollmentStatusError,
    r: &'static str,
)
    requires
        call_ensures(EnrollmentStatusError::text, (&error,), r),
    ensures
        error is MissingDeviceId ==> r@
            == "Protected directory state is missing device continuity ID"@,
        error is DifferentDevice ==> r@
            == "Enrollment status response belongs to a different device"@,
        error is DifferentRustdeskId ==> r@
            == "Enrollment status response RustDesk ID does not match this device"@,
        error is MissingCredential ==> r@
            == "Approved enrollment status is missing device credential"@,
        error is MissingCredentialSerial ==> r@
            == "Approved enrollment status is missing credential serial"@,
        error is UnknownStatus ==> r@
            == "Enrollment status response returned an unknown device status"@,
{
}

/// Each reason for which a confirmation is not taken is told in its own words.
pub proof fn law_confirmation_errors_are_told_in_their_own_words(
    error: DeviceMeError,
    r: &'static str,
)
    requires
        call_ensures(DeviceMeError::text, (&error,), r),
    ensures
        error is MissingDeviceId ==> r@
            == "Protected directory state is missing device continuity ID"@,
        error is MissingCredentialSerial ==> r@
            == "Protected directory state is missing credential serial"@,
        error is DifferentDevice ==> r@
            == "Device identity response belongs to a different device"@,
        error is DifferentRustdeskId ==> r@
            == "Device identity response RustDesk ID does not match this device"@,
        error is NotApproved ==> r@ == "Device identity response is not approved"@,
        error is DifferentCredentialSerial ==> r@
            == "Device identity response credential serial does not match"@,
{
}

/// Each reason for which an enrollment answer is not taken is told in its own words.
pub proof fn law_enrollment_errors_are_told_in_their_own_words(
    error: EnrollmentResponseError,
    r: &'static str,
)
    requires
        call_ensures(EnrollmentResponseError::text, (&error,), r),
    ensures
        error is UnexpectedResult ==> r@ == "Enrollment response returned unexpected result"@,
        error is UnexpectedStatus ==> r@
            == "Enrollment response returned unexpected device status"@,
        error is DifferentRustdeskId ==> r@
            == "Enrollment response RustDesk ID does not match this device"@,
        error is DifferentHostname ==> r@
            == "Enrollment response hostname does not match this device"@,
        error is DifferentFriendlyName ==> r@
            == "Enrollment response friendly name does not match this device"@,
        error is MissingDeviceId ==> r@ == "Enrollment response is missing device continuity ID"@,
        error is MissingPollToken ==> r@ == "Enrollment response is missing continuity poll token"@,
{
}

/// Of all that is wrong with a stored enrollment the first is named: the device, its key, its
/// id, its token, its credential and its serial, in this order.
pub proof fn law_first_fault_of_a_stored_enrollment_is_named(
    state: PersistedDirectoryAuth,
    identity: DirectoryIdentity,
    r: Result<(), PersistedAuthError>,
)
    requires
        call_ensures(validate_persisted_auth_identity, (&state, &identity), r),
    ensures
        ({
            let same_device = state.rustdesk_id@ == identity.rustdesk_id@;
            let same_key = state.device_public_key@ == identity.device_public_key@;
            let id_there = state.status == PersistedEnrollmentStatus::NotEnrolled || (
            state.device_id is Some && trimmed(state.device_id->0@).len() > 0);
            let token_there = state.status == PersistedEnrollmentStatus::NotEnrolled || (
            state.enrollment_poll_token is Some && state.enrollment_poll_token->0@.len() > 0);
            let credential_there = state.status != PersistedEnrollmentStatus::Approved || (
            state.device_credential is Some && state.device_credential->0@.len() > 0);
            let serial_there = state.status != PersistedEnrollmentStatus::Approved || (
            state.credential_serial is Some && trimmed(state.credential_serial->0@).len() > 0);
            &&& r == Err::<(), PersistedAuthError>(PersistedAuthError::DifferentRustdeskId)
                <==> !same_device
            &&& r == Err::<(), PersistedAuthError>(PersistedAuthError::DifferentDeviceKey)
                <==> same_device && !same_key
            &&& r == Err::<(), PersistedAuthError>(PersistedAuthError::MissingDeviceId)
                <==> same_device && same_key && !id_there
            &&& r == Err::<(), PersistedAuthError>(PersistedAuthError::MissingPollToken)
                <==> same_device && same_key && id_there && !token_there
            &&& r == Err::<(), PersistedAuthError>(PersistedAuthError::MissingCredential)
                <==> same_device && same_key && id_there && token_there && !credential_there
            &&& r == Err::<(), PersistedAuthError>(
                PersistedAuthError::MissingCredentialSerial,
            ) <==> same_device && same_key && id_there
                && token_there && credential_there && !serial_there
        }),
{
    lemma_blank_iff_trimmed_empty(text_or_empty(state.device_id));
    lemma_blank_iff_trimmed_empty(text_or_empty(state.credential_serial));
    assert(trimmed(Seq::<char>::empty()).len() == 0) by {
        lemma_blank_iff_trimmed_empty(Seq::<char>::empty());
    }
}

/// Of all that is wrong with a status answer the first is named: the enrollment's own id, the
/// device by its id, the device by its RustDesk id, the word of the status, and the credential
/// and the serial of an approval, in this order.
pub proof fn law_first_fault_of_a_status_answer_is_named(
    state: PersistedDirectoryAuth,
    response: EnrollmentStatusResponse,
    r: Result<(), EnrollmentStatusError>,
)
    requires
        call_ensures(validate_enrollment_status_response, (&state, &response), r),
    ensures
        ({
            let enrolled = state.device_id is Some && state.device_id->0@.len() > 0;
            let same_device = response.device_id@ == state.device_id->0@;
            let same_id = response.rustdesk_id@ == state.rustdesk_id@;
            let known = response.status@ == "pending"@ || response.status@ == "approved"@
                || response.status@ == "denied"@ || response.status@ == "blocked"@
                || response.status@ == "revoked"@;
            let credential_there = response.status@ != "approved"@ || (response.credential is Some
                && response.credential->0@.len() > 0);
            let serial_there = response.status@ != "approved"@ || (
            response.credential_serial is Some && trimmed(response.credential_serial->0@).len()
                > 0);
            &&& r == Err::<(), EnrollmentStatusError>(EnrollmentStatusError::MissingDeviceId)
                <==> !enrolled
            &&& r == Err::<(), EnrollmentStatusError>(EnrollmentStatusError::DifferentDevice)
                <==> enrolled && !same_device
            &&& r == Err::<(), EnrollmentStatusError>(EnrollmentStatusError::DifferentRustdeskId)
                <==> enrolled && same_device && !same_id
            &&& r == Err::<(), EnrollmentStatusError>(EnrollmentStatusError::UnknownStatus)
                <==> enrolled && same_device && same_id && !known
            &&& r == Err::<(), EnrollmentStatusError>(EnrollmentStatusError::MissingCredential)
                <==> enrolled && same_device && same_id && known && !credential_there
            &&& r == Err::<(), EnrollmentStatusError>(
                EnrollmentStatusError::MissingCredentialSerial,
            ) <==> enrolled && same_device && same_id
                && known && credential_there && !serial_there
        }),
{
    lemma_status_words_differ();
    lemma_blank_iff_trimmed_empty(text_or_empty(response.credential_serial));
    assert(trimmed(Seq::<char>::empty()).len() == 0) by {
        lemma_blank_iff_trimmed_empty(Seq::<char>::empty());
    }
}

/// Of all that is wrong with a confirmation the first is named: the enrollment's own id and
/// serial, the device by its id, the device by its RustDesk id, the status and the serial, in
/// this order.
pub proof fn law_first_fault_of_a_confirmation_is_named(
    state: PersistedDirectoryAuth,
    response: DeviceMeResponse,
    r: Result<(), DeviceMeError>,
)
    requires
        call_ensures(validate_device_me_response, (&state, &response), r),
    ensures
        ({
            let enrolled = state.device_id is Some && state.device_id->0@.len() > 0;
            let issued = state.credential_serial is Some && state.credential_serial->0@.len() > 0;
            let same_device = response.id@ == state.device_id->0@;
            let same_id = response.rustdesk_id@ == state.rustdesk_id@;
            let approved = response.status@ == "approved"@;
            let same_serial = response.credential_serial@ == state.credential_serial->0@;
            &&& r == Err::<(), DeviceMeError>(DeviceMeError::MissingDeviceId) <==> !enrolled
            &&& r == Err::<(), DeviceMeError>(DeviceMeError::MissingCredentialSerial)
                <==> enrolled && !issued
            &&& r == Err::<(), DeviceMeError>(DeviceMeError::DifferentDevice)
                <==> enrolled && issued && !same_device
            &&& r == Err::<(), DeviceMeError>(DeviceMeError::DifferentRustdeskId)
                <==> enrolled && issued && same_device && !same_id
            &&& r == Err::<(), DeviceMeError>(DeviceMeError::NotApproved)
                <==> enrolled && issued && same_device && same_id && !approved
            &&& r == Err::<(), DeviceMeError>(DeviceMeError::DifferentCredentialSerial)
                <==> enrolled && issued && same_device && same_id && approved && !same_serial
        }),
{
}

/// Of all that is wrong with an enrollment answer the first is named: the result, the status,
/// the device by its id, its host name and its name, the device id that it gives and the
/// token, in this order.
pub proof fn law_first_fault_of_an_enrollment_answer_is_named(
    identity: DirectoryIdentity,
    response: EnrollmentResponse,
    r: Result<PersistedDirectoryAuth, EnrollmentResponseError>,
)
    requires
        call_ensures(pending_state_from_enrollment, (&identity, response), r),
    ensures
        ({
            let accepted = response.result@ == "accepted_pending"@;
            let pending = response.device.status@ == "pending"@;
            let same_id = response.device.rustdesk_id@ == identity.rustdesk_id@;
            let same_host = response.device.hostname@ == identity.hostname@;
            let same_name = response.device.friendly_name is Some
                && response.device.friendly_name->0@ == identity.friendly_name@;
            let id_there = trimmed(response.device.id@).len() > 0;
            let token_there = response.poll_token@.len() > 0;
            &&& r == Err::<PersistedDirectoryAuth, EnrollmentResponseError>(
                EnrollmentResponseError::UnexpectedResult,
            ) <==> !accepted
            &&& r == Err::<PersistedDirectoryAuth, EnrollmentResponseError>(
                EnrollmentResponseError::UnexpectedStatus,
            ) <==> accepted
                && !pending
            &&& r == Err::<PersistedDirectoryAuth, EnrollmentResponseError>(
                EnrollmentResponseError::DifferentRustdeskId,
            ) <==> accepted && pending
                && !same_id
            &&& r == Err::<PersistedDirectoryAuth, EnrollmentResponseError>(
                EnrollmentResponseError::DifferentHostname,
            ) <==> accepted && pending
                && same_id && !same_host
            &&& r == Err::<PersistedDirectoryAuth, EnrollmentResponseError>(
                EnrollmentResponseError::DifferentFriendlyName,
            ) <==> accepted && pending && same_id
                && same_host && !same_name
            &&& r == Err::<PersistedDirectoryAuth, EnrollmentResponseError>(
                EnrollmentResponseError::MissingDeviceId,
            ) <==> accepted && pending && same_id
                && same_host && same_name && !id_there
            &&& r == Err::<PersistedDirectoryAuth, EnrollmentResponseError>(
                EnrollmentResponseError::MissingPollToken,
            ) <==> accepted && pending && same_id && same_host
                && same_name && id_there && !token_there
        }),
{
    lemma_blank_iff_trimmed_empty(response.device.id@);
}

} // verus!
