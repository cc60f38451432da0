//! What identifies this device, put together from its configuration.

use crate::api_types::DirectoryIdentity;
use crate::crypto::{base64_text, encode64};
use crate::text::{blank, borrowed_view, lemma_blank_iff_trimmed_empty, trimmed};
use vstd::prelude::*;
use vstd::string::*;

verus! {

/// What is missing of an identity.
#[derive(Debug, Clone, Copy, PartialEq, Eq, Structural)]
pub enum IdentityError {
    RustdeskIdUnavailable,
    HostnameUnavailable,
    FriendlyNameNotConfigured,
    PublicKeyUnavailable,
}

impl IdentityError {
    pub open spec fn words(self) -> Seq<char> {
        match self {
            IdentityError::RustdeskIdUnavailable => "RustDesk ID is unavailable"@,
            IdentityError::HostnameUnavailable => "Windows hostname is unavailable"@,
            IdentityError::FriendlyNameNotConfigured => {
                "Managed friendly name is not configured"@
            },
            IdentityError::PublicKeyUnavailable => "RustDesk device public key is unavailable"@,
        }
    }

    /// Describes the error in one line.
    pub fn text(&self) -> (r: &'static str)
        ensures
            r@ == self.words(),
    {
        match self {
            IdentityError::RustdeskIdUnavailable => "RustDesk ID is unavailable",
            IdentityError::HostnameUnavailable => "Windows hostname is unavailable",
            IdentityError::FriendlyNameNotConfigured => "Managed friendly name is not configured",
            IdentityError::PublicKeyUnavailable => "RustDesk device public key is unavailable",
        }
    }
}

/// The first thing missing of an identity. The contact address may be missing.
pub open spec fn identity_gap(
    rustdesk_id: Seq<char>,
    hostname: Option<Seq<char>>,
    friendly_name: Seq<char>,
    public_key: Seq<u8>,
) -> Option<IdentityError> {
    if blank(rustdesk_id) {
        Some(IdentityError::RustdeskIdUnavailable)
    } else if hostname is None || blank(hostname->0) {
        Some(IdentityError::HostnameUnavailable)
    } else if blank(friendly_name) {
        Some(IdentityError::FriendlyNameNotConfigured)
    } else if public_key.len() == 0 {
        Some(IdentityError::PublicKeyUnavailable)
    } else {
        None
    }
}

/// Puts the identity of this device together: each text trimmed, the key in base64.
/// A missing contact address does not stop it, since a device that enrolled without
/// one must stay present.
pub fn current_identity(
    rustdesk_id: &str,
    hostname: Option<&str>,
    friendly_name: &str,
    contact_email: &str,
    public_key: &Vec<u8>,
    client_version: &str,
) -> (r: Result<DirectoryIdentity, IdentityError>)
    requires
        4 * ((public_key@.len() + 2) / 3) <= isize::MAX,
    ensures
        match identity_gap(
            rustdesk_id@,
            borrowed_view(hostname),
            friendly_name@,
            public_key@,
        ) {
            Some(error) => r == Err::<DirectoryIdentity, IdentityError>(error),
            None => r matches Ok(identity) && identity.rustdesk_id@ == trimmed(rustdesk_id@)
                && identity.hostname@ == trimmed(hostname->0@) && identity.friendly_name@
                == trimmed(friendly_name@) && identity.contact_email@ == trimmed(contact_email@)
                && identity.device_public_key@ == base64_text(public_key@)
                && identity.client_version@ == client_version@,
        },
{
    proof {
        lemma_blank_iff_trimmed_empty(rustdesk_id@);
        lemma_blank_iff_trimmed_empty(friendly_name@);
    }
    let rustdesk_id = rustdesk_id.trim();
    if rustdesk_id.is_empty() {
        return Err(IdentityError::RustdeskIdUnavailable);
    }
    let hostname = match hostname {
        Some(hostname) => {
            proof {
                lemma_blank_iff_trimmed_empty(hostname@);
            }
            hostname.trim()
        },
        None => {
            return Err(IdentityError::HostnameUnavailable);
        },
    };
    if hostname.is_empty() {
        return Err(IdentityError::HostnameUnavailable);
    }
    let friendly_name = friendly_name.trim();
    if friendly_name.is_empty() {
        return Err(IdentityError::FriendlyNameNotConfigured);
    }
    let contact_email = contact_email.trim();
    if public_key.len() == 0 {
        return Err(IdentityError::PublicKeyUnavailable);
    }
    Ok(
        DirectoryIdentity {
            rustdesk_id: rustdesk_id.to_owned(),
            hostname: hostname.to_owned(),
            friendly_name: friendly_name.to_owned(),
            contact_email: contact_email.to_owned(),
            device_public_key: encode64(public_key.as_slice()),
            client_version: client_version.to_owned(),
        },
    )
}

/// An identity is what the device is configured with, without the white space around it, and
/// its key in base64. It is had exactly where there is an id, a host name, a name and a key,
/// whether or not there is a contact address.
pub proof fn law_identity_is_what_is_configured(
    rustdesk_id: &str,
    hostname: Option<&str>,
    friendly_name: &str,
    contact_email: &str,
    public_key: Vec<u8>,
    client_version: &str,
    r: Result<DirectoryIdentity, IdentityError>,
)
    requires
        call_ensures(
            current_identity,
            (rustdesk_id, hostname, friendly_name, contact_email, &public_key, client_version),
            r,
        ),
    ensures
        r is Ok <==> {
            &&& trimmed(rustdesk_id@).len() > 0
            &&& hostname matches Some(name)
            &&& trimmed(name@).len() > 0
            &&& trimmed(friendly_name@).len() > 0
            &&& public_key@.len() > 0
        },
        r matches Ok(identity) ==> {
            &&& identity.rustdesk_id@ == trimmed(rustdesk_id@)
            &&& identity.hostname@ == trimmed(hostname->0@)
            &&& identity.friendly_name@ == trimmed(friendly_name@)
            &&& identity.contact_email@ == trimmed(contact_email@)
            &&& identity.device_public_key@ == base64_text(public_key@)
            &&& identity.client_version@ == client_version@
        },
        r == Err::<DirectoryIdentity, IdentityError>(IdentityError::RustdeskIdUnavailable)
            <==> trimmed(rustdesk_id@).len() == 0,
        r == Err::<DirectoryIdentity, IdentityError>(IdentityError::HostnameUnavailable) <==> {
            &&& trimmed(rustdesk_id@).len() > 0
            &&& hostname is None || trimmed(hostname->0@).len() == 0
        },
        r == Err::<DirectoryIdentity, IdentityError>(IdentityError::FriendlyNameNotConfigured)
            <==> {
            &&& trimmed(rustdesk_id@).len() > 0
            &&& hostname is Some && trimmed(hostname->0@).len() > 0
            &&& trimmed(friendly_name@).len() == 0
        },
        r == Err::<DirectoryIdentity, IdentityError>(IdentityError::PublicKeyUnavailable) <==> {
            &&& trimmed(rustdesk_id@).len() > 0
            &&& hostname is Some && trimmed(hostname->0@).len() > 0
            &&& trimmed(friendly_name@).len() > 0
            &&& public_key@.len() == 0
        },
{
    lemma_blank_iff_trimmed_empty(rustdesk_id@);
    lemma_blank_iff_trimmed_empty(friendly_name@);
    if let Some(name) = hostname {
        lemma_blank_iff_trimmed_empty(name@);
    }
}

/// Each thing that an identity lacks is told in its own words.
pub proof fn law_identity_gaps_are_told_in_their_own_words(error: IdentityError, r: &'static str)
    requires
        call_ensures(IdentityError::text, (&error,), r),
    ensures
        error is RustdeskIdUnavailable ==> r@ == "RustDesk ID is unavailable"@,
        error is HostnameUnavailable ==> r@ == "Windows hostname is unavailable"@,
        error is FriendlyNameNotConfigured ==> r@ == "Managed friendly name is not configured"@,
        error is PublicKeyUnavailable ==> r@ == "RustDesk device public key is unavailable"@,
{
}

} // verus!
