//! Settings that are fixed when the client is built.

use crate::text::{blank, borrowed_view, is_blank, lemma_blank_iff_trimmed_empty, trimmed};
use vstd::prelude::*;
use vstd::string::*;

verus! {

/// A setting without the white space around it; nothing where that is all there is.
pub open spec fn setting_value(configured: Option<Seq<char>>) -> Option<Seq<char>> {
    match configured {
        Some(text) => if blank(text) {
            None
        } else {
            Some(trimmed(text))
        },
        None => None,
    }
}

/// Reads a setting.
pub fn setting(configured: Option<&str>) -> (r: Option<&str>)
    ensures
        borrowed_view(r) == setting_value(borrowed_view(configured)),
{
    match configured {
        Some(text) => if is_blank(text) {
            None
        } else {
            Some(text.trim())
        },
        None => None,
    }
}

/// Where the directory is, if it is configured.
pub fn managed_directory_base_url(configured: Option<&str>) -> (r: Option<&str>)
    ensures
        borrowed_view(r) == setting_value(borrowed_view(configured)),
{
    setting(configured)
}

/// Where relay leases are issued: at an address of their own, if one is configured,
/// and otherwise where `fallback` says.
pub fn managed_relay_lease_base_url<'a>(
    configured: Option<&'a str>,
    fallback: &'a str,
) -> (r: &'a str)
    ensures
        r@ == (match setting_value(borrowed_view(configured)) {
            Some(base) => base,
            None => fallback@,
        }),
{
    match setting(configured) {
        Some(base) => base,
        None => fallback,
    }
}

/// A setting is what is left of it without the white space around it, and is not there where
/// nothing is left. Leases are issued where their own setting says, and otherwise at the
/// fallback.
pub proof fn law_settings_are_trimmed(
    configured: Option<&str>,
    fallback: &str,
    directory: Option<&str>,
    lease: &str,
)
    requires
        call_ensures(managed_directory_base_url, (configured,), directory),
        call_ensures(managed_relay_lease_base_url, (configured, fallback), lease),
    ensures
        configured is None ==> directory is None && lease@ == fallback@,
        configured matches Some(text) ==> {
            &&& trimmed(text@).len() == 0 ==> directory is None && lease@ == fallback@
            &&& trimmed(text@).len() > 0 ==> directory is Some && directory->0@ == trimmed(text@)
                && lease@ == trimmed(text@)
        },
{
    if let Some(text) = configured {
        lemma_blank_iff_trimmed_empty(text@);
    }
}

} // verus!
