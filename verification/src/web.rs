//! Web addresses: which ones the directory may be reached under, and how the
//! address of one of its routes is made.

use crate::api_error::{
    plain_error, DirectoryApiError, DirectoryApiErrorKind, DirectoryApiResult,
};
use crate::text::{decimal, optional_view, same_text, strip_trailing, without_trailing};
use vstd::prelude::*;
use vstd::string::*;

verus! {

/// The parts of an address.
pub struct UrlParts {
    pub scheme: String,
    pub username: String,
    pub password: Option<String>,
    pub host: Option<String>,
    pub port: Option<u16>,
    pub path: String,
    pub query: Option<String>,
    pub fragment: Option<String>,
}

/// The characters of those parts.
pub struct UrlView {
    pub scheme: Seq<char>,
    pub username: Seq<char>,
    pub password: Option<Seq<char>>,
    pub host: Option<Seq<char>>,
    pub port: Option<u16>,
    pub path: Seq<char>,
    pub query: Option<Seq<char>>,
    pub fragment: Option<Seq<char>>,
}

impl View for UrlParts {
    type V = UrlView;

    open spec fn view(&self) -> UrlView {
        UrlView {
            scheme: self.scheme@,
            username: self.username@,
            password: optional_view(self.password),
            host: optional_view(self.host),
            port: self.port,
            path: self.path@,
            query: optional_view(self.query),
            fragment: optional_view(self.fragment),
        }
    }
}

/// The parts of the address that `text` denotes; nothing where it denotes none.
pub uninterp spec fn url_parts(text: Seq<char>) -> Option<UrlView>;

/// What becomes of `path` where it is written into an encrypted address.
pub uninterp spec fn written_path(path: Seq<char>) -> Seq<char>;

/// What becomes of the pair `key`, `value` where it is written as a query.
pub uninterp spec fn written_pair(key: Seq<char>, value: Seq<char>) -> Seq<char>;

/// The longest text that is made into an address, in characters. Addresses are
/// counted in thirty-two bits, and one character can take many bytes in them.
pub const URL_TEXT_LIMIT: usize = 0x80_0000;

/// The longest path that is written into an address, in characters. Each can take twelve
/// bytes there, and the whole address has to fit into a memory of thirty-two bits.
pub const PATH_TEXT_LIMIT: usize = 0x400_0000;

/// The address is encrypted, names a host and carries no credentials.
pub open spec fn secure(parts: UrlView) -> bool {
    &&& parts.scheme == "https"@
    &&& parts.host is Some
    &&& parts.username.len() == 0
    &&& parts.password is None
}

/// The directory may be reached under `base`.
pub open spec fn acceptable_base(base: Seq<char>) -> bool {
    url_parts(base) is Some && secure(url_parts(base)->0)
}

/// A port as it stands in an address: behind a colon, or not at all.
pub open spec fn port_text(port: Option<u16>) -> Seq<char> {
    match port {
        Some(number) => ":"@ + decimal(number as nat),
        None => Seq::empty(),
    }
}

/// What a secure address begins with: its scheme, host and port.
pub open spec fn origin(parts: UrlView) -> Seq<char> {
    "https://"@ + parts.host->0 + port_text(parts.port)
}

/// The address of the route `path` under `base`: the host and port of `base`, then
/// the path and nothing else.
pub open spec fn route_address(base: Seq<char>, path: Seq<char>) -> Seq<char> {
    origin(url_parts(base)->0) + written_path(path)
}

/// The parts of that address: those of `base`, but for the path, and without a query
/// and a fragment.
pub open spec fn route_parts(base: Seq<char>, path: Seq<char>) -> UrlView {
    UrlView {
        path: written_path(path),
        query: None,
        fragment: None,
        ..url_parts(base)->0
    }
}

/// The address of a route with one pair as its query.
pub open spec fn paired_address(
    base: Seq<char>,
    path: Seq<char>,
    key: Seq<char>,
    value: Seq<char>,
) -> Seq<char> {
    route_address(base, path) + "?"@ + written_pair(key, value)
}

/// The parts of that address.
pub open spec fn paired_parts(
    base: Seq<char>,
    path: Seq<char>,
    key: Seq<char>,
    value: Seq<char>,
) -> UrlView {
    UrlView { query: Some(written_pair(key, value)), ..route_parts(base, path) }
}

/// A path that is written as it is: it begins with a slash, and holds nothing but
/// slashes, hyphens, digits and lower-case letters.
pub open spec fn plain_path(path: Seq<char>) -> bool {
    &&& path.len() > 0
    &&& path[0] == '/'
    &&& forall|i: int|
        0 <= i < path.len() ==> {
            ||| #[trigger] path[i] == '/'
            ||| path[i] == '-'
            ||| '0' <= path[i] <= '9'
            ||| 'a' <= path[i] <= 'z'
        }
}

/// `url::Url::parse` reads an address, and `scheme`, `username`, `password`,
/// `host_str`, `port`, `path`, `query` and `fragment` return its parts. It counts
/// characters in thirty-two bits, so the text is bounded.
#[verifier::external_body]
fn parse_url(text: &str) -> (parts: Option<UrlParts>)
    requires
        text@.len() <= URL_TEXT_LIMIT,
    ensures
        parts is Some <==> url_parts(text@) is Some,
        parts matches Some(p) ==> url_parts(text@) == Some(p@),
{
    let url = url::Url::parse(text).ok()?;
    Some(
        UrlParts {
            scheme: url.scheme().to_owned(),
            username: url.username().to_owned(),
            password: url.password().map(|password| password.to_owned()),
            host: url.host_str().map(|host| host.to_owned()),
            port: url.port(),
            path: url.path().to_owned(),
            query: url.query().map(|query| query.to_owned()),
            fragment: url.fragment().map(|fragment| fragment.to_owned()),
        },
    )
}

/// `url::Url::set_query` and `set_fragment`, both with `None`, then `set_path`, on
/// the secure address that `base` denotes. The result is the text of the changed
/// address: scheme, host and port as they were, and then the path, which `set_path`
/// encodes and normalizes by itself, whatever the address; a plain one stays as it
/// is. Reading that text gives the same parts back. `set_path` fails past four
/// gigabytes, so the arguments are bounded.
#[verifier::external_body]
fn readdress(base: &str, path: &str) -> (address: Option<String>)
    requires
        base@.len() <= URL_TEXT_LIMIT,
        path@.len() <= PATH_TEXT_LIMIT,
        acceptable_base(base@),
    ensures
        address is Some,
        address->0@ == origin(url_parts(base@)->0) + written_path(path@),
        url_parts(address->0@) == Some(route_parts(base@, path@)),
        plain_path(path@) ==> address->0@ == origin(url_parts(base@)->0) + path@,
{
    let mut url = url::Url::parse(base).ok()?;
    url.set_query(None);
    url.set_fragment(None);
    url.set_path(path);
    Some(url.to_string())
}

/// The calls of `readdress`, then `url::Url::query_pairs_mut` and `append_pair`, which
/// writes the pair behind a question mark, encoded by itself. Reading the text gives
/// the same parts back. The calls fail past four gigabytes, so the arguments are
/// bounded.
#[verifier::external_body]
fn readdress_with_pair(base: &str, path: &str, key: &str, value: &str) -> (address: Option<String>)
    requires
        base@.len() <= URL_TEXT_LIMIT,
        path@.len() <= URL_TEXT_LIMIT,
        key@.len() <= URL_TEXT_LIMIT,
        value@.len() <= URL_TEXT_LIMIT,
        acceptable_base(base@),
    ensures
        address is Some,
        address->0@ == origin(url_parts(base@)->0) + written_path(path@) + "?"@ + written_pair(
            key@,
            value@,
        ),
        url_parts(address->0@) == Some(paired_parts(base@, path@, key@, value@)),
        plain_path(path@) ==> address->0@ == origin(url_parts(base@)->0) + path@ + "?"@
            + written_pair(key@, value@),
{
    let mut url = url::Url::parse(base).ok()?;
    url.set_query(None);
    url.set_fragment(None);
    url.set_path(path);
    url.query_pairs_mut().append_pair(key, value);
    Some(url.to_string())
}

/// Whether an address with these parts is encrypted, names a host and carries no
/// credentials.
pub fn is_secure(parts: &UrlParts) -> (r: bool)
    ensures
        r == secure(parts@),
{
    same_text(parts.scheme.as_str(), "https") && parts.host.is_some()
        && parts.username.as_str().is_empty() && parts.password.is_none()
}

/// Whether the directory may be reached under `base`.
pub fn is_acceptable_base(base: &str) -> (r: bool)
    requires
        base@.len() <= URL_TEXT_LIMIT,
    ensures
        r == acceptable_base(base@),
{
    match parse_url(base) {
        Some(parts) => is_secure(&parts),
        None => false,
    }
}

/// The address of the route `path` under `base_url`, which must be encrypted, name
/// a host and carry no credentials. The address keeps all three and the port, has the
/// path, and neither a query nor a fragment.
pub fn directory_api_url(base_url: &str, path: &str, operation: &'static str) -> (r:
    DirectoryApiResult<String>)
    requires
        base_url@.len() <= URL_TEXT_LIMIT,
        path@.len() <= PATH_TEXT_LIMIT,
    ensures
        r is Ok <==> acceptable_base(base_url@),
        r matches Ok(url) ==> {
            &&& url@ == route_address(base_url@, path@)
            &&& url_parts(url@) == Some(route_parts(base_url@, path@))
            &&& acceptable_base(url@)
            &&& plain_path(path@) ==> url@ == origin(url_parts(base_url@)->0) + path@
        },
        r matches Err(error) ==> error == plain_error(
            operation,
            DirectoryApiErrorKind::Configuration,
        ),
{
    if !is_acceptable_base(base_url) {
        return Err(DirectoryApiError::configuration(operation));
    }
    match readdress(base_url, path) {
        Some(url) => Ok(url),
        None => Err(DirectoryApiError::configuration(operation)),
    }
}

/// The address of the route `path` under `base_url` with one pair as its query, on the
/// same terms as one without.
pub fn directory_api_url_with_pair(
    base_url: &str,
    path: &str,
    key: &str,
    value: &str,
    operation: &'static str,
) -> (r: DirectoryApiResult<String>)
    requires
        base_url@.len() <= URL_TEXT_LIMIT,
        path@.len() <= URL_TEXT_LIMIT,
        key@.len() <= URL_TEXT_LIMIT,
        value@.len() <= URL_TEXT_LIMIT,
    ensures
        r is Ok <==> acceptable_base(base_url@),
        r matches Ok(url) ==> {
            &&& url@ == paired_address(base_url@, path@, key@, value@)
            &&& url_parts(url@) == Some(paired_parts(base_url@, path@, key@, value@))
            &&& acceptable_base(url@)
            &&& plain_path(path@) ==> url@ == origin(url_parts(base_url@)->0) + path@ + "?"@
                + written_pair(key@, value@)
        },
        r matches Err(error) ==> error == plain_error(
            operation,
            DirectoryApiErrorKind::Configuration,
        ),
{
    if !is_acceptable_base(base_url) {
        return Err(DirectoryApiError::configuration(operation));
    }
    match readdress_with_pair(base_url, path, key, value) {
        Some(url) => Ok(url),
        None => Err(DirectoryApiError::configuration(operation)),
    }
}

/// `base_url` without trailing slashes, then `path`.
pub fn join_url(base_url: &str, path: &str) -> (r: String)
    ensures
        r@ == without_trailing(base_url@, '/') + path@,
{
    strip_trailing(base_url, '/').concat(path)
}

/// A directory may be reached exactly under an address that is encrypted, names a host and has
/// neither a user nor a password.
pub proof fn law_directory_is_reached_under_secure_addresses_only(base: &str, r: bool)
    requires
        call_ensures(is_acceptable_base, (base,), r),
    ensures
        r == acceptable_base(base@),
        r <==> {
            &&& url_parts(base@) matches Some(parts)
            &&& parts.scheme == "https"@
            &&& parts.host is Some
            &&& parts.username.len() == 0
            &&& parts.password is None
        },
{
}

/// The parts of an address are secure by their scheme, host, user and password alone.
pub proof fn law_secure_parts(parts: UrlParts, r: bool)
    requires
        call_ensures(is_secure, (&parts,), r),
    ensures
        r <==> parts.scheme@ == "https"@ && parts.host is Some && parts.username@.len() == 0
            && parts.password is None,
{
}

/// The address of a route is the scheme, the host and the port of the base, and the route: it
/// leads to the same host and port, and nothing of the base's own path, query and fragment is
/// left. A plain path is in it as it is.
pub proof fn law_route_is_on_the_same_host(
    base: &str,
    path: &str,
    operation: &'static str,
    r: DirectoryApiResult<String>,
)
    requires
        call_ensures(directory_api_url, (base, path, operation), r),
    ensures
        r is Ok <==> acceptable_base(base@),
        r matches Ok(url) ==> {
            &&& url@ == route_address(base@, path@)
            &&& url_parts(base@) matches Some(from)
            &&& from.port is None ==> url@ == "https://"@ + from.host->0 + written_path(path@)
            &&& from.port matches Some(port) ==> url@ == "https://"@ + from.host->0 + ":"@
                + decimal(port as nat) + written_path(path@)
            &&& url_parts(url@) matches Some(to)
            &&& to.scheme == from.scheme
            &&& to.host == from.host
            &&& to.port == from.port
            &&& to.username.len() == 0
            &&& to.password is None
            &&& to.path == written_path(path@)
            &&& to.query is None
            &&& to.fragment is None
            &&& acceptable_base(url@)
        },
        r matches Err(error) ==> error.operation == operation && error.kind
            == DirectoryApiErrorKind::Configuration && error.status is None
            && error.retry_after_seconds is None,
{
    if let Ok(url) = r {
        let from = url_parts(base@)->0;
        if from.port is None {
            assert(url@ =~= "https://"@ + from.host->0 + written_path(path@));
        } else {
            assert(url@ =~= "https://"@ + from.host->0 + ":"@ + decimal(
                from.port->0 as nat,
            ) + written_path(path@));
        }
    }
}

/// An address with a pair is that of the route, a question mark and the pair, and leads to the
/// same host and port.
pub proof fn law_pair_follows_the_route(
    base: &str,
    path: &str,
    key: &str,
    value: &str,
    operation: &'static str,
    r: DirectoryApiResult<String>,
)
    requires
        call_ensures(directory_api_url_with_pair, (base, path, key, value, operation), r),
    ensures
        r is Ok <==> acceptable_base(base@),
        r matches Ok(url) ==> {
            &&& url@ == route_address(base@, path@) + "?"@ + written_pair(key@, value@)
            &&& url_parts(url@) matches Some(to)
            &&& to.scheme == url_parts(base@)->0.scheme
            &&& to.host == url_parts(base@)->0.host
            &&& to.port == url_parts(base@)->0.port
            &&& to.path == written_path(path@)
            &&& to.query == Some(written_pair(key@, value@))
            &&& to.fragment is None
        },
        r matches Err(error) ==> error.operation == operation && error.kind
            == DirectoryApiErrorKind::Configuration && error.status is None
            && error.retry_after_seconds is None,
{
}

/// Two texts are joined into an address without a slash too many: the end of the first is
/// taken off as far as it is slashes.
pub proof fn law_joining_takes_off_trailing_slashes(base: &str, path: &str, r: String)
    requires
        call_ensures(join_url, (base, path), r),
    ensures
        r@ == without_trailing(base@, '/') + path@,
{
}

} // verus!
