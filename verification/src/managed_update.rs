//! Managed updates: which manifest is taken, which file fits it, and how a check for
//! an update goes on. Only a file that fits a signed manifest is ever offered.

use crate::api_error::{
    error_text, plain_error, status_error, DirectoryApiError, DirectoryApiErrorKind,
};
use crate::crypto::{
    base64_bytes, decode64, hex_digit, hex_encode, hex_text, open_signed, opened, sha256,
    sha256_digest, PUBLIC_KEY_BYTES, SIGNATURE_BYTES,
};
use crate::persisted_auth::{
    approved_credential, has_approved_credential, verdict, PersistedDirectoryAuth,
    PersistedEnrollmentStatus,
};
use crate::requests::{HttpMethod, HttpRequest, RequestView};
use crate::settings::{setting, setting_value};
use crate::text::{
    ascii_lower, borrowed, borrowed_view, characters, decimal, decimal_text, has_char, joined,
    lemma_blank_iff_trimmed_empty, lowercase, lowercased, optional_view, parse_unsigned,
    same_text, text_or_empty, trimmed, unsigned_value,
};
use crate::web::{
    acceptable_base, directory_api_url, directory_api_url_with_pair, is_acceptable_base,
    paired_address, route_address, written_pair, PATH_TEXT_LIMIT, URL_TEXT_LIMIT,
};
use vstd::prelude::*;
use vstd::string::*;
use vstd::utf8::encode_utf8;

verus! {

/// What the server says of the latest release.
pub struct ManagedUpdateManifest {
    pub channel: String,
    pub build_number: u64,
    pub version: String,
    pub file_name: String,
    pub size: u64,
    pub sha256: String,
    pub signature: String,
    pub published_at: String,
    pub download_path: String,
}

/// An update that can be installed: a file that fits a signed manifest.
pub struct ManagedUpdateCandidate {
    pub build_number: u64,
    pub version: String,
    pub file_path: String,
}

/// Why there is no update to be had.
#[derive(Debug)]
pub enum UpdateError {
    NoDirectory,
    NotEnrolled,
    KeyNotConfigured,
    KeyNotBase64,
    KeyLength,
    Channel,
    FileName,
    DownloadPath,
    Sha256Format,
    SignatureNotBase64,
    SignatureLength,
    SignatureVerification,
    FileSize,
    FileSha256,
    DownloadSize,
    Api(DirectoryApiError),
    /// A file could not be worked with; the system's own words.
    System(String),
}

impl UpdateError {
    pub open spec fn words(self) -> Seq<char> {
        match self {
            UpdateError::NoDirectory => "Managed directory URL is not compiled in"@,
            UpdateError::NotEnrolled => "Managed device is not enrolled"@,
            UpdateError::KeyNotConfigured => "Managed update signing key is not compiled in"@,
            UpdateError::KeyNotBase64 => "Managed update signing key is invalid base64"@,
            UpdateError::KeyLength => "Managed update signing key has invalid length"@,
            UpdateError::Channel => "Managed update channel mismatch"@,
            UpdateError::FileName => "Managed update file name is invalid"@,
            UpdateError::DownloadPath => "Managed update download path is invalid"@,
            UpdateError::Sha256Format => "Managed update SHA256 is invalid"@,
            UpdateError::SignatureNotBase64 => "Managed update signature is invalid base64"@,
            UpdateError::SignatureLength => "Managed update signature has invalid length"@,
            UpdateError::SignatureVerification => {
                "Managed update signature verification failed"@
            },
            UpdateError::FileSize => "Managed update file size mismatch"@,
            UpdateError::FileSha256 => "Managed update SHA256 verification failed"@,
            UpdateError::DownloadSize => "Managed update download size mismatch"@,
            UpdateError::Api(error) => error_text(error),
            UpdateError::System(text) => text@,
        }
    }

    /// Describes the error in one line.
    pub fn text(&self) -> (r: String)
        ensures
            r@ == self.words(),
    {
        match self {
            UpdateError::NoDirectory => "Managed directory URL is not compiled in".to_owned(),
            UpdateError::NotEnrolled => "Managed device is not enrolled".to_owned(),
            UpdateError::KeyNotConfigured => {
                "Managed update signing key is not compiled in".to_owned()
            },
            UpdateError::KeyNotBase64 => "Managed update signing key is invalid base64".to_owned(),
            UpdateError::KeyLength => "Managed update signing key has invalid length".to_owned(),
            UpdateError::Channel => "Managed update channel mismatch".to_owned(),
            UpdateError::FileName => "Managed update file name is invalid".to_owned(),
            UpdateError::DownloadPath => "Managed update download path is invalid".to_owned(),
            UpdateError::Sha256Format => "Managed update SHA256 is invalid".to_owned(),
            UpdateError::SignatureNotBase64 => {
                "Managed update signature is invalid base64".to_owned()
            },
            UpdateError::SignatureLength => {
                "Managed update signature has invalid length".to_owned()
            },
            UpdateError::SignatureVerification => {
                "Managed update signature verification failed".to_owned()
            },
            UpdateError::FileSize => "Managed update file size mismatch".to_owned(),
            UpdateError::FileSha256 => "Managed update SHA256 verification failed".to_owned(),
            UpdateError::DownloadSize => "Managed update download size mismatch".to_owned(),
            UpdateError::Api(error) => error.text(),
            UpdateError::System(text) => text.clone(),
        }
    }
}

/// The build number that is configured; zero where none is.
pub open spec fn build_number_of(configured: Option<Seq<char>>) -> u64 {
    match configured {
        Some(text) => match unsigned_value(trimmed(text)) {
            Some(number) => number,
            None => 0,
        },
        None => 0,
    }
}

/// The build number of this client.
pub fn managed_build_number(configured: Option<&str>) -> (r: u64)
    ensures
        r == build_number_of(borrowed_view(configured)),
{
    match configured {
        Some(text) => match parse_unsigned(text.trim()) {
            Some(number) => number,
            None => 0,
        },
        None => 0,
    }
}

/// The channel that is configured; the stable one where none is.
pub open spec fn channel_of(configured: Option<Seq<char>>) -> Seq<char> {
    match setting_value(configured) {
        Some(channel) => channel,
        None => "stable"@,
    }
}

/// The channel that this client takes updates from.
pub fn managed_update_channel(configured: Option<&str>) -> (r: &str)
    ensures
        r@ == channel_of(borrowed_view(configured)),
{
    match setting(configured) {
        Some(channel) => channel,
        None => "stable",
    }
}

/// The public key that manifests are signed for.
pub open spec fn signing_key(configured: Option<Seq<char>>) -> Result<Seq<u8>, UpdateError> {
    match setting_value(configured) {
        None => Err(UpdateError::KeyNotConfigured),
        Some(encoded) => match base64_bytes(encoded) {
            None => Err(UpdateError::KeyNotBase64),
            Some(raw) => if raw.len() == PUBLIC_KEY_BYTES {
                Ok(raw)
            } else {
                Err(UpdateError::KeyLength)
            },
        },
    }
}

/// The public key that manifests are signed for, from its configured base64 text.
pub fn managed_update_signing_public_key(configured: Option<&str>) -> (r: Result<
    Vec<u8>,
    UpdateError,
>)
    ensures
        match signing_key(borrowed_view(configured)) {
            Ok(key) => r is Ok && r->Ok_0@ == key,
            Err(error) => r == Err::<Vec<u8>, UpdateError>(error),
        },
{
    match setting(configured) {
        Some(encoded) => match decode64(encoded) {
            Some(raw) => signing_key_from_bytes(raw),
            None => Err(UpdateError::KeyNotBase64),
        },
        None => Err(UpdateError::KeyNotConfigured),
    }
}

/// Takes decoded bytes for a public key where there are exactly as many as it has.
pub fn signing_key_from_bytes(raw: Vec<u8>) -> (r: Result<Vec<u8>, UpdateError>)
    ensures
        r == (if raw@.len() == PUBLIC_KEY_BYTES {
            Ok(raw)
        } else {
            Err(UpdateError::KeyLength)
        }),
{
    if raw.len() == PUBLIC_KEY_BYTES {
        Ok(raw)
    } else {
        Err(UpdateError::KeyLength)
    }
}

/// The text that a manifest's signature is made over: every field but the signature
/// itself and the download path, which the file name determines.
pub open spec fn signed_payload(manifest: ManagedUpdateManifest) -> Seq<char> {
    "rustdesk-managed-update-v1\n"@ + "channel="@ + manifest.channel@ + "\nbuild_number="@
        + decimal(manifest.build_number as nat) + "\nversion="@ + manifest.version@
        + "\nfile_name="@ + manifest.file_name@ + "\nsize="@ + decimal(manifest.size as nat)
        + "\nsha256="@ + manifest.sha256@ + "\npublished_at="@ + manifest.published_at@ + "\n"@
}

/// The text that a manifest's signature is made over.
pub fn managed_update_signed_payload(manifest: &ManagedUpdateManifest) -> (r: String)
    ensures
        r@ == signed_payload(*manifest),
{
    joined("rustdesk-managed-update-v1\n", "channel=").concat(manifest.channel.as_str()).concat(
        "\nbuild_number=",
    ).concat(decimal_text(manifest.build_number as u128).as_str()).concat("\nversion=").concat(
        manifest.version.as_str(),
    ).concat("\nfile_name=").concat(manifest.file_name.as_str()).concat("\nsize=").concat(
        decimal_text(manifest.size as u128).as_str(),
    ).concat("\nsha256=").concat(manifest.sha256.as_str()).concat("\npublished_at=").concat(
        manifest.published_at.as_str(),
    ).concat("\n")
}

/// `s` ends in `suffix`.
pub open spec fn ends_with(s: Seq<char>, suffix: Seq<char>) -> bool {
    suffix.len() <= s.len() && s.skip(s.len() - suffix.len()) == suffix
}

/// A plain name of an executable: not empty, without a directory, and ending in ".exe"
/// in any case.
pub open spec fn file_name_valid(name: Seq<char>) -> bool {
    &&& name.len() > 0
    &&& !name.contains('/')
    &&& !name.contains('\\')
    &&& ends_with(lowercased(name), ".exe"@)
}

fn is_file_name_valid(name: &str) -> (r: bool)
    ensures
        r == file_name_valid(name@),
{
    if name.is_empty() || has_char(name, '/') || has_char(name, '\\') {
        return false;
    }
    let lower = lowercase(name);
    let chars = characters(lower.as_str());
    let suffix = characters(".exe");
    if chars.len() < suffix.len() {
        return false;
    }
    let start: usize = chars.len() - suffix.len();
    let mut i: usize = 0;
    while i < suffix.len()
        invariant
            chars@ == lowercased(name@),
            suffix@ == ".exe"@,
            start + suffix.len() == chars.len(),
            i <= suffix@.len(),
            forall|j: int| 0 <= j < i ==> chars@[start + j] == #[trigger] suffix@[j],
        decreases suffix@.len() - i,
    {
        if chars[start + i] != suffix[i] {
            proof {
                assert(lowercased(name@).skip(start as int)[i as int] != ".exe"@[i as int]);
            }
            return false;
        }
        i += 1;
    }
    proof {
        assert(lowercased(name@).skip(start as int) =~= ".exe"@);
    }
    true
}

/// A hexadecimal digit, in either case.
pub open spec fn is_hex_digit(c: char) -> bool {
    '0' <= c <= '9' || 'a' <= c <= 'f' || 'A' <= c <= 'F'
}

/// Sixty-four hexadecimal digits.
pub open spec fn sha256_format(text: Seq<char>) -> bool {
    text.len() == 64 && forall|i: int| 0 <= i < text.len() ==> is_hex_digit(#[trigger] text[i])
}

fn is_sha256_format(text: &str) -> (r: bool)
    ensures
        r == sha256_format(text@),
{
    let chars = characters(text);
    if chars.len() != 64 {
        return false;
    }
    let mut i: usize = 0;
    while i < chars.len()
        invariant
            chars@ == text@,
            i <= chars@.len(),
            forall|j: int| 0 <= j < i ==> is_hex_digit(#[trigger] text@[j]),
        decreases chars@.len() - i,
    {
        let c = chars[i];
        if !(('0' <= c && c <= '9') || ('a' <= c && c <= 'f') || ('A' <= c && c <= 'F')) {
            proof {
                assert(!is_hex_digit(text@[i as int]));
            }
            return false;
        }
        i += 1;
    }
    true
}

/// What is wrong with the plain fields of a manifest.
pub open spec fn form_fault(manifest: ManagedUpdateManifest, channel: Seq<char>) -> Option<
    UpdateError,
> {
    if manifest.channel@ != channel {
        Some(UpdateError::Channel)
    } else if !file_name_valid(manifest.file_name@) {
        Some(UpdateError::FileName)
    } else if manifest.download_path@ != "/v1/updates/releases/"@ + manifest.file_name@ {
        Some(UpdateError::DownloadPath)
    } else if !sha256_format(manifest.sha256@) {
        Some(UpdateError::Sha256Format)
    } else {
        None
    }
}

/// Holds the plain fields of a manifest to what they must be.
pub fn check_manifest_form(manifest: &ManagedUpdateManifest, channel: &str) -> (r: Option<
    UpdateError,
>)
    ensures
        r == form_fault(*manifest, channel@),
{
    if !same_text(manifest.channel.as_str(), channel) {
        return Some(UpdateError::Channel);
    }
    if !is_file_name_valid(manifest.file_name.as_str()) {
        return Some(UpdateError::FileName);
    }
    let expected_path = joined("/v1/updates/releases/", manifest.file_name.as_str());
    if manifest.download_path != expected_path {
        return Some(UpdateError::DownloadPath);
    }
    if !is_sha256_format(manifest.sha256.as_str()) {
        return Some(UpdateError::Sha256Format);
    }
    None
}

/// What is wrong with a signature, given what its base64 text denotes, the key and what
/// verifying it came to.
pub open spec fn signature_fault(
    signature: Option<Seq<u8>>,
    key: Result<Seq<u8>, UpdateError>,
    message: Option<Seq<u8>>,
) -> Option<UpdateError> {
    match signature {
        None => Some(UpdateError::SignatureNotBase64),
        Some(bytes) => if bytes.len() != SIGNATURE_BYTES {
            Some(UpdateError::SignatureLength)
        } else {
            match key {
                Err(error) => Some(error),
                Ok(_) => if message is None {
                    Some(UpdateError::SignatureVerification)
                } else {
                    None
                },
            }
        },
    }
}

/// The signature of a manifest, then the text it is made over.
pub open spec fn signed_message(manifest: ManagedUpdateManifest) -> Seq<u8> {
    base64_bytes(manifest.signature@)->0 + encode_utf8(signed_payload(manifest))
}

/// The first thing wrong with a manifest.
pub open spec fn manifest_fault(
    manifest: ManagedUpdateManifest,
    channel: Seq<char>,
    key: Result<Seq<u8>, UpdateError>,
) -> Option<UpdateError> {
    match form_fault(manifest, channel) {
        Some(error) => Some(error),
        None => signature_fault(
            base64_bytes(manifest.signature@),
            key,
            opened(signed_message(manifest), key->Ok_0),
        ),
    }
}

/// The bytes of a signature, where there are as many as one has.
pub fn signature_from_bytes(decoded: Option<Vec<u8>>) -> (r: Result<Vec<u8>, UpdateError>)
    ensures
        match decoded {
            None => r == Err::<Vec<u8>, UpdateError>(UpdateError::SignatureNotBase64),
            Some(bytes) => r == (if bytes@.len() == SIGNATURE_BYTES {
                Ok(bytes)
            } else {
                Err(UpdateError::SignatureLength)
            }),
        },
{
    match decoded {
        Some(bytes) => if bytes.len() == SIGNATURE_BYTES {
            Ok(bytes)
        } else {
            Err(UpdateError::SignatureLength)
        },
        None => Err(UpdateError::SignatureNotBase64),
    }
}

/// Takes a manifest only where its fields are in order and its signature verifies under
/// the configured key. What was signed is then exactly the manifest's own text.
pub fn verify_managed_update_manifest(
    manifest: &ManagedUpdateManifest,
    channel: &str,
    configured_key: Option<&str>,
) -> (r: Result<(), UpdateError>)
    ensures
        r == verdict(
            manifest_fault(*manifest, channel@, signing_key(borrowed_view(configured_key))),
        ),
        r is Ok ==> opened(
            signed_message(*manifest),
            signing_key(borrowed_view(configured_key))->Ok_0,
        ) == Some(encode_utf8(signed_payload(*manifest))),
{
    if let Some(error) = check_manifest_form(manifest, channel) {
        return Err(error);
    }
    let mut signed = match signature_from_bytes(decode64(manifest.signature.as_str())) {
        Ok(signature) => signature,
        Err(error) => {
            return Err(error);
        },
    };
    let payload = managed_update_signed_payload(manifest);
    let ghost signature = signed@;
    signed.extend_from_slice(payload.as_str().as_bytes());
    proof {
        assert(signed@ =~= signed_message(*manifest));
        assert(signed@.skip(SIGNATURE_BYTES as int) =~= encode_utf8(signed_payload(*manifest)));
    }
    let public_key = match managed_update_signing_public_key(configured_key) {
        Ok(key) => key,
        Err(error) => {
            return Err(error);
        },
    };
    match open_signed(signed.as_slice(), public_key.as_slice()) {
        Some(_) => Ok(()),
        None => Err(UpdateError::SignatureVerification),
    }
}

/// The name of the file that an update is kept in until it is installed.
pub open spec fn temporary_name(manifest: ManagedUpdateManifest) -> Seq<char> {
    "rustdesk-managed-update-"@ + decimal(manifest.build_number as nat) + "-"@
        + manifest.file_name@
}

/// The name of the file that an update is kept in until it is installed.
pub fn managed_update_temp_name(manifest: &ManagedUpdateManifest) -> (r: String)
    ensures
        r@ == temporary_name(*manifest),
{
    joined(
        "rustdesk-managed-update-",
        decimal_text(manifest.build_number as u128).as_str(),
    ).concat("-").concat(manifest.file_name.as_str())
}

/// The first thing that does not fit between a file and its manifest.
pub open spec fn file_fault(data: Seq<u8>, manifest: ManagedUpdateManifest) -> Option<UpdateError> {
    if data.len() != manifest.size {
        Some(UpdateError::FileSize)
    } else if hex_text(sha256(data)) != lowercased(manifest.sha256@) {
        Some(UpdateError::FileSha256)
    } else {
        None
    }
}

/// Holds the contents of a file to the size and digest of a manifest.
pub fn verify_managed_update_file(data: &Vec<u8>, manifest: &ManagedUpdateManifest) -> (r: Result<
    (),
    UpdateError,
>)
    ensures
        r == verdict(file_fault(data@, *manifest)),
{
    if data.len() as u64 != manifest.size {
        return Err(UpdateError::FileSize);
    }
    let digest = sha256_digest(data.as_slice());
    let encoded = hex_encode(digest.as_slice());
    if !digest_matches(encoded.as_str(), manifest.sha256.as_str()) {
        return Err(UpdateError::FileSha256);
    }
    Ok(())
}

/// Whether a digest in lower-case hexadecimal is the one that `expected` gives in any case.
pub fn digest_matches(encoded: &str, expected: &str) -> (r: bool)
    ensures
        r == (encoded@ == lowercased(expected@)),
{
    same_text(encoded, lowercase(expected).as_str())
}

/// Where a check for an update is: what it waits for, and what it will need then.
pub enum UpdateStep {
    Latest,
    Manifest,
    Existing(ManagedUpdateManifest),
    Removing { manifest: ManagedUpdateManifest, path: String },
    Download { manifest: ManagedUpdateManifest, path: String },
    Body { manifest: ManagedUpdateManifest, path: String },
    Part { manifest: ManagedUpdateManifest, path: String },
    Renaming { manifest: ManagedUpdateManifest, path: String },
    Over,
}

/// What happened.
pub enum UpdateEvent {
    /// An answer has come, with its status and Retry-After header.
    Answered { status: u16, retry_after: Option<String> },
    RequestFailed(DirectoryApiError),
    ManifestReceived(ManagedUpdateManifest),
    ManifestUnreadable,
    /// The file of the update is not there; it would have this path.
    FileAbsent(String),
    FileUnreadable(String),
    FileRead { path: String, data: Vec<u8> },
    FileRemoved,
    BodyReceived(Vec<u8>),
    BodyUnreadable,
    /// The partial file was written, flushed and read back.
    PartRead(Vec<u8>),
    Renamed,
    /// A file could not be worked with; the system's own words.
    FileFailed(String),
}

/// What to do next.
pub enum UpdateAction {
    /// Read the answer's body as a manifest.
    ReadManifest,
    /// Look for the file of this name among the temporary files.
    ReadFile(String),
    RemoveFile,
    Send(HttpRequest),
    ReadBody,
    /// Write, flush and read back a partial file beside the file of the update.
    WritePart(Vec<u8>),
    /// Give the partial file the name of the update.
    Rename,
    NoUpdate,
    Offer(ManagedUpdateCandidate),
    Fail(UpdateError),
    OutOfTurn,
}

/// The mathematical form of an action.
pub enum UpdateActionView {
    ReadManifest,
    ReadFile(Seq<char>),
    RemoveFile,
    Send(RequestView),
    ReadBody,
    WritePart(Seq<u8>),
    Rename,
    NoUpdate,
    Offer { build_number: u64, version: Seq<char>, file_path: Seq<char> },
    Fail(UpdateError),
    OutOfTurn,
}

impl View for UpdateAction {
    type V = UpdateActionView;

    open spec fn view(&self) -> UpdateActionView {
        match *self {
            UpdateAction::ReadManifest => UpdateActionView::ReadManifest,
            UpdateAction::ReadFile(name) => UpdateActionView::ReadFile(name@),
            UpdateAction::RemoveFile => UpdateActionView::RemoveFile,
            UpdateAction::Send(request) => UpdateActionView::Send(request@),
            UpdateAction::ReadBody => UpdateActionView::ReadBody,
            UpdateAction::WritePart(data) => UpdateActionView::WritePart(data@),
            UpdateAction::Rename => UpdateActionView::Rename,
            UpdateAction::NoUpdate => UpdateActionView::NoUpdate,
            UpdateAction::Offer(candidate) => UpdateActionView::Offer {
                build_number: candidate.build_number,
                version: candidate.version@,
                file_path: candidate.file_path@,
            },
            UpdateAction::Fail(error) => UpdateActionView::Fail(error),
            UpdateAction::OutOfTurn => UpdateActionView::OutOfTurn,
        }
    }
}

/// What a check for an update depends on throughout.
pub struct UpdateTerms {
    pub base: Seq<char>,
    pub credential: Seq<char>,
    pub channel: Seq<char>,
    pub key: Result<Seq<u8>, UpdateError>,
    pub current_build: u64,
}

/// What a turn leaves.
pub struct UpdateTurn {
    pub step: UpdateStep,
    pub action: UpdateActionView,
}

/// The check ends with `action`.
pub open spec fn ended(action: UpdateActionView) -> UpdateTurn {
    UpdateTurn { step: UpdateStep::Over, action }
}

/// The update in the file at `path` is offered.
pub open spec fn offered(manifest: ManagedUpdateManifest, path: String) -> UpdateTurn {
    ended(
        UpdateActionView::Offer {
            build_number: manifest.build_number,
            version: manifest.version@,
            file_path: path@,
        },
    )
}

/// The manifest has come.
pub open spec fn after_manifest(terms: UpdateTerms, manifest: ManagedUpdateManifest) -> UpdateTurn {
    match manifest_fault(manifest, terms.channel, terms.key) {
        Some(error) => ended(UpdateActionView::Fail(error)),
        None => if manifest.build_number <= terms.current_build {
            ended(UpdateActionView::NoUpdate)
        } else {
            UpdateTurn {
                step: UpdateStep::Existing(manifest),
                action: UpdateActionView::ReadFile(temporary_name(manifest)),
            }
        },
    }
}

/// Get the file of the update from the server. A path that no address can hold cannot be
/// sent, and fails as a request does that cannot be.
pub open spec fn begin_download(
    terms: UpdateTerms,
    manifest: ManagedUpdateManifest,
    path: String,
) -> UpdateTurn {
    if !acceptable_base(terms.base) {
        ended(
            UpdateActionView::Fail(
                UpdateError::Api(
                    plain_error("managed update download", DirectoryApiErrorKind::Configuration),
                ),
            ),
        )
    } else if manifest.download_path@.len() <= PATH_TEXT_LIMIT {
        UpdateTurn {
            step: UpdateStep::Download { manifest, path },
            action: UpdateActionView::Send(
                RequestView {
                    method: HttpMethod::Get,
                    url: route_address(terms.base, manifest.download_path@),
                    bearer: Some(terms.credential),
                    body: None,
                },
            ),
        }
    } else {
        ended(
            UpdateActionView::Fail(
                UpdateError::Api(
                    plain_error("managed update download", DirectoryApiErrorKind::Transport),
                ),
            ),
        )
    }
}

/// Remove a file that does not fit.
pub open spec fn begin_removal(manifest: ManagedUpdateManifest, path: String) -> UpdateTurn {
    UpdateTurn {
        step: UpdateStep::Removing { manifest, path },
        action: UpdateActionView::RemoveFile,
    }
}

/// What the check does at `step` when `event` happens.
pub open spec fn update_transition(
    terms: UpdateTerms,
    step: UpdateStep,
    event: UpdateEvent,
) -> UpdateTurn {
    let out_of_turn = UpdateTurn { step, action: UpdateActionView::OutOfTurn };
    match step {
        UpdateStep::Latest => match event {
            UpdateEvent::Answered { status, retry_after } => if status == 204 {
                ended(UpdateActionView::NoUpdate)
            } else if status == 200 {
                UpdateTurn { step: UpdateStep::Manifest, action: UpdateActionView::ReadManifest }
            } else {
                ended(
                    UpdateActionView::Fail(
                        UpdateError::Api(
                            status_error("managed update", status, optional_view(retry_after)),
                        ),
                    ),
                )
            },
            UpdateEvent::RequestFailed(error) => ended(
                UpdateActionView::Fail(UpdateError::Api(error)),
            ),
            _ => out_of_turn,
        },
        UpdateStep::Manifest => match event {
            UpdateEvent::ManifestReceived(manifest) => after_manifest(terms, manifest),
            UpdateEvent::ManifestUnreadable => ended(
                UpdateActionView::Fail(
                    UpdateError::Api(
                        plain_error("managed update", DirectoryApiErrorKind::InvalidResponse),
                    ),
                ),
            ),
            _ => out_of_turn,
        },
        UpdateStep::Existing(manifest) => match event {
            UpdateEvent::FileRead { path, data } => if file_fault(data@, manifest) is None {
                offered(manifest, path)
            } else {
                begin_removal(manifest, path)
            },
            UpdateEvent::FileUnreadable(path) => begin_removal(manifest, path),
            UpdateEvent::FileAbsent(path) => begin_download(terms, manifest, path),
            _ => out_of_turn,
        },
        UpdateStep::Removing { manifest, path } => match event {
            UpdateEvent::FileRemoved => begin_download(terms, manifest, path),
            _ => out_of_turn,
        },
        UpdateStep::Download { manifest, path } => match event {
            UpdateEvent::Answered { status, retry_after } => if status == 200 {
                UpdateTurn {
                    step: UpdateStep::Body { manifest, path },
                    action: UpdateActionView::ReadBody,
                }
            } else {
                ended(
                    UpdateActionView::Fail(
                        UpdateError::Api(
                            status_error(
                                "managed update download",
                                status,
                                optional_view(retry_after),
                            ),
                        ),
                    ),
                )
            },
            UpdateEvent::RequestFailed(error) => ended(
                UpdateActionView::Fail(UpdateError::Api(error)),
            ),
            _ => out_of_turn,
        },
        UpdateStep::Body { manifest, path } => match event {
            UpdateEvent::BodyReceived(data) => if data@.len() != manifest.size {
                ended(UpdateActionView::Fail(UpdateError::DownloadSize))
            } else {
                UpdateTurn {
                    step: UpdateStep::Part { manifest, path },
                    action: UpdateActionView::WritePart(data@),
                }
            },
            UpdateEvent::BodyUnreadable => ended(
                UpdateActionView::Fail(
                    UpdateError::Api(
                        plain_error(
                            "managed update download",
                            DirectoryApiErrorKind::InvalidResponse,
                        ),
                    ),
                ),
            ),
            _ => out_of_turn,
        },
        UpdateStep::Part { manifest, path } => match event {
            UpdateEvent::PartRead(data) => match file_fault(data@, manifest) {
                Some(error) => ended(UpdateActionView::Fail(error)),
                None => UpdateTurn {
                    step: UpdateStep::Renaming { manifest, path },
                    action: UpdateActionView::Rename,
                },
            },
            UpdateEvent::FileFailed(text) => ended(
                UpdateActionView::Fail(UpdateError::System(text)),
            ),
            _ => out_of_turn,
        },
        UpdateStep::Renaming { manifest, path } => match event {
            UpdateEvent::Renamed => offered(manifest, path),
            UpdateEvent::FileFailed(text) => ended(
                UpdateActionView::Fail(UpdateError::System(text)),
            ),
            _ => out_of_turn,
        },
        UpdateStep::Over => out_of_turn,
    }
}

/// The manifest that a step holds.
pub open spec fn manifest_at(step: UpdateStep) -> Option<ManagedUpdateManifest> {
    match step {
        UpdateStep::Existing(manifest) => Some(manifest),
        UpdateStep::Removing { manifest, .. } => Some(manifest),
        UpdateStep::Download { manifest, .. } => Some(manifest),
        UpdateStep::Body { manifest, .. } => Some(manifest),
        UpdateStep::Part { manifest, .. } => Some(manifest),
        UpdateStep::Renaming { manifest, .. } => Some(manifest),
        UpdateStep::Latest | UpdateStep::Manifest | UpdateStep::Over => None,
    }
}

/// A check for an update.
pub struct UpdateCheck {
    pub base_url: String,
    pub credential: String,
    pub channel: String,
    pub signing_key: Option<String>,
    pub current_build: u64,
    pub step: UpdateStep,
}

/// What keeps a device from checking for an update, or the request that begins it.
pub enum UpdateStart {
    Fail(UpdateError),
    /// The device is not approved, so there is nothing for it.
    NoUpdate,
    Send(RequestView),
}

/// How a check for an update begins.
pub open spec fn update_start(
    base: Option<Seq<char>>,
    channel: Seq<char>,
    state: Option<PersistedDirectoryAuth>,
) -> UpdateStart {
    if base is None {
        UpdateStart::Fail(UpdateError::NoDirectory)
    } else if state is None {
        UpdateStart::Fail(UpdateError::NotEnrolled)
    } else if state->0.status != PersistedEnrollmentStatus::Approved {
        UpdateStart::NoUpdate
    } else if !has_approved_credential(state->0) || !acceptable_base(base->0) {
        UpdateStart::Fail(
            UpdateError::Api(
                plain_error("managed update", DirectoryApiErrorKind::Configuration),
            ),
        )
    } else {
        UpdateStart::Send(
            RequestView {
                method: HttpMethod::Get,
                url: paired_address(base->0, "/v1/updates/latest"@, "channel"@, channel),
                bearer: Some(text_or_empty(state->0.device_credential)),
                body: None,
            },
        )
    }
}

/// Begins a check for an update: the check and the request that asks for the latest
/// release, or nothing where the device is not approved.
pub fn managed_update_check_and_download(
    base_url: Option<&str>,
    channel: &str,
    signing_key: Option<String>,
    current_build: u64,
    state: Option<&PersistedDirectoryAuth>,
) -> (r: Result<Option<(UpdateCheck, HttpRequest)>, UpdateError>)
    requires
        base_url is Some ==> base_url->0@.len() <= URL_TEXT_LIMIT,
        channel@.len() <= URL_TEXT_LIMIT,
    ensures
        ({
            let stored = match state {
                Some(state) => Some(*state),
                None => None,
            };
            match update_start(borrowed_view(base_url), channel@, stored) {
                UpdateStart::Fail(error) => r == Err::<
                    Option<(UpdateCheck, HttpRequest)>,
                    UpdateError,
                >(error),
                UpdateStart::NoUpdate => r == Ok::<
                    Option<(UpdateCheck, HttpRequest)>,
                    UpdateError,
                >(None),
                UpdateStart::Send(request) => {
                    &&& r matches Ok(Some((check, sent)))
                    &&& sent@ == request
                    &&& check.base_url@ == base_url->0@
                    &&& check.credential@ == text_or_empty(stored->0.device_credential)
                    &&& check.channel@ == channel@
                    &&& check.signing_key == signing_key
                    &&& check.current_build == current_build
                    &&& check.step == UpdateStep::Latest
                },
            }
        }),
{
    let base_url = match base_url {
        Some(base_url) => base_url,
        None => {
            return Err(UpdateError::NoDirectory);
        },
    };
    let state = match state {
        Some(state) => state,
        None => {
            return Err(UpdateError::NotEnrolled);
        },
    };
    if state.status != PersistedEnrollmentStatus::Approved {
        return Ok(None);
    }
    let credential = match approved_credential(state, "managed update") {
        Ok(credential) => credential,
        Err(error) => {
            return Err(UpdateError::Api(error));
        },
    };
    proof {
        reveal_strlit("/v1/updates/latest");
        reveal_strlit("channel");
    }
    let url = match directory_api_url_with_pair(
        base_url,
        "/v1/updates/latest",
        "channel",
        channel,
        "managed update",
    ) {
        Ok(url) => url,
        Err(error) => {
            return Err(UpdateError::Api(error));
        },
    };
    let request = HttpRequest {
        method: HttpMethod::Get,
        url,
        bearer: Some(credential.to_owned()),
        body: None,
    };
    let check = UpdateCheck {
        base_url: base_url.to_owned(),
        credential: credential.to_owned(),
        channel: channel.to_owned(),
        signing_key,
        current_build,
        step: UpdateStep::Latest,
    };
    Ok(Some((check, request)))
}

impl UpdateCheck {
    /// Its address is short enough to be worked with.
    pub open spec fn well_formed(self) -> bool {
        self.base_url@.len() <= URL_TEXT_LIMIT
    }

    /// What it depends on throughout.
    pub open spec fn terms(self) -> UpdateTerms {
        UpdateTerms {
            base: self.base_url@,
            credential: self.credential@,
            channel: self.channel@,
            key: signing_key(optional_view(self.signing_key)),
            current_build: self.current_build,
        }
    }

    /// Nothing but the step differs from `other`.
    pub open spec fn same_terms(self, other: UpdateCheck) -> bool {
        self == (UpdateCheck { step: self.step, ..other })
    }

    fn download(&self, manifest: ManagedUpdateManifest, path: String) -> (r: (
        UpdateStep,
        UpdateAction,
    ))
        requires
            self.base_url@.len() <= URL_TEXT_LIMIT,
        ensures
            (UpdateTurn { step: r.0, action: r.1@ }) == begin_download(
                self.terms(),
                manifest,
                path,
            ),
    {
        if manifest.download_path.as_str().unicode_len() > PATH_TEXT_LIMIT {
            let error = if is_acceptable_base(self.base_url.as_str()) {
                DirectoryApiError::transport("managed update download", false, false)
            } else {
                DirectoryApiError::configuration("managed update download")
            };
            return (UpdateStep::Over, UpdateAction::Fail(UpdateError::Api(error)));
        }
        match directory_api_url(
            self.base_url.as_str(),
            manifest.download_path.as_str(),
            "managed update download",
        ) {
            Ok(url) => {
                let request = HttpRequest {
                    method: HttpMethod::Get,
                    url,
                    bearer: Some(self.credential.clone()),
                    body: None,
                };
                (UpdateStep::Download { manifest, path }, UpdateAction::Send(request))
            },
            Err(error) => (UpdateStep::Over, UpdateAction::Fail(UpdateError::Api(error))),
        }
    }

    fn take_turn(&self, step: UpdateStep, event: UpdateEvent) -> (r: (UpdateStep, UpdateAction))
        requires
            self.base_url@.len() <= URL_TEXT_LIMIT,
        ensures
            (UpdateTurn { step: r.0, action: r.1@ }) == update_transition(
                self.terms(),
                step,
                event,
            ),
    {
        match (step, event) {
            (UpdateStep::Latest, UpdateEvent::Answered { status, retry_after }) => {
                if status == 204 {
                    return (UpdateStep::Over, UpdateAction::NoUpdate);
                }
                if status != 200 {
                    let error = DirectoryApiError::from_http_response(
                        "managed update",
                        status,
                        borrowed(&retry_after),
                    );
                    return (UpdateStep::Over, UpdateAction::Fail(UpdateError::Api(error)));
                }
                (UpdateStep::Manifest, UpdateAction::ReadManifest)
            },
            (UpdateStep::Latest, UpdateEvent::RequestFailed(error)) => (
                UpdateStep::Over,
                UpdateAction::Fail(UpdateError::Api(error)),
            ),
            (UpdateStep::Manifest, UpdateEvent::ManifestReceived(manifest)) => {
                if let Err(error) = verify_managed_update_manifest(
                    &manifest,
                    self.channel.as_str(),
                    borrowed(&self.signing_key),
                ) {
                    return (UpdateStep::Over, UpdateAction::Fail(error));
                }
                if manifest.build_number <= self.current_build {
                    return (UpdateStep::Over, UpdateAction::NoUpdate);
                }
                let name = managed_update_temp_name(&manifest);
                (UpdateStep::Existing(manifest), UpdateAction::ReadFile(name))
            },
            (UpdateStep::Manifest, UpdateEvent::ManifestUnreadable) => {
                let error = DirectoryApiError::invalid_response("managed update");
                (UpdateStep::Over, UpdateAction::Fail(UpdateError::Api(error)))
            },
            (UpdateStep::Existing(manifest), UpdateEvent::FileRead { path, data }) => {
                match verify_managed_update_file(&data, &manifest) {
                    Ok(()) => (
                        UpdateStep::Over,
                        UpdateAction::Offer(candidate_of(manifest, path)),
                    ),
                    Err(_) => (UpdateStep::Removing { manifest, path }, UpdateAction::RemoveFile),
                }
            },
            (UpdateStep::Existing(manifest), UpdateEvent::FileUnreadable(path)) => (
                UpdateStep::Removing { manifest, path },
                UpdateAction::RemoveFile,
            ),
            (UpdateStep::Existing(manifest), UpdateEvent::FileAbsent(path)) => self.download(
                manifest,
                path,
            ),
            (UpdateStep::Removing { manifest, path }, UpdateEvent::FileRemoved) => self.download(
                manifest,
                path,
            ),
            (
                UpdateStep::Download { manifest, path },
                UpdateEvent::Answered { status, retry_after },
            ) => {
                if status != 200 {
                    let error = DirectoryApiError::from_http_response(
                        "managed update download",
                        status,
                        borrowed(&retry_after),
                    );
                    return (UpdateStep::Over, UpdateAction::Fail(UpdateError::Api(error)));
                }
                (UpdateStep::Body { manifest, path }, UpdateAction::ReadBody)
            },
            (UpdateStep::Download { .. }, UpdateEvent::RequestFailed(error)) => (
                UpdateStep::Over,
                UpdateAction::Fail(UpdateError::Api(error)),
            ),
            (UpdateStep::Body { manifest, path }, UpdateEvent::BodyReceived(data)) => {
                if data.len() as u64 != manifest.size {
                    return (UpdateStep::Over, UpdateAction::Fail(UpdateError::DownloadSize));
                }
                (UpdateStep::Part { manifest, path }, UpdateAction::WritePart(data))
            },
            (UpdateStep::Body { .. }, UpdateEvent::BodyUnreadable) => {
                let error = DirectoryApiError::invalid_response("managed update download");
                (UpdateStep::Over, UpdateAction::Fail(UpdateError::Api(error)))
            },
            (UpdateStep::Part { manifest, path }, UpdateEvent::PartRead(data)) => {
                match verify_managed_update_file(&data, &manifest) {
                    Ok(()) => (UpdateStep::Renaming { manifest, path }, UpdateAction::Rename),
                    Err(error) => (UpdateStep::Over, UpdateAction::Fail(error)),
                }
            },
            (UpdateStep::Part { .. }, UpdateEvent::FileFailed(text)) => (
                UpdateStep::Over,
                UpdateAction::Fail(UpdateError::System(text)),
            ),
            (UpdateStep::Renaming { manifest, path }, UpdateEvent::Renamed) => (
                UpdateStep::Over,
                UpdateAction::Offer(candidate_of(manifest, path)),
            ),
            (UpdateStep::Renaming { .. }, UpdateEvent::FileFailed(text)) => (
                UpdateStep::Over,
                UpdateAction::Fail(UpdateError::System(text)),
            ),
            (step, _) => (step, UpdateAction::OutOfTurn),
        }
    }

    /// Takes one turn: `event` has happened, and what is returned is to be done next. An
    /// event that the check does not wait for changes nothing.
    pub fn advance(&mut self, event: UpdateEvent) -> (action: UpdateAction)
        requires
            old(self).well_formed(),
        ensures
            (UpdateTurn { step: final(self).step, action: action@ }) == update_transition(
                old(self).terms(),
                old(self).step,
                event,
            ),
            final(self).same_terms(*old(self)),
            final(self).well_formed(),
    {
        let mut step = UpdateStep::Over;
        std::mem::swap(&mut step, &mut self.step);
        let (step, action) = self.take_turn(step, event);
        self.step = step;
        action
    }
}

fn candidate_of(manifest: ManagedUpdateManifest, path: String) -> (r: ManagedUpdateCandidate)
    ensures
        r == (ManagedUpdateCandidate {
            build_number: manifest.build_number,
            version: manifest.version,
            file_path: path,
        }),
{
    ManagedUpdateCandidate {
        build_number: manifest.build_number,
        version: manifest.version,
        file_path: path,
    }
}

/// The manifest is signed for this client and of a later build than its own.
pub open spec fn vetted(terms: UpdateTerms, manifest: ManagedUpdateManifest) -> bool {
    manifest_fault(manifest, terms.channel, terms.key) is None && manifest.build_number
        > terms.current_build
}

/// Whatever the check holds on to is vetted.
pub open spec fn holds_vetted(terms: UpdateTerms, step: UpdateStep) -> bool {
    manifest_at(step) matches Some(manifest) ==> vetted(terms, manifest)
}

/// A check holds on to nothing but signed manifests of later builds, from its start on.
pub proof fn law_only_vetted_manifests_are_followed(
    terms: UpdateTerms,
    step: UpdateStep,
    event: UpdateEvent,
)
    requires
        holds_vetted(terms, step),
    ensures
        holds_vetted(terms, UpdateStep::Latest),
        holds_vetted(terms, update_transition(terms, step, event).step),
{
}

/// An update is offered only for a vetted manifest, and only with a file that fits it in
/// size and digest: one that was there already, or one that was read back and found to
/// fit before it got its name.
pub proof fn law_only_fitting_files_are_offered(
    terms: UpdateTerms,
    step: UpdateStep,
    event: UpdateEvent,
)
    requires
        holds_vetted(terms, step),
    ensures
        update_transition(terms, step, event).action
            matches UpdateActionView::Offer { build_number, version, file_path } ==> {
            &&& manifest_at(step) matches Some(manifest)
            &&& vetted(terms, manifest)
            &&& build_number == manifest.build_number
            &&& version == manifest.version@
            &&& {
                ||| (event matches UpdateEvent::FileRead { path, data } && file_path == path@
                    && file_fault(data@, manifest) is None)
                ||| (step matches UpdateStep::Renaming { path, .. } && file_path == path@)
            }
        },
        update_transition(terms, step, event).step is Renaming && !(step is Renaming) ==> {
            &&& step matches UpdateStep::Part { manifest, path }
            &&& event matches UpdateEvent::PartRead(data)
            &&& file_fault(data@, manifest) is None
            &&& update_transition(terms, step, event).step == UpdateStep::Renaming {
                manifest,
                path,
            }
        },
{
}

/// Nothing is downloaded for a build that this client already has.
pub proof fn law_no_download_of_an_older_build(
    terms: UpdateTerms,
    manifest: ManagedUpdateManifest,
)
    requires
        manifest.build_number <= terms.current_build,
    ensures
        update_transition(
            terms,
            UpdateStep::Manifest,
            UpdateEvent::ManifestReceived(manifest),
        ).step is Over,
        !(update_transition(
            terms,
            UpdateStep::Manifest,
            UpdateEvent::ManifestReceived(manifest),
        ).action is Offer),
{
}

/// The format of a digest is sixty-four of the hexadecimal digits, in either case: it does
/// not depend on the case, and the text that the digest of any file is encoded to has it.
pub proof fn law_digest_format_is_free_of_case(text: Seq<char>, digest: Seq<u8>)
    ensures
        sha256_format(text) <==> sha256_format(lowercased(text)),
        sha256_format(text) <==> text.len() == 64 && forall|i: int|
            0 <= i < 64 ==> "0123456789abcdefABCDEF"@.contains(#[trigger] text[i]),
        digest.len() == 32 ==> sha256_format(hex_text(digest)),
        digest.len() == 32 ==> lowercased(hex_text(digest)) == hex_text(digest),
{
    reveal_strlit("0123456789abcdefABCDEF");
    let digits = "0123456789abcdefABCDEF"@;
    assert(digits.len() == 22);
    assert forall|c: char| is_hex_digit(c) <==> #[trigger] digits.contains(c) by {
        lemma_hex_digits_listed(c);
    }
    assert forall|c: char| is_hex_digit(c) <==> #[trigger] is_hex_digit(ascii_lower(c)) by {}
    if sha256_format(text) {
        assert forall|i: int| 0 <= i < lowercased(text).len() implies is_hex_digit(
            #[trigger] lowercased(text)[i],
        ) by {
            assert(is_hex_digit(text[i]));
            assert(is_hex_digit(ascii_lower(text[i])));
        }
    }
    if sha256_format(lowercased(text)) {
        assert forall|i: int| 0 <= i < text.len() implies is_hex_digit(#[trigger] text[i]) by {
            assert(is_hex_digit(lowercased(text)[i]));
            assert(is_hex_digit(ascii_lower(text[i])));
        }
    }
    if text.len() == 64 && (forall|i: int| 0 <= i < 64 ==> digits.contains(#[trigger] text[i])) {
        assert forall|i: int| 0 <= i < text.len() implies is_hex_digit(#[trigger] text[i]) by {
            assert(digits.contains(text[i]));
        }
    }
    if digest.len() == 32 {
        assert forall|i: int| 0 <= i < hex_text(digest).len() implies is_hex_digit(
            #[trigger] hex_text(digest)[i],
        ) && !('A' <= hex_text(digest)[i] <= 'Z') by {
            let v = if i % 2 == 0 {
                digest[i / 2] as int / 16
            } else {
                digest[i / 2] as int % 16
            };
            assert(hex_text(digest)[i] == hex_digit(v));
            assert(0 <= v < 16);
            assert(v < 10 ==> '0' <= hex_digit(v) <= '9');
            assert(v >= 10 ==> 'a' <= hex_digit(v) <= 'f');
        }
        assert(lowercased(hex_text(digest)) =~= hex_text(digest));
    }
}

proof fn lemma_hex_digits_listed(c: char)
    ensures
        is_hex_digit(c) <==> "0123456789abcdefABCDEF"@.contains(c),
{
    reveal_strlit("0123456789abcdefABCDEF");
    let digits = "0123456789abcdefABCDEF"@;
    if '0' <= c <= '9' {
        assert(digits[c as int - 48] == c);
    } else if 'a' <= c <= 'f' {
        assert(digits[c as int - 87] == c);
    } else if 'A' <= c <= 'F' {
        assert(digits[c as int - 49] == c);
    }
}

/// The text that a manifest's signature is made over has a line for each field, in this
/// order, with the field's own name and value.
pub proof fn law_signature_is_over_every_field(manifest: ManagedUpdateManifest, r: String)
    requires
        call_ensures(managed_update_signed_payload, (&manifest,), r),
    ensures
        r@ == "rustdesk-managed-update-v1\n"@ + "channel="@ + manifest.channel@ + "\nbuild_number="@
            + decimal(manifest.build_number as nat) + "\nversion="@ + manifest.version@
            + "\nfile_name="@ + manifest.file_name@ + "\nsize="@ + decimal(manifest.size as nat)
            + "\nsha256="@ + manifest.sha256@ + "\npublished_at="@ + manifest.published_at@
            + "\n"@,
{
}

/// A name is that of an executable exactly where it has no slash of either kind and ends in
/// a point and the letters e, x and e, each in either case.
pub proof fn law_executables_are_told_by_their_names(name: Seq<char>)
    ensures
        file_name_valid(name) <==> {
            let n = name.len() as int;
            &&& n >= 4
            &&& name[n - 4] == '.'
            &&& name[n - 3] == 'e' || name[n - 3] == 'E'
            &&& name[n - 2] == 'x' || name[n - 2] == 'X'
            &&& name[n - 1] == 'e' || name[n - 1] == 'E'
            &&& forall|i: int| 0 <= i < n ==> #[trigger] name[i] != '/' && name[i] != '\\'
        },
{
    reveal_strlit(".exe");
    let n = name.len() as int;
    let low = lowercased(name);
    assert(".exe"@.len() == 4);
    if n >= 4 {
        let tail = low.skip(n - 4);
        assert(tail[0] == ascii_lower(name[n - 4]));
        assert(tail[1] == ascii_lower(name[n - 3]));
        assert(tail[2] == ascii_lower(name[n - 2]));
        assert(tail[3] == ascii_lower(name[n - 1]));
        assert(tail =~= ".exe"@ <==> tail[0] == '.' && tail[1] == 'e' && tail[2] == 'x' && tail[3]
            == 'e');
    }
    if forall|i: int| 0 <= i < n ==> #[trigger] name[i] != '/' && name[i] != '\\' {
        assert(!name.contains('/'));
        assert(!name.contains('\\'));
    }
    if !name.contains('/') && !name.contains('\\') {
        assert forall|i: int| 0 <= i < n implies #[trigger] name[i] != '/' && name[i] != '\\' by {
            assert(name.contains(name[i]));
        }
    }
}

/// A manifest is taken exactly where it is of this channel, names an executable and the path
/// of that executable, has a digest in order, and its signature of sixty-four bytes opens
/// under the configured key of thirty-two.
pub proof fn law_manifest_is_taken_where_all_is_in_order(
    manifest: ManagedUpdateManifest,
    channel: &str,
    configured: Option<&str>,
    payload: String,
    r: Result<(), UpdateError>,
)
    requires
        call_ensures(verify_managed_update_manifest, (&manifest, channel, configured), r),
        call_ensures(managed_update_signed_payload, (&manifest,), payload),
    ensures
        r is Ok <==> {
            &&& manifest.channel@ == channel@
            &&& file_name_valid(manifest.file_name@)
            &&& manifest.download_path@ == "/v1/updates/releases/"@ + manifest.file_name@
            &&& manifest.sha256@.len() == 64
            &&& forall|i: int|
                0 <= i < 64 ==> "0123456789abcdefABCDEF"@.contains(#[trigger] manifest.sha256@[i])
            &&& base64_bytes(manifest.signature@) matches Some(signature)
            &&& signature.len() == 64
            &&& configured matches Some(text)
            &&& trimmed(text@).len() > 0
            &&& base64_bytes(trimmed(text@)) matches Some(key)
            &&& key.len() == 32
            &&& opened(signature + encode_utf8(payload@), key) is Some
        },
{
    law_digest_format_is_free_of_case(manifest.sha256@, Seq::empty());
    if let Some(text) = configured {
        lemma_blank_iff_trimmed_empty(text@);
    }
}

/// Each fault of a manifest is the one that is named, the first one where there are several.
pub proof fn law_first_fault_of_a_manifest_is_named(
    manifest: ManagedUpdateManifest,
    channel: &str,
    configured: Option<&str>,
    r: Result<(), UpdateError>,
)
    requires
        call_ensures(verify_managed_update_manifest, (&manifest, channel, configured), r),
    ensures
        manifest.channel@ != channel@ <==> r == Err::<(), UpdateError>(UpdateError::Channel),
        r == Err::<(), UpdateError>(UpdateError::FileName) <==> manifest.channel@ == channel@
            && !file_name_valid(manifest.file_name@),
        r == Err::<(), UpdateError>(UpdateError::DownloadPath) <==> manifest.channel@ == channel@
            && file_name_valid(manifest.file_name@) && manifest.download_path@
            != "/v1/updates/releases/"@ + manifest.file_name@,
        r == Err::<(), UpdateError>(UpdateError::Sha256Format) ==> !(manifest.sha256@.len() == 64
            && forall|i: int|
            0 <= i < 64 ==> "0123456789abcdefABCDEF"@.contains(#[trigger] manifest.sha256@[i])),
        r == Err::<(), UpdateError>(UpdateError::SignatureNotBase64) ==> base64_bytes(
            manifest.signature@,
        ) is None,
        r == Err::<(), UpdateError>(UpdateError::SignatureLength) ==> base64_bytes(
            manifest.signature@,
        ) is Some && base64_bytes(manifest.signature@)->0.len() != 64,
        r == Err::<(), UpdateError>(UpdateError::KeyNotConfigured) ==> configured is None
            || trimmed(configured->0@).len() == 0,
        r == Err::<(), UpdateError>(UpdateError::KeyNotBase64) ==> configured is Some
            && base64_bytes(trimmed(configured->0@)) is None,
        r == Err::<(), UpdateError>(UpdateError::KeyLength) ==> configured is Some && base64_bytes(
            trimmed(configured->0@),
        ) is Some && base64_bytes(trimmed(configured->0@))->0.len() != 32,
{
    law_digest_format_is_free_of_case(manifest.sha256@, Seq::empty());
    if let Some(text) = configured {
        lemma_blank_iff_trimmed_empty(text@);
    }
}

/// A file fits a manifest exactly where it has the manifest's size and its digest is the
/// manifest's, whatever the case of the latter. A wrong size is named before a wrong digest.
pub proof fn law_file_fits_by_size_and_digest(
    data: Vec<u8>,
    manifest: ManagedUpdateManifest,
    r: Result<(), UpdateError>,
)
    requires
        call_ensures(verify_managed_update_file, (&data, &manifest), r),
    ensures
        r is Ok <==> data@.len() == manifest.size && hex_text(sha256(data@)) == lowercased(
            manifest.sha256@,
        ),
        data@.len() != manifest.size <==> r == Err::<(), UpdateError>(UpdateError::FileSize),
        r is Err && data@.len() == manifest.size ==> r == Err::<(), UpdateError>(
            UpdateError::FileSha256,
        ),
{
}

/// The build number is what the configured text denotes, white space around it aside, and
/// zero where it denotes none. The channel is the configured one, and the stable one where
/// none is.
pub proof fn law_configured_build_and_channel(
    configured: Option<&str>,
    build: u64,
    channel: &str,
)
    requires
        call_ensures(managed_build_number, (configured,), build),
        call_ensures(managed_update_channel, (configured,), channel),
    ensures
        configured is None ==> build == 0 && channel@ == "stable"@,
        configured matches Some(text) ==> {
            &&& unsigned_value(trimmed(text@)) matches Some(number) ==> build == number
            &&& unsigned_value(trimmed(text@)) is None ==> build == 0
            &&& trimmed(text@).len() > 0 ==> channel@ == trimmed(text@)
            &&& trimmed(text@).len() == 0 ==> channel@ == "stable"@
        },
{
    if let Some(text) = configured {
        lemma_blank_iff_trimmed_empty(text@);
    }
}

/// A file of an update is kept under the update's own build number and file name.
pub proof fn law_files_are_kept_by_build_and_name(manifest: ManagedUpdateManifest, r: String)
    requires
        call_ensures(managed_update_temp_name, (&manifest,), r),
    ensures
        r@ == "rustdesk-managed-update-"@ + decimal(manifest.build_number as nat) + "-"@
            + manifest.file_name@,
{
}

/// A check begins only for an approved device with a credential, and with its credential asks
/// the directory for the latest release of the channel. Everything that it was begun with it
/// holds on to.
pub proof fn law_check_begins_with_the_latest_release(
    base_url: Option<&str>,
    channel: &str,
    signing_key: Option<String>,
    current_build: u64,
    state: Option<&PersistedDirectoryAuth>,
    r: Result<Option<(UpdateCheck, HttpRequest)>, UpdateError>,
)
    requires
        call_ensures(
            managed_update_check_and_download,
            (base_url, channel, signing_key, current_build, state),
            r,
        ),
    ensures
        base_url is None ==> r == Err::<Option<(UpdateCheck, HttpRequest)>, UpdateError>(
            UpdateError::NoDirectory,
        ),
        base_url is Some && state is None ==> r == Err::<
            Option<(UpdateCheck, HttpRequest)>,
            UpdateError,
        >(UpdateError::NotEnrolled),
        base_url is Some && state is Some && state->0.status != PersistedEnrollmentStatus::Approved
            ==> r == Ok::<Option<(UpdateCheck, HttpRequest)>, UpdateError>(None),
        base_url is Some && state is Some && state->0.status == PersistedEnrollmentStatus::Approved
            ==> (r is Ok <==> acceptable_base(base_url->0@) && (
        state->0.device_credential matches Some(credential) && credential@.len() > 0)),
        base_url is Some && state is Some ==> (r matches Err(error) ==> {
            &&& error matches UpdateError::Api(cause)
            &&& cause.operation == "managed update"
            &&& cause.kind == DirectoryApiErrorKind::Configuration
            &&& cause.status is None
            &&& cause.retry_after_seconds is None
        }),
        r matches Ok(Some((check, request))) ==> {
            &&& request.method == HttpMethod::Get
            &&& request.url@ == route_address(base_url->0@, "/v1/updates/latest"@) + "?"@
                + written_pair("channel"@, channel@)
            &&& request.bearer is Some
            &&& request.bearer->0@ == state->0.device_credential->0@
            &&& request.body is None
            &&& check.base_url@ == base_url->0@
            &&& check.credential@ == state->0.device_credential->0@
            &&& check.channel@ == channel@
            &&& check.signing_key == signing_key
            &&& check.current_build == current_build
            &&& check.step == UpdateStep::Latest
        },
{
    if let Ok(Some((check, request))) = r {
        assert(request@.bearer is Some);
        assert(request@.body is None);
    }
}

/// No turn of a check changes what it was begun with.
pub proof fn law_check_keeps_its_terms(
    check: &mut UpdateCheck,
    event: UpdateEvent,
    action: UpdateAction,
)
    requires
        call_ensures(UpdateCheck::advance, (check, event), action),
    ensures
        final(check).base_url == old(check).base_url,
        final(check).credential == old(check).credential,
        final(check).channel == old(check).channel,
        final(check).signing_key == old(check).signing_key,
        final(check).current_build == old(check).current_build,
{
}

/// The answer to the first request decides: no content is no update, success has the manifest
/// read, and anything else ends the check with the error of its status.
pub proof fn law_check_reads_the_manifest_on_success(
    check: &mut UpdateCheck,
    status: u16,
    retry_after: Option<String>,
    header: Option<&str>,
    plain: DirectoryApiError,
    action: UpdateAction,
)
    requires
        call_ensures(
            UpdateCheck::advance,
            (check, UpdateEvent::Answered { status, retry_after }),
            action,
        ),
        old(check).step == UpdateStep::Latest,
        borrowed_view(header) == optional_view(retry_after),
        call_ensures(
            DirectoryApiError::from_http_response,
            ("managed update", status, header),
            plain,
        ),
    ensures
        status == 204 ==> action is NoUpdate && final(check).step is Over,
        status == 200 ==> action is ReadManifest && final(check).step is Manifest,
        status != 204 && status != 200 ==> {
            &&& action matches UpdateAction::Fail(UpdateError::Api(error))
            &&& error.operation == "managed update"
            &&& error.status == Some(status)
            &&& error == plain
            &&& final(check).step is Over
        },
{
}

/// A manifest that is not taken ends the check with its fault; one of a build that this client
/// has already is no update; for any other the file of this build is looked for.
pub proof fn law_check_follows_later_builds_only(
    check: &mut UpdateCheck,
    manifest: ManagedUpdateManifest,
    channel: &str,
    configured: Option<&str>,
    verdict: Result<(), UpdateError>,
    action: UpdateAction,
)
    requires
        call_ensures(
            UpdateCheck::advance,
            (check, UpdateEvent::ManifestReceived(manifest)),
            action,
        ),
        old(check).step == UpdateStep::Manifest,
        channel@ == old(check).channel@,
        borrowed_view(configured) == optional_view(old(check).signing_key),
        call_ensures(
            verify_managed_update_manifest,
            (&manifest, channel, configured),
            verdict,
        ),
    ensures
        verdict matches Err(error) ==> action == UpdateAction::Fail(error) && final(check).step
            is Over,
        verdict is Ok && manifest.build_number <= old(check).current_build ==> action is NoUpdate
            && final(check).step is Over,
        verdict is Ok && manifest.build_number > old(check).current_build ==> {
            &&& action matches UpdateAction::ReadFile(name)
            &&& name@ == "rustdesk-managed-update-"@ + decimal(manifest.build_number as nat) + "-"@
                + manifest.file_name@
            &&& final(check).step == UpdateStep::Existing(manifest)
        },
{
}

/// A file that is there and fits is offered as it is; one that does not fit, or cannot be
/// read, is removed; where there is none, it is downloaded.
pub proof fn law_file_that_is_there_is_used_or_removed(
    check: &mut UpdateCheck,
    event: UpdateEvent,
    manifest: ManagedUpdateManifest,
    action: UpdateAction,
)
    requires
        call_ensures(UpdateCheck::advance, (check, event), action),
        old(check).step == UpdateStep::Existing(manifest),
    ensures
        event matches UpdateEvent::FileRead { path, data } ==> {
            let fits = data@.len() == manifest.size && hex_text(sha256(data@)) == lowercased(
                manifest.sha256@,
            );
            &&& fits ==> {
                &&& action matches UpdateAction::Offer(offer)
                &&& offer.build_number == manifest.build_number
                &&& offer.version@ == manifest.version@
                &&& offer.file_path@ == path@
                &&& final(check).step is Over
            }
            &&& !fits ==> action is RemoveFile && final(check).step == (UpdateStep::Removing {
                manifest,
                path,
            })
        },
        event matches UpdateEvent::FileUnreadable(path) ==> {
            &&& action is RemoveFile
            &&& final(check).step == (UpdateStep::Removing { manifest, path })
        },
        event matches UpdateEvent::FileAbsent(path) ==> (acceptable_base(old(check).base_url@)
            && manifest.download_path@.len() <= PATH_TEXT_LIMIT ==> {
            &&& action matches UpdateAction::Send(request)
            &&& request.method == HttpMethod::Get
            &&& request.url@ == route_address(old(check).base_url@, manifest.download_path@)
            &&& request.bearer is Some
            &&& request.bearer->0@ == old(check).credential@
            &&& request.body is None
            &&& final(check).step == (UpdateStep::Download { manifest, path })
        }),
{
    if let UpdateAction::Send(request) = action {
        assert(request@.bearer is Some);
        assert(request@.body is None);
    }
}

/// Once a file that does not fit is removed, the update is downloaded under the same path.
pub proof fn law_removed_file_is_downloaded_again(
    check: &mut UpdateCheck,
    manifest: ManagedUpdateManifest,
    path: String,
    action: UpdateAction,
)
    requires
        call_ensures(UpdateCheck::advance, (check, UpdateEvent::FileRemoved), action),
        old(check).step == (UpdateStep::Removing { manifest, path }),
        acceptable_base(old(check).base_url@),
        manifest.download_path@.len() <= PATH_TEXT_LIMIT,
    ensures
        action matches UpdateAction::Send(request) && request.url@ == route_address(
            old(check).base_url@,
            manifest.download_path@,
        ) && request.bearer is Some && request.bearer->0@ == old(check).credential@
            && request.method == HttpMethod::Get,
        final(check).step == (UpdateStep::Download { manifest, path }),
{
    if let UpdateAction::Send(request) = action {
        assert(request@.bearer is Some);
    }
}

/// A download goes on from a success to its body, from a body of the right size to the partial
/// file with just that body, from a partial file that fits to its name, and from there to the
/// offer. What does not fit on the way ends the check.
pub proof fn law_download_goes_on_to_the_offer(
    check: &mut UpdateCheck,
    event: UpdateEvent,
    manifest: ManagedUpdateManifest,
    path: String,
    header: Option<&str>,
    plain: DirectoryApiError,
    action: UpdateAction,
)
    requires
        call_ensures(UpdateCheck::advance, (check, event), action),
        event matches UpdateEvent::Answered { status, retry_after } ==> borrowed_view(header)
            == optional_view(retry_after) && call_ensures(
            DirectoryApiError::from_http_response,
            ("managed update download", status, header),
            plain,
        ),
    ensures
        old(check).step == (UpdateStep::Download { manifest, path }) ==> (
        event matches UpdateEvent::Answered { status, .. } ==> {
            &&& status == 200 ==> action is ReadBody && final(check).step == (UpdateStep::Body {
                manifest,
                path,
            })
            &&& status != 200 ==> {
                &&& action matches UpdateAction::Fail(UpdateError::Api(error))
                &&& error.operation == "managed update download"
                &&& error.status == Some(status)
                &&& error == plain
                &&& final(check).step is Over
            }
        }),
        old(check).step == (UpdateStep::Body { manifest, path }) ==> (
        event matches UpdateEvent::BodyReceived(data) ==> {
            &&& data@.len() == manifest.size ==> {
                &&& action matches UpdateAction::WritePart(written)
                &&& written@ == data@
                &&& final(check).step == (UpdateStep::Part { manifest, path })
            }
            &&& data@.len() != manifest.size ==> action == UpdateAction::Fail(
                UpdateError::DownloadSize,
            ) && final(check).step is Over
        }),
        old(check).step == (UpdateStep::Part { manifest, path }) ==> (
        event matches UpdateEvent::PartRead(data) ==> {
            let fits = data@.len() == manifest.size && hex_text(sha256(data@)) == lowercased(
                manifest.sha256@,
            );
            &&& fits ==> action is Rename && final(check).step == (UpdateStep::Renaming {
                manifest,
                path,
            })
            &&& !fits ==> final(check).step is Over
            &&& data@.len() != manifest.size ==> action == UpdateAction::Fail(UpdateError::FileSize)
            &&& !fits && data@.len() == manifest.size ==> action == UpdateAction::Fail(
                UpdateError::FileSha256,
            )
        }),
        old(check).step == (UpdateStep::Renaming { manifest, path }) && event is Renamed ==> {
            &&& action matches UpdateAction::Offer(offer)
            &&& offer.build_number == manifest.build_number
            &&& offer.version@ == manifest.version@
            &&& offer.file_path@ == path@
            &&& final(check).step is Over
        },
{
}

/// What fails in the course of a check ends it with that failure.
pub proof fn law_failures_end_the_check(
    check: &mut UpdateCheck,
    event: UpdateEvent,
    action: UpdateAction,
)
    requires
        call_ensures(UpdateCheck::advance, (check, event), action),
    ensures
        event matches UpdateEvent::RequestFailed(error) && (old(check).step is Latest
            || old(check).step is Download) ==> action == UpdateAction::Fail(
            UpdateError::Api(event->RequestFailed_0),
        ) && final(check).step is Over,
        event matches UpdateEvent::FileFailed(text) && (old(check).step is Part
            || old(check).step is Renaming) ==> action == UpdateAction::Fail(
            UpdateError::System(event->FileFailed_0),
        ) && final(check).step is Over,
        event is ManifestUnreadable && old(check).step is Manifest ==> {
            &&& action matches UpdateAction::Fail(UpdateError::Api(error))
            &&& error.operation == "managed update"
            &&& error.kind == DirectoryApiErrorKind::InvalidResponse
            &&& final(check).step is Over
        },
        event is BodyUnreadable && old(check).step is Body ==> {
            &&& action matches UpdateAction::Fail(UpdateError::Api(error))
            &&& error.operation == "managed update download"
            &&& error.kind == DirectoryApiErrorKind::InvalidResponse
            &&& final(check).step is Over
        },
{
}

/// Each reason for which there is no update is told in its own words.
pub proof fn law_update_errors_are_told_in_their_own_words(error: UpdateError, r: String)
    requires
        call_ensures(UpdateError::text, (&error,), r),
    ensures
        error is NoDirectory ==> r@ == "Managed directory URL is not compiled in"@,
        error is NotEnrolled ==> r@ == "Managed device is not enrolled"@,
        error is KeyNotConfigured ==> r@ == "Managed update signing key is not compiled in"@,
        error is KeyNotBase64 ==> r@ == "Managed update signing key is invalid base64"@,
        error is KeyLength ==> r@ == "Managed update signing key has invalid length"@,
        error is Channel ==> r@ == "Managed update channel mismatch"@,
        error is FileName ==> r@ == "Managed update file name is invalid"@,
        error is DownloadPath ==> r@ == "Managed update download path is invalid"@,
        error is Sha256Format ==> r@ == "Managed update SHA256 is invalid"@,
        error is SignatureNotBase64 ==> r@ == "Managed update signature is invalid base64"@,
        error is SignatureLength ==> r@ == "Managed update signature has invalid length"@,
        error is SignatureVerification ==> r@ == "Managed update signature verification failed"@,
        error is FileSize ==> r@ == "Managed update file size mismatch"@,
        error is FileSha256 ==> r@ == "Managed update SHA256 verification failed"@,
        error is DownloadSize ==> r@ == "Managed update download size mismatch"@,
        error matches UpdateError::Api(error) ==> r@ == error_text(error),
        error matches UpdateError::System(text) ==> r@ == text@,
{
}

/// A signing key is the base64 text that is configured, white space around it aside, and has
/// thirty-two bytes; a signature has sixty-four. What is missing, not base64 or of another
/// length is refused as that.
pub proof fn law_keys_and_signatures_have_their_lengths(
    configured: Option<&str>,
    key: Result<Vec<u8>, UpdateError>,
    raw: Vec<u8>,
    taken: Result<Vec<u8>, UpdateError>,
    decoded: Option<Vec<u8>>,
    signature: Result<Vec<u8>, UpdateError>,
)
    requires
        call_ensures(managed_update_signing_public_key, (configured,), key),
        call_ensures(signing_key_from_bytes, (raw,), taken),
        call_ensures(signature_from_bytes, (decoded,), signature),
    ensures
        key matches Ok(bytes) ==> {
            &&& bytes@.len() == 32
            &&& configured matches Some(text)
            &&& base64_bytes(trimmed(text@)) == Some(bytes@)
        },
        configured is None ==> key == Err::<Vec<u8>, UpdateError>(UpdateError::KeyNotConfigured),
        configured matches Some(text) ==> {
            &&& trimmed(text@).len() == 0 ==> key == Err::<Vec<u8>, UpdateError>(
                UpdateError::KeyNotConfigured,
            )
            &&& trimmed(text@).len() > 0 && base64_bytes(trimmed(text@)) is None
                ==> key == Err::<Vec<u8>, UpdateError>(UpdateError::KeyNotBase64)
            &&& trimmed(text@).len() > 0 ==> (base64_bytes(trimmed(text@)) matches Some(bytes) ==> {
                &&& bytes.len() == 32 ==> key is Ok
                &&& bytes.len() != 32 ==> key == Err::<Vec<u8>, UpdateError>(UpdateError::KeyLength)
            })
        },
        raw@.len() == 32 ==> taken == Ok::<Vec<u8>, UpdateError>(raw),
        raw@.len() != 32 ==> taken == Err::<Vec<u8>, UpdateError>(UpdateError::KeyLength),
        decoded is None ==> signature == Err::<Vec<u8>, UpdateError>(
            UpdateError::SignatureNotBase64,
        ),
        decoded matches Some(bytes) ==> {
            &&& bytes@.len() == 64 ==> signature == Ok::<Vec<u8>, UpdateError>(bytes)
            &&& bytes@.len() != 64 ==> signature == Err::<Vec<u8>, UpdateError>(
                UpdateError::SignatureLength,
            )
        },
{
    if let Some(text) = configured {
        lemma_blank_iff_trimmed_empty(text@);
    }
}

/// A download that cannot be asked for ends the check: as one that is not set up where the
/// directory may not be reached, and as one that cannot be sent where its path is too long.
pub proof fn law_download_that_cannot_be_asked_for_ends_the_check(
    check: &mut UpdateCheck,
    event: UpdateEvent,
    manifest: ManagedUpdateManifest,
    action: UpdateAction,
)
    requires
        call_ensures(UpdateCheck::advance, (check, event), action),
        ({
            ||| old(check).step == UpdateStep::Existing(manifest) && event is FileAbsent
            ||| {
                &&& old(check).step matches UpdateStep::Removing { manifest: kept, .. }
                &&& kept == manifest
                &&& event is FileRemoved
            }
        }),
        !acceptable_base(old(check).base_url@) || manifest.download_path@.len() > PATH_TEXT_LIMIT,
    ensures
        final(check).step is Over,
        action matches UpdateAction::Fail(UpdateError::Api(error)) && error.operation
            == "managed update download" && error.status is None && error.retry_after_seconds
            is None && (acceptable_base(old(check).base_url@) ==> error.kind
            == DirectoryApiErrorKind::Transport) && (!acceptable_base(old(check).base_url@)
            ==> error.kind == DirectoryApiErrorKind::Configuration),
{
}

/// Each step of a check awaits the outcomes of what it asked for, and no other event changes
/// anything; a check that is over awaits nothing.
pub proof fn law_check_awaits_what_it_asked_for(
    check: &mut UpdateCheck,
    event: UpdateEvent,
    action: UpdateAction,
)
    requires
        call_ensures(UpdateCheck::advance, (check, event), action),
    ensures
        action is OutOfTurn ==> final(check).step == old(check).step,
        action is OutOfTurn <==> !{
            ||| old(check).step is Latest && (event is Answered || event is RequestFailed)
            ||| old(check).step is Manifest && (event is ManifestReceived
                || event is ManifestUnreadable)
            ||| old(check).step is Existing && (event is FileRead || event is FileUnreadable
                || event is FileAbsent)
            ||| old(check).step is Removing && event is FileRemoved
            ||| old(check).step is Download && (event is Answered || event is RequestFailed)
            ||| old(check).step is Body && (event is BodyReceived || event is BodyUnreadable)
            ||| old(check).step is Part && (event is PartRead || event is FileFailed)
            ||| old(check).step is Renaming && (event is Renamed || event is FileFailed)
        },
{
    let seen = action@;
}

/// Of all that is wrong with a manifest the first is named: the channel, the file's name, its
/// path, the form of its digest, the text and the length of the signature, the key that is
/// configured, its text and its length, and last the signature itself.
pub proof fn law_faults_of_a_manifest_are_named_in_order(
    manifest: ManagedUpdateManifest,
    channel: &str,
    configured: Option<&str>,
    payload: String,
    r: Result<(), UpdateError>,
)
    requires
        call_ensures(verify_managed_update_manifest, (&manifest, channel, configured), r),
        call_ensures(managed_update_signed_payload, (&manifest,), payload),
    ensures
        ({
            let of_channel = manifest.channel@ == channel@;
            let named = file_name_valid(manifest.file_name@);
            let at_path = manifest.download_path@ == "/v1/updates/releases/"@ + manifest.file_name@;
            let formed = sha256_format(manifest.sha256@);
            let decoded = base64_bytes(manifest.signature@) is Some;
            let of_length = base64_bytes(manifest.signature@)->0.len() == 64;
            let keyed = configured is Some && trimmed(configured->0@).len() > 0;
            let key_decoded = base64_bytes(trimmed(configured->0@)) is Some;
            let key_of_length = base64_bytes(trimmed(configured->0@))->0.len() == 32;
            let signed = opened(
                base64_bytes(manifest.signature@)->0 + encode_utf8(payload@),
                base64_bytes(trimmed(configured->0@))->0,
            ) is Some;
            &&& r == Err::<(), UpdateError>(UpdateError::Channel) <==> !of_channel
            &&& r == Err::<(), UpdateError>(UpdateError::FileName) <==> of_channel && !named
            &&& r == Err::<(), UpdateError>(UpdateError::DownloadPath)
                <==> of_channel && named && !at_path
            &&& r == Err::<(), UpdateError>(UpdateError::Sha256Format)
                <==> of_channel && named && at_path && !formed
            &&& r == Err::<(), UpdateError>(UpdateError::SignatureNotBase64)
                <==> of_channel && named && at_path && formed && !decoded
            &&& r == Err::<(), UpdateError>(UpdateError::SignatureLength)
                <==> of_channel && named && at_path && formed && decoded && !of_length
            &&& r == Err::<(), UpdateError>(UpdateError::KeyNotConfigured)
                <==> of_channel && named && at_path && formed && decoded && of_length && !keyed
            &&& r == Err::<(), UpdateError>(
                UpdateError::KeyNotBase64,
            ) <==> of_channel && named && at_path && formed
                && decoded && of_length && keyed && !key_decoded
            &&& r == Err::<(), UpdateError>(
                UpdateError::KeyLength,
            ) <==> of_channel && named && at_path && formed && decoded
                && of_length && keyed && key_decoded && !key_of_length
            &&& r == Err::<(), UpdateError>(
                UpdateError::SignatureVerification,
            ) <==> of_channel && named && at_path && formed && decoded
                && of_length && keyed && key_decoded && key_of_length && !signed
        }),
{
    if let Some(text) = configured {
        lemma_blank_iff_trimmed_empty(text@);
    }
}

} // verus!
