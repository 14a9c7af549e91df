//! What a release is called and where it is found: the names of its files,
//! the addresses they are fetched from, and the name that the release
//! metadata carries.

use crate::text::{has_prefix, starts_with};
use crate::version::{render_version, Version};
use vstd::prelude::*;
use vstd::string::StringExecFns;

verus! {

/// The status of a response that succeeded.
pub const RESPONSE_OKAY: u32 = 200;

/// Where the metadata of the latest release is fetched from.
pub const API_URL: &'static str = "https://api.github.com/repos/cdotrus/orbit/releases/latest";

/// Under which address the files of every release are published.
pub const BASE_URL: &'static str = "https://github.com/cdotrus/orbit/releases";

/// The header that goes with the request for the release metadata.
pub const USER_AGENT: &'static str = "User-Agent: Orbit";

/// The member of the release metadata that holds the name of the release.
pub const NAME_FIELD: &'static str = "name";

/// How the name of every binary that an update leaves behind begins.
pub const STALE_PREFIX: &'static str = "orbit-";

/// The target of a machine: its architecture and operating system.
pub open spec fn target_of(arch: Seq<char>, os: Seq<char>) -> Seq<char> {
    arch + "-"@ + os
}

/// What follows the name of an executable on a platform whose executables
/// have the extension `extension`.
pub open spec fn suffix_of(extension: Seq<char>) -> Seq<char> {
    if extension.len() == 0 {
        ""@
    } else {
        ".exe"@
    }
}

/// The name of the archive of `version` for `target`.
pub open spec fn archive_name(version: Version, target: Seq<char>) -> Seq<char> {
    "orbit-"@ + render_version(version) + "-"@ + target + ".zip"@
}

/// The address of the checksum manifest of `version`.
pub open spec fn checksums_url(version: Version) -> Seq<char> {
    BASE_URL@ + "/download/"@ + render_version(version) + "/orbit-"@ + render_version(version)
        + "-checksums.txt"@
}

/// The address of the archive of `version` for `target`.
pub open spec fn archive_url(version: Version, target: Seq<char>) -> Seq<char> {
    BASE_URL@ + "/download/"@ + render_version(version) + "/"@ + archive_name(version, target)
}

/// Where the executable lies inside the archive of `version` for `target`.
pub open spec fn executable_path(version: Version, target: Seq<char>, suffix: Seq<char>) -> Seq<
    char,
> {
    "orbit-"@ + render_version(version) + "-"@ + target + "/bin/orbit"@ + suffix
}

/// The name under which the binary of `version` is kept after an update.
pub open spec fn stale_name(version: Version) -> Seq<char> {
    STALE_PREFIX@ + render_version(version)
}

/// Whether a file of this name is a binary that an earlier update left
/// behind.
pub open spec fn is_stale(name: Seq<char>) -> bool {
    has_prefix(name, STALE_PREFIX@)
}

/// The target of this machine, `<arch>-<os>`.
pub fn target_triple(arch: &str, os: &str) -> (r: String)
    ensures
        r@ == target_of(arch@, os@),
{
    let mut out = String::from_str(arch);
    out.append("-");
    out.append(os);
    out
}

/// The suffix of executables on a platform, from their extension.
pub fn exe_suffix(extension: &str) -> (r: &'static str)
    ensures
        r@ == suffix_of(extension@),
{
    if extension.unicode_len() == 0 {
        ""
    } else {
        ".exe"
    }
}

/// The name of the archive of `version` for `target`.
pub fn archive_file(version: &Version, target: &str) -> (r: String)
    ensures
        r@ == archive_name(*version, target@),
{
    let mut out = String::from_str("orbit-");
    out.append(version.to_string().as_str());
    out.append("-");
    out.append(target);
    out.append(".zip");
    out
}

/// The address of the checksum manifest of `version`.
pub fn checksums_address(version: &Version) -> (r: String)
    ensures
        r@ == checksums_url(*version),
{
    let v = version.to_string();
    let mut out = String::from_str(BASE_URL);
    out.append("/download/");
    out.append(v.as_str());
    out.append("/orbit-");
    out.append(v.as_str());
    out.append("-checksums.txt");
    out
}

/// The address of the archive of `version` for `target`.
pub fn archive_address(version: &Version, target: &str) -> (r: String)
    ensures
        r@ == archive_url(*version, target@),
{
    let mut out = String::from_str(BASE_URL);
    out.append("/download/");
    out.append(version.to_string().as_str());
    out.append("/");
    out.append(archive_file(version, target).as_str());
    assert(out@ =~= archive_url(*version, target@));
    out
}

/// Where the executable lies inside the archive of `version` for `target`.
pub fn executable_in_archive(version: &Version, target: &str, suffix: &str) -> (r: String)
    ensures
        r@ == executable_path(*version, target@, suffix@),
{
    let mut out = String::from_str("orbit-");
    out.append(version.to_string().as_str());
    out.append("-");
    out.append(target);
    out.append("/bin/orbit");
    out.append(suffix);
    out
}

/// The name under which the binary of `version` is kept after an update.
pub fn stale_binary_name(version: &Version) -> (r: String)
    ensures
        r@ == stale_name(*version),
{
    let mut out = String::from_str(STALE_PREFIX);
    out.append(version.to_string().as_str());
    out
}

/// Tests whether a file of this name is a binary that an earlier update
/// left behind.
pub fn is_stale_binary(name: &str) -> (r: bool)
    ensures
        r == is_stale(name@),
{
    starts_with(name, STALE_PREFIX)
}

/// The binary that an update keeps is one that the next update removes.
pub proof fn lemma_stale_name_is_stale(version: Version)
    ensures
        is_stale(stale_name(version)),
{
    assert(stale_name(version).subrange(0, STALE_PREFIX@.len() as int) =~= STALE_PREFIX@);
}

/// An error of `serde_json`.
#[verifier::external_type_specification]
#[verifier::external_body]
pub struct ExJsonError(serde_json::Error);

/// What `serde_json` reads in `text` under `key`: `None` where `text` is no
/// JSON document; `Some(None)` where it is one that is no object, has no
/// member `key`, or has one that is no string; `Some(Some(s))` where the
/// member is the string `s`.
pub uninterp spec fn json_string_member(text: Seq<char>, key: Seq<char>) -> Option<Option<Seq<char>>>;

/// Parses `text` with `serde_json::from_str`, indexes the document by `key`
/// and reads what is there with `Value::as_str`. The contract only names
/// the result: the same text and key always give the same answer.
#[verifier::external_body]
fn json_member(text: &str, key: &str) -> (r: Result<Option<String>, serde_json::Error>)
    ensures
        match r {
            Ok(Some(s)) => json_string_member(text@, key@) == Some(Some(s@)),
            Ok(None) => json_string_member(text@, key@) == Some(None::<Seq<char>>),
            Err(_) => json_string_member(text@, key@) is None,
        },
{
    let document: serde_json::Value = serde_json::from_str(text)?;
    Ok(document[key].as_str().map(String::from))
}

/// What the metadata of a release says of its name.
#[derive(Debug, PartialEq)]
pub enum ReleaseName {
    /// The metadata is no JSON document.
    Unreadable,
    /// The document carries no name.
    Missing,
    /// The name of the release.
    Named(String),
}

impl View for ReleaseName {
    type V = Option<Option<Seq<char>>>;

    open spec fn view(&self) -> Option<Option<Seq<char>>> {
        match self {
            ReleaseName::Unreadable => None,
            ReleaseName::Missing => Some(None),
            ReleaseName::Named(s) => Some(Some(s@)),
        }
    }
}

/// Reads the name of the release from the metadata `body`.
pub fn release_name(body: &str) -> (r: ReleaseName)
    ensures
        r@ == json_string_member(body@, NAME_FIELD@),
{
    match json_member(body, NAME_FIELD) {
        Ok(Some(name)) => ReleaseName::Named(name),
        Ok(None) => ReleaseName::Missing,
        Err(_) => ReleaseName::Unreadable,
    }
}

} // verus!
