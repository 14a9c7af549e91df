//! The self-update as a state machine. The machine decides; whoever drives
//! it performs each action it asks for (a request, a question to the user,
//! a change on disk) and hands back what came of it as the next event.

use crate::checksums::{find_checksum, lookup, ManifestError};
use crate::digest::{hex_of, Sha256Hash};
use crate::release::{
    archive_address, archive_file, archive_name, archive_url, checksums_address, checksums_url,
    executable_in_archive, executable_path, exe_suffix, json_string_member, release_name,
    stale_binary_name, stale_name, suffix_of, target_of, target_triple, ReleaseName, API_URL,
    NAME_FIELD, RESPONSE_OKAY, STALE_PREFIX, USER_AGENT,
};
use crate::sha256::{compute_sha256, sha256};
use crate::text::{decimal, push_decimal};
use crate::version::{parse_version, precedes, render_version, Version, VersionError};
use vstd::prelude::*;
use vstd::string::StringExecFns;
use vstd::utf8::{decode_utf8, valid_utf8};

verus! {

/// The error of `String::from_utf8`.
#[verifier::external_type_specification]
#[verifier::external_body]
pub struct ExFromUtf8Error(std::string::FromUtf8Error);

/// `String::from_utf8` of the standard library: it succeeds exactly on
/// well-formed UTF-8, and the string then holds the characters that the
/// bytes encode.
pub assume_specification[ String::from_utf8 ](vec: Vec<u8>) -> (r: Result<
    String,
    std::string::FromUtf8Error,
>)
    ensures
        r is Ok <==> valid_utf8(vec@),
        r is Ok ==> r->Ok_0@ == decode_utf8(vec@),
;

/// Why an update failed.
#[derive(Debug, PartialEq)]
pub enum UpgradeError {
    /// No archive is published for this target.
    UnsupportedTarget(String),
    /// A request was answered with another status than success.
    FailedConnection(String, u32),
    /// A download was answered with another status than success.
    FailedDownload(String, u32),
    /// No release is published.
    NoReleasesFound,
    /// The digest of the archive, first, is not the published one, second.
    BadChecksum(Sha256Hash, Sha256Hash),
    /// The archive does not hold the executable.
    MissingExe,
}

/// An `UpgradeError` as plain values.
pub enum UpgradeErrorView {
    UnsupportedTarget(Seq<char>),
    FailedConnection(Seq<char>, u32),
    FailedDownload(Seq<char>, u32),
    NoReleasesFound,
    BadChecksum(Seq<u8>, Seq<u8>),
    MissingExe,
}

impl View for UpgradeError {
    type V = UpgradeErrorView;

    open spec fn view(&self) -> UpgradeErrorView {
        match self {
            UpgradeError::UnsupportedTarget(t) => UpgradeErrorView::UnsupportedTarget(t@),
            UpgradeError::FailedConnection(url, status) => UpgradeErrorView::FailedConnection(
                url@,
                *status,
            ),
            UpgradeError::FailedDownload(url, status) => UpgradeErrorView::FailedDownload(
                url@,
                *status,
            ),
            UpgradeError::NoReleasesFound => UpgradeErrorView::NoReleasesFound,
            UpgradeError::BadChecksum(computed, ideal) => UpgradeErrorView::BadChecksum(
                computed@,
                ideal@,
            ),
            UpgradeError::MissingExe => UpgradeErrorView::MissingExe,
        }
    }
}

/// The text that reports an error to the user.
pub open spec fn error_text(e: UpgradeErrorView) -> Seq<char> {
    match e {
        UpgradeErrorView::MissingExe => "failed to find the binary in the downloaded package"@,
        UpgradeErrorView::BadChecksum(computed, ideal) =>
            "checksums did not match, please try again\n\ncomputed: "@ + hex_of(computed)
            + "\nexpected: "@ + hex_of(ideal),
        UpgradeErrorView::FailedConnection(url, status) => "connection failed\n\nurl: "@ + url
            + "\nstatus: "@ + decimal(status as nat),
        UpgradeErrorView::FailedDownload(url, status) => "download failed\n\nurl: "@ + url
            + "\nstatus: "@ + decimal(status as nat),
        UpgradeErrorView::UnsupportedTarget(t) =>
            "no pre-compiled binaries exist for the current target "@ + t,
        UpgradeErrorView::NoReleasesFound => "no releases were found"@,
    }
}

impl UpgradeError {
    /// The text that reports the error to the user.
    pub fn to_string(&self) -> (r: String)
        ensures
            r@ == error_text(self@),
    {
        match self {
            UpgradeError::MissingExe => String::from_str(
                "failed to find the binary in the downloaded package",
            ),
            UpgradeError::BadChecksum(computed, ideal) => {
                let mut out = String::from_str(
                    "checksums did not match, please try again\n\ncomputed: ",
                );
                out.append(computed.to_string().as_str());
                out.append("\nexpected: ");
                out.append(ideal.to_string().as_str());
                out
            },
            UpgradeError::FailedConnection(url, status) => {
                let mut out = String::from_str("connection failed\n\nurl: ");
                out.append(url.as_str());
                out.append("\nstatus: ");
                push_decimal(&mut out, *status);
                out
            },
            UpgradeError::FailedDownload(url, status) => {
                let mut out = String::from_str("download failed\n\nurl: ");
                out.append(url.as_str());
                out.append("\nstatus: ");
                push_decimal(&mut out, *status);
                out
            },
            UpgradeError::UnsupportedTarget(t) => {
                let mut out = String::from_str(
                    "no pre-compiled binaries exist for the current target ",
                );
                out.append(t.as_str());
                out
            },
            UpgradeError::NoReleasesFound => String::from_str("no releases were found"),
        }
    }
}

/// What the publisher of the releases sent that cannot be used.
#[derive(Clone, Copy, Debug, PartialEq, Eq, Structural)]
pub enum ProtocolError {
    /// A body that should be text is not UTF-8.
    NotText,
    /// The release metadata is no JSON document.
    NotJson,
    /// The release metadata carries no name.
    NoName,
    /// The name of the release is no version.
    BadVersion(VersionError),
    /// The checksum manifest cannot be read.
    BadManifest(ManifestError),
}

/// How an update ended.
#[derive(Debug, PartialEq)]
pub enum Outcome {
    /// Nothing went wrong; the text tells the user what was done.
    Info(String),
    /// The update failed.
    Failed(UpgradeError),
    /// The publisher sent something that cannot be used.
    Rejected(ProtocolError),
    /// The event does not answer the action that was asked for.
    Unexpected,
}

/// An `Outcome` as plain values.
pub enum OutcomeView {
    Info(Seq<char>),
    Failed(UpgradeErrorView),
    Rejected(ProtocolError),
    Unexpected,
}

impl View for Outcome {
    type V = OutcomeView;

    open spec fn view(&self) -> OutcomeView {
        match self {
            Outcome::Info(text) => OutcomeView::Info(text@),
            Outcome::Failed(e) => OutcomeView::Failed(e@),
            Outcome::Rejected(e) => OutcomeView::Rejected(*e),
            Outcome::Unexpected => OutcomeView::Unexpected,
        }
    }
}

/// Where an update stands.
#[derive(Clone, Copy, Debug, PartialEq)]
pub enum Stage {
    /// The binaries that earlier updates left behind are being removed.
    PurgingStale,
    /// The release metadata was asked for.
    CheckingVersion,
    /// The user was asked whether to install this newer version.
    Confirming(Version),
    /// The checksum manifest of this version was asked for.
    FetchingChecksums(Version),
    /// The archive of this version was asked for; its digest must be the
    /// one given.
    FetchingPackage(Version, Sha256Hash),
    /// The archive, its digest verified, is being unpacked.
    Extracting(Version),
    /// The executable is being looked for in what was unpacked.
    LocatingExecutable(Version),
    /// The running binary is being moved aside.
    RotatingBinary(Version),
    /// The new binary is being copied into place.
    InstallingBinary(Version),
    /// The update has ended.
    Done,
}

/// A `Stage` as plain values.
pub enum StageView {
    PurgingStale,
    CheckingVersion,
    Confirming(Version),
    FetchingChecksums(Version),
    FetchingPackage(Version, Seq<u8>),
    Extracting(Version),
    LocatingExecutable(Version),
    RotatingBinary(Version),
    InstallingBinary(Version),
    Done,
}

impl View for Stage {
    type V = StageView;

    open spec fn view(&self) -> StageView {
        match self {
            Stage::PurgingStale => StageView::PurgingStale,
            Stage::CheckingVersion => StageView::CheckingVersion,
            Stage::Confirming(v) => StageView::Confirming(*v),
            Stage::FetchingChecksums(v) => StageView::FetchingChecksums(*v),
            Stage::FetchingPackage(v, d) => StageView::FetchingPackage(*v, d@),
            Stage::Extracting(v) => StageView::Extracting(*v),
            Stage::LocatingExecutable(v) => StageView::LocatingExecutable(*v),
            Stage::RotatingBinary(v) => StageView::RotatingBinary(*v),
            Stage::InstallingBinary(v) => StageView::InstallingBinary(*v),
            Stage::Done => StageView::Done,
        }
    }
}

/// What came of the action that the machine asked for.
#[derive(Debug, PartialEq)]
pub enum Event {
    /// The binaries of earlier updates are gone.
    Purged,
    /// A request was answered.
    Response { status: u32, body: Vec<u8> },
    /// The user answered the question.
    Answer(bool),
    /// The archive is unpacked.
    Extracted,
    /// Whether the executable is among what was unpacked.
    Located(bool),
    /// The running binary was moved aside.
    Rotated,
    /// The new binary is in place.
    Installed,
}

/// An `Event` as plain values.
pub enum EventView {
    Purged,
    Response { status: u32, body: Seq<u8> },
    Answer(bool),
    Extracted,
    Located(bool),
    Rotated,
    Installed,
}

impl View for Event {
    type V = EventView;

    open spec fn view(&self) -> EventView {
        match self {
            Event::Purged => EventView::Purged,
            Event::Response { status, body } => EventView::Response {
                status: *status,
                body: body@,
            },
            Event::Answer(yes) => EventView::Answer(*yes),
            Event::Extracted => EventView::Extracted,
            Event::Located(found) => EventView::Located(*found),
            Event::Rotated => EventView::Rotated,
            Event::Installed => EventView::Installed,
        }
    }
}

/// What the machine asks its driver to do next.
#[derive(Debug, PartialEq)]
pub enum Action {
    /// Remove, beside the running binary, every file whose name begins
    /// with `prefix`.
    PurgeStale { prefix: String },
    /// Request `url`, with `header` if there is one.
    Fetch { url: String, follow_redirects: bool, header: Option<String> },
    /// Ask the user `prompt`.
    Confirm { prompt: String },
    /// Unpack `archive` into a fresh directory.
    Extract { archive: Vec<u8> },
    /// Look for the file at `path` under the directory of the unpacked
    /// archive.
    Locate { path: String },
    /// Rename the running binary to `name`, in its own directory.
    Rotate { name: String },
    /// Copy the file at `path` under the directory of the unpacked archive
    /// to where the running binary was.
    Install { path: String },
    /// Stop: the update has ended.
    Finish(Outcome),
}

/// An `Action` as plain values.
pub enum ActionView {
    PurgeStale { prefix: Seq<char> },
    Fetch { url: Seq<char>, follow_redirects: bool, header: Option<Seq<char>> },
    Confirm { prompt: Seq<char> },
    Extract { archive: Seq<u8> },
    Locate { path: Seq<char> },
    Rotate { name: Seq<char> },
    Install { path: Seq<char> },
    Finish(OutcomeView),
}

impl View for Action {
    type V = ActionView;

    open spec fn view(&self) -> ActionView {
        match self {
            Action::PurgeStale { prefix } => ActionView::PurgeStale { prefix: prefix@ },
            Action::Fetch { url, follow_redirects, header } => ActionView::Fetch {
                url: url@,
                follow_redirects: *follow_redirects,
                header: match header {
                    Some(h) => Some(h@),
                    None => None,
                },
            },
            Action::Confirm { prompt } => ActionView::Confirm { prompt: prompt@ },
            Action::Extract { archive } => ActionView::Extract { archive: archive@ },
            Action::Locate { path } => ActionView::Locate { path: path@ },
            Action::Rotate { name } => ActionView::Rotate { name: name@ },
            Action::Install { path } => ActionView::Install { path: path@ },
            Action::Finish(outcome) => ActionView::Finish(outcome@),
        }
    }
}

/// An update in progress.
#[derive(Debug)]
pub struct Upgrade {
    current: Version,
    force: bool,
    target: String,
    suffix: String,
    stage: Stage,
}

/// An `Upgrade` as plain values: the version that is installed, whether the
/// user is to be asked, the target and the suffix of executables of this
/// machine, and where the update stands.
pub struct UpgradeView {
    pub current: Version,
    pub force: bool,
    pub target: Seq<char>,
    pub suffix: Seq<char>,
    pub stage: StageView,
}

impl View for Upgrade {
    type V = UpgradeView;

    closed spec fn view(&self) -> UpgradeView {
        UpgradeView {
            current: self.current,
            force: self.force,
            target: self.target@,
            suffix: self.suffix@,
            stage: self.stage@,
        }
    }
}

/// What the user is asked before a newer version is installed.
pub open spec fn prompt_text(latest: Version) -> Seq<char> {
    "info: a new version is available ("@ + render_version(latest)
        + "), would you like to upgrade"@
}

/// The report that nothing newer is published.
pub open spec fn up_to_date_text(latest: Version) -> Seq<char> {
    "the latest version is already installed ("@ + render_version(latest) + ")"@
}

/// The report that the user declined.
pub open spec fn cancelled_text() -> Seq<char> {
    "upgrade cancelled"@
}

/// The report of a finished update.
pub open spec fn upgraded_text(latest: Version) -> Seq<char> {
    "successfully upgraded orbit to version "@ + render_version(latest)
}

/// The end of an update with `outcome`.
pub open spec fn stop(outcome: OutcomeView) -> (StageView, ActionView) {
    (StageView::Done, ActionView::Finish(outcome))
}

/// The request for the checksum manifest of `latest`.
pub open spec fn ask_checksums(latest: Version) -> (StageView, ActionView) {
    (
        StageView::FetchingChecksums(latest),
        ActionView::Fetch { url: checksums_url(latest), follow_redirects: true, header: None },
    )
}

/// What follows from the name that the release metadata carries. A name
/// that is a version newer than the installed one leads to the question
/// to the user, or straight to the checksums where the update is forced; a
/// version that is not newer ends the update with a report, and so does
/// anything that is no version.
pub open spec fn on_release(s: UpgradeView, name: Option<Option<Seq<char>>>) -> (
    StageView,
    ActionView,
) {
    match name {
        None => stop(OutcomeView::Rejected(ProtocolError::NotJson)),
        Some(None) => stop(OutcomeView::Rejected(ProtocolError::NoName)),
        Some(Some(text)) => match parse_version(text) {
            Err(e) => stop(OutcomeView::Rejected(ProtocolError::BadVersion(e))),
            Ok(latest) => if !precedes(s.current, latest) {
                stop(OutcomeView::Info(up_to_date_text(latest)))
            } else if s.force {
                ask_checksums(latest)
            } else {
                (StageView::Confirming(latest), ActionView::Confirm { prompt: prompt_text(latest) })
            },
        },
    }
}

/// What follows from the answer to the request for the release metadata.
pub open spec fn on_metadata(s: UpgradeView, status: u32, body: Seq<u8>) -> (
    StageView,
    ActionView,
) {
    if status != RESPONSE_OKAY {
        stop(OutcomeView::Failed(UpgradeErrorView::FailedConnection(API_URL@, status)))
    } else if !valid_utf8(body) {
        stop(OutcomeView::Rejected(ProtocolError::NotText))
    } else {
        on_release(s, json_string_member(decode_utf8(body), NAME_FIELD@))
    }
}

/// What follows from the user's answer.
pub open spec fn on_answer(latest: Version, yes: bool) -> (StageView, ActionView) {
    if yes {
        ask_checksums(latest)
    } else {
        stop(OutcomeView::Info(cancelled_text()))
    }
}

/// What follows from the answer to the request for the checksum manifest:
/// the request for the archive, where the manifest lists it.
pub open spec fn on_checksums(s: UpgradeView, latest: Version, status: u32, body: Seq<u8>) -> (
    StageView,
    ActionView,
) {
    if status != RESPONSE_OKAY {
        stop(OutcomeView::Failed(UpgradeErrorView::FailedConnection(checksums_url(latest), status)))
    } else if !valid_utf8(body) {
        stop(OutcomeView::Rejected(ProtocolError::NotText))
    } else {
        match lookup(decode_utf8(body), archive_name(latest, s.target)) {
            Err(e) => stop(OutcomeView::Rejected(ProtocolError::BadManifest(e))),
            Ok(None) => stop(OutcomeView::Failed(UpgradeErrorView::UnsupportedTarget(s.target))),
            Ok(Some(digest)) => (
                StageView::FetchingPackage(latest, digest),
                ActionView::Fetch {
                    url: archive_url(latest, s.target),
                    follow_redirects: true,
                    header: None,
                },
            ),
        }
    }
}

/// What follows from the answer to the request for the archive: it is
/// unpacked only where its digest is the published one.
pub open spec fn on_package(
    s: UpgradeView,
    latest: Version,
    expected: Seq<u8>,
    status: u32,
    body: Seq<u8>,
) -> (StageView, ActionView) {
    if status != RESPONSE_OKAY {
        stop(
            OutcomeView::Failed(
                UpgradeErrorView::FailedConnection(archive_url(latest, s.target), status),
            ),
        )
    } else if sha256(body) != expected {
        stop(OutcomeView::Failed(UpgradeErrorView::BadChecksum(sha256(body), expected)))
    } else {
        (StageView::Extracting(latest), ActionView::Extract { archive: body })
    }
}

/// The transition of the machine: the stage that follows, and the action
/// asked for, when `e` arrives in state `s`.
pub open spec fn step(s: UpgradeView, e: EventView) -> (StageView, ActionView) {
    match (s.stage, e) {
        (StageView::PurgingStale, EventView::Purged) => (
            StageView::CheckingVersion,
            ActionView::Fetch {
                url: API_URL@,
                follow_redirects: false,
                header: Some(USER_AGENT@),
            },
        ),
        (StageView::CheckingVersion, EventView::Response { status, body }) => on_metadata(
            s,
            status,
            body,
        ),
        (StageView::Confirming(latest), EventView::Answer(yes)) => on_answer(latest, yes),
        (StageView::FetchingChecksums(latest), EventView::Response { status, body }) =>
            on_checksums(s, latest, status, body),
        (StageView::FetchingPackage(latest, expected), EventView::Response { status, body }) =>
            on_package(s, latest, expected, status, body),
        (StageView::Extracting(latest), EventView::Extracted) => (
            StageView::LocatingExecutable(latest),
            ActionView::Locate { path: executable_path(latest, s.target, s.suffix) },
        ),
        (StageView::LocatingExecutable(latest), EventView::Located(found)) => if found {
            (StageView::RotatingBinary(latest), ActionView::Rotate { name: stale_name(s.current) })
        } else {
            stop(OutcomeView::Failed(UpgradeErrorView::MissingExe))
        },
        (StageView::RotatingBinary(latest), EventView::Rotated) => (
            StageView::InstallingBinary(latest),
            ActionView::Install { path: executable_path(latest, s.target, s.suffix) },
        ),
        (StageView::InstallingBinary(latest), EventView::Installed) => stop(
            OutcomeView::Info(upgraded_text(latest)),
        ),
        _ => stop(OutcomeView::Unexpected),
    }
}

/// Whether a stage lies behind the verification of the archive.
pub open spec fn verified(stage: StageView) -> bool {
    stage is Extracting || stage is LocatingExecutable || stage is RotatingBinary
        || stage is InstallingBinary
}

/// Whether an action touches the installation.
pub open spec fn touches_installation(action: ActionView) -> bool {
    action is Rotate || action is Install
}

fn finish(outcome: Outcome) -> (r: (Stage, Action))
    ensures
        (r.0@, r.1@) == stop(outcome@),
{
    (Stage::Done, Action::Finish(outcome))
}

fn request_checksums(latest: Version) -> (r: (Stage, Action))
    ensures
        (r.0@, r.1@) == ask_checksums(latest),
{
    (
        Stage::FetchingChecksums(latest),
        Action::Fetch { url: checksums_address(&latest), follow_redirects: true, header: None },
    )
}

impl Upgrade {
    /// Begins an update of the binary of version `current` on the machine
    /// with architecture `arch`, operating system `os` and executables
    /// that end in `extension`. With `force` the user is not asked. The
    /// first thing asked for is the removal of what earlier updates left
    /// behind.
    pub fn start(current: Version, force: bool, arch: &str, os: &str, extension: &str) -> (r: (
        Upgrade,
        Action,
    ))
        ensures
            r.0@ == (UpgradeView {
                current,
                force,
                target: target_of(arch@, os@),
                suffix: suffix_of(extension@),
                stage: StageView::PurgingStale,
            }),
            r.1@ == (ActionView::PurgeStale { prefix: STALE_PREFIX@ }),
    {
        let machine = Upgrade {
            current,
            force,
            target: target_triple(arch, os),
            suffix: String::from_str(exe_suffix(extension)),
            stage: Stage::PurgingStale,
        };
        (machine, Action::PurgeStale { prefix: String::from_str(STALE_PREFIX) })
    }

    /// Where the update stands.
    pub fn stage(&self) -> (r: Stage)
        ensures
            r@ == self@.stage,
    {
        self.stage
    }

    /// The version that is installed.
    pub fn current(&self) -> (r: Version)
        ensures
            r == self@.current,
    {
        self.current
    }

    /// Whether the update has ended.
    pub fn is_done(&self) -> (r: bool)
        ensures
            r == (self@.stage is Done),
    {
        match self.stage {
            Stage::Done => true,
            _ => false,
        }
    }

    /// Decides what follows from the name that the release metadata
    /// carries.
    pub fn decide_release(&self, name: &ReleaseName) -> (r: (Stage, Action))
        ensures
            (r.0@, r.1@) == on_release(self@, name@),
    {
        match name {
            ReleaseName::Unreadable => finish(Outcome::Rejected(ProtocolError::NotJson)),
            ReleaseName::Missing => finish(Outcome::Rejected(ProtocolError::NoName)),
            ReleaseName::Named(text) => match Version::from_str(text.as_str()) {
                Err(e) => finish(Outcome::Rejected(ProtocolError::BadVersion(e))),
                Ok(latest) => if !latest.newer_than(&self.current) {
                    let mut text = String::from_str("the latest version is already installed (");
                    text.append(latest.to_string().as_str());
                    text.append(")");
                    finish(Outcome::Info(text))
                } else if self.force {
                    request_checksums(latest)
                } else {
                    let mut prompt = String::from_str("info: a new version is available (");
                    prompt.append(latest.to_string().as_str());
                    prompt.append("), would you like to upgrade");
                    (Stage::Confirming(latest), Action::Confirm { prompt })
                },
            },
        }
    }

    /// Decides what follows from the checksum manifest `manifest` of
    /// `latest`.
    pub fn decide_package(&self, latest: Version, manifest: &str) -> (r: (Stage, Action))
        ensures
            (r.0@, r.1@) == match lookup(manifest@, archive_name(latest, self@.target)) {
                Err(e) => stop(OutcomeView::Rejected(ProtocolError::BadManifest(e))),
                Ok(None) => stop(
                    OutcomeView::Failed(UpgradeErrorView::UnsupportedTarget(self@.target)),
                ),
                Ok(Some(digest)) => (
                    StageView::FetchingPackage(latest, digest),
                    ActionView::Fetch {
                        url: archive_url(latest, self@.target),
                        follow_redirects: true,
                        header: None,
                    },
                ),
            },
    {
        let name = archive_file(&latest, self.target.as_str());
        match find_checksum(manifest, name.as_str()) {
            Err(e) => finish(Outcome::Rejected(ProtocolError::BadManifest(e))),
            Ok(None) => finish(Outcome::Failed(UpgradeError::UnsupportedTarget(self.target.clone()))),
            Ok(Some(digest)) => (
                Stage::FetchingPackage(latest, digest),
                Action::Fetch {
                    url: archive_address(&latest, self.target.as_str()),
                    follow_redirects: true,
                    header: None,
                },
            ),
        }
    }

    /// Decides what follows from the archive `body` of `latest`, whose
    /// digest is to be `expected`.
    pub fn decide_install(&self, latest: Version, expected: Sha256Hash, body: Vec<u8>) -> (r: (
        Stage,
        Action,
    ))
        ensures
            (r.0@, r.1@) == on_package(self@, latest, expected@, RESPONSE_OKAY, body@),
    {
        let computed = compute_sha256(body.as_slice());
        if computed != expected {
            finish(Outcome::Failed(UpgradeError::BadChecksum(computed, expected)))
        } else {
            (Stage::Extracting(latest), Action::Extract { archive: body })
        }
    }

    /// Takes the event that answers the last action, and gives the machine
    /// in its next stage together with the next action.
    pub fn advance(self, event: Event) -> (r: (Upgrade, Action))
        ensures
            r.0@ == (UpgradeView { stage: step(self@, event@).0, ..self@ }),
            r.1@ == step(self@, event@).1,
    {
        let (stage, action) = match (self.stage, event) {
            (Stage::PurgingStale, Event::Purged) => (
                Stage::CheckingVersion,
                Action::Fetch {
                    url: String::from_str(API_URL),
                    follow_redirects: false,
                    header: Some(String::from_str(USER_AGENT)),
                },
            ),
            (Stage::CheckingVersion, Event::Response { status, body }) => {
                if status != RESPONSE_OKAY {
                    finish(
                        Outcome::Failed(
                            UpgradeError::FailedConnection(String::from_str(API_URL), status),
                        ),
                    )
                } else {
                    match String::from_utf8(body) {
                        Err(_) => finish(Outcome::Rejected(ProtocolError::NotText)),
                        Ok(text) => {
                            let name = release_name(text.as_str());
                            self.decide_release(&name)
                        },
                    }
                }
            },
            (Stage::Confirming(latest), Event::Answer(yes)) => {
                if yes {
                    request_checksums(latest)
                } else {
                    finish(Outcome::Info(String::from_str("upgrade cancelled")))
                }
            },
            (Stage::FetchingChecksums(latest), Event::Response { status, body }) => {
                if status != RESPONSE_OKAY {
                    finish(
                        Outcome::Failed(
                            UpgradeError::FailedConnection(checksums_address(&latest), status),
                        ),
                    )
                } else {
                    match String::from_utf8(body) {
                        Err(_) => finish(Outcome::Rejected(ProtocolError::NotText)),
                        Ok(text) => self.decide_package(latest, text.as_str()),
                    }
                }
            },
            (Stage::FetchingPackage(latest, expected), Event::Response { status, body }) => {
                if status != RESPONSE_OKAY {
                    finish(
                        Outcome::Failed(
                            UpgradeError::FailedConnection(
                                archive_address(&latest, self.target.as_str()),
                                status,
                            ),
                        ),
                    )
                } else {
                    self.decide_install(latest, expected, body)
                }
            },
            (Stage::Extracting(latest), Event::Extracted) => (
                Stage::LocatingExecutable(latest),
                Action::Locate {
                    path: executable_in_archive(
                        &latest,
                        self.target.as_str(),
                        self.suffix.as_str(),
                    ),
                },
            ),
            (Stage::LocatingExecutable(latest), Event::Located(found)) => {
                if found {
                    (
                        Stage::RotatingBinary(latest),
                        Action::Rotate { name: stale_binary_name(&self.current) },
                    )
                } else {
                    finish(Outcome::Failed(UpgradeError::MissingExe))
                }
            },
            (Stage::RotatingBinary(latest), Event::Rotated) => (
                Stage::InstallingBinary(latest),
                Action::Install {
                    path: executable_in_archive(
                        &latest,
                        self.target.as_str(),
                        self.suffix.as_str(),
                    ),
                },
            ),
            (Stage::InstallingBinary(latest), Event::Installed) => {
                let mut text = String::from_str("successfully upgraded orbit to version ");
                text.append(latest.to_string().as_str());
                finish(Outcome::Info(text))
            },
            _ => finish(Outcome::Unexpected),
        };
        (
            Upgrade {
                current: self.current,
                force: self.force,
                target: self.target,
                suffix: self.suffix,
                stage,
            },
            action,
        )
    }
}

/// The archive is verified before anything is unpacked or installed. A
/// stage behind the verification is entered only from another such stage,
/// or from the wait for the archive when the digest of what arrived is the
/// published one; only then is the archive handed out, unchanged; and the
/// installation is touched only from a stage behind the verification.
pub proof fn lemma_verified_before_install(s: UpgradeView, e: EventView)
    ensures
        verified(step(s, e).0) ==> verified(s.stage) || (s.stage is FetchingPackage
            && e is Response && sha256(e->body) == s.stage->FetchingPackage_1),
        step(s, e).1 is Extract ==> s.stage is FetchingPackage && e is Response && step(
            s,
            e,
        ).1->archive == e->body && sha256(e->body) == s.stage->FetchingPackage_1,
        touches_installation(step(s, e).1) ==> verified(s.stage),
{
}

/// An archive whose digest is not the published one ends the update with
/// both digests, whatever else holds.
pub proof fn lemma_mismatch_stops(s: UpgradeView, body: Seq<u8>)
    requires
        s.stage is FetchingPackage,
        sha256(body) != s.stage->FetchingPackage_1,
    ensures
        step(s, EventView::Response { status: RESPONSE_OKAY, body }) == stop(
            OutcomeView::Failed(
                UpgradeErrorView::BadChecksum(sha256(body), s.stage->FetchingPackage_1),
            ),
        ),
{
}

/// A release that is not newer than what is installed ends the update with
/// a report: nothing more is asked for.
pub proof fn lemma_up_to_date_stops(s: UpgradeView, name: Seq<char>)
    requires
        parse_version(name) is Ok,
        !precedes(s.current, parse_version(name)->Ok_0),
    ensures
        on_release(s, Some(Some(name))) == stop(
            OutcomeView::Info(up_to_date_text(parse_version(name)->Ok_0)),
        ),
{
}

/// The update ends exactly when the machine says so, and an ended update
/// asks for nothing more.
pub proof fn lemma_done_is_final(s: UpgradeView, e: EventView)
    ensures
        step(s, e).0 is Done <==> step(s, e).1 is Finish,
        s.stage is Done ==> step(s, e) == stop(OutcomeView::Unexpected),
{
}

/// No transition asks for files to be removed: what earlier updates left
/// behind is removed once, at the start, and what this update leaves behind
/// stays until the next one starts.
pub proof fn lemma_purge_only_at_start(s: UpgradeView, e: EventView)
    ensures
        !(step(s, e).1 is PurgeStale),
        step(s, e).0 != StageView::PurgingStale,
{
}

/// A response with another status than success ends the update with that
/// status, at whatever request it arrives.
pub proof fn lemma_bad_status_stops(s: UpgradeView, status: u32, body: Seq<u8>)
    requires
        status != RESPONSE_OKAY,
        s.stage is CheckingVersion || s.stage is FetchingChecksums || s.stage is FetchingPackage,
    ensures
        step(s, EventView::Response { status, body }).0 is Done,
        step(s, EventView::Response { status, body }).1 matches ActionView::Finish(
            OutcomeView::Failed(UpgradeErrorView::FailedConnection(_, code)),
        ) && code == status,
{
}

/// The archive is asked for only after the manifest was searched: the
/// digest that the machine then waits for is the one that the manifest
/// lists for the archive of this target.
pub proof fn lemma_expected_is_published(s: UpgradeView, e: EventView)
    ensures
        step(s, e).0 matches StageView::FetchingPackage(latest, digest) ==> s.stage
            == StageView::FetchingChecksums(latest) && e is Response && lookup(
            decode_utf8(e->body),
            archive_name(latest, s.target),
        ) == Ok::<Option<Seq<u8>>, ManifestError>(Some(digest)),
{
}

/// The state of the machine that began in `s` after `events` arrived, one
/// after the other.
pub open spec fn run(s: UpgradeView, events: Seq<EventView>) -> UpgradeView
    decreases events.len(),
{
    if events.len() == 0 {
        s
    } else {
        let before = run(s, events.drop_last());
        UpgradeView { stage: step(before, events.last()).0, ..before }
    }
}

/// Whether, in the run of `events` from `s`, the event at `k` is an
/// archive that arrived while the machine waited for one, with the digest
/// that the machine waited for.
pub open spec fn verified_at(s: UpgradeView, events: Seq<EventView>, k: int) -> bool {
    &&& 0 <= k < events.len()
    &&& run(s, events.subrange(0, k)).stage is FetchingPackage
    &&& events[k] is Response
    &&& sha256(events[k]->body) == run(s, events.subrange(0, k)).stage->FetchingPackage_1
}

/// Whatever events arrive, and in whatever order: an update that has
/// not verified an archive yet reaches a stage behind the verification
/// only after an archive with the awaited digest arrived, and asks for a
/// change to the installation only then.
pub proof fn lemma_never_installs_unverified(s: UpgradeView, events: Seq<EventView>, e: EventView)
    requires
        !verified(s.stage),
    ensures
        verified(run(s, events).stage) ==> exists|k: int| verified_at(s, events, k),
        touches_installation(step(run(s, events), e).1) ==> exists|k: int|
            verified_at(s, events, k),
    decreases events.len(),
{
    if events.len() > 0 {
        let head = events.drop_last();
        let before = run(s, head);
        lemma_never_installs_unverified(s, head, events.last());
        lemma_verified_before_install(before, events.last());
        if verified(run(s, events).stage) {
            if verified(before.stage) {
                let k = choose|k: int| verified_at(s, head, k);
                assert(head.subrange(0, k) =~= events.subrange(0, k));
                assert(verified_at(s, events, k));
            } else {
                let k = events.len() - 1;
                assert(events.subrange(0, k) =~= head);
                assert(verified_at(s, events, k));
            }
        }
    }
    lemma_verified_before_install(run(s, events), e);
}

} // verus!
