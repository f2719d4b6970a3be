//! The kinds of failure of the installer, and how each is reported.

use vstd::prelude::*;

verus! {

/// Why the pipeline stopped.
#[derive(Clone, Copy, Debug, PartialEq, Eq, Structural)]
pub enum ErrorKind {
    /// No installation path could be determined.
    ResolutionAmbiguity,
    /// A request could not be sent, or its answer could not be received.
    Network,
    /// The release listing was answered with a status other than 200.
    UnexpectedStatus,
    /// The release listing is not well-formed.
    Parse,
    /// No release of the listing carries a usable tag.
    NoReleaseFound,
    /// Not exactly one asset fits the platform.
    AmbiguousAsset,
    /// A redirect was answered without naming its target.
    RedirectTargetMissing,
    /// The archive could not be listed or extracted.
    Archive,
    /// A file or directory could not be created or copied.
    Io,
}

/// The exit code that stands for each kind of failure.
pub open spec fn exit_code_of(kind: ErrorKind) -> u8 {
    match kind {
        ErrorKind::ResolutionAmbiguity => 1,
        ErrorKind::Network => 2,
        ErrorKind::UnexpectedStatus => 3,
        ErrorKind::Parse => 4,
        ErrorKind::NoReleaseFound => 5,
        ErrorKind::AmbiguousAsset => 6,
        ErrorKind::RedirectTargetMissing => 7,
        ErrorKind::Archive => 8,
        ErrorKind::Io => 9,
    }
}

/// The text that describes each kind of failure.
pub open spec fn message_of(kind: ErrorKind) -> Seq<char> {
    match kind {
        ErrorKind::ResolutionAmbiguity => "Don't know where to install."@,
        ErrorKind::Network => "Could not reach the release server."@,
        ErrorKind::UnexpectedStatus => "The release server answered with an unexpected status."@,
        ErrorKind::Parse => "Could not read the release listing."@,
        ErrorKind::NoReleaseFound => "Could not find a release in the listing."@,
        ErrorKind::AmbiguousAsset => "Could not get latest release artifact."@,
        ErrorKind::RedirectTargetMissing => "The download was redirected without a target."@,
        ErrorKind::Archive => "Could not list or extract the archive."@,
        ErrorKind::Io => "Could not create or copy a file."@,
    }
}

/// The process exit code for a failure of this kind.
pub fn exit_code(kind: ErrorKind) -> (code: u8)
    ensures
        code == exit_code_of(kind),
{
    match kind {
        ErrorKind::ResolutionAmbiguity => 1,
        ErrorKind::Network => 2,
        ErrorKind::UnexpectedStatus => 3,
        ErrorKind::Parse => 4,
        ErrorKind::NoReleaseFound => 5,
        ErrorKind::AmbiguousAsset => 6,
        ErrorKind::RedirectTargetMissing => 7,
        ErrorKind::Archive => 8,
        ErrorKind::Io => 9,
    }
}

/// The message shown for a failure of this kind.
pub fn message(kind: ErrorKind) -> (text: &'static str)
    ensures
        text@ == message_of(kind),
{
    match kind {
        ErrorKind::ResolutionAmbiguity => "Don't know where to install.",
        ErrorKind::Network => "Could not reach the release server.",
        ErrorKind::UnexpectedStatus => "The release server answered with an unexpected status.",
        ErrorKind::Parse => "Could not read the release listing.",
        ErrorKind::NoReleaseFound => "Could not find a release in the listing.",
        ErrorKind::AmbiguousAsset => "Could not get latest release artifact.",
        ErrorKind::RedirectTargetMissing => "The download was redirected without a target.",
        ErrorKind::Archive => "Could not list or extract the archive.",
        ErrorKind::Io => "Could not create or copy a file.",
    }
}

/// Every kind of failure has an exit code other than zero, and no two kinds
/// share one.
pub proof fn lemma_exit_codes_distinct(a: ErrorKind, b: ErrorKind)
    ensures
        exit_code_of(a) != 0,
        exit_code_of(a) == exit_code_of(b) ==> a == b,
{
}

} // verus!
