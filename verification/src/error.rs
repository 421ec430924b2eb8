//! The stages of a release and the ways in which one fails.

use vstd::prelude::*;
use vstd::string::*;

verus! {

/// The four stages of a release, in the order in which they run.
#[derive(Clone, Copy, Debug, PartialEq, Eq, Structural)]
pub enum Stage {
    Compile,
    Archive,
    Digest,
    Upload,
}

impl Stage {
    /// The position of the stage in the release: a stage runs after every
    /// stage of lower rank.
    pub open spec fn rank(self) -> int {
        match self {
            Stage::Compile => 0,
            Stage::Archive => 1,
            Stage::Digest => 2,
            Stage::Upload => 3,
        }
    }

    /// The name by which messages refer to the stage.
    pub open spec fn spec_name(self) -> Seq<char> {
        match self {
            Stage::Compile => "compile"@,
            Stage::Archive => "archive"@,
            Stage::Digest => "digest"@,
            Stage::Upload => "upload"@,
        }
    }

    /// The name by which messages refer to the stage.
    pub fn name(self) -> (name: &'static str)
        ensures
            name@ == self.spec_name(),
    {
        match self {
            Stage::Compile => "compile",
            Stage::Archive => "archive",
            Stage::Digest => "digest",
            Stage::Upload => "upload",
        }
    }
}

/// What went wrong in a release.
#[derive(Clone, Copy, Debug, PartialEq, Eq, Structural)]
pub enum ErrorKind {
    /// The toolchain component for a cross target could not be installed.
    ToolchainUnavailable,
    /// The compiler did not succeed.
    CompileFailed,
    /// The archive could not be made.
    ArchiveFailed,
    /// The digest could not be computed or recorded.
    DigestFailed,
    /// The release host refused the files, or could not be reached.
    UploadFailed,
    /// No version was given to name the release after.
    MissingVersion,
    /// The reference does not name a tag.
    MalformedRef,
}

impl ErrorKind {
    /// The stage in which a failure of this kind occurs; `None` for the two
    /// kinds that are found before any stage runs.
    pub open spec fn spec_stage(self) -> Option<Stage> {
        match self {
            ErrorKind::ToolchainUnavailable => Some(Stage::Compile),
            ErrorKind::CompileFailed => Some(Stage::Compile),
            ErrorKind::ArchiveFailed => Some(Stage::Archive),
            ErrorKind::DigestFailed => Some(Stage::Digest),
            ErrorKind::UploadFailed => Some(Stage::Upload),
            ErrorKind::MissingVersion => None,
            ErrorKind::MalformedRef => None,
        }
    }

    /// The stage in which a failure of this kind occurs; `None` for the two
    /// kinds that are found before any stage runs.
    #[verifier::when_used_as_spec(spec_stage)]
    pub fn stage(self) -> (stage: Option<Stage>)
        ensures
            stage == self.spec_stage(),
    {
        match self {
            ErrorKind::ToolchainUnavailable => Some(Stage::Compile),
            ErrorKind::CompileFailed => Some(Stage::Compile),
            ErrorKind::ArchiveFailed => Some(Stage::Archive),
            ErrorKind::DigestFailed => Some(Stage::Digest),
            ErrorKind::UploadFailed => Some(Stage::Upload),
            ErrorKind::MissingVersion => None,
            ErrorKind::MalformedRef => None,
        }
    }

    /// The words by which messages name the kind.
    pub open spec fn spec_label(self) -> Seq<char> {
        match self {
            ErrorKind::ToolchainUnavailable => "toolchain unavailable"@,
            ErrorKind::CompileFailed => "compile failed"@,
            ErrorKind::ArchiveFailed => "archive failed"@,
            ErrorKind::DigestFailed => "digest failed"@,
            ErrorKind::UploadFailed => "upload failed"@,
            ErrorKind::MissingVersion => "missing version"@,
            ErrorKind::MalformedRef => "malformed ref"@,
        }
    }

    /// The words by which messages name the kind.
    pub fn label(self) -> (label: &'static str)
        ensures
            label@ == self.spec_label(),
    {
        match self {
            ErrorKind::ToolchainUnavailable => "toolchain unavailable",
            ErrorKind::CompileFailed => "compile failed",
            ErrorKind::ArchiveFailed => "archive failed",
            ErrorKind::DigestFailed => "digest failed",
            ErrorKind::UploadFailed => "upload failed",
            ErrorKind::MissingVersion => "missing version",
            ErrorKind::MalformedRef => "malformed ref",
        }
    }
}

/// A failure as contracts speak of it: its kind and the text of its cause.
pub ghost struct Failure {
    pub kind: ErrorKind,
    pub cause: Seq<char>,
}

impl Failure {
    /// The message that reports the failure: the stage, where the kind has
    /// one, then the kind, then the cause.
    pub open spec fn message(self) -> Seq<char> {
        match self.kind.spec_stage() {
            Some(stage) => stage.spec_name() + " stage: "@ + self.kind.spec_label() + ": "@
                + self.cause,
            None => self.kind.spec_label() + ": "@ + self.cause,
        }
    }
}

/// A failed release: the kind of failure and the underlying cause.
#[derive(Clone, Debug, PartialEq, Eq)]
pub struct ReleaseError {
    pub kind: ErrorKind,
    pub cause: String,
}

impl View for ReleaseError {
    type V = Failure;

    open spec fn view(&self) -> Failure {
        Failure { kind: self.kind, cause: self.cause@ }
    }
}

impl ReleaseError {
    /// An error of the given kind with the given cause.
    pub fn new(kind: ErrorKind, cause: &str) -> (error: ReleaseError)
        ensures
            error@ == (Failure { kind, cause: cause@ }),
    {
        ReleaseError { kind, cause: String::from_str(cause) }
    }

    /// The message shown to the operator.
    pub fn message(&self) -> (text: String)
        ensures
            text@ == self@.message(),
    {
        let mut text = String::new();
        match self.kind.stage() {
            Some(stage) => {
                text.append(stage.name());
                text.append(" stage: ");
            },
            None => {},
        }
        text.append(self.kind.label());
        text.append(": ");
        text.append(self.cause.as_str());
        text
    }
}

} // verus!
