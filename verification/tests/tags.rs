use xtask::error::{ErrorKind, ReleaseError, Stage};
use xtask::tag::{resolve_tag, resolve_version};

#[test]
fn a_tag_reference_names_its_tag() {
    assert_eq!(resolve_tag("refs/tags/v1.2.3"), Ok("v1.2.3".to_string()));
}

#[test]
fn a_tag_may_hold_slashes_and_other_letters() {
    assert_eq!(resolve_tag("refs/tags/release/2.0"), Ok("release/2.0".to_string()));
    assert_eq!(resolve_tag("refs/tags/v\u{e9}1"), Ok("v\u{e9}1".to_string()));
    assert_eq!(resolve_tag("refs/tags/refs/tags/x"), Ok("refs/tags/x".to_string()));
}

#[test]
fn the_bare_prefix_names_the_empty_tag() {
    assert_eq!(resolve_tag("refs/tags/"), Ok(String::new()));
}

#[test]
fn a_branch_reference_is_malformed() {
    let error = resolve_tag("refs/heads/main").unwrap_err();
    assert_eq!(error.kind, ErrorKind::MalformedRef);
    assert_eq!(error.cause, "refs/heads/main");
}

#[test]
fn other_references_are_malformed() {
    for reference in ["", "v1.2.3", "refs/tags", "refs/tag/v1", " refs/tags/v1", "Refs/tags/v1", "\u{e9}"] {
        let error = resolve_tag(reference).unwrap_err();
        assert_eq!(error, ReleaseError { kind: ErrorKind::MalformedRef, cause: reference.to_string() });
    }
}

#[test]
fn a_version_is_the_tag() {
    assert_eq!(resolve_version(Some("v0.9.0")), Ok("v0.9.0".to_string()));
    assert_eq!(resolve_version(Some("")), Ok(String::new()));
}

#[test]
fn no_version_no_tag() {
    let error = resolve_version(None).unwrap_err();
    assert_eq!(error.kind, ErrorKind::MissingVersion);
    assert_eq!(error.cause, "no version is set");
}

#[test]
fn kinds_belong_to_stages() {
    assert_eq!(ErrorKind::ToolchainUnavailable.stage(), Some(Stage::Compile));
    assert_eq!(ErrorKind::CompileFailed.stage(), Some(Stage::Compile));
    assert_eq!(ErrorKind::ArchiveFailed.stage(), Some(Stage::Archive));
    assert_eq!(ErrorKind::DigestFailed.stage(), Some(Stage::Digest));
    assert_eq!(ErrorKind::UploadFailed.stage(), Some(Stage::Upload));
    assert_eq!(ErrorKind::MissingVersion.stage(), None);
    assert_eq!(ErrorKind::MalformedRef.stage(), None);
}

#[test]
fn stage_names_and_kind_labels() {
    assert_eq!(Stage::Compile.name(), "compile");
    assert_eq!(Stage::Archive.name(), "archive");
    assert_eq!(Stage::Digest.name(), "digest");
    assert_eq!(Stage::Upload.name(), "upload");
    assert_eq!(ErrorKind::ToolchainUnavailable.label(), "toolchain unavailable");
    assert_eq!(ErrorKind::CompileFailed.label(), "compile failed");
    assert_eq!(ErrorKind::ArchiveFailed.label(), "archive failed");
    assert_eq!(ErrorKind::DigestFailed.label(), "digest failed");
    assert_eq!(ErrorKind::UploadFailed.label(), "upload failed");
    assert_eq!(ErrorKind::MissingVersion.label(), "missing version");
    assert_eq!(ErrorKind::MalformedRef.label(), "malformed ref");
}

#[test]
fn messages_name_stage_and_cause() {
    assert_eq!(
        ReleaseError::new(ErrorKind::CompileFailed, "exit status 101").message(),
        "compile stage: compile failed: exit status 101"
    );
    assert_eq!(
        ReleaseError::new(ErrorKind::ToolchainUnavailable, "no network").message(),
        "compile stage: toolchain unavailable: no network"
    );
    assert_eq!(
        ReleaseError::new(ErrorKind::ArchiveFailed, "no such file").message(),
        "archive stage: archive failed: no such file"
    );
    assert_eq!(
        ReleaseError::new(ErrorKind::DigestFailed, "disk full").message(),
        "digest stage: digest failed: disk full"
    );
    assert_eq!(
        ReleaseError::new(ErrorKind::UploadFailed, "tag not found").message(),
        "upload stage: upload failed: tag not found"
    );
    assert_eq!(resolve_version(None).unwrap_err().message(), "missing version: no version is set");
    assert_eq!(
        resolve_tag("refs/heads/main").unwrap_err().message(),
        "malformed ref: refs/heads/main"
    );
}
