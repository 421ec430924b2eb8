//! The tag that names a release: taken from a version, or read from a
//! reference to a tag.

use vstd::prelude::*;
use vstd::string::*;
use crate::error::{ErrorKind, Failure, ReleaseError};

verus! {

/// What a reference to a tag begins with.
pub open spec fn tag_prefix() -> Seq<char> {
    "refs/tags/"@
}

/// The tag that a reference names: what follows `refs/tags/`, if the
/// reference begins with it.
pub open spec fn tag_of_ref(reference: Seq<char>) -> Option<Seq<char>> {
    if tag_prefix().is_prefix_of(reference) {
        Some(reference.skip(tag_prefix().len() as int))
    } else {
        None
    }
}

/// The failure reported for a reference that names no tag.
pub open spec fn malformed_ref(reference: Seq<char>) -> Failure {
    Failure { kind: ErrorKind::MalformedRef, cause: reference }
}

/// The failure reported where no version is given.
pub open spec fn missing_version() -> Failure {
    Failure { kind: ErrorKind::MissingVersion, cause: "no version is set"@ }
}

/// What is left of `text` after `prefix`, or `None` if `text` does not begin
/// with `prefix`.
fn strip_prefix<'a>(text: &'a str, prefix: &str) -> (rest: Option<&'a str>)
    ensures
        match rest {
            Some(rest) => prefix@.is_prefix_of(text@) && rest@ == text@.skip(prefix@.len() as int),
            None => !prefix@.is_prefix_of(text@),
        },
{
    let skipped = prefix.unicode_len();
    let total = text.unicode_len();
    if total < skipped {
        return None;
    }
    let mut i: usize = 0;
    while i < skipped
        invariant
            i <= skipped,
            skipped == prefix@.len(),
            total == text@.len(),
            skipped <= total,
            forall|j: int| 0 <= j < i ==> text@[j] == prefix@[j],
        decreases skipped - i,
    {
        if text.get_char(i) != prefix.get_char(i) {
            assert(text@.subrange(0, skipped as int)[i as int] != prefix@[i as int]);
            return None;
        }
        i += 1;
    }
    assert(prefix@ =~= text@.subrange(0, skipped as int));
    Some(text.substring_char(skipped, total))
}

/// The tag of a release that is named after a version.
pub fn resolve_version(version: Option<&str>) -> (tag: Result<String, ReleaseError>)
    ensures
        match version {
            Some(version) => tag is Ok && tag->Ok_0@ == version@,
            None => tag is Err && tag->Err_0@ == missing_version(),
        },
{
    match version {
        Some(version) => Ok(String::from_str(version)),
        None => Err(ReleaseError::new(ErrorKind::MissingVersion, "no version is set")),
    }
}

/// The tag of a release that is named after the tag that `reference` refers
/// to.
pub fn resolve_tag(reference: &str) -> (tag: Result<String, ReleaseError>)
    ensures
        match tag_of_ref(reference@) {
            Some(name) => tag is Ok && tag->Ok_0@ == name,
            None => tag is Err && tag->Err_0@ == malformed_ref(reference@),
        },
{
    match strip_prefix(reference, "refs/tags/") {
        Some(name) => Ok(String::from_str(name)),
        None => Err(ReleaseError::new(ErrorKind::MalformedRef, reference)),
    }
}

/// Every tag is read back from the reference that names it.
pub proof fn lemma_tag_is_read_back(tag: Seq<char>)
    ensures
        tag_of_ref(tag_prefix() + tag) == Some(tag),
{
    let reference = tag_prefix() + tag;
    assert(tag_prefix() =~= reference.subrange(0, tag_prefix().len() as int));
    assert(tag =~= reference.skip(tag_prefix().len() as int));
}

} // verus!
