//! The release made on the host, for the tag that a reference names.

use vstd::prelude::*;
use vstd::string::*;
use crate::binary::{executable, executable_name};
use crate::error::ReleaseError;
use crate::pipeline::{staged, Pipeline, PipelineView, StepView};
use crate::plan::{
    create, create_steps, lemma_release_is_staged, lemma_upload_stages, release, release_steps,
};
use crate::tag::{malformed_ref, resolve_tag, tag_of_ref};

verus! {

/// The target that releases made on Linux are built for: it links
/// statically, so that the binary does not depend on the host's C library.
pub const LINUX_MUSL: &'static str = "x86_64-unknown-linux-musl";

/// The kind of machine on which the release is made.
#[derive(Clone, Copy, Debug, PartialEq, Eq, Structural)]
pub enum Host {
    Linux,
    Windows,
    Other,
}

impl Host {
    /// The target that a release made on this host is built for; `None`
    /// stands for the host's own.
    pub open spec fn spec_target(self) -> Option<Seq<char>> {
        match self {
            Host::Linux => Some(LINUX_MUSL@),
            _ => None,
        }
    }

    /// The target that a release made on this host is built for; `None`
    /// stands for the host's own.
    pub fn target(self) -> (target: Option<&'static str>)
        ensures
            target.deep_view() == self.spec_target(),
    {
        match self {
            Host::Linux => Some(LINUX_MUSL),
            _ => None,
        }
    }

    /// Whether executables on this host end in `.exe`.
    pub open spec fn spec_is_windows(self) -> bool {
        self == Host::Windows
    }

    /// Whether executables on this host end in `.exe`.
    #[verifier::when_used_as_spec(spec_is_windows)]
    pub fn is_windows(self) -> (windows: bool)
        ensures
            windows == self.spec_is_windows(),
    {
        match self {
            Host::Windows => true,
            _ => false,
        }
    }
}

/// Builds a release on the host and creates it on the release host.
#[derive(Clone, Debug, PartialEq, Eq)]
pub struct Publish {
    /// Name of the executable, without the host's extension.
    pub artifact: String,
    /// Name of the asset.
    pub asset: String,
}

impl Publish {
    /// All the steps of the release, made on `host` from the executable
    /// `binary`, under the tag `tag`.
    pub open spec fn steps(self, binary: Seq<char>, host: Host, tag: Seq<char>) -> Seq<StepView> {
        release_steps(
            binary,
            host.spec_target(),
            self.asset@,
            executable_name(self.artifact@, host.is_windows()),
            create_steps(tag, self.asset@),
        )
    }

    /// The release made on `host` from the executable `binary`, created
    /// under the tag that `reference` names.
    ///
    /// Where the reference names no tag there is no pipeline, and so nothing
    /// is compiled.
    pub fn pipeline(&self, binary: &str, host: Host, reference: &str) -> (pipeline: Result<
        Pipeline,
        ReleaseError,
    >)
        ensures
            match tag_of_ref(reference@) {
                Some(tag) => pipeline is Ok && pipeline->Ok_0@ == PipelineView::fresh(
                    self.steps(binary@, host, tag),
                ),
                None => pipeline is Err && pipeline->Err_0@ == malformed_ref(reference@),
            },
    {
        match resolve_tag(reference) {
            Ok(tag) => {
                let file = executable(self.artifact.as_str(), host.is_windows());
                let steps = release(
                    binary,
                    host.target(),
                    self.asset.as_str(),
                    file.as_str(),
                    create(tag.as_str(), self.asset.as_str()),
                );
                Ok(Pipeline::new(steps))
            },
            Err(error) => Err(error),
        }
    }
}

/// The steps of a release made on the host run stage by stage.
pub proof fn lemma_steps_are_staged(publish: Publish, binary: Seq<char>, host: Host, tag: Seq<char>)
    ensures
        staged(publish.steps(binary, host, tag)),
{
    lemma_upload_stages(tag, publish.asset@);
    lemma_release_is_staged(
        binary,
        host.spec_target(),
        publish.asset@,
        executable_name(publish.artifact@, host.is_windows()),
        create_steps(tag, publish.asset@),
    );
}

} // verus!
