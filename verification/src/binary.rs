//! The target descriptor, the names derived from it, and the two ways in
//! which a target is built.

use vstd::prelude::*;
use vstd::string::*;
use crate::error::ReleaseError;
use crate::pipeline::{staged, Pipeline, PipelineView, Step, StepView};
use crate::plan::{
    compile, compile_steps, lemma_release_is_staged, lemma_upload_stages, output_dir, package,
    package_steps, release, release_steps, resolve_output_dir, upload, upload_steps,
};
use crate::tag::{missing_version, resolve_version};

verus! {

/// The asset name of an artifact built for a platform.
pub open spec fn asset_name(artifact: Seq<char>, platform: Seq<char>) -> Seq<char> {
    artifact + "-"@ + platform
}

/// The file name of the archive that holds an asset.
pub open spec fn archive_name(asset: Seq<char>) -> Seq<char> {
    asset + ".tar.gz"@
}

/// The file name of the digest record of an asset's archive.
pub open spec fn digest_name(asset: Seq<char>) -> Seq<char> {
    archive_name(asset) + ".sha256"@
}

/// The file name of the executable `name` on a platform: with `.exe` at the
/// end where the platform is Windows.
pub open spec fn executable_name(name: Seq<char>, windows: bool) -> Seq<char> {
    if windows {
        name + ".exe"@
    } else {
        name
    }
}

/// The file name of the executable `name` on a platform.
pub fn executable(name: &str, windows: bool) -> (file: String)
    ensures
        file@ == executable_name(name@, windows),
{
    let mut file = String::from_str(name);
    if windows {
        file.append(".exe");
    }
    file
}

/// The platforms for which releases are made.
#[derive(Clone, Copy, Debug, PartialEq, Eq, Structural)]
pub enum Platform {
    WindowsAmd64,
    MacosAmd64,
    MacosAarch64,
    MacosUniversal,
    LinuxAmd64,
}

impl Platform {
    /// The label of the platform in asset names.
    pub open spec fn spec_label(self) -> Seq<char> {
        match self {
            Platform::WindowsAmd64 => "windows-amd64"@,
            Platform::MacosAmd64 => "macos-amd64"@,
            Platform::MacosAarch64 => "macos-aarch64"@,
            Platform::MacosUniversal => "macos-universal"@,
            Platform::LinuxAmd64 => "linux-amd64"@,
        }
    }

    /// The label of the platform in asset names.
    pub fn label(self) -> (label: &'static str)
        ensures
            label@ == self.spec_label(),
    {
        match self {
            Platform::WindowsAmd64 => "windows-amd64",
            Platform::MacosAmd64 => "macos-amd64",
            Platform::MacosAarch64 => "macos-aarch64",
            Platform::MacosUniversal => "macos-universal",
            Platform::LinuxAmd64 => "linux-amd64",
        }
    }

    /// Whether executables of the platform end in `.exe`.
    pub open spec fn spec_is_windows(self) -> bool {
        self == Platform::WindowsAmd64
    }

    /// Whether executables of the platform end in `.exe`.
    #[verifier::when_used_as_spec(spec_is_windows)]
    pub fn is_windows(self) -> (windows: bool)
        ensures
            windows == self.spec_is_windows(),
    {
        match self {
            Platform::WindowsAmd64 => true,
            _ => false,
        }
    }

    /// The file name of the executable `name` built for the platform.
    pub fn artifact(self, name: &str) -> (file: String)
        ensures
            file@ == executable_name(name@, self.is_windows()),
    {
        executable(name, self.is_windows())
    }
}

/// One artifact built for one platform.
#[derive(Clone, Copy, Debug)]
pub struct Binary<'s> {
    pub artifact: &'s str,
    pub platform: &'s str,
}

impl<'s> Binary<'s> {
    /// Whether neither the artifact name nor the platform label is empty.
    pub open spec fn named(self) -> bool {
        self.artifact@.len() > 0 && self.platform@.len() > 0
    }

    /// The descriptor of `artifact` built for `platform`, or `None` where
    /// one of the two is empty. Nothing else is asked of them.
    pub fn new(artifact: &'s str, platform: &'s str) -> (bin: Option<Binary<'s>>)
        ensures
            match bin {
                Some(bin) => bin.named() && bin == (Binary { artifact, platform }),
                None => artifact@.len() == 0 || platform@.len() == 0,
            },
    {
        if artifact.is_empty() || platform.is_empty() {
            None
        } else {
            Some(Binary { artifact, platform })
        }
    }

    /// The asset name, `{artifact}-{platform}`.
    pub fn asset(&self) -> (name: String)
        ensures
            name@ == asset_name(self.artifact@, self.platform@),
    {
        let mut name = String::from_str(self.artifact);
        name.append("-");
        name.append(self.platform);
        name
    }

    /// The archive name, `{asset}.tar.gz`.
    pub fn archive(&self) -> (name: String)
        ensures
            name@ == archive_name(asset_name(self.artifact@, self.platform@)),
    {
        let mut name = self.asset();
        name.append(".tar.gz");
        name
    }

    /// The digest file name, `{archive}.sha256`.
    pub fn digest(&self) -> (name: String)
        ensures
            name@ == digest_name(asset_name(self.artifact@, self.platform@)),
    {
        let mut name = self.archive();
        name.append(".sha256");
        name
    }
}

/// How a binary is built: for the host, or for another target.
#[derive(Clone, Copy, Debug)]
pub enum BinaryBuilder<'s> {
    /// A [`Binary`] built for the host.
    Native(Binary<'s>),
    /// A [`Binary`] built by cross compilation for the target `rust_target`.
    Cross { bin: Binary<'s>, rust_target: &'s str },
}

impl<'s> BinaryBuilder<'s> {
    /// The binary that is built.
    pub open spec fn spec_bin(self) -> Binary<'s> {
        match self {
            BinaryBuilder::Native(bin) => bin,
            BinaryBuilder::Cross { bin, .. } => bin,
        }
    }

    /// The binary that is built.
    pub fn bin(&self) -> (bin: &Binary<'s>)
        ensures
            *bin == self.spec_bin(),
    {
        match self {
            BinaryBuilder::Native(bin) => bin,
            BinaryBuilder::Cross { bin, .. } => bin,
        }
    }

    /// The target of a cross build, and `None` for a native one.
    pub open spec fn spec_target(self) -> Option<Seq<char>> {
        match self {
            BinaryBuilder::Native(_) => None,
            BinaryBuilder::Cross { rust_target, .. } => Some(rust_target@),
        }
    }

    /// The target of a cross build, and `None` for a native one.
    pub fn target(&self) -> (target: Option<&'s str>)
        ensures
            target.deep_view() == self.spec_target(),
    {
        match self {
            BinaryBuilder::Native(_) => None,
            BinaryBuilder::Cross { rust_target, .. } => Some(*rust_target),
        }
    }

    /// The asset name of the binary that is built.
    pub open spec fn spec_asset(self) -> Seq<char> {
        asset_name(self.spec_bin().artifact@, self.spec_bin().platform@)
    }

    /// The directory in which the compiler leaves the binary.
    pub fn bin_dir(&self) -> (dir: String)
        ensures
            dir@ == output_dir(self.spec_target()),
    {
        resolve_output_dir(self.target())
    }

    /// The steps that compile the executable `binary`.
    pub fn build(&self, binary: &str) -> (steps: Vec<Step>)
        ensures
            steps.deep_view() == compile_steps(binary@, self.spec_target()),
    {
        compile(binary, self.target())
    }

    /// The steps that pack the binary into its archive and record the digest
    /// of the archive.
    pub fn zip(&self) -> (steps: Vec<Step>)
        ensures
            steps.deep_view() == package_steps(
                self.spec_asset(),
                output_dir(self.spec_target()),
                self.spec_bin().artifact@,
            ),
    {
        let bin = self.bin();
        let asset = bin.asset();
        let dir = self.bin_dir();
        package(asset.as_str(), dir.as_str(), bin.artifact)
    }

    /// The steps that add the archive and its digest to the release named
    /// after `version`, or `MissingVersion` where there is no version.
    pub fn upload(&self, version: Option<&str>) -> (steps: Result<Vec<Step>, ReleaseError>)
        ensures
            match version {
                Some(tag) => steps is Ok && steps->Ok_0.deep_view() == upload_steps(
                    tag@,
                    self.spec_asset(),
                ),
                None => steps is Err && steps->Err_0@ == missing_version(),
            },
    {
        match resolve_version(version) {
            Ok(tag) => Ok(upload(tag.as_str(), self.bin().asset().as_str())),
            Err(error) => Err(error),
        }
    }

    /// All the steps of the release of this binary under the tag `tag`.
    pub open spec fn steps(self, binary: Seq<char>, tag: Seq<char>) -> Seq<StepView> {
        release_steps(
            binary,
            self.spec_target(),
            self.spec_asset(),
            self.spec_bin().artifact@,
            upload_steps(tag, self.spec_asset()),
        )
    }

    /// The release of this binary, compiled from the executable `binary`, as
    /// one of the files of the release named after `version`.
    ///
    /// Without a version there is no pipeline, and so nothing is compiled.
    pub fn pipeline(&self, binary: &str, version: Option<&str>) -> (pipeline: Result<
        Pipeline,
        ReleaseError,
    >)
        ensures
            match version {
                Some(tag) => pipeline is Ok && pipeline->Ok_0@ == PipelineView::fresh(
                    self.steps(binary@, tag@),
                ),
                None => pipeline is Err && pipeline->Err_0@ == missing_version(),
            },
    {
        match self.upload(version) {
            Ok(uploading) => {
                let bin = self.bin();
                let asset = bin.asset();
                let steps = release(
                    binary,
                    self.target(),
                    asset.as_str(),
                    bin.artifact,
                    uploading,
                );
                Ok(Pipeline::new(steps))
            },
            Err(error) => Err(error),
        }
    }
}

/// For one artifact, different platform labels give different asset names.
pub proof fn lemma_asset_name_tells_platforms_apart(
    artifact: Seq<char>,
    first: Seq<char>,
    second: Seq<char>,
)
    requires
        first != second,
    ensures
        asset_name(artifact, first) != asset_name(artifact, second),
{
    let head = artifact + "-"@;
    if asset_name(artifact, first) == asset_name(artifact, second) {
        assert(first =~= (head + first).skip(head.len() as int));
        assert(second =~= (head + second).skip(head.len() as int));
    }
}

/// Texts that differ still differ after the same ending is put behind them.
proof fn lemma_ending_keeps_apart(first: Seq<char>, second: Seq<char>, ending: Seq<char>)
    requires
        first != second,
    ensures
        first + ending != second + ending,
{
    if first + ending == second + ending {
        assert((first + ending).len() == first.len() + ending.len());
        assert((second + ending).len() == second.len() + ending.len());
        assert(first =~= (first + ending).take(first.len() as int));
        assert(second =~= (second + ending).take(second.len() as int));
    }
}

/// Different asset names give different archive names and different digest
/// file names.
pub proof fn lemma_file_names_tell_assets_apart(first: Seq<char>, second: Seq<char>)
    requires
        first != second,
    ensures
        archive_name(first) != archive_name(second),
        digest_name(first) != digest_name(second),
{
    lemma_ending_keeps_apart(first, second, ".tar.gz"@);
    lemma_ending_keeps_apart(archive_name(first), archive_name(second), ".sha256"@);
}

/// No two of the supported platforms share an asset name, an archive name or
/// a digest file name, whatever the artifacts are called.
pub proof fn lemma_platforms_never_collide(
    first: Seq<char>,
    p: Platform,
    second: Seq<char>,
    q: Platform,
)
    requires
        p != q,
    ensures
        asset_name(first, p.spec_label()) != asset_name(second, q.spec_label()),
        archive_name(asset_name(first, p.spec_label())) != archive_name(
            asset_name(second, q.spec_label()),
        ),
        digest_name(asset_name(first, p.spec_label())) != digest_name(
            asset_name(second, q.spec_label()),
        ),
{
    reveal_strlit("windows-amd64");
    reveal_strlit("macos-amd64");
    reveal_strlit("macos-aarch64");
    reveal_strlit("macos-universal");
    reveal_strlit("linux-amd64");
    let one = asset_name(first, p.spec_label());
    let two = asset_name(second, q.spec_label());
    let end = one.len() as int;
    // The labels differ in the third or in the eighth character from the end.
    assert(one[end - 3] == p.spec_label()[p.spec_label().len() - 3]);
    assert(one[end - 8] == p.spec_label()[p.spec_label().len() - 8]);
    if one == two {
        assert(two[end - 3] == q.spec_label()[q.spec_label().len() - 3]);
        assert(two[end - 8] == q.spec_label()[q.spec_label().len() - 8]);
        assert(false);
    }
    lemma_file_names_tell_assets_apart(one, two);
}

/// The steps of a release of one of several platform artifacts run stage by
/// stage.
pub proof fn lemma_steps_are_staged(builder: BinaryBuilder, binary: Seq<char>, tag: Seq<char>)
    ensures
        staged(builder.steps(binary, tag)),
{
    lemma_upload_stages(tag, builder.spec_asset());
    lemma_release_is_staged(
        binary,
        builder.spec_target(),
        builder.spec_asset(),
        builder.spec_bin().artifact@,
        upload_steps(tag, builder.spec_asset()),
    );
}

} // verus!
