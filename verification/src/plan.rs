//! The steps of each stage: which tools are invoked, with which words, and
//! where the compiler leaves its output.

use vstd::prelude::*;
use vstd::string::*;
use crate::binary::{archive_name, digest_name};
use crate::command::Invocation;
use crate::error::{ErrorKind, Stage};
use crate::pipeline::{staged, Step, StepView};

verus! {

/// The directory in which the compiler leaves the binary: one directory for
/// a native build, a directory of its own below it for each cross target.
pub open spec fn output_dir(target: Option<Seq<char>>) -> Seq<char> {
    match target {
        None => "./release-output/"@,
        Some(triple) => "./release-output/"@ + triple + "/"@,
    }
}

/// The words that install the toolchain component of a cross target.
pub open spec fn install_words(triple: Seq<char>) -> Seq<Seq<char>> {
    seq!["rustup"@, "target"@, "add"@, triple]
}

/// The words that compile `binary`, optimised and with locked dependencies,
/// for the host or for a cross target.
pub open spec fn build_words(binary: Seq<char>, target: Option<Seq<char>>) -> Seq<Seq<char>> {
    let native = seq![
        "cargo"@,
        "build"@,
        "--verbose"@,
        "--bin"@,
        binary,
        "--release"@,
        "--locked"@,
    ];
    match target {
        None => native,
        Some(triple) => native.push("--target="@ + triple),
    }
}

/// The compile stage: for a cross target the toolchain component is made
/// sure of first, and the build names the target.
pub open spec fn compile_steps(binary: Seq<char>, target: Option<Seq<char>>) -> Seq<StepView> {
    let build = StepView::Run {
        words: build_words(binary, target),
        failure: ErrorKind::CompileFailed,
    };
    match target {
        None => seq![build],
        Some(triple) => seq![
            StepView::Run {
                words: install_words(triple),
                failure: ErrorKind::ToolchainUnavailable,
            },
            build,
        ],
    }
}

/// The words that pack the file `artifact` of the directory `dir` into the
/// archive of `asset`. The entry in the archive is named `artifact`, without
/// the directory.
pub open spec fn archive_words(asset: Seq<char>, dir: Seq<char>, artifact: Seq<char>) -> Seq<
    Seq<char>,
> {
    seq!["tar"@, "czvf"@, archive_name(asset), "-C"@, dir, artifact]
}

/// The words that print the SHA-256 digest of the archive of `asset`, the
/// digest first and the file name after it.
pub open spec fn digest_words(asset: Seq<char>) -> Seq<Seq<char>> {
    seq!["openssl"@, "dgst"@, "-r"@, "-sha256"@, archive_name(asset)]
}

/// The archive and digest stages: pack the artifact, compute the digest of
/// the archive, and write what the digest tool printed to the digest file.
pub open spec fn package_steps(asset: Seq<char>, dir: Seq<char>, artifact: Seq<char>) -> Seq<
    StepView,
> {
    seq![
        StepView::Run {
            words: archive_words(asset, dir, artifact),
            failure: ErrorKind::ArchiveFailed,
        },
        StepView::Capture { words: digest_words(asset), failure: ErrorKind::DigestFailed },
        StepView::Store { path: digest_name(asset), failure: ErrorKind::DigestFailed },
    ]
}

/// The words that add the archive and the digest file of `asset` to the
/// existing release `tag`.
pub open spec fn upload_words(tag: Seq<char>, asset: Seq<char>) -> Seq<Seq<char>> {
    seq!["gh"@, "release"@, "upload"@, tag, archive_name(asset), digest_name(asset)]
}

/// The words that create the release `tag` with the archive and the digest
/// file of `asset` as its first files.
pub open spec fn create_words(tag: Seq<char>, asset: Seq<char>) -> Seq<Seq<char>> {
    seq!["gh"@, "release"@, "create"@, tag, archive_name(asset), digest_name(asset)]
}

/// The words that keep the release host's client from asking questions.
pub open spec fn quiet_words() -> Seq<Seq<char>> {
    seq!["gh"@, "config"@, "set"@, "prompt"@, "disabled"@]
}

/// The upload stage of a release that joins an existing one.
pub open spec fn upload_steps(tag: Seq<char>, asset: Seq<char>) -> Seq<StepView> {
    seq![StepView::Run { words: upload_words(tag, asset), failure: ErrorKind::UploadFailed }]
}

/// The upload stage of a release that is created with its files.
pub open spec fn create_steps(tag: Seq<char>, asset: Seq<char>) -> Seq<StepView> {
    seq![
        StepView::Run { words: quiet_words(), failure: ErrorKind::UploadFailed },
        StepView::Run { words: create_words(tag, asset), failure: ErrorKind::UploadFailed },
    ]
}

/// All the steps of one release: compile, then archive and digest, then the
/// given upload stage.
pub open spec fn release_steps(
    binary: Seq<char>,
    target: Option<Seq<char>>,
    asset: Seq<char>,
    artifact: Seq<char>,
    upload: Seq<StepView>,
) -> Seq<StepView> {
    compile_steps(binary, target) + package_steps(asset, output_dir(target), artifact) + upload
}

/// The concatenation of two texts.
fn join(head: &str, tail: &str) -> (text: String)
    ensures
        text@ == head@ + tail@,
{
    let mut text = String::from_str(head);
    text.append(tail);
    text
}

/// The directory in which the compiler leaves the binary.
pub fn resolve_output_dir(target: Option<&str>) -> (dir: String)
    ensures
        dir@ == output_dir(target.deep_view()),
{
    let mut dir = String::from_str("./release-output/");
    match target {
        None => {},
        Some(triple) => {
            dir.append(triple);
            dir.append("/");
        },
    }
    dir
}

/// The steps of the compile stage.
pub fn compile(binary: &str, target: Option<&str>) -> (steps: Vec<Step>)
    ensures
        steps.deep_view() == compile_steps(binary@, target.deep_view()),
{
    let native = Invocation::new("cargo").arg("build").arg("--verbose").arg("--bin").arg(
        binary,
    ).arg("--release").arg("--locked");
    let mut steps: Vec<Step> = Vec::new();
    match target {
        None => {
            assert(native@ =~= build_words(binary@, None));
            steps.push(Step::Run { command: native, failure: ErrorKind::CompileFailed });
        },
        Some(triple) => {
            let install = Invocation::new("rustup").arg("target").arg("add").arg(triple);
            assert(install@ =~= install_words(triple@));
            let build = native.arg(join("--target=", triple).as_str());
            assert(build@ =~= build_words(binary@, Some(triple@)));
            steps.push(Step::Run { command: install, failure: ErrorKind::ToolchainUnavailable });
            steps.push(Step::Run { command: build, failure: ErrorKind::CompileFailed });
        },
    }
    assert(steps.deep_view() =~= compile_steps(binary@, target.deep_view()));
    steps
}

/// The steps of the archive and digest stages, for the file `artifact` of the
/// directory `dir`.
pub fn package(asset: &str, dir: &str, artifact: &str) -> (steps: Vec<Step>)
    ensures
        steps.deep_view() == package_steps(asset@, dir@, artifact@),
{
    let archive = join(asset, ".tar.gz");
    let digest = join(archive.as_str(), ".sha256");
    let pack = Invocation::new("tar").arg("czvf").arg(archive.as_str()).arg("-C").arg(dir).arg(
        artifact,
    );
    assert(pack@ =~= archive_words(asset@, dir@, artifact@));
    let sum = Invocation::new("openssl").arg("dgst").arg("-r").arg("-sha256").arg(
        archive.as_str(),
    );
    assert(sum@ =~= digest_words(asset@));
    let mut steps: Vec<Step> = Vec::new();
    steps.push(Step::Run { command: pack, failure: ErrorKind::ArchiveFailed });
    steps.push(Step::Capture { command: sum, failure: ErrorKind::DigestFailed });
    steps.push(Step::Store { path: digest, failure: ErrorKind::DigestFailed });
    assert(steps.deep_view() =~= package_steps(asset@, dir@, artifact@));
    steps
}

/// The invocation of the release host's client that hands it the archive and
/// the digest file of `asset` for the release `tag`.
fn release_invocation(verb: &str, tag: &str, asset: &str) -> (command: Invocation)
    ensures
        command@ == seq![
            "gh"@,
            "release"@,
            verb@,
            tag@,
            archive_name(asset@),
            digest_name(asset@),
        ],
{
    let archive = join(asset, ".tar.gz");
    let digest = join(archive.as_str(), ".sha256");
    let command = Invocation::new("gh").arg("release").arg(verb).arg(tag).arg(
        archive.as_str(),
    ).arg(digest.as_str());
    assert(command@ =~= seq![
        "gh"@,
        "release"@,
        verb@,
        tag@,
        archive_name(asset@),
        digest_name(asset@),
    ]);
    command
}

/// The steps of the upload stage of a release that joins the existing
/// release `tag`.
pub fn upload(tag: &str, asset: &str) -> (steps: Vec<Step>)
    ensures
        steps.deep_view() == upload_steps(tag@, asset@),
{
    let mut steps: Vec<Step> = Vec::new();
    steps.push(
        Step::Run {
            command: release_invocation("upload", tag, asset),
            failure: ErrorKind::UploadFailed,
        },
    );
    assert(steps.deep_view() =~= upload_steps(tag@, asset@));
    steps
}

/// The steps of the upload stage of a release that creates the release `tag`.
pub fn create(tag: &str, asset: &str) -> (steps: Vec<Step>)
    ensures
        steps.deep_view() == create_steps(tag@, asset@),
{
    let quiet = Invocation::new("gh").arg("config").arg("set").arg("prompt").arg("disabled");
    assert(quiet@ =~= quiet_words());
    let mut steps: Vec<Step> = Vec::new();
    steps.push(Step::Run { command: quiet, failure: ErrorKind::UploadFailed });
    steps.push(
        Step::Run {
            command: release_invocation("create", tag, asset),
            failure: ErrorKind::UploadFailed,
        },
    );
    assert(steps.deep_view() =~= create_steps(tag@, asset@));
    steps
}

/// All the steps of one release, in order.
pub fn release(
    binary: &str,
    target: Option<&str>,
    asset: &str,
    artifact: &str,
    upload: Vec<Step>,
) -> (steps: Vec<Step>)
    ensures
        steps.deep_view() == release_steps(
            binary@,
            target.deep_view(),
            asset@,
            artifact@,
            upload.deep_view(),
        ),
{
    let dir = resolve_output_dir(target);
    let mut steps = compile(binary, target);
    let mut packing = package(asset, dir.as_str(), artifact);
    let mut upload = upload;
    let ghost compiling = steps.deep_view();
    let ghost packed = packing.deep_view();
    let ghost uploading = upload.deep_view();
    steps.append(&mut packing);
    assert(steps.deep_view() =~= compiling + packed);
    steps.append(&mut upload);
    assert(steps.deep_view() =~= compiling + packed + uploading);
    steps
}

/// The steps of every release run stage by stage: compile, archive, digest,
/// upload. It holds whatever the upload stage is made of, as long as each of
/// its steps is reported as a failure of the upload.
pub proof fn lemma_release_is_staged(
    binary: Seq<char>,
    target: Option<Seq<char>>,
    asset: Seq<char>,
    artifact: Seq<char>,
    upload: Seq<StepView>,
)
    requires
        forall|i: int| 0 <= i < upload.len() ==> (#[trigger] upload[i]).stage() == Some(Stage::Upload),
    ensures
        staged(release_steps(binary, target, asset, artifact, upload)),
{
    let compiling = compile_steps(binary, target);
    let packing = package_steps(asset, output_dir(target), artifact);
    let steps = release_steps(binary, target, asset, artifact, upload);
    let early = compiling.len() as int;
    assert(forall|i: int| 0 <= i < early ==> (#[trigger] compiling[i]).stage() == Some(Stage::Compile));
    assert(packing[0].stage() == Some(Stage::Archive));
    assert(packing[1].stage() == Some(Stage::Digest));
    assert(packing[2].stage() == Some(Stage::Digest));
    assert forall|i: int| 0 <= i < steps.len() implies (#[trigger] steps[i]).stage() == Some(
        if i < early {
            Stage::Compile
        } else if i == early {
            Stage::Archive
        } else if i < early + 3 {
            Stage::Digest
        } else {
            Stage::Upload
        },
    ) by {
        if i < early {
            assert(steps[i] == compiling[i]);
        } else if i < early + 3 {
            assert(steps[i] == packing[i - early]);
        } else {
            assert(steps[i] == upload[i - early - 3]);
        }
    }
}

/// Both upload stages are made of steps that are reported as failures of the
/// upload.
pub proof fn lemma_upload_stages(tag: Seq<char>, asset: Seq<char>)
    ensures
        forall|i: int|
            0 <= i < upload_steps(tag, asset).len() ==> (#[trigger] upload_steps(
                tag,
                asset,
            )[i]).stage() == Some(Stage::Upload),
        forall|i: int|
            0 <= i < create_steps(tag, asset).len() ==> (#[trigger] create_steps(
                tag,
                asset,
            )[i]).stage() == Some(Stage::Upload),
{
}

} // verus!
