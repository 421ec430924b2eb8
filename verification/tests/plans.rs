use xtask::binary::{Binary, BinaryBuilder};
use xtask::command::Invocation;
use xtask::error::{ErrorKind, Stage};
use xtask::pipeline::Step;
use xtask::plan::{compile, create, package, release, resolve_output_dir, upload};

fn words(command: &Invocation) -> Vec<String> {
    let mut all = vec![command.program.clone()];
    all.extend(command.args.iter().cloned());
    all
}

fn run(line: &[&str], failure: ErrorKind) -> Step {
    let mut command = Invocation::new(line[0]);
    for word in &line[1..] {
        command = command.arg(word);
    }
    Step::Run { command, failure }
}

fn capture(line: &[&str], failure: ErrorKind) -> Step {
    let mut command = Invocation::new(line[0]);
    for word in &line[1..] {
        command = command.arg(word);
    }
    Step::Capture { command, failure }
}

#[test]
fn an_invocation_keeps_its_words_in_order() {
    let command = Invocation::new("tar").arg("czvf").arg("a.tar.gz");
    assert_eq!(command.program, "tar");
    assert_eq!(command.args, vec!["czvf".to_string(), "a.tar.gz".to_string()]);
    assert_eq!(words(&command), vec!["tar", "czvf", "a.tar.gz"]);
    assert_eq!(Invocation::new("gh").args.len(), 0);
}

#[test]
fn a_command_holds_the_words_of_its_invocation() {
    let command = Invocation::new("tar").arg("czvf").arg("a.tar.gz").arg("-C").arg("./out/").arg("a");
    assert_eq!(command.command().to_string(), "tar czvf a.tar.gz -C ./out/ a");
    assert_eq!(Invocation::new("gh").command().to_string(), "gh");
    assert_eq!(Invocation::new("echo").arg("two words").command().to_string(), "echo \"two words\"");
}

#[test]
fn output_directory_by_target() {
    assert_eq!(resolve_output_dir(None), "./release-output/");
    assert_eq!(
        resolve_output_dir(Some("x86_64-unknown-linux-musl")),
        "./release-output/x86_64-unknown-linux-musl/"
    );
}

#[test]
fn a_native_build_is_one_step() {
    assert_eq!(
        compile("myapp", None),
        vec![run(
            &["cargo", "build", "--verbose", "--bin", "myapp", "--release", "--locked"],
            ErrorKind::CompileFailed
        )]
    );
}

#[test]
fn a_cross_build_installs_the_target_first() {
    assert_eq!(
        compile("myapp", Some("aarch64-apple-darwin")),
        vec![
            run(
                &["rustup", "target", "add", "aarch64-apple-darwin"],
                ErrorKind::ToolchainUnavailable
            ),
            run(
                &[
                    "cargo",
                    "build",
                    "--verbose",
                    "--bin",
                    "myapp",
                    "--release",
                    "--locked",
                    "--target=aarch64-apple-darwin"
                ],
                ErrorKind::CompileFailed
            ),
        ]
    );
}

#[test]
fn packing_archives_then_digests() {
    assert_eq!(
        package("myapp-linux-amd64", "./release-output/", "myapp"),
        vec![
            run(
                &["tar", "czvf", "myapp-linux-amd64.tar.gz", "-C", "./release-output/", "myapp"],
                ErrorKind::ArchiveFailed
            ),
            capture(
                &["openssl", "dgst", "-r", "-sha256", "myapp-linux-amd64.tar.gz"],
                ErrorKind::DigestFailed
            ),
            Step::Store {
                path: "myapp-linux-amd64.tar.gz.sha256".to_string(),
                failure: ErrorKind::DigestFailed
            },
        ]
    );
}

#[test]
fn the_archive_entry_is_the_bare_artifact() {
    let steps = package("tool-windows-amd64", "./release-output/", "tool.exe");
    match &steps[0] {
        Step::Run { command, .. } => {
            assert_eq!(command.args.last().unwrap(), "tool.exe");
            assert_eq!(command.args[2], "-C");
            assert_eq!(command.args[3], "./release-output/");
        }
        _ => panic!("the first step runs the archiver"),
    }
}

#[test]
fn uploading_joins_a_release() {
    assert_eq!(
        upload("v1.2.3", "myapp-linux-amd64"),
        vec![run(
            &[
                "gh",
                "release",
                "upload",
                "v1.2.3",
                "myapp-linux-amd64.tar.gz",
                "myapp-linux-amd64.tar.gz.sha256"
            ],
            ErrorKind::UploadFailed
        )]
    );
}

#[test]
fn creating_makes_a_release() {
    assert_eq!(
        create("v1.2.3", "myapp-linux-amd64"),
        vec![
            run(&["gh", "config", "set", "prompt", "disabled"], ErrorKind::UploadFailed),
            run(
                &[
                    "gh",
                    "release",
                    "create",
                    "v1.2.3",
                    "myapp-linux-amd64.tar.gz",
                    "myapp-linux-amd64.tar.gz.sha256"
                ],
                ErrorKind::UploadFailed
            ),
        ]
    );
}

#[test]
fn a_release_runs_stage_by_stage() {
    let steps = release(
        "myapp",
        Some("x86_64-unknown-linux-musl"),
        "myapp-linux-amd64",
        "myapp",
        create("v1", "myapp-linux-amd64"),
    );
    let stages: Vec<Option<Stage>> = steps.iter().map(|step| step.stage()).collect();
    assert_eq!(
        stages,
        vec![
            Some(Stage::Compile),
            Some(Stage::Compile),
            Some(Stage::Archive),
            Some(Stage::Digest),
            Some(Stage::Digest),
            Some(Stage::Upload),
            Some(Stage::Upload),
        ]
    );
    let kinds: Vec<ErrorKind> = steps.iter().map(|step| step.failure()).collect();
    assert_eq!(
        kinds,
        vec![
            ErrorKind::ToolchainUnavailable,
            ErrorKind::CompileFailed,
            ErrorKind::ArchiveFailed,
            ErrorKind::DigestFailed,
            ErrorKind::DigestFailed,
            ErrorKind::UploadFailed,
            ErrorKind::UploadFailed,
        ]
    );
    let mut expected = compile("myapp", Some("x86_64-unknown-linux-musl"));
    expected.extend(package(
        "myapp-linux-amd64",
        "./release-output/x86_64-unknown-linux-musl/",
        "myapp",
    ));
    expected.extend(create("v1", "myapp-linux-amd64"));
    assert_eq!(steps, expected);
}

#[test]
fn the_builder_hands_out_the_steps_of_each_stage() {
    let bin = Binary { artifact: "myapp", platform: "macos-aarch64" };
    let cross = BinaryBuilder::Cross { bin, rust_target: "aarch64-apple-darwin" };
    assert_eq!(cross.build("myapp"), compile("myapp", Some("aarch64-apple-darwin")));
    assert_eq!(
        cross.zip(),
        package("myapp-macos-aarch64", "./release-output/aarch64-apple-darwin/", "myapp")
    );
    assert_eq!(cross.upload(Some("v2")), Ok(upload("v2", "myapp-macos-aarch64")));
    let native = BinaryBuilder::Native(bin);
    assert_eq!(native.build("myapp"), compile("myapp", None));
    assert_eq!(native.zip(), package("myapp-macos-aarch64", "./release-output/", "myapp"));
}

#[test]
fn upload_without_a_version_is_refused() {
    let bin = Binary { artifact: "myapp", platform: "linux-amd64" };
    let error = BinaryBuilder::Native(bin).upload(None).unwrap_err();
    assert_eq!(error.kind, ErrorKind::MissingVersion);
}
