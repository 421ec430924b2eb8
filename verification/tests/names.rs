use xtask::binary::{executable, Binary, BinaryBuilder, Platform};

const PLATFORMS: [Platform; 5] = [
    Platform::WindowsAmd64,
    Platform::MacosAmd64,
    Platform::MacosAarch64,
    Platform::MacosUniversal,
    Platform::LinuxAmd64,
];

#[test]
fn names_of_a_linux_build() {
    let bin = Binary { artifact: "myapp", platform: "linux-amd64" };
    assert_eq!(bin.asset(), "myapp-linux-amd64");
    assert_eq!(bin.archive(), "myapp-linux-amd64.tar.gz");
    assert_eq!(bin.digest(), "myapp-linux-amd64.tar.gz.sha256");
}

#[test]
fn names_are_the_same_each_time() {
    let bin = Binary { artifact: "tool.exe", platform: "windows-amd64" };
    assert_eq!(bin.asset(), bin.asset());
    assert_eq!(bin.archive(), bin.archive());
    assert_eq!(bin.digest(), bin.digest());
    assert_eq!(bin.asset(), "tool.exe-windows-amd64");
}

#[test]
fn platform_labels() {
    assert_eq!(Platform::WindowsAmd64.label(), "windows-amd64");
    assert_eq!(Platform::MacosAmd64.label(), "macos-amd64");
    assert_eq!(Platform::MacosAarch64.label(), "macos-aarch64");
    assert_eq!(Platform::MacosUniversal.label(), "macos-universal");
    assert_eq!(Platform::LinuxAmd64.label(), "linux-amd64");
}

#[test]
fn platforms_never_share_a_name() {
    for (i, p) in PLATFORMS.iter().enumerate() {
        for (j, q) in PLATFORMS.iter().enumerate() {
            if i == j {
                continue;
            }
            let first = Binary { artifact: "myapp", platform: p.label() };
            let second = Binary { artifact: "myapp", platform: q.label() };
            assert_ne!(first.asset(), second.asset());
            assert_ne!(first.archive(), second.archive());
            assert_ne!(first.digest(), second.digest());
        }
    }
}

#[test]
fn platforms_never_share_a_name_across_artifacts() {
    let first = Binary { artifact: "a-macos", platform: Platform::MacosAmd64.label() };
    let second = Binary { artifact: "a", platform: Platform::MacosAmd64.label() };
    assert_ne!(first.asset(), second.asset());
    for p in PLATFORMS.iter() {
        for q in PLATFORMS.iter() {
            if p == q {
                continue;
            }
            let one = Binary { artifact: "app-macos", platform: p.label() };
            let two = Binary { artifact: "app", platform: q.label() };
            assert_ne!(one.asset(), two.asset());
        }
    }
}

#[test]
fn only_windows_executables_have_an_extension() {
    assert_eq!(Platform::WindowsAmd64.artifact("myapp"), "myapp.exe");
    assert_eq!(Platform::MacosAmd64.artifact("myapp"), "myapp");
    assert_eq!(Platform::MacosAarch64.artifact("myapp"), "myapp");
    assert_eq!(Platform::MacosUniversal.artifact("myapp"), "myapp");
    assert_eq!(Platform::LinuxAmd64.artifact("myapp"), "myapp");
    assert!(Platform::WindowsAmd64.is_windows());
    assert!(!Platform::LinuxAmd64.is_windows());
    assert_eq!(executable("myapp", true), "myapp.exe");
    assert_eq!(executable("myapp", false), "myapp");
}

#[test]
fn a_descriptor_needs_both_names() {
    let bin = Binary::new("myapp", "linux-amd64");
    assert!(bin.is_some());
    let bin = bin.unwrap();
    assert_eq!(bin.artifact, "myapp");
    assert_eq!(bin.platform, "linux-amd64");
    assert!(Binary::new("", "linux-amd64").is_none());
    assert!(Binary::new("myapp", "").is_none());
    assert!(Binary::new("", "").is_none());
    assert!(Binary::new(" ", "x").is_some());
}

#[test]
fn the_builder_knows_its_binary_and_target() {
    let bin = Binary { artifact: "myapp", platform: "linux-amd64" };
    let native = BinaryBuilder::Native(bin);
    assert_eq!(native.bin().artifact, "myapp");
    assert_eq!(native.bin().platform, "linux-amd64");
    assert_eq!(native.target(), None);
    let cross = BinaryBuilder::Cross { bin, rust_target: "aarch64-apple-darwin" };
    assert_eq!(cross.bin().asset(), "myapp-linux-amd64");
    assert_eq!(cross.target(), Some("aarch64-apple-darwin"));
}

#[test]
fn output_directories() {
    let bin = Binary { artifact: "myapp", platform: "macos-aarch64" };
    assert_eq!(BinaryBuilder::Native(bin).bin_dir(), "./release-output/");
    assert_eq!(
        BinaryBuilder::Cross { bin, rust_target: "aarch64-apple-darwin" }.bin_dir(),
        "./release-output/aarch64-apple-darwin/"
    );
}
