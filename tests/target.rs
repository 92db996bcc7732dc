use cargo_lambda_build::command::{Build, BuildRequest};
use cargo_lambda_build::error::BuildError;
use cargo_lambda_build::package::OutputFormat;
use cargo_lambda_build::target::{check_build_target, normalize_target, profile_dir_name, resolve_target};

fn request(target: Vec<&str>, profile: Option<&str>, release: bool) -> BuildRequest {
    BuildRequest {
        target: target.into_iter().map(String::from).collect(),
        profile: profile.map(String::from),
        release,
        bin: vec![],
        manifest_path: None,
        disable_zig_linker: false,
    }
}

fn build(arm64: bool, req: BuildRequest) -> Build {
    Build { output_format: OutputFormat::Binary, lambda_dir: None, arm64, build: req }
}

#[test]
fn arm64_with_target_conflicts() {
    let b = build(true, request(vec!["x86_64-unknown-linux-gnu"], None, false));
    assert!(matches!(b.resolve("x86_64-unknown-linux-gnu"), Err(BuildError::ConflictingOptions)));
    let b = build(true, request(vec!["aarch64-unknown-linux-gnu"], None, true));
    assert!(matches!(b.resolve("aarch64-unknown-linux-gnu"), Err(BuildError::ConflictingOptions)));
    let b = build(true, request(vec!["x86_64-apple-darwin"], None, false));
    assert!(matches!(b.resolve("x86_64-apple-darwin"), Err(BuildError::ConflictingOptions)));
}

#[test]
fn arm64_shortcut_selects_arm_triple() {
    let b = build(true, request(vec![], None, false));
    let rt = b.resolve("x86_64-apple-darwin").unwrap();
    assert_eq!(rt.triple, "aarch64-unknown-linux-gnu");
    assert_eq!(rt.platform, "aarch64-unknown-linux-gnu");
}

#[test]
fn arm_host_is_used_verbatim() {
    let b = build(false, request(vec![], None, false));
    let rt = b.resolve("aarch64-unknown-linux-gnu").unwrap();
    assert_eq!(rt.triple, "aarch64-unknown-linux-gnu");
    assert_eq!(rt.platform, "aarch64-unknown-linux-gnu");
    assert_eq!(rt.profile, "debug");
}

#[test]
fn unrelated_host_defaults_to_x86_64_linux() {
    let b = build(false, request(vec![], None, false));
    for host in ["x86_64-apple-darwin", "x86_64-pc-windows-msvc", "aarch64-apple-darwin", "x86_64-unknown-linux-musl"] {
        let rt = b.resolve(host).unwrap();
        assert_eq!(rt.triple, "x86_64-unknown-linux-gnu");
    }
}

#[test]
fn x86_64_host_without_flags_builds_debug_for_itself() {
    let rt = resolve_target(&vec![], false, &None, false, "x86_64-unknown-linux-gnu").unwrap();
    assert_eq!(rt.triple, "x86_64-unknown-linux-gnu");
    assert_eq!(rt.platform, "x86_64-unknown-linux-gnu");
    assert_eq!(rt.profile, "debug");
}

#[test]
fn prefix_matching_of_triples() {
    assert!(check_build_target("x86_64-unknown-linux-musl").is_ok());
    assert!(check_build_target("aarch64-unknown-linux-gnu.2.26").is_ok());
    assert!(check_build_target("aarch64-unknown-linux-gnu").is_ok());
    match check_build_target("x86_64-apple-darwin") {
        Err(BuildError::UnsupportedTarget(t)) => assert_eq!(t, "x86_64-apple-darwin"),
        other => panic!("unexpected {:?}", other),
    }
    assert!(check_build_target("").is_err());
    assert!(check_build_target("x86_64-unknown-linu").is_err());
}

#[test]
fn explicit_unsupported_target_is_rejected() {
    let targets = vec![String::from("wasm32-unknown-unknown")];
    match resolve_target(&targets, false, &None, false, "x86_64-unknown-linux-gnu") {
        Err(BuildError::UnsupportedTarget(t)) => assert_eq!(t, "wasm32-unknown-unknown"),
        other => panic!("unexpected {:?}", other),
    }
}

#[test]
fn glibc_version_is_stripped_from_platform() {
    let targets = vec![String::from("aarch64-unknown-linux-gnu.2.26"), String::from("ignored")];
    let rt = resolve_target(&targets, false, &None, true, "x86_64-apple-darwin").unwrap();
    assert_eq!(rt.triple, "aarch64-unknown-linux-gnu.2.26");
    assert_eq!(rt.platform, "aarch64-unknown-linux-gnu");
    assert_eq!(rt.profile, "release");
    assert_eq!(normalize_target("x86_64-unknown-linux-gnu.2.17.1"), "x86_64-unknown-linux-gnu");
    assert_eq!(normalize_target("x86_64-unknown-linux-musl"), "x86_64-unknown-linux-musl");
    assert_eq!(normalize_target(""), "");
    assert_eq!(normalize_target(".2"), "");
}

#[test]
fn profile_directories() {
    assert_eq!(profile_dir_name(&Some("dev".into()), true), "debug");
    assert_eq!(profile_dir_name(&Some("test".into()), false), "debug");
    assert_eq!(profile_dir_name(&Some("release".into()), false), "release");
    assert_eq!(profile_dir_name(&Some("bench".into()), false), "release");
    assert_eq!(profile_dir_name(&Some("custom".into()), false), "custom");
    assert_eq!(profile_dir_name(&None, true), "release");
    assert_eq!(profile_dir_name(&None, false), "debug");
}
