use cargo_lambda_build::command::{
    build_exit_code, check_binaries, function_bootstrap_dir, lambda_root_dir, package_steps,
    release_rustflags,
};
use cargo_lambda_build::error::BuildError;
use cargo_lambda_build::target::resolve_target;

fn names(v: &[&str]) -> Vec<String> {
    v.iter().map(|s| s.to_string()).collect()
}

#[test]
fn requested_binaries_must_be_declared() {
    let found = names(&["api", "worker"]);
    assert!(check_binaries(&names(&[]), &found).is_ok());
    assert!(check_binaries(&names(&["worker", "api"]), &found).is_ok());
    match check_binaries(&names(&["api", "cron", "job"]), &found) {
        Err(BuildError::UnknownBinaryTarget(n)) => assert_eq!(n, "cron"),
        other => panic!("unexpected {:?}", other),
    }
    assert!(check_binaries(&names(&["api"]), &names(&[])).is_err());
}

#[test]
fn compiler_exit_is_reproduced() {
    assert_eq!(build_exit_code(true, Some(0)), None);
    assert_eq!(build_exit_code(false, Some(101)), Some(101));
    assert_eq!(build_exit_code(false, None), Some(1));
}

#[test]
fn release_strips_symbols() {
    assert_eq!(release_rustflags(true), Some("-C strip=symbols"));
    assert_eq!(release_rustflags(false), None);
}

#[test]
fn output_layout() {
    let rt = resolve_target(&names(&["x86_64-unknown-linux-gnu.2.17"]), false, &None, true, "x").unwrap();
    let steps = package_steps(&rt, &None, &names(&["api", "worker"]));
    assert_eq!(steps.len(), 2);
    assert_eq!(steps[0].name, "api");
    assert_eq!(steps[0].binary_path, "target/x86_64-unknown-linux-gnu/release/api");
    assert_eq!(steps[0].bootstrap_dir, "target/lambda/api");
    assert_eq!(steps[1].binary_path, "target/x86_64-unknown-linux-gnu/release/worker");
    let steps = package_steps(&rt, &Some("/tmp/out/".into()), &names(&["api"]));
    assert_eq!(steps[0].bootstrap_dir, "/tmp/out/api");
    assert!(package_steps(&rt, &None, &names(&[])).is_empty());
    assert_eq!(lambda_root_dir(&None), "target/lambda");
}

#[test]
fn function_directory_lookup() {
    assert_eq!(function_bootstrap_dir("f", &None), "target/lambda/f");
    assert_eq!(function_bootstrap_dir("f", &Some("dist".into())), "dist/f");
}
