use cargo_lambda::build_plan::{output_step, OutputStep};
use cargo_lambda::build_options::BuildOutputFormat;
use cargo_lambda::build_plan::{
    binaries_dir, bootstrap_dir, check_compiler, lambda_dir, release_flags, select_binaries,
    select_target, TargetChoice,
};
use cargo_lambda::deploy_config::{CargoCompilerOptions, CompilerOptions};
use cargo_lambda::target_arch::{BuildError, TargetArch};

fn strings(v: &[&str]) -> Vec<String> {
    v.iter().map(|s| s.to_string()).collect()
}

#[test]
fn select_target_rejects_flags_with_target() {
    let r = select_target(true, false, &strings(&["aarch64-unknown-linux-gnu"]));
    assert!(matches!(r, Err(BuildError::InvalidTargetOptions)));
}

#[test]
fn select_target_prefers_flags() {
    assert!(matches!(select_target(true, true, &vec![]), Ok(TargetChoice::Arm64)));
    assert!(matches!(select_target(false, true, &vec![]), Ok(TargetChoice::X86_64)));
    assert!(matches!(select_target(false, false, &vec![]), Ok(TargetChoice::Host)));
}

#[test]
fn select_target_checks_given_target() {
    match select_target(false, false, &strings(&["x86_64-unknown-linux-musl"])) {
        Ok(TargetChoice::Given(t)) => assert_eq!(t, "x86_64-unknown-linux-musl"),
        other => panic!("unexpected {:?}", other),
    }
    match select_target(false, false, &strings(&["x86_64-apple-darwin"])) {
        Err(BuildError::UnsupportedTarget(t)) => assert_eq!(t, "x86_64-apple-darwin"),
        other => panic!("unexpected {:?}", other),
    }
}

#[test]
fn select_binaries_all_or_requested() {
    let found = strings(&["a", "b", "c"]);
    assert_eq!(select_binaries(&found, &vec![]).unwrap(), found);
    assert_eq!(
        select_binaries(&found, &strings(&["c", "a", "c"])).unwrap(),
        strings(&["c", "a"])
    );
    match select_binaries(&found, &strings(&["a", "d"])) {
        Err(BuildError::FunctionBinaryMissing(n)) => assert_eq!(n, "d"),
        other => panic!("unexpected {:?}", other),
    }
}

#[test]
fn check_compiler_with_plain_cargo() {
    let cargo = CompilerOptions::Cargo(CargoCompilerOptions { subcommand: None, extra_args: None });
    let musl = TargetArch::from_str("x86_64-unknown-linux-musl");
    assert!(check_compiler(&cargo, &musl).is_ok());
    let darwin = TargetArch::from_str("x86_64-apple-darwin");
    assert!(matches!(
        check_compiler(&cargo, &darwin),
        Err(BuildError::InvalidCompilerOption)
    ));
    assert!(check_compiler(&CompilerOptions::CargoZigbuild, &darwin).is_ok());
}

#[test]
fn release_flags_end_with_target_cpu() {
    let flags = release_flags(&vec!["profile.release.strip=\"symbols\""], "neoverse-n1");
    assert_eq!(
        flags,
        strings(&[
            "profile.release.strip=\"symbols\"",
            "build.rustflags=[\"-C\", \"target-cpu=neoverse-n1\"]"
        ])
    );
}

#[test]
fn build_directories() {
    assert_eq!(
        binaries_dir("target", "x86_64-unknown-linux-gnu", "release", false),
        "target/x86_64-unknown-linux-gnu/release"
    );
    assert_eq!(
        binaries_dir("target", "x86_64-unknown-linux-gnu", "release", true),
        "target/x86_64-unknown-linux-gnu/release/examples"
    );
    assert_eq!(lambda_dir(None, "target"), "target/lambda");
    assert_eq!(lambda_dir(Some("out"), "target"), "out");
    assert_eq!(bootstrap_dir("target/lambda", true, None, "f"), "target/lambda/extensions");
    assert_eq!(bootstrap_dir("target/lambda", false, Some("f"), "f"), "target/lambda");
    assert_eq!(bootstrap_dir("target/lambda", false, Some("g"), "f"), "target/lambda/f");
}

#[test]
fn built_binaries_go_to_their_bootstrap_directory() {
    match output_step("target/x86_64-unknown-linux-gnu/release", "target/lambda", "func", false, None, BuildOutputFormat::Binary) {
        OutputStep::Move { from, to } => {
            assert_eq!(from, "target/x86_64-unknown-linux-gnu/release/func");
            assert_eq!(to, "target/lambda/func/bootstrap");
        }
        other => panic!("unexpected {other:?}"),
    }
    match output_step("target/x86_64-unknown-linux-gnu/release", "target/lambda", "ext", true, None, BuildOutputFormat::Binary) {
        OutputStep::Move { to, .. } => assert_eq!(to, "target/lambda/extensions/ext"),
        other => panic!("unexpected {other:?}"),
    }
    match output_step("base", "out", "func", false, Some("func"), BuildOutputFormat::Zip) {
        OutputStep::Zip { binary, directory } => {
            assert_eq!(binary, "base/func");
            assert_eq!(directory, "out");
        }
        other => panic!("unexpected {other:?}"),
    }
}
