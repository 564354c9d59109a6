use cargo_lambda::cargo_meta::{CargoMetadata, Json};
use cargo_lambda::compiler::{cargo_command, cargo_subcommand, cross_command, target_add_args, target_list_args};
use cargo_lambda::deploy_config::CargoCompilerOptions;
use cargo_lambda::target_arch::Channel;

fn strings(v: &[&str]) -> Vec<String> {
    v.iter().map(|s| s.to_string()).collect()
}

fn options(subcommand: Option<&[&str]>, extra: Option<&[&str]>) -> CargoCompilerOptions {
    CargoCompilerOptions { subcommand: subcommand.map(strings), extra_args: extra.map(strings) }
}

#[test]
fn subcommand_from_environment_or_options() {
    let opts = options(Some(&["brazil", "build"]), Some(&["--offline"]));
    let (sub, extra) = cargo_subcommand(None, None, &opts);
    assert_eq!(sub, Some(strings(&["brazil", "build"])));
    assert_eq!(extra, Some(strings(&["--offline"])));
    let (sub, extra) = cargo_subcommand(Some("zigbuild --locked"), Some("-j 2"), &opts);
    assert_eq!(sub, Some(strings(&["zigbuild", "--locked"])));
    assert_eq!(extra, Some(strings(&["-j", "2"])));
    let (sub, extra) = cargo_subcommand(None, None, &options(None, None));
    assert_eq!(sub, None);
    assert_eq!(extra, None);
}

#[test]
fn cargo_command_puts_subcommand_in_place_of_build() {
    let build = strings(&["build", "--release", "--target", "x86_64-unknown-linux-gnu"]);
    let plain = cargo_command(&build, None, None, &options(None, None));
    assert_eq!(plain.program, "cargo");
    assert_eq!(plain.args, build);
    assert!(plain.env.is_none());
    let sub = cargo_command(&build, None, None, &options(Some(&["zigbuild"]), Some(&["-j", "2"])));
    assert_eq!(sub.args, strings(&["zigbuild", "--release", "--target", "x86_64-unknown-linux-gnu", "-j", "2"]));
    let env = cargo_command(&build, Some("custom build"), None, &options(Some(&["zigbuild"]), None));
    assert_eq!(env.args, strings(&["custom", "build", "--release", "--target", "x86_64-unknown-linux-gnu"]));
}

#[test]
fn cross_command_sets_the_default_image() {
    let metadata = CargoMetadata { packages: vec![], workspace_metadata: Json::Null, target_directory: "target".to_string() };
    let build = strings(&["build", "--release"]);
    let cmd = cross_command(&build, "aarch64-unknown-linux-gnu", false, &metadata, None);
    assert_eq!(cmd.program, "cross");
    assert_eq!(cmd.args, build);
    assert_eq!(
        cmd.env,
        Some((
            "CROSS_TARGET_AARCH64_UNKNOWN_LINUX_GNU_IMAGE".to_string(),
            "ghcr.io/cross-rs/aarch64-unknown-linux-gnu:0.2.5".to_string()
        ))
    );
    let configured = cross_command(&build, "aarch64-unknown-linux-gnu", true, &metadata, None);
    assert_eq!(configured.env, None);
}

#[test]
fn rustup_target_arguments() {
    assert_eq!(target_list_args(Channel::Stable), strings(&["+stable", "target", "list", "--installed"]));
    assert_eq!(
        target_add_args(Channel::Nightly, "aarch64-unknown-linux-gnu"),
        strings(&["+nightly", "target", "add", "aarch64-unknown-linux-gnu"])
    );
}
