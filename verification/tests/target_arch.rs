use cargo_lambda::target_arch::{build_profile, validate_linux_target, Arch, Channel, TargetArch};
use cargo_lambda::zig::{has_target_component, install_options, toolchain_name, InstallOption, ZigInfo};

#[test]
fn test_target_arch_from_str() {
    let t = TargetArch::from_str("x86_64-unknown-linux-gnu");
    assert_eq!("x86_64-unknown-linux-gnu", t.to_string().as_str());
}

#[test]
fn test_target_arch_arch() {
    let t = TargetArch::from_str("x86_64-unknown-linux-gnu.2.27");
    assert_eq!(Arch::X86_64, t.arch());

    let t = TargetArch::from_str("aarch64-unknown-linux-gnu.2.27");
    assert_eq!(Arch::ARM64, t.arch());
}

#[test]
fn test_validate_linux_target() {
    let res = validate_linux_target("x86_64-unknown-linux-gnu.2.27");
    assert!(res.is_ok());

    let res = validate_linux_target("aarch64-unknown-linux-gnu.2.27");
    assert!(res.is_ok());

    let err = validate_linux_target("aarch64-unknown-darwin").unwrap_err();
    assert_eq!(
        "invalid or unsupported target for AWS Lambda: aarch64-unknown-darwin",
        err.to_string()
    );
}

#[test]
fn test_compatible_host_linker() {
    assert!(TargetArch::from_str("x86_64-unknown-linux-gnu").compatible_host_linker());
    assert!(TargetArch::from_str("aarch64-unknown-linux-gnu").compatible_host_linker());
    assert!(!TargetArch::from_str("x86_64-pc-windows-gnu").compatible_host_linker());
}

#[test]
fn target_arch_test_is_static_linking() {
    assert!(TargetArch::from_str("x86_64-unknown-linux-musl").is_static_linking());
    assert!(TargetArch::from_str("aarch64-unknown-linux-musl").is_static_linking());
}

#[test]
fn target_details() {
    let t = TargetArch::from_str("aarch64-unknown-linux-gnu.2.17");
    assert_eq!("aarch64-unknown-linux-gnu", t.rustc_target_without_glibc_version());
    assert_eq!("neoverse-n1", t.target_cpu());
    assert!(t.compatible_host_linker());
    assert_eq!("haswell", TargetArch::x86_64().target_cpu());
    assert_eq!("aarch64-unknown-linux-gnu", TargetArch::arm64().to_string());
    assert_eq!(None, TargetArch::arm64().channel());

    let host = TargetArch::from_host_meta("x86_64-apple-darwin", Channel::Stable);
    assert_eq!("x86_64-unknown-linux-gnu", host.to_string());
    assert_eq!(Some(Channel::Stable), host.channel());
    let host = TargetArch::from_host_meta("aarch64-unknown-linux-gnu", Channel::Nightly);
    assert_eq!("aarch64-unknown-linux-gnu", host.to_string());
}

#[test]
fn build_profiles() {
    assert_eq!("debug", build_profile(Some("dev"), true));
    assert_eq!("debug", build_profile(Some("test"), false));
    assert_eq!("release", build_profile(Some("bench"), false));
    assert_eq!("release", build_profile(Some("release"), false));
    assert_eq!("custom", build_profile(Some("custom"), false));
    assert_eq!("release", build_profile(None, true));
    assert_eq!("debug", build_profile(None, false));
}

#[test]
fn zig_install_options() {
    assert_eq!("brew install zig", InstallOption::Brew.usage());
    assert_eq!("Install with Homebrew", InstallOption::Brew.to_string());
    assert_eq!(vec!["npm".to_string(), "install".to_string(), "-g".to_string(), "@ziglang/cli".to_string()], InstallOption::Npm.install_command());
    assert_eq!(vec![InstallOption::Brew, InstallOption::Pip3, InstallOption::Npm], install_options(true, true, true));
    assert_eq!(vec![InstallOption::Npm], install_options(false, false, true));
    let info = ZigInfo::installed("/usr/bin/zig".to_string(), " 0.13.0\n");
    assert_eq!(Some("0.13.0".to_string()), info.version);
    assert!(ZigInfo::missing(vec![]).path.is_none());
}

#[test]
fn toolchain_checks() {
    assert_eq!("stable", toolchain_name(Channel::Stable));
    assert_eq!("dev", toolchain_name(Channel::Dev));
    let out = "aarch64-unknown-linux-gnu\r\nx86_64-unknown-linux-gnu\n";
    assert!(has_target_component(out, "x86_64-unknown-linux-gnu"));
    assert!(has_target_component(out, "aarch64-unknown-linux-gnu"));
    assert!(!has_target_component(out, "x86_64-unknown-linux"));
    assert!(!has_target_component("", ""));
}
