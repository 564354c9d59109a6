use cargo_lambda::cargo_meta::{CargoMetadata, CargoPackage, CargoTarget, Json};
use cargo_lambda::cross::{cross_image_env_name, default_cross_image, is_build_image_configured};

fn obj(members: Vec<(&str, Json)>) -> Json {
    Json::Object(members.into_iter().map(|(k, v)| (k.to_string(), v)).collect())
}

fn image_config(arch: &str) -> Json {
    obj(vec![("target", obj(vec![(arch, obj(vec![("image", Json::Str("img".to_string()))]))]))])
}

fn project(pkg_metadata: Json, ws: Json) -> CargoMetadata {
    CargoMetadata {
        packages: vec![CargoPackage {
            name: "f".to_string(),
            targets: vec![CargoTarget {
                name: "f".to_string(),
                kind: vec!["bin".to_string()],
                crate_types: vec!["bin".to_string()],
            }],
            metadata: pkg_metadata,
        }],
        workspace_metadata: ws,
        target_directory: "target".to_string(),
    }
}

const ARCH: &str = "aarch64-unknown-linux-gnu";

#[test]
fn env_name_of_target() {
    assert_eq!(
        cross_image_env_name("aarch64-unknown-linux-gnu"),
        "CROSS_TARGET_AARCH64_UNKNOWN_LINUX_GNU_IMAGE"
    );
}

#[test]
fn image_configured_in_package() {
    let m = project(obj(vec![("cross", image_config(ARCH))]), Json::Null);
    assert!(is_build_image_configured(ARCH, false, &m, None));
    assert!(default_cross_image(ARCH, false, &m, None).is_none());
}

#[test]
fn image_configured_in_workspace_or_file_or_env() {
    let m = project(Json::Null, obj(vec![("cross", image_config(ARCH))]));
    assert!(is_build_image_configured(ARCH, false, &m, None));
    let m = project(Json::Null, Json::Null);
    assert!(!is_build_image_configured(ARCH, false, &m, None));
    assert!(is_build_image_configured(ARCH, false, &m, Some(&image_config(ARCH))));
    assert!(!is_build_image_configured(ARCH, false, &m, Some(&image_config("other"))));
    assert!(is_build_image_configured(ARCH, true, &m, None));
}

#[test]
fn package_without_cross_stops_the_search() {
    let m = project(obj(vec![]), obj(vec![("cross", image_config(ARCH))]));
    assert!(is_build_image_configured(ARCH, false, &m, None));
    let m = project(obj(vec![]), Json::Null);
    assert!(!is_build_image_configured(ARCH, false, &m, None));
}

#[test]
fn default_image_for_target() {
    let m = project(Json::Null, Json::Null);
    let (name, image) = default_cross_image(ARCH, false, &m, None).unwrap();
    assert_eq!(name, "CROSS_TARGET_AARCH64_UNKNOWN_LINUX_GNU_IMAGE");
    assert_eq!(image, "ghcr.io/cross-rs/aarch64-unknown-linux-gnu:0.2.5");
}
