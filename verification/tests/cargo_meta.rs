use cargo_lambda::cargo_meta::{
    binary_targets_from_metadata, cargo_release_profile_config_from_metadata,
    filter_binary_targets_from_metadata, kind_bin_filter, main_binary_from_metadata,
    selected_bin_filter, sort_strings, CargoBool, CargoMetadata, CargoPackage, CargoProfileRelease,
    CargoTarget, Json, vec_or_map,
};
use cargo_lambda::error::MetadataError;

fn target(name: &str, kind: &str, crate_type: &str) -> CargoTarget {
    CargoTarget { name: name.to_string(), kind: vec![kind.to_string()], crate_types: vec![crate_type.to_string()] }
}

fn package(name: &str, targets: Vec<CargoTarget>) -> CargoPackage {
    CargoPackage { name: name.to_string(), targets, metadata: Json::Null }
}

fn metadata(packages: Vec<CargoPackage>) -> CargoMetadata {
    CargoMetadata { packages, workspace_metadata: Json::Null, target_directory: "target".to_string() }
}

#[test]
fn binary_targets_and_examples() {
    let m = metadata(vec![
        package("a", vec![target("a", "bin", "bin"), target("a", "lib", "lib")]),
        package("b", vec![target("b", "bin", "bin"), target("ex", "example", "bin"), target("a", "bin", "bin")]),
    ]);
    let mut bins = binary_targets_from_metadata(&m, false);
    bins.sort();
    assert_eq!(vec!["a".to_string(), "b".to_string()], bins);
    assert_eq!(vec!["ex".to_string()], binary_targets_from_metadata(&m, true));
    assert!(kind_bin_filter(&m.packages[0].targets[0]));
    let only_b = filter_binary_targets_from_metadata(&m, &selected_bin_filter(vec!["b".to_string()]), None);
    assert_eq!(vec!["b".to_string()], only_b);
    let pkg_a = vec!["a".to_string()];
    let from_a = filter_binary_targets_from_metadata(&m, &cargo_lambda::cargo_meta::TargetFilter::Bin, Some(&pkg_a));
    assert_eq!(vec!["a".to_string()], from_a);
}

#[test]
fn main_binary_cases() {
    let single = metadata(vec![package("basic-lambda", vec![target("basic-lambda", "bin", "bin")])]);
    assert_eq!("basic-lambda", main_binary_from_metadata(&single).unwrap());

    let none = metadata(vec![package("lib", vec![target("lib", "lib", "lib")])]);
    assert!(matches!(main_binary_from_metadata(&none), Err(MetadataError::MissingBinaryInProject)));

    let multi = metadata(vec![package(
        "multi",
        vec![
            target("put-product", "bin", "bin"),
            target("get-products", "bin", "bin"),
            target("delete-product", "bin", "bin"),
            target("get-product", "bin", "bin"),
            target("dynamodb-streams", "bin", "bin"),
        ],
    )]);
    match main_binary_from_metadata(&multi) {
        Err(MetadataError::MultipleBinariesInProject(list)) => assert_eq!(
            "delete-product, dynamodb-streams, get-product, get-products, put-product",
            list
        ),
        other => panic!("unexpected: {other:?}"),
    }
}

#[test]
fn sorting_strings() {
    let v = vec!["b".to_string(), "ab".to_string(), "a".to_string(), "é".to_string(), "Z".to_string()];
    assert_eq!(vec!["Z", "a", "ab", "b", "é"], sort_strings(v));
}

#[test]
fn release_profile_configuration() {
    assert_eq!(4, cargo_release_profile_config_from_metadata(None).len());
    let r = CargoProfileRelease { strip: false, lto: true, codegen_units: false, panic: true, debug: CargoBool::Bool(false) };
    assert_eq!(
        vec!["profile.release.strip=\"symbols\"", "profile.release.codegen-units=1"],
        cargo_release_profile_config_from_metadata(Some(&r))
    );
    let r = CargoProfileRelease { strip: false, lto: false, codegen_units: false, panic: false, debug: CargoBool::Str("full".to_string()) };
    assert!(r.debug_enabled());
    assert_eq!(3, cargo_release_profile_config_from_metadata(Some(&r)).len());
    let r = CargoProfileRelease { strip: false, lto: false, codegen_units: false, panic: false, debug: CargoBool::Num(0) };
    assert!(!r.debug_enabled());
    let r = CargoProfileRelease { strip: false, lto: false, codegen_units: false, panic: false, debug: CargoBool::Str("none".to_string()) };
    assert!(!r.debug_enabled());
}

#[test]
fn json_member_lookup() {
    let j = Json::Object(vec![
        ("cross".to_string(), Json::Object(vec![("image".to_string(), Json::Str("x".to_string()))])),
        ("other".to_string(), Json::Bool(true)),
    ]);
    assert!(j.is_object());
    assert!(matches!(j.get("cross").and_then(|c| c.get("image")), Some(Json::Str(s)) if s == "x"));
    assert!(j.get("missing").is_none());
    assert!(Json::Null.get("cross").is_none());
}

fn bins(m: &CargoMetadata, examples: bool) -> Vec<String> {
    binary_targets_from_metadata(m, examples)
}

fn single_binary_package() -> CargoMetadata {
    metadata(vec![package("basic-lambda", vec![target("basic-lambda", "bin", "bin")])])
}

fn multi_binary_package() -> CargoMetadata {
    metadata(vec![package(
        "multi-binary-package",
        vec![
            target("delete-product", "bin", "bin"),
            target("get-product", "bin", "bin"),
            target("get-products", "bin", "bin"),
            target("put-product", "bin", "bin"),
            target("dynamodb-streams", "bin", "bin"),
        ],
    )])
}

fn workspace_package() -> CargoMetadata {
    metadata(vec![
        package("basic-lambda-1", vec![target("basic-lambda-1", "bin", "bin")]),
        package("basic-lambda-2", vec![target("basic-lambda-2", "bin", "bin")]),
    ])
}

fn mixed_workspace_package() -> CargoMetadata {
    metadata(vec![
        package("function-crate", vec![target("function-crate", "bin", "bin")]),
        package("library-crate", vec![target("library-crate", "lib", "lib")]),
    ])
}

fn examples_package() -> CargoMetadata {
    metadata(vec![package(
        "examples-package",
        vec![
            target("examples-package", "lib", "lib"),
            target("example-lambda", "example", "bin"),
        ],
    )])
}

fn multi_binaries_message() -> String {
    "there are more than one binary in the project, please specify a binary name with --binary-name or --binary-path. This is the list of binaries I found: delete-product, dynamodb-streams, get-product, get-products, put-product".to_string()
}

#[test]
fn cargo_test_binary_packages() {
    let bins = bins(&single_binary_package(), false);
    assert_eq!(1, bins.len());
    assert!(bins.contains(&"basic-lambda".to_string()));
}

#[test]
fn cargo_test_binary_packages_with_mutiple_bin_entries() {
    let bins = bins(&multi_binary_package(), false);
    assert_eq!(5, bins.len());
    assert!(bins.contains(&"delete-product".to_string()));
    assert!(bins.contains(&"get-product".to_string()));
    assert!(bins.contains(&"get-products".to_string()));
    assert!(bins.contains(&"put-product".to_string()));
    assert!(bins.contains(&"dynamodb-streams".to_string()));
}

#[test]
fn cargo_test_binary_packages_with_workspace() {
    let bins = bins(&workspace_package(), false);
    assert_eq!(2, bins.len());
    assert!(bins.contains(&"basic-lambda-1".to_string()));
    assert!(bins.contains(&"basic-lambda-2".to_string()));
}

#[test]
fn cargo_test_binary_packages_with_mixed_workspace() {
    let bins = bins(&mixed_workspace_package(), false);
    assert_eq!(1, bins.len());
    assert!(bins.contains(&"function-crate".to_string()), "{:?}", bins);
}

#[test]
fn cargo_test_main_binary_with_package_name() {
    let name = main_binary_from_metadata(&single_binary_package()).unwrap();
    assert_eq!("basic-lambda", name);
}

#[test]
fn cargo_test_main_binary_with_binary_name() {
    let m = metadata(vec![package(
        "single-binary-different-name",
        vec![target("basic-lambda-binary", "bin", "bin")],
    )]);
    let name = main_binary_from_metadata(&m).unwrap();
    assert_eq!("basic-lambda-binary", name);
}

#[test]
fn cargo_test_main_binary_multi_binaries() {
    let err = main_binary_from_metadata(&multi_binary_package()).unwrap_err();
    assert_eq!(multi_binaries_message(), err.to_string());
}

#[test]
fn cargo_test_example_packages() {
    let bins = bins(&examples_package(), true);
    assert_eq!(1, bins.len());
    assert!(bins.contains(&"example-lambda".to_string()));
}

#[test]
fn mod_test_binary_packages() {
    let bins = bins(&single_binary_package(), false);
    assert_eq!(1, bins.len());
    assert!(bins.contains(&"basic-lambda".to_string()));
}

#[test]
fn mod_test_binary_packages_with_mutiple_bin_entries() {
    let bins = bins(&multi_binary_package(), false);
    assert_eq!(5, bins.len());
    assert!(bins.contains(&"delete-product".to_string()));
    assert!(bins.contains(&"get-product".to_string()));
    assert!(bins.contains(&"get-products".to_string()));
    assert!(bins.contains(&"put-product".to_string()));
    assert!(bins.contains(&"dynamodb-streams".to_string()));
}

#[test]
fn mod_test_binary_packages_with_workspace() {
    let bins = bins(&workspace_package(), false);
    assert_eq!(2, bins.len());
    assert!(bins.contains(&"basic-lambda-1".to_string()));
    assert!(bins.contains(&"basic-lambda-2".to_string()));
}

#[test]
fn mod_test_binary_packages_with_mixed_workspace() {
    let bins = bins(&mixed_workspace_package(), false);
    assert_eq!(1, bins.len());
    assert!(bins.contains(&"function-crate".to_string()), "{:?}", bins);
}

#[test]
fn mod_test_main_binary_with_package_name() {
    let name = main_binary_from_metadata(&single_binary_package()).unwrap();
    assert_eq!("basic-lambda", name);
}

#[test]
fn mod_test_main_binary_with_binary_name() {
    let m = metadata(vec![package(
        "single-binary-different-name",
        vec![target("basic-lambda-binary", "bin", "bin")],
    )]);
    assert_eq!("basic-lambda-binary", main_binary_from_metadata(&m).unwrap());
}

#[test]
fn mod_test_main_binary_multi_binaries() {
    let err = main_binary_from_metadata(&multi_binary_package()).unwrap_err();
    assert_eq!(multi_binaries_message(), err.to_string());
}

#[test]
fn mod_test_example_packages() {
    let bins = bins(&examples_package(), true);
    assert_eq!(1, bins.len());
    assert!(bins.contains(&"example-lambda".to_string()));
}

const STRIP_CONFIG: &str = "profile.release.strip=\"symbols\"";
const LTO_CONFIG: &str = "profile.release.lto=\"thin\"";
const CODEGEN_CONFIG: &str = "profile.release.codegen-units=1";
const PANIC_CONFIG: &str = "profile.release.panic=\"abort\"";

fn release(strip: bool, lto: bool, codegen_units: bool, panic: bool, debug: CargoBool) -> CargoProfileRelease {
    CargoProfileRelease { strip, lto, codegen_units, panic, debug }
}

#[test]
fn test_release_config() {
    let config = cargo_release_profile_config_from_metadata(None);
    assert!(config.contains(&STRIP_CONFIG));
    assert!(config.contains(&LTO_CONFIG));
    assert!(config.contains(&CODEGEN_CONFIG));
    assert!(config.contains(&PANIC_CONFIG));
}

#[test]
fn test_release_config_exclude_strip() {
    let r = release(true, false, false, false, CargoBool::Bool(false));
    let config = cargo_release_profile_config_from_metadata(Some(&r));
    assert!(!config.contains(&STRIP_CONFIG));

    let r = release(false, false, false, false, CargoBool::Bool(true));
    let config = cargo_release_profile_config_from_metadata(Some(&r));
    assert!(!config.contains(&STRIP_CONFIG));
}

#[test]
fn test_release_config_exclude_lto() {
    let r = release(false, true, false, false, CargoBool::Bool(false));
    let config = cargo_release_profile_config_from_metadata(Some(&r));
    assert!(!config.contains(&LTO_CONFIG));
}

#[test]
fn test_release_config_exclude_codegen() {
    let r = release(false, false, true, false, CargoBool::Bool(false));
    let config = cargo_release_profile_config_from_metadata(Some(&r));
    assert!(!config.contains(&CODEGEN_CONFIG));
}

#[test]
fn test_release_config_exclude_panic() {
    let r = release(false, false, false, true, CargoBool::Bool(false));
    let config = cargo_release_profile_config_from_metadata(Some(&r));
    assert!(!config.contains(&PANIC_CONFIG));
}

#[test]
fn test_release_debug_info() {
    // `[profile.release]` with `debug = 1`, `panic = "abort"` and `lto = true`.
    let profile = release(false, true, false, true, CargoBool::Num(1));
    assert!(profile.debug_enabled());
}

#[test]
fn error_messages() {
    assert_eq!(MetadataError::MissingBinaryInProject.to_string(), "there are no binaries in this project");
    assert_eq!(
        MetadataError::InvalidEnvVar("X".to_string()).to_string(),
        "invalid environment variable `X`"
    );
    assert_eq!(
        MetadataError::InvalidEnvFile(".env".to_string(), "missing".to_string()).to_string(),
        "invalid environment file `.env`: missing"
    );
}

#[test]
fn lists_read_from_arrays_or_objects() {
    let strs = Json::Array(vec![Json::Str("a".to_string()), Json::Str("b".to_string())]);
    assert_eq!(vec_or_map(&strs), Some(vec!["a".to_string(), "b".to_string()]));
    let mixed = Json::Array(vec![Json::Str("a".to_string()), Json::Bool(true)]);
    assert_eq!(vec_or_map(&mixed), None);
    let obj = Json::Object(vec![
        ("KEY".to_string(), Json::Str("value".to_string())),
        ("N".to_string(), Json::Number("3".to_string())),
    ]);
    assert_eq!(vec_or_map(&obj), Some(vec!["KEY=value".to_string(), "N=".to_string()]));
    assert_eq!(vec_or_map(&Json::Null), None);
}

#[test]
fn test_select_binary() {
    let metadata = multi_binary_package();

    let bin = "delete-product".to_string();
    let binary_filter = selected_bin_filter(vec![bin.clone()]);

    let binaries = filter_binary_targets_from_metadata(&metadata, &binary_filter, None);

    assert_eq!(1, binaries.len());
    assert!(binaries.contains(&bin));
}

#[test]
fn test_release_config_with_workspace() {
    // the workspace's release profile sets `lto` and leaves the other settings out
    let r = release(false, true, false, false, CargoBool::Bool(false));
    let config = cargo_release_profile_config_from_metadata(Some(&r));
    assert!(config.contains(&STRIP_CONFIG));
    assert!(!config.contains(&LTO_CONFIG));
}
