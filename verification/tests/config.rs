use cargo_lambda::config::{position_of, ConfigOptions, FunctionNames};
use cargo_lambda::remote::{RemoteConfig, TlsOptions};
use cargo_lambda::system::{System, SystemReport};

#[test]
fn function_names() {
    let n = FunctionNames::from_package("pkg");
    assert!(!n.is_empty());
    assert!(n.includes("pkg"));
    assert!(!n.includes("bin"));
    let n = FunctionNames::from_binary("bin");
    assert!(n.includes("bin"));
    assert!(FunctionNames::new(None, None).is_empty());
    let n = FunctionNames::from_pair("pkg", "bin");
    assert!(n.includes("pkg") && n.includes("bin"));
    assert!(ConfigOptions::default().names.is_empty());
}

#[test]
fn binary_metadata_prefers_binary_name() {
    let names = vec!["pkg".to_string(), "bin".to_string()];
    let n = FunctionNames::from_pair("pkg", "bin");
    assert_eq!(Some(1), n.find_binary_metadata(&names));
    let n = FunctionNames::from_pair("pkg", "other");
    assert_eq!(Some(0), n.find_binary_metadata(&names));
    let n = FunctionNames::from_binary("none");
    assert_eq!(None, n.find_binary_metadata(&names));
    assert_eq!(Some(1), position_of(&names, "bin"));
}

#[test]
fn remote_and_tls_options() {
    let mut r = RemoteConfig::default();
    assert_eq!(0, r.count_fields());
    assert_eq!(1, r.max_attempts());
    r.retry_attempts = Some(3);
    r.region = Some("us-east-1".to_string());
    assert_eq!(2, r.count_fields());
    assert_eq!(3, r.max_attempts());

    let t = TlsOptions { tls_cert: Some("c".to_string()), tls_key: None, tls_ca: None };
    assert!(!t.is_secure());
    let t = TlsOptions { tls_cert: Some("c".to_string()), tls_key: Some("k".to_string()), tls_ca: None };
    assert!(t.is_secure());
}

#[test]
fn system_options() {
    let s = System { setup: false, manifest_path: None, output_format: None, package: Some("p".to_string()) };
    assert_eq!("Cargo.toml", s.manifest_path());
    assert_eq!(Some("p".to_string()), s.pkg_name());
    assert_eq!(SystemReport::ZigOnly, s.report(false, false, 3));
    assert_eq!(SystemReport::Package, s.report(true, false, 1));
    assert_eq!(SystemReport::Workspace, s.report(true, false, 3));
    let s = System { setup: true, manifest_path: Some("x/Cargo.toml".to_string()), output_format: None, package: None };
    assert_eq!("x/Cargo.toml", s.manifest_path());
    assert_eq!(SystemReport::SetupZig, s.report(true, true, 1));
}
