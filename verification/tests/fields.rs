use cargo_lambda::deploy::{Deploy, OutputFormat, VpcConfig};
use cargo_lambda::env::EnvOptions;
use cargo_lambda::fields::FieldValue;
use cargo_lambda::lambda::{Memory, Timeout, Tracing};
use cargo_lambda::remote::TlsOptions;
use cargo_lambda::watch_options::{CommonOptions, RunOptions, Watch};

fn field<'a>(fields: &'a [(String, FieldValue)], name: &str) -> Option<&'a FieldValue> {
    fields.iter().find(|(n, _)| n == name).map(|(_, v)| v)
}

fn is_str(v: Option<&FieldValue>, s: &str) -> bool {
    matches!(v, Some(FieldValue::Str(x)) if x == s)
}

fn is_strs(v: Option<&FieldValue>, s: &[&str]) -> bool {
    matches!(v, Some(FieldValue::Strings(x)) if x.iter().map(|a| a.as_str()).collect::<Vec<_>>() == s)
}

fn common() -> CommonOptions {
    CommonOptions {
        quiet: false,
        jobs: None,
        keep_going: false,
        profile: None,
        features: vec!["feature1".to_string()],
        all_features: false,
        no_default_features: true,
        target: vec!["x86_64-unknown-linux-gnu".to_string()],
        target_dir: Some("/tmp/target".to_string()),
        message_format: vec!["json".to_string()],
        verbose: 1,
        color: Some("auto".to_string()),
        frozen: true,
        locked: true,
        offline: true,
        config: vec!["config.toml".to_string()],
        unstable_flags: vec!["flag1".to_string()],
        timings: None,
    }
}

fn watch() -> Watch {
    Watch {
        ignore_changes: false,
        only_lambda_apis: false,
        invoke_address: "127.0.0.1".to_string(),
        invoke_port: 9000,
        print_traces: false,
        wait: false,
        disable_cors: false,
        timeout: None,
        cargo_opts: RunOptions {
            manifest_path: None,
            release: false,
            ignore_rust_version: false,
            unit_graph: false,
            packages: vec![],
            bin: vec![],
            example: vec![],
            args: vec![],
            common: common(),
        },
        env_options: EnvOptions {
            env_file: Some("/tmp/env".to_string()),
            env_var: Some(vec!["FOO=BAR".to_string()]),
        },
        tls_options: TlsOptions {
            tls_cert: Some("/tmp/cert.pem".to_string()),
            tls_key: Some("/tmp/key.pem".to_string()),
            tls_ca: Some("/tmp/ca.pem".to_string()),
        },
        router: None,
    }
}

#[test]
fn test_watch_serialization() {
    let watch = watch();
    let json = watch.serialized_fields();
    assert!(is_str(field(&json, "invoke_address"), "127.0.0.1"));
    assert!(matches!(field(&json, "invoke_port"), Some(FieldValue::Int(9000))));
    assert!(is_str(field(&json, "env_file"), "/tmp/env"));
    assert!(is_strs(field(&json, "env_var"), &["FOO=BAR"]));
    assert!(is_str(field(&json, "tls_cert"), "/tmp/cert.pem"));
    assert!(is_str(field(&json, "tls_key"), "/tmp/key.pem"));
    assert!(is_str(field(&json, "tls_ca"), "/tmp/ca.pem"));
    assert!(is_strs(field(&json, "features"), &["feature1"]));
    assert!(matches!(field(&json, "no_default_features"), Some(FieldValue::Bool(true))));
    assert!(is_strs(field(&json, "target"), &["x86_64-unknown-linux-gnu"]));
    assert!(is_str(field(&json, "target_dir"), "/tmp/target"));
    assert!(is_strs(field(&json, "message_format"), &["json"]));
    assert!(matches!(field(&json, "verbose"), Some(FieldValue::Int(1))));
    assert!(is_str(field(&json, "color"), "auto"));
    assert!(matches!(field(&json, "frozen"), Some(FieldValue::Bool(true))));
    assert!(matches!(field(&json, "locked"), Some(FieldValue::Bool(true))));
    assert!(matches!(field(&json, "offline"), Some(FieldValue::Bool(true))));
    assert!(is_strs(field(&json, "config"), &["config.toml"]));
    assert!(is_strs(field(&json, "unstable_flags"), &["flag1"]));
    assert!(field(&json, "timings").is_none());
    assert_eq!(json.len(), watch.count_fields());
}

#[test]
fn watch_manifest_and_package() {
    let mut w = watch();
    assert_eq!(w.manifest_path(), "Cargo.toml");
    assert_eq!(w.package(), None);
    w.cargo_opts.packages = vec!["a".to_string()];
    assert_eq!(w.package(), Some("a".to_string()));
    w.cargo_opts.packages.push("b".to_string());
    assert_eq!(w.package(), None);
    w.cargo_opts.manifest_path = Some("x/Cargo.toml".to_string());
    assert_eq!(w.manifest_path(), "x/Cargo.toml");
}

#[test]
fn deploy_serializes_set_fields() {
    let mut d = Deploy::default();
    d.name = Some("f".to_string());
    d.dry = true;
    d.output_format = Some(OutputFormat::Json);
    d.remote_config.region = Some("eu-west-1".to_string());
    d.function_config.memory = Some(Memory::from(512));
    d.function_config.timeout = Some(Timeout::new(30));
    d.function_config.tracing = Some(Tracing::Active);
    d.function_config.layer = Some(vec![]);
    let fields = d.serialized_fields();
    let names: Vec<&str> = fields.iter().map(|(n, _)| n.as_str()).collect();
    assert_eq!(
        names,
        vec!["output_format", "dry", "name", "region", "memory", "timeout", "tracing"]
    );
    assert!(is_str(field(&fields, "output_format"), "json"));
    assert!(matches!(field(&fields, "memory"), Some(FieldValue::Int(512))));
    assert!(is_str(field(&fields, "tracing"), "Active"));
    assert_eq!(fields.len(), d.count_fields());
}

#[test]
fn vpc_without_ipv6_writes_an_uncounted_field() {
    let mut d = Deploy::default();
    let mut vpc = VpcConfig::default();
    vpc.subnet_ids = Some(vec!["subnet-1".to_string()]);
    d.function_config.vpc = Some(vpc);
    let fields = d.serialized_fields();
    assert!(matches!(field(&fields, "ipv6_allowed_for_dual_stack"), Some(FieldValue::Bool(false))));
    assert_eq!(fields.len(), d.count_fields() + 1);
}
