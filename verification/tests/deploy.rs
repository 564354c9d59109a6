use cargo_lambda::deploy::{extract_tags, Deploy, FunctionDeployConfig, OutputFormat, VpcConfig};
use cargo_lambda::deploy_config::{
    merge_build_config, merge_deploy_config, BuildConfig, CargoCompilerOptions, CompilerOptions,
    DeployConfig,
};
use cargo_lambda::env::EnvOptions;
use cargo_lambda::lambda::{Memory, Timeout, Tracing};
use cargo_lambda::strmap::StringMap;

#[test]
fn test_extract_tags() {
    let tags = vec!["organization=aws".to_string(), "team=lambda".to_string()];
    let map = extract_tags(&tags);
    assert_eq!(map.get("organization"), Some(&"aws".to_string()));
    assert_eq!(map.get("team"), Some(&"lambda".to_string()));
}

#[test]
fn extract_tags_skips_entries_without_equals() {
    let tags = vec!["a=1=2".to_string(), "nope".to_string(), "a=3".to_string()];
    let map = extract_tags(&tags);
    assert_eq!(1, map.len());
    assert_eq!(map.get("a"), Some(&"3".to_string()));
}

#[test]
fn test_s3_tags_encoding() {
    let mut tags = StringMap::new();
    tags.insert("organization".to_string(), "Amazon Web Services".to_string());
    tags.insert("team".to_string(), "Simple Storage Service".to_string());

    let mut config = DeployConfig::default();
    config.tags = Some(tags);

    let s3_tags = config.s3_tags().unwrap();
    assert_eq!(2, s3_tags.split('&').collect::<Vec<_>>().len());
    assert!(
        s3_tags.contains("organization=Amazon%20Web%20Services"),
        "{s3_tags}"
    );
    assert!(
        s3_tags.contains("team=Simple%20Storage%20Service"),
        "{s3_tags}"
    );
}

#[test]
fn s3_tags_encode_non_ascii_and_reserved() {
    let mut tags = StringMap::new();
    tags.insert("k&y".to_string(), "é~.-_".to_string());
    let mut config = DeployConfig::default();
    config.tags = Some(tags);
    assert_eq!(Some("k%26y=%C3%A9~.-_".to_string()), config.s3_tags());
    config.tags = Some(StringMap::new());
    assert_eq!(None, config.s3_tags());
    config.tags = None;
    assert_eq!(None, config.s3_tags());
}

#[test]
fn append_tags_merges_with_new_winning() {
    let mut config = DeployConfig::default();
    let mut first = StringMap::new();
    first.insert("a".to_string(), "1".to_string());
    config.append_tags(first);
    let mut second = StringMap::new();
    second.insert("a".to_string(), "2".to_string());
    second.insert("b".to_string(), "3".to_string());
    config.append_tags(second);
    let tags = config.tags.as_ref().unwrap();
    assert_eq!(2, tags.len());
    assert_eq!("2", tags.get("a").unwrap());
    assert_eq!("3", tags.get("b").unwrap());
}

#[test]
fn merge_deploy_config_prefers_package_settings() {
    let mut base = DeployConfig::default();
    base.memory = Some(Memory::from(256));
    base.timeout = Some(Timeout::new(10));
    base.env.insert("A".to_string(), "1".to_string());
    base.env_file = Some("base.env".to_string());
    base.iam_role = Some("base-role".to_string());
    base.layers = Some(vec!["l1".to_string()]);

    let mut pkg = DeployConfig::default();
    pkg.timeout = Some(Timeout::new(0));
    pkg.env.insert("A".to_string(), "2".to_string());
    pkg.env.insert("B".to_string(), "3".to_string());
    pkg.env_file = Some("pkg.env".to_string());
    pkg.tracing = Tracing::Active;
    pkg.subnet_ids = Some(vec!["s1".to_string()]);
    pkg.runtime = "provided.al2".to_string();

    let merged = merge_deploy_config(&base, &pkg);
    assert_eq!(Some(Memory::from(256)), merged.memory);
    assert_eq!(Some(Timeout::new(10)), merged.timeout);
    assert_eq!("2", merged.env.get("A").unwrap());
    assert_eq!("3", merged.env.get("B").unwrap());
    assert_eq!(Some("base.env".to_string()), merged.env_file);
    assert_eq!(Tracing::Active, merged.tracing);
    assert_eq!(Some("base-role".to_string()), merged.iam_role);
    assert_eq!(Some(vec!["l1".to_string()]), merged.layers);
    assert_eq!(Some(vec!["s1".to_string()]), merged.subnet_ids);
    assert_eq!("provided.al2", merged.runtime);
}

#[test]
fn merge_build_config_takes_package_values() {
    let mut base = BuildConfig { compiler: Some(CompilerOptions::Cross), target: Some("x".to_string()) };
    let pkg = BuildConfig {
        compiler: Some(CompilerOptions::Cargo(CargoCompilerOptions {
            subcommand: Some(vec!["brazil".to_string(), "build".to_string()]),
            extra_args: None,
        })),
        target: None,
    };
    merge_build_config(&mut base, &pkg);
    match base.compiler {
        Some(CompilerOptions::Cargo(opts)) => {
            assert_eq!(Some(vec!["brazil".to_string(), "build".to_string()]), opts.subcommand)
        }
        other => panic!("unexpected compiler: {other:?}"),
    }
    assert_eq!(None, base.target);
}

#[test]
fn compiler_options_from_names() {
    assert!(CompilerOptions::from("Cargo").is_local_cargo());
    assert!(matches!(CompilerOptions::from("CROSS"), CompilerOptions::Cross));
    assert!(CompilerOptions::from("zig").is_cargo_zigbuild());
}

#[test]
fn test_lambda_environment() {
    let deploy = Deploy::default();
    let env = deploy.lambda_environment(None).unwrap();
    assert!(env.is_none());

    let mut deploy = Deploy::default();
    deploy.base_env.insert("FOO".to_string(), "BAR".to_string());
    let env = deploy.lambda_environment(None).unwrap().unwrap();
    assert_eq!(env.len(), 1);
    assert_eq!(env.get("FOO"), Some(&"BAR".to_string()));

    let mut deploy = Deploy::default();
    let mut opts = EnvOptions::new();
    opts.env_var = Some(vec!["FOO=BAR".to_string()]);
    deploy.function_config.env_options = Some(opts);
    let env = deploy.lambda_environment(None).unwrap().unwrap();
    assert_eq!(env.len(), 1);
    assert_eq!(env.get("FOO"), Some(&"BAR".to_string()));

    let mut deploy = Deploy::default();
    let mut opts = EnvOptions::new();
    opts.env_var = Some(vec!["FOO=BAR".to_string()]);
    deploy.function_config.env_options = Some(opts);
    deploy.base_env.insert("BAZ".to_string(), "QUX".to_string());
    let env = deploy.lambda_environment(None).unwrap().unwrap();
    assert_eq!(env.len(), 2);
    assert_eq!(env.get("BAZ"), Some(&"QUX".to_string()));
    assert_eq!(env.get("FOO"), Some(&"BAR".to_string()));

    let mut deploy = Deploy::default();
    let mut opts = EnvOptions::new();
    opts.env_file = Some(".env".to_string());
    deploy.function_config.env_options = Some(opts);
    deploy.base_env.insert("QUUX".to_string(), "QUUX".to_string());
    let file = StringMap::from_pairs(&[("FOO", "BAR"), ("BAZ", "QUX")]);
    let env = deploy.lambda_environment(Some(&file)).unwrap().unwrap();
    assert_eq!(env.len(), 3);
    assert_eq!(env.get("BAZ"), Some(&"QUX".to_string()));
    assert_eq!(env.get("FOO"), Some(&"BAR".to_string()));
    assert_eq!(env.get("QUUX"), Some(&"QUUX".to_string()));
}

#[test]
fn deploy_defaults_and_tags() {
    let mut deploy = Deploy::default();
    assert_eq!("Cargo.toml", deploy.manifest_path());
    assert_eq!(OutputFormat::Text, deploy.output_format());
    assert_eq!(vec!["provided.al2".to_string(), "provided.al2023".to_string()], deploy.compatible_runtimes());
    assert!(deploy.tracing_config().is_none());
    assert!(deploy.lambda_tags().is_none());
    assert!(deploy.s3_tags().is_none());
    assert!(deploy.publish_code_without_description());

    deploy.tag = Some(vec!["organization=aws".to_string(), "team=lambda".to_string()]);
    deploy.function_config.tracing = Some(Tracing::Active);
    deploy.output_format = Some(OutputFormat::Json);
    assert_eq!(OutputFormat::Json, deploy.output_format());
    assert_eq!("Active", deploy.tracing_config().unwrap().mode);
    let tags = deploy.lambda_tags().unwrap();
    assert_eq!(2, tags.len());
    assert_eq!(tags.get("organization"), Some(&"aws".to_string()));
    assert_eq!("organization=aws&team=lambda", deploy.s3_tags().unwrap());
}

#[test]
fn function_config_counts_and_updates() {
    let mut c = FunctionDeployConfig::default();
    assert_eq!(0, c.count_fields());
    assert!(!c.should_update());
    assert_eq!("provided.al2023", c.runtime());
    c.layer = Some(vec![]);
    assert_eq!(0, c.count_fields());
    assert!(c.should_update());
    c.layer = Some(vec!["l".to_string()]);
    c.memory = Some(Memory::from(512));
    c.vpc = Some(VpcConfig { subnet_ids: Some(vec![]), security_group_ids: None, ipv6_allowed_for_dual_stack: true });
    let mut env = EnvOptions::new();
    env.env_var = Some(vec![]);
    c.env_options = Some(env);
    assert_eq!(5, c.count_fields());
    c.runtime = Some("provided.al2".to_string());
    assert_eq!("provided.al2", c.runtime());
    assert!(VpcConfig::default().should_update() == false);
}
