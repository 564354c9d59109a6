use cargo_lambda::archive::BinaryModifiedAt;
use cargo_lambda::deploy::{Deploy, VpcConfig};
use cargo_lambda::deploy_output::{DeployKind, DryRunOutput};
use cargo_lambda::env::EnvOptions;
use cargo_lambda::lambda::{Memory, Timeout, Tracing};
use cargo_lambda::strmap::StringMap;

fn output(config: &Deploy, name: &str) -> DryRunOutput {
    DryRunOutput::new(
        config,
        name,
        None,
        None,
        "/tmp/lambda/bin/bootstrap.zip".to_string(),
        "x86_64".to_string(),
        vec![],
        BinaryModifiedAt::unknown(),
        None,
    )
}

#[test]
fn dry_run_reports_function() {
    let mut config = Deploy::default();
    config.binary_name = Some("bin".to_string());
    config.tag = Some(vec!["team=lambda".to_string(), "list=x,y".to_string()]);
    let o = output(&config, "f");
    assert_eq!(o.kind, DeployKind::Function);
    assert_eq!(o.name, "bin");
    assert!(o.runtimes.is_empty());
    assert_eq!(o.kind.to_string(), "function");
    let expected = [
        "🔍 deployment for function `bin`:\n",
        "🏠 zip file located at /tmp/lambda/bin/bootstrap.zip\n",
        "🛠️  binary last compiled at unknown time\n",
        "🏗️  architecture x86_64\n",
        "🏷️  tagged with team=lambda&list=x, y\n",
        "🛫  AWS SDK configuration:\n  - region: us-east-1\n",
        "🍿 function configuration:\n  - timeout: None\n  - memory: None\n",
        "  - enable_function_url: false\n  - disable_function_url: false\n",
        "  - tracing: None\n  - role: None\n  - layer: None\n",
        "  - runtime: \"provided.al2023\"\n",
    ]
    .concat();
    assert_eq!(o.to_string(), expected);
}

#[test]
fn dry_run_reports_function_settings() {
    let mut config = Deploy::default();
    config.function_config.timeout = Some(Timeout::new(30));
    config.function_config.memory = Some(Memory::try_from(512).unwrap());
    config.function_config.tracing = Some(Tracing::Active);
    config.function_config.role = Some("arn:aws:iam::1:role/r".to_string());
    config.function_config.layer = Some(vec!["l1".to_string(), "l2".to_string()]);
    config.function_config.vpc = Some(VpcConfig {
        subnet_ids: Some(vec!["s1".to_string()]),
        security_group_ids: None,
        ipv6_allowed_for_dual_stack: true,
    });
    config.function_config.env_options = Some(EnvOptions {
        env_var: Some(vec!["A=1".to_string()]),
        env_file: None,
    });
    config.remote_config.profile = Some("dev".to_string());
    config.s3_bucket = Some("bucket".to_string());
    let mut o = output(&config, "f");
    o.region = Some("eu-west-1".to_string());
    o.endpoint_url = Some("http://localhost:4566".to_string());
    o.files = vec!["bootstrap".to_string(), "config.json".to_string()];
    let mut file_vars = StringMap::new();
    file_vars.insert("B".to_string(), "2".to_string());
    o.env_file_vars = Some(file_vars);
    let env = o.environment();
    assert_eq!(env.get("A").map(String::as_str), Some("1"));
    assert_eq!(env.get("B").map(String::as_str), Some("2"));
    let expected = [
        "🔍 deployment for function `f`:\n",
        "🏠 zip file located at /tmp/lambda/bin/bootstrap.zip\n",
        "🛠️  binary last compiled 3 minutes ago\n",
        "🏗️  architecture x86_64\n",
        "🪣 stored on S3 bucket `bucket`\n",
        "🗃️  files included in the zip file:\n  - bootstrap\n  - config.json\n",
        "🛫  AWS SDK configuration:\n  - region: eu-west-1\n  - profile: dev\n  - endpoint: http://localhost:4566\n",
        "🍿 function configuration:\n  - timeout: Some(Timeout(30))\n  - memory: Some(Memory(512))\n",
        "  - enable_function_url: false\n  - disable_function_url: false\n",
        "  - tracing: Some(Active)\n  - role: Some(\"arn:aws:iam::1:role/r\")\n",
        "  - layer: Some([\"l1\", \"l2\"])\n",
        "  - VPC subnets: Some([\"s1\"])\n  - VPC security groups: None\n  - VPC IPv6 allowed: true\n",
        "  - runtime: \"provided.al2023\"\n",
        "  - env_options: {\"B\": \"2\", \"A\": \"1\"}\n",
    ]
    .concat();
    assert_eq!(o.text("3 minutes ago", &env), expected);
}

#[test]
fn dry_run_reports_extension() {
    let mut config = Deploy::default();
    config.extension = true;
    let o = output(&config, "ext");
    assert_eq!(o.kind, DeployKind::Extension);
    assert_eq!(o.name, "ext");
    assert_eq!(o.runtimes, vec!["provided.al2".to_string(), "provided.al2023".to_string()]);
    let expected = [
        "🔍 deployment for extension `ext`:\n",
        "🏠 zip file located at /tmp/lambda/bin/bootstrap.zip\n",
        "🛠️  binary last compiled at unknown time\n",
        "🏗️  architecture x86_64\n",
        "👟 compatible with provided.al2, provided.al2023",
        "🛫  AWS SDK configuration:\n  - region: us-east-1\n",
    ]
    .concat();
    assert_eq!(o.to_string(), expected);
}

#[test]
fn dry_run_quotes_text_as_debug_does() {
    let mut config = Deploy::default();
    config.function_config.role = Some("a \"quoted\" role".to_string());
    let o = output(&config, "f");
    assert!(o.to_string().contains("  - role: Some(\"a \\\"quoted\\\" role\")\n"));
}
