use cargo_lambda::deploy::{Deploy, VpcConfig};
use cargo_lambda::deploy_plan::{FunctionRole, SdkError, ServiceErrorKind};
use cargo_lambda::deploy_steps::{
    code_location, lambda_trust_policy, plan_layer_publication, role_name, role_trust_policy, create_retry_step, deploy_steps, existing_role, log_group_name,
    plan_code_update, plan_function_creation, tags_to_apply, upsert_action, CodeLocation,
    DeployStep, RetryStep, UpsertAction,
};
use cargo_lambda::archive::{BinaryArchive, BinaryModifiedAt, CpuArchitecture};
use cargo_lambda::error::MetadataError;
use cargo_lambda::env::EnvOptions;
use cargo_lambda::lambda::{Memory, Tracing};

#[test]
fn code_goes_to_lambda_or_s3() {
    assert!(matches!(code_location(&None, &None, "f"), CodeLocation::Zip));
    match code_location(&Some("bucket".to_string()), &None, "f") {
        CodeLocation::S3 { bucket, key } => {
            assert_eq!(bucket, "bucket");
            assert_eq!(key, "f");
        }
        other => panic!("unexpected {:?}", other),
    }
    match code_location(&Some("bucket".to_string()), &Some("k.zip".to_string()), "f") {
        CodeLocation::S3 { key, .. } => assert_eq!(key, "k.zip"),
        other => panic!("unexpected {:?}", other),
    }
}

#[test]
fn deploy_steps_follow_options() {
    let mut config = Deploy::default();
    assert_eq!(deploy_steps(&config), vec![DeployStep::UpsertFunction]);
    config.remote_config.alias = Some("live".to_string());
    config.function_config.enable_function_url = true;
    config.function_config.log_retention = Some(7);
    assert_eq!(
        deploy_steps(&config),
        vec![
            DeployStep::UpsertFunction,
            DeployStep::UpdateAlias,
            DeployStep::EnableFunctionUrl,
            DeployStep::SetLogRetention
        ]
    );
}

#[test]
fn upsert_after_lookup() {
    assert_eq!(upsert_action(None), UpsertAction::Update);
    let missing = SdkError::ServiceError(ServiceErrorKind::ResourceNotFound);
    assert_eq!(upsert_action(Some(&missing)), UpsertAction::Create);
    let other = SdkError::Other("no network".to_string());
    assert_eq!(upsert_action(Some(&other)), UpsertAction::Fail);
}

#[test]
fn role_given_or_created() {
    let mut config = Deploy::default();
    assert!(existing_role(&config).is_none());
    config.function_config.role = Some("arn:role".to_string());
    let r = existing_role(&config).unwrap();
    assert_eq!(r.arn(), "arn:role");
    assert!(!r.is_new());
}

#[test]
fn tags_applied_only_when_given() {
    let mut config = Deploy::default();
    assert!(tags_to_apply(&config).is_none());
    config.tag = Some(vec![]);
    assert!(tags_to_apply(&config).is_none());
    config.tag = Some(vec!["team=lambda".to_string()]);
    let tags = tags_to_apply(&config).unwrap();
    assert_eq!(tags.get("team").unwrap(), "lambda");
}

#[test]
fn creation_retries_new_roles() {
    assert_eq!(create_retry_step(2, true, true), RetryStep::RetryAfter(10));
    assert_eq!(create_retry_step(4, true, true), RetryStep::RetryAfter(20));
    assert_eq!(create_retry_step(2, true, false), RetryStep::Fail);
    assert_eq!(create_retry_step(3, false, true), RetryStep::Fail);
}

#[test]
fn function_creation_request() {
    let mut config = Deploy::default();
    config.function_config.memory = Some(Memory::from(512));
    config.function_config.tracing = Some(Tracing::Active);
    config.function_config.layer = Some(vec!["l1".to_string()]);
    let mut vpc = VpcConfig::default();
    vpc.security_group_ids = Some(vec!["sg-1".to_string()]);
    config.function_config.vpc = Some(vpc);
    config.tag = Some(vec!["team=lambda".to_string()]);
    config.s3_bucket = Some("b".to_string());
    let role = FunctionRole::new("arn:role".to_string());
    let r = plan_function_creation(&config, "f", &role, &archive("arm64"), None).unwrap();
    assert!(matches!(r.architecture, CpuArchitecture::Arm64));
    assert_eq!(r.function_name, "f");
    assert_eq!(r.runtime, "provided.al2023");
    assert_eq!(r.handler, "bootstrap");
    assert_eq!(r.role, "arn:role");
    assert!(matches!(r.code, CodeLocation::S3 { .. }));
    assert_eq!(r.s3_tags.as_deref(), Some("team=lambda"));
    assert!(r.publish);
    assert_eq!(r.memory_size, Some(512));
    assert_eq!(r.timeout, 30);
    assert_eq!(r.tracing.map(|t| t.mode), Some("Active".to_string()));
    assert!(r.environment.is_none());
    assert_eq!(r.layers, Some(vec!["l1".to_string()]));
    assert_eq!(r.tags.unwrap().get("team").unwrap(), "lambda");
    let v = r.vpc.unwrap();
    assert_eq!(v.security_group_ids, Some(vec!["sg-1".to_string()]));
    assert!(v.subnet_ids.is_none());
    assert!(r.version_description.is_none());
}

#[test]
fn function_creation_fails_on_bad_variable() {
    let mut config = Deploy::default();
    config.function_config.env_options = Some(EnvOptions {
        env_var: Some(vec!["NOPE".to_string()]),
        env_file: None,
    });
    let role = FunctionRole::from_existing("arn:role".to_string());
    match plan_function_creation(&config, "f", &role, &archive("x86_64"), None) {
        Err(MetadataError::InvalidEnvVar(v)) => assert_eq!(v, "NOPE"),
        other => panic!("unexpected {:?}", other.map(|r| r.function_name)),
    }
}

#[test]
fn code_update_request() {
    let mut config = Deploy::default();
    config.function_config.description = Some("v2".to_string());
    let r = plan_code_update(&config, "f");
    assert!(matches!(r.code, CodeLocation::Zip));
    assert!(!r.publish);
    assert_eq!(r.version_description.as_deref(), Some("v2"));
}

#[test]
fn log_group_of_function() {
    assert_eq!(log_group_name("my-func"), "/aws/lambda/my-func");
}

fn archive(arch: &str) -> BinaryArchive {
    BinaryArchive {
        architecture: arch.to_string(),
        path: "/tmp/bootstrap.zip".to_string(),
        binary_modified_at: BinaryModifiedAt::now(),
    }
}

#[test]
fn test_create_function_direct_upload() {
    let config = Deploy::default();
    let role = FunctionRole::from_existing("arn:aws:iam::123456789012:role/test-role".to_string());
    let r = plan_function_creation(&config, "test-function", &role, &archive("x86_64"), None).unwrap();
    assert!(matches!(r.code, CodeLocation::Zip));
    assert_eq!(r.function_name, "test-function");
    assert_eq!(r.handler, "bootstrap");
    assert_eq!(r.role, "arn:aws:iam::123456789012:role/test-role");
    assert_eq!(r.runtime, "provided.al2023");
    assert!(matches!(r.architecture, CpuArchitecture::X8664));
    assert!(r.publish);
    assert_eq!(r.timeout, 30);
    assert!(r.memory_size.is_none());
    assert!(r.s3_tags.is_none());
}

#[test]
fn execution_role_policies() {
    assert_eq!(role_name("1234"), "cargo-lambda-role-1234");
    let lambda = r#"{"Action":["sts:AssumeRole"],"Effect":"Allow","Principal":{"Service":"lambda.amazonaws.com"}}"#;
    assert_eq!(
        role_trust_policy("arn:aws:iam::123456789012:user/me"),
        format!(
            r#"{{"Statement":[{lambda},{{"Action":["sts:AssumeRole","sts:SetSourceIdentity","sts:TagSession"],"Effect":"Allow","Principal":{{"AWS":"arn:aws:iam::123456789012:user/me"}}}}],"Version":"2012-10-17"}}"#
        )
    );
    assert_eq!(lambda_trust_policy(), format!(r#"{{"Statement":[{lambda}],"Version":"2012-10-17"}}"#));
    assert!(role_trust_policy("a\"b").contains(r#""AWS":"a\"b""#));
    let with_caller: serde_json::Value = serde_json::from_str(&role_trust_policy("arn:x")).unwrap();
    assert_eq!(with_caller["Statement"].as_array().unwrap().len(), 2);
}

#[test]
fn extension_layer_publication() {
    let mut config = Deploy::default();
    config.extension = true;
    let r = plan_layer_publication(&config, "my-ext", &archive("arm64"));
    assert_eq!(r.layer_name, "my-ext");
    assert!(matches!(r.architecture, CpuArchitecture::Arm64));
    assert_eq!(r.compatible_runtimes, vec!["provided.al2".to_string(), "provided.al2023".to_string()]);
    assert!(matches!(r.code, CodeLocation::Zip));
    config.s3_bucket = Some("bucket".to_string());
    config.compatible_runtimes = Some(vec!["provided.al2023".to_string()]);
    let r = plan_layer_publication(&config, "my-ext", &archive("x86_64"));
    match r.code {
        CodeLocation::S3 { bucket, key } => {
            assert_eq!(bucket, "bucket");
            assert_eq!(key, "my-ext");
        }
        other => panic!("unexpected {:?}", other),
    }
    assert_eq!(r.compatible_runtimes, vec!["provided.al2023".to_string()]);
}

#[test]
fn trust_policy_escapes_control_characters() {
    let policy = role_trust_policy("a\u{1}b\n\\");
    assert!(policy.contains(r#""AWS":"a\u0001b\n\\""#));
}
