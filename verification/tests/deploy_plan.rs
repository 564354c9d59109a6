use cargo_lambda::deploy::{Deploy, VpcConfig};
use cargo_lambda::deploy_plan::{
    after_poll, alias_doesnt_exist_error, assume_role_step, timed_out_message, WaitStep, binary_name_or_default, check_function_url_flags,
    delete_function_url_config_doesnt_exist_error, function_doesnt_exist_error, function_name,
    function_url_config_doesnt_exist_error, is_role_cannot_be_assumed_error,
    log_group_already_exists_error, needs_wait, plan_config_update, ready_check,
    ready_wait_schedule, same_map, same_strings, should_update_layers, AssumeRoleStep,
    CurrentConfig, FunctionRole, FunctionState, LastUpdateStatus, ReadyCheck, SdkError,
    ServiceErrorKind,
};
use cargo_lambda::error::MetadataError;
use cargo_lambda::lambda::{Memory, Timeout, Tracing};
use cargo_lambda::strmap::StringMap;

fn strings(v: &[&str]) -> Vec<String> {
    v.iter().map(|s| s.to_string()).collect()
}

fn current() -> CurrentConfig {
    CurrentConfig {
        state: Some(FunctionState::Active),
        last_update_status: Some(LastUpdateStatus::Successful),
        memory_size: Some(128),
        timeout: Some(3),
        layers: vec![],
        environment: None,
        tracing_mode: None,
    }
}

#[test]
fn binary_name_defaults_to_function_name() {
    let mut config = Deploy::default();
    assert_eq!(binary_name_or_default(&config, "func"), "func");
    config.binary_name = Some("bin".to_string());
    assert_eq!(binary_name_or_default(&config, "func"), "bin");
}

#[test]
fn function_name_order() {
    let mut config = Deploy::default();
    assert_eq!(function_name(&config, Ok("main".to_string())).unwrap(), "main");
    assert!(matches!(
        function_name(&config, Err(MetadataError::MissingBinaryInProject)),
        Err(MetadataError::MissingBinaryInProject)
    ));
    config.binary_name = Some("bin".to_string());
    assert_eq!(function_name(&config, Ok("main".to_string())).unwrap(), "bin");
    config.name = Some("named".to_string());
    assert_eq!(function_name(&config, Ok("main".to_string())).unwrap(), "named");
}

#[test]
fn function_url_flags_exclude_each_other() {
    let mut config = Deploy::default();
    assert!(check_function_url_flags(&config).is_ok());
    config.function_config.enable_function_url = true;
    assert!(check_function_url_flags(&config).is_ok());
    config.function_config.disable_function_url = true;
    assert!(check_function_url_flags(&config).is_err());
}

#[test]
fn function_role_flags() {
    let r = FunctionRole::new("arn:role".to_string());
    assert!(r.is_new());
    assert_eq!(r.arn(), "arn:role");
    assert!(!FunctionRole::from_existing("arn:other".to_string()).is_new());
}

#[test]
fn assume_role_retries_denied_access() {
    assert_eq!(assume_role_step(1, Some("AccessDenied")), AssumeRoleStep::RetryAfter(5));
    assert_eq!(assume_role_step(2, Some("AccessDenied")), AssumeRoleStep::RetryAfter(10));
    assert_eq!(assume_role_step(1, Some("Throttling")), AssumeRoleStep::Fail);
    assert_eq!(assume_role_step(1, None), AssumeRoleStep::Fail);
}

#[test]
fn same_strings_ignores_order_not_counts() {
    assert!(same_strings(&strings(&["a", "b", "a"]), &strings(&["b", "a", "a"])));
    assert!(!same_strings(&strings(&["a", "b"]), &strings(&["a", "b", "b"])));
    assert!(!same_strings(&strings(&["a", "a", "b"]), &strings(&["a", "b", "b"])));
}

#[test]
fn layers_update() {
    assert!(!should_update_layers(&None, &vec![]));
    assert!(should_update_layers(&None, &vec![Some("l1".to_string())]));
    assert!(should_update_layers(&Some(strings(&["l1"])), &vec![]));
    assert!(!should_update_layers(
        &Some(strings(&["l2", "l1"])),
        &vec![Some("l1".to_string()), Some("l2".to_string())]
    ));
    assert!(should_update_layers(&Some(strings(&["l1"])), &vec![Some("l2".to_string())]));
    assert!(!should_update_layers(&Some(strings(&[""])), &vec![None]));
}

#[test]
fn layer_order_does_not_matter() {
    let given = Some(strings(&["b", "a"]));
    let given_rev = Some(strings(&["a", "b"]));
    let cur = vec![Some("a".to_string()), Some("c".to_string())];
    assert_eq!(should_update_layers(&given, &cur), should_update_layers(&given_rev, &cur));
}

#[test]
fn waiting_for_readiness() {
    assert!(needs_wait(&None, &None));
    assert!(needs_wait(&Some(FunctionState::Pending), &None));
    assert!(needs_wait(&Some(FunctionState::Active), &Some(LastUpdateStatus::InProgress)));
    assert!(!needs_wait(&Some(FunctionState::Active), &Some(LastUpdateStatus::Successful)));

    assert_eq!(ready_check(&None, &None), ReadyCheck::UnknownState);
    assert_eq!(ready_check(&Some(FunctionState::Pending), &None), ReadyCheck::Wait);
    assert_eq!(
        ready_check(&Some(FunctionState::Active), &Some(LastUpdateStatus::InProgress)),
        ReadyCheck::Wait
    );
    assert_eq!(ready_check(&Some(FunctionState::Inactive), &None), ReadyCheck::Ready);
    assert_eq!(
        ready_check(&Some(FunctionState::Failed), &Some(LastUpdateStatus::Failed)),
        ReadyCheck::Ready
    );
    assert_eq!(
        ready_check(&Some(FunctionState::Active), &Some(LastUpdateStatus::Other("x".into()))),
        ReadyCheck::UnexpectedStatus
    );
    assert_eq!(
        ready_check(&Some(FunctionState::Other("x".into())), &None),
        ReadyCheck::UnexpectedState
    );
    assert_eq!(ready_wait_schedule(), vec![4, 9, 16]);
}

#[test]
fn same_map_compares_contents() {
    let mut a = StringMap::new();
    a.insert("k".to_string(), "v".to_string());
    a.insert("j".to_string(), "w".to_string());
    let mut b = StringMap::new();
    b.insert("j".to_string(), "w".to_string());
    b.insert("k".to_string(), "v".to_string());
    assert!(same_map(&a, &b));
    b.insert("k".to_string(), "x".to_string());
    assert!(!same_map(&a, &b));
    assert!(!same_map(&a, &StringMap::new()));
}

#[test]
fn config_update_without_settings_only_waits() {
    let config = Deploy::default();
    let mut cur = current();
    cur.state = Some(FunctionState::Pending);
    let u = plan_config_update(&config, &cur, None).unwrap();
    assert!(u.wait_first);
    assert!(!u.update);
    assert!(u.memory_size.is_none() && u.timeout.is_none() && u.layers.is_none());
}

#[test]
fn config_update_changes_what_differs() {
    let mut config = Deploy::default();
    config.function_config.memory = Some(Memory::from(256));
    config.function_config.timeout = Some(Timeout::from(3));
    config.function_config.tracing = Some(Tracing::Active);
    config.function_config.role = Some("arn:role".to_string());
    let mut env = StringMap::new();
    env.insert("A".to_string(), "1".to_string());
    config.base_env = env;
    let u = plan_config_update(&config, &current(), None).unwrap();
    assert!(!u.wait_first);
    assert!(u.update);
    assert_eq!(u.role.as_deref(), Some("arn:role"));
    assert_eq!(u.memory_size, Some(256));
    assert_eq!(u.timeout, None);
    assert_eq!(u.tracing.map(|t| t.mode), Some("Active".to_string()));
    assert_eq!(u.environment.and_then(|e| e.get("A").cloned()), Some("1".to_string()));
    assert!(u.layers.is_none());
    assert!(!u.vpc);
}

#[test]
fn config_update_vpc_and_same_environment() {
    let mut config = Deploy::default();
    let mut vpc = VpcConfig::default();
    vpc.subnet_ids = Some(strings(&["subnet-1"]));
    config.function_config.vpc = Some(vpc);
    let mut env = StringMap::new();
    env.insert("A".to_string(), "1".to_string());
    config.base_env = env;
    let mut cur = current();
    let mut cur_env = StringMap::new();
    cur_env.insert("A".to_string(), "1".to_string());
    cur.environment = Some(cur_env);
    let u = plan_config_update(&config, &cur, None).unwrap();
    assert!(u.vpc);
    assert!(u.update);
    assert!(u.environment.is_none());
}

#[test]
fn error_classifiers() {
    let missing = SdkError::ServiceError(ServiceErrorKind::ResourceNotFound);
    let exists = SdkError::ServiceError(ServiceErrorKind::ResourceAlreadyExists);
    let other = SdkError::Other("timeout".to_string());
    assert!(function_doesnt_exist_error(&missing));
    assert!(!function_doesnt_exist_error(&other));
    assert!(function_url_config_doesnt_exist_error(&missing));
    assert!(delete_function_url_config_doesnt_exist_error(&missing));
    assert!(alias_doesnt_exist_error(&missing));
    assert!(!alias_doesnt_exist_error(&exists));
    assert!(log_group_already_exists_error(&exists));
    assert!(!log_group_already_exists_error(&missing));
    assert!(is_role_cannot_be_assumed_error(
        "InvalidParameterValueException: The role defined for the function cannot be assumed by Lambda."
    ));
    assert!(!is_role_cannot_be_assumed_error("other"));
}

#[test]
fn test_update_function_config_no_changes() {
    let config = Deploy::default();
    let mut conf = current();
    conf.timeout = Some(30);
    let u = plan_config_update(&config, &conf, None).unwrap();
    assert!(!u.wait_first);
    assert!(!u.update);

    let mut config = Deploy::default();
    config.function_config.timeout = Some(Timeout::new(120));
    config.function_config.tracing = Some(Tracing::Active);
    let u = plan_config_update(&config, &conf, None).unwrap();
    assert!(!u.wait_first);
    assert!(u.update);
    assert_eq!(u.timeout, Some(120));
    assert_eq!(u.tracing.map(|t| t.mode), Some("Active".to_string()));
    assert!(u.memory_size.is_none());
    assert!(u.layers.is_none());
    assert!(u.environment.is_none());
    assert!(!u.vpc);
}

#[test]
fn waiting_gives_up_after_the_last_poll() {
    assert_eq!(after_poll(2, ReadyCheck::Wait), WaitStep::PollAgain(9));
    assert_eq!(after_poll(3, ReadyCheck::Wait), WaitStep::PollAgain(16));
    assert_eq!(after_poll(4, ReadyCheck::Wait), WaitStep::TimedOut);
    assert_eq!(after_poll(3, ReadyCheck::Ready), WaitStep::Done);
    assert_eq!(after_poll(2, ReadyCheck::UnknownState), WaitStep::UnknownState);
    assert_eq!(
        timed_out_message(),
        "configuration update didn't finish in time, wait a few minutes and try again"
    );
}
