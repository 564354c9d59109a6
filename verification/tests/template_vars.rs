use cargo_lambda::new_project::{
    build_template_variables, CreateError, DependencyVersions, ExtensionOptions, FunctionOptions,
    HttpFeature, ProjectConfig,
};
use cargo_lambda::template::{
    render_variables, PromptValue, TemplateConfig, TemplatePrompt, TemplateValue,
};

fn lookup<'a>(vars: &'a [(String, TemplateValue)], k: &str) -> Option<&'a TemplateValue> {
    vars.iter().find(|(n, _)| n == k).map(|(_, v)| v)
}

fn is_str(v: Option<&TemplateValue>, s: &str) -> bool {
    matches!(v, Some(TemplateValue::Str(x)) if x == s)
}

fn no_versions() -> DependencyVersions {
    DependencyVersions {
        lambda_http: None,
        lambda_runtime: Some("0.13.0".to_string()),
        aws_lambda_events: None,
        lambda_extension: Some("0.11.0".to_string()),
    }
}

#[test]
fn function_variables_with_event_type() {
    let o = FunctionOptions { http: false, http_feature: None, event_type: Some("s3::S3Event".to_string()) };
    let vars = o.variables("pkg", &Some("bin".to_string()), &no_versions()).unwrap();
    assert_eq!(vars.len(), 10);
    assert!(is_str(lookup(&vars, "function_name"), "bin"));
    assert!(matches!(lookup(&vars, "basic_example"), Some(TemplateValue::Bool(false))));
    assert!(matches!(lookup(&vars, "http_function"), Some(TemplateValue::Bool(false))));
    assert!(matches!(lookup(&vars, "http_feature"), Some(TemplateValue::Nil)));
    assert!(is_str(lookup(&vars, "event_type"), "S3Event"));
    assert!(is_str(lookup(&vars, "event_type_feature"), "s3"));
    assert!(is_str(lookup(&vars, "event_type_import"), "aws_lambda_events::event::s3::S3Event"));
    assert!(matches!(lookup(&vars, "lambda_http_version"), Some(TemplateValue::Nil)));
    assert!(is_str(lookup(&vars, "lambda_runtime_version"), "0.13.0"));
}

#[test]
fn function_variables_for_http() {
    let o = FunctionOptions { http: true, http_feature: Some(HttpFeature::ApigwRest), event_type: None };
    let vars = o.variables("pkg", &Some("pkg".to_string()), &no_versions()).unwrap();
    assert!(matches!(lookup(&vars, "function_name"), Some(TemplateValue::Nil)));
    assert!(matches!(lookup(&vars, "http_function"), Some(TemplateValue::Bool(true))));
    assert!(is_str(lookup(&vars, "http_feature"), "apigw_rest"));
    assert!(matches!(lookup(&vars, "event_type"), Some(TemplateValue::Nil)));
}

#[test]
fn function_variables_refuse_bad_event_type() {
    let o = FunctionOptions { http: false, http_feature: None, event_type: Some("S3Event".to_string()) };
    assert!(matches!(o.variables("pkg", &None, &no_versions()), Err(CreateError::UnexpectedEventType(_))));
}

#[test]
fn extension_variables() {
    let o = ExtensionOptions { logs: true, telemetry: false, events: false };
    let vars = o.variables(&Some("0.11.0".to_string()));
    assert!(matches!(lookup(&vars, "logs"), Some(TemplateValue::Bool(true))));
    assert!(matches!(lookup(&vars, "telemetry"), Some(TemplateValue::Bool(false))));
    assert!(matches!(lookup(&vars, "events"), Some(TemplateValue::Bool(false))));
    assert!(is_str(lookup(&vars, "lambda_extension_version"), "0.11.0"));
}

#[test]
fn render_variables_from_flags() {
    let flags = Some(vec![
        "a=1".to_string(),
        "b=x=y".to_string(),
        "nope".to_string(),
        "a=2".to_string(),
    ]);
    let vars = render_variables(&flags);
    assert_eq!(vars.len(), 2);
    assert!(is_str(lookup(&vars, "a"), "2"));
    assert!(is_str(lookup(&vars, "b"), "x=y"));
    assert!(render_variables(&None).is_empty());
}

fn project(extension: bool, render_var: Option<Vec<String>>) -> ProjectConfig {
    ProjectConfig {
        extension,
        function_options: FunctionOptions { http: true, http_feature: None, event_type: None },
        extension_options: ExtensionOptions::default(),
        bin_name: None,
        no_interactive: true,
        render_var,
    }
}

#[test]
fn template_variables_layers() {
    let mut template = TemplateConfig::default();
    template.prompts = vec![(
        "project_name".to_string(),
        TemplatePrompt {
            message: "Name?".to_string(),
            choices: None,
            default: Some(PromptValue::String("from-prompt".to_string())),
        },
    )];
    let config = project(false, Some(vec!["http_function=flag".to_string()]));
    let vars = build_template_variables(&config, &template, "my-fn", &no_versions(), &vec![]).unwrap();
    assert!(is_str(lookup(&vars, "project_name"), "from-prompt"));
    assert!(matches!(lookup(&vars, "binary_name"), Some(TemplateValue::Nil)));
    assert!(is_str(lookup(&vars, "http_function"), "flag"));
    assert!(matches!(lookup(&vars, "basic_example"), Some(TemplateValue::Bool(false))));

    let config = project(true, None);
    let asked = vec![("logs".to_string(), TemplateValue::Str("asked".to_string()))];
    let mut interactive = config;
    interactive.no_interactive = false;
    let vars = build_template_variables(&interactive, &template, "ext", &no_versions(), &asked).unwrap();
    assert!(is_str(lookup(&vars, "project_name"), "ext"));
    assert!(matches!(lookup(&vars, "events"), Some(TemplateValue::Bool(true))));
}
