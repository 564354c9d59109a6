use cargo_lambda::template::{
    file_action, path_has_placeholder, render_path_with_variables, FileAction, should_ignore_file, should_render_file,
    PromptValue, RenderCondition, TemplateConfig, TemplatePrompt, TemplateValue,
};

fn vars(v: Vec<(&str, TemplateValue)>) -> Vec<(String, TemplateValue)> {
    v.into_iter().map(|(k, v)| (k.to_string(), v)).collect()
}

fn condition(var: &str, match_value: Option<PromptValue>, not_match: Option<PromptValue>) -> RenderCondition {
    RenderCondition { var: var.to_string(), match_value, not_match }
}

#[test]
fn test_render_relative_path_with_render_conditional_files() {
    let path = "src/main.rs";
    let render_files = vec![];
    let mut template_config = TemplateConfig::default();
    template_config.render_conditional_files.push((
        "src/main.rs".to_string(),
        condition("render_main_rs", Some(PromptValue::Boolean(true)), None),
    ));
    let variables = vars(vec![("render_main_rs", TemplateValue::Bool(true))]);
    assert!(should_render_file(path, &render_files, &template_config, &variables));
}

#[test]
fn test_render_relative_path_with_render_files() {
    let path = "src/main.rs";
    let render_files = vec!["src/main.rs".to_string()];
    let template_config = TemplateConfig::default();
    let variables = vars(vec![]);
    assert!(should_render_file(path, &render_files, &template_config, &variables));
}

#[test]
fn test_render_relative_path_with_render_conditional_files_false() {
    let path = "src/main.rs";
    let render_files = vec![];
    let template_config = TemplateConfig::default();
    let variables = vars(vec![]);
    assert!(!should_render_file(path, &render_files, &template_config, &variables));
}

#[test]
fn test_render_relative_path_with_render_all_files() {
    let path = "src/main.rs";
    let render_files = vec![];
    let mut template_config = TemplateConfig::default();
    template_config.render_all_files = true;
    let variables = vars(vec![]);
    assert!(should_render_file(path, &render_files, &template_config, &variables));
}

#[test]
fn test_render_path_with_variables() {
    let path = "{{ci_provider}}/actions/build.yml";
    let expected = ".github/actions/build.yml".to_string();
    let variables = vars(vec![("ci_provider", TemplateValue::Str(".github".to_string()))]);
    assert_eq!(render_path_with_variables(path, &variables), Some(expected));
}

#[test]
fn test_should_ignore_file() {
    let path = "src/http.rs";
    let ignore_files = vec![];
    let mut template_config = TemplateConfig::default();
    template_config.ignore_conditional_files.push((
        "src/http.rs".to_string(),
        condition("http_function", None, Some(PromptValue::Boolean(true))),
    ));
    let variables = vars(vec![("http_function", TemplateValue::Bool(false))]);
    assert!(should_ignore_file(path, &ignore_files, &template_config, &variables));
}

#[test]
fn test_should_not_ignore_file() {
    let path = "src/http.rs";
    let ignore_files = vec![];
    let mut template_config = TemplateConfig::default();
    template_config.ignore_conditional_files.push((
        "src/http.rs".to_string(),
        condition("http_function", None, Some(PromptValue::Boolean(true))),
    ));
    let variables = vars(vec![("http_function", TemplateValue::Bool(true))]);
    assert!(!should_ignore_file(path, &ignore_files, &template_config, &variables));
}

#[test]
fn paths_compare_by_components() {
    let render_files = vec!["src//main.rs".to_string()];
    let config = TemplateConfig::default();
    assert!(should_render_file("src/main.rs", &render_files, &config, &vec![]));
    assert!(should_ignore_file("src/main.rs", &vec!["src/main.rs/".to_string()], &config, &vec![]));
}

#[test]
fn conditions_compare_as_the_template_engine() {
    let mut config = TemplateConfig::default();
    config.render_conditional_files.push((
        "a".to_string(),
        condition("v", Some(PromptValue::Boolean(true)), None),
    ));
    config.render_conditional_files.push((
        "b".to_string(),
        condition("v", Some(PromptValue::String("x".to_string())), None),
    ));
    config.render_conditional_files.push((
        "c".to_string(),
        condition("missing", None, Some(PromptValue::Boolean(true))),
    ));
    let s = vars(vec![("v", TemplateValue::Str("y".to_string()))]);
    assert!(should_render_file("a", &vec![], &config, &s));
    assert!(!should_render_file("b", &vec![], &config, &s));
    assert!(!should_render_file("c", &vec![], &config, &s));
    let nil = vars(vec![("v", TemplateValue::Nil)]);
    assert!(!should_render_file("a", &vec![], &config, &nil));
    assert!(!should_render_file("b", &vec![], &config, &nil));
}

#[test]
fn placeholders_in_paths() {
    assert!(path_has_placeholder("{{a}}/b"));
    assert!(path_has_placeholder("x{{ a }}y"));
    assert!(!path_has_placeholder("{{a/b}}"));
    assert!(!path_has_placeholder("src/main.rs"));
    assert!(!path_has_placeholder("{{a}"));
    assert_eq!(render_path_with_variables("src/main.rs", &vec![]), None);
}

fn prompt(message: &str, default: Option<PromptValue>) -> TemplatePrompt {
    TemplatePrompt { message: message.to_string(), choices: None, default }
}

#[test]
fn test_ask_template_options() {
    let s = |v: &str| Some(PromptValue::String(v.to_string()));
    let mut config = TemplateConfig::default();
    config.prompts = vec![
        ("project_description".to_string(), prompt("What is the description of your project?", s("My Lambda"))),
        ("enable_tracing".to_string(), prompt("Enable tracing?", Some(PromptValue::Boolean(false)))),
        ("runtime".to_string(), prompt("Runtime?", s("provided.al2023"))),
        ("architecture".to_string(), prompt("Architecture?", s("x86_64"))),
        ("memory".to_string(), prompt("Memory?", s("128"))),
        ("timeout".to_string(), prompt("Timeout?", s("3"))),
        ("github_actions".to_string(), prompt("GitHub Actions?", Some(PromptValue::Boolean(false)))),
        ("ci_provider".to_string(), prompt("CI provider?", s(".github"))),
        ("license".to_string(), prompt("License?", s("Ignore license"))),
    ];
    let variables = config.default_template_options();
    assert_eq!(variables.len(), 9);
    let get = |k: &str| variables.iter().find(|(n, _)| n == k).map(|(_, v)| v.clone()).unwrap();
    assert!(matches!(get("project_description"), TemplateValue::Str(v) if v == "My Lambda"));
    assert!(matches!(get("enable_tracing"), TemplateValue::Bool(false)));
    assert!(matches!(get("runtime"), TemplateValue::Str(v) if v == "provided.al2023"));
    assert!(matches!(get("architecture"), TemplateValue::Str(v) if v == "x86_64"));
    assert!(matches!(get("memory"), TemplateValue::Str(v) if v == "128"));
    assert!(matches!(get("timeout"), TemplateValue::Str(v) if v == "3"));
    assert!(matches!(get("github_actions"), TemplateValue::Bool(false)));
    assert!(matches!(get("ci_provider"), TemplateValue::Str(v) if v == ".github"));
    assert!(matches!(get("license"), TemplateValue::Str(v) if v == "Ignore license"));
}

#[test]
fn prompts_without_default_give_empty_strings() {
    let mut config = TemplateConfig::default();
    config.prompts = vec![("name".to_string(), prompt("Name?", None))];
    let variables = config.default_template_options();
    assert!(matches!(&variables[0].1, TemplateValue::Str(v) if v.is_empty()));
}

#[test]
fn template_entries_become_files() {
    let config = TemplateConfig::default();
    let none: Vec<String> = vec![];
    let v = vars(vec![]);
    let act = |name: &str, dir: bool, rel: &str, parent: Option<&str>, ignore: &Vec<String>| {
        file_action(name, dir, rel, parent, &none, ignore, &config, &v)
    };
    assert_eq!(act(".git", true, ".git", None, &none), FileAction::Skip);
    assert_eq!(act("src", true, "src", None, &none), FileAction::CreateDir);
    assert_eq!(act("cargo-lambda-template.zip", false, "cargo-lambda-template.zip", None, &none), FileAction::Skip);
    assert_eq!(act("Cargo.toml", false, "Cargo.toml", Some("proj"), &none), FileAction::Render);
    assert_eq!(act("main.rs", false, "src/main.rs", Some("src"), &none), FileAction::Render);
    assert_eq!(act("main.rs", false, "other/main.rs", Some("other"), &none), FileAction::Copy);
    assert_eq!(act("tool.rs", false, "src/bin/tool.rs", Some("bin"), &none), FileAction::Render);
    assert_eq!(act("logo.png", false, "logo.png", Some("proj"), &none), FileAction::Copy);
    let ignore = vec!["README.md".to_string()];
    assert_eq!(act("README.md", false, "README.md", Some("proj"), &ignore), FileAction::Skip);
}
