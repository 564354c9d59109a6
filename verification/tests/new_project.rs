use cargo_lambda::new_project::{
    editor_program, suggest_choice, validate_choice, validate_name, CreateError, ExtensionOptions, FunctionOptions,
    HttpEndpoints, HttpFeature, ValidationStep,
};

#[test]
fn test_add_events_extension() {
    let default = ExtensionOptions::default();
    let cases = [
        (default, true),
        (ExtensionOptions { logs: true, events: true, ..default }, true),
        (ExtensionOptions { telemetry: true, events: true, ..default }, true),
        (ExtensionOptions { logs: true, ..default }, false),
        (ExtensionOptions { telemetry: true, ..default }, false),
    ];

    for (opt, exp) in cases {
        assert_eq!(exp, opt.add_events_extension(), "options: {opt:?}");
    }
}

#[test]
fn test_http_features_to_string() {
    assert_eq!("apigw_http", HttpFeature::ApigwHttp.to_string().as_str());
}

#[test]
fn http_feature_names_round_trip() {
    for f in [HttpFeature::Alb, HttpFeature::ApigwRest, HttpFeature::ApigwHttp, HttpFeature::ApigwWebsockets] {
        assert_eq!(Some(f), HttpFeature::from_str(&f.to_string()));
        assert_eq!(Some(f), HttpFeature::from_str(&f.to_string().to_uppercase()));
    }
    assert_eq!(None, HttpFeature::from_str("apigw"));
}

#[test]
fn http_endpoints_features() {
    let all = HttpEndpoints::all();
    assert_eq!(6, all.len());
    assert_eq!(Some(HttpFeature::ApigwHttp), HttpEndpoints::LambdaUrls.to_feature());
    assert_eq!(None, HttpEndpoints::Unknown.to_feature());
    assert_eq!(Some(HttpFeature::Alb), all[0].to_feature());
}

#[test]
fn test_validate_choice() {
    let choices = vec!["a".to_string(), "b".to_string()];
    assert_eq!(validate_choice("a", &choices), Ok(()));
    assert_eq!(validate_choice("b", &choices), Ok(()));
    assert_eq!(validate_choice("c", &choices), Err("invalid choice: c".to_string()));
}

#[test]
fn test_suggest_choice() {
    let choices = vec!["a".to_string(), "b".to_string()];
    assert_eq!(suggest_choice("a", &choices), vec!["a".to_string()]);
    assert_eq!(suggest_choice("b", &choices), vec!["b".to_string()]);
}

#[test]
fn suggest_choice_keeps_order_of_prefix_matches() {
    let choices = vec!["apigw_http".to_string(), "alb".to_string(), "apigw_rest".to_string()];
    assert_eq!(suggest_choice("apigw", &choices), vec!["apigw_http".to_string(), "apigw_rest".to_string()]);
    assert_eq!(suggest_choice("", &choices), choices);
}

#[test]
fn package_names() {
    assert!(validate_name("my-function").is_ok());
    assert!(validate_name("a1").is_ok());
    assert!(validate_name("a_b").is_ok());
    assert!(matches!(validate_name("a"), Err(CreateError::InvalidPackageName(n)) if n == "a"));
    assert!(validate_name("1abc").is_err());
    assert!(validate_name("my function").is_err());
    assert!(validate_name("").is_err());
}

#[test]
fn function_options_validation() {
    let mut o = FunctionOptions { http: false, http_feature: Some(HttpFeature::Alb), event_type: None };
    assert_eq!(ValidationStep::Done, o.validate_options(true, false).unwrap());
    assert!(o.http);

    let mut o = FunctionOptions { http: false, http_feature: None, event_type: None };
    assert!(matches!(o.validate_options(true, true), Err(CreateError::MissingFunctionOptions)));
    assert!(matches!(o.validate_options(false, false), Err(CreateError::MissingFunctionOptions)));
    assert_eq!(ValidationStep::AskUser, o.validate_options(false, true).unwrap());
    assert!(matches!(o.validate_answers(), Err(CreateError::MissingFunctionOptions)));

    let mut o = FunctionOptions { http: true, http_feature: None, event_type: Some("s3::S3Event".to_string()) };
    assert!(matches!(o.validate_options(true, false), Err(CreateError::InvalidFunctionOptions)));

    let o = FunctionOptions { http: false, http_feature: None, event_type: Some(String::new()) };
    assert!(o.validate_answers().is_ok());
}

#[test]
fn event_type_triples() {
    let o = FunctionOptions { http: false, http_feature: None, event_type: Some("s3::S3Event".to_string()) };
    let (import, module, ty) = o.event_type_triple().unwrap().unwrap();
    assert_eq!("aws_lambda_events::event::s3::S3Event", import);
    assert_eq!("s3", module);
    assert_eq!("S3Event", ty);

    let o = FunctionOptions { http: false, http_feature: None, event_type: Some("a::b::C".to_string()) };
    let (_, module, ty) = o.event_type_triple().unwrap().unwrap();
    assert_eq!("a", module);
    assert_eq!("b::C", ty);

    let o = FunctionOptions { http: false, http_feature: None, event_type: Some("S3Event".to_string()) };
    assert!(matches!(o.event_type_triple(), Err(CreateError::UnexpectedEventType(_))));

    let o = FunctionOptions { http: false, http_feature: None, event_type: Some(String::new()) };
    assert!(o.event_type_triple().unwrap().is_none());
}

#[test]
fn editor_from_environment() {
    assert_eq!(editor_program(Some("  code -w "), "new-fn").unwrap(), "code -w");
    match editor_program(Some("   "), "new-fn") {
        Err(e) => assert_eq!(e.to_string(), "project created in new-fn, but the EDITOR variable is missing"),
        Ok(e) => panic!("unexpected editor {e}"),
    }
    assert!(matches!(editor_program(None, "p"), Err(CreateError::InvalidEditor(_))));
}

#[test]
fn create_error_messages() {
    assert_eq!(CreateError::MissingFunctionOptions.to_string(), "missing options: --event-type, --http");
    assert_eq!(
        CreateError::InvalidFunctionOptions.to_string(),
        "invalid options: --event-type and --http cannot be specified at the same time"
    );
    assert_eq!(CreateError::InvalidPackageName("1x".to_string()).to_string(), "invalid package name: 1x");
    assert_eq!(CreateError::UnexpectedEventType("sqs".to_string()).to_string(), "unexpected event type");
}
