use cargo_lambda::invoke::{example_name, example_url, invoke_host, local_invocation_url, ClientContextSource, CognitoIdentity, Invoke, InvokeError, OutputFormat, PayloadSource, RemoteInvokeError};
use cargo_lambda::remote::RemoteConfig;

#[test]
fn test_example_name() {
    assert_eq!(example_name("apigw-request"), "example-apigw-request.json");
    assert_eq!(
        example_name("apigw-request.json"),
        "example-apigw-request.json"
    );
    assert_eq!(
        example_name("example-apigw-request"),
        "example-apigw-request.json"
    );
    assert_eq!(
        example_name("example-apigw-request.json"),
        "example-apigw-request.json"
    );
}

#[test]
fn example_name_is_idempotent() {
    for e in ["sqs-event", "example-s3.json", "", "x.json"] {
        let once = example_name(e);
        assert_eq!(once, example_name(&once));
    }
}

fn invoke() -> Invoke {
    Invoke {
        invoke_address: "::1".to_string(),
        invoke_port: 9000,
        data_file: None,
        data_ascii: None,
        data_example: None,
        remote: false,
        remote_config: RemoteConfig::default(),
        client_context_ascii: None,
        client_context_file: None,
        output_format: OutputFormat::Text,
        cognito: None,
        skip_cache: false,
        function_name: "_".to_string(),
    }
}

#[test]
fn payload_source_order() {
    let mut i = invoke();
    assert!(matches!(i.payload_source(), Err(InvokeError::MissingPayload)));
    i.data_example = Some("apigw-request".to_string());
    assert!(matches!(i.payload_source(), Ok(PayloadSource::Example(n)) if n == "example-apigw-request.json"));
    i.data_ascii = Some("{}".to_string());
    assert!(matches!(i.payload_source(), Ok(PayloadSource::Text(t)) if t == "{}"));
    i.data_file = Some("payload.json".to_string());
    assert!(matches!(i.payload_source(), Ok(PayloadSource::File(f)) if f == "payload.json"));
}

#[test]
fn remote_invocation_needs_a_name() {
    let mut i = invoke();
    assert_eq!(Err(InvokeError::InvalidFunctionName), i.check_remote_function_name());
    i.function_name = "my-fn".to_string();
    assert_eq!(Ok(()), i.check_remote_function_name());
}

#[test]
fn client_context_is_encoded_for_remote() {
    let mut i = invoke();
    assert!(i.client_context_source().is_none());
    i.client_context_ascii = Some("{\"a\":1}".to_string());
    assert!(matches!(i.client_context_source(), Some(ClientContextSource::Text(t)) if t == "{\"a\":1}"));
    assert_eq!(Some("eyJhIjoxfQ==".to_string()), i.client_context(Some("{\"a\":1}".to_string()), true));
    assert_eq!(Some("{\"a\":1}".to_string()), i.client_context(Some("{\"a\":1}".to_string()), false));
    assert_eq!(None, i.client_context(None, true));
}

#[test]
fn cognito_identity_needs_both_ids() {
    let mut i = invoke();
    assert!(!i.sends_cognito_identity());
    i.cognito = Some(CognitoIdentity { identity_id: Some("id".to_string()), identity_pool_id: None });
    assert!(!i.sends_cognito_identity());
    i.cognito = Some(CognitoIdentity { identity_id: Some("id".to_string()), identity_pool_id: Some("pool".to_string()) });
    assert!(i.sends_cognito_identity());
}

#[test]
fn remote_error_code_drops_ampersands() {
    let e = RemoteInvokeError { code: "&&Unhandled".to_string(), message: "boom".to_string() };
    assert_eq!("Unhandled", e.code());
    assert_eq!("boom", e.to_string());
}

#[test]
fn local_invocation_urls() {
    assert_eq!(invoke_host(false, "127.0.0.1"), "127.0.0.1");
    assert_eq!(invoke_host(true, "::1"), "[::1]");
    assert_eq!(
        local_invocation_url("[::1]", 9000, "my-fn"),
        "http://[::1]:9000/2015-03-31/functions/my-fn/invocations"
    );
    assert_eq!(
        example_url("example-apigw-request.json"),
        "https://event-examples.cargo-lambda.info/example-apigw-request.json"
    );
}
