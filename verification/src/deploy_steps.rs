//! The steps of a function deploy, and the requests that they send to AWS.
//!
//! Each call to AWS is made by the caller; the functions here decide what to call, with
//! which values, and what an answer means for the next step.
use vstd::prelude::*;
use crate::deploy::{Deploy, TracingConfig, VpcConfig};
use crate::deploy_plan::{FunctionRole, SdkError, is_not_found};
use crate::error::MetadataError;
use crate::lambda::tracing_name;
use crate::strmap::StringMap;
use crate::text::{chars_of, copy_opt_string, copy_opt_strings, extend_chars, opt_view, opt_views, string_of, views};

verus! {

// ---------------------------------------------------------------------------
// Where the code goes
// ---------------------------------------------------------------------------

/// Where the zip file of a function is uploaded.
#[derive(Debug)]
pub enum CodeLocation {
    /// Sent to Lambda with the request.
    Zip,
    /// Uploaded to an S3 bucket under a key first.
    S3 { bucket: String, key: String },
}

/// Where the code goes: to the S3 bucket when one is given, under the key given or else
/// under the function's name; to Lambda directly otherwise.
pub fn code_location(s3_bucket: &Option<String>, s3_key: &Option<String>, name: &str) -> (res:
    CodeLocation)
    ensures
        match *s3_bucket {
            None => res is Zip,
            Some(b) => res matches CodeLocation::S3 { bucket, key } && bucket@ == b@ && key@
                == (match *s3_key {
                Some(k) => k@,
                None => name@,
            }),
        },
{
    match s3_bucket {
        None => CodeLocation::Zip,
        Some(bucket) => {
            let key = match s3_key {
                Some(k) => k.clone(),
                None => name.to_string(),
            };
            CodeLocation::S3 { bucket: bucket.clone(), key }
        },
    }
}

// ---------------------------------------------------------------------------
// The steps of a deploy
// ---------------------------------------------------------------------------

/// A step of a function deploy.
#[derive(Debug, Clone, Copy, PartialEq, Eq, Structural)]
pub enum DeployStep {
    /// Create the function, or update it when it exists.
    UpsertFunction,
    /// Point the alias at the new version.
    UpdateAlias,
    /// Create the function URL configuration when there is none.
    EnableFunctionUrl,
    /// Delete the function URL configuration.
    DisableFunctionUrl,
    /// Set the retention of the function's logs.
    SetLogRetention,
}

/// `step` when `cond` holds, nothing otherwise.
pub open spec fn step_if(cond: bool, step: DeployStep) -> Seq<DeployStep> {
    if cond {
        seq![step]
    } else {
        Seq::empty()
    }
}

/// The steps of a function deploy, in order.
pub open spec fn deploy_steps_spec(config: Deploy) -> Seq<DeployStep> {
    seq![DeployStep::UpsertFunction] + step_if(
        config.remote_config.alias is Some,
        DeployStep::UpdateAlias,
    ) + step_if(config.function_config.enable_function_url, DeployStep::EnableFunctionUrl)
        + step_if(config.function_config.disable_function_url, DeployStep::DisableFunctionUrl)
        + step_if(config.function_config.log_retention is Some, DeployStep::SetLogRetention)
}

/// The steps of a function deploy: upsert the function, then update the alias when one
/// is given, configure the function URL when asked to, delete it when asked to, and set
/// the log retention when one is given.
pub fn deploy_steps(config: &Deploy) -> (res: Vec<DeployStep>)
    ensures
        res@ == deploy_steps_spec(*config),
{
    let mut steps: Vec<DeployStep> = Vec::new();
    steps.push(DeployStep::UpsertFunction);
    if config.remote_config.alias.is_some() {
        steps.push(DeployStep::UpdateAlias);
    }
    if config.function_config.enable_function_url {
        steps.push(DeployStep::EnableFunctionUrl);
    }
    if config.function_config.disable_function_url {
        steps.push(DeployStep::DisableFunctionUrl);
    }
    if config.function_config.log_retention.is_some() {
        steps.push(DeployStep::SetLogRetention);
    }
    assert(steps@ =~= deploy_steps_spec(*config));
    steps
}

/// A deploy whose function URL flags pass `check_function_url_flags` never both
/// configures and deletes the function URL.
pub proof fn law_url_steps_exclusive(config: Deploy)
    requires
        !(config.function_config.enable_function_url && config.function_config.disable_function_url),
    ensures
        !(deploy_steps_spec(config).contains(DeployStep::EnableFunctionUrl) && deploy_steps_spec(
            config,
        ).contains(DeployStep::DisableFunctionUrl)),
{
    let s = deploy_steps_spec(config);
    if s.contains(DeployStep::EnableFunctionUrl) && s.contains(DeployStep::DisableFunctionUrl) {
        let i = choose|i: int| 0 <= i < s.len() && s[i] == DeployStep::EnableFunctionUrl;
        let j = choose|j: int| 0 <= j < s.len() && s[j] == DeployStep::DisableFunctionUrl;
        assert(config.function_config.enable_function_url);
        assert(config.function_config.disable_function_url);
    }
}

// ---------------------------------------------------------------------------
// Creating or updating
// ---------------------------------------------------------------------------

/// What to do with a resource after looking it up.
#[derive(Debug, Clone, Copy, PartialEq, Eq, Structural)]
pub enum UpsertAction {
    /// It exists: update it.
    Update,
    /// It does not exist: create it.
    Create,
    /// The lookup failed: report its error.
    Fail,
}

/// What a lookup of a function, an alias or a function URL configuration means (`None`
/// when it succeeded): update what was found, create what is missing, or fail.
pub fn upsert_action(lookup_error: Option<&SdkError>) -> (res: UpsertAction)
    ensures
        res == match lookup_error {
            None => UpsertAction::Update,
            Some(e) => if is_not_found(*e) {
                UpsertAction::Create
            } else {
                UpsertAction::Fail
            },
        },
{
    match lookup_error {
        None => UpsertAction::Update,
        Some(e) => match e {
            SdkError::ServiceError(crate::deploy_plan::ServiceErrorKind::ResourceNotFound) => {
                UpsertAction::Create
            },
            _ => UpsertAction::Fail,
        },
    }
}

/// The role to create a function with when one is given; `None` when a new role must
/// be created.
pub fn existing_role(config: &Deploy) -> (res: Option<FunctionRole>)
    ensures
        match config.function_config.role {
            None => res is None,
            Some(r) => res matches Some(fr) && fr.0@ == r@ && !fr.1,
        },
{
    match &config.function_config.role {
        None => None,
        Some(r) => Some(FunctionRole::from_existing(r.clone())),
    }
}

/// The tags to put on an existing function: those given, unless there are none.
pub fn tags_to_apply(config: &Deploy) -> (res: Option<StringMap>)
    ensures
        match config.tag {
            None => res is None,
            Some(t) => if t@.len() == 0 || crate::deploy::tags_of(crate::text::views(t@)).len()
                == 0 {
                res is None
            } else {
                res matches Some(m) && m@ == crate::deploy::tags_of(crate::text::views(t@))
            },
        },
{
    match config.lambda_tags() {
        None => None,
        Some(tags) => {
            if tags.is_empty() {
                None
            } else {
                Some(tags)
            }
        },
    }
}

/// What to do after a failed attempt to create a function.
#[derive(Debug, Clone, Copy, PartialEq, Eq, Structural)]
pub enum RetryStep {
    /// Wait this many seconds, then try again.
    RetryAfter(u64),
    /// Give up with the error.
    Fail,
}

/// After failed attempt `attempt` (numbered from two to four) to create a function: when
/// Lambda could not assume a role that the deploy has just created, the role may not have
/// propagated yet, so wait five seconds per attempt number and try again.
pub fn create_retry_step(attempt: u64, role_cannot_be_assumed: bool, role_is_new: bool) -> (res:
    RetryStep)
    requires
        2 <= attempt < 5,
    ensures
        res == if role_cannot_be_assumed && role_is_new {
            RetryStep::RetryAfter((attempt * 5) as u64)
        } else {
            RetryStep::Fail
        },
{
    if role_cannot_be_assumed && role_is_new {
        RetryStep::RetryAfter(attempt * 5)
    } else {
        RetryStep::Fail
    }
}

// ---------------------------------------------------------------------------
// Requests
// ---------------------------------------------------------------------------

/// The network settings that a function is created with.
#[derive(Debug)]
pub struct VpcRequest {
    pub subnet_ids: Option<Vec<String>>,
    pub security_group_ids: Option<Vec<String>>,
    pub ipv6_allowed_for_dual_stack: bool,
}

/// The same network settings.
pub open spec fn same_vpc(r: VpcRequest, v: VpcConfig) -> bool {
    &&& opt_views(r.subnet_ids) == opt_views(v.subnet_ids)
    &&& opt_views(r.security_group_ids) == opt_views(v.security_group_ids)
    &&& r.ipv6_allowed_for_dual_stack == v.ipv6_allowed_for_dual_stack
}

/// What a new function is created with.
#[derive(Debug)]
pub struct CreateFunctionRequest {
    pub function_name: String,
    pub runtime: String,
    pub handler: String,
    pub role: String,
    pub code: CodeLocation,
    /// The architecture of the binary in the archive.
    pub architecture: crate::archive::CpuArchitecture,
    /// The tags of the zip file when it goes to S3.
    pub s3_tags: Option<String>,
    /// Whether a version is published with the code.
    pub publish: bool,
    pub memory_size: Option<i32>,
    pub timeout: i32,
    pub tracing: Option<TracingConfig>,
    pub environment: Option<StringMap>,
    pub layers: Option<Vec<String>>,
    pub tags: Option<StringMap>,
    pub vpc: Option<VpcRequest>,
    /// When given, the function is waited for and a version is published with this
    /// description.
    pub version_description: Option<String>,
}

/// `bootstrap`, the handler of functions with a custom runtime.
pub open spec fn bootstrap_handler() -> Seq<char> {
    seq!['b', 'o', 'o', 't', 's', 't', 'r', 'a', 'p']
}

/// The request that creates function `name` with the deploy settings and role `role`
/// (`file_vars` being what the environment file holds): the settings' runtime, the
/// `bootstrap` handler, the code where `code_location` puts it, memory, timeout (thirty
/// seconds when none is given), tracing mode, environment, layers, tags and network
/// settings, for the architecture of the binary in `archive`. It fails only where the
/// environment does.
pub fn plan_function_creation(
    config: &Deploy,
    name: &str,
    role: &FunctionRole,
    archive: &crate::archive::BinaryArchive,
    file_vars: Option<&StringMap>,
) -> (res: Result<CreateFunctionRequest, MetadataError>)
    ensures
        config.lambda_environment_spec(file_vars) matches Err(bad) ==> (res matches Err(e) && (
        e matches MetadataError::InvalidEnvVar(s) && s@ == bad)),
        config.lambda_environment_spec(file_vars) is Ok ==> (res matches Ok(r) && {
            let fc = config.function_config;
            &&& r.function_name@ == name@
            &&& r.runtime@ == fc.runtime_spec()
            &&& r.handler@ == bootstrap_handler()
            &&& r.role@ == role.0@
            &&& crate::archive::architecture_of(archive.architecture@, r.architecture)
            &&& match config.s3_bucket {
                None => r.code is Zip,
                Some(b) => r.code matches CodeLocation::S3 { bucket, key } && bucket@ == b@
                    && key@ == (match config.s3_key {
                    Some(k) => k@,
                    None => name@,
                }),
            }
            &&& opt_view(r.s3_tags) == config.s3_tags_spec()
            &&& r.publish == (fc.description is None)
            &&& r.memory_size == (match fc.memory {
                Some(m) => Some(m@ as i32),
                None => None,
            })
            &&& r.timeout == (match fc.timeout {
                Some(t) => t@ as i32,
                None => 30,
            })
            &&& (match fc.tracing {
                None => r.tracing is None,
                Some(t) => r.tracing matches Some(c) && c.mode@ == tracing_name(t),
            })
            &&& config.lambda_environment_spec(file_vars) == Ok::<
                Option<Map<Seq<char>, Seq<char>>>,
                Seq<char>,
            >(match r.environment {
                Some(m) => Some(m@),
                None => None,
            })
            &&& opt_views(r.layers) == opt_views(fc.layer)
            &&& config.lambda_tags_spec() == (match r.tags {
                Some(m) => Some(m@),
                None => None,
            })
            &&& (match fc.vpc {
                None => r.vpc is None,
                Some(v) => r.vpc matches Some(rv) && same_vpc(rv, v),
            })
            &&& opt_view(r.version_description) == opt_view(fc.description)
        }),
{
    let environment = match config.lambda_environment(file_vars) {
        Ok(e) => e,
        Err(e) => {
            return Err(e);
        },
    };
    let fc = &config.function_config;
    let handler = "bootstrap";
    proof {
        reveal_strlit("bootstrap");
    }
    let memory_size = match fc.memory {
        Some(m) => Some(m.to_i32()),
        None => None,
    };
    let timeout = match fc.timeout {
        Some(t) => t.to_i32(),
        None => crate::lambda::Timeout::default().to_i32(),
    };
    let vpc = match &fc.vpc {
        None => None,
        Some(v) => Some(
            VpcRequest {
                subnet_ids: copy_opt_strings(&v.subnet_ids),
                security_group_ids: copy_opt_strings(&v.security_group_ids),
                ipv6_allowed_for_dual_stack: v.ipv6_allowed_for_dual_stack,
            },
        ),
    };
    Ok(
        CreateFunctionRequest {
            function_name: name.to_string(),
            runtime: fc.runtime(),
            handler: handler.to_string(),
            role: role.arn().to_string(),
            code: code_location(&config.s3_bucket, &config.s3_key, name),
            architecture: archive.architecture(),
            s3_tags: config.s3_tags(),
            publish: config.publish_code_without_description(),
            memory_size,
            timeout,
            tracing: config.tracing_config(),
            environment,
            layers: copy_opt_strings(&fc.layer),
            tags: config.lambda_tags(),
            vpc,
            version_description: copy_opt_string(&fc.description),
        },
    )
}

/// What the code of an existing function is updated with.
#[derive(Debug)]
pub struct UpdateCodeRequest {
    pub function_name: String,
    pub code: CodeLocation,
    /// The tags of the zip file when it goes to S3.
    pub s3_tags: Option<String>,
    /// Whether a version is published with the code.
    pub publish: bool,
    /// When given, the function is waited for and a version is published with this
    /// description.
    pub version_description: Option<String>,
}

/// The request that updates the code of function `name`: the code where `code_location`
/// puts it, published with it unless a description is given, in which case a version
/// with that description is published after it.
pub fn plan_code_update(config: &Deploy, name: &str) -> (res: UpdateCodeRequest)
    ensures
        res.function_name@ == name@,
        match config.s3_bucket {
            None => res.code is Zip,
            Some(b) => res.code matches CodeLocation::S3 { bucket, key } && bucket@ == b@ && key@
                == (match config.s3_key {
                Some(k) => k@,
                None => name@,
            }),
        },
        opt_view(res.s3_tags) == config.s3_tags_spec(),
        res.publish == (config.function_config.description is None),
        opt_view(res.version_description) == opt_view(config.function_config.description),
{
    UpdateCodeRequest {
        function_name: name.to_string(),
        code: code_location(&config.s3_bucket, &config.s3_key, name),
        s3_tags: config.s3_tags(),
        publish: config.publish_code_without_description(),
        version_description: copy_opt_string(&config.function_config.description),
    }
}

/// `/aws/lambda/`.
pub open spec fn log_group_prefix() -> Seq<char> {
    seq!['/', 'a', 'w', 's', '/', 'l', 'a', 'm', 'b', 'd', 'a', '/']
}

/// The log group of function `name`: `/aws/lambda/` and the name.
pub fn log_group_name(name: &str) -> (res: String)
    ensures
        res@ == log_group_prefix() + name@,
{
    let prefix = "/aws/lambda/";
    proof {
        reveal_strlit("/aws/lambda/");
    }
    let mut chars = chars_of(prefix);
    let rest = chars_of(name);
    extend_chars(&mut chars, rest.as_slice());
    string_of(chars.as_slice())
}

// ---------------------------------------------------------------------------
// The execution role of a new function
// ---------------------------------------------------------------------------

/// The name of a new execution role with the unique `id`.
pub fn role_name(id: &str) -> (res: String)
    ensures
        res@ == "cargo-lambda-role-"@ + id@,
{
    let mut v = crate::text::chars_of("cargo-lambda-role-");
    crate::text::extend_chars(&mut v, crate::text::chars_of(id).as_slice());
    crate::text::string_of(v.as_slice())
}

/// A lower-case hexadecimal digit.
pub open spec fn hex_digit_lower(n: int) -> char {
    if n < 10 {
        ('0' as int + n) as char
    } else {
        ('a' as int + n - 10) as char
    }
}

/// How JSON writes a character inside a string: the quote and the backslash after a
/// backslash, backspace, form feed, line feed, carriage return and tab by their letters,
/// the other control characters as `\u00` and two hexadecimal digits, anything else as it is.
pub open spec fn json_escape_char(c: char) -> Seq<char> {
    if c == '"' {
        seq!['\\', '"']
    } else if c == '\\' {
        seq!['\\', '\\']
    } else if c == '\x08' {
        seq!['\\', 'b']
    } else if c == '\x0c' {
        seq!['\\', 'f']
    } else if c == '\n' {
        seq!['\\', 'n']
    } else if c == '\r' {
        seq!['\\', 'r']
    } else if c == '\t' {
        seq!['\\', 't']
    } else if (c as int) < 0x20 {
        seq![
            '\\',
            'u',
            '0',
            '0',
            hex_digit_lower((c as int) / 16),
            hex_digit_lower((c as int) % 16),
        ]
    } else {
        seq![c]
    }
}

/// The characters of `s` as JSON writes them inside a string.
pub open spec fn json_escaped(s: Seq<char>) -> Seq<char>
    decreases s.len(),
{
    if s.len() == 0 {
        Seq::empty()
    } else {
        json_escaped(s.drop_last()) + json_escape_char(s.last())
    }
}

/// `s` as a JSON string: in double quotes, with its characters escaped.
pub open spec fn json_quoted(s: Seq<char>) -> Seq<char> {
    seq!['"'] + json_escaped(s) + seq!['"']
}

/// `serde_json::Value::String(s).to_string()`: the string as JSON text, which serde_json's
/// compact writer escapes as `json_quoted` says.
#[verifier::external_body]
fn json_string(s: &str) -> (res: String)
    ensures
        res@ == json_quoted(s@),
{
    serde_json::Value::String(s.to_owned()).to_string()
}

/// The statement of the trust policy that lets Lambda assume the role.
pub open spec fn lambda_statement() -> Seq<char> {
    "{\"Action\":[\"sts:AssumeRole\"],\"Effect\":\"Allow\",\"Principal\":{\"Service\":\"lambda.amazonaws.com\"}}"@
}

/// The trust policy of a new execution role, as JSON with its keys in order: Lambda may
/// assume the role and, while the role is being checked, so may the caller `caller`.
pub open spec fn trust_policy(caller: Option<Seq<char>>) -> Seq<char> {
    "{\"Statement\":["@ + lambda_statement() + match caller {
        Some(arn) => ",{\"Action\":[\"sts:AssumeRole\",\"sts:SetSourceIdentity\",\"sts:TagSession\"],\"Effect\":\"Allow\",\"Principal\":{\"AWS\":"@
            + json_quoted(arn) + "}}"@,
        None => Seq::empty(),
    } + "],\"Version\":\"2012-10-17\"}"@
}

/// The trust policy a new execution role is created with: Lambda and the caller with ARN
/// `caller_arn` may assume it.
pub fn role_trust_policy(caller_arn: &str) -> (res: String)
    ensures
        res@ == trust_policy(Some(caller_arn@)),
{
    let mut v = crate::text::chars_of("{\"Statement\":[");
    crate::text::extend_chars(&mut v, crate::text::chars_of("{\"Action\":[\"sts:AssumeRole\"],\"Effect\":\"Allow\",\"Principal\":{\"Service\":\"lambda.amazonaws.com\"}}").as_slice());
    crate::text::extend_chars(&mut v, crate::text::chars_of(",{\"Action\":[\"sts:AssumeRole\",\"sts:SetSourceIdentity\",\"sts:TagSession\"],\"Effect\":\"Allow\",\"Principal\":{\"AWS\":").as_slice());
    let quoted = json_string(caller_arn);
    crate::text::extend_chars(&mut v, crate::text::chars_of(quoted.as_str()).as_slice());
    crate::text::extend_chars(&mut v, crate::text::chars_of("}}").as_slice());
    crate::text::extend_chars(&mut v, crate::text::chars_of("],\"Version\":\"2012-10-17\"}").as_slice());
    assert(v@ =~= trust_policy(Some(caller_arn@)));
    crate::text::string_of(v.as_slice())
}

/// The trust policy of an execution role once checked: only Lambda may assume it.
pub fn lambda_trust_policy() -> (res: String)
    ensures
        res@ == trust_policy(None),
{
    let mut v = crate::text::chars_of("{\"Statement\":[");
    crate::text::extend_chars(&mut v, crate::text::chars_of("{\"Action\":[\"sts:AssumeRole\"],\"Effect\":\"Allow\",\"Principal\":{\"Service\":\"lambda.amazonaws.com\"}}").as_slice());
    crate::text::extend_chars(&mut v, crate::text::chars_of("],\"Version\":\"2012-10-17\"}").as_slice());
    assert(v@ =~= trust_policy(None));
    crate::text::string_of(v.as_slice())
}

// ---------------------------------------------------------------------------
// Extensions
// ---------------------------------------------------------------------------

/// What a new version of an extension's layer is published with.
#[derive(Debug)]
pub struct PublishLayerRequest {
    pub layer_name: String,
    /// The architecture of the binary in the archive.
    pub architecture: crate::archive::CpuArchitecture,
    pub compatible_runtimes: Vec<String>,
    pub code: CodeLocation,
    /// The tags of the zip file when it goes to S3.
    pub s3_tags: Option<String>,
}

/// The request that publishes extension `name` from `archive`: the layer's name, the
/// architecture of the binary, the compatible runtimes (`provided.al2` and
/// `provided.al2023` when none are given), and the code in the zip file or on S3 under the
/// key given, else the name.
pub fn plan_layer_publication(config: &Deploy, name: &str, archive: &crate::archive::BinaryArchive) -> (res:
    PublishLayerRequest)
    ensures
        res.layer_name@ == name@,
        crate::archive::architecture_of(archive.architecture@, res.architecture),
        views(res.compatible_runtimes@) == match config.compatible_runtimes {
            Some(v) => views(v@),
            None => crate::deploy::default_compatible_runtimes(),
        },
        match config.s3_bucket {
            None => res.code is Zip,
            Some(b) => res.code matches CodeLocation::S3 { bucket, key } && bucket@ == b@ && key@
                == (match config.s3_key {
                Some(k) => k@,
                None => name@,
            }),
        },
        opt_view(res.s3_tags) == config.s3_tags_spec(),
{
    PublishLayerRequest {
        layer_name: crate::text::owned(name),
        architecture: archive.architecture(),
        compatible_runtimes: config.compatible_runtimes(),
        code: code_location(&config.s3_bucket, &config.s3_key, name),
        s3_tags: config.s3_tags(),
    }
}

/// A deploy always starts by creating or updating the function, and takes each other step
/// exactly when its setting asks for it: the alias update when an alias is given, enabling
/// the function URL with `--enable-function-url`, deleting it with
/// `--disable-function-url`, and the log retention when one is given.
pub proof fn law_deploy_steps_follow_settings(config: Deploy)
    ensures
        deploy_steps_spec(config)[0] == DeployStep::UpsertFunction,
        deploy_steps_spec(config).contains(DeployStep::UpdateAlias)
            <==> config.remote_config.alias is Some,
        deploy_steps_spec(config).contains(DeployStep::EnableFunctionUrl)
            <==> config.function_config.enable_function_url,
        deploy_steps_spec(config).contains(DeployStep::DisableFunctionUrl)
            <==> config.function_config.disable_function_url,
        deploy_steps_spec(config).contains(DeployStep::SetLogRetention)
            <==> config.function_config.log_retention is Some,
{
    let s = deploy_steps_spec(config);
    let a = seq![DeployStep::UpsertFunction];
    let b = step_if(config.remote_config.alias is Some, DeployStep::UpdateAlias);
    let c = step_if(config.function_config.enable_function_url, DeployStep::EnableFunctionUrl);
    let d = step_if(config.function_config.disable_function_url, DeployStep::DisableFunctionUrl);
    let e = step_if(config.function_config.log_retention is Some, DeployStep::SetLogRetention);
    assert(s == a + b + c + d + e);
    assert(s[0] == DeployStep::UpsertFunction);
    let xs = seq![
        DeployStep::UpdateAlias,
        DeployStep::EnableFunctionUrl,
        DeployStep::DisableFunctionUrl,
        DeployStep::SetLogRetention,
    ];
    assert forall|i: int| 0 <= i < xs.len() implies !a.contains(#[trigger] xs[i]) && (b.contains(xs[i])
        <==> (config.remote_config.alias is Some && xs[i] == DeployStep::UpdateAlias)) && (c.contains(
        xs[i],
    ) <==> (config.function_config.enable_function_url && xs[i] == DeployStep::EnableFunctionUrl))
        && (d.contains(xs[i]) <==> (config.function_config.disable_function_url && xs[i]
        == DeployStep::DisableFunctionUrl)) && (e.contains(xs[i]) <==> (
    config.function_config.log_retention is Some && xs[i] == DeployStep::SetLogRetention)) by {
        lemma_one_step_contains(DeployStep::UpsertFunction, xs[i]);
        lemma_step_if_contains(config.remote_config.alias is Some, DeployStep::UpdateAlias, xs[i]);
        lemma_step_if_contains(
            config.function_config.enable_function_url,
            DeployStep::EnableFunctionUrl,
            xs[i],
        );
        lemma_step_if_contains(
            config.function_config.disable_function_url,
            DeployStep::DisableFunctionUrl,
            xs[i],
        );
        lemma_step_if_contains(
            config.function_config.log_retention is Some,
            DeployStep::SetLogRetention,
            xs[i],
        );
    }
    assert(xs[0] == DeployStep::UpdateAlias);
    assert(xs[1] == DeployStep::EnableFunctionUrl);
    assert(xs[2] == DeployStep::DisableFunctionUrl);
    assert(xs[3] == DeployStep::SetLogRetention);
    lemma_steps_contain(a, b, c, d, e, DeployStep::UpdateAlias);
    lemma_steps_contain(a, b, c, d, e, DeployStep::EnableFunctionUrl);
    lemma_steps_contain(a, b, c, d, e, DeployStep::DisableFunctionUrl);
    lemma_steps_contain(a, b, c, d, e, DeployStep::SetLogRetention);
}

/// A plan of one step holds only that step.
proof fn lemma_one_step_contains(y: DeployStep, x: DeployStep)
    ensures
        seq![y].contains(x) <==> x == y,
{
    assert(seq![y][0] == y);
}

/// A step taken under a condition is in the plan exactly when the condition holds.
proof fn lemma_step_if_contains(cond: bool, y: DeployStep, x: DeployStep)
    ensures
        step_if(cond, y).contains(x) <==> (cond && x == y),
{
    if cond {
        lemma_one_step_contains(y, x);
    }
}

/// A step is among the parts of a plan exactly when it is in one of them.
proof fn lemma_steps_contain(
    a: Seq<DeployStep>,
    b: Seq<DeployStep>,
    c: Seq<DeployStep>,
    d: Seq<DeployStep>,
    e: Seq<DeployStep>,
    x: DeployStep,
)
    ensures
        (a + b + c + d + e).contains(x) <==> (a.contains(x) || b.contains(x) || c.contains(x)
            || d.contains(x) || e.contains(x)),
{
    vstd::seq_lib::lemma_seq_concat_contains_all_elements(a, b, x);
    vstd::seq_lib::lemma_seq_concat_contains_all_elements(a + b, c, x);
    vstd::seq_lib::lemma_seq_concat_contains_all_elements(a + b + c, d, x);
    vstd::seq_lib::lemma_seq_concat_contains_all_elements(a + b + c + d, e, x);
}

} // verus!
