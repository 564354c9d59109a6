//! What command options serialize to: the fields that are set, by name and in order.
//!
//! A struct writes only the fields that carry a value (a true flag, a given option, a
//! non-empty list). The number of fields announced before writing them is the count that
//! each options type computes.
use vstd::prelude::*;
use crate::deploy::{Deploy, FunctionDeployConfig, OutputFormat, VpcConfig, fields_count};
use crate::env::EnvOptions;
use crate::lambda::tracing_name;
use crate::remote::{RemoteConfig, flag};
use crate::remote::TlsOptions;
use crate::text::{copy_strings, views};
use crate::watch::{Route, route_view};
use crate::watch_options::{CommonOptions, Watch};
use crate::build_options::{Build, BuildOutputFormat};
use crate::deploy_config::{CompilerOptions, compiler_view};

verus! {

/// The value of a serialized field.
#[derive(Debug)]
pub enum FieldValue {
    Bool(bool),
    Int(i128),
    Str(String),
    Strings(Vec<String>),
    Routes(Vec<Route>),
    /// A compiler choice, written as an object tagged with its `type`.
    Compiler(CompilerOptions),
}

/// The value of a field taken by value.
pub enum FieldView {
    Bool(bool),
    Int(int),
    Str(Seq<char>),
    Strings(Seq<Seq<char>>),
    Routes(Seq<(Seq<char>, Option<Seq<Seq<char>>>, Seq<char>)>),
    Compiler((int, Option<Seq<Seq<char>>>, Option<Seq<Seq<char>>>)),
}

impl View for FieldValue {
    type V = FieldView;

    open spec fn view(&self) -> FieldView {
        match self {
            FieldValue::Bool(b) => FieldView::Bool(*b),
            FieldValue::Int(i) => FieldView::Int(*i as int),
            FieldValue::Str(s) => FieldView::Str(s@),
            FieldValue::Strings(v) => FieldView::Strings(views(v@)),
            FieldValue::Routes(r) => FieldView::Routes(r@.map_values(|x: Route| route_view(x))),
            FieldValue::Compiler(c) => FieldView::Compiler(compiler_view(*c)),
        }
    }
}

/// The fields taken by value.
pub open spec fn fields_view(fs: Seq<(String, FieldValue)>) -> Seq<(Seq<char>, FieldView)> {
    fs.map_values(|f: (String, FieldValue)| (f.0@, f.1@))
}

/// The fields `s` with field `name` set to `value` appended when `cond` holds.
pub open spec fn add_if(
    s: Seq<(Seq<char>, FieldView)>,
    cond: bool,
    name: Seq<char>,
    value: FieldView,
) -> Seq<(Seq<char>, FieldView)> {
    if cond {
        s.push((name, value))
    } else {
        s
    }
}

/// The characters of an optional string, empty when there is none.
pub open spec fn str_or_empty(o: Option<String>) -> Seq<char> {
    match o {
        Some(s) => s@,
        None => Seq::empty(),
    }
}

/// The strings of an optional list, none when there is no list.
pub open spec fn strs_or_empty(o: Option<Vec<String>>) -> Seq<Seq<char>> {
    match o {
        Some(v) => views(v@),
        None => Seq::empty(),
    }
}

/// Appends a field.
fn push_field(fields: &mut Vec<(String, FieldValue)>, name: &str, value: FieldValue)
    ensures
        fields_view(final(fields)@) == fields_view(old(fields)@).push((name@, value@)),
{
    let ghost v = value@;
    fields.push((name.to_string(), value));
    assert(fields_view(fields@) =~= fields_view(old(fields)@).push((name@, v)));
}

/// Appends a string field when the string is given.
fn push_opt_str(fields: &mut Vec<(String, FieldValue)>, name: &str, value: &Option<String>)
    ensures
        fields_view(final(fields)@) == add_if(
            fields_view(old(fields)@),
            value is Some,
            name@,
            FieldView::Str(str_or_empty(*value)),
        ),
{
    match value {
        Some(s) => push_field(fields, name, FieldValue::Str(s.clone())),
        None => {},
    }
}

/// Appends a list field when the list is given.
fn push_opt_strings(fields: &mut Vec<(String, FieldValue)>, name: &str, value: &Option<Vec<String>>)
    ensures
        fields_view(final(fields)@) == add_if(
            fields_view(old(fields)@),
            value is Some,
            name@,
            FieldView::Strings(strs_or_empty(*value)),
        ),
{
    match value {
        Some(v) => push_field(fields, name, FieldValue::Strings(copy_strings(v))),
        None => {},
    }
}

/// Appends a flag field when the flag is set.
fn push_flag(fields: &mut Vec<(String, FieldValue)>, name: &str, value: bool)
    ensures
        fields_view(final(fields)@) == add_if(
            fields_view(old(fields)@),
            value,
            name@,
            FieldView::Bool(true),
        ),
{
    if value {
        push_field(fields, name, FieldValue::Bool(true));
    }
}

// ---------------------------------------------------------------------------
// Environment, network, function and account options
// ---------------------------------------------------------------------------

/// `s` with the fields of environment options appended.
pub open spec fn env_fields(s: Seq<(Seq<char>, FieldView)>, e: EnvOptions) -> Seq<(Seq<char>, FieldView)> {
    add_if(
        add_if(s, e.env_var is Some, "env_var"@, FieldView::Strings(strs_or_empty(e.env_var))),
        e.env_file is Some,
        "env_file"@,
        FieldView::Str(str_or_empty(e.env_file)),
    )
}

/// Appends the fields of environment options: the variables and the file, when given.
pub fn env_options_fields(e: &EnvOptions, fields: &mut Vec<(String, FieldValue)>)
    ensures
        fields_view(final(fields)@) == env_fields(fields_view(old(fields)@), *e),
{
    push_opt_strings(fields, "env_var", &e.env_var);
    push_opt_str(fields, "env_file", &e.env_file);
}

/// `s` with the fields of network options appended; the IPv6 flag is written whatever
/// its value.
pub open spec fn vpc_fields(s: Seq<(Seq<char>, FieldView)>, v: VpcConfig) -> Seq<(Seq<char>, FieldView)> {
    add_if(
        add_if(
            s,
            v.subnet_ids is Some,
            "subnet_ids"@,
            FieldView::Strings(strs_or_empty(v.subnet_ids)),
        ),
        v.security_group_ids is Some,
        "security_group_ids"@,
        FieldView::Strings(strs_or_empty(v.security_group_ids)),
    ).push(("ipv6_allowed_for_dual_stack"@, FieldView::Bool(v.ipv6_allowed_for_dual_stack)))
}

/// Appends the fields of network options: the subnets and security groups when given,
/// and the IPv6 flag whatever its value.
pub fn vpc_config_fields(v: &VpcConfig, fields: &mut Vec<(String, FieldValue)>)
    ensures
        fields_view(final(fields)@) == vpc_fields(fields_view(old(fields)@), *v),
{
    push_opt_strings(fields, "subnet_ids", &v.subnet_ids);
    push_opt_strings(fields, "security_group_ids", &v.security_group_ids);
    push_field(fields, "ipv6_allowed_for_dual_stack", FieldValue::Bool(v.ipv6_allowed_for_dual_stack));
}

/// Whether a list of layers is given and not empty.
pub open spec fn layers_given(l: Option<Vec<String>>) -> bool {
    l matches Some(v) && v@.len() > 0
}

/// `s` with the first fields of a function's settings appended: the URL flags, memory
/// (as an `i32`) and timeout.
pub open spec fn function_head_fields(s: Seq<(Seq<char>, FieldView)>, c: FunctionDeployConfig) -> Seq<
    (Seq<char>, FieldView),
> {
    let s1 = add_if(s, c.disable_function_url, "disable_function_url"@, FieldView::Bool(true));
    let s2 = add_if(s1, c.enable_function_url, "enable_function_url"@, FieldView::Bool(true));
    let s3 = add_if(
        s2,
        c.memory is Some,
        "memory"@,
        FieldView::Int(
            match c.memory {
                Some(m) => (m@ as i32) as int,
                None => 0,
            },
        ),
    );
    add_if(
        s3,
        c.timeout is Some,
        "timeout"@,
        FieldView::Int(
            match c.timeout {
                Some(t) => t@ as int,
                None => 0,
            },
        ),
    )
}

/// `s` with the middle fields of a function's settings appended: runtime, tracing, role,
/// layers (when there are some), description and log retention.
pub open spec fn function_middle_fields(s: Seq<(Seq<char>, FieldView)>, c: FunctionDeployConfig) -> Seq<
    (Seq<char>, FieldView),
> {
    let s1 = add_if(s, c.runtime is Some, "runtime"@, FieldView::Str(str_or_empty(c.runtime)));
    let s2 = add_if(
        s1,
        c.tracing is Some,
        "tracing"@,
        FieldView::Str(
            match c.tracing {
                Some(t) => tracing_name(t),
                None => Seq::empty(),
            },
        ),
    );
    let s3 = add_if(s2, c.role is Some, "role"@, FieldView::Str(str_or_empty(c.role)));
    let s4 = add_if(s3, layers_given(c.layer), "layer"@, FieldView::Strings(strs_or_empty(c.layer)));
    let s5 = add_if(
        s4,
        c.description is Some,
        "description"@,
        FieldView::Str(str_or_empty(c.description)),
    );
    add_if(
        s5,
        c.log_retention is Some,
        "log_retention"@,
        FieldView::Int(
            match c.log_retention {
                Some(r) => r as int,
                None => 0,
            },
        ),
    )
}

/// `s` with the fields of a function's settings appended, then those of its network and
/// environment options when given.
pub open spec fn function_fields(s: Seq<(Seq<char>, FieldView)>, c: FunctionDeployConfig) -> Seq<
    (Seq<char>, FieldView),
> {
    let m = function_middle_fields(function_head_fields(s, c), c);
    let v = match c.vpc {
        Some(v) => vpc_fields(m, v),
        None => m,
    };
    match c.env_options {
        Some(e) => env_fields(v, e),
        None => v,
    }
}

/// Appends the first fields of a function's settings.
fn function_head(c: &FunctionDeployConfig, fields: &mut Vec<(String, FieldValue)>)
    ensures
        fields_view(final(fields)@) == function_head_fields(fields_view(old(fields)@), *c),
{
    push_flag(fields, "disable_function_url", c.disable_function_url);
    push_flag(fields, "enable_function_url", c.enable_function_url);
    match c.memory {
        Some(m) => push_field(fields, "memory", FieldValue::Int(m.to_i32() as i128)),
        None => {},
    }
    match c.timeout {
        Some(t) => push_field(fields, "timeout", FieldValue::Int(t.seconds() as i128)),
        None => {},
    }
}

/// Appends the middle fields of a function's settings.
fn function_middle(c: &FunctionDeployConfig, fields: &mut Vec<(String, FieldValue)>)
    ensures
        fields_view(final(fields)@) == function_middle_fields(fields_view(old(fields)@), *c),
{
    push_opt_str(fields, "runtime", &c.runtime);
    match c.tracing {
        Some(t) => push_field(fields, "tracing", FieldValue::Str(t.to_string())),
        None => {},
    }
    push_opt_str(fields, "role", &c.role);
    match &c.layer {
        Some(l) => if l.len() > 0 {
            push_field(fields, "layer", FieldValue::Strings(copy_strings(l)));
        },
        None => {},
    }
    push_opt_str(fields, "description", &c.description);
    match c.log_retention {
        Some(r) => push_field(fields, "log_retention", FieldValue::Int(r as i128)),
        None => {},
    }
}

/// Appends the fields of a function's settings: the flags that are set and the settings
/// that are given (the layers when there are some), then those of the network and
/// environment options when given.
pub fn function_config_fields(c: &FunctionDeployConfig, fields: &mut Vec<(String, FieldValue)>)
    ensures
        fields_view(final(fields)@) == function_fields(fields_view(old(fields)@), *c),
{
    function_head(c, fields);
    function_middle(c, fields);
    match &c.vpc {
        Some(v) => vpc_config_fields(v, fields),
        None => {},
    }
    match &c.env_options {
        Some(e) => env_options_fields(e, fields),
        None => {},
    }
}

/// `s` with the fields of account options appended.
pub open spec fn remote_fields(s: Seq<(Seq<char>, FieldView)>, r: RemoteConfig) -> Seq<(Seq<char>, FieldView)> {
    let s1 = add_if(s, r.profile is Some, "profile"@, FieldView::Str(str_or_empty(r.profile)));
    let s2 = add_if(s1, r.region is Some, "region"@, FieldView::Str(str_or_empty(r.region)));
    let s3 = add_if(s2, r.alias is Some, "alias"@, FieldView::Str(str_or_empty(r.alias)));
    let s4 = add_if(
        s3,
        r.retry_attempts is Some,
        "retry_attempts"@,
        FieldView::Int(
            match r.retry_attempts {
                Some(n) => n as int,
                None => 0,
            },
        ),
    );
    add_if(s4, r.endpoint_url is Some, "endpoint_url"@, FieldView::Str(str_or_empty(r.endpoint_url)))
}

/// Appends the fields of account options: those given.
pub fn remote_config_fields(r: &RemoteConfig, fields: &mut Vec<(String, FieldValue)>)
    ensures
        fields_view(final(fields)@) == remote_fields(fields_view(old(fields)@), *r),
{
    push_opt_str(fields, "profile", &r.profile);
    push_opt_str(fields, "region", &r.region);
    push_opt_str(fields, "alias", &r.alias);
    match r.retry_attempts {
        Some(n) => push_field(fields, "retry_attempts", FieldValue::Int(n as i128)),
        None => {},
    }
    push_opt_str(fields, "endpoint_url", &r.endpoint_url);
}

// ---------------------------------------------------------------------------
// Deploy options
// ---------------------------------------------------------------------------

/// The name of an output format in lower case.
pub open spec fn output_format_name(f: OutputFormat) -> Seq<char> {
    match f {
        OutputFormat::Text => "text"@,
        OutputFormat::Json => "json"@,
    }
}

/// `s` with the first fields of the deploy options appended: paths, names, bucket and
/// the extension flags.
pub open spec fn deploy_head_fields(s: Seq<(Seq<char>, FieldView)>, d: Deploy) -> Seq<
    (Seq<char>, FieldView),
> {
    let s1 = add_if(s, d.manifest_path is Some, "manifest_path"@, FieldView::Str(str_or_empty(d.manifest_path)));
    let s2 = add_if(s1, d.lambda_dir is Some, "lambda_dir"@, FieldView::Str(str_or_empty(d.lambda_dir)));
    let s3 = add_if(s2, d.binary_path is Some, "binary_path"@, FieldView::Str(str_or_empty(d.binary_path)));
    let s4 = add_if(s3, d.binary_name is Some, "binary_name"@, FieldView::Str(str_or_empty(d.binary_name)));
    let s5 = add_if(s4, d.s3_bucket is Some, "s3_bucket"@, FieldView::Str(str_or_empty(d.s3_bucket)));
    let s6 = add_if(s5, d.s3_key is Some, "s3_key"@, FieldView::Str(str_or_empty(d.s3_key)));
    let s7 = add_if(s6, d.extension, "extension"@, FieldView::Bool(true));
    add_if(s7, d.internal, "internal"@, FieldView::Bool(true))
}

/// `s` with the other fields of the deploy options themselves appended.
pub open spec fn deploy_rest_fields(s: Seq<(Seq<char>, FieldView)>, d: Deploy) -> Seq<
    (Seq<char>, FieldView),
> {
    let s1 = add_if(
        s,
        d.compatible_runtimes is Some,
        "compatible_runtimes"@,
        FieldView::Strings(strs_or_empty(d.compatible_runtimes)),
    );
    let s2 = add_if(
        s1,
        d.output_format is Some,
        "output_format"@,
        FieldView::Str(
            match d.output_format {
                Some(f) => output_format_name(f),
                None => Seq::empty(),
            },
        ),
    );
    let s3 = add_if(s2, d.tag is Some, "tag"@, FieldView::Strings(strs_or_empty(d.tag)));
    let s4 = add_if(s3, d.include_paths is Some, "include"@, FieldView::Strings(strs_or_empty(d.include_paths)));
    let s5 = add_if(s4, d.dry, "dry"@, FieldView::Bool(true));
    add_if(s5, d.name is Some, "name"@, FieldView::Str(str_or_empty(d.name)))
}

/// The fields of the deploy options: their own options that are set, then those of the
/// account and of the function.
pub open spec fn deploy_fields(d: Deploy) -> Seq<(Seq<char>, FieldView)> {
    function_fields(
        remote_fields(deploy_rest_fields(deploy_head_fields(Seq::empty(), d), d), d.remote_config),
        d.function_config,
    )
}

/// The number of fields that the deploy options announce: their own options that are
/// set, and the counts of their account and function settings.
pub open spec fn deploy_count(d: Deploy) -> int {
    flag(d.manifest_path is Some) + flag(d.lambda_dir is Some) + flag(d.binary_path is Some) + flag(
        d.binary_name is Some,
    ) + flag(d.s3_bucket is Some) + flag(d.s3_key is Some) + flag(d.extension) + flag(d.internal)
        + flag(d.compatible_runtimes is Some) + flag(d.output_format is Some) + flag(d.tag is Some)
        + flag(d.include_paths is Some) + flag(d.dry) + flag(d.name is Some) + (flag(
        d.remote_config.profile is Some,
    ) + flag(d.remote_config.region is Some) + flag(d.remote_config.alias is Some) + flag(
        d.remote_config.retry_attempts is Some,
    ) + flag(d.remote_config.endpoint_url is Some)) + fields_count(d.function_config)
}

impl Deploy {
    /// Appends the first fields of the deploy options themselves.
    fn head_fields(&self, fields: &mut Vec<(String, FieldValue)>)
        ensures
            fields_view(final(fields)@) == deploy_head_fields(fields_view(old(fields)@), *self),
    {
        push_opt_str(fields, "manifest_path", &self.manifest_path);
        push_opt_str(fields, "lambda_dir", &self.lambda_dir);
        push_opt_str(fields, "binary_path", &self.binary_path);
        push_opt_str(fields, "binary_name", &self.binary_name);
        push_opt_str(fields, "s3_bucket", &self.s3_bucket);
        push_opt_str(fields, "s3_key", &self.s3_key);
        push_flag(fields, "extension", self.extension);
        push_flag(fields, "internal", self.internal);
    }

    /// Appends the other fields of the deploy options themselves.
    fn rest_fields(&self, fields: &mut Vec<(String, FieldValue)>)
        ensures
            fields_view(final(fields)@) == deploy_rest_fields(fields_view(old(fields)@), *self),
    {
        push_opt_strings(fields, "compatible_runtimes", &self.compatible_runtimes);
        match self.output_format {
            Some(OutputFormat::Text) => push_field(fields, "output_format", FieldValue::Str("text".to_string())),
            Some(OutputFormat::Json) => push_field(fields, "output_format", FieldValue::Str("json".to_string())),
            None => {},
        }
        push_opt_strings(fields, "tag", &self.tag);
        push_opt_strings(fields, "include", &self.include_paths);
        push_flag(fields, "dry", self.dry);
        push_opt_str(fields, "name", &self.name);
    }

    /// The fields that the deploy options serialize to: their own options that are set,
    /// then those of the account and of the function.
    pub fn serialized_fields(&self) -> (res: Vec<(String, FieldValue)>)
        ensures
            fields_view(res@) == deploy_fields(*self),
    {
        let mut fields: Vec<(String, FieldValue)> = Vec::new();
        assert(fields_view(fields@) =~= Seq::empty());
        self.head_fields(&mut fields);
        self.rest_fields(&mut fields);
        remote_config_fields(&self.remote_config, &mut fields);
        function_config_fields(&self.function_config, &mut fields);
        fields
    }

    /// The number of the first options of the deploy options that are set.
    fn head_count(&self) -> (res: usize)
        ensures
            res == flag(self.manifest_path is Some) + flag(self.lambda_dir is Some) + flag(self.binary_path is Some) + flag(self.binary_name is Some) + flag(self.s3_bucket is Some) + flag(self.s3_key is Some) + flag(self.extension) + flag(self.internal),
            res <= 8,
    {
        proof {
            crate::remote::lemma_flag(self.manifest_path is Some);
            crate::remote::lemma_flag(self.lambda_dir is Some);
            crate::remote::lemma_flag(self.binary_path is Some);
            crate::remote::lemma_flag(self.binary_name is Some);
            crate::remote::lemma_flag(self.s3_bucket is Some);
            crate::remote::lemma_flag(self.s3_key is Some);
            crate::remote::lemma_flag(self.extension);
            crate::remote::lemma_flag(self.internal);
        }
        let mut n: usize = 0;
        if self.manifest_path.is_some() {
            n = n + 1;
        }
        if self.lambda_dir.is_some() {
            n = n + 1;
        }
        if self.binary_path.is_some() {
            n = n + 1;
        }
        if self.binary_name.is_some() {
            n = n + 1;
        }
        if self.s3_bucket.is_some() {
            n = n + 1;
        }
        if self.s3_key.is_some() {
            n = n + 1;
        }
        if self.extension {
            n = n + 1;
        }
        if self.internal {
            n = n + 1;
        }
        n
    }

    /// The number of the other options of the deploy options themselves that are set.
    fn rest_count(&self) -> (res: usize)
        ensures
            res == flag(self.compatible_runtimes is Some) + flag(self.output_format is Some) + flag(self.tag is Some) + flag(self.include_paths is Some) + flag(self.dry) + flag(self.name is Some),
            res <= 6,
    {
        proof {
            crate::remote::lemma_flag(self.compatible_runtimes is Some);
            crate::remote::lemma_flag(self.output_format is Some);
            crate::remote::lemma_flag(self.tag is Some);
            crate::remote::lemma_flag(self.include_paths is Some);
            crate::remote::lemma_flag(self.dry);
            crate::remote::lemma_flag(self.name is Some);
        }
        let mut n: usize = 0;
        if self.compatible_runtimes.is_some() {
            n = n + 1;
        }
        if self.output_format.is_some() {
            n = n + 1;
        }
        if self.tag.is_some() {
            n = n + 1;
        }
        if self.include_paths.is_some() {
            n = n + 1;
        }
        if self.dry {
            n = n + 1;
        }
        if self.name.is_some() {
            n = n + 1;
        }
        n
    }

    /// The number of fields that the deploy options announce before writing them.
    pub fn count_fields(&self) -> (res: usize)
        ensures
            res == deploy_count(*self),
    {
        let head = self.head_count();
        let rest = self.rest_count();
        let remote = self.remote_config.count_fields();
        let function = self.function_config.count_fields();
        proof {
            crate::deploy::lemma_fields_count_bound(self.function_config);
        }
        head + rest + remote + function
    }
}

// ---------------------------------------------------------------------------
// Cargo, TLS and watch options
// ---------------------------------------------------------------------------

/// Appends a list field when the list is not empty.
fn push_strings_if_any(fields: &mut Vec<(String, FieldValue)>, name: &str, value: &Vec<String>)
    ensures
        fields_view(final(fields)@) == add_if(
            fields_view(old(fields)@),
            value@.len() > 0,
            name@,
            FieldView::Strings(views(value@)),
        ),
{
    if value.len() > 0 {
        push_field(fields, name, FieldValue::Strings(copy_strings(value)));
    }
}

/// `s` with the first fields of Cargo's common options appended.
pub open spec fn common_head_fields(s: Seq<(Seq<char>, FieldView)>, o: CommonOptions) -> Seq<
    (Seq<char>, FieldView),
> {
    let s1 = add_if(s, o.quiet, "quiet"@, FieldView::Bool(true));
    let s2 = add_if(
        s1,
        o.jobs is Some,
        "jobs"@,
        FieldView::Int(
            match o.jobs {
                Some(j) => j as int,
                None => 0,
            },
        ),
    );
    let s3 = add_if(s2, o.keep_going, "keep_going"@, FieldView::Bool(true));
    let s4 = add_if(s3, o.profile is Some, "profile"@, FieldView::Str(str_or_empty(o.profile)));
    let s5 = add_if(s4, o.features@.len() > 0, "features"@, FieldView::Strings(views(o.features@)));
    let s6 = add_if(s5, o.all_features, "all_features"@, FieldView::Bool(true));
    let s7 = add_if(s6, o.no_default_features, "no_default_features"@, FieldView::Bool(true));
    let s8 = add_if(s7, o.target@.len() > 0, "target"@, FieldView::Strings(views(o.target@)));
    add_if(s8, o.target_dir is Some, "target_dir"@, FieldView::Str(str_or_empty(o.target_dir)))
}

/// `s` with the other fields of Cargo's common options appended.
pub open spec fn common_rest_fields(s: Seq<(Seq<char>, FieldView)>, o: CommonOptions) -> Seq<
    (Seq<char>, FieldView),
> {
    let s1 = add_if(
        s,
        o.message_format@.len() > 0,
        "message_format"@,
        FieldView::Strings(views(o.message_format@)),
    );
    let s2 = add_if(s1, o.verbose > 0, "verbose"@, FieldView::Int(o.verbose as int));
    let s3 = add_if(s2, o.color is Some, "color"@, FieldView::Str(str_or_empty(o.color)));
    let s4 = add_if(s3, o.frozen, "frozen"@, FieldView::Bool(true));
    let s5 = add_if(s4, o.locked, "locked"@, FieldView::Bool(true));
    let s6 = add_if(s5, o.offline, "offline"@, FieldView::Bool(true));
    let s7 = add_if(s6, o.config@.len() > 0, "config"@, FieldView::Strings(views(o.config@)));
    let s8 = add_if(
        s7,
        o.unstable_flags@.len() > 0,
        "unstable_flags"@,
        FieldView::Strings(views(o.unstable_flags@)),
    );
    add_if(s8, o.timings is Some, "timings"@, FieldView::Strings(strs_or_empty(o.timings)))
}

/// `s` with the fields of Cargo's common options appended: the flags that are set, the
/// options that are given and the lists that are not empty.
pub open spec fn common_fields(s: Seq<(Seq<char>, FieldView)>, o: CommonOptions) -> Seq<
    (Seq<char>, FieldView),
> {
    common_rest_fields(common_head_fields(s, o), o)
}

/// The number of the first of Cargo's common options that are set.
pub open spec fn common_head_count(o: CommonOptions) -> int {
    flag(o.quiet) + flag(o.jobs is Some) + flag(o.keep_going) + flag(o.profile is Some) + flag(
        o.features@.len() > 0,
    ) + flag(o.all_features) + flag(o.no_default_features) + flag(o.target@.len() > 0) + flag(
        o.target_dir is Some,
    )
}

/// The number of the other common options that are set.
pub open spec fn common_rest_count(o: CommonOptions) -> int {
    flag(o.message_format@.len() > 0) + flag(o.verbose > 0) + flag(o.color is Some) + flag(
        o.frozen,
    ) + flag(o.locked) + flag(o.offline) + flag(o.config@.len() > 0) + flag(
        o.unstable_flags@.len() > 0,
    ) + flag(o.timings is Some)
}

/// The number of Cargo's common options that are set.
pub open spec fn common_count(o: CommonOptions) -> int {
    common_head_count(o) + common_rest_count(o)
}

impl CommonOptions {
    /// Appends the first fields of the options.
    fn head_fields(&self, fields: &mut Vec<(String, FieldValue)>)
        ensures
            fields_view(final(fields)@) == common_head_fields(fields_view(old(fields)@), *self),
    {
        push_flag(fields, "quiet", self.quiet);
        match self.jobs {
            Some(j) => push_field(fields, "jobs", FieldValue::Int(j as i128)),
            None => {},
        }
        push_flag(fields, "keep_going", self.keep_going);
        push_opt_str(fields, "profile", &self.profile);
        push_strings_if_any(fields, "features", &self.features);
        push_flag(fields, "all_features", self.all_features);
        push_flag(fields, "no_default_features", self.no_default_features);
        push_strings_if_any(fields, "target", &self.target);
        push_opt_str(fields, "target_dir", &self.target_dir);
    }

    /// Appends the other fields of the options.
    fn rest_fields(&self, fields: &mut Vec<(String, FieldValue)>)
        ensures
            fields_view(final(fields)@) == common_rest_fields(fields_view(old(fields)@), *self),
    {
        push_strings_if_any(fields, "message_format", &self.message_format);
        if self.verbose > 0 {
            push_field(fields, "verbose", FieldValue::Int(self.verbose as i128));
        }
        push_opt_str(fields, "color", &self.color);
        push_flag(fields, "frozen", self.frozen);
        push_flag(fields, "locked", self.locked);
        push_flag(fields, "offline", self.offline);
        push_strings_if_any(fields, "config", &self.config);
        push_strings_if_any(fields, "unstable_flags", &self.unstable_flags);
        push_opt_strings(fields, "timings", &self.timings);
    }

    /// Appends the fields of the options: the flags that are set, the options that are
    /// given and the lists that are not empty.
    pub fn serialize_fields(&self, fields: &mut Vec<(String, FieldValue)>)
        ensures
            fields_view(final(fields)@) == common_fields(fields_view(old(fields)@), *self),
    {
        self.head_fields(fields);
        self.rest_fields(fields);
    }

    /// The number of the first options that are set.
    fn head_count(&self) -> (res: usize)
        ensures
            res == common_head_count(*self),
            res <= 9,
    {
        proof {
            crate::remote::lemma_flag(self.quiet);
            crate::remote::lemma_flag(self.jobs is Some);
            crate::remote::lemma_flag(self.keep_going);
            crate::remote::lemma_flag(self.profile is Some);
            crate::remote::lemma_flag(self.features@.len() > 0);
            crate::remote::lemma_flag(self.all_features);
            crate::remote::lemma_flag(self.no_default_features);
            crate::remote::lemma_flag(self.target@.len() > 0);
            crate::remote::lemma_flag(self.target_dir is Some);
        }
        let mut n: usize = 0;
        if self.quiet {
            n = n + 1;
        }
        if self.jobs.is_some() {
            n = n + 1;
        }
        if self.keep_going {
            n = n + 1;
        }
        if self.profile.is_some() {
            n = n + 1;
        }
        if self.features.len() > 0 {
            n = n + 1;
        }
        if self.all_features {
            n = n + 1;
        }
        if self.no_default_features {
            n = n + 1;
        }
        if self.target.len() > 0 {
            n = n + 1;
        }
        if self.target_dir.is_some() {
            n = n + 1;
        }
        n
    }

    /// The number of the other options that are set.
    fn rest_count(&self) -> (res: usize)
        ensures
            res == common_rest_count(*self),
            res <= 9,
    {
        proof {
            crate::remote::lemma_flag(self.message_format@.len() > 0);
            crate::remote::lemma_flag(self.verbose > 0);
            crate::remote::lemma_flag(self.color is Some);
            crate::remote::lemma_flag(self.frozen);
            crate::remote::lemma_flag(self.locked);
            crate::remote::lemma_flag(self.offline);
            crate::remote::lemma_flag(self.config@.len() > 0);
            crate::remote::lemma_flag(self.unstable_flags@.len() > 0);
            crate::remote::lemma_flag(self.timings is Some);
        }
        let mut n: usize = 0;
        if self.message_format.len() > 0 {
            n = n + 1;
        }
        if self.verbose > 0 {
            n = n + 1;
        }
        if self.color.is_some() {
            n = n + 1;
        }
        if self.frozen {
            n = n + 1;
        }
        if self.locked {
            n = n + 1;
        }
        if self.offline {
            n = n + 1;
        }
        if self.config.len() > 0 {
            n = n + 1;
        }
        if self.unstable_flags.len() > 0 {
            n = n + 1;
        }
        if self.timings.is_some() {
            n = n + 1;
        }
        n
    }

    /// The number of the options that are set.
    pub fn count_fields(&self) -> (res: usize)
        ensures
            res == common_count(*self),
            res <= 18,
    {
        self.head_count() + self.rest_count()
    }
}

/// `s` with the fields of TLS options appended: the files that are given.
pub open spec fn tls_fields(s: Seq<(Seq<char>, FieldView)>, t: TlsOptions) -> Seq<(Seq<char>, FieldView)> {
    let s1 = add_if(s, t.tls_cert is Some, "tls_cert"@, FieldView::Str(str_or_empty(t.tls_cert)));
    let s2 = add_if(s1, t.tls_key is Some, "tls_key"@, FieldView::Str(str_or_empty(t.tls_key)));
    add_if(s2, t.tls_ca is Some, "tls_ca"@, FieldView::Str(str_or_empty(t.tls_ca)))
}

/// The number of TLS files given.
pub open spec fn tls_count(t: TlsOptions) -> int {
    flag(t.tls_cert is Some) + flag(t.tls_key is Some) + flag(t.tls_ca is Some)
}

impl TlsOptions {
    /// Appends the fields of the options: the files that are given.
    pub fn serialize_fields(&self, fields: &mut Vec<(String, FieldValue)>)
        ensures
            fields_view(final(fields)@) == tls_fields(fields_view(old(fields)@), *self),
    {
        push_opt_str(fields, "tls_cert", &self.tls_cert);
        push_opt_str(fields, "tls_key", &self.tls_key);
        push_opt_str(fields, "tls_ca", &self.tls_ca);
    }

    /// The number of files given.
    pub fn count_fields(&self) -> (res: usize)
        ensures
            res == tls_count(*self),
    {
        crate::remote::flag_count(self.tls_cert.is_some()) + crate::remote::flag_count(
            self.tls_key.is_some(),
        ) + crate::remote::flag_count(self.tls_ca.is_some())
    }
}

/// `s` with the own fields of the watch options appended: the flags that are set, the
/// address when not empty, the port when not zero, the timeout and the routes.
pub open spec fn watch_head_fields(s: Seq<(Seq<char>, FieldView)>, w: Watch) -> Seq<
    (Seq<char>, FieldView),
> {
    let s1 = add_if(s, w.ignore_changes, "ignore_changes"@, FieldView::Bool(true));
    let s2 = add_if(s1, w.only_lambda_apis, "only_lambda_apis"@, FieldView::Bool(true));
    let s3 = add_if(
        s2,
        w.invoke_address@.len() > 0,
        "invoke_address"@,
        FieldView::Str(w.invoke_address@),
    );
    let s4 = add_if(s3, w.invoke_port != 0, "invoke_port"@, FieldView::Int(w.invoke_port as int));
    let s5 = add_if(s4, w.print_traces, "print_traces"@, FieldView::Bool(true));
    let s6 = add_if(s5, w.wait, "wait"@, FieldView::Bool(true));
    let s7 = add_if(s6, w.disable_cors, "disable_cors"@, FieldView::Bool(true));
    let s8 = add_if(
        s7,
        w.timeout is Some,
        "timeout"@,
        FieldView::Int(
            match w.timeout {
                Some(t) => t@ as int,
                None => 0,
            },
        ),
    );
    add_if(
        s8,
        w.router is Some,
        "router"@,
        FieldView::Routes(
            match w.router {
                Some(r) => r.raw_routes().map_values(|x: Route| route_view(x)),
                None => Seq::empty(),
            },
        ),
    )
}

/// `s` with the fields of the `cargo run` options appended, but for the common ones.
pub open spec fn run_fields(s: Seq<(Seq<char>, FieldView)>, w: Watch) -> Seq<(Seq<char>, FieldView)> {
    let o = w.cargo_opts;
    let s1 = add_if(s, o.manifest_path is Some, "manifest_path"@, FieldView::Str(str_or_empty(o.manifest_path)));
    let s2 = add_if(s1, o.release, "release"@, FieldView::Bool(true));
    let s3 = add_if(s2, o.ignore_rust_version, "ignore_rust_version"@, FieldView::Bool(true));
    let s4 = add_if(s3, o.unit_graph, "unit_graph"@, FieldView::Bool(true));
    let s5 = add_if(s4, o.packages@.len() > 0, "packages"@, FieldView::Strings(views(o.packages@)));
    let s6 = add_if(s5, o.bin@.len() > 0, "bin"@, FieldView::Strings(views(o.bin@)));
    let s7 = add_if(s6, o.example@.len() > 0, "example"@, FieldView::Strings(views(o.example@)));
    add_if(s7, o.args@.len() > 0, "args"@, FieldView::Strings(views(o.args@)))
}

/// The fields of the watch options: their own, those of the environment and TLS options,
/// those of `cargo run`, then Cargo's common options.
pub open spec fn watch_fields(w: Watch) -> Seq<(Seq<char>, FieldView)> {
    common_fields(
        run_fields(tls_fields(env_fields(watch_head_fields(Seq::empty(), w), w.env_options), w.tls_options), w),
        w.cargo_opts.common,
    )
}

/// The number of fields that the watch options announce.
pub open spec fn watch_count(w: Watch) -> int {
    let o = w.cargo_opts;
    (flag(w.ignore_changes) + flag(w.only_lambda_apis) + flag(w.invoke_address@.len() > 0) + flag(
        w.invoke_port != 0,
    ) + flag(w.print_traces) + flag(w.wait) + flag(w.disable_cors) + flag(w.timeout is Some)
        + flag(w.router is Some)) + (flag(o.manifest_path is Some) + flag(o.release) + flag(
        o.ignore_rust_version,
    ) + flag(o.unit_graph) + flag(o.packages@.len() > 0) + flag(o.bin@.len() > 0) + flag(
        o.example@.len() > 0,
    ) + flag(o.args@.len() > 0)) + common_count(o.common) + crate::deploy::env_options_count(
        w.env_options,
    ) + tls_count(w.tls_options)
}

impl Watch {
    /// Appends the own fields of the options.
    fn head_fields(&self, fields: &mut Vec<(String, FieldValue)>)
        ensures
            fields_view(final(fields)@) == watch_head_fields(fields_view(old(fields)@), *self),
    {
        push_flag(fields, "ignore_changes", self.ignore_changes);
        push_flag(fields, "only_lambda_apis", self.only_lambda_apis);
        if crate::text::chars_of(self.invoke_address.as_str()).len() > 0 {
            push_field(fields, "invoke_address", FieldValue::Str(self.invoke_address.clone()));
        }
        if self.invoke_port != 0 {
            push_field(fields, "invoke_port", FieldValue::Int(self.invoke_port as i128));
        }
        push_flag(fields, "print_traces", self.print_traces);
        push_flag(fields, "wait", self.wait);
        push_flag(fields, "disable_cors", self.disable_cors);
        match self.timeout {
            Some(t) => push_field(fields, "timeout", FieldValue::Int(t.seconds() as i128)),
            None => {},
        }
        match &self.router {
            Some(r) => push_field(fields, "router", FieldValue::Routes(r.routes())),
            None => {},
        }
    }

    /// Appends the fields of the `cargo run` options, but for the common ones.
    fn run_fields(&self, fields: &mut Vec<(String, FieldValue)>)
        ensures
            fields_view(final(fields)@) == run_fields(fields_view(old(fields)@), *self),
    {
        let o = &self.cargo_opts;
        push_opt_str(fields, "manifest_path", &o.manifest_path);
        push_flag(fields, "release", o.release);
        push_flag(fields, "ignore_rust_version", o.ignore_rust_version);
        push_flag(fields, "unit_graph", o.unit_graph);
        push_strings_if_any(fields, "packages", &o.packages);
        push_strings_if_any(fields, "bin", &o.bin);
        push_strings_if_any(fields, "example", &o.example);
        push_strings_if_any(fields, "args", &o.args);
    }

    /// The fields that the watch options serialize to: the flags that are set, the address
    /// when not empty, the port when not zero, the timeout and routes when given, then the
    /// environment, TLS, `cargo run` and common Cargo options.
    pub fn serialized_fields(&self) -> (res: Vec<(String, FieldValue)>)
        ensures
            fields_view(res@) == watch_fields(*self),
    {
        let mut fields: Vec<(String, FieldValue)> = Vec::new();
        assert(fields_view(fields@) =~= Seq::empty());
        self.head_fields(&mut fields);
        env_options_fields(&self.env_options, &mut fields);
        self.tls_options.serialize_fields(&mut fields);
        self.run_fields(&mut fields);
        self.cargo_opts.common.serialize_fields(&mut fields);
        fields
    }

    /// The number of the watch options' own fields that are set.
    fn own_count(&self) -> (res: usize)
        ensures
            res == flag(self.ignore_changes) + flag(self.only_lambda_apis) + flag(
                self.invoke_address@.len() > 0,
            ) + flag(self.invoke_port != 0) + flag(self.print_traces) + flag(self.wait) + flag(
                self.disable_cors,
            ) + flag(self.timeout is Some) + flag(self.router is Some),
            res <= 9,
    {
        proof {
            crate::remote::lemma_flag(self.ignore_changes);
            crate::remote::lemma_flag(self.only_lambda_apis);
            crate::remote::lemma_flag(self.invoke_address@.len() > 0);
            crate::remote::lemma_flag(self.invoke_port != 0);
            crate::remote::lemma_flag(self.print_traces);
            crate::remote::lemma_flag(self.wait);
            crate::remote::lemma_flag(self.disable_cors);
            crate::remote::lemma_flag(self.timeout is Some);
            crate::remote::lemma_flag(self.router is Some);
        }
        let mut n: usize = 0;
        if self.ignore_changes {
            n = n + 1;
        }
        if self.only_lambda_apis {
            n = n + 1;
        }
        if crate::text::chars_of(self.invoke_address.as_str()).len() > 0 {
            n = n + 1;
        }
        if self.invoke_port != 0 {
            n = n + 1;
        }
        if self.print_traces {
            n = n + 1;
        }
        if self.wait {
            n = n + 1;
        }
        if self.disable_cors {
            n = n + 1;
        }
        if self.timeout.is_some() {
            n = n + 1;
        }
        if self.router.is_some() {
            n = n + 1;
        }
        n
    }

    /// The number of the `cargo run` options that are set, but for the common ones.
    fn run_count(&self) -> (res: usize)
        ensures
            res == flag(self.cargo_opts.manifest_path is Some) + flag(self.cargo_opts.release)
                + flag(self.cargo_opts.ignore_rust_version) + flag(self.cargo_opts.unit_graph)
                + flag(self.cargo_opts.packages@.len() > 0) + flag(self.cargo_opts.bin@.len() > 0)
                + flag(self.cargo_opts.example@.len() > 0) + flag(self.cargo_opts.args@.len() > 0),
            res <= 8,
    {
        let o = &self.cargo_opts;
        proof {
            crate::remote::lemma_flag(o.manifest_path is Some);
            crate::remote::lemma_flag(o.release);
            crate::remote::lemma_flag(o.ignore_rust_version);
            crate::remote::lemma_flag(o.unit_graph);
            crate::remote::lemma_flag(o.packages@.len() > 0);
            crate::remote::lemma_flag(o.bin@.len() > 0);
            crate::remote::lemma_flag(o.example@.len() > 0);
            crate::remote::lemma_flag(o.args@.len() > 0);
        }
        let mut n: usize = 0;
        if o.manifest_path.is_some() {
            n = n + 1;
        }
        if o.release {
            n = n + 1;
        }
        if o.ignore_rust_version {
            n = n + 1;
        }
        if o.unit_graph {
            n = n + 1;
        }
        if o.packages.len() > 0 {
            n = n + 1;
        }
        if o.bin.len() > 0 {
            n = n + 1;
        }
        if o.example.len() > 0 {
            n = n + 1;
        }
        if o.args.len() > 0 {
            n = n + 1;
        }
        n
    }

    /// The number of fields that the watch options announce before writing them.
    pub fn count_fields(&self) -> (res: usize)
        ensures
            res == watch_count(*self),
    {
        let own = self.own_count();
        let run = self.run_count();
        let common = self.cargo_opts.common.count_fields();
        let env = self.env_options.count_fields();
        let tls = self.tls_options.count_fields();
        proof {
            crate::remote::lemma_flag(self.tls_options.tls_cert is Some);
            crate::remote::lemma_flag(self.tls_options.tls_key is Some);
            crate::remote::lemma_flag(self.tls_options.tls_ca is Some);
        }
        own + run + common + env + tls
    }
}

// ---------------------------------------------------------------------------
// The announced number of fields
// ---------------------------------------------------------------------------

/// Appending a field when a condition holds adds one field exactly when it holds.
proof fn lemma_add_if_len(s: Seq<(Seq<char>, FieldView)>, cond: bool, name: Seq<char>, v: FieldView)
    ensures
        add_if(s, cond, name, v).len() == s.len() + flag(cond),
{
    crate::remote::lemma_flag(cond);
}

/// The first fields of a function's settings are as many as their flags and options set.
proof fn lemma_function_head_len(s: Seq<(Seq<char>, FieldView)>, c: FunctionDeployConfig)
    ensures
        function_head_fields(s, c).len() == s.len() + flag(c.disable_function_url) + flag(
            c.enable_function_url,
        ) + flag(c.memory is Some) + flag(c.timeout is Some),
{
    crate::remote::lemma_flag(c.disable_function_url);
    crate::remote::lemma_flag(c.enable_function_url);
    crate::remote::lemma_flag(c.memory is Some);
    crate::remote::lemma_flag(c.timeout is Some);
}

/// The middle fields of a function's settings are as many as their options set.
proof fn lemma_function_middle_len(s: Seq<(Seq<char>, FieldView)>, c: FunctionDeployConfig)
    ensures
        function_middle_fields(s, c).len() == s.len() + flag(c.runtime is Some) + flag(
            c.tracing is Some,
        ) + flag(c.role is Some) + flag(crate::deploy::has_layers(c.layer)) + flag(
            c.description is Some,
        ) + flag(c.log_retention is Some),
{
    crate::remote::lemma_flag(c.runtime is Some);
    crate::remote::lemma_flag(c.tracing is Some);
    crate::remote::lemma_flag(c.role is Some);
    crate::remote::lemma_flag(crate::deploy::has_layers(c.layer));
    crate::remote::lemma_flag(layers_given(c.layer));
    crate::remote::lemma_flag(c.description is Some);
    crate::remote::lemma_flag(c.log_retention is Some);
}

/// Network options write their lists that are given, and always the IPv6 flag.
proof fn lemma_vpc_len(s: Seq<(Seq<char>, FieldView)>, v: VpcConfig)
    ensures
        vpc_fields(s, v).len() == s.len() + crate::deploy::vpc_count(v) + (if v.ipv6_allowed_for_dual_stack {
            0int
        } else {
            1int
        }),
{
    crate::remote::lemma_flag(v.subnet_ids is Some);
    crate::remote::lemma_flag(v.security_group_ids is Some);
    crate::remote::lemma_flag(v.ipv6_allowed_for_dual_stack);
}

/// Environment options write as many fields as they count.
proof fn lemma_env_len(s: Seq<(Seq<char>, FieldView)>, e: EnvOptions)
    ensures
        env_fields(s, e).len() == s.len() + crate::deploy::env_options_count(e),
{
    crate::remote::lemma_flag(e.env_var is Some);
    crate::remote::lemma_flag(e.env_file is Some);
}

/// A function's settings write as many fields as they count, and one more when they
/// hold network options without the IPv6 flag, whose field is written but not counted.
proof fn lemma_function_fields_len(s: Seq<(Seq<char>, FieldView)>, c: FunctionDeployConfig)
    ensures
        function_fields(s, c).len() == s.len() + fields_count(c) + (if c.vpc matches Some(v)
            && !v.ipv6_allowed_for_dual_stack {
            1int
        } else {
            0int
        }),
{
    let h = function_head_fields(s, c);
    let m = function_middle_fields(h, c);
    lemma_function_head_len(s, c);
    lemma_function_middle_len(h, c);
    let v = match c.vpc {
        Some(v) => vpc_fields(m, v),
        None => m,
    };
    if let Some(vc) = c.vpc {
        lemma_vpc_len(m, vc);
    }
    if let Some(e) = c.env_options {
        lemma_env_len(v, e);
    }
}

/// The first fields of the deploy options are as many as their options set.
proof fn lemma_deploy_head_len(s: Seq<(Seq<char>, FieldView)>, d: Deploy)
    ensures
        deploy_head_fields(s, d).len() == s.len() + flag(d.manifest_path is Some) + flag(
            d.lambda_dir is Some,
        ) + flag(d.binary_path is Some) + flag(d.binary_name is Some) + flag(d.s3_bucket is Some)
            + flag(d.s3_key is Some) + flag(d.extension) + flag(d.internal),
{
    crate::remote::lemma_flag(d.manifest_path is Some);
    crate::remote::lemma_flag(d.lambda_dir is Some);
    crate::remote::lemma_flag(d.binary_path is Some);
    crate::remote::lemma_flag(d.binary_name is Some);
    crate::remote::lemma_flag(d.s3_bucket is Some);
    crate::remote::lemma_flag(d.s3_key is Some);
    crate::remote::lemma_flag(d.extension);
    crate::remote::lemma_flag(d.internal);
}

/// The other fields of the deploy options are as many as their options set.
proof fn lemma_deploy_rest_len(s: Seq<(Seq<char>, FieldView)>, d: Deploy)
    ensures
        deploy_rest_fields(s, d).len() == s.len() + flag(d.compatible_runtimes is Some) + flag(
            d.output_format is Some,
        ) + flag(d.tag is Some) + flag(d.include_paths is Some) + flag(d.dry) + flag(
            d.name is Some,
        ),
{
    crate::remote::lemma_flag(d.compatible_runtimes is Some);
    crate::remote::lemma_flag(d.output_format is Some);
    crate::remote::lemma_flag(d.tag is Some);
    crate::remote::lemma_flag(d.include_paths is Some);
    crate::remote::lemma_flag(d.dry);
    crate::remote::lemma_flag(d.name is Some);
}

/// Account options write as many fields as they count.
proof fn lemma_remote_len(s: Seq<(Seq<char>, FieldView)>, r: RemoteConfig)
    ensures
        remote_fields(s, r).len() == s.len() + flag(r.profile is Some) + flag(r.region is Some)
            + flag(r.alias is Some) + flag(r.retry_attempts is Some) + flag(r.endpoint_url is Some),
{
    crate::remote::lemma_flag(r.profile is Some);
    crate::remote::lemma_flag(r.region is Some);
    crate::remote::lemma_flag(r.alias is Some);
    crate::remote::lemma_flag(r.retry_attempts is Some);
    crate::remote::lemma_flag(r.endpoint_url is Some);
}

/// The number of fields that the deploy options announce is the number they write,
/// except for network options without the IPv6 flag, whose field is written uncounted.
pub proof fn law_announced_count(d: Deploy)
    requires
        !(d.function_config.vpc matches Some(v) && !v.ipv6_allowed_for_dual_stack),
    ensures
        deploy_fields(d).len() == deploy_count(d),
{
    let head = deploy_head_fields(Seq::empty(), d);
    lemma_deploy_head_len(Seq::empty(), d);
    let own = deploy_rest_fields(head, d);
    lemma_deploy_rest_len(head, d);
    let m = remote_fields(own, d.remote_config);
    lemma_remote_len(own, d.remote_config);
    lemma_function_fields_len(m, d.function_config);
}
/// The own fields of the watch options are as many as they count.
proof fn lemma_watch_head_len(s: Seq<(Seq<char>, FieldView)>, w: Watch)
    ensures
        watch_head_fields(s, w).len() == s.len() + flag(w.ignore_changes) + flag(w.only_lambda_apis)
            + flag(w.invoke_address@.len() > 0) + flag(w.invoke_port != 0) + flag(w.print_traces)
            + flag(w.wait) + flag(w.disable_cors) + flag(w.timeout is Some) + flag(w.router is Some),
{
    crate::remote::lemma_flag(w.ignore_changes);
    crate::remote::lemma_flag(w.only_lambda_apis);
    crate::remote::lemma_flag(w.invoke_address@.len() > 0);
    crate::remote::lemma_flag(w.invoke_port != 0);
    crate::remote::lemma_flag(w.print_traces);
    crate::remote::lemma_flag(w.wait);
    crate::remote::lemma_flag(w.disable_cors);
    crate::remote::lemma_flag(w.timeout is Some);
    crate::remote::lemma_flag(w.router is Some);
}

/// The fields of the `cargo run` options are as many as they count.
proof fn lemma_run_len(s: Seq<(Seq<char>, FieldView)>, w: Watch)
    ensures
        run_fields(s, w).len() == s.len() + flag(w.cargo_opts.manifest_path is Some) + flag(
            w.cargo_opts.release,
        ) + flag(w.cargo_opts.ignore_rust_version) + flag(w.cargo_opts.unit_graph) + flag(
            w.cargo_opts.packages@.len() > 0,
        ) + flag(w.cargo_opts.bin@.len() > 0) + flag(w.cargo_opts.example@.len() > 0) + flag(
            w.cargo_opts.args@.len() > 0,
        ),
{
    let o = w.cargo_opts;
    crate::remote::lemma_flag(o.manifest_path is Some);
    crate::remote::lemma_flag(o.release);
    crate::remote::lemma_flag(o.ignore_rust_version);
    crate::remote::lemma_flag(o.unit_graph);
    crate::remote::lemma_flag(o.packages@.len() > 0);
    crate::remote::lemma_flag(o.bin@.len() > 0);
    crate::remote::lemma_flag(o.example@.len() > 0);
    crate::remote::lemma_flag(o.args@.len() > 0);
}

/// The first fields of Cargo's common options are as many as they count.
proof fn lemma_common_head_len(s: Seq<(Seq<char>, FieldView)>, o: CommonOptions)
    ensures
        common_head_fields(s, o).len() == s.len() + common_head_count(o),
{
    crate::remote::lemma_flag(o.quiet);
    crate::remote::lemma_flag(o.jobs is Some);
    crate::remote::lemma_flag(o.keep_going);
    crate::remote::lemma_flag(o.profile is Some);
    crate::remote::lemma_flag(o.features@.len() > 0);
    crate::remote::lemma_flag(o.all_features);
    crate::remote::lemma_flag(o.no_default_features);
    crate::remote::lemma_flag(o.target@.len() > 0);
    crate::remote::lemma_flag(o.target_dir is Some);
}

/// The other fields of Cargo's common options are as many as they count.
proof fn lemma_common_rest_len(s: Seq<(Seq<char>, FieldView)>, o: CommonOptions)
    ensures
        common_rest_fields(s, o).len() == s.len() + common_rest_count(o),
{
    crate::remote::lemma_flag(o.message_format@.len() > 0);
    crate::remote::lemma_flag(o.verbose > 0);
    crate::remote::lemma_flag(o.color is Some);
    crate::remote::lemma_flag(o.frozen);
    crate::remote::lemma_flag(o.locked);
    crate::remote::lemma_flag(o.offline);
    crate::remote::lemma_flag(o.config@.len() > 0);
    crate::remote::lemma_flag(o.unstable_flags@.len() > 0);
    crate::remote::lemma_flag(o.timings is Some);
}

/// The fields of Cargo's common options are as many as they count.
proof fn lemma_common_len(s: Seq<(Seq<char>, FieldView)>, o: CommonOptions)
    ensures
        common_fields(s, o).len() == s.len() + common_count(o),
{
    lemma_common_head_len(s, o);
    lemma_common_rest_len(common_head_fields(s, o), o);
}

/// The fields of TLS options are as many as they count.
proof fn lemma_tls_len(s: Seq<(Seq<char>, FieldView)>, t: TlsOptions)
    ensures
        tls_fields(s, t).len() == s.len() + tls_count(t),
{
    crate::remote::lemma_flag(t.tls_cert is Some);
    crate::remote::lemma_flag(t.tls_key is Some);
    crate::remote::lemma_flag(t.tls_ca is Some);
}

/// The number of fields that the watch options announce is the number they write.
pub proof fn law_watch_announced_count(w: Watch)
    ensures
        watch_fields(w).len() == watch_count(w),
{
    let h = watch_head_fields(Seq::empty(), w);
    lemma_watch_head_len(Seq::empty(), w);
    let e = env_fields(h, w.env_options);
    lemma_env_len(h, w.env_options);
    let t = tls_fields(e, w.tls_options);
    lemma_tls_len(e, w.tls_options);
    let r = run_fields(t, w);
    lemma_run_len(t, w);
    lemma_common_len(r, w.cargo_opts.common);
}

// ---------------------------------------------------------------------------
// Build options
// ---------------------------------------------------------------------------

/// The name of a build's output format, in snake case.
pub open spec fn build_format_name(f: BuildOutputFormat) -> Seq<char> {
    match f {
        BuildOutputFormat::Binary => "binary"@,
        BuildOutputFormat::Zip => "zip"@,
    }
}

/// `s` with the own fields of the build options appended: the options given, then the
/// flags that are set.
pub open spec fn build_head_fields(s: Seq<(Seq<char>, FieldView)>, b: Build) -> Seq<
    (Seq<char>, FieldView),
> {
    let s1 = add_if(
        s,
        b.output_format is Some,
        "output_format"@,
        FieldView::Str(
            match b.output_format {
                Some(f) => build_format_name(f),
                None => Seq::empty(),
            },
        ),
    );
    let s2 = add_if(s1, b.lambda_dir is Some, "lambda_dir"@, FieldView::Str(str_or_empty(b.lambda_dir)));
    let s3 = add_if(s2, b.flatten is Some, "flatten"@, FieldView::Str(str_or_empty(b.flatten)));
    let s4 = add_if(
        s3,
        b.compiler is Some,
        "compiler"@,
        FieldView::Compiler(
            match b.compiler {
                Some(c) => compiler_view(c),
                None => (0, None, None),
            },
        ),
    );
    let s5 = add_if(s4, b.includes is Some, "include"@, FieldView::Strings(strs_or_empty(b.includes)));
    let s6 = add_if(s5, b.arm64, "arm64"@, FieldView::Bool(true));
    let s7 = add_if(s6, b.x86_64, "x86_64"@, FieldView::Bool(true));
    let s8 = add_if(s7, b.extension, "extension"@, FieldView::Bool(true));
    let s9 = add_if(s8, b.internal, "internal"@, FieldView::Bool(true));
    let s10 = add_if(s9, b.skip_target_check, "skip_target_check"@, FieldView::Bool(true));
    add_if(s10, b.disable_optimizations, "disable_optimizations"@, FieldView::Bool(true))
}

/// `s` with the first fields of the `cargo build` options appended.
pub open spec fn cargo_build_head(s: Seq<(Seq<char>, FieldView)>, b: Build) -> Seq<
    (Seq<char>, FieldView),
> {
    let o = b.cargo_opts;
    let s1 = add_if(s, o.manifest_path is Some, "manifest_path"@, FieldView::Str(str_or_empty(o.manifest_path)));
    let s2 = add_if(s1, o.release, "release"@, FieldView::Bool(true));
    let s3 = add_if(s2, o.bins, "bins"@, FieldView::Bool(true));
    let s4 = add_if(s3, o.bin@.len() > 0, "bin"@, FieldView::Strings(views(o.bin@)));
    let s5 = add_if(s4, o.examples, "examples"@, FieldView::Bool(true));
    let s6 = add_if(s5, o.example@.len() > 0, "example"@, FieldView::Strings(views(o.example@)));
    let s7 = add_if(s6, o.all_targets, "all_targets"@, FieldView::Bool(true));
    add_if(s7, o.packages@.len() > 0, "packages"@, FieldView::Strings(views(o.packages@)))
}

/// `s` with the other fields of the `cargo build` options appended, but for the common ones.
pub open spec fn cargo_build_rest(s: Seq<(Seq<char>, FieldView)>, b: Build) -> Seq<
    (Seq<char>, FieldView),
> {
    let o = b.cargo_opts;
    let s1 = add_if(s, o.workspace, "workspace"@, FieldView::Bool(true));
    let s2 = add_if(s1, o.exclude@.len() > 0, "exclude"@, FieldView::Strings(views(o.exclude@)));
    let s3 = add_if(s2, o.tests, "tests"@, FieldView::Bool(true));
    let s4 = add_if(s3, o.test@.len() > 0, "test"@, FieldView::Strings(views(o.test@)));
    let s5 = add_if(s4, o.benches, "benches"@, FieldView::Bool(true));
    add_if(s5, o.bench@.len() > 0, "bench"@, FieldView::Strings(views(o.bench@)))
}

/// `s` with the fields of the `cargo build` options appended, but for the common ones.
pub open spec fn cargo_build_fields(s: Seq<(Seq<char>, FieldView)>, b: Build) -> Seq<
    (Seq<char>, FieldView),
> {
    cargo_build_rest(cargo_build_head(s, b), b)
}

/// The fields of the build options: their own, those of `cargo build`, then Cargo's common
/// options.
pub open spec fn build_fields(b: Build) -> Seq<(Seq<char>, FieldView)> {
    common_fields(cargo_build_fields(build_head_fields(Seq::empty(), b), b), b.cargo_opts.common)
}

/// The number of the build options given.
pub open spec fn build_options_count(b: Build) -> int {
    flag(b.output_format is Some) + flag(b.lambda_dir is Some) + flag(b.flatten is Some) + flag(
        b.compiler is Some,
    ) + flag(b.includes is Some)
}

/// The number of the build flags that are set.
pub open spec fn build_flags_count(b: Build) -> int {
    flag(b.arm64) + flag(b.x86_64) + flag(b.extension) + flag(b.internal) + flag(
        b.skip_target_check,
    ) + flag(b.disable_optimizations)
}

/// The number of the first `cargo build` options that are set.
pub open spec fn cargo_head_count(b: Build) -> int {
    let o = b.cargo_opts;
    flag(o.manifest_path is Some) + flag(o.bins) + flag(o.bin@.len() > 0) + flag(o.examples)
        + flag(o.example@.len() > 0) + flag(o.all_targets) + flag(o.packages@.len() > 0)
}

/// The number of the other `cargo build` options that are set, but for the common ones.
pub open spec fn cargo_rest_count(b: Build) -> int {
    let o = b.cargo_opts;
    flag(o.workspace) + flag(o.exclude@.len() > 0) + flag(o.tests) + flag(o.test@.len() > 0)
        + flag(o.benches) + flag(o.bench@.len() > 0)
}

/// The number of fields that the build options announce. `release` is written when set
/// but not counted.
pub open spec fn build_count(b: Build) -> int {
    build_options_count(b) + build_flags_count(b) + cargo_head_count(b) + cargo_rest_count(b)
        + common_count(b.cargo_opts.common)
}

impl Build {
    /// Appends the own fields of the options.
    fn head_fields(&self, fields: &mut Vec<(String, FieldValue)>)
        ensures
            fields_view(final(fields)@) == build_head_fields(fields_view(old(fields)@), *self),
    {
        match self.output_format {
            Some(BuildOutputFormat::Binary) => push_field(
                fields,
                "output_format",
                FieldValue::Str(crate::text::owned("binary")),
            ),
            Some(BuildOutputFormat::Zip) => push_field(
                fields,
                "output_format",
                FieldValue::Str(crate::text::owned("zip")),
            ),
            None => {},
        }
        push_opt_str(fields, "lambda_dir", &self.lambda_dir);
        push_opt_str(fields, "flatten", &self.flatten);
        match &self.compiler {
            Some(c) => push_field(fields, "compiler", FieldValue::Compiler(c.copy())),
            None => {},
        }
        push_opt_strings(fields, "include", &self.includes);
        push_flag(fields, "arm64", self.arm64);
        push_flag(fields, "x86_64", self.x86_64);
        push_flag(fields, "extension", self.extension);
        push_flag(fields, "internal", self.internal);
        push_flag(fields, "skip_target_check", self.skip_target_check);
        push_flag(fields, "disable_optimizations", self.disable_optimizations);
    }

    /// Appends the fields of the `cargo build` options, but for the common ones.
    fn cargo_fields(&self, fields: &mut Vec<(String, FieldValue)>)
        ensures
            fields_view(final(fields)@) == cargo_build_fields(fields_view(old(fields)@), *self),
    {
        let o = &self.cargo_opts;
        push_opt_str(fields, "manifest_path", &o.manifest_path);
        push_flag(fields, "release", o.release);
        push_flag(fields, "bins", o.bins);
        push_strings_if_any(fields, "bin", &o.bin);
        push_flag(fields, "examples", o.examples);
        push_strings_if_any(fields, "example", &o.example);
        push_flag(fields, "all_targets", o.all_targets);
        push_strings_if_any(fields, "packages", &o.packages);
        push_flag(fields, "workspace", o.workspace);
        push_strings_if_any(fields, "exclude", &o.exclude);
        push_flag(fields, "tests", o.tests);
        push_strings_if_any(fields, "test", &o.test);
        push_flag(fields, "benches", o.benches);
        push_strings_if_any(fields, "bench", &o.bench);
    }

    /// The fields that the build options serialize to: the options given and the flags that
    /// are set, then those of `cargo build`, then the common Cargo options.
    pub fn serialized_fields(&self) -> (res: Vec<(String, FieldValue)>)
        ensures
            fields_view(res@) == build_fields(*self),
    {
        let mut fields: Vec<(String, FieldValue)> = Vec::new();
        assert(fields_view(fields@) =~= Seq::empty());
        self.head_fields(&mut fields);
        self.cargo_fields(&mut fields);
        self.cargo_opts.common.serialize_fields(&mut fields);
        fields
    }

    /// The number of the build options given.
    fn options_count(&self) -> (res: usize)
        ensures
            res == build_options_count(*self),
            res <= 5,
    {
        proof {
            crate::remote::lemma_flag(self.output_format is Some);
            crate::remote::lemma_flag(self.lambda_dir is Some);
            crate::remote::lemma_flag(self.flatten is Some);
            crate::remote::lemma_flag(self.compiler is Some);
            crate::remote::lemma_flag(self.includes is Some);
        }
        let mut n: usize = 0;
        if self.output_format.is_some() {
            n = n + 1;
        }
        if self.lambda_dir.is_some() {
            n = n + 1;
        }
        if self.flatten.is_some() {
            n = n + 1;
        }
        if self.compiler.is_some() {
            n = n + 1;
        }
        if self.includes.is_some() {
            n = n + 1;
        }
        n
    }

    /// The number of the build flags that are set.
    fn flags_count(&self) -> (res: usize)
        ensures
            res == build_flags_count(*self),
            res <= 6,
    {
        proof {
            crate::remote::lemma_flag(self.arm64);
            crate::remote::lemma_flag(self.x86_64);
            crate::remote::lemma_flag(self.extension);
            crate::remote::lemma_flag(self.internal);
            crate::remote::lemma_flag(self.skip_target_check);
            crate::remote::lemma_flag(self.disable_optimizations);
        }
        let mut n: usize = 0;
        if self.arm64 {
            n = n + 1;
        }
        if self.x86_64 {
            n = n + 1;
        }
        if self.extension {
            n = n + 1;
        }
        if self.internal {
            n = n + 1;
        }
        if self.skip_target_check {
            n = n + 1;
        }
        if self.disable_optimizations {
            n = n + 1;
        }
        n
    }

    /// The number of the first `cargo build` options that are set.
    fn cargo_head_count(&self) -> (res: usize)
        ensures
            res == cargo_head_count(*self),
            res <= 7,
    {
        let o = &self.cargo_opts;
        proof {
            crate::remote::lemma_flag(o.manifest_path is Some);
            crate::remote::lemma_flag(o.bins);
            crate::remote::lemma_flag(o.bin@.len() > 0);
            crate::remote::lemma_flag(o.examples);
            crate::remote::lemma_flag(o.example@.len() > 0);
            crate::remote::lemma_flag(o.all_targets);
            crate::remote::lemma_flag(o.packages@.len() > 0);
        }
        let mut n: usize = 0;
        if o.manifest_path.is_some() {
            n = n + 1;
        }
        if o.bins {
            n = n + 1;
        }
        if o.bin.len() > 0 {
            n = n + 1;
        }
        if o.examples {
            n = n + 1;
        }
        if o.example.len() > 0 {
            n = n + 1;
        }
        if o.all_targets {
            n = n + 1;
        }
        if o.packages.len() > 0 {
            n = n + 1;
        }
        n
    }

    /// The number of the other `cargo build` options that are set, but for the common ones.
    fn cargo_rest_count(&self) -> (res: usize)
        ensures
            res == cargo_rest_count(*self),
            res <= 6,
    {
        let o = &self.cargo_opts;
        proof {
            crate::remote::lemma_flag(o.workspace);
            crate::remote::lemma_flag(o.exclude@.len() > 0);
            crate::remote::lemma_flag(o.tests);
            crate::remote::lemma_flag(o.test@.len() > 0);
            crate::remote::lemma_flag(o.benches);
            crate::remote::lemma_flag(o.bench@.len() > 0);
        }
        let mut n: usize = 0;
        if o.workspace {
            n = n + 1;
        }
        if o.exclude.len() > 0 {
            n = n + 1;
        }
        if o.tests {
            n = n + 1;
        }
        if o.test.len() > 0 {
            n = n + 1;
        }
        if o.benches {
            n = n + 1;
        }
        if o.bench.len() > 0 {
            n = n + 1;
        }
        n
    }

    /// The number of fields that the build options announce before writing them.
    pub fn count_fields(&self) -> (res: usize)
        ensures
            res == build_count(*self),
    {
        let a = self.options_count();
        let b = self.flags_count();
        let c = self.cargo_head_count();
        let d = self.cargo_rest_count();
        let common = self.cargo_opts.common.count_fields();
        a + b + c + d + common
    }
}

/// The own fields of the build options are as many as they count.
#[verifier::rlimit(80)]
proof fn lemma_build_head_len(s: Seq<(Seq<char>, FieldView)>, b: Build)
    ensures
        build_head_fields(s, b).len() == s.len() + build_options_count(b) + build_flags_count(b),
{
    crate::remote::lemma_flag(b.output_format is Some);
    crate::remote::lemma_flag(b.lambda_dir is Some);
    crate::remote::lemma_flag(b.flatten is Some);
    crate::remote::lemma_flag(b.compiler is Some);
    crate::remote::lemma_flag(b.includes is Some);
    crate::remote::lemma_flag(b.arm64);
    crate::remote::lemma_flag(b.x86_64);
    crate::remote::lemma_flag(b.extension);
    crate::remote::lemma_flag(b.internal);
    crate::remote::lemma_flag(b.skip_target_check);
    crate::remote::lemma_flag(b.disable_optimizations);
}

/// The first `cargo build` fields are as many as they count, and one more for `release`.
#[verifier::rlimit(80)]
proof fn lemma_cargo_head_len(s: Seq<(Seq<char>, FieldView)>, b: Build)
    ensures
        cargo_build_head(s, b).len() == s.len() + cargo_head_count(b) + flag(b.cargo_opts.release),
{
    let o = b.cargo_opts;
    crate::remote::lemma_flag(o.manifest_path is Some);
    crate::remote::lemma_flag(o.release);
    crate::remote::lemma_flag(o.bins);
    crate::remote::lemma_flag(o.bin@.len() > 0);
    crate::remote::lemma_flag(o.examples);
    crate::remote::lemma_flag(o.example@.len() > 0);
    crate::remote::lemma_flag(o.all_targets);
    crate::remote::lemma_flag(o.packages@.len() > 0);
}

/// The other `cargo build` fields are as many as they count.
proof fn lemma_cargo_rest_len(s: Seq<(Seq<char>, FieldView)>, b: Build)
    ensures
        cargo_build_rest(s, b).len() == s.len() + cargo_rest_count(b),
{
    let o = b.cargo_opts;
    crate::remote::lemma_flag(o.workspace);
    crate::remote::lemma_flag(o.exclude@.len() > 0);
    crate::remote::lemma_flag(o.tests);
    crate::remote::lemma_flag(o.test@.len() > 0);
    crate::remote::lemma_flag(o.benches);
    crate::remote::lemma_flag(o.bench@.len() > 0);
}

/// The number of fields that the build options announce is the number they write, but for
/// a release build, whose `release` field is written and not counted.
pub proof fn law_build_announced_count(b: Build)
    requires
        !b.cargo_opts.release,
    ensures
        build_fields(b).len() == build_count(b),
{
    let h = build_head_fields(Seq::empty(), b);
    lemma_build_head_len(Seq::empty(), b);
    let c0 = cargo_build_head(h, b);
    lemma_cargo_head_len(h, b);
    let c = cargo_build_rest(c0, b);
    lemma_cargo_rest_len(c0, b);
    crate::remote::lemma_flag(b.cargo_opts.release);
    lemma_common_len(c, b.cargo_opts.common);
}

} // verus!
