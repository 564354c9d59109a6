//! Options of the `deploy` command and what they resolve to.
use vstd::prelude::*;
use crate::env::{EnvOptions, environment, map_or_empty};
use crate::error::MetadataError;
use crate::lambda::{Memory, Timeout, Tracing, tracing_name};
use crate::remote::{RemoteConfig, flag, flag_count};
use crate::strmap::StringMap;
use crate::text::{join, split_once_spec, views};

verus! {

/// The manifest that commands read when no other is given.
pub const DEFAULT_MANIFEST_PATH: &'static str = "Cargo.toml";

/// The runtimes that extensions are compatible with when no others are given.
pub const DEFAULT_COMPATIBLE_RUNTIMES: &'static str = "provided.al2,provided.al2023";

/// The runtime that functions are deployed with when no other is given.
pub const DEFAULT_RUNTIME: &'static str = "provided.al2023";

/// How the result of a deploy is printed.
#[derive(Clone, Copy, Debug, PartialEq, Eq, Structural)]
pub enum OutputFormat {
    Text,
    Json,
}

/// Network settings of a function in a VPC.
#[derive(Debug)]
pub struct VpcConfig {
    /// Subnet IDs to associate the function with.
    pub subnet_ids: Option<Vec<String>>,
    /// Security group IDs to associate the function with.
    pub security_group_ids: Option<Vec<String>>,
    /// Whether outbound IPv6 traffic is allowed on dual-stack subnets.
    pub ipv6_allowed_for_dual_stack: bool,
}

impl VpcConfig {
    /// No settings.
    pub fn default() -> (res: VpcConfig)
        ensures
            res.subnet_ids is None,
            res.security_group_ids is None,
            !res.ipv6_allowed_for_dual_stack,
    {
        VpcConfig { subnet_ids: None, security_group_ids: None, ipv6_allowed_for_dual_stack: false }
    }

    /// How many of the settings are given.
    pub fn count_fields(&self) -> (res: usize)
        ensures
            res == flag(self.subnet_ids is Some) + flag(self.security_group_ids is Some) + flag(
                self.ipv6_allowed_for_dual_stack,
            ),
            res <= 3,
    {
        flag_count(self.subnet_ids.is_some()) + flag_count(self.security_group_ids.is_some())
            + flag_count(self.ipv6_allowed_for_dual_stack)
    }

    /// Whether any setting differs from the defaults, so that the function's network
    /// configuration needs an update.
    pub fn should_update(&self) -> (res: bool)
        ensures
            res == (self.subnet_ids is Some || self.security_group_ids is Some
                || self.ipv6_allowed_for_dual_stack),
    {
        self.subnet_ids.is_some() || self.security_group_ids.is_some()
            || self.ipv6_allowed_for_dual_stack
    }
}

/// Settings of the function that a deploy creates or updates.
#[derive(Debug)]
pub struct FunctionDeployConfig {
    pub enable_function_url: bool,
    pub disable_function_url: bool,
    pub memory: Option<Memory>,
    pub timeout: Option<Timeout>,
    pub env_options: Option<EnvOptions>,
    pub tracing: Option<Tracing>,
    pub role: Option<String>,
    pub layer: Option<Vec<String>>,
    pub vpc: Option<VpcConfig>,
    pub runtime: Option<String>,
    pub description: Option<String>,
    pub log_retention: Option<i32>,
}

/// The number of options set in `EnvOptions`.
pub open spec fn env_options_count(e: EnvOptions) -> int {
    flag(e.env_var is Some) + flag(e.env_file is Some)
}

/// The number of settings given in `VpcConfig`.
pub open spec fn vpc_count(v: VpcConfig) -> int {
    flag(v.subnet_ids is Some) + flag(v.security_group_ids is Some) + flag(
        v.ipv6_allowed_for_dual_stack,
    )
}

/// Whether a list of layers is given and not empty.
pub open spec fn has_layers(l: Option<Vec<String>>) -> bool {
    match l {
        Some(v) => v@.len() > 0,
        None => false,
    }
}

/// The number of settings given in an optional `VpcConfig`.
pub open spec fn opt_vpc_count(v: Option<VpcConfig>) -> int {
    match v {
        Some(v) => vpc_count(v),
        None => 0,
    }
}

/// The number of options set in an optional `EnvOptions`.
pub open spec fn opt_env_count(e: Option<EnvOptions>) -> int {
    match e {
        Some(e) => env_options_count(e),
        None => 0,
    }
}

/// How many settings of a function are given; an empty layer list counts as none.
pub open spec fn fields_count(c: FunctionDeployConfig) -> int {
    (flag(c.disable_function_url) + flag(c.enable_function_url) + flag(has_layers(c.layer)) + flag(
        c.memory is Some,
    ) + flag(c.timeout is Some)) + (flag(c.tracing is Some) + flag(c.role is Some) + flag(
        c.runtime is Some,
    ) + flag(c.description is Some) + flag(c.log_retention is Some)) + opt_vpc_count(c.vpc)
        + opt_env_count(c.env_options)
}

/// The network options give at most three fields.
proof fn lemma_vpc_count_bound(v: Option<VpcConfig>)
    ensures
        0 <= opt_vpc_count(v) <= 3,
{
    if let Some(v) = v {
        crate::remote::lemma_flag(v.subnet_ids is Some);
        crate::remote::lemma_flag(v.security_group_ids is Some);
        crate::remote::lemma_flag(v.ipv6_allowed_for_dual_stack);
    }
}

/// The environment options give at most two fields.
proof fn lemma_env_count_bound(e: Option<EnvOptions>)
    ensures
        0 <= opt_env_count(e) <= 2,
{
    if let Some(e) = e {
        crate::remote::lemma_flag(e.env_var is Some);
        crate::remote::lemma_flag(e.env_file is Some);
    }
}

/// A function's settings give at most fifteen fields.
pub proof fn lemma_fields_count_bound(c: FunctionDeployConfig)
    ensures
        0 <= fields_count(c) <= 15,
{
    crate::remote::lemma_flag(c.disable_function_url);
    crate::remote::lemma_flag(c.enable_function_url);
    crate::remote::lemma_flag(has_layers(c.layer));
    crate::remote::lemma_flag(c.memory is Some);
    crate::remote::lemma_flag(c.timeout is Some);
    crate::remote::lemma_flag(c.tracing is Some);
    crate::remote::lemma_flag(c.role is Some);
    crate::remote::lemma_flag(c.runtime is Some);
    crate::remote::lemma_flag(c.description is Some);
    crate::remote::lemma_flag(c.log_retention is Some);
    lemma_vpc_count_bound(c.vpc);
    lemma_env_count_bound(c.env_options);
}

/// Function settings with nothing set.
pub open spec fn no_function_settings(c: FunctionDeployConfig) -> bool {
    &&& !c.enable_function_url
    &&& !c.disable_function_url
    &&& c.memory is None
    &&& c.timeout is None
    &&& c.env_options is None
    &&& c.tracing is None
    &&& c.role is None
    &&& c.layer is None
    &&& c.vpc is None
    &&& c.runtime is None
    &&& c.description is None
    &&& c.log_retention is None
}

impl FunctionDeployConfig {
    /// No settings.
    pub fn default() -> (res: FunctionDeployConfig)
        ensures
            no_function_settings(res),
            !res.enable_function_url,
            !res.disable_function_url,
            res.memory is None,
            res.timeout is None,
            res.env_options is None,
            res.tracing is None,
            res.role is None,
            res.layer is None,
            res.vpc is None,
            res.runtime is None,
            res.description is None,
            res.log_retention is None,
    {
        FunctionDeployConfig {
            enable_function_url: false,
            disable_function_url: false,
            memory: None,
            timeout: None,
            env_options: None,
            tracing: None,
            role: None,
            layer: None,
            vpc: None,
            runtime: None,
            description: None,
            log_retention: None,
        }
    }

    /// The runtime to deploy with: the one given, else the default.
    pub open spec fn runtime_spec(&self) -> Seq<char> {
        match self.runtime {
            Some(r) => r@,
            None => DEFAULT_RUNTIME@,
        }
    }

    /// The runtime to deploy with: the one given, else the default.
    pub fn runtime(&self) -> (res: String)
        ensures
            res@ == self.runtime_spec(),
    {
        match &self.runtime {
            Some(r) => r.clone(),
            None => crate::text::owned(DEFAULT_RUNTIME),
        }
    }

    /// Whether any setting differs from the defaults, so that the function's
    /// configuration needs an update.
    pub fn should_update(&self) -> (res: bool)
        ensures
            res == self.should_update_spec(),
    {
        self.enable_function_url || self.disable_function_url || self.memory.is_some()
            || self.timeout.is_some() || self.env_options.is_some() || self.tracing.is_some()
            || self.role.is_some() || self.layer.is_some() || self.vpc.is_some()
            || self.runtime.is_some() || self.description.is_some()
            || self.log_retention.is_some()
    }

    /// Some setting differs from the defaults.
    pub open spec fn should_update_spec(&self) -> bool {
        self.enable_function_url || self.disable_function_url || self.memory is Some
            || self.timeout is Some || self.env_options is Some || self.tracing is Some
            || self.role is Some || self.layer is Some || self.vpc is Some || self.runtime is Some
            || self.description is Some || self.log_retention is Some
    }

    /// How many settings are given; an empty layer list counts as none.
    pub fn count_fields(&self) -> (res: usize)
        ensures
            res == fields_count(*self),
    {
        let a = self.switch_and_size_fields();
        let b = self.text_fields();
        let c = vpc_fields(&self.vpc);
        let d = env_fields(&self.env_options);
        a + b + c + d
    }

    /// How many of the URL switches, layers, memory and timeout settings are given.
    fn switch_and_size_fields(&self) -> (res: usize)
        ensures
            res == flag(self.disable_function_url) + flag(self.enable_function_url) + flag(
                has_layers(self.layer),
            ) + flag(self.memory is Some) + flag(self.timeout is Some),
            res <= 5,
    {
        flag_count(self.disable_function_url) + flag_count(self.enable_function_url) + flag_count(
            layers_given(&self.layer),
        ) + flag_count(self.memory.is_some()) + flag_count(self.timeout.is_some())
    }

    /// How many of the tracing, role, runtime, description and log retention settings are given.
    fn text_fields(&self) -> (res: usize)
        ensures
            res == flag(self.tracing is Some) + flag(self.role is Some) + flag(
                self.runtime is Some,
            ) + flag(self.description is Some) + flag(self.log_retention is Some),
            res <= 5,
    {
        flag_count(self.tracing.is_some()) + flag_count(self.role.is_some()) + flag_count(
            self.runtime.is_some(),
        ) + flag_count(self.description.is_some()) + flag_count(self.log_retention.is_some())
    }
}

/// Whether a list of layers is given and not empty.
fn layers_given(l: &Option<Vec<String>>) -> (res: bool)
    ensures
        res == has_layers(*l),
{
    match l {
        Some(v) => v.len() > 0,
        None => false,
    }
}

/// The number of settings given in an optional `VpcConfig`.
fn vpc_fields(v: &Option<VpcConfig>) -> (res: usize)
    ensures
        res == opt_vpc_count(*v),
        res <= 3,
{
    match v {
        Some(v) => v.count_fields(),
        None => 0,
    }
}

/// The number of options set in an optional `EnvOptions`.
fn env_fields(e: &Option<EnvOptions>) -> (res: usize)
    ensures
        res == opt_env_count(*e),
        res <= 2,
{
    match e {
        Some(e) => e.count_fields(),
        None => 0,
    }
}

/// The tags of `key=value` entries; an entry without `=` is skipped, and a later entry for
/// a key wins.
pub open spec fn tags_of(entries: Seq<Seq<char>>) -> Map<Seq<char>, Seq<char>>
    decreases entries.len(),
{
    if entries.len() == 0 {
        Map::empty()
    } else {
        let m = tags_of(entries.drop_last());
        match split_once_spec(entries.last(), '=') {
            Some(kv) => m.insert(kv.0, kv.1),
            None => m,
        }
    }
}

/// The tags given as `key=value` entries.
pub fn extract_tags(tags: &Vec<String>) -> (res: StringMap)
    ensures
        res@ == tags_of(views(tags@)),
{
    let ghost ts = views(tags@);
    let mut map = StringMap::new();
    let mut i: usize = 0;
    while i < tags.len()
        invariant
            i <= tags@.len(),
            ts == views(tags@),
            map@ == tags_of(ts.take(i as int)),
        decreases tags@.len() - i,
    {
        assert(ts.take(i + 1).drop_last() =~= ts.take(i as int));
        assert(ts.take(i + 1).last() == tags@[i as int]@);
        let chars = crate::text::chars_of(tags[i].as_str());
        match crate::text::split_once_chars(chars.as_slice(), '=') {
            Some((k, v)) => {
                map.insert(
                    crate::text::string_of(k.as_slice()),
                    crate::text::string_of(v.as_slice()),
                );
            },
            None => {},
        }
        i = i + 1;
    }
    assert(ts.take(tags@.len() as int) =~= ts);
    map
}

/// How X-Ray tracing is configured for a function.
#[derive(Debug)]
pub struct TracingConfig {
    /// The name of the tracing mode.
    pub mode: String,
}

/// Options of the `deploy` command.
#[derive(Debug)]
pub struct Deploy {
    pub remote_config: RemoteConfig,
    pub function_config: FunctionDeployConfig,
    pub lambda_dir: Option<String>,
    pub manifest_path: Option<String>,
    pub binary_name: Option<String>,
    pub binary_path: Option<String>,
    pub s3_bucket: Option<String>,
    pub s3_key: Option<String>,
    pub extension: bool,
    pub internal: bool,
    pub compatible_runtimes: Option<Vec<String>>,
    pub output_format: Option<OutputFormat>,
    pub tag: Option<Vec<String>>,
    pub include_paths: Option<Vec<String>>,
    pub dry: bool,
    pub name: Option<String>,
    pub base_env: StringMap,
}

/// The default list of compatible runtimes.
pub open spec fn default_compatible_runtimes() -> Seq<Seq<char>> {
    seq![
        seq!['p', 'r', 'o', 'v', 'i', 'd', 'e', 'd', '.', 'a', 'l', '2'],
        seq!['p', 'r', 'o', 'v', 'i', 'd', 'e', 'd', '.', 'a', 'l', '2', '0', '2', '3'],
    ]
}

impl Deploy {
    /// No options, with an empty base environment.
    pub fn default() -> (res: Deploy)
        ensures
            no_function_settings(res.function_config),
            res.remote_config.profile is None,
            res.remote_config.region is None,
            res.remote_config.alias is None,
            res.remote_config.retry_attempts is None,
            res.remote_config.endpoint_url is None,
            res.lambda_dir is None,
            res.binary_name is None,
            res.binary_path is None,
            res.s3_bucket is None,
            res.s3_key is None,
            res.include_paths is None,
            res.name is None,
            res.function_config.env_options is None,
            res.function_config.tracing is None,
            res.function_config.description is None,
            res.manifest_path is None,
            res.tag is None,
            res.compatible_runtimes is None,
            res.output_format is None,
            res.base_env@ == Map::<Seq<char>, Seq<char>>::empty(),
            !res.extension,
            !res.internal,
            !res.dry,
    {
        Deploy {
            remote_config: RemoteConfig::default(),
            function_config: FunctionDeployConfig::default(),
            lambda_dir: None,
            manifest_path: None,
            binary_name: None,
            binary_path: None,
            s3_bucket: None,
            s3_key: None,
            extension: false,
            internal: false,
            compatible_runtimes: None,
            output_format: None,
            tag: None,
            include_paths: None,
            dry: false,
            name: None,
            base_env: StringMap::new(),
        }
    }

    /// The manifest path: the one given, else `Cargo.toml`.
    pub fn manifest_path(&self) -> (res: String)
        ensures
            res@ == match self.manifest_path {
                Some(p) => p@,
                None => DEFAULT_MANIFEST_PATH@,
            },
    {
        match &self.manifest_path {
            Some(p) => p.clone(),
            None => crate::text::owned(DEFAULT_MANIFEST_PATH),
        }
    }

    /// The output format: the one given, else text.
    pub fn output_format(&self) -> (res: OutputFormat)
        ensures
            res == match self.output_format {
                Some(f) => f,
                None => OutputFormat::Text,
            },
    {
        match self.output_format {
            Some(f) => f,
            None => OutputFormat::Text,
        }
    }

    /// The compatible runtimes: those given, else `provided.al2` and `provided.al2023`.
    pub fn compatible_runtimes(&self) -> (res: Vec<String>)
        ensures
            views(res@) == match self.compatible_runtimes {
                Some(v) => views(v@),
                None => default_compatible_runtimes(),
            },
    {
        match &self.compatible_runtimes {
            Some(v) => crate::text::copy_strings(v),
            None => {
                let a = "provided.al2";
                let b = "provided.al2023";
                proof {
                    reveal_strlit("provided.al2");
                    reveal_strlit("provided.al2023");
                }
                let mut res: Vec<String> = Vec::new();
                let sa = crate::text::owned(a);
                let sb = crate::text::owned(b);
                assert(sa@ =~= default_compatible_runtimes()[0]);
                assert(sb@ =~= default_compatible_runtimes()[1]);
                res.push(sa);
                res.push(sb);
                assert(views(res@) =~= default_compatible_runtimes());
                res
            },
        }
    }

    /// The tracing configuration, when a tracing mode is given.
    pub fn tracing_config(&self) -> (res: Option<TracingConfig>)
        ensures
            match self.function_config.tracing {
                None => res is None,
                Some(t) => res matches Some(c) && c.mode@ == tracing_name(t),
            },
    {
        match self.function_config.tracing {
            None => None,
            Some(t) => Some(TracingConfig { mode: t.to_string() }),
        }
    }

    /// The tags of the function; `None` when none are given.
    pub open spec fn lambda_tags_spec(&self) -> Option<Map<Seq<char>, Seq<char>>> {
        match self.tag {
            None => None,
            Some(t) => if t@.len() == 0 {
                None
            } else {
                Some(tags_of(views(t@)))
            },
        }
    }

    /// The tags in the form S3 takes them; `None` when none are given.
    pub open spec fn s3_tags_spec(&self) -> Option<Seq<char>> {
        match self.tag {
            None => None,
            Some(t) => if t@.len() == 0 {
                None
            } else {
                Some(join(views(t@), seq!['&']))
            },
        }
    }

    /// The environment of the function, or the text of the variable that is not of the
    /// form `KEY=VALUE`; `None` when it is empty.
    pub open spec fn lambda_environment_spec(&self, file_vars: Option<&StringMap>) -> Result<
        Option<Map<Seq<char>, Seq<char>>>,
        Seq<char>,
    > {
        let env = match self.function_config.env_options {
            None => Ok(self.base_env@),
            Some(o) => environment(
                self.base_env@,
                map_or_empty(file_vars),
                match o.env_var {
                    Some(v) => Some(views(v@)),
                    None => None,
                },
            ),
        };
        match env {
            Ok(m) => if m.len() == 0 {
                Ok(None)
            } else {
                Ok(Some(m))
            },
            Err(bad) => Err(bad),
        }
    }

    /// The tags of the function; `None` when none are given.
    pub fn lambda_tags(&self) -> (res: Option<StringMap>)
        ensures
            self.lambda_tags_spec() == (match res {
                Some(m) => Some(m@),
                None => None,
            }),
            match self.tag {
                None => res is None,
                Some(t) => if t@.len() == 0 {
                    res is None
                } else {
                    res matches Some(m) && m@ == tags_of(views(t@))
                },
            },
    {
        match &self.tag {
            None => None,
            Some(tags) => {
                if tags.len() == 0 {
                    None
                } else {
                    Some(extract_tags(tags))
                }
            },
        }
    }

    /// The tags in the form S3 takes them, joined with `&`; `None` when none are given.
    pub fn s3_tags(&self) -> (res: Option<String>)
        ensures
            self.s3_tags_spec() == crate::text::opt_view(res),
            match self.tag {
                None => res is None,
                Some(t) => if t@.len() == 0 {
                    res is None
                } else {
                    res matches Some(s) && s@ == join(views(t@), seq!['&'])
                },
            },
    {
        match &self.tag {
            None => None,
            Some(tags) => {
                if tags.len() == 0 {
                    None
                } else {
                    let amp = "&";
                    proof {
                        reveal_strlit("&");
                    }
                    assert(amp@ =~= seq!['&']);
                    Some(crate::text::join_strings(tags.as_slice(), amp))
                }
            },
        }
    }

    /// The environment of the function: the base environment with the variables of the
    /// environment options over it (`file_vars` being what the environment file holds);
    /// `None` when it is empty.
    pub fn lambda_environment(&self, file_vars: Option<&StringMap>) -> (res: Result<
        Option<StringMap>,
        MetadataError,
    >)
        ensures
            match res {
                Ok(Some(m)) => self.lambda_environment_spec(file_vars) == Ok::<
                    Option<Map<Seq<char>, Seq<char>>>,
                    Seq<char>,
                >(Some(m@)),
                Ok(None) => self.lambda_environment_spec(file_vars) == Ok::<
                    Option<Map<Seq<char>, Seq<char>>>,
                    Seq<char>,
                >(None),
                Err(e) => self.lambda_environment_spec(file_vars) matches Err(bad) && (
                e matches MetadataError::InvalidEnvVar(s) && s@ == bad),
            },
            match self.function_config.env_options {
                None => match res {
                    Ok(Some(m)) => m@ == self.base_env@ && m@.len() > 0,
                    Ok(None) => self.base_env@.len() == 0,
                    Err(_) => false,
                },
                Some(o) => {
                    let expected = environment(
                        self.base_env@,
                        map_or_empty(file_vars),
                        match o.env_var {
                            Some(v) => Some(views(v@)),
                            None => None,
                        },
                    );
                    match res {
                        Ok(Some(m)) => expected == Ok::<Map<Seq<char>, Seq<char>>, Seq<char>>(m@)
                            && m@.len() > 0,
                        Ok(None) => expected matches Ok(m) && m.len() == 0,
                        Err(e) => expected matches Err(bad) && (e matches MetadataError::InvalidEnvVar(
                            s,
                        ) && s@ == bad),
                    }
                },
            },
    {
        let env = match &self.function_config.env_options {
            None => self.base_env.copy(),
            Some(env_options) => match env_options.lambda_environment(&self.base_env, file_vars) {
                Ok(e) => e,
                Err(e) => {
                    return Err(e);
                },
            },
        };
        if env.is_empty() {
            return Ok(None);
        }
        Ok(Some(env))
    }

    /// Whether the code is published without a version description.
    pub fn publish_code_without_description(&self) -> (res: bool)
        ensures
            res == (self.function_config.description is None),
    {
        self.function_config.description.is_none()
    }
}

} // verus!
