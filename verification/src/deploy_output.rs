//! The text that a deployment prints: what a dry run would deploy, and what a deployment did.
use vstd::prelude::*;
use crate::archive::BinaryModifiedAt;
use crate::deploy::{Deploy, FunctionDeployConfig};
use crate::lambda::{tracing_name, Memory, Timeout, Tracing};
use crate::number::decimal;
use crate::strmap::{Entries, StringMap};
use crate::text::{chars_of, copy_opt_string, copy_opt_strings, extend_chars, join, opt_view, views};

verus! {

/// What a deploy deploys.
#[derive(Debug, Clone, Copy, PartialEq, Eq, Structural)]
pub enum DeployKind {
    Function,
    Extension,
}

impl DeployKind {
    /// The name of the kind, in lower case.
    pub fn to_string(&self) -> (res: String)
        ensures
            res@ == match *self {
                DeployKind::Function => "function"@,
                DeployKind::Extension => "extension"@,
            },
    {
        match self {
            DeployKind::Function => "function".to_string(),
            DeployKind::Extension => "extension".to_string(),
        }
    }
}

/// `format!("{:?}", s)` for a string: the text in double quotes, with the escapes of
/// Rust's debug formatting.
pub uninterp spec fn debug_quoted(s: Seq<char>) -> Seq<char>;

/// Formats a string as Rust's debug formatting writes it (`<str as Debug>::fmt`).
#[verifier::external_body]
fn debug_str(s: &str) -> (res: String)
    ensures
        res@ == debug_quoted(s@),
{
    format!("{:?}", s)
}

/// The region that the SDK falls back on.
pub const DEFAULT_REGION: &'static str = "us-east-1";

/// Every string of a list in debug form.
pub open spec fn quoted_all(items: Seq<Seq<char>>) -> Seq<Seq<char>> {
    items.map_values(|s: Seq<char>| debug_quoted(s))
}

/// A list of strings in debug form: `["a", "b"]`.
pub open spec fn list_debug(items: Seq<Seq<char>>) -> Seq<char> {
    "["@ + join(quoted_all(items), ", "@) + "]"@
}

/// An optional value in debug form, given the debug form of the value.
pub open spec fn some_debug(inner: Option<Seq<char>>) -> Seq<char> {
    match inner {
        Some(t) => "Some("@ + t + ")"@,
        None => "None"@,
    }
}

/// A map entry in debug form: `"key": "value"`.
pub open spec fn entry_debug(e: (Seq<char>, Seq<char>)) -> Seq<char> {
    debug_quoted(e.0) + ": "@ + debug_quoted(e.1)
}

/// A map in debug form, its entries in the given order: `{"a": "b"}`.
pub open spec fn map_debug(entries: Entries) -> Seq<char> {
    "{"@ + join(entries.map_values(|e: (Seq<char>, Seq<char>)| entry_debug(e)), ", "@) + "}"@
}

/// A timeout in debug form.
pub open spec fn timeout_debug(t: Option<Timeout>) -> Seq<char> {
    some_debug(
        match t {
            Some(t) => Some("Timeout"@ + "("@ + decimal(t@ as nat) + ")"@),
            None => None,
        },
    )
}

/// A memory size in debug form.
pub open spec fn memory_debug(m: Option<Memory>) -> Seq<char> {
    some_debug(
        match m {
            Some(m) => Some("Memory"@ + "("@ + decimal(m@ as nat) + ")"@),
            None => None,
        },
    )
}

/// A tracing mode in debug form.
pub open spec fn tracing_debug(t: Option<Tracing>) -> Seq<char> {
    some_debug(
        match t {
            Some(t) => Some(tracing_name(t)),
            None => None,
        },
    )
}

/// An optional string in debug form.
pub open spec fn opt_str_debug(s: Option<Seq<char>>) -> Seq<char> {
    some_debug(
        match s {
            Some(s) => Some(debug_quoted(s)),
            None => None,
        },
    )
}

/// An optional list of strings in debug form.
pub open spec fn opt_list_debug(l: Option<Seq<Seq<char>>>) -> Seq<char> {
    some_debug(
        match l {
            Some(l) => Some(list_debug(l)),
            None => None,
        },
    )
}

/// `true` or `false`.
pub open spec fn bool_text(b: bool) -> Seq<char> {
    if b {
        "true"@
    } else {
        "false"@
    }
}

/// The name of a deployment kind.
pub open spec fn kind_name(k: DeployKind) -> Seq<char> {
    match k {
        DeployKind::Function => "function"@,
        DeployKind::Extension => "extension"@,
    }
}

/// A text with a space after every comma.
pub open spec fn comma_spaced(s: Seq<char>) -> Seq<char>
    decreases s.len(),
{
    if s.len() == 0 {
        Seq::empty()
    } else if s.last() == ',' {
        comma_spaced(s.drop_last()) + seq![',', ' ']
    } else {
        comma_spaced(s.drop_last()).push(s.last())
    }
}

/// One `  - file` line per file.
pub open spec fn file_lines(files: Seq<Seq<char>>) -> Seq<char>
    decreases files.len(),
{
    if files.len() == 0 {
        Seq::empty()
    } else {
        file_lines(files.drop_last()) + "  - "@ + files.last() + "\n"@
    }
}

/// `text` when `cond` holds, nothing otherwise.
pub open spec fn when(cond: bool, text: Seq<char>) -> Seq<char> {
    if cond {
        text
    } else {
        Seq::empty()
    }
}

/// What a dry run would deploy.
pub struct DryRunOutput {
    pub kind: DeployKind,
    /// The extension's name, or the binary's.
    pub name: String,
    /// Where the zip file is.
    pub path: String,
    pub arch: String,
    /// The files in the zip file.
    pub files: Vec<String>,
    /// The runtimes an extension is compatible with; none for a function.
    pub runtimes: Vec<String>,
    /// The tags in the form S3 takes them.
    pub tags: Option<String>,
    pub bucket: Option<String>,
    pub config: FunctionDeployConfig,
    /// The region of the SDK configuration.
    pub region: Option<String>,
    pub profile: Option<String>,
    pub endpoint_url: Option<String>,
    pub binary_modified_at: BinaryModifiedAt,
    /// The variables of the function's environment file, as the caller read them; `None`
    /// when there is no such file.
    pub env_file_vars: Option<StringMap>,
}

/// The first lines: kind, name, zip file, when the binary was built, and architecture.
pub open spec fn head_text(o: DryRunOutput, compiled: Seq<char>) -> Seq<char> {
    "🔍 deployment for "@ + kind_name(o.kind) + " `"@ + o.name@ + "`:\n"@ + "🏠 zip file located at "@ + o.path@ + "\n"@ + "🛠️  binary last compiled "@
        + compiled + "\n"@ + "🏗️  architecture "@ + o.arch@ + "\n"@
}

/// The tags, bucket, runtimes and files, each when there are any.
pub open spec fn contents_text(o: DryRunOutput) -> Seq<char> {
    when(o.tags is Some, "🏷️  tagged with "@ + comma_spaced(opt_view(o.tags)->0) + "\n"@) + when(
        o.bucket is Some,
        "🪣 stored on S3 bucket `"@ + opt_view(o.bucket)->0 + "`\n"@,
    ) + when(o.runtimes@.len() > 0, "👟 compatible with "@ + join(views(o.runtimes@), ", "@)) + when(
        o.files@.len() > 0,
        "🗃️  files included in the zip file:\n"@ + file_lines(views(o.files@)),
    )
}

/// The SDK configuration: region, profile and endpoint.
pub open spec fn sdk_text(o: DryRunOutput) -> Seq<char> {
    "🛫  AWS SDK configuration:\n"@ + "  - region: "@ + (match o.region {
        Some(r) => r@,
        None => DEFAULT_REGION@,
    }) + "\n"@ + when(o.profile is Some, "  - profile: "@ + opt_view(o.profile)->0 + "\n"@)
        + when(o.endpoint_url is Some, "  - endpoint: "@ + opt_view(o.endpoint_url)->0 + "\n"@)
}

/// A line of the function settings: `label`, the value and a line break.
pub open spec fn line(label: Seq<char>, value: Seq<char>) -> Seq<char> {
    label + value + "\n"@
}

/// The settings of a function, up to its role.
pub open spec fn settings_text(c: FunctionDeployConfig) -> Seq<char> {
    "🍿 function configuration:\n"@ + line("  - timeout: "@, timeout_debug(c.timeout)) + line(
        "  - memory: "@,
        memory_debug(c.memory),
    ) + line("  - enable_function_url: "@, bool_text(c.enable_function_url)) + line(
        "  - disable_function_url: "@,
        bool_text(c.disable_function_url),
    ) + line("  - tracing: "@, tracing_debug(c.tracing)) + line(
        "  - role: "@,
        opt_str_debug(opt_view(c.role)),
    )
}

/// The network settings of a function in a VPC.
pub open spec fn vpc_text(v: Option<crate::deploy::VpcConfig>) -> Seq<char> {
    match v {
        Some(v) => line("  - VPC subnets: "@, opt_list_debug(crate::text::opt_views(v.subnet_ids)))
            + line(
            "  - VPC security groups: "@,
            opt_list_debug(crate::text::opt_views(v.security_group_ids)),
        ) + line("  - VPC IPv6 allowed: "@, bool_text(v.ipv6_allowed_for_dual_stack)),
        None => Seq::empty(),
    }
}

/// The layers, network, runtime and environment of a function.
pub open spec fn network_text(c: FunctionDeployConfig, env: Entries) -> Seq<char> {
    line("  - layer: "@, opt_list_debug(crate::text::opt_views(c.layer))) + vpc_text(c.vpc) + line(
        "  - runtime: "@,
        debug_quoted(c.runtime_spec()),
    ) + when(c.env_options is Some, line("  - env_options: "@, map_debug(env)))
}

/// The whole text of a dry run, given how long ago the binary was built and the entries of
/// the function's environment.
pub open spec fn dry_run_text(o: DryRunOutput, compiled: Seq<char>, env: Entries) -> Seq<char> {
    head_text(o, compiled) + contents_text(o) + sdk_text(o) + when(
        o.kind == DeployKind::Function,
        settings_text(o.config) + network_text(o.config, env),
    )
}

/// Two function settings that say the same.
pub open spec fn same_function_config(a: FunctionDeployConfig, b: FunctionDeployConfig) -> bool {
    &&& a.enable_function_url == b.enable_function_url
    &&& a.disable_function_url == b.disable_function_url
    &&& a.memory == b.memory
    &&& a.timeout == b.timeout
    &&& a.tracing == b.tracing
    &&& a.log_retention == b.log_retention
    &&& opt_view(a.role) == opt_view(b.role)
    &&& crate::text::opt_views(a.layer) == crate::text::opt_views(b.layer)
    &&& opt_view(a.runtime) == opt_view(b.runtime)
    &&& opt_view(a.description) == opt_view(b.description)
    &&& match (a.env_options, b.env_options) {
        (Some(x), Some(y)) => crate::text::opt_views(x.env_var) == crate::text::opt_views(y.env_var)
            && opt_view(x.env_file) == opt_view(y.env_file),
        (None, None) => true,
        _ => false,
    }
    &&& match (a.vpc, b.vpc) {
        (Some(x), Some(y)) => crate::text::opt_views(x.subnet_ids) == crate::text::opt_views(
            y.subnet_ids,
        ) && crate::text::opt_views(x.security_group_ids) == crate::text::opt_views(
            y.security_group_ids,
        ) && x.ipv6_allowed_for_dual_stack == y.ipv6_allowed_for_dual_stack,
        (None, None) => true,
        _ => false,
    }
}

/// A copy of a function's settings.
pub fn copy_function_config(c: &FunctionDeployConfig) -> (res: FunctionDeployConfig)
    ensures
        same_function_config(res, *c),
{
    FunctionDeployConfig {
        enable_function_url: c.enable_function_url,
        disable_function_url: c.disable_function_url,
        memory: c.memory,
        timeout: c.timeout,
        env_options: match &c.env_options {
            Some(e) => Some(
                crate::env::EnvOptions {
                    env_var: copy_opt_strings(&e.env_var),
                    env_file: copy_opt_string(&e.env_file),
                },
            ),
            None => None,
        },
        tracing: c.tracing,
        role: copy_opt_string(&c.role),
        layer: copy_opt_strings(&c.layer),
        vpc: match &c.vpc {
            Some(v) => Some(
                crate::deploy::VpcConfig {
                    subnet_ids: copy_opt_strings(&v.subnet_ids),
                    security_group_ids: copy_opt_strings(&v.security_group_ids),
                    ipv6_allowed_for_dual_stack: v.ipv6_allowed_for_dual_stack,
                },
            ),
            None => None,
        },
        runtime: copy_opt_string(&c.runtime),
        description: copy_opt_string(&c.description),
        log_retention: c.log_retention,
    }
}

/// Appends the characters of `s`.
fn put(buf: &mut Vec<char>, s: &str)
    ensures
        final(buf)@ == old(buf)@ + s@,
{
    let c = chars_of(s);
    extend_chars(buf, c.as_slice());
}

/// Appends `s` in debug form.
fn put_quoted(buf: &mut Vec<char>, s: &str)
    ensures
        final(buf)@ == old(buf)@ + debug_quoted(s@),
{
    let q = debug_str(s);
    put(buf, q.as_str());
}

/// Appends the strings of a list in debug form, separated by commas.
fn put_quoted_items(buf: &mut Vec<char>, items: &Vec<String>)
    ensures
        final(buf)@ == old(buf)@ + join(quoted_all(views(items@)), ", "@),
{
    let ghost qs = quoted_all(views(items@));
    let ghost start = buf@;
    let mut i: usize = 0;
    while i < items.len()
        invariant
            i <= items@.len(),
            qs == quoted_all(views(items@)),
            buf@ == start + join(qs.take(i as int), ", "@),
        decreases items@.len() - i,
    {
        let ghost before = buf@;
        if i > 0 {
            put(buf, ", ");
        }
        put_quoted(buf, items[i].as_str());
        proof {
            assert(qs[i as int] == debug_quoted(items@[i as int]@));
            let t = qs.take(i + 1);
            assert(t.drop_last() =~= qs.take(i as int));
            if i == 0 {
                assert(join(t, ", "@) == qs[0]);
                assert(buf@ =~= start + join(t, ", "@));
            } else {
                assert(join(t, ", "@) == join(qs.take(i as int), ", "@) + ", "@ + qs[i as int]);
                assert(buf@ =~= start + join(t, ", "@));
            }
        }
        i = i + 1;
    }
    proof {
        assert(qs.take(items@.len() as int) =~= qs);
    }
}

/// Appends a list of strings in debug form.
fn put_list(buf: &mut Vec<char>, items: &Vec<String>)
    ensures
        final(buf)@ == old(buf)@ + list_debug(views(items@)),
{
    let ghost start = buf@;
    put(buf, "[");
    put_quoted_items(buf, items);
    put(buf, "]");
    assert(buf@ =~= start + list_debug(views(items@)));
}

/// Appends an optional list of strings in debug form.
fn put_opt_list(buf: &mut Vec<char>, items: &Option<Vec<String>>)
    ensures
        final(buf)@ == old(buf)@ + opt_list_debug(crate::text::opt_views(*items)),
{
    let ghost start = buf@;
    match items {
        Some(v) => {
            put(buf, "Some(");
            put_list(buf, v);
            put(buf, ")");
            assert(buf@ =~= start + opt_list_debug(crate::text::opt_views(*items)));
        },
        None => {
            put(buf, "None");
        },
    }
}

/// Appends an optional string in debug form.
fn put_opt_quoted(buf: &mut Vec<char>, s: &Option<String>)
    ensures
        final(buf)@ == old(buf)@ + opt_str_debug(opt_view(*s)),
{
    let ghost start = buf@;
    match s {
        Some(v) => {
            put(buf, "Some(");
            put_quoted(buf, v.as_str());
            put(buf, ")");
            assert(buf@ =~= start + opt_str_debug(opt_view(*s)));
        },
        None => {
            put(buf, "None");
        },
    }
}

/// Appends the entries of a map in debug form, in order.
fn put_map(buf: &mut Vec<char>, env: &StringMap)
    ensures
        final(buf)@ == old(buf)@ + map_debug(env.entries()),
{
    let pairs = env.pairs();
    let ghost es = env.entries();
    let ghost ds = es.map_values(|e: (Seq<char>, Seq<char>)| entry_debug(e));
    let ghost start = buf@;
    put(buf, "{");
    let ghost open = buf@;
    let mut i: usize = 0;
    while i < pairs.len()
        invariant
            i <= pairs@.len(),
            crate::strmap::pairs_view(pairs@) == es,
            ds == es.map_values(|e: (Seq<char>, Seq<char>)| entry_debug(e)),
            buf@ == open + join(ds.take(i as int), ", "@),
        decreases pairs@.len() - i,
    {
        if i > 0 {
            put(buf, ", ");
        }
        put_quoted(buf, pairs[i].0.as_str());
        put(buf, ": ");
        put_quoted(buf, pairs[i].1.as_str());
        proof {
            assert(es[i as int] == (pairs@[i as int].0@, pairs@[i as int].1@));
            assert(ds[i as int] == entry_debug(es[i as int]));
            let t = ds.take(i + 1);
            assert(t.drop_last() =~= ds.take(i as int));
            if i == 0 {
                assert(join(t, ", "@) == ds[0]);
                assert(buf@ =~= open + join(t, ", "@));
            } else {
                assert(join(t, ", "@) == join(ds.take(i as int), ", "@) + ", "@ + ds[i as int]);
                assert(buf@ =~= open + join(t, ", "@));
            }
        }
        i = i + 1;
    }
    proof {
        assert(ds.take(pairs@.len() as int) =~= ds);
    }
    put(buf, "}");
    assert(buf@ =~= start + map_debug(env.entries()));
}

/// Appends the optional debug form of a tuple struct named `name` around the text `digits`.
fn put_opt_tuple(buf: &mut Vec<char>, name: &str, digits: &Option<String>)
    ensures
        final(buf)@ == old(buf)@ + some_debug(
            match *digits {
                Some(d) => Some(name@ + "("@ + d@ + ")"@),
                None => None,
            },
        ),
{
    let ghost start = buf@;
    match digits {
        Some(d) => {
            put(buf, "Some(");
            put(buf, name);
            put(buf, "(");
            put(buf, d.as_str());
            put(buf, ")");
            put(buf, ")");
            assert(buf@ =~= start + some_debug(Some(name@ + "("@ + d@ + ")"@)));
        },
        None => {
            put(buf, "None");
        },
    }
}

/// Appends `true` or `false`.
fn put_bool(buf: &mut Vec<char>, b: bool)
    ensures
        final(buf)@ == old(buf)@ + bool_text(b),
{
    if b {
        put(buf, "true");
    } else {
        put(buf, "false");
    }
}


/// Appends `s` with a space after every comma.
fn put_comma_spaced(buf: &mut Vec<char>, s: &str)
    ensures
        final(buf)@ == old(buf)@ + comma_spaced(s@),
{
    let cs = chars_of(s);
    let ghost start = buf@;
    let mut i: usize = 0;
    while i < cs.len()
        invariant
            i <= cs@.len(),
            buf@ == start + comma_spaced(cs@.take(i as int)),
        decreases cs@.len() - i,
    {
        let c = cs[i];
        proof {
            assert(cs@.take(i + 1).drop_last() =~= cs@.take(i as int));
            assert(cs@.take(i + 1).last() == c);
        }
        if c == ',' {
            buf.push(',');
            buf.push(' ');
        } else {
            buf.push(c);
        }
        assert(buf@ =~= start + comma_spaced(cs@.take(i + 1)));
        i = i + 1;
    }
    assert(cs@.take(cs@.len() as int) =~= s@);
}

/// Appends one `  - file` line per file.
fn put_file_lines(buf: &mut Vec<char>, files: &Vec<String>)
    ensures
        final(buf)@ == old(buf)@ + file_lines(views(files@)),
{
    let ghost fs = views(files@);
    let ghost start = buf@;
    let mut i: usize = 0;
    while i < files.len()
        invariant
            i <= files@.len(),
            fs == views(files@),
            buf@ == start + file_lines(fs.take(i as int)),
        decreases files@.len() - i,
    {
        put(buf, "  - ");
        put(buf, files[i].as_str());
        put(buf, "\n");
        proof {
            assert(fs.take(i + 1).drop_last() =~= fs.take(i as int));
            assert(fs.take(i + 1).last() == files@[i as int]@);
        }
        assert(buf@ =~= start + file_lines(fs.take(i + 1)));
        i = i + 1;
    }
    assert(fs.take(files@.len() as int) =~= fs);
}

impl DryRunOutput {
    /// Appends the first lines.
    fn put_head(&self, buf: &mut Vec<char>, compiled: &str)
        ensures
            final(buf)@ == old(buf)@ + head_text(*self, compiled@),
    {
        let ghost start = buf@;
        put(buf, "🔍 deployment for ");
        let k = self.kind.to_string();
        put(buf, k.as_str());
        put(buf, " `");
        put(buf, self.name.as_str());
        put(buf, "`:\n");
        put(buf, "🏠 zip file located at ");
        put(buf, self.path.as_str());
        put(buf, "\n");
        put(buf, "🛠️  binary last compiled ");
        put(buf, compiled);
        put(buf, "\n");
        put(buf, "🏗️  architecture ");
        put(buf, self.arch.as_str());
        put(buf, "\n");
        assert(buf@ =~= start + head_text(*self, compiled@));
    }

    /// Appends the tags and bucket.
    fn put_storage(&self, buf: &mut Vec<char>)
        ensures
            final(buf)@ == old(buf)@ + when(
                self.tags is Some,
                "🏷️  tagged with "@ + comma_spaced(opt_view(self.tags)->0) + "\n"@,
            ) + when(self.bucket is Some, "🪣 stored on S3 bucket `"@ + opt_view(self.bucket)->0 + "`\n"@),
    {
        let ghost start = buf@;
        if let Some(tags) = &self.tags {
            put(buf, "🏷️  tagged with ");
            put_comma_spaced(buf, tags.as_str());
            put(buf, "\n");
        }
        let ghost after_tags = buf@;
        assert(after_tags =~= start + when(
            self.tags is Some,
            "🏷️  tagged with "@ + comma_spaced(opt_view(self.tags)->0) + "\n"@,
        ));
        if let Some(bucket) = &self.bucket {
            put(buf, "🪣 stored on S3 bucket `");
            put(buf, bucket.as_str());
            put(buf, "`\n");
        }
        assert(buf@ =~= after_tags + when(
            self.bucket is Some,
            "🪣 stored on S3 bucket `"@ + opt_view(self.bucket)->0 + "`\n"@,
        ));
    }

    /// Appends the runtimes and files.
    fn put_listing(&self, buf: &mut Vec<char>)
        ensures
            final(buf)@ == old(buf)@ + when(
                self.runtimes@.len() > 0,
                "👟 compatible with "@ + join(views(self.runtimes@), ", "@),
            ) + when(self.files@.len() > 0, "🗃️  files included in the zip file:\n"@ + file_lines(views(self.files@))),
    {
        let ghost start = buf@;
        if self.runtimes.len() > 0 {
            put(buf, "👟 compatible with ");
            let joined = crate::text::join_strings(self.runtimes.as_slice(), ", ");
            put(buf, joined.as_str());
        }
        let ghost after_runtimes = buf@;
        assert(after_runtimes =~= start + when(
            self.runtimes@.len() > 0,
            "👟 compatible with "@ + join(views(self.runtimes@), ", "@),
        ));
        if self.files.len() > 0 {
            put(buf, "🗃️  files included in the zip file:\n");
            put_file_lines(buf, &self.files);
        }
        assert(buf@ =~= after_runtimes + when(
            self.files@.len() > 0,
            "🗃️  files included in the zip file:\n"@ + file_lines(views(self.files@)),
        ));
    }

    /// Appends the tags, bucket, runtimes and files.
    fn put_contents(&self, buf: &mut Vec<char>)
        ensures
            final(buf)@ == old(buf)@ + contents_text(*self),
    {
        let ghost start = buf@;
        self.put_storage(buf);
        let ghost mid = buf@;
        self.put_listing(buf);
        assert(buf@ =~= start + contents_text(*self));
    }

    /// Appends the SDK configuration.
    fn put_sdk(&self, buf: &mut Vec<char>)
        ensures
            final(buf)@ == old(buf)@ + sdk_text(*self),
    {
        let ghost start = buf@;
        put(buf, "🛫  AWS SDK configuration:\n");
        put(buf, "  - region: ");
        match &self.region {
            Some(r) => put(buf, r.as_str()),
            None => put(buf, DEFAULT_REGION),
        }
        put(buf, "\n");
        let ghost mid = buf@;
        if let Some(p) = &self.profile {
            put(buf, "  - profile: ");
            put(buf, p.as_str());
            put(buf, "\n");
        }
        let ghost after_profile = buf@;
        assert(after_profile =~= mid + when(
            self.profile is Some,
            "  - profile: "@ + opt_view(self.profile)->0 + "\n"@,
        ));
        if let Some(e) = &self.endpoint_url {
            put(buf, "  - endpoint: ");
            put(buf, e.as_str());
            put(buf, "\n");
        }
        assert(buf@ =~= after_profile + when(
            self.endpoint_url is Some,
            "  - endpoint: "@ + opt_view(self.endpoint_url)->0 + "\n"@,
        ));
        assert(buf@ =~= start + sdk_text(*self));
    }
}

/// Appends the timeout and memory lines.
fn put_sizes(buf: &mut Vec<char>, c: &FunctionDeployConfig)
    ensures
        final(buf)@ == old(buf)@ + line("  - timeout: "@, timeout_debug(c.timeout)) + line(
            "  - memory: "@,
            memory_debug(c.memory),
        ),
{
    let ghost start = buf@;
    put(buf, "  - timeout: ");
    let t: Option<String> = match &c.timeout {
        Some(t) => Some(t.to_string()),
        None => None,
    };
    put_opt_tuple(buf, "Timeout", &t);
    put(buf, "\n");
    let ghost mid = buf@;
    assert(mid =~= start + line("  - timeout: "@, timeout_debug(c.timeout)));
    put(buf, "  - memory: ");
    let m: Option<String> = match &c.memory {
        Some(m) => Some(m.to_string()),
        None => None,
    };
    put_opt_tuple(buf, "Memory", &m);
    put(buf, "\n");
    assert(buf@ =~= mid + line("  - memory: "@, memory_debug(c.memory)));
}

/// Appends the function URL, tracing and role lines.
fn put_flags(buf: &mut Vec<char>, c: &FunctionDeployConfig)
    ensures
        final(buf)@ == old(buf)@ + line("  - enable_function_url: "@, bool_text(c.enable_function_url))
            + line("  - disable_function_url: "@, bool_text(c.disable_function_url)) + line(
            "  - tracing: "@,
            tracing_debug(c.tracing),
        ) + line("  - role: "@, opt_str_debug(opt_view(c.role))),
{
    let ghost start = buf@;
    put(buf, "  - enable_function_url: ");
    put_bool(buf, c.enable_function_url);
    put(buf, "\n");
    let ghost p1 = buf@;
    assert(p1 =~= start + line("  - enable_function_url: "@, bool_text(c.enable_function_url)));
    put(buf, "  - disable_function_url: ");
    put_bool(buf, c.disable_function_url);
    put(buf, "\n");
    let ghost p2 = buf@;
    assert(p2 =~= p1 + line("  - disable_function_url: "@, bool_text(c.disable_function_url)));
    put(buf, "  - tracing: ");
    match &c.tracing {
        Some(tr) => {
            put(buf, "Some(");
            put(buf, tr.as_str());
            put(buf, ")");
        },
        None => put(buf, "None"),
    }
    put(buf, "\n");
    let ghost p3 = buf@;
    assert(p3 =~= p2 + line("  - tracing: "@, tracing_debug(c.tracing)));
    put(buf, "  - role: ");
    put_opt_quoted(buf, &c.role);
    put(buf, "\n");
    assert(buf@ =~= p3 + line("  - role: "@, opt_str_debug(opt_view(c.role))));
    assert(buf@ =~= start + line("  - enable_function_url: "@, bool_text(c.enable_function_url))
        + line("  - disable_function_url: "@, bool_text(c.disable_function_url)) + line(
        "  - tracing: "@,
        tracing_debug(c.tracing),
    ) + line("  - role: "@, opt_str_debug(opt_view(c.role))));
}

/// Appends the settings of a function, up to its role.
fn put_settings(buf: &mut Vec<char>, c: &FunctionDeployConfig)
    ensures
        final(buf)@ == old(buf)@ + settings_text(*c),
{
    let ghost start = buf@;
    put(buf, "🍿 function configuration:\n");
    put_sizes(buf, c);
    put_flags(buf, c);
    assert(buf@ =~= start + settings_text(*c));
}

/// Appends the network settings of a function in a VPC.
fn put_vpc(buf: &mut Vec<char>, vpc: &Option<crate::deploy::VpcConfig>)
    ensures
        final(buf)@ == old(buf)@ + vpc_text(*vpc),
{
    if let Some(v) = vpc {
        let ghost start = buf@;
        put(buf, "  - VPC subnets: ");
        put_opt_list(buf, &v.subnet_ids);
        put(buf, "\n");
        let ghost p1 = buf@;
        assert(p1 =~= start + line(
            "  - VPC subnets: "@,
            opt_list_debug(crate::text::opt_views(v.subnet_ids)),
        ));
        put(buf, "  - VPC security groups: ");
        put_opt_list(buf, &v.security_group_ids);
        put(buf, "\n");
        let ghost p2 = buf@;
        assert(p2 =~= p1 + line(
            "  - VPC security groups: "@,
            opt_list_debug(crate::text::opt_views(v.security_group_ids)),
        ));
        put(buf, "  - VPC IPv6 allowed: ");
        put_bool(buf, v.ipv6_allowed_for_dual_stack);
        put(buf, "\n");
        assert(buf@ =~= p2 + line("  - VPC IPv6 allowed: "@, bool_text(v.ipv6_allowed_for_dual_stack)));
        assert(buf@ =~= start + vpc_text(*vpc));
    }
}

/// Appends the layers, network, runtime and environment of a function.
fn put_network(buf: &mut Vec<char>, c: &FunctionDeployConfig, env: &StringMap)
    ensures
        final(buf)@ == old(buf)@ + network_text(*c, env.entries()),
{
    let ghost start = buf@;
    put(buf, "  - layer: ");
    put_opt_list(buf, &c.layer);
    put(buf, "\n");
    let ghost p1 = buf@;
    assert(p1 =~= start + line("  - layer: "@, opt_list_debug(crate::text::opt_views(c.layer))));
    put_vpc(buf, &c.vpc);
    let ghost p2 = buf@;
    put(buf, "  - runtime: ");
    let r = c.runtime();
    put_quoted(buf, r.as_str());
    put(buf, "\n");
    let ghost p3 = buf@;
    assert(p3 =~= p2 + line("  - runtime: "@, debug_quoted(c.runtime_spec())));
    if c.env_options.is_some() {
        put(buf, "  - env_options: ");
        put_map(buf, env);
        put(buf, "\n");
    }
    assert(buf@ =~= p3 + when(
        c.env_options is Some,
        line("  - env_options: "@, map_debug(env.entries())),
    ));
    assert(buf@ =~= start + network_text(*c, env.entries()));
}

impl DryRunOutput {
    /// The text of the dry run, given how long ago the binary was built and the function's
    /// environment.
    pub fn text(&self, compiled: &str, env: &StringMap) -> (res: String)
        ensures
            res@ == dry_run_text(*self, compiled@, env.entries()),
    {
        let mut buf: Vec<char> = Vec::new();
        self.put_head(&mut buf, compiled);
        self.put_contents(&mut buf);
        self.put_sdk(&mut buf);
        let ghost before_config = buf@;
        if self.kind == DeployKind::Function {
            put_settings(&mut buf, &self.config);
            put_network(&mut buf, &self.config, env);
        }
        assert(buf@ =~= before_config + when(
            self.kind == DeployKind::Function,
            settings_text(self.config) + network_text(self.config, env.entries()),
        ));
        assert(buf@ =~= dry_run_text(*self, compiled@, env.entries()));
        crate::text::string_of(buf.as_slice())
    }
}

/// The variables of an optional map.
pub open spec fn vars_of(m: Option<StringMap>) -> Map<Seq<char>, Seq<char>> {
    match m {
        Some(m) => m@,
        None => Map::empty(),
    }
}

/// The environment that a dry run shows for a function with env options: their variables
/// over those of the environment file, or none when a variable is malformed.
pub open spec fn shown_environment(o: DryRunOutput) -> Map<Seq<char>, Seq<char>> {
    match o.config.env_options {
        Some(e) => match crate::env::environment(
            Map::empty(),
            vars_of(o.env_file_vars),
            crate::text::opt_views(e.env_var),
        ) {
            Ok(m) => m,
            Err(_) => Map::empty(),
        },
        None => Map::empty(),
    }
}

/// How `humanize` describes an unknown time.
pub open spec fn unknown_time() -> Seq<char> {
    seq!['a', 't', ' ', 'u', 'n', 'k', 'n', 'o', 'w', 'n', ' ', 't', 'i', 'm', 'e']
}

impl DryRunOutput {
    /// What a dry run of deploying `name` reports: an extension under its name with its
    /// compatible runtimes, or a function under its binary's name; the bucket, the tags, the
    /// function's settings and the profile of the deployment, with what the caller found:
    /// the SDK's region and endpoint, the zip file, its files, when the binary was built and
    /// the variables of the environment file.
    pub fn new(
        config: &Deploy,
        name: &str,
        region: Option<String>,
        endpoint_url: Option<String>,
        path: String,
        arch: String,
        files: Vec<String>,
        binary_modified_at: BinaryModifiedAt,
        env_file_vars: Option<StringMap>,
    ) -> (res: DryRunOutput)
        ensures
            config.extension ==> res.kind == DeployKind::Extension && res.name@ == name@ && views(
                res.runtimes@,
            ) == match config.compatible_runtimes {
                Some(v) => views(v@),
                None => crate::deploy::default_compatible_runtimes(),
            },
            !config.extension ==> res.kind == DeployKind::Function && res.name@ == (match config.binary_name {
                Some(b) => b@,
                None => name@,
            }) && res.runtimes@.len() == 0,
            opt_view(res.bucket) == opt_view(config.s3_bucket),
            opt_view(res.tags) == config.s3_tags_spec(),
            same_function_config(res.config, config.function_config),
            opt_view(res.profile) == opt_view(config.remote_config.profile),
            res.region == region,
            res.endpoint_url == endpoint_url,
            res.path == path,
            res.arch == arch,
            res.files == files,
            res.binary_modified_at == binary_modified_at,
            res.env_file_vars == env_file_vars,
    {
        let (kind, n, runtimes) = if config.extension {
            (DeployKind::Extension, crate::text::owned(name), config.compatible_runtimes())
        } else {
            (
                DeployKind::Function,
                crate::deploy_plan::binary_name_or_default(config, name),
                Vec::new(),
            )
        };
        DryRunOutput {
            kind,
            name: n,
            path,
            arch,
            files,
            runtimes,
            tags: config.s3_tags(),
            bucket: copy_opt_string(&config.s3_bucket),
            config: copy_function_config(&config.function_config),
            region,
            profile: copy_opt_string(&config.remote_config.profile),
            endpoint_url,
            binary_modified_at,
            env_file_vars,
        }
    }

    /// The environment shown for a function with env options.
    pub fn environment(&self) -> (res: StringMap)
        ensures
            res@ == shown_environment(*self),
    {
        match &self.config.env_options {
            Some(e) => {
                let base = StringMap::new();
                match e.lambda_environment(&base, self.env_file_vars.as_ref()) {
                    Ok(env) => env,
                    Err(_) => StringMap::new(),
                }
            },
            None => StringMap::new(),
        }
    }

    /// The text of the dry run. How long ago the binary was built depends on the clock;
    /// an unknown build time reads `at unknown time`.
    pub fn to_string(&self) -> (res: String)
        ensures
            exists|compiled: Seq<char>, env: Entries|
                #![trigger dry_run_text(*self, compiled, env)]
                res@ == dry_run_text(*self, compiled, env) && crate::strmap::map_of(env)
                    == shown_environment(*self) && (self.binary_modified_at.0 is None
                    ==> compiled == unknown_time()),
    {
        let compiled = self.binary_modified_at.humanize();
        let env = self.environment();
        proof {
            env.lemma_view_is_entries();
        }
        self.text(compiled.as_str(), &env)
    }
}

} // verus!
