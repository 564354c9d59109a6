//! Reading serialized options back by field name.
use vstd::prelude::*;
use crate::fields::{
    add_if, common_head_fields, common_rest_fields, env_fields, run_fields, str_or_empty,
    strs_or_empty, tls_fields, watch_fields, watch_head_fields, FieldView,
};
use crate::env::EnvOptions;
use crate::remote::TlsOptions;
use crate::watch_options::CommonOptions;
use crate::watch_options::Watch;
use crate::text::views;

verus! {

/// The value of the last field named `name`, if there is one.
pub open spec fn field_value(fs: Seq<(Seq<char>, FieldView)>, name: Seq<char>) -> Option<FieldView>
    decreases fs.len(),
{
    if fs.len() == 0 {
        None
    } else if fs.last().0 == name {
        Some(fs.last().1)
    } else {
        field_value(fs.drop_last(), name)
    }
}

/// A field appended under a condition is read back under its name; other names read what
/// was there before.
pub broadcast proof fn lemma_field_value_add_if(
    s: Seq<(Seq<char>, FieldView)>,
    cond: bool,
    name: Seq<char>,
    value: FieldView,
    key: Seq<char>,
)
    ensures
        #[trigger] field_value(add_if(s, cond, name, value), key) == if cond && name == key {
            Some(value)
        } else {
            field_value(s, key)
        },
{
    if cond {
        assert(add_if(s, cond, name, value).drop_last() =~= s);
    }
}

/// The names of the watch options' fields, each told apart from the others by its length
/// and first characters.
proof fn lemma_watch_names()
    ensures
        "ignore_changes"@.len() == 14 && "ignore_changes"@[0] == 'i' && "ignore_changes"@[1] == 'g',
        "only_lambda_apis"@.len() == 16 && "only_lambda_apis"@[0] == 'o' && "only_lambda_apis"@[1] == 'n',
        "invoke_address"@.len() == 14 && "invoke_address"@[0] == 'i' && "invoke_address"@[1] == 'n',
        "invoke_port"@.len() == 11 && "invoke_port"@[0] == 'i' && "invoke_port"@[1] == 'n',
        "print_traces"@.len() == 12 && "print_traces"@[0] == 'p' && "print_traces"@[1] == 'r',
        "wait"@.len() == 4 && "wait"@[0] == 'w' && "wait"@[1] == 'a',
        "disable_cors"@.len() == 12 && "disable_cors"@[0] == 'd' && "disable_cors"@[1] == 'i',
        "timeout"@.len() == 7 && "timeout"@[0] == 't' && "timeout"@[1] == 'i' && "timeout"@[3] == 'e',
        "router"@.len() == 6 && "router"@[0] == 'r' && "router"@[1] == 'o',
        "env_var"@.len() == 7 && "env_var"@[0] == 'e' && "env_var"@[1] == 'n',
        "env_file"@.len() == 8 && "env_file"@[0] == 'e' && "env_file"@[1] == 'n',
        "tls_cert"@.len() == 8 && "tls_cert"@[0] == 't' && "tls_cert"@[1] == 'l',
        "tls_key"@.len() == 7 && "tls_key"@[0] == 't' && "tls_key"@[1] == 'l',
        "tls_ca"@.len() == 6 && "tls_ca"@[0] == 't' && "tls_ca"@[1] == 'l',
        "manifest_path"@.len() == 13 && "manifest_path"@[0] == 'm' && "manifest_path"@[1] == 'a',
        "release"@.len() == 7 && "release"@[0] == 'r' && "release"@[1] == 'e',
        "ignore_rust_version"@.len() == 19 && "ignore_rust_version"@[0] == 'i' && "ignore_rust_version"@[1] == 'g',
        "unit_graph"@.len() == 10 && "unit_graph"@[0] == 'u' && "unit_graph"@[1] == 'n',
        "packages"@.len() == 8 && "packages"@[0] == 'p' && "packages"@[1] == 'a',
        "bin"@.len() == 3 && "bin"@[0] == 'b' && "bin"@[1] == 'i',
        "example"@.len() == 7 && "example"@[0] == 'e' && "example"@[1] == 'x',
        "args"@.len() == 4 && "args"@[0] == 'a' && "args"@[1] == 'r',
        "quiet"@.len() == 5 && "quiet"@[0] == 'q' && "quiet"@[1] == 'u',
        "jobs"@.len() == 4 && "jobs"@[0] == 'j' && "jobs"@[1] == 'o',
        "keep_going"@.len() == 10 && "keep_going"@[0] == 'k' && "keep_going"@[1] == 'e',
        "profile"@.len() == 7 && "profile"@[0] == 'p' && "profile"@[1] == 'r',
        "features"@.len() == 8 && "features"@[0] == 'f' && "features"@[1] == 'e',
        "all_features"@.len() == 12 && "all_features"@[0] == 'a' && "all_features"@[1] == 'l',
        "no_default_features"@.len() == 19 && "no_default_features"@[0] == 'n' && "no_default_features"@[1] == 'o',
        "target"@.len() == 6 && "target"@[0] == 't' && "target"@[1] == 'a',
        "target_dir"@.len() == 10 && "target_dir"@[0] == 't' && "target_dir"@[1] == 'a',
        "message_format"@.len() == 14 && "message_format"@[0] == 'm' && "message_format"@[1] == 'e',
        "verbose"@.len() == 7 && "verbose"@[0] == 'v' && "verbose"@[1] == 'e',
        "color"@.len() == 5 && "color"@[0] == 'c' && "color"@[1] == 'o',
        "frozen"@.len() == 6 && "frozen"@[0] == 'f' && "frozen"@[1] == 'r',
        "locked"@.len() == 6 && "locked"@[0] == 'l' && "locked"@[1] == 'o',
        "offline"@.len() == 7 && "offline"@[0] == 'o' && "offline"@[1] == 'f',
        "config"@.len() == 6 && "config"@[0] == 'c' && "config"@[1] == 'o',
        "unstable_flags"@.len() == 14 && "unstable_flags"@[0] == 'u' && "unstable_flags"@[1] == 'n',
        "timings"@.len() == 7 && "timings"@[0] == 't' && "timings"@[1] == 'i' && "timings"@[3] == 'i',
{
    reveal_strlit("ignore_changes");
    reveal_strlit("only_lambda_apis");
    reveal_strlit("invoke_address");
    reveal_strlit("invoke_port");
    reveal_strlit("print_traces");
    reveal_strlit("wait");
    reveal_strlit("disable_cors");
    reveal_strlit("timeout");
    reveal_strlit("router");
    reveal_strlit("env_var");
    reveal_strlit("env_file");
    reveal_strlit("tls_cert");
    reveal_strlit("tls_key");
    reveal_strlit("tls_ca");
    reveal_strlit("manifest_path");
    reveal_strlit("release");
    reveal_strlit("ignore_rust_version");
    reveal_strlit("unit_graph");
    reveal_strlit("packages");
    reveal_strlit("bin");
    reveal_strlit("example");
    reveal_strlit("args");
    reveal_strlit("quiet");
    reveal_strlit("jobs");
    reveal_strlit("keep_going");
    reveal_strlit("profile");
    reveal_strlit("features");
    reveal_strlit("all_features");
    reveal_strlit("no_default_features");
    reveal_strlit("target");
    reveal_strlit("target_dir");
    reveal_strlit("message_format");
    reveal_strlit("verbose");
    reveal_strlit("color");
    reveal_strlit("frozen");
    reveal_strlit("locked");
    reveal_strlit("offline");
    reveal_strlit("config");
    reveal_strlit("unstable_flags");
    reveal_strlit("timings");
}

/// `name` is none of the names of the watch options' own fields.
pub open spec fn not_head_name(name: Seq<char>) -> bool {
    name != "ignore_changes"@ && name != "only_lambda_apis"@ && name != "invoke_address"@ && name != "invoke_port"@ && name != "print_traces"@ && name != "wait"@ && name != "disable_cors"@ && name != "timeout"@ && name != "router"@
}

/// The fields of the watch options' own fields leave other names as they were.
proof fn lemma_head_skip(s: Seq<(Seq<char>, FieldView)>, w: Watch, name: Seq<char>)
    requires
        not_head_name(name),
    ensures
        field_value(watch_head_fields(s, w), name) == field_value(s, name),
{
    broadcast use lemma_field_value_add_if;
}

/// `name` is none of the names of the environment options.
pub open spec fn not_env_name(name: Seq<char>) -> bool {
    name != "env_var"@ && name != "env_file"@
}

/// The fields of the environment options leave other names as they were.
proof fn lemma_env_skip(s: Seq<(Seq<char>, FieldView)>, e: EnvOptions, name: Seq<char>)
    requires
        not_env_name(name),
    ensures
        field_value(env_fields(s, e), name) == field_value(s, name),
{
    broadcast use lemma_field_value_add_if;
}

/// `name` is none of the names of the TLS options.
pub open spec fn not_tls_name(name: Seq<char>) -> bool {
    name != "tls_cert"@ && name != "tls_key"@ && name != "tls_ca"@
}

/// The fields of the TLS options leave other names as they were.
proof fn lemma_tls_skip(s: Seq<(Seq<char>, FieldView)>, t: TlsOptions, name: Seq<char>)
    requires
        not_tls_name(name),
    ensures
        field_value(tls_fields(s, t), name) == field_value(s, name),
{
    broadcast use lemma_field_value_add_if;
}

/// `name` is none of the names of the `cargo run` options.
pub open spec fn not_run_name(name: Seq<char>) -> bool {
    name != "manifest_path"@ && name != "release"@ && name != "ignore_rust_version"@ && name != "unit_graph"@ && name != "packages"@ && name != "bin"@ && name != "example"@ && name != "args"@
}

/// The fields of the `cargo run` options leave other names as they were.
proof fn lemma_run_skip(s: Seq<(Seq<char>, FieldView)>, w: Watch, name: Seq<char>)
    requires
        not_run_name(name),
    ensures
        field_value(run_fields(s, w), name) == field_value(s, name),
{
    broadcast use lemma_field_value_add_if;
}

/// `name` is none of the names of the first of Cargo's common options.
pub open spec fn not_chead_name(name: Seq<char>) -> bool {
    name != "quiet"@ && name != "jobs"@ && name != "keep_going"@ && name != "profile"@ && name != "features"@ && name != "all_features"@ && name != "no_default_features"@ && name != "target"@ && name != "target_dir"@
}

/// The fields of the first of Cargo's common options leave other names as they were.
proof fn lemma_chead_skip(s: Seq<(Seq<char>, FieldView)>, o: CommonOptions, name: Seq<char>)
    requires
        not_chead_name(name),
    ensures
        field_value(common_head_fields(s, o), name) == field_value(s, name),
{
    broadcast use lemma_field_value_add_if;
}

/// `name` is none of the names of the other common options.
pub open spec fn not_crest_name(name: Seq<char>) -> bool {
    name != "message_format"@ && name != "verbose"@ && name != "color"@ && name != "frozen"@ && name != "locked"@ && name != "offline"@ && name != "config"@ && name != "unstable_flags"@ && name != "timings"@
}

/// The fields of the other common options leave other names as they were.
proof fn lemma_crest_skip(s: Seq<(Seq<char>, FieldView)>, o: CommonOptions, name: Seq<char>)
    requires
        not_crest_name(name),
    ensures
        field_value(common_rest_fields(s, o), name) == field_value(s, name),
{
    broadcast use lemma_field_value_add_if;
}

/// What the watch options' own fields write under their names.
proof fn lemma_head_keys(s: Seq<(Seq<char>, FieldView)>, w: Watch)
    ensures
        field_value(watch_head_fields(s, w), "invoke_address"@) == if w.invoke_address@.len() > 0 {
            Some(FieldView::Str(w.invoke_address@))
        } else {
            field_value(s, "invoke_address"@)
        },
        field_value(watch_head_fields(s, w), "invoke_port"@) == if w.invoke_port != 0 {
            Some(FieldView::Int(w.invoke_port as int))
        } else {
            field_value(s, "invoke_port"@)
        },
        field_value(watch_head_fields(s, w), "timeout"@) == if w.timeout is Some {
            Some(FieldView::Int(match w.timeout { Some(t) => t@ as int, None => 0 }))
        } else {
            field_value(s, "timeout"@)
        },
{
    broadcast use lemma_field_value_add_if;
    lemma_watch_names();
}

/// What the environment options write under their names.
proof fn lemma_env_keys(s: Seq<(Seq<char>, FieldView)>, e: EnvOptions)
    ensures
        field_value(env_fields(s, e), "env_var"@) == if e.env_var is Some {
            Some(FieldView::Strings(strs_or_empty(e.env_var)))
        } else {
            field_value(s, "env_var"@)
        },
        field_value(env_fields(s, e), "env_file"@) == if e.env_file is Some {
            Some(FieldView::Str(str_or_empty(e.env_file)))
        } else {
            field_value(s, "env_file"@)
        },
{
    broadcast use lemma_field_value_add_if;
    lemma_watch_names();
}

/// What the first of Cargo's common options write under their names.
proof fn lemma_chead_keys(s: Seq<(Seq<char>, FieldView)>, o: CommonOptions)
    ensures
        field_value(common_head_fields(s, o), "features"@) == if o.features@.len() > 0 {
            Some(FieldView::Strings(views(o.features@)))
        } else {
            field_value(s, "features"@)
        },
        field_value(common_head_fields(s, o), "no_default_features"@) == if o.no_default_features {
            Some(FieldView::Bool(true))
        } else {
            field_value(s, "no_default_features"@)
        },
        field_value(common_head_fields(s, o), "target"@) == if o.target@.len() > 0 {
            Some(FieldView::Strings(views(o.target@)))
        } else {
            field_value(s, "target"@)
        },
        field_value(common_head_fields(s, o), "target_dir"@) == if o.target_dir is Some {
            Some(FieldView::Str(str_or_empty(o.target_dir)))
        } else {
            field_value(s, "target_dir"@)
        },
{
    broadcast use lemma_field_value_add_if;
    lemma_watch_names();
}

/// What the other common options write under their names.
proof fn lemma_crest_keys(s: Seq<(Seq<char>, FieldView)>, o: CommonOptions)
    ensures
        field_value(common_rest_fields(s, o), "message_format"@) == if o.message_format@.len() > 0 {
            Some(FieldView::Strings(views(o.message_format@)))
        } else {
            field_value(s, "message_format"@)
        },
        field_value(common_rest_fields(s, o), "verbose"@) == if o.verbose > 0 {
            Some(FieldView::Int(o.verbose as int))
        } else {
            field_value(s, "verbose"@)
        },
        field_value(common_rest_fields(s, o), "color"@) == if o.color is Some {
            Some(FieldView::Str(str_or_empty(o.color)))
        } else {
            field_value(s, "color"@)
        },
        field_value(common_rest_fields(s, o), "frozen"@) == if o.frozen {
            Some(FieldView::Bool(true))
        } else {
            field_value(s, "frozen"@)
        },
        field_value(common_rest_fields(s, o), "locked"@) == if o.locked {
            Some(FieldView::Bool(true))
        } else {
            field_value(s, "locked"@)
        },
        field_value(common_rest_fields(s, o), "offline"@) == if o.offline {
            Some(FieldView::Bool(true))
        } else {
            field_value(s, "offline"@)
        },
        field_value(common_rest_fields(s, o), "config"@) == if o.config@.len() > 0 {
            Some(FieldView::Strings(views(o.config@)))
        } else {
            field_value(s, "config"@)
        },
        field_value(common_rest_fields(s, o), "unstable_flags"@) == if o.unstable_flags@.len() > 0 {
            Some(FieldView::Strings(views(o.unstable_flags@)))
        } else {
            field_value(s, "unstable_flags"@)
        },
        field_value(common_rest_fields(s, o), "timings"@) == if o.timings is Some {
            Some(FieldView::Strings(strs_or_empty(o.timings)))
        } else {
            field_value(s, "timings"@)
        },
{
    broadcast use lemma_field_value_add_if;
    lemma_watch_names();
}

/// The watch options' own fields.
pub open spec fn upto_head(w: Watch) -> Seq<(Seq<char>, FieldView)> {
    watch_head_fields(Seq::empty(), w)
}

/// The fields up to the environment options.
pub open spec fn upto_env(w: Watch) -> Seq<(Seq<char>, FieldView)> {
    env_fields(upto_head(w), w.env_options)
}

/// The fields up to the TLS options.
pub open spec fn upto_tls(w: Watch) -> Seq<(Seq<char>, FieldView)> {
    tls_fields(upto_env(w), w.tls_options)
}

/// The fields up to the `cargo run` options.
pub open spec fn upto_run(w: Watch) -> Seq<(Seq<char>, FieldView)> {
    run_fields(upto_tls(w), w)
}

/// The fields up to the first of Cargo's common options.
pub open spec fn upto_chead(w: Watch) -> Seq<(Seq<char>, FieldView)> {
    common_head_fields(upto_run(w), w.cargo_opts.common)
}

/// The field `invoke_address` read back.
proof fn lemma_read_invoke_address(w: Watch)
    ensures
        field_value(watch_fields(w), "invoke_address"@) == if w.invoke_address@.len() > 0 {
            Some(FieldView::Str(w.invoke_address@))
        } else {
            None
        },
{
    lemma_watch_names();
    lemma_head_keys(Seq::empty(), w);
    lemma_env_skip(upto_head(w), w.env_options, "invoke_address"@);
    lemma_tls_skip(upto_env(w), w.tls_options, "invoke_address"@);
    lemma_run_skip(upto_tls(w), w, "invoke_address"@);
    lemma_chead_skip(upto_run(w), w.cargo_opts.common, "invoke_address"@);
    lemma_crest_skip(upto_chead(w), w.cargo_opts.common, "invoke_address"@);
}

/// The field `invoke_port` read back.
proof fn lemma_read_invoke_port(w: Watch)
    ensures
        field_value(watch_fields(w), "invoke_port"@) == if w.invoke_port != 0 {
            Some(FieldView::Int(w.invoke_port as int))
        } else {
            None
        },
{
    lemma_watch_names();
    lemma_head_keys(Seq::empty(), w);
    lemma_env_skip(upto_head(w), w.env_options, "invoke_port"@);
    lemma_tls_skip(upto_env(w), w.tls_options, "invoke_port"@);
    lemma_run_skip(upto_tls(w), w, "invoke_port"@);
    lemma_chead_skip(upto_run(w), w.cargo_opts.common, "invoke_port"@);
    lemma_crest_skip(upto_chead(w), w.cargo_opts.common, "invoke_port"@);
}

/// The field `timeout` read back.
proof fn lemma_read_timeout(w: Watch)
    ensures
        field_value(watch_fields(w), "timeout"@) == if w.timeout is Some {
            Some(FieldView::Int(match w.timeout { Some(t) => t@ as int, None => 0 }))
        } else {
            None
        },
{
    lemma_watch_names();
    lemma_head_keys(Seq::empty(), w);
    lemma_env_skip(upto_head(w), w.env_options, "timeout"@);
    lemma_tls_skip(upto_env(w), w.tls_options, "timeout"@);
    lemma_run_skip(upto_tls(w), w, "timeout"@);
    lemma_chead_skip(upto_run(w), w.cargo_opts.common, "timeout"@);
    lemma_crest_skip(upto_chead(w), w.cargo_opts.common, "timeout"@);
}

/// The field `env_var` read back.
proof fn lemma_read_env_var(w: Watch)
    ensures
        field_value(watch_fields(w), "env_var"@) == if w.env_options.env_var is Some {
            Some(FieldView::Strings(strs_or_empty(w.env_options.env_var)))
        } else {
            None
        },
{
    lemma_watch_names();
    lemma_env_keys(upto_head(w), w.env_options);
    lemma_head_skip(Seq::empty(), w, "env_var"@);
    lemma_tls_skip(upto_env(w), w.tls_options, "env_var"@);
    lemma_run_skip(upto_tls(w), w, "env_var"@);
    lemma_chead_skip(upto_run(w), w.cargo_opts.common, "env_var"@);
    lemma_crest_skip(upto_chead(w), w.cargo_opts.common, "env_var"@);
}

/// The field `env_file` read back.
proof fn lemma_read_env_file(w: Watch)
    ensures
        field_value(watch_fields(w), "env_file"@) == if w.env_options.env_file is Some {
            Some(FieldView::Str(str_or_empty(w.env_options.env_file)))
        } else {
            None
        },
{
    lemma_watch_names();
    lemma_env_keys(upto_head(w), w.env_options);
    lemma_head_skip(Seq::empty(), w, "env_file"@);
    lemma_tls_skip(upto_env(w), w.tls_options, "env_file"@);
    lemma_run_skip(upto_tls(w), w, "env_file"@);
    lemma_chead_skip(upto_run(w), w.cargo_opts.common, "env_file"@);
    lemma_crest_skip(upto_chead(w), w.cargo_opts.common, "env_file"@);
}

/// The field `features` read back.
proof fn lemma_read_features(w: Watch)
    ensures
        field_value(watch_fields(w), "features"@) == if w.cargo_opts.common.features@.len() > 0 {
            Some(FieldView::Strings(views(w.cargo_opts.common.features@)))
        } else {
            None
        },
{
    lemma_watch_names();
    lemma_chead_keys(upto_run(w), w.cargo_opts.common);
    lemma_head_skip(Seq::empty(), w, "features"@);
    lemma_env_skip(upto_head(w), w.env_options, "features"@);
    lemma_tls_skip(upto_env(w), w.tls_options, "features"@);
    lemma_run_skip(upto_tls(w), w, "features"@);
    lemma_crest_skip(upto_chead(w), w.cargo_opts.common, "features"@);
}

/// The field `no_default_features` read back.
proof fn lemma_read_no_default_features(w: Watch)
    ensures
        field_value(watch_fields(w), "no_default_features"@) == if w.cargo_opts.common.no_default_features {
            Some(FieldView::Bool(true))
        } else {
            None
        },
{
    lemma_watch_names();
    lemma_chead_keys(upto_run(w), w.cargo_opts.common);
    lemma_head_skip(Seq::empty(), w, "no_default_features"@);
    lemma_env_skip(upto_head(w), w.env_options, "no_default_features"@);
    lemma_tls_skip(upto_env(w), w.tls_options, "no_default_features"@);
    lemma_run_skip(upto_tls(w), w, "no_default_features"@);
    lemma_crest_skip(upto_chead(w), w.cargo_opts.common, "no_default_features"@);
}

/// The field `target` read back.
proof fn lemma_read_target(w: Watch)
    ensures
        field_value(watch_fields(w), "target"@) == if w.cargo_opts.common.target@.len() > 0 {
            Some(FieldView::Strings(views(w.cargo_opts.common.target@)))
        } else {
            None
        },
{
    lemma_watch_names();
    lemma_chead_keys(upto_run(w), w.cargo_opts.common);
    lemma_head_skip(Seq::empty(), w, "target"@);
    lemma_env_skip(upto_head(w), w.env_options, "target"@);
    lemma_tls_skip(upto_env(w), w.tls_options, "target"@);
    lemma_run_skip(upto_tls(w), w, "target"@);
    lemma_crest_skip(upto_chead(w), w.cargo_opts.common, "target"@);
}

/// The field `target_dir` read back.
proof fn lemma_read_target_dir(w: Watch)
    ensures
        field_value(watch_fields(w), "target_dir"@) == if w.cargo_opts.common.target_dir is Some {
            Some(FieldView::Str(str_or_empty(w.cargo_opts.common.target_dir)))
        } else {
            None
        },
{
    lemma_watch_names();
    lemma_chead_keys(upto_run(w), w.cargo_opts.common);
    lemma_head_skip(Seq::empty(), w, "target_dir"@);
    lemma_env_skip(upto_head(w), w.env_options, "target_dir"@);
    lemma_tls_skip(upto_env(w), w.tls_options, "target_dir"@);
    lemma_run_skip(upto_tls(w), w, "target_dir"@);
    lemma_crest_skip(upto_chead(w), w.cargo_opts.common, "target_dir"@);
}

/// The field `message_format` read back.
proof fn lemma_read_message_format(w: Watch)
    ensures
        field_value(watch_fields(w), "message_format"@) == if w.cargo_opts.common.message_format@.len() > 0 {
            Some(FieldView::Strings(views(w.cargo_opts.common.message_format@)))
        } else {
            None
        },
{
    lemma_watch_names();
    lemma_crest_keys(upto_chead(w), w.cargo_opts.common);
    lemma_head_skip(Seq::empty(), w, "message_format"@);
    lemma_env_skip(upto_head(w), w.env_options, "message_format"@);
    lemma_tls_skip(upto_env(w), w.tls_options, "message_format"@);
    lemma_run_skip(upto_tls(w), w, "message_format"@);
    lemma_chead_skip(upto_run(w), w.cargo_opts.common, "message_format"@);
}

/// The field `verbose` read back.
proof fn lemma_read_verbose(w: Watch)
    ensures
        field_value(watch_fields(w), "verbose"@) == if w.cargo_opts.common.verbose > 0 {
            Some(FieldView::Int(w.cargo_opts.common.verbose as int))
        } else {
            None
        },
{
    lemma_watch_names();
    lemma_crest_keys(upto_chead(w), w.cargo_opts.common);
    lemma_head_skip(Seq::empty(), w, "verbose"@);
    lemma_env_skip(upto_head(w), w.env_options, "verbose"@);
    lemma_tls_skip(upto_env(w), w.tls_options, "verbose"@);
    lemma_run_skip(upto_tls(w), w, "verbose"@);
    lemma_chead_skip(upto_run(w), w.cargo_opts.common, "verbose"@);
}

/// The field `color` read back.
proof fn lemma_read_color(w: Watch)
    ensures
        field_value(watch_fields(w), "color"@) == if w.cargo_opts.common.color is Some {
            Some(FieldView::Str(str_or_empty(w.cargo_opts.common.color)))
        } else {
            None
        },
{
    lemma_watch_names();
    lemma_crest_keys(upto_chead(w), w.cargo_opts.common);
    lemma_head_skip(Seq::empty(), w, "color"@);
    lemma_env_skip(upto_head(w), w.env_options, "color"@);
    lemma_tls_skip(upto_env(w), w.tls_options, "color"@);
    lemma_run_skip(upto_tls(w), w, "color"@);
    lemma_chead_skip(upto_run(w), w.cargo_opts.common, "color"@);
}

/// The field `frozen` read back.
proof fn lemma_read_frozen(w: Watch)
    ensures
        field_value(watch_fields(w), "frozen"@) == if w.cargo_opts.common.frozen {
            Some(FieldView::Bool(true))
        } else {
            None
        },
{
    lemma_watch_names();
    lemma_crest_keys(upto_chead(w), w.cargo_opts.common);
    lemma_head_skip(Seq::empty(), w, "frozen"@);
    lemma_env_skip(upto_head(w), w.env_options, "frozen"@);
    lemma_tls_skip(upto_env(w), w.tls_options, "frozen"@);
    lemma_run_skip(upto_tls(w), w, "frozen"@);
    lemma_chead_skip(upto_run(w), w.cargo_opts.common, "frozen"@);
}

/// The field `locked` read back.
proof fn lemma_read_locked(w: Watch)
    ensures
        field_value(watch_fields(w), "locked"@) == if w.cargo_opts.common.locked {
            Some(FieldView::Bool(true))
        } else {
            None
        },
{
    lemma_watch_names();
    lemma_crest_keys(upto_chead(w), w.cargo_opts.common);
    lemma_head_skip(Seq::empty(), w, "locked"@);
    lemma_env_skip(upto_head(w), w.env_options, "locked"@);
    lemma_tls_skip(upto_env(w), w.tls_options, "locked"@);
    lemma_run_skip(upto_tls(w), w, "locked"@);
    lemma_chead_skip(upto_run(w), w.cargo_opts.common, "locked"@);
}

/// The field `offline` read back.
proof fn lemma_read_offline(w: Watch)
    ensures
        field_value(watch_fields(w), "offline"@) == if w.cargo_opts.common.offline {
            Some(FieldView::Bool(true))
        } else {
            None
        },
{
    lemma_watch_names();
    lemma_crest_keys(upto_chead(w), w.cargo_opts.common);
    lemma_head_skip(Seq::empty(), w, "offline"@);
    lemma_env_skip(upto_head(w), w.env_options, "offline"@);
    lemma_tls_skip(upto_env(w), w.tls_options, "offline"@);
    lemma_run_skip(upto_tls(w), w, "offline"@);
    lemma_chead_skip(upto_run(w), w.cargo_opts.common, "offline"@);
}

/// The field `config` read back.
proof fn lemma_read_config(w: Watch)
    ensures
        field_value(watch_fields(w), "config"@) == if w.cargo_opts.common.config@.len() > 0 {
            Some(FieldView::Strings(views(w.cargo_opts.common.config@)))
        } else {
            None
        },
{
    lemma_watch_names();
    lemma_crest_keys(upto_chead(w), w.cargo_opts.common);
    lemma_head_skip(Seq::empty(), w, "config"@);
    lemma_env_skip(upto_head(w), w.env_options, "config"@);
    lemma_tls_skip(upto_env(w), w.tls_options, "config"@);
    lemma_run_skip(upto_tls(w), w, "config"@);
    lemma_chead_skip(upto_run(w), w.cargo_opts.common, "config"@);
}

/// The field `unstable_flags` read back.
proof fn lemma_read_unstable_flags(w: Watch)
    ensures
        field_value(watch_fields(w), "unstable_flags"@) == if w.cargo_opts.common.unstable_flags@.len() > 0 {
            Some(FieldView::Strings(views(w.cargo_opts.common.unstable_flags@)))
        } else {
            None
        },
{
    lemma_watch_names();
    lemma_crest_keys(upto_chead(w), w.cargo_opts.common);
    lemma_head_skip(Seq::empty(), w, "unstable_flags"@);
    lemma_env_skip(upto_head(w), w.env_options, "unstable_flags"@);
    lemma_tls_skip(upto_env(w), w.tls_options, "unstable_flags"@);
    lemma_run_skip(upto_tls(w), w, "unstable_flags"@);
    lemma_chead_skip(upto_run(w), w.cargo_opts.common, "unstable_flags"@);
}

/// The field `timings` read back.
proof fn lemma_read_timings(w: Watch)
    ensures
        field_value(watch_fields(w), "timings"@) == if w.cargo_opts.common.timings is Some {
            Some(FieldView::Strings(strs_or_empty(w.cargo_opts.common.timings)))
        } else {
            None
        },
{
    lemma_watch_names();
    lemma_crest_keys(upto_chead(w), w.cargo_opts.common);
    lemma_head_skip(Seq::empty(), w, "timings"@);
    lemma_env_skip(upto_head(w), w.env_options, "timings"@);
    lemma_tls_skip(upto_env(w), w.tls_options, "timings"@);
    lemma_run_skip(upto_tls(w), w, "timings"@);
    lemma_chead_skip(upto_run(w), w.cargo_opts.common, "timings"@);
}

/// Reading the serialized watch options back by field name gives each option that was set,
/// and nothing for one that was not: the invoke address and port, the timeout, the
/// environment options and Cargo's common options.
pub proof fn law_watch_read_back(w: Watch)
    ensures
        field_value(watch_fields(w), "invoke_address"@) == if w.invoke_address@.len() > 0 {
            Some(FieldView::Str(w.invoke_address@))
        } else {
            None
        },
        field_value(watch_fields(w), "invoke_port"@) == if w.invoke_port != 0 {
            Some(FieldView::Int(w.invoke_port as int))
        } else {
            None
        },
        field_value(watch_fields(w), "timeout"@) == if w.timeout is Some {
            Some(FieldView::Int(match w.timeout { Some(t) => t@ as int, None => 0 }))
        } else {
            None
        },
        field_value(watch_fields(w), "env_var"@) == if w.env_options.env_var is Some {
            Some(FieldView::Strings(strs_or_empty(w.env_options.env_var)))
        } else {
            None
        },
        field_value(watch_fields(w), "env_file"@) == if w.env_options.env_file is Some {
            Some(FieldView::Str(str_or_empty(w.env_options.env_file)))
        } else {
            None
        },
        field_value(watch_fields(w), "features"@) == if w.cargo_opts.common.features@.len() > 0 {
            Some(FieldView::Strings(views(w.cargo_opts.common.features@)))
        } else {
            None
        },
        field_value(watch_fields(w), "no_default_features"@) == if w.cargo_opts.common.no_default_features {
            Some(FieldView::Bool(true))
        } else {
            None
        },
        field_value(watch_fields(w), "target"@) == if w.cargo_opts.common.target@.len() > 0 {
            Some(FieldView::Strings(views(w.cargo_opts.common.target@)))
        } else {
            None
        },
        field_value(watch_fields(w), "target_dir"@) == if w.cargo_opts.common.target_dir is Some {
            Some(FieldView::Str(str_or_empty(w.cargo_opts.common.target_dir)))
        } else {
            None
        },
        field_value(watch_fields(w), "message_format"@) == if w.cargo_opts.common.message_format@.len() > 0 {
            Some(FieldView::Strings(views(w.cargo_opts.common.message_format@)))
        } else {
            None
        },
        field_value(watch_fields(w), "verbose"@) == if w.cargo_opts.common.verbose > 0 {
            Some(FieldView::Int(w.cargo_opts.common.verbose as int))
        } else {
            None
        },
        field_value(watch_fields(w), "color"@) == if w.cargo_opts.common.color is Some {
            Some(FieldView::Str(str_or_empty(w.cargo_opts.common.color)))
        } else {
            None
        },
        field_value(watch_fields(w), "frozen"@) == if w.cargo_opts.common.frozen {
            Some(FieldView::Bool(true))
        } else {
            None
        },
        field_value(watch_fields(w), "locked"@) == if w.cargo_opts.common.locked {
            Some(FieldView::Bool(true))
        } else {
            None
        },
        field_value(watch_fields(w), "offline"@) == if w.cargo_opts.common.offline {
            Some(FieldView::Bool(true))
        } else {
            None
        },
        field_value(watch_fields(w), "config"@) == if w.cargo_opts.common.config@.len() > 0 {
            Some(FieldView::Strings(views(w.cargo_opts.common.config@)))
        } else {
            None
        },
        field_value(watch_fields(w), "unstable_flags"@) == if w.cargo_opts.common.unstable_flags@.len() > 0 {
            Some(FieldView::Strings(views(w.cargo_opts.common.unstable_flags@)))
        } else {
            None
        },
        field_value(watch_fields(w), "timings"@) == if w.cargo_opts.common.timings is Some {
            Some(FieldView::Strings(strs_or_empty(w.cargo_opts.common.timings)))
        } else {
            None
        },
{
    lemma_read_invoke_address(w);
    lemma_read_invoke_port(w);
    lemma_read_timeout(w);
    lemma_read_env_var(w);
    lemma_read_env_file(w);
    lemma_read_features(w);
    lemma_read_no_default_features(w);
    lemma_read_target(w);
    lemma_read_target_dir(w);
    lemma_read_message_format(w);
    lemma_read_verbose(w);
    lemma_read_color(w);
    lemma_read_frozen(w);
    lemma_read_locked(w);
    lemma_read_offline(w);
    lemma_read_config(w);
    lemma_read_unstable_flags(w);
    lemma_read_timings(w);
}

} // verus!
