//! The commands that compile functions: the program, its arguments and its environment.
use vstd::prelude::*;
use crate::cargo_meta::{CargoMetadata, Json};
use crate::cross::{default_cross_image, image_configured, image_env_name, image_prefix, image_tag};
use crate::deploy_config::CargoCompilerOptions;
use crate::target_arch::Channel;
use crate::text::{chars_of, copy_opt_strings, copy_strings, opt_views, owned, views};
use crate::zig::{split_on_spaces, split_spaces};

verus! {

/// A command to run: its program, its arguments, and a variable to set in its environment.
#[derive(Debug)]
pub struct CompileCommand {
    pub program: String,
    pub args: Vec<String>,
    pub env: Option<(String, String)>,
}

/// Words given in an environment variable, split on spaces, over the words of the options.
pub open spec fn override_words(env: Option<Seq<char>>, given: Option<Seq<Seq<char>>>) -> Option<
    Seq<Seq<char>>,
> {
    match env {
        Some(s) => Some(split_spaces(s)),
        None => given,
    }
}

/// The words of an environment variable, split on spaces, when it is set; otherwise those
/// of the options.
fn words_or(env: Option<&str>, given: &Option<Vec<String>>) -> (res: Option<Vec<String>>)
    ensures
        opt_views(res) == override_words(
            match env {
                Some(s) => Some(s@),
                None => None,
            },
            opt_views(*given),
        ),
{
    match env {
        Some(s) => {
            let v = chars_of(s);
            Some(split_on_spaces(v.as_slice()))
        },
        None => copy_opt_strings(given),
    }
}

/// The Cargo subcommand and the extra arguments of a build: each from its environment
/// variable (`CARGO_LAMBDA_COMPILER_SUBCOMMAND`, `CARGO_LAMBDA_COMPILER_EXTRA_ARGS`), split
/// on spaces, when the variable is set, otherwise from the options.
pub fn cargo_subcommand(
    env_subcommand: Option<&str>,
    env_extra_args: Option<&str>,
    options: &CargoCompilerOptions,
) -> (res: (Option<Vec<String>>, Option<Vec<String>>))
    ensures
        opt_views(res.0) == override_words(
            match env_subcommand {
                Some(s) => Some(s@),
                None => None,
            },
            opt_views(options.subcommand),
        ),
        opt_views(res.1) == override_words(
            match env_extra_args {
                Some(s) => Some(s@),
                None => None,
            },
            opt_views(options.extra_args),
        ),
{
    (words_or(env_subcommand, &options.subcommand), words_or(env_extra_args, &options.extra_args))
}

/// The arguments of a Cargo build: with a subcommand, the subcommand in place of the first
/// argument (`build`), then the extra arguments.
pub open spec fn cargo_args(
    build_args: Seq<Seq<char>>,
    subcommand: Option<Seq<Seq<char>>>,
    extra: Option<Seq<Seq<char>>>,
) -> Seq<Seq<char>> {
    let head = match subcommand {
        Some(s) => s + build_args.subrange(
            if build_args.len() > 0 {
                1
            } else {
                0
            },
            build_args.len() as int,
        ),
        None => build_args,
    };
    head + match extra {
        Some(e) => e,
        None => Seq::empty(),
    }
}

/// Appends copies of `words` to `out`.
fn append_words(out: &mut Vec<String>, words: &Vec<String>, from: usize)
    requires
        from <= words@.len(),
    ensures
        views(final(out)@) == views(old(out)@) + views(words@).subrange(from as int, words@.len() as int),
{
    let ghost start = views(out@);
    let mut i = from;
    while i < words.len()
        invariant
            from <= i <= words@.len(),
            views(out@) == start + views(words@).subrange(from as int, i as int),
        decreases words@.len() - i,
    {
        let ghost before = out@;
        out.push(words[i].clone());
        assert(views(out@) =~= views(before).push(words@[i as int]@));
        assert(views(words@).subrange(from as int, i + 1) =~= views(words@).subrange(
            from as int,
            i as int,
        ).push(words@[i as int]@));
        assert(views(out@) =~= start + views(words@).subrange(from as int, i + 1));
        i = i + 1;
    }
}

/// The command that builds with Cargo: `cargo` with the arguments of `cargo build`
/// (`build_args`, first the word `build`), a subcommand in place of `build` and extra
/// arguments after them, each from its environment variable or the options.
pub fn cargo_command(
    build_args: &Vec<String>,
    env_subcommand: Option<&str>,
    env_extra_args: Option<&str>,
    options: &CargoCompilerOptions,
) -> (res: CompileCommand)
    ensures
        res.program@ == "cargo"@,
        views(res.args@) == cargo_args(
            views(build_args@),
            override_words(
                match env_subcommand {
                    Some(s) => Some(s@),
                    None => None,
                },
                opt_views(options.subcommand),
            ),
            override_words(
                match env_extra_args {
                    Some(s) => Some(s@),
                    None => None,
                },
                opt_views(options.extra_args),
            ),
        ),
        res.env is None,
{
    let (subcommand, extra) = cargo_subcommand(env_subcommand, env_extra_args, options);
    let mut args: Vec<String> = Vec::new();
    assert(views(args@) =~= Seq::<Seq<char>>::empty());
    match &subcommand {
        Some(s) => {
            append_words(&mut args, s, 0);
            let from: usize = if build_args.len() > 0 {
                1
            } else {
                0
            };
            append_words(&mut args, build_args, from);
            assert(views(s@).subrange(0, s@.len() as int) =~= views(s@));
        },
        None => {
            append_words(&mut args, build_args, 0);
            assert(views(build_args@).subrange(0, build_args@.len() as int) =~= views(build_args@));
        },
    }
    let ghost head = views(args@);
    match &extra {
        Some(e) => {
            append_words(&mut args, e, 0);
            assert(views(e@).subrange(0, e@.len() as int) =~= views(e@));
        },
        None => {
            assert(views(args@) =~= head + Seq::<Seq<char>>::empty());
        },
    }
    CompileCommand { program: owned("cargo"), args, env: None }
}

/// The command that builds with `cross`: `cross` with the arguments of `cargo build`, and
/// the variable of the default build image for `target` unless the project configures one
/// (`env_var_set`: whether that variable is already set).
pub fn cross_command(
    build_args: &Vec<String>,
    target: &str,
    env_var_set: bool,
    metadata: &CargoMetadata,
    cross_toml: Option<&Json>,
) -> (res: CompileCommand)
    ensures
        res.program@ == "cross"@,
        views(res.args@) == views(build_args@),
        image_configured(
            target@,
            *metadata,
            match cross_toml {
                Some(t) => Some(*t),
                None => None,
            },
            env_var_set,
        ) ==> res.env is None,
        !image_configured(
            target@,
            *metadata,
            match cross_toml {
                Some(t) => Some(*t),
                None => None,
            },
            env_var_set,
        ) ==> (res.env matches Some((name, image)) && name@ == image_env_name(target@) && image@
            == image_prefix() + target@ + image_tag()),
{
    CompileCommand {
        program: owned("cross"),
        args: copy_strings(build_args),
        env: default_cross_image(target, env_var_set, metadata, cross_toml),
    }
}

/// The arguments of `rustup` that list the targets installed for a toolchain channel.
pub fn target_list_args(channel: Channel) -> (res: Vec<String>)
    ensures
        views(res@) == seq![
            seq!['+'] + crate::zig::channel_name(channel),
            "target"@,
            "list"@,
            "--installed"@,
        ],
{
    let mut toolchain = chars_of("+");
    proof {
        reveal_strlit("+");
    }
    let name = chars_of(crate::zig::toolchain_name(channel));
    crate::text::extend_chars(&mut toolchain, name.as_slice());
    let mut res: Vec<String> = Vec::new();
    let first = crate::text::string_of(toolchain.as_slice());
    assert(first@ =~= seq!['+'] + crate::zig::channel_name(channel));
    res.push(first);
    res.push(owned("target"));
    res.push(owned("list"));
    res.push(owned("--installed"));
    assert(views(res@).len() == 4);
    assert(views(res@) =~= seq![
        seq!['+'] + crate::zig::channel_name(channel),
        "target"@,
        "list"@,
        "--installed"@,
    ]);
    res
}

/// The arguments of `rustup` that add the target `component` to a toolchain channel.
pub fn target_add_args(channel: Channel, component: &str) -> (res: Vec<String>)
    ensures
        views(res@) == seq![
            seq!['+'] + crate::zig::channel_name(channel),
            "target"@,
            "add"@,
            component@,
        ],
{
    let mut toolchain = chars_of("+");
    proof {
        reveal_strlit("+");
    }
    let name = chars_of(crate::zig::toolchain_name(channel));
    crate::text::extend_chars(&mut toolchain, name.as_slice());
    let mut res: Vec<String> = Vec::new();
    let first = crate::text::string_of(toolchain.as_slice());
    assert(first@ =~= seq!['+'] + crate::zig::channel_name(channel));
    res.push(first);
    res.push(owned("target"));
    res.push(owned("add"));
    res.push(owned(component));
    assert(views(res@).len() == 4);
    assert(views(res@) =~= seq![
        seq!['+'] + crate::zig::channel_name(channel),
        "target"@,
        "add"@,
        component@,
    ]);
    res
}

/// The extra arguments of the cargo options, when given, always end the command, with or
/// without a subcommand; without a subcommand the build's own arguments come first as
/// they are, and a subcommand takes the place of the build's first word.
pub proof fn law_cargo_args_end_with_extra(
    build_args: Seq<Seq<char>>,
    subcommand: Option<Seq<Seq<char>>>,
    extra: Seq<Seq<char>>,
)
    ensures
        cargo_args(build_args, subcommand, Some(extra)) == cargo_args(build_args, subcommand, None)
            + extra,
        cargo_args(build_args, None, None) == build_args,
        subcommand matches Some(s) ==> (build_args.len() > 0 ==> cargo_args(
            build_args,
            subcommand,
            None,
        ) == s + build_args.drop_first()),
{
    assert(cargo_args(build_args, subcommand, None) =~= cargo_args(build_args, subcommand, None)
        + Seq::<Seq<char>>::empty());
    if subcommand is Some && build_args.len() > 0 {
        assert(build_args.subrange(1, build_args.len() as int) =~= build_args.drop_first());
    }
}

} // verus!
