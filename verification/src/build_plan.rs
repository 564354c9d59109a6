//! The decisions of the `build` command: which target and binaries to build, whether the
//! compiler can build them, which release settings to add, and where the results go.
use vstd::prelude::*;
use crate::archive::path_join;
use crate::deploy_config::CompilerOptions;
use crate::target_arch::{BuildError, TargetArch, arm_linux_prefix, x86_linux_prefix};
use crate::text::{starts_with, views};

verus! {

/// The target that a build is for.
#[derive(Debug)]
pub enum TargetChoice {
    /// `--arm64`: ARM Linux.
    Arm64,
    /// `--x86-64`: x86-64 Linux.
    X86_64,
    /// The first target given with `--target`.
    Given(String),
    /// The host's own target.
    Host,
}

/// Chooses the target from the command-line flags: `--arm64` and `--x86-64` exclude
/// `--target`, and a given target must be one that Lambda runs.
pub fn select_target(arm64: bool, x86_64: bool, targets: &Vec<String>) -> (res: Result<
    TargetChoice,
    BuildError,
>)
    ensures
        (arm64 || x86_64) && targets@.len() > 0 ==> (res matches Err(e)
            && e is InvalidTargetOptions),
        !((arm64 || x86_64) && targets@.len() > 0) ==> match res {
            Ok(TargetChoice::Arm64) => arm64,
            Ok(TargetChoice::X86_64) => !arm64 && x86_64,
            Ok(TargetChoice::Given(t)) => !arm64 && !x86_64 && targets@.len() > 0 && t@
                == targets@[0]@ && (starts_with(t@, arm_linux_prefix()) || starts_with(
                t@,
                x86_linux_prefix(),
            )),
            Ok(TargetChoice::Host) => !arm64 && !x86_64 && targets@.len() == 0,
            Err(e) => !arm64 && !x86_64 && targets@.len() > 0 && (e matches BuildError::UnsupportedTarget(
                t,
            ) && t@ == targets@[0]@) && !(starts_with(targets@[0]@, arm_linux_prefix())
                || starts_with(targets@[0]@, x86_linux_prefix())),
        },
{
    if (arm64 || x86_64) && targets.len() > 0 {
        return Err(BuildError::InvalidTargetOptions);
    }
    if arm64 {
        Ok(TargetChoice::Arm64)
    } else if x86_64 {
        Ok(TargetChoice::X86_64)
    } else if targets.len() > 0 {
        match crate::target_arch::validate_linux_target(targets[0].as_str()) {
            Ok(()) => Ok(TargetChoice::Given(targets[0].clone())),
            Err(e) => Err(e),
        }
    } else {
        Ok(TargetChoice::Host)
    }
}

/// The binaries to build: those found, or, when binaries are asked for by name, those
/// names, each once, all of which must have been found; the error names the first asked
/// for that was not found.
pub fn select_binaries(found: &Vec<String>, requested: &Vec<String>) -> (res: Result<
    Vec<String>,
    BuildError,
>)
    ensures
        requested@.len() == 0 ==> (res matches Ok(v) && views(v@) == views(found@)),
        requested@.len() > 0 ==> match res {
            Ok(v) => views(v@).to_set() == views(requested@).to_set() && views(v@).no_duplicates()
                && forall|i: int| 0 <= i < requested@.len() ==> views(found@).contains(
                    #[trigger] requested@[i]@,
                ),
            Err(e) => e matches BuildError::FunctionBinaryMissing(n) && exists|i: int|
                0 <= i < requested@.len() && #[trigger] requested@[i]@ == n@ && !views(
                    found@,
                ).contains(n@) && forall|k: int|
                    0 <= k < i ==> views(found@).contains(#[trigger] requested@[k]@),
        },
{
    if requested.len() == 0 {
        return Ok(crate::text::copy_strings(found));
    }
    let mut out: Vec<String> = Vec::new();
    let mut i: usize = 0;
    while i < requested.len()
        invariant
            i <= requested@.len(),
            views(out@).no_duplicates(),
            views(out@).to_set() == views(requested@).take(i as int).to_set(),
            forall|k: int| 0 <= k < i ==> views(found@).contains(#[trigger] requested@[k]@),
        decreases requested@.len() - i,
    {
        let name = &requested[i];
        match crate::config::position_of(found, name.as_str()) {
            None => {
                return Err(BuildError::FunctionBinaryMissing(name.clone()));
            },
            Some(j) => {
                assert(views(found@)[j as int] == requested@[i as int]@);
            },
        }
        let ghost before = views(out@);
        proof {
            assert(views(requested@).take(i + 1) =~= views(requested@).take(i as int).push(name@));
            views(requested@).take(i as int).lemma_push_to_set_commute(name@);
        }
        let seen = crate::config::position_of(&out, name.as_str());
        if seen.is_none() {
            out.push(name.clone());
            assert(views(out@) =~= before.push(name@));
            proof {
                before.lemma_push_to_set_commute(name@);
                assert forall|x: int, y: int| 0 <= x < y < views(out@).len() implies views(out@)[x]
                    != views(out@)[y] by {
                    if y == before.len() {
                        assert(before.contains(before[x]));
                    }
                }
            }
        } else {
            proof {
                let j = seen->0;
                assert(before[j as int] == name@);
                assert(before.contains(name@));
                assert(before.to_set().insert(name@) =~= before.to_set());
            }
        }
        i = i + 1;
    }
    assert(views(requested@).take(requested@.len() as int) =~= views(requested@));
    Ok(out)
}

/// Checks that plain `cargo` can build for the target: only with a linker of the host or
/// a statically linked target.
pub fn check_compiler(compiler: &CompilerOptions, target: &TargetArch) -> (res: Result<
    (),
    BuildError,
>)
    ensures
        res is Err <==> (*compiler is Cargo && !(crate::target_arch::without_glibc_version(
            target.rustc_target@,
        ) == crate::target_arch::target_arm() || crate::target_arch::without_glibc_version(
            target.rustc_target@,
        ) == crate::target_arch::target_x86_64()) && !(target.rustc_target@
            == crate::target_arch::target_x86_64_musl() || target.rustc_target@
            == crate::target_arch::target_arm_musl())),
        res matches Err(e) ==> e is InvalidCompilerOption,
{
    if compiler.is_local_cargo() {
        if !target.compatible_host_linker() && !target.is_static_linking() {
            return Err(BuildError::InvalidCompilerOption);
        }
    }
    Ok(())
}

/// The `build.rustflags` setting that tunes code for `cpu`.
pub open spec fn rustflags_config(cpu: Seq<char>) -> Seq<char> {
    seq![
        'b', 'u', 'i', 'l', 'd', '.', 'r', 'u', 's', 't', 'f', 'l', 'a', 'g', 's', '=', '[', '"',
        '-', 'C', '"', ',', ' ', '"', 't', 'a', 'r', 'g', 'e', 't', '-', 'c', 'p', 'u', '=',
    ] + cpu + seq!['"', ']']
}

/// The settings that a release build adds: the release optimizations that the project
/// does not set itself, then code tuned for the target's CPU.
pub fn release_flags(profile_config: &Vec<&'static str>, target_cpu: &str) -> (res: Vec<String>)
    ensures
        views(res@) == profile_config@.map_values(|s: &str| s@).push(rustflags_config(
            target_cpu@,
        )),
{
    let mut out: Vec<String> = Vec::new();
    let mut i: usize = 0;
    while i < profile_config.len()
        invariant
            i <= profile_config@.len(),
            views(out@) == profile_config@.map_values(|s: &str| s@).take(i as int),
        decreases profile_config@.len() - i,
    {
        let ghost before = views(out@);
        out.push(crate::text::owned(profile_config[i]));
        assert(views(out@) =~= before.push(profile_config@[i as int]@));
        assert(profile_config@.map_values(|s: &str| s@).take(i + 1) =~= profile_config@.map_values(
            |s: &str| s@,
        ).take(i as int).push(profile_config@[i as int]@));
        i = i + 1;
    }
    assert(profile_config@.map_values(|s: &str| s@).take(profile_config@.len() as int)
        =~= profile_config@.map_values(|s: &str| s@));
    let prefix = "build.rustflags=[\"-C\", \"target-cpu=";
    proof {
        reveal_strlit("build.rustflags=[\"-C\", \"target-cpu=");
    }
    let mut flag = crate::text::chars_of(prefix);
    let cpu = crate::text::chars_of(target_cpu);
    crate::text::extend_chars(&mut flag, cpu.as_slice());
    flag.push('"');
    flag.push(']');
    let s = crate::text::string_of(flag.as_slice());
    assert(s@ =~= rustflags_config(target_cpu@));
    let ghost before = views(out@);
    out.push(s);
    assert(views(out@) =~= before.push(rustflags_config(target_cpu@)));
    out
}

/// The directory holding the built binaries: the target directory, the target without
/// its glibc version, the profile, and `examples` when examples are built.
pub fn binaries_dir(target_dir: &str, target: &str, profile: &str, build_examples: bool) -> (res:
    String)
    ensures
        res@ == if build_examples {
            path_join(
                path_join(path_join(target_dir@, target@), profile@),
                seq!['e', 'x', 'a', 'm', 'p', 'l', 'e', 's'],
            )
        } else {
            path_join(path_join(target_dir@, target@), profile@)
        },
{
    let a = crate::archive::join_path(target_dir, target);
    let b = crate::archive::join_path(a.as_str(), profile);
    if build_examples {
        let ex = "examples";
        proof {
            reveal_strlit("examples");
        }
        assert(ex@ =~= seq!['e', 'x', 'a', 'm', 'p', 'l', 'e', 's']);
        crate::archive::join_path(b.as_str(), ex)
    } else {
        b
    }
}

/// The directory that the Lambda binaries go to: the one given, else `lambda` in the
/// target directory.
pub fn lambda_dir(given: Option<&str>, target_dir: &str) -> (res: String)
    ensures
        res@ == match given {
            Some(d) => d@,
            None => path_join(target_dir@, seq!['l', 'a', 'm', 'b', 'd', 'a']),
        },
{
    match given {
        Some(d) => crate::text::owned(d),
        None => {
            let l = "lambda";
            proof {
                reveal_strlit("lambda");
            }
            assert(l@ =~= seq!['l', 'a', 'm', 'b', 'd', 'a']);
            crate::archive::join_path(target_dir, l)
        },
    }
}

/// The directory that one binary goes to: `extensions` for extensions; the Lambda
/// directory itself for the binary that is flattened; else a directory named after it.
pub open spec fn bootstrap_dir_of(
    lambda_dir: Seq<char>,
    extension: bool,
    flatten: Option<Seq<char>>,
    name: Seq<char>,
) -> Seq<char> {
    if extension {
        path_join(lambda_dir, crate::archive::extensions_dir())
    } else if flatten == Some(name) {
        lambda_dir
    } else {
        path_join(lambda_dir, name)
    }
}

/// The directory that one binary goes to: `extensions` for extensions; the Lambda
/// directory itself for the binary that is flattened; else a directory named after it.
pub fn bootstrap_dir(lambda_dir: &str, extension: bool, flatten: Option<&str>, name: &str) -> (res:
    String)
    ensures
        res@ == bootstrap_dir_of(
            lambda_dir@,
            extension,
            match flatten {
                Some(f) => Some(f@),
                None => None,
            },
            name@,
        ),
{
    if extension {
        let e = "extensions";
        proof {
            reveal_strlit("extensions");
        }
        assert(e@ =~= crate::archive::extensions_dir());
        crate::archive::join_path(lambda_dir, e)
    } else {
        match flatten {
            Some(f) => {
                if crate::text::str_eq(f, name) {
                    crate::text::owned(lambda_dir)
                } else {
                    crate::archive::join_path(lambda_dir, name)
                }
            },
            None => crate::archive::join_path(lambda_dir, name),
        }
    }
}


/// What the build does with one binary that it finds.
#[derive(Debug)]
pub enum OutputStep {
    /// The binary at `from` is moved to `to`.
    Move { from: String, to: String },
    /// The binary at `binary` is zipped into `directory`.
    Zip { binary: String, directory: String },
}

/// What the build does with the built binary `name`, found in `binaries_dir`: it goes to
/// its bootstrap directory under `lambda_dir`, as `bootstrap` for a function and under its
/// own name for an extension, or zipped there when the output format is zip.
pub fn output_step(
    binaries_dir: &str,
    lambda_dir: &str,
    name: &str,
    extension: bool,
    flatten: Option<&str>,
    format: crate::build_options::BuildOutputFormat,
) -> (res: OutputStep)
    ensures
        ({
            let binary = path_join(binaries_dir@, name@);
            let dir = bootstrap_dir_of(
                lambda_dir@,
                extension,
                match flatten {
                    Some(f) => Some(f@),
                    None => None,
                },
                name@,
            );
            match format {
                crate::build_options::BuildOutputFormat::Binary => res matches OutputStep::Move {
                    from,
                    to,
                } && from@ == binary && to@ == path_join(
                    dir,
                    if extension {
                        name@
                    } else {
                        crate::archive::bootstrap()
                    },
                ),
                crate::build_options::BuildOutputFormat::Zip => res matches OutputStep::Zip {
                    binary: b,
                    directory,
                } && b@ == binary && directory@ == dir,
            }
        }),
{
    let binary = crate::archive::join_path(binaries_dir, name);
    let dir = bootstrap_dir(lambda_dir, extension, flatten, name);
    match format {
        crate::build_options::BuildOutputFormat::Binary => {
            let data = crate::archive::BinaryData::new(name, extension, false);
            let to = crate::archive::join_path(dir.as_str(), data.binary_name());
            OutputStep::Move { from: binary, to }
        },
        crate::build_options::BuildOutputFormat::Zip => OutputStep::Zip { binary, directory: dir },
    }
}


/// The directory name of a build profile under the target's directory: `debug` for the
/// `dev` and `test` profiles, `release` for `release` and `bench`, a custom profile's own
/// name; without a profile, `release` for a release build and `debug` otherwise.
pub open spec fn build_profile_of(profile: Option<Seq<char>>, release: bool) -> Seq<char> {
    match profile {
        Some(p) => if p == "dev"@ || p == "test"@ {
            "debug"@
        } else if p == "release"@ || p == "bench"@ {
            "release"@
        } else {
            p
        },
        None => if release {
            "release"@
        } else {
            "debug"@
        },
    }
}

/// The directory name of the profile that the build uses, given the `--profile` option and
/// the `--release` flag.
pub fn build_profile(profile: Option<&str>, release: bool) -> (res: String)
    ensures
        res@ == build_profile_of(
            match profile {
                Some(p) => Some(p@),
                None => None,
            },
            release,
        ),
{
    match profile {
        Some(p) => {
            if crate::text::str_eq(p, "dev") || crate::text::str_eq(p, "test") {
                crate::text::owned("debug")
            } else if crate::text::str_eq(p, "release") || crate::text::str_eq(p, "bench") {
                crate::text::owned("release")
            } else {
                crate::text::owned(p)
            }
        },
        None => if release {
            crate::text::owned("release")
        } else {
            crate::text::owned("debug")
        },
    }
}

/// The profile directory of a build: a custom profile, any other than `dev`, `test`,
/// `release` and `bench`, is its own directory whether or not `--release` is given; `dev`
/// and `test` build into `debug`, `release` and `bench` into `release`; without a profile,
/// `--release` builds into `release` and a plain build into `debug`.
pub proof fn law_build_profile_dirs(profile: Option<Seq<char>>, release: bool)
    ensures
        profile matches Some(p) ==> (p != "dev"@ && p != "test"@ && p != "release"@ && p
            != "bench"@ ==> build_profile_of(profile, release) == p),
        profile == Some("dev"@) || profile == Some("test"@) ==> build_profile_of(profile, release)
            == "debug"@,
        profile == Some("release"@) || profile == Some("bench"@) ==> build_profile_of(
            profile,
            release,
        ) == "release"@,
        profile is None ==> build_profile_of(profile, release) == if release {
            "release"@
        } else {
            "debug"@
        },
{
    reveal_strlit("dev");
    reveal_strlit("test");
    reveal_strlit("release");
    reveal_strlit("bench");
    assert("dev"@.len() == 3 && "test"@.len() == 4 && "release"@.len() == 7 && "bench"@.len()
        == 5);
}

} // verus!
