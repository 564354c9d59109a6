//! Function settings read from the Lambda metadata of a Cargo project.
//!
//! The workspace's `[workspace.metadata.lambda]` table gives settings for every function,
//! and each package's `[package.metadata.lambda]` table settings for its own. Both can
//! give settings for single binaries under `bin.<name>`. The settings of a package are
//! laid over those of the workspace.
use vstd::prelude::*;
use crate::cargo_meta::{CargoTarget, is_bin_target, kind_bin_filter};
use crate::deploy_config::{BuildConfig, DeployConfig, DeployConfigView, merge_build_config, merge_deploy_config, merge_view};
use crate::error::MetadataError;
use crate::strmap::StringMap;
use crate::text::str_eq;

verus! {

/// The Lambda settings of a package, or of one binary.
#[derive(Debug)]
pub struct PackageMetadata {
    /// Environment variables of the functions.
    pub env: StringMap,
    /// Deploy settings.
    pub deploy: Option<DeployConfig>,
    /// Build settings.
    pub build: BuildConfig,
}

/// A Lambda metadata table: settings for the package, and for single binaries by name.
#[derive(Debug)]
pub struct LambdaMetadata {
    pub package: PackageMetadata,
    /// The settings of single binaries, each name once.
    pub bin: Vec<(String, PackageMetadata)>,
}

/// The metadata of a package as it was read: `None` when its metadata is not a table,
/// else the Lambda settings it holds or the message of the error that reading them gave.
#[derive(Debug)]
pub struct Metadata {
    pub lambda: Option<Result<LambdaMetadata, String>>,
}

/// A package of the project, with its targets and its metadata.
#[derive(Debug)]
pub struct PackageLambda {
    pub name: String,
    pub targets: Vec<CargoTarget>,
    pub metadata: Metadata,
}

/// The Lambda metadata of a project: the workspace's and its packages'.
#[derive(Debug)]
pub struct ProjectMetadata {
    pub workspace: LambdaMetadata,
    pub packages: Vec<PackageLambda>,
}

// ---------------------------------------------------------------------------
// Settings of single binaries
// ---------------------------------------------------------------------------

/// The position of the first settings for binary `name`, if any.
pub open spec fn bin_index(bins: Seq<(String, PackageMetadata)>, name: Seq<char>) -> Option<int>
    decreases bins.len(),
{
    if bins.len() == 0 {
        None
    } else if bins.last().0@ == name && bin_index(bins.drop_last(), name) is None {
        Some(bins.len() - 1)
    } else {
        bin_index(bins.drop_last(), name)
    }
}

/// What `bin_index` gives is a position of settings for `name`, the first one.
proof fn lemma_bin_index(bins: Seq<(String, PackageMetadata)>, name: Seq<char>)
    ensures
        bin_index(bins, name) matches Some(i) ==> 0 <= i < bins.len() && bins[i].0@ == name
            && forall|j: int| 0 <= j < i ==> bins[j].0@ != name,
        bin_index(bins, name) is None ==> forall|j: int| 0 <= j < bins.len() ==> bins[j].0@ != name,
    decreases bins.len(),
{
    if bins.len() > 0 {
        let d = bins.drop_last();
        lemma_bin_index(d, name);
        assert forall|j: int| 0 <= j < d.len() implies d[j] == bins[j] by {}
    }
}

/// The position of the first settings for binary `name`.
fn find_bin(bins: &Vec<(String, PackageMetadata)>, name: &str) -> (res: Option<usize>)
    ensures
        res matches Some(i) ==> bin_index(bins@, name@) == Some(i as int),
        res is None ==> bin_index(bins@, name@) is None,
{
    proof {
        lemma_bin_index(bins@, name@);
    }
    let mut i: usize = 0;
    while i < bins.len()
        invariant
            i <= bins@.len(),
            forall|j: int| 0 <= j < i ==> bins@[j].0@ != name@,
            bin_index(bins@, name@) matches Some(k) ==> 0 <= k < bins@.len() && bins@[k].0@
                == name@ && forall|j: int| 0 <= j < k ==> bins@[j].0@ != name@,
            bin_index(bins@, name@) is None ==> forall|j: int|
                0 <= j < bins@.len() ==> bins@[j].0@ != name@,
        decreases bins@.len() - i,
    {
        if str_eq(bins[i].0.as_str(), name) {
            return Some(i);
        }
        i = i + 1;
    }
    None
}

// ---------------------------------------------------------------------------
// Environment
// ---------------------------------------------------------------------------

/// `env` with the variables of the settings for binary `name` over it, when there are any.
pub open spec fn with_bin_env(
    env: Map<Seq<char>, Seq<char>>,
    bins: Seq<(String, PackageMetadata)>,
    name: Seq<char>,
) -> Map<Seq<char>, Seq<char>> {
    match bin_index(bins, name) {
        Some(i) => env.union_prefer_right(bins[i].1.env@),
        None => env,
    }
}

/// Whether target `t` of a package is the binary `name` and the package has a metadata
/// table.
pub open spec fn target_matches(pkg: PackageLambda, t: CargoTarget, name: Seq<char>) -> bool {
    t.name@ == name && is_bin_target(t) && pkg.metadata.lambda is Some
}

/// The environment after looking at target `t` of package `pkg`: when it is the binary
/// `name`, the package's variables and then those for the binary are laid over it; a
/// package whose Lambda settings could not be read gives that error.
pub open spec fn env_target_step(
    acc: Result<Map<Seq<char>, Seq<char>>, Seq<char>>,
    pkg: PackageLambda,
    t: CargoTarget,
    name: Seq<char>,
) -> Result<Map<Seq<char>, Seq<char>>, Seq<char>> {
    match acc {
        Err(e) => Err(e),
        Ok(env) => if target_matches(pkg, t, name) {
            match pkg.metadata.lambda {
                Some(Ok(md)) => Ok(
                    with_bin_env(env.union_prefer_right(md.package.env@), md.bin@, name),
                ),
                Some(Err(msg)) => Err(msg@),
                None => Ok(env),
            }
        } else {
            Ok(env)
        },
    }
}

/// The environment after looking at targets `ts` of package `pkg`, in order.
pub open spec fn env_targets(
    acc: Result<Map<Seq<char>, Seq<char>>, Seq<char>>,
    pkg: PackageLambda,
    ts: Seq<CargoTarget>,
    name: Seq<char>,
) -> Result<Map<Seq<char>, Seq<char>>, Seq<char>>
    decreases ts.len(),
{
    if ts.len() == 0 {
        acc
    } else {
        env_targets(env_target_step(acc, pkg, ts[0], name), pkg, ts.drop_first(), name)
    }
}

/// The binary that package `p` is searched for: `name` when given, else the package's
/// own name.
pub open spec fn searched_name(p: PackageLambda, name: Option<Seq<char>>) -> Seq<char> {
    match name {
        Some(n) => n,
        None => p.name@,
    }
}

/// The environment after looking at packages `ps`, in order.
pub open spec fn env_packages(
    acc: Result<Map<Seq<char>, Seq<char>>, Seq<char>>,
    ps: Seq<PackageLambda>,
    name: Option<Seq<char>>,
) -> Result<Map<Seq<char>, Seq<char>>, Seq<char>>
    decreases ps.len(),
{
    if ps.len() == 0 {
        acc
    } else {
        env_packages(
            env_targets(acc, ps[0], ps[0].targets@, searched_name(ps[0], name)),
            ps.drop_first(),
            name,
        )
    }
}

/// The environment that the metadata gives function `name` (each package's own binary
/// when no name is given): the workspace's variables, those for the binary in the
/// workspace, then those of each package with a matching binary and those for the binary
/// in that package; or the message of the first package whose settings could not be read.
pub open spec fn environment_metadata(project: ProjectMetadata, name: Option<Seq<char>>) -> Result<
    Map<Seq<char>, Seq<char>>,
    Seq<char>,
> {
    let ws = project.workspace;
    let start = match name {
        Some(n) => with_bin_env(ws.package.env@, ws.bin@, n),
        None => ws.package.env@,
    };
    env_packages(Ok(start), project.packages@, name)
}

/// Once an error is reached, looking at more targets keeps it.
proof fn lemma_env_targets_err(e: Seq<char>, pkg: PackageLambda, ts: Seq<CargoTarget>, name: Seq<char>)
    ensures
        env_targets(Err(e), pkg, ts, name) == Err::<Map<Seq<char>, Seq<char>>, Seq<char>>(e),
    decreases ts.len(),
{
    if ts.len() > 0 {
        lemma_env_targets_err(e, pkg, ts.drop_first(), name);
    }
}

/// Once an error is reached, looking at more packages keeps it.
proof fn lemma_env_packages_err(e: Seq<char>, ps: Seq<PackageLambda>, name: Option<Seq<char>>)
    ensures
        env_packages(Err(e), ps, name) == Err::<Map<Seq<char>, Seq<char>>, Seq<char>>(e),
    decreases ps.len(),
{
    if ps.len() > 0 {
        lemma_env_targets_err(e, ps[0], ps[0].targets@, searched_name(ps[0], name));
        lemma_env_packages_err(e, ps.drop_first(), name);
    }
}

/// `env` with the variables of the settings for binary `name` over it.
fn add_bin_env(env: &mut StringMap, bins: &Vec<(String, PackageMetadata)>, name: &str)
    ensures
        final(env)@ == with_bin_env(old(env)@, bins@, name@),
{
    proof {
        lemma_bin_index(bins@, name@);
    }
    match find_bin(bins, name) {
        Some(i) => env.extend(&bins[i].1.env),
        None => {},
    }
}

/// The environment variables that the metadata of a project gives function `name`
/// (each package's own binary when no name is given); a package whose Lambda settings
/// could not be read gives `InvalidCargoMetadata` with the message.
pub fn function_environment_metadata(project: &ProjectMetadata, name: Option<&str>) -> (res:
    Result<StringMap, MetadataError>)
    ensures
        match environment_metadata(
            *project,
            match name {
                Some(n) => Some(n@),
                None => None,
            },
        ) {
            Ok(m) => res matches Ok(env) && env@ == m,
            Err(msg) => res matches Err(e) && (e matches MetadataError::InvalidCargoMetadata(s)
                && s@ == msg),
        },
{
    let ghost sname: Option<Seq<char>> = match name {
        Some(n) => Some(n@),
        None => None,
    };
    let ws = &project.workspace;
    let mut env = StringMap::new();
    env.extend(&ws.package.env);
    assert(env@ =~= ws.package.env@);
    if let Some(n) = name {
        add_bin_env(&mut env, &ws.bin, n);
    }
    let ghost total = environment_metadata(*project, sname);
    let ps = &project.packages;
    assert(ps@.skip(0) =~= ps@);
    let mut i: usize = 0;
    while i < ps.len()
        invariant
            i <= ps@.len(),
            ps == &project.packages,
            total == environment_metadata(*project, sname),
            sname == (match name {
                Some(n) => Some(n@),
                None => None::<Seq<char>>,
            }),
            total == env_packages(Ok(env@), ps@.skip(i as int), sname),
        decreases ps@.len() - i,
    {
        let pkg = &ps[i];
        let n: &str = match name {
            Some(n) => n,
            None => pkg.name.as_str(),
        };
        let ghost before = env@;
        let ts = &pkg.targets;
        let mut j: usize = 0;
        assert(ps@.skip(i as int)[0] == *pkg);
        assert(ps@.skip(i as int).drop_first() =~= ps@.skip(i + 1));
        assert(ts@.skip(0) =~= ts@);
        while j < ts.len()
            invariant
                j <= ts@.len(),
                ts == &pkg.targets,
                n@ == searched_name(*pkg, sname),
                total == environment_metadata(*project, sname),
                sname == (match name {
                    Some(n) => Some(n@),
                    None => None::<Seq<char>>,
                }),
                total == env_packages(
                    env_targets(Ok(env@), *pkg, ts@.skip(j as int), n@),
                    ps@.skip(i + 1),
                    sname,
                ),
            decreases ts@.len() - j,
        {
            let t = &ts[j];
            assert(ts@.skip(j as int)[0] == *t);
            assert(ts@.skip(j as int).drop_first() =~= ts@.skip(j + 1));
            if str_eq(t.name.as_str(), n) && kind_bin_filter(t) {
                match &pkg.metadata.lambda {
                    Some(Ok(md)) => {
                        env.extend(&md.package.env);
                        add_bin_env(&mut env, &md.bin, n);
                    },
                    Some(Err(msg)) => {
                        assert(target_matches(*pkg, *t, n@));
                        assert(env_target_step(Ok(env@), *pkg, *t, n@) == Err::<
                            Map<Seq<char>, Seq<char>>,
                            Seq<char>,
                        >(msg@));
                        proof {
                            lemma_env_targets_err(msg@, *pkg, ts@.skip(j + 1), n@);
                            lemma_env_packages_err(msg@, ps@.skip(i + 1), sname);
                            assert(env_targets(Ok(env@), *pkg, ts@.skip(j as int), n@) == Err::<
                                Map<Seq<char>, Seq<char>>,
                                Seq<char>,
                            >(msg@));
                        }
                        return Err(MetadataError::InvalidCargoMetadata(msg.clone()));
                    },
                    None => {},
                }
            }
            j = j + 1;
        }
        assert(ts@.skip(j as int).len() == 0);
        i = i + 1;
    }
    assert(ps@.skip(i as int).len() == 0);
    Ok(env)
}

// ---------------------------------------------------------------------------
// Deploy settings
// ---------------------------------------------------------------------------

/// Optional deploy settings taken by value.
pub open spec fn opt_deploy_view(c: Option<DeployConfig>) -> Option<DeployConfigView> {
    match c {
        Some(c) => Some(c@),
        None => None,
    }
}

/// The settings `acc` with `pkg` laid over them: `pkg` alone when there were none, and
/// `acc` unchanged when `pkg` gives none.
pub open spec fn merge_opt_view(acc: Option<DeployConfigView>, pkg: Option<DeployConfig>) -> Option<
    DeployConfigView,
> {
    match pkg {
        None => acc,
        Some(c) => match acc {
            None => Some(c@),
            Some(b) => Some(merge_view(b, c@)),
        },
    }
}

/// The deploy settings after looking at target `t` of package `pkg`: when it is the
/// binary `name`, the package's settings are laid over them; a package whose Lambda
/// settings could not be read gives that error.
pub open spec fn deploy_target_step(
    acc: Result<Option<DeployConfigView>, Seq<char>>,
    pkg: PackageLambda,
    t: CargoTarget,
    name: Seq<char>,
) -> Result<Option<DeployConfigView>, Seq<char>> {
    match acc {
        Err(e) => Err(e),
        Ok(c) => if target_matches(pkg, t, name) {
            match pkg.metadata.lambda {
                Some(Ok(md)) => Ok(merge_opt_view(c, md.package.deploy)),
                Some(Err(msg)) => Err(msg@),
                None => Ok(c),
            }
        } else {
            Ok(c)
        },
    }
}

/// The deploy settings after looking at targets `ts` of package `pkg`, in order.
pub open spec fn deploy_targets(
    acc: Result<Option<DeployConfigView>, Seq<char>>,
    pkg: PackageLambda,
    ts: Seq<CargoTarget>,
    name: Seq<char>,
) -> Result<Option<DeployConfigView>, Seq<char>>
    decreases ts.len(),
{
    if ts.len() == 0 {
        acc
    } else {
        deploy_targets(deploy_target_step(acc, pkg, ts[0], name), pkg, ts.drop_first(), name)
    }
}

/// The deploy settings after looking at packages `ps`, in order.
pub open spec fn deploy_packages(
    acc: Result<Option<DeployConfigView>, Seq<char>>,
    ps: Seq<PackageLambda>,
    name: Seq<char>,
) -> Result<Option<DeployConfigView>, Seq<char>>
    decreases ps.len(),
{
    if ps.len() == 0 {
        acc
    } else {
        deploy_packages(deploy_targets(acc, ps[0], ps[0].targets@, name), ps.drop_first(), name)
    }
}

/// The deploy settings that the metadata gives function `name`: the workspace's, those
/// for the binary in the workspace laid over them, then those of each package with the
/// binary; or the message of the first such package whose settings could not be read.
pub open spec fn deploy_metadata(project: ProjectMetadata, name: Seq<char>) -> Result<
    Option<DeployConfigView>,
    Seq<char>,
> {
    let ws = project.workspace;
    let start = match bin_index(ws.bin@, name) {
        Some(i) => merge_opt_view(opt_deploy_view(ws.package.deploy), ws.bin@[i].1.deploy),
        None => opt_deploy_view(ws.package.deploy),
    };
    deploy_packages(Ok(start), project.packages@, name)
}

/// Once an error is reached, looking at more targets keeps it.
proof fn lemma_deploy_targets_err(
    e: Seq<char>,
    pkg: PackageLambda,
    ts: Seq<CargoTarget>,
    name: Seq<char>,
)
    ensures
        deploy_targets(Err(e), pkg, ts, name) == Err::<Option<DeployConfigView>, Seq<char>>(e),
    decreases ts.len(),
{
    if ts.len() > 0 {
        lemma_deploy_targets_err(e, pkg, ts.drop_first(), name);
    }
}

/// Once an error is reached, looking at more packages keeps it.
proof fn lemma_deploy_packages_err(e: Seq<char>, ps: Seq<PackageLambda>, name: Seq<char>)
    ensures
        deploy_packages(Err(e), ps, name) == Err::<Option<DeployConfigView>, Seq<char>>(e),
    decreases ps.len(),
{
    if ps.len() > 0 {
        lemma_deploy_targets_err(e, ps[0], ps[0].targets@, name);
        lemma_deploy_packages_err(e, ps.drop_first(), name);
    }
}

/// The settings `acc` with `pkg` laid over them.
fn merge_opt(acc: Option<DeployConfig>, pkg: &Option<DeployConfig>) -> (res: Option<DeployConfig>)
    ensures
        opt_deploy_view(res) == merge_opt_view(opt_deploy_view(acc), *pkg),
{
    match pkg {
        None => acc,
        Some(c) => match acc {
            None => Some(c.copy()),
            Some(b) => Some(merge_deploy_config(&b, c)),
        },
    }
}

/// The deploy settings that the metadata of a project gives function `name`; a package
/// with the binary whose Lambda settings could not be read gives `InvalidCargoMetadata`
/// with the message.
pub fn function_deploy_metadata(project: &ProjectMetadata, name: &str) -> (res: Result<
    Option<DeployConfig>,
    MetadataError,
>)
    ensures
        match deploy_metadata(*project, name@) {
            Ok(c) => res matches Ok(d) && opt_deploy_view(d) == c,
            Err(msg) => res matches Err(e) && (e matches MetadataError::InvalidCargoMetadata(s)
                && s@ == msg),
        },
{
    let ws = &project.workspace;
    let mut config: Option<DeployConfig> = match &ws.package.deploy {
        Some(c) => Some(c.copy()),
        None => None,
    };
    proof {
        lemma_bin_index(ws.bin@, name@);
    }
    match find_bin(&ws.bin, name) {
        Some(k) => {
            config = merge_opt(config, &ws.bin[k].1.deploy);
        },
        None => {},
    }
    let ghost total = deploy_metadata(*project, name@);
    let ps = &project.packages;
    assert(ps@.skip(0) =~= ps@);
    let mut i: usize = 0;
    while i < ps.len()
        invariant
            i <= ps@.len(),
            ps == &project.packages,
            total == deploy_metadata(*project, name@),
            total == deploy_packages(Ok(opt_deploy_view(config)), ps@.skip(i as int), name@),
        decreases ps@.len() - i,
    {
        let pkg = &ps[i];
        let ts = &pkg.targets;
        assert(ps@.skip(i as int)[0] == *pkg);
        assert(ps@.skip(i as int).drop_first() =~= ps@.skip(i + 1));
        assert(ts@.skip(0) =~= ts@);
        let mut j: usize = 0;
        while j < ts.len()
            invariant
                j <= ts@.len(),
                ts == &pkg.targets,
                total == deploy_metadata(*project, name@),
                total == deploy_packages(
                    deploy_targets(Ok(opt_deploy_view(config)), *pkg, ts@.skip(j as int), name@),
                    ps@.skip(i + 1),
                    name@,
                ),
            decreases ts@.len() - j,
        {
            let t = &ts[j];
            assert(ts@.skip(j as int)[0] == *t);
            assert(ts@.skip(j as int).drop_first() =~= ts@.skip(j + 1));
            if str_eq(t.name.as_str(), name) && kind_bin_filter(t) {
                match &pkg.metadata.lambda {
                    Some(Ok(md)) => {
                        config = merge_opt(config, &md.package.deploy);
                    },
                    Some(Err(msg)) => {
                        assert(target_matches(*pkg, *t, name@));
                        proof {
                            lemma_deploy_targets_err(msg@, *pkg, ts@.skip(j + 1), name@);
                            lemma_deploy_packages_err(msg@, ps@.skip(i + 1), name@);
                            assert(deploy_targets(
                                Ok(opt_deploy_view(config)),
                                *pkg,
                                ts@.skip(j as int),
                                name@,
                            ) == Err::<Option<DeployConfigView>, Seq<char>>(msg@));
                        }
                        return Err(MetadataError::InvalidCargoMetadata(msg.clone()));
                    },
                    None => {},
                }
            }
            j = j + 1;
        }
        assert(ts@.skip(j as int).len() == 0);
        i = i + 1;
    }
    assert(ps@.skip(i as int).len() == 0);
    Ok(config)
}

// ---------------------------------------------------------------------------
// Build settings
// ---------------------------------------------------------------------------

/// Whether one of targets `ts` is a binary.
pub open spec fn has_bin_target(ts: Seq<CargoTarget>) -> bool {
    exists|j: int| 0 <= j < ts.len() && is_bin_target(#[trigger] ts[j])
}

/// Whether package `p` gives build settings: it has a binary and a metadata table.
pub open spec fn gives_build(p: PackageLambda) -> bool {
    p.metadata.lambda is Some && has_bin_target(p.targets@)
}

/// The position of the first package that gives build settings, if any.
pub open spec fn build_index(ps: Seq<PackageLambda>) -> Option<int>
    decreases ps.len(),
{
    if ps.len() == 0 {
        None
    } else if gives_build(ps.last()) && build_index(ps.drop_last()) is None {
        Some(ps.len() - 1)
    } else {
        build_index(ps.drop_last())
    }
}

/// What `build_index` gives is the first package that gives build settings.
proof fn lemma_build_index(ps: Seq<PackageLambda>)
    ensures
        build_index(ps) matches Some(i) ==> 0 <= i < ps.len() && gives_build(ps[i]) && forall|
            j: int,
        | 0 <= j < i ==> !gives_build(#[trigger] ps[j]),
        build_index(ps) is None ==> forall|j: int| 0 <= j < ps.len() ==> !gives_build(#[trigger] ps[j]),
    decreases ps.len(),
{
    if ps.len() > 0 {
        let d = ps.drop_last();
        lemma_build_index(d);
        assert forall|j: int| 0 <= j < d.len() implies d[j] == ps[j] by {}
    }
}

/// The build settings that the metadata of a project gives: those of the first package
/// with a binary and a metadata table, else the workspace's; or the message of the error
/// that reading that package's settings gave.
pub open spec fn build_metadata(project: ProjectMetadata) -> Result<
    (Option<(int, Option<Seq<Seq<char>>>, Option<Seq<Seq<char>>>)>, Option<Seq<char>>),
    Seq<char>,
> {
    match build_index(project.packages@) {
        None => Ok(project.workspace.package.build@),
        Some(i) => match project.packages@[i].metadata.lambda {
            Some(Ok(md)) => Ok(md.package.build@),
            Some(Err(msg)) => Err(msg@),
            None => Ok(project.workspace.package.build@),
        },
    }
}

/// Whether one of the targets is a binary.
fn any_bin_target(ts: &Vec<CargoTarget>) -> (res: bool)
    ensures
        res == has_bin_target(ts@),
{
    let mut j: usize = 0;
    while j < ts.len()
        invariant
            j <= ts@.len(),
            forall|k: int| 0 <= k < j ==> !is_bin_target(#[trigger] ts@[k]),
        decreases ts@.len() - j,
    {
        if kind_bin_filter(&ts[j]) {
            return true;
        }
        j = j + 1;
    }
    false
}

/// The build settings that the metadata of a project gives: the workspace's, replaced by
/// those of the first package that has a binary and a metadata table; a package whose
/// Lambda settings could not be read gives `InvalidCargoMetadata` with the message.
pub fn function_build_metadata(project: &ProjectMetadata) -> (res: Result<BuildConfig, MetadataError>)
    ensures
        match build_metadata(*project) {
            Ok(b) => res matches Ok(c) && c@ == b,
            Err(msg) => res matches Err(e) && (e matches MetadataError::InvalidCargoMetadata(s)
                && s@ == msg),
        },
{
    let mut config = project.workspace.package.build.copy();
    let ps = &project.packages;
    proof {
        lemma_build_index(ps@);
    }
    let mut i: usize = 0;
    while i < ps.len()
        invariant
            i <= ps@.len(),
            ps == &project.packages,
            config@ == project.workspace.package.build@,
            forall|k: int| 0 <= k < i ==> !gives_build(#[trigger] ps@[k]),
            build_index(ps@) matches Some(b) ==> 0 <= b < ps@.len() && gives_build(ps@[b])
                && forall|k: int| 0 <= k < b ==> !gives_build(#[trigger] ps@[k]),
            build_index(ps@) is None ==> forall|k: int|
                0 <= k < ps@.len() ==> !gives_build(#[trigger] ps@[k]),
        decreases ps@.len() - i,
    {
        let pkg = &ps[i];
        if pkg.metadata.lambda.is_some() && any_bin_target(&pkg.targets) {
            assert(gives_build(ps@[i as int]));
            match &pkg.metadata.lambda {
                Some(Ok(md)) => {
                    merge_build_config(&mut config, &md.package.build);
                    return Ok(config);
                },
                Some(Err(msg)) => {
                    return Err(MetadataError::InvalidCargoMetadata(msg.clone()));
                },
                None => {},
            }
        }
        i = i + 1;
    }
    Ok(config)
}

// ---------------------------------------------------------------------------
// Laws
// ---------------------------------------------------------------------------

/// No target of a package in `ps` is the binary `name`.
pub open spec fn no_binary_named(ps: Seq<PackageLambda>, name: Seq<char>) -> bool {
    forall|i: int, j: int|
        0 <= i < ps.len() && 0 <= j < ps[i].targets@.len() ==> !(ps[i].targets@[j].name@ == name
            && is_bin_target(#[trigger] ps[i].targets@[j]))
}

/// Targets that are not the binary leave the environment and the deploy settings as
/// they are.
proof fn lemma_unmatched_targets(
    env: Result<Map<Seq<char>, Seq<char>>, Seq<char>>,
    cfg: Result<Option<DeployConfigView>, Seq<char>>,
    pkg: PackageLambda,
    ts: Seq<CargoTarget>,
    name: Seq<char>,
)
    requires
        forall|j: int| 0 <= j < ts.len() ==> !(ts[j].name@ == name && is_bin_target(#[trigger] ts[j])),
    ensures
        env_targets(env, pkg, ts, name) == env,
        deploy_targets(cfg, pkg, ts, name) == cfg,
    decreases ts.len(),
{
    if ts.len() > 0 {
        let rest = ts.drop_first();
        assert(!(ts[0].name@ == name && is_bin_target(ts[0])));
        assert forall|j: int| 0 <= j < rest.len() implies !(rest[j].name@ == name
            && is_bin_target(#[trigger] rest[j])) by {
            assert(rest[j] == ts[j + 1]);
        }
        lemma_unmatched_targets(env, cfg, pkg, rest, name);
    }
}

/// Packages without the binary leave the environment and the deploy settings as they are.
proof fn lemma_unmatched_packages(
    env: Result<Map<Seq<char>, Seq<char>>, Seq<char>>,
    cfg: Result<Option<DeployConfigView>, Seq<char>>,
    ps: Seq<PackageLambda>,
    name: Seq<char>,
)
    requires
        no_binary_named(ps, name),
    ensures
        env_packages(env, ps, Some(name)) == env,
        deploy_packages(cfg, ps, name) == cfg,
    decreases ps.len(),
{
    if ps.len() > 0 {
        let rest = ps.drop_first();
        assert forall|j: int| 0 <= j < ps[0].targets@.len() implies !(ps[0].targets@[j].name@
            == name && is_bin_target(#[trigger] ps[0].targets@[j])) by {}
        lemma_unmatched_targets(env, cfg, ps[0], ps[0].targets@, name);
        assert forall|i: int, j: int|
            0 <= i < rest.len() && 0 <= j < rest[i].targets@.len() implies !(
            rest[i].targets@[j].name@ == name && is_bin_target(#[trigger] rest[i].targets@[j])) by {
            assert(rest[i] == ps[i + 1]);
        }
        lemma_unmatched_packages(env, cfg, rest, name);
    }
}

/// A function that no package has as a binary gets the workspace's settings alone: its
/// variables with those for the binary over them, and its deploy settings with those for
/// the binary laid over them.
pub proof fn law_workspace_settings_without_package(project: ProjectMetadata, name: Seq<char>)
    requires
        no_binary_named(project.packages@, name),
    ensures
        environment_metadata(project, Some(name)) == Ok::<Map<Seq<char>, Seq<char>>, Seq<char>>(
            with_bin_env(project.workspace.package.env@, project.workspace.bin@, name),
        ),
        deploy_metadata(project, name) == Ok::<Option<DeployConfigView>, Seq<char>>(
            match bin_index(project.workspace.bin@, name) {
                Some(i) => merge_opt_view(
                    opt_deploy_view(project.workspace.package.deploy),
                    project.workspace.bin@[i].1.deploy,
                ),
                None => opt_deploy_view(project.workspace.package.deploy),
            },
        ),
{
    let ws = project.workspace;
    let env0 = Ok(with_bin_env(ws.package.env@, ws.bin@, name));
    let cfg0 = Ok(
        match bin_index(ws.bin@, name) {
            Some(i) => merge_opt_view(opt_deploy_view(ws.package.deploy), ws.bin@[i].1.deploy),
            None => opt_deploy_view(ws.package.deploy),
        },
    );
    lemma_unmatched_packages(env0, cfg0, project.packages@, name);
}

} // verus!
