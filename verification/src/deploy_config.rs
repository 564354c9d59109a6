//! Deploy and build settings read from package metadata, and how a package's settings
//! are laid over the workspace's.
use vstd::prelude::*;
use crate::encoding::url_encoded;
use crate::lambda::{Memory, Timeout, Tracing, eq_ignore_ascii_case};
use crate::env::{lambda_environment, map_or_empty};
use crate::strmap::StringMap;
use crate::text::{copy_opt_string, copy_opt_strings, join, opt_view, opt_views};

verus! {

/// The runtime that functions are deployed with by default.
pub const DEFAULT_RUNTIME: &'static str = "provided.al2023";

/// Deploy settings of a function, as package metadata gives them.
#[derive(Debug)]
pub struct DeployConfig {
    pub memory: Option<Memory>,
    pub timeout: Option<Timeout>,
    pub env: StringMap,
    pub env_file: Option<String>,
    pub tracing: Tracing,
    pub iam_role: Option<String>,
    pub layers: Option<Vec<String>>,
    pub tags: Option<StringMap>,
    pub use_for_update: bool,
    pub subnet_ids: Option<Vec<String>>,
    pub security_group_ids: Option<Vec<String>>,
    pub runtime: String,
}

/// Deploy settings taken by value: each string, list and map by its characters.
pub struct DeployConfigView {
    pub memory: Option<Memory>,
    pub timeout: Option<Timeout>,
    pub env: Map<Seq<char>, Seq<char>>,
    pub env_file: Option<Seq<char>>,
    pub tracing: Tracing,
    pub iam_role: Option<Seq<char>>,
    pub layers: Option<Seq<Seq<char>>>,
    pub tags: Option<Map<Seq<char>, Seq<char>>>,
    pub use_for_update: bool,
    pub subnet_ids: Option<Seq<Seq<char>>>,
    pub security_group_ids: Option<Seq<Seq<char>>>,
    pub runtime: Seq<char>,
}

impl View for DeployConfig {
    type V = DeployConfigView;

    open spec fn view(&self) -> DeployConfigView {
        DeployConfigView {
            memory: self.memory,
            timeout: self.timeout,
            env: self.env@,
            env_file: opt_view(self.env_file),
            tracing: self.tracing,
            iam_role: opt_view(self.iam_role),
            layers: opt_views(self.layers),
            tags: tags_view(self.tags),
            use_for_update: self.use_for_update,
            subnet_ids: opt_views(self.subnet_ids),
            security_group_ids: opt_views(self.security_group_ids),
            runtime: self.runtime@,
        }
    }
}

/// The settings of a package laid over those of the workspace, taken by value.
pub open spec fn merge_view(base: DeployConfigView, pkg: DeployConfigView) -> DeployConfigView {
    DeployConfigView {
        memory: if pkg.memory is Some {
            pkg.memory
        } else {
            base.memory
        },
        timeout: match pkg.timeout {
            Some(t) => if t@ != 0 {
                pkg.timeout
            } else {
                base.timeout
            },
            None => base.timeout,
        },
        env: base.env.union_prefer_right(pkg.env),
        env_file: if base.env_file is None {
            pkg.env_file
        } else {
            base.env_file
        },
        tracing: if pkg.tracing != Tracing::PassThrough {
            pkg.tracing
        } else {
            base.tracing
        },
        iam_role: if pkg.iam_role is Some {
            pkg.iam_role
        } else {
            base.iam_role
        },
        layers: if pkg.layers is Some {
            pkg.layers
        } else {
            base.layers
        },
        tags: base.tags,
        use_for_update: base.use_for_update,
        subnet_ids: if pkg.subnet_ids is Some {
            pkg.subnet_ids
        } else {
            base.subnet_ids
        },
        security_group_ids: if pkg.security_group_ids is Some {
            pkg.security_group_ids
        } else {
            base.security_group_ids
        },
        runtime: pkg.runtime,
    }
}

/// Laying the same package settings over the workspace's twice gives what laying them
/// once gives.
pub proof fn law_merge_idempotent(base: DeployConfigView, pkg: DeployConfigView)
    ensures
        merge_view(merge_view(base, pkg), pkg) == merge_view(base, pkg),
{
    let once = merge_view(base, pkg);
    let twice = merge_view(once, pkg);
    assert(twice.env =~= once.env);
}

/// A package that sets nothing (no memory, timeout, variables, environment file, role,
/// layers or network settings, and the default tracing mode) leaves the workspace's
/// settings as they are, but for the runtime, which is the package's.
pub proof fn law_unset_package_keeps_workspace(base: DeployConfigView, pkg: DeployConfigView)
    requires
        pkg.memory is None,
        pkg.timeout is None,
        pkg.env == Map::<Seq<char>, Seq<char>>::empty(),
        pkg.env_file is None,
        pkg.tracing == Tracing::PassThrough,
        pkg.iam_role is None,
        pkg.layers is None,
        pkg.subnet_ids is None,
        pkg.security_group_ids is None,
    ensures
        merge_view(base, pkg) == (DeployConfigView { runtime: pkg.runtime, ..base }),
{
    assert(merge_view(base, pkg).env =~= base.env);
}

/// Settings that a package gives win over the workspace's: memory, a timeout other than
/// zero, variables, tracing mode other than the default, role, layers and network settings.
pub proof fn law_package_settings_win(base: DeployConfigView, pkg: DeployConfigView, k: Seq<char>)
    ensures
        pkg.memory is Some ==> merge_view(base, pkg).memory == pkg.memory,
        (pkg.timeout matches Some(t) && t@ != 0) ==> merge_view(base, pkg).timeout == pkg.timeout,
        pkg.env.dom().contains(k) ==> merge_view(base, pkg).env.dom().contains(k) && merge_view(
            base,
            pkg,
        ).env[k] == pkg.env[k],
        pkg.tracing != Tracing::PassThrough ==> merge_view(base, pkg).tracing == pkg.tracing,
        pkg.iam_role is Some ==> merge_view(base, pkg).iam_role == pkg.iam_role,
        pkg.layers is Some ==> merge_view(base, pkg).layers == pkg.layers,
        pkg.subnet_ids is Some ==> merge_view(base, pkg).subnet_ids == pkg.subnet_ids,
        pkg.security_group_ids is Some ==> merge_view(base, pkg).security_group_ids
            == pkg.security_group_ids,
{
}

/// The map of optional tags.
pub open spec fn tags_view(t: Option<StringMap>) -> Option<Map<Seq<char>, Seq<char>>> {
    match t {
        Some(m) => Some(m@),
        None => None,
    }
}

/// One tag as S3 takes it: the URL-encoded key, `=`, the URL-encoded value.
pub open spec fn s3_tag(e: (Seq<char>, Seq<char>)) -> Seq<char> {
    url_encoded(e.0) + seq!['='] + url_encoded(e.1)
}

/// The tags as S3 takes them, in the order of `entries`, joined with `&`.
pub open spec fn s3_tag_list(entries: Seq<(Seq<char>, Seq<char>)>) -> Seq<char> {
    join(entries.map_values(|e: (Seq<char>, Seq<char>)| s3_tag(e)), seq!['&'])
}

impl DeployConfig {
    /// No settings, the default tracing mode and the default runtime.
    pub fn default() -> (res: DeployConfig)
        ensures
            res.memory is None,
            res.timeout is None,
            res.env@ == Map::<Seq<char>, Seq<char>>::empty(),
            res.env_file is None,
            res.tracing == Tracing::PassThrough,
            res.iam_role is None,
            res.layers is None,
            res.tags is None,
            !res.use_for_update,
            res.subnet_ids is None,
            res.security_group_ids is None,
            res.runtime@ == DEFAULT_RUNTIME@,
    {
        DeployConfig {
            memory: None,
            timeout: None,
            env: StringMap::new(),
            env_file: None,
            tracing: Tracing::default(),
            iam_role: None,
            layers: None,
            tags: None,
            use_for_update: false,
            subnet_ids: None,
            security_group_ids: None,
            runtime: crate::text::owned(DEFAULT_RUNTIME),
        }
    }

    /// A copy of the settings.
    pub fn copy(&self) -> (res: DeployConfig)
        ensures
            same_deploy_config(res, *self),
            res@ == self@,
    {
        DeployConfig {
            memory: self.memory,
            timeout: self.timeout,
            env: self.env.copy(),
            env_file: copy_opt_string(&self.env_file),
            tracing: self.tracing,
            iam_role: copy_opt_string(&self.iam_role),
            layers: copy_opt_strings(&self.layers),
            tags: match &self.tags {
                Some(t) => Some(t.copy()),
                None => None,
            },
            use_for_update: self.use_for_update,
            subnet_ids: copy_opt_strings(&self.subnet_ids),
            security_group_ids: copy_opt_strings(&self.security_group_ids),
            runtime: self.runtime.clone(),
        }
    }

    /// The environment of the settings: their variables with those of the environment
    /// file (`file_vars`, what it holds) over them.
    pub fn lambda_environment(&self, file_vars: Option<&StringMap>) -> (res: StringMap)
        ensures
            res@ == self.env@.union_prefer_right(map_or_empty(file_vars)),
    {
        self.extend_environment(file_vars, &StringMap::new())
    }

    /// The environment of the settings with `extra` over it: their variables, those of the
    /// environment file (`file_vars`, what it holds), then `extra`, each later one winning.
    pub fn extend_environment(&self, file_vars: Option<&StringMap>, extra: &StringMap) -> (res:
        StringMap)
        ensures
            res@ == self.env@.union_prefer_right(map_or_empty(file_vars)).union_prefer_right(
                extra@,
            ),
    {
        let mut env = match lambda_environment(Some(&self.env), file_vars, None) {
            Ok(env) => env,
            Err(_) => {
                assert(false);
                StringMap::new()
            },
        };
        env.extend(extra);
        env
    }

    /// Adds tags; a new tag wins over an old one with the same key.
    pub fn append_tags(&mut self, tags: StringMap)
        ensures
            tags_view(final(self).tags) == Some(
                match old(self).tags {
                    Some(base) => base@.union_prefer_right(tags@),
                    None => tags@,
                },
            ),
            final(self).memory == old(self).memory,
            final(self).timeout == old(self).timeout,
            final(self).env@ == old(self).env@,
            final(self).env_file == old(self).env_file,
            final(self).tracing == old(self).tracing,
            final(self).iam_role == old(self).iam_role,
            opt_views(final(self).layers) == opt_views(old(self).layers),
            final(self).use_for_update == old(self).use_for_update,
            opt_views(final(self).subnet_ids) == opt_views(old(self).subnet_ids),
            opt_views(final(self).security_group_ids) == opt_views(old(self).security_group_ids),
            final(self).runtime@ == old(self).runtime@,
    {
        let old_tags = self.tags.take();
        match old_tags {
            None => {
                self.tags = Some(tags);
            },
            Some(base) => {
                let mut new_tags = base;
                new_tags.extend(&tags);
                self.tags = Some(new_tags);
            },
        }
    }

    /// The tags in the form S3 takes them, `key=value` pairs URL-encoded and joined with `&`;
    /// `None` when there are no tags.
    pub fn s3_tags(&self) -> (res: Option<String>)
        ensures
            match self.tags {
                None => res is None,
                Some(t) => if t@.len() == 0 {
                    res is None
                } else {
                    res matches Some(s) && s@ == s3_tag_list(t.entries())
                },
            },
    {
        match &self.tags {
            None => None,
            Some(tags) => {
                if tags.is_empty() {
                    None
                } else {
                    let pairs = tags.pairs();
                    let ghost es = tags.entries();
                    let ghost parts = es.map_values(|e: (Seq<char>, Seq<char>)| s3_tag(e));
                    let mut items: Vec<String> = Vec::new();
                    let mut i: usize = 0;
                    while i < pairs.len()
                        invariant
                            i <= pairs@.len(),
                            es == crate::strmap::pairs_view(pairs@),
                            parts == es.map_values(|e: (Seq<char>, Seq<char>)| s3_tag(e)),
                            items@.len() == i,
                            crate::text::views(items@) == parts.take(i as int),
                        decreases pairs@.len() - i,
                    {
                        let k = crate::encoding::url_encode(pairs[i].0.as_str());
                        let v = crate::encoding::url_encode(pairs[i].1.as_str());
                        let mut item: Vec<char> = crate::text::chars_of(k.as_str());
                        item.push('=');
                        let vc = crate::text::chars_of(v.as_str());
                        crate::text::extend_chars(&mut item, vc.as_slice());
                        let s = crate::text::string_of(item.as_slice());
                        assert(s@ =~= parts[i as int]);
                        let ghost before = items@;
                        items.push(s);
                        assert forall|j: int| 0 <= j < i + 1 implies #[trigger] crate::text::views(
                            items@,
                        )[j] == parts[j] by {
                            if j < i {
                                assert(items@[j] == before[j]);
                                assert(crate::text::views(before)[j] == parts.take(i as int)[j]);
                            }
                        }
                        assert(crate::text::views(items@) =~= parts.take(i + 1));
                        i = i + 1;
                    }
                    assert(parts.take(pairs@.len() as int) =~= parts);
                    let amp = "&";
                    proof {
                        reveal_strlit("&");
                    }
                    assert(amp@ =~= seq!['&']);
                    let joined = crate::text::join_strings(items.as_slice(), amp);
                    assert(joined@ == s3_tag_list(es));
                    Some(joined)
                }
            },
        }
    }
}

/// Whether two deploy settings are the same, each string and list taken by its characters.
pub open spec fn same_deploy_config(a: DeployConfig, b: DeployConfig) -> bool {
    &&& a.memory == b.memory
    &&& a.timeout == b.timeout
    &&& a.env@ == b.env@
    &&& a.env_file == b.env_file
    &&& a.tracing == b.tracing
    &&& a.iam_role == b.iam_role
    &&& opt_views(a.layers) == opt_views(b.layers)
    &&& tags_view(a.tags) == tags_view(b.tags)
    &&& a.use_for_update == b.use_for_update
    &&& opt_views(a.subnet_ids) == opt_views(b.subnet_ids)
    &&& opt_views(a.security_group_ids) == opt_views(b.security_group_ids)
    &&& a.runtime@ == b.runtime@
}

/// The settings of a package laid over those of the workspace: what the package sets wins,
/// a zero timeout and the default tracing mode count as unset, environments are merged,
/// the workspace's environment file and tags are kept, and the package's runtime is used.
pub open spec fn merged_deploy_config(base: DeployConfig, pkg: DeployConfig, res: DeployConfig) -> bool {
    &&& res.memory == (if pkg.memory is Some {
        pkg.memory
    } else {
        base.memory
    })
    &&& res.timeout == (match pkg.timeout {
        Some(t) => if t@ != 0 {
            pkg.timeout
        } else {
            base.timeout
        },
        None => base.timeout,
    })
    &&& res.env@ == base.env@.union_prefer_right(pkg.env@)
    &&& res.env_file == (if base.env_file is None {
        pkg.env_file
    } else {
        base.env_file
    })
    &&& res.tracing == (if pkg.tracing != Tracing::PassThrough {
        pkg.tracing
    } else {
        base.tracing
    })
    &&& res.iam_role == (if pkg.iam_role is Some {
        pkg.iam_role
    } else {
        base.iam_role
    })
    &&& opt_views(res.layers) == (if pkg.layers is Some {
        opt_views(pkg.layers)
    } else {
        opt_views(base.layers)
    })
    &&& tags_view(res.tags) == tags_view(base.tags)
    &&& res.use_for_update == base.use_for_update
    &&& opt_views(res.subnet_ids) == (if pkg.subnet_ids is Some {
        opt_views(pkg.subnet_ids)
    } else {
        opt_views(base.subnet_ids)
    })
    &&& opt_views(res.security_group_ids) == (if pkg.security_group_ids is Some {
        opt_views(pkg.security_group_ids)
    } else {
        opt_views(base.security_group_ids)
    })
    &&& res.runtime@ == pkg.runtime@
}

/// Lays the deploy settings of a package over those of the workspace.
pub fn merge_deploy_config(base: &DeployConfig, package_deploy: &DeployConfig) -> (res:
    DeployConfig)
    ensures
        merged_deploy_config(*base, *package_deploy, res),
        res@ == merge_view(base@, package_deploy@),
{
    let mut new_config = base.copy();
    if package_deploy.memory.is_some() {
        new_config.memory = package_deploy.memory;
    }
    if let Some(package_timeout) = &package_deploy.timeout {
        if !package_timeout.is_zero() {
            new_config.timeout = Some(*package_timeout);
        }
    }
    new_config.env.extend(&package_deploy.env);
    if package_deploy.env_file.is_some() && base.env_file.is_none() {
        new_config.env_file = copy_opt_string(&package_deploy.env_file);
    }
    if package_deploy.tracing != Tracing::PassThrough {
        new_config.tracing = package_deploy.tracing;
    }
    if package_deploy.iam_role.is_some() {
        new_config.iam_role = copy_opt_string(&package_deploy.iam_role);
    }
    if package_deploy.layers.is_some() {
        new_config.layers = copy_opt_strings(&package_deploy.layers);
    }
    if package_deploy.subnet_ids.is_some() {
        new_config.subnet_ids = copy_opt_strings(&package_deploy.subnet_ids);
    }
    if package_deploy.security_group_ids.is_some() {
        new_config.security_group_ids = copy_opt_strings(&package_deploy.security_group_ids);
    }
    new_config.runtime = package_deploy.runtime.clone();
    new_config
}

// ---------------------------------------------------------------------------
// Build settings
// ---------------------------------------------------------------------------

/// Options of the plain `cargo` compiler.
#[derive(Debug)]
pub struct CargoCompilerOptions {
    pub subcommand: Option<Vec<String>>,
    pub extra_args: Option<Vec<String>>,
}

/// The compiler that builds the functions.
#[derive(Debug)]
pub enum CompilerOptions {
    CargoZigbuild,
    Cargo(CargoCompilerOptions),
    Cross,
}

/// A compiler choice taken by value: which compiler, and the `cargo` options.
pub open spec fn compiler_view(c: CompilerOptions) -> (int, Option<Seq<Seq<char>>>, Option<
    Seq<Seq<char>>,
>) {
    match c {
        CompilerOptions::CargoZigbuild => (0, None, None),
        CompilerOptions::Cargo(o) => (1, opt_views(o.subcommand), opt_views(o.extra_args)),
        CompilerOptions::Cross => (2, None, None),
    }
}

/// An optional compiler choice taken by value.
pub open spec fn opt_compiler_view(c: Option<CompilerOptions>) -> Option<
    (int, Option<Seq<Seq<char>>>, Option<Seq<Seq<char>>>),
> {
    match c {
        Some(c) => Some(compiler_view(c)),
        None => None,
    }
}

impl CompilerOptions {
    /// The compiler named by `s`, ignoring case: `cargo`, `cross`, else cargo-zigbuild.
    pub fn from(s: &str) -> (res: CompilerOptions)
        ensures
            eq_ignore_ascii_case(s@, seq!['c', 'a', 'r', 'g', 'o']) ==> compiler_view(res) == (
                1int,
                None::<Seq<Seq<char>>>,
                None::<Seq<Seq<char>>>,
            ),
            !eq_ignore_ascii_case(s@, seq!['c', 'a', 'r', 'g', 'o']) && eq_ignore_ascii_case(
                s@,
                seq!['c', 'r', 'o', 's', 's'],
            ) ==> res is Cross,
            !eq_ignore_ascii_case(s@, seq!['c', 'a', 'r', 'g', 'o']) && !eq_ignore_ascii_case(
                s@,
                seq!['c', 'r', 'o', 's', 's'],
            ) ==> res is CargoZigbuild,
    {
        let cargo = "cargo";
        let cross = "cross";
        proof {
            reveal_strlit("cargo");
            reveal_strlit("cross");
        }
        assert(cargo@ =~= seq!['c', 'a', 'r', 'g', 'o']);
        assert(cross@ =~= seq!['c', 'r', 'o', 's', 's']);
        if crate::lambda::str_eq_ignore_ascii_case(s, cargo) {
            CompilerOptions::Cargo(CargoCompilerOptions { subcommand: None, extra_args: None })
        } else if crate::lambda::str_eq_ignore_ascii_case(s, cross) {
            CompilerOptions::Cross
        } else {
            CompilerOptions::CargoZigbuild
        }
    }

    /// Whether the compiler is plain `cargo`.
    pub fn is_local_cargo(&self) -> (res: bool)
        ensures
            res == (*self is Cargo),
    {
        match self {
            CompilerOptions::Cargo(_) => true,
            _ => false,
        }
    }

    /// Whether the compiler is cargo-zigbuild.
    pub fn is_cargo_zigbuild(&self) -> (res: bool)
        ensures
            res == (*self is CargoZigbuild),
    {
        match self {
            CompilerOptions::CargoZigbuild => true,
            _ => false,
        }
    }

    /// A copy of the compiler choice.
    pub fn copy(&self) -> (res: CompilerOptions)
        ensures
            compiler_view(res) == compiler_view(*self),
    {
        match self {
            CompilerOptions::CargoZigbuild => CompilerOptions::CargoZigbuild,
            CompilerOptions::Cargo(o) => CompilerOptions::Cargo(
                CargoCompilerOptions {
                    subcommand: copy_opt_strings(&o.subcommand),
                    extra_args: copy_opt_strings(&o.extra_args),
                },
            ),
            CompilerOptions::Cross => CompilerOptions::Cross,
        }
    }
}

/// Build settings of a function, as package metadata gives them.
#[derive(Debug)]
pub struct BuildConfig {
    pub compiler: Option<CompilerOptions>,
    pub target: Option<String>,
}

impl View for BuildConfig {
    type V = (Option<(int, Option<Seq<Seq<char>>>, Option<Seq<Seq<char>>>)>, Option<Seq<char>>);

    open spec fn view(&self) -> Self::V {
        (opt_compiler_view(self.compiler), opt_view(self.target))
    }
}

impl BuildConfig {
    /// No compiler and no target.
    pub fn default() -> (res: BuildConfig)
        ensures
            res.compiler is None,
            res.target is None,
    {
        BuildConfig { compiler: None, target: None }
    }

    /// A copy of the settings.
    pub fn copy(&self) -> (res: BuildConfig)
        ensures
            res@ == self@,
    {
        BuildConfig {
            compiler: match &self.compiler {
                Some(c) => Some(c.copy()),
                None => None,
            },
            target: copy_opt_string(&self.target),
        }
    }
}

/// Lays the build settings of a package over those of the workspace: the package's
/// compiler and target replace the workspace's.
pub fn merge_build_config(base: &mut BuildConfig, package_build: &BuildConfig)
    ensures
        opt_compiler_view(final(base).compiler) == opt_compiler_view(package_build.compiler),
        opt_view(final(base).target) == opt_view(package_build.target),
        final(base)@ == package_build@,
{
    base.compiler = match &package_build.compiler {
        Some(c) => Some(c.copy()),
        None => None,
    };
    base.target = copy_opt_string(&package_build.target);
}

} // verus!
