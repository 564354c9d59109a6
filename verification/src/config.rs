//! Which function a command is about, and where its configuration comes from.
use vstd::prelude::*;
use crate::text::opt_view;
use crate::cargo_meta::{CargoTarget, is_bin_target, kind_bin_filter};
use crate::error::MetadataError;
use crate::metadata::{LambdaMetadata, PackageLambda, PackageMetadata, ProjectMetadata};

verus! {

/// A function, named by its package, its binary, or both.
#[derive(Debug)]
pub struct FunctionNames {
    package: Option<String>,
    binary: Option<String>,
}

impl View for FunctionNames {
    /// The package name and the binary name, each if given.
    type V = (Option<Seq<char>>, Option<Seq<char>>);

    open spec fn view(&self) -> (Option<Seq<char>>, Option<Seq<char>>) {
        (self.package_name(), self.binary_name())
    }
}

impl FunctionNames {
    /// The package name, if given.
    pub closed spec fn package_name(&self) -> Option<Seq<char>> {
        opt_view(self.package)
    }

    /// The binary name, if given.
    pub closed spec fn binary_name(&self) -> Option<Seq<char>> {
        opt_view(self.binary)
    }

    /// A function named by its package.
    pub fn from_package(package: &str) -> (res: FunctionNames)
        ensures
            res.package_name() == Some(package@),
            res.binary_name() is None,
    {
        FunctionNames::new(Some(crate::text::owned(package)), None)
    }

    /// A function named by its binary.
    pub fn from_binary(binary: &str) -> (res: FunctionNames)
        ensures
            res.package_name() is None,
            res.binary_name() == Some(binary@),
    {
        FunctionNames::new(None, Some(crate::text::owned(binary)))
    }

    /// A function named by its package and binary, either of which may be missing.
    pub fn new(package: Option<String>, binary: Option<String>) -> (res: FunctionNames)
        ensures
            res.package_name() == opt_view(package),
            res.binary_name() == opt_view(binary),
    {
        FunctionNames { package, binary }
    }

    /// A function named by both its package and its binary.
    pub fn from_pair(package: &str, binary: &str) -> (res: FunctionNames)
        ensures
            res.package_name() == Some(package@),
            res.binary_name() == Some(binary@),
    {
        FunctionNames::new(Some(crate::text::owned(package)), Some(crate::text::owned(binary)))
    }

    /// Whether no name is given.
    pub fn is_empty(&self) -> (res: bool)
        ensures
            res == (self.package_name() is None && self.binary_name() is None),
    {
        self.package.is_none() && self.binary.is_none()
    }

    /// Whether `name` is the package or the binary name.
    pub fn includes(&self, name: &str) -> (res: bool)
        ensures
            res == (self.package_name() == Some(name@) || self.binary_name() == Some(name@)),
    {
        let p = match &self.package {
            Some(p) => crate::text::str_eq(p.as_str(), name),
            None => false,
        };
        let b = match &self.binary {
            Some(b) => crate::text::str_eq(b.as_str(), name),
            None => false,
        };
        p || b
    }

    /// The position in `names` of the configuration for this function: the binary's when
    /// there is one, else the package's.
    pub fn find_binary_metadata(&self, names: &Vec<String>) -> (res: Option<usize>)
        ensures
            match res {
                Some(i) => i < names@.len() && ((self.binary_name() matches Some(b) && names@[i as int]@ == b
                    && first_named(crate::text::views(names@), b) == i as int) || (
                self.package_name() matches Some(p) && names@[i as int]@ == p && first_named(
                    crate::text::views(names@),
                    p,
                ) == i as int && !(self.binary_name() matches Some(b) && crate::text::views(
                    names@,
                ).contains(b)))),
                None => !(self.binary_name() matches Some(b) && crate::text::views(
                    names@,
                ).contains(b)) && !(self.package_name() matches Some(p) && crate::text::views(
                    names@,
                ).contains(p)),
            },
            match res {
                Some(i) => named_index(self@, crate::text::views(names@)) == Some(i as int),
                None => named_index(self@, crate::text::views(names@)) is None,
            },
    {
        if let Some(b) = &self.binary {
            if let Some(i) = position_of(names, b.as_str()) {
                return Some(i);
            }
        }
        if let Some(p) = &self.package {
            return position_of(names, p.as_str());
        }
        None
    }
}

/// The position in `keys` of the settings for a function: the first for its binary when
/// there are any, else the first for its package.
pub open spec fn named_index(n: (Option<Seq<char>>, Option<Seq<char>>), keys: Seq<Seq<char>>) -> Option<int> {
    match n.1 {
        Some(b) if first_named(keys, b) >= 0 => Some(first_named(keys, b)),
        _ => match n.0 {
            Some(p) if first_named(keys, p) >= 0 => Some(first_named(keys, p)),
            _ => None,
        },
    }
}

/// The position of the first string equal to `name` in `names` (`-1` when none is).
pub open spec fn first_named(names: Seq<Seq<char>>, name: Seq<char>) -> int
    decreases names.len(),
{
    if names.len() == 0 {
        -1
    } else {
        let i = first_named(names.drop_last(), name);
        if i >= 0 {
            i
        } else if names.last() == name {
            names.len() - 1
        } else {
            -1
        }
    }
}

/// The position of the first string equal to `name`.
pub fn position_of(names: &Vec<String>, name: &str) -> (res: Option<usize>)
    ensures
        match res {
            Some(i) => i < names@.len() && names@[i as int]@ == name@ && first_named(
                crate::text::views(names@),
                name@,
            ) == i as int,
            None => !crate::text::views(names@).contains(name@) && first_named(
                crate::text::views(names@),
                name@,
            ) == -1,
        },
{
    let ghost vs = crate::text::views(names@);
    let mut i: usize = 0;
    while i < names.len()
        invariant
            i <= names@.len(),
            vs == crate::text::views(names@),
            first_named(vs.take(i as int), name@) == -1,
            forall|k: int| 0 <= k < i ==> vs[k] != name@,
        decreases names@.len() - i,
    {
        assert(vs.take(i + 1).drop_last() =~= vs.take(i as int));
        if crate::text::str_eq(names[i].as_str(), name) {
            proof {
                lemma_first_named_prefix(vs, name@, i + 1);
            }
            return Some(i);
        }
        i = i + 1;
    }
    assert(vs.take(vs.len() as int) =~= vs);
    None
}

/// A match found in a prefix is the first match of the whole sequence.
proof fn lemma_first_named_prefix(names: Seq<Seq<char>>, name: Seq<char>, k: int)
    requires
        0 <= k <= names.len(),
        first_named(names.take(k), name) >= 0,
    ensures
        first_named(names, name) == first_named(names.take(k), name),
    decreases names.len() - k,
{
    if k < names.len() {
        assert(names.take(k + 1).drop_last() =~= names.take(k));
        lemma_first_named_prefix(names, name, k + 1);
    } else {
        assert(names.take(k) =~= names);
    }
}

/// How configuration files and flags are combined.
#[derive(Debug)]
pub struct ConfigOptions {
    /// The function the configuration is for.
    pub names: FunctionNames,
    /// A context that selects a profile in the configuration files.
    pub context: Option<String>,
    /// A global configuration file.
    pub global: Option<String>,
    /// Whether lists in later sources are appended instead of replacing earlier ones.
    pub admerge: bool,
}

impl ConfigOptions {
    /// No function, context or global file, and replacing merges.
    pub fn default() -> (res: ConfigOptions)
        ensures
            res.names.is_empty_spec(),
            res.context is None,
            res.global is None,
            !res.admerge,
    {
        ConfigOptions {
            names: FunctionNames::new(None, None),
            context: None,
            global: None,
            admerge: false,
        }
    }
}

impl FunctionNames {
    /// No name is given.
    pub open spec fn is_empty_spec(&self) -> bool {
        self.package_name() is None && self.binary_name() is None
    }
}

// ---------------------------------------------------------------------------
// Which settings the metadata gives a function
// ---------------------------------------------------------------------------

/// `name` is the package or the binary name of a function.
pub open spec fn is_named(n: (Option<Seq<char>>, Option<Seq<char>>), name: Seq<char>) -> bool {
    n.0 == Some(name) || n.1 == Some(name)
}

/// The names of the binaries that a Lambda table gives settings for.
pub open spec fn bin_keys(bins: Seq<(String, PackageMetadata)>) -> Seq<Seq<char>> {
    bins.map_values(|b: (String, PackageMetadata)| b.0@)
}

/// The settings of a Lambda table for the binary (else the package) of a function, when it
/// has any.
pub open spec fn named_settings(l: LambdaMetadata, n: (Option<Seq<char>>, Option<Seq<char>>)) -> Option<PackageMetadata> {
    match named_index(n, bin_keys(l.bin@)) {
        Some(i) => Some(l.bin@[i].1),
        None => None,
    }
}

/// The names of the binaries of a Lambda table.
fn bin_names(bins: &Vec<(String, PackageMetadata)>) -> (res: Vec<String>)
    ensures
        crate::text::views(res@) == bin_keys(bins@),
{
    let mut out: Vec<String> = Vec::new();
    let mut i: usize = 0;
    while i < bins.len()
        invariant
            i <= bins@.len(),
            crate::text::views(out@) == bin_keys(bins@).take(i as int),
        decreases bins@.len() - i,
    {
        let ghost before = out@;
        out.push(bins[i].0.clone());
        assert(crate::text::views(out@) =~= crate::text::views(before).push(bins@[i as int].0@));
        assert(bin_keys(bins@).take(i + 1) =~= bin_keys(bins@).take(i as int).push(
            bins@[i as int].0@,
        ));
        i = i + 1;
    }
    assert(bin_keys(bins@).take(bins@.len() as int) =~= bin_keys(bins@));
    out
}

/// The settings of a Lambda table for the binary (else the package) of a function.
fn find_named_settings<'a>(l: &'a LambdaMetadata, names: &FunctionNames) -> (res: Option<
    &'a PackageMetadata,
>)
    ensures
        match res {
            Some(c) => named_settings(*l, names@) == Some(*c),
            None => named_settings(*l, names@) is None,
        },
{
    let keys = bin_names(&l.bin);
    match names.find_binary_metadata(&keys) {
        Some(i) => Some(&l.bin[i].1),
        None => None,
    }
}

/// The settings that the workspace gives a function: those of the workspace's packages,
/// and, when the function is named, those the workspace gives its binary (else its
/// package) when it gives any.
pub fn workspace_metadata<'a>(project: &'a ProjectMetadata, names: &FunctionNames) -> (res: (
    &'a PackageMetadata,
    Option<&'a PackageMetadata>,
))
    ensures
        *res.0 == project.workspace.package,
        match res.1 {
            Some(b) => !names.is_empty_spec() && named_settings(project.workspace, names@) == Some(
                *b,
            ),
            None => names.is_empty_spec() || named_settings(project.workspace, names@) is None,
        },
{
    if names.is_empty() {
        (&project.workspace.package, None)
    } else {
        (&project.workspace.package, find_named_settings(&project.workspace, names))
    }
}

/// Whether some target is a binary that the names name, or a binary of a package that they
/// name.
pub open spec fn has_named_bin(targets: Seq<CargoTarget>, pkg: Seq<char>, n: (Option<Seq<char>>, Option<Seq<char>>)) -> bool
    decreases targets.len(),
{
    if targets.len() == 0 {
        false
    } else {
        has_named_bin(targets.drop_last(), pkg, n) || (is_bin_target(targets.last()) && (is_named(
            n,
            targets.last().name@,
        ) || is_named(n, pkg)))
    }
}

/// Whether the settings of a function are read from package `p`: it has a metadata table
/// and a binary that the names name, or is a package with a binary that they name.
pub open spec fn package_selected(p: PackageLambda, n: (Option<Seq<char>>, Option<Seq<char>>)) -> bool {
    p.metadata.lambda is Some && has_named_bin(p.targets@, p.name@, n)
}

/// The first package that the settings of a function are read from.
pub open spec fn first_selected(pkgs: Seq<PackageLambda>, n: (Option<Seq<char>>, Option<Seq<char>>)) -> Option<int>
    decreases pkgs.len(),
{
    if pkgs.len() == 0 {
        None
    } else {
        match first_selected(pkgs.drop_last(), n) {
            Some(i) => Some(i),
            None => if package_selected(pkgs.last(), n) {
                Some(pkgs.len() - 1)
            } else {
                None
            },
        }
    }
}

/// The settings that a package's Lambda table gives a function: those for its binary (else
/// its package) in the `bin` table, else the package's; or the error of reading the table.
pub open spec fn package_settings(l: Result<LambdaMetadata, String>, n: (Option<Seq<char>>, Option<Seq<char>>)) -> Result<
    PackageMetadata,
    Seq<char>,
> {
    match l {
        Err(m) => Err(m@),
        Ok(l) => Ok(
            match named_settings(l, n) {
                Some(b) => b,
                None => l.package,
            },
        ),
    }
}

/// The settings that the packages give a function: those of the first package it is read
/// from, if any.
pub open spec fn packages_settings(pkgs: Seq<PackageLambda>, n: (Option<Seq<char>>, Option<Seq<char>>)) -> Result<
    Option<PackageMetadata>,
    Seq<char>,
> {
    match first_selected(pkgs, n) {
        None => Ok(None),
        Some(i) => match pkgs[i].metadata.lambda {
            Some(l) => match package_settings(l, n) {
                Ok(c) => Ok(Some(c)),
                Err(m) => Err(m),
            },
            None => Ok(None),
        },
    }
}

/// Whether some target of `targets` is a binary that the names name, or any binary when
/// they name the package.
fn named_bin_in(targets: &Vec<CargoTarget>, pkg: &str, names: &FunctionNames) -> (res: bool)
    ensures
        res == has_named_bin(targets@, pkg@, names@),
{
    let pkg_named = names.includes(pkg);
    let mut found = false;
    let mut i: usize = 0;
    while i < targets.len()
        invariant
            i <= targets@.len(),
            pkg_named == is_named(names@, pkg@),
            found == has_named_bin(targets@.take(i as int), pkg@, names@),
        decreases targets@.len() - i,
    {
        let t = &targets[i];
        let hit = kind_bin_filter(t) && (names.includes(t.name.as_str()) || pkg_named);
        proof {
            assert(targets@.take(i + 1).drop_last() =~= targets@.take(i as int));
            assert(targets@.take(i + 1).last() == targets@[i as int]);
        }
        found = found || hit;
        i = i + 1;
    }
    assert(targets@.take(targets@.len() as int) =~= targets@);
    found
}

/// A selected package before `k` is the first selected one.
proof fn lemma_first_selected_take(pkgs: Seq<PackageLambda>, n: (Option<Seq<char>>, Option<Seq<char>>), k: int)
    requires
        0 <= k <= pkgs.len(),
        first_selected(pkgs.take(k), n) is Some,
    ensures
        first_selected(pkgs, n) == first_selected(pkgs.take(k), n),
    decreases pkgs.len() - k,
{
    if k < pkgs.len() {
        assert(pkgs.take(k + 1).drop_last() =~= pkgs.take(k));
        lemma_first_selected_take(pkgs, n, k + 1);
    } else {
        assert(pkgs.take(k) =~= pkgs);
    }
}

/// The settings that the packages give a function: those of the first package with a
/// metadata table and a binary that the names name (or a binary, when they name the
/// package); from that package's table, those for the binary or package when it gives any,
/// else the package's own. A table that could not be read is an error.
pub fn get_config_from_packages<'a>(pkgs: &'a Vec<PackageLambda>, names: &FunctionNames) -> (res:
    Result<Option<&'a PackageMetadata>, MetadataError>)
    ensures
        match res {
            Ok(Some(c)) => packages_settings(pkgs@, names@) == Ok::<
                Option<PackageMetadata>,
                Seq<char>,
            >(Some(*c)),
            Ok(None) => packages_settings(pkgs@, names@) == Ok::<
                Option<PackageMetadata>,
                Seq<char>,
            >(None),
            Err(e) => packages_settings(pkgs@, names@) matches Err(m) && (
            e matches MetadataError::InvalidCargoMetadata(s) && s@ == m),
        },
{
    let mut i: usize = 0;
    while i < pkgs.len()
        invariant
            i <= pkgs@.len(),
            first_selected(pkgs@.take(i as int), names@) is None,
        decreases pkgs@.len() - i,
    {
        let p = &pkgs[i];
        proof {
            assert(pkgs@.take(i + 1).drop_last() =~= pkgs@.take(i as int));
            assert(pkgs@.take(i + 1).last() == pkgs@[i as int]);
        }
        if p.metadata.lambda.is_some() && named_bin_in(&p.targets, p.name.as_str(), names) {
            proof {
                lemma_first_selected_take(pkgs@, names@, i + 1);
            }
            return match &p.metadata.lambda {
                Some(Ok(l)) => match find_named_settings(l, names) {
                    Some(b) => Ok(Some(b)),
                    None => Ok(Some(&l.package)),
                },
                Some(Err(m)) => Err(MetadataError::InvalidCargoMetadata(m.clone())),
                None => Ok(None),
            };
        }
        i = i + 1;
    }
    assert(pkgs@.take(pkgs@.len() as int) =~= pkgs@);
    Ok(None)
}

/// The settings that a package's own metadata gives: none without a metadata table, else
/// the package settings of its Lambda table, or the error of reading that table.
pub open spec fn own_settings(p: PackageLambda) -> Result<Option<PackageMetadata>, Seq<char>> {
    match p.metadata.lambda {
        None => Ok(None),
        Some(Err(m)) => Err(m@),
        Some(Ok(l)) => Ok(Some(l.package)),
    }
}

/// The settings that a package's own metadata gives a function: none without a metadata
/// table, else the package settings of its Lambda table.
pub fn get_config_from_package(p: &PackageLambda) -> (res: Result<
    Option<&PackageMetadata>,
    MetadataError,
>)
    ensures
        match res {
            Ok(Some(c)) => own_settings(*p) == Ok::<Option<PackageMetadata>, Seq<char>>(Some(*c)),
            Ok(None) => own_settings(*p) == Ok::<Option<PackageMetadata>, Seq<char>>(None),
            Err(e) => own_settings(*p) matches Err(m) && (e matches MetadataError::InvalidCargoMetadata(
                s,
            ) && s@ == m),
        },
{
    match &p.metadata.lambda {
        None => Ok(None),
        Some(Err(m)) => Err(MetadataError::InvalidCargoMetadata(m.clone())),
        Some(Ok(l)) => Ok(Some(&l.package)),
    }
}

/// The names of the binary targets among `targets`, in order.
pub open spec fn target_bins(targets: Seq<CargoTarget>) -> Seq<Seq<char>>
    decreases targets.len(),
{
    if targets.len() == 0 {
        Seq::empty()
    } else {
        target_bins(targets.drop_last()) + if is_bin_target(targets.last()) {
            seq![targets.last().name@]
        } else {
            Seq::empty()
        }
    }
}

/// The names of the binary targets of the packages, package by package.
pub open spec fn bin_target_names(pkgs: Seq<PackageLambda>) -> Seq<Seq<char>>
    decreases pkgs.len(),
{
    if pkgs.len() == 0 {
        Seq::empty()
    } else {
        bin_target_names(pkgs.drop_last()) + target_bins(pkgs.last().targets@)
    }
}

/// The one name that all the names are, when there are names and they are all the same.
pub open spec fn only_name(ns: Seq<Seq<char>>) -> Option<Seq<char>> {
    if ns.len() > 0 && forall|i: int| 0 <= i < ns.len() ==> #[trigger] ns[i] == ns[0] {
        Some(ns[0])
    } else {
        None
    }
}

/// The settings that the packages give a function. Without a name: the root package's own
/// settings when there is one package, else those for the project's only binary (named as
/// a package), else none. With a name: those of the first package it is read from.
pub open spec fn package_config(pkgs: Seq<PackageLambda>, n: (Option<Seq<char>>, Option<Seq<char>>)) -> Result<
    Option<PackageMetadata>,
    Seq<char>,
> {
    if n.0 is None && n.1 is None {
        if pkgs.len() == 1 {
            own_settings(pkgs[0])
        } else {
            match only_name(bin_target_names(pkgs)) {
                Some(b) => packages_settings(pkgs, (Some(b), None)),
                None => Ok(None),
            }
        }
    } else {
        packages_settings(pkgs, n)
    }
}

/// Appends the names of the binary targets among `targets` to `out`.
fn push_bin_names(out: &mut Vec<String>, targets: &Vec<CargoTarget>)
    ensures
        crate::text::views(final(out)@) == crate::text::views(old(out)@) + target_bins(targets@),
{
    let ghost start = crate::text::views(out@);
    let mut i: usize = 0;
    while i < targets.len()
        invariant
            i <= targets@.len(),
            crate::text::views(out@) == start + target_bins(targets@.take(i as int)),
        decreases targets@.len() - i,
    {
        let ghost before = out@;
        proof {
            assert(targets@.take(i + 1).drop_last() =~= targets@.take(i as int));
            assert(targets@.take(i + 1).last() == targets@[i as int]);
        }
        if kind_bin_filter(&targets[i]) {
            out.push(targets[i].name.clone());
            assert(crate::text::views(out@) =~= crate::text::views(before).push(
                targets@[i as int].name@,
            ));
        }
        assert(crate::text::views(out@) =~= start + target_bins(targets@.take(i + 1)));
        i = i + 1;
    }
    assert(targets@.take(targets@.len() as int) =~= targets@);
}

/// The names of the binary targets of the packages.
fn bin_target_list(pkgs: &Vec<PackageLambda>) -> (res: Vec<String>)
    ensures
        crate::text::views(res@) == bin_target_names(pkgs@),
{
    let mut out: Vec<String> = Vec::new();
    let mut i: usize = 0;
    assert(crate::text::views(out@) =~= Seq::<Seq<char>>::empty());
    while i < pkgs.len()
        invariant
            i <= pkgs@.len(),
            crate::text::views(out@) == bin_target_names(pkgs@.take(i as int)),
        decreases pkgs@.len() - i,
    {
        proof {
            assert(pkgs@.take(i + 1).drop_last() =~= pkgs@.take(i as int));
            assert(pkgs@.take(i + 1).last() == pkgs@[i as int]);
        }
        push_bin_names(&mut out, &pkgs[i].targets);
        i = i + 1;
    }
    assert(pkgs@.take(pkgs@.len() as int) =~= pkgs@);
    out
}

/// The one name of a list, when it is not empty and all its names are the same.
fn only_name_of(names: &Vec<String>) -> (res: Option<&String>)
    ensures
        match res {
            Some(n) => only_name(crate::text::views(names@)) == Some(n@),
            None => only_name(crate::text::views(names@)) is None,
        },
{
    let ghost ns = crate::text::views(names@);
    if names.len() == 0 {
        return None;
    }
    let first = &names[0];
    let mut i: usize = 1;
    while i < names.len()
        invariant
            1 <= i <= names@.len(),
            ns == crate::text::views(names@),
            first@ == ns[0],
            forall|k: int| 0 <= k < i ==> #[trigger] ns[k] == ns[0],
        decreases names@.len() - i,
    {
        if !crate::text::str_eq(names[i].as_str(), first.as_str()) {
            assert(ns[i as int] != ns[0]);
            return None;
        }
        i = i + 1;
    }
    Some(first)
}

/// The settings that the packages of a project give a function. Without a name: the root
/// package's own settings when the project has one package, else those for its only binary
/// (looked up as a package name) when all its binaries have one name, else none. With a
/// name: those of the first package that it is read from. Here the one package of a project
/// is taken as its root package.
pub fn package_metadata<'a>(project: &'a ProjectMetadata, names: &FunctionNames) -> (res: Result<
    Option<&'a PackageMetadata>,
    MetadataError,
>)
    ensures
        match res {
            Ok(Some(c)) => package_config(project.packages@, names@) == Ok::<
                Option<PackageMetadata>,
                Seq<char>,
            >(Some(*c)),
            Ok(None) => package_config(project.packages@, names@) == Ok::<
                Option<PackageMetadata>,
                Seq<char>,
            >(None),
            Err(e) => package_config(project.packages@, names@) matches Err(m) && (
            e matches MetadataError::InvalidCargoMetadata(s) && s@ == m),
        },
{
    if names.is_empty() {
        if project.packages.len() == 1 {
            return get_config_from_package(&project.packages[0]);
        }
        let bins = bin_target_list(&project.packages);
        match only_name_of(&bins) {
            Some(b) => {
                let by_package = FunctionNames::from_package(b.as_str());
                get_config_from_packages(&project.packages, &by_package)
            },
            None => Ok(None),
        }
    } else {
        get_config_from_packages(&project.packages, names)
    }
}

/// The package settings of every package with a binary and a metadata table, by package
/// name in order; or the error of the first table that could not be read.
pub open spec fn all_package_configs(pkgs: Seq<PackageLambda>) -> Result<
    Seq<(Seq<char>, PackageMetadata)>,
    Seq<char>,
>
    decreases pkgs.len(),
{
    if pkgs.len() == 0 {
        Ok(Seq::empty())
    } else {
        match all_package_configs(pkgs.drop_last()) {
            Err(m) => Err(m),
            Ok(before) => {
                let p = pkgs.last();
                if target_bins(p.targets@).len() > 0 {
                    match p.metadata.lambda {
                        None => Ok(before),
                        Some(Err(m)) => Err(m@),
                        Some(Ok(l)) => Ok(before.push((p.name@, l.package))),
                    }
                } else {
                    Ok(before)
                }
            },
        }
    }
}

/// The package settings of every package with a binary and a metadata table, by package
/// name in order. A table that could not be read is an error.
pub fn get_config_from_all_packages(pkgs: &Vec<PackageLambda>) -> (res: Result<
    Vec<(String, &PackageMetadata)>,
    MetadataError,
>)
    ensures
        match res {
            Ok(v) => all_package_configs(pkgs@) == Ok::<
                Seq<(Seq<char>, PackageMetadata)>,
                Seq<char>,
            >(v@.map_values(|e: (String, &PackageMetadata)| (e.0@, *e.1))),
            Err(e) => all_package_configs(pkgs@) matches Err(m) && (
            e matches MetadataError::InvalidCargoMetadata(s) && s@ == m),
        },
{
    let mut out: Vec<(String, &PackageMetadata)> = Vec::new();
    let mut i: usize = 0;
    assert(out@.map_values(|e: (String, &PackageMetadata)| (e.0@, *e.1)) =~= Seq::<
        (Seq<char>, PackageMetadata),
    >::empty());
    while i < pkgs.len()
        invariant
            i <= pkgs@.len(),
            all_package_configs(pkgs@.take(i as int)) == Ok::<
                Seq<(Seq<char>, PackageMetadata)>,
                Seq<char>,
            >(out@.map_values(|e: (String, &PackageMetadata)| (e.0@, *e.1))),
        decreases pkgs@.len() - i,
    {
        let p = &pkgs[i];
        proof {
            assert(pkgs@.take(i + 1).drop_last() =~= pkgs@.take(i as int));
            assert(pkgs@.take(i + 1).last() == pkgs@[i as int]);
        }
        let mut bins: Vec<String> = Vec::new();
        push_bin_names(&mut bins, &p.targets);
        if bins.len() > 0 {
            match &p.metadata.lambda {
                None => {},
                Some(Err(m)) => {
                    proof {
                        lemma_all_configs_err(pkgs@, i as int + 1);
                    }
                    return Err(MetadataError::InvalidCargoMetadata(m.clone()));
                },
                Some(Ok(l)) => {
                    let ghost before = out@.map_values(|e: (String, &PackageMetadata)| (e.0@, *e.1));
                    out.push((p.name.clone(), &l.package));
                    assert(out@.map_values(|e: (String, &PackageMetadata)| (e.0@, *e.1)) =~= before.push(
                        (p.name@, l.package),
                    ));
                },
            }
        }
        i = i + 1;
    }
    assert(pkgs@.take(pkgs@.len() as int) =~= pkgs@);
    Ok(out)
}

/// An error in a prefix is the error of the whole list.
proof fn lemma_all_configs_err(pkgs: Seq<PackageLambda>, k: int)
    requires
        0 <= k <= pkgs.len(),
        all_package_configs(pkgs.take(k)) is Err,
    ensures
        all_package_configs(pkgs) == all_package_configs(pkgs.take(k)),
    decreases pkgs.len() - k,
{
    if k < pkgs.len() {
        assert(pkgs.take(k + 1).drop_last() =~= pkgs.take(k));
        lemma_all_configs_err(pkgs, k + 1);
    } else {
        assert(pkgs.take(k) =~= pkgs);
    }
}

} // verus!
