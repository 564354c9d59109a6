//! The build image that `cross` compiles in.
//!
//! Unless the project configures an image for the target (in a package's or the
//! workspace's metadata, in `Cross.toml`, or in the environment), builds with `cross` use
//! the image that the `cross-rs` project publishes for the target.
use vstd::prelude::*;
use crate::cargo_meta::{CargoMetadata, CargoPackage, CargoTarget, Json, is_bin_target, json_get, kind_bin_filter};
use crate::text::{chars_of, extend_chars, string_of};

verus! {

/// The characters of `s` in upper case, as `str::to_uppercase` gives them.
pub uninterp spec fn uppercase(s: Seq<char>) -> Seq<char>;

/// `s` in upper case (`str::to_uppercase`).
#[verifier::external_body]
fn to_uppercase(s: &str) -> (res: String)
    ensures
        res@ == uppercase(s@),
{
    s.to_uppercase()
}

/// `s` with each `-` replaced by `_`.
pub open spec fn dashes_to_underscores(s: Seq<char>) -> Seq<char> {
    s.map_values(|c: char| if c == '-' {
        '_'
    } else {
        c
    })
}

/// `CROSS_TARGET_`.
pub open spec fn env_prefix() -> Seq<char> {
    seq!['C', 'R', 'O', 'S', 'S', '_', 'T', 'A', 'R', 'G', 'E', 'T', '_']
}

/// `_IMAGE`.
pub open spec fn env_suffix() -> Seq<char> {
    seq!['_', 'I', 'M', 'A', 'G', 'E']
}

/// The environment variable that names the image for `target`.
pub open spec fn image_env_name(target: Seq<char>) -> Seq<char> {
    env_prefix() + dashes_to_underscores(uppercase(target)) + env_suffix()
}

/// The environment variable that names the image for `target`: `CROSS_TARGET_`, the
/// target in upper case with `-` replaced by `_`, and `_IMAGE`.
pub fn cross_image_env_name(target: &str) -> (res: String)
    ensures
        res@ == image_env_name(target@),
{
    let prefix = "CROSS_TARGET_";
    let suffix = "_IMAGE";
    proof {
        reveal_strlit("CROSS_TARGET_");
        reveal_strlit("_IMAGE");
    }
    let upper = chars_of(to_uppercase(target).as_str());
    let mut chars = chars_of(prefix);
    let ghost start = chars@;
    let mut i: usize = 0;
    while i < upper.len()
        invariant
            i <= upper@.len(),
            start == env_prefix(),
            chars@ == start + dashes_to_underscores(upper@.take(i as int)),
        decreases upper@.len() - i,
    {
        let c = upper[i];
        let d = if c == '-' {
            '_'
        } else {
            c
        };
        chars.push(d);
        assert(dashes_to_underscores(upper@.take(i + 1)) =~= dashes_to_underscores(
            upper@.take(i as int),
        ).push(d));
        i = i + 1;
    }
    assert(upper@.take(i as int) =~= upper@);
    let tail = chars_of(suffix);
    extend_chars(&mut chars, tail.as_slice());
    string_of(chars.as_slice())
}

/// `ghcr.io/cross-rs/`.
pub open spec fn image_prefix() -> Seq<char> {
    seq!['g', 'h', 'c', 'r', '.', 'i', 'o', '/', 'c', 'r', 'o', 's', 's', '-', 'r', 's', '/']
}

/// `:0.2.5`.
pub open spec fn image_tag() -> Seq<char> {
    seq![':', '0', '.', '2', '.', '5']
}

// ---------------------------------------------------------------------------
// Whether an image is configured
// ---------------------------------------------------------------------------

/// The value at `key` of `j`, and then at `key2` of that.
pub open spec fn json_get2(j: Json, key: Seq<char>, key2: Seq<char>) -> Option<Json> {
    match json_get(j, key) {
        Some(v) => json_get(v, key2),
        None => None,
    }
}

/// Whether `target.<arch>.image` is set in `j`.
pub open spec fn has_image(j: Json, arch: Seq<char>) -> bool {
    match json_get2(j, seq!['t', 'a', 'r', 'g', 'e', 't'], arch) {
        Some(a) => json_get(a, seq!['i', 'm', 'a', 'g', 'e']) is Some,
        None => false,
    }
}

/// `cross` in a metadata table.
pub open spec fn cross_word() -> Seq<char> {
    seq!['c', 'r', 'o', 's', 's']
}

/// What target `t` of package `pkg` says: `Some(true)` when it is a binary and the
/// package's metadata sets `cross.target.<arch>.image`; `Some(false)` when it is a binary
/// and the metadata is a table without `cross.target.<arch>`, which ends the search;
/// `None` to go on.
pub open spec fn target_verdict(pkg: CargoPackage, t: CargoTarget, arch: Seq<char>) -> Option<bool> {
    if is_bin_target(t) && pkg.metadata is Object {
        match json_get(pkg.metadata, cross_word()) {
            None => Some(false),
            Some(c) => match json_get2(c, seq!['t', 'a', 'r', 'g', 'e', 't'], arch) {
                None => Some(false),
                Some(a) => if json_get(a, seq!['i', 'm', 'a', 'g', 'e']) is Some {
                    Some(true)
                } else {
                    None
                },
            },
        }
    } else {
        None
    }
}

/// What targets `ts` of package `pkg` say, the first that says something.
pub open spec fn targets_verdict(pkg: CargoPackage, ts: Seq<CargoTarget>, arch: Seq<char>) -> Option<
    bool,
>
    decreases ts.len(),
{
    if ts.len() == 0 {
        None
    } else {
        match target_verdict(pkg, ts[0], arch) {
            None => targets_verdict(pkg, ts.drop_first(), arch),
            Some(b) => Some(b),
        }
    }
}

/// What packages `ps` say, the first that says something.
pub open spec fn packages_verdict(ps: Seq<CargoPackage>, arch: Seq<char>) -> Option<bool>
    decreases ps.len(),
{
    if ps.len() == 0 {
        None
    } else {
        match targets_verdict(ps[0], ps[0].targets@, arch) {
            None => packages_verdict(ps.drop_first(), arch),
            Some(b) => Some(b),
        }
    }
}

/// Whether the project configures an image for `arch`: in the metadata of a package with
/// a binary, in the workspace's metadata, in `Cross.toml`, or in the environment.
pub open spec fn image_configured(
    arch: Seq<char>,
    metadata: CargoMetadata,
    cross_toml: Option<Json>,
    env_var_set: bool,
) -> bool {
    ||| packages_verdict(metadata.packages@, arch) == Some(true)
    ||| (json_get(metadata.workspace_metadata, cross_word()) matches Some(c) && has_image(c, arch))
    ||| (cross_toml matches Some(t) && has_image(t, arch))
    ||| env_var_set
}

/// Whether `target.<arch>.image` is set in `j`.
fn image_set(j: &Json, arch: &str) -> (res: bool)
    ensures
        res == has_image(*j, arch@),
{
    let target = "target";
    let image = "image";
    proof {
        reveal_strlit("target");
        reveal_strlit("image");
    }
    assert(target@ =~= seq!['t', 'a', 'r', 'g', 'e', 't']);
    assert(image@ =~= seq!['i', 'm', 'a', 'g', 'e']);
    match j.get(target) {
        None => false,
        Some(t) => match t.get(arch) {
            None => false,
            Some(a) => a.get(image).is_some(),
        },
    }
}

/// What target `t` of package `pkg` says of an image for `arch`.
fn check_target(pkg: &CargoPackage, t: &CargoTarget, arch: &str) -> (res: Option<bool>)
    ensures
        res == target_verdict(*pkg, *t, arch@),
{
    let cross = "cross";
    let target = "target";
    let image = "image";
    proof {
        reveal_strlit("cross");
        reveal_strlit("target");
        reveal_strlit("image");
    }
    assert(cross@ =~= cross_word());
    assert(target@ =~= seq!['t', 'a', 'r', 'g', 'e', 't']);
    assert(image@ =~= seq!['i', 'm', 'a', 'g', 'e']);
    if kind_bin_filter(t) && pkg.metadata.is_object() {
        match pkg.metadata.get(cross) {
            None => Some(false),
            Some(c) => match c.get(target) {
                None => Some(false),
                Some(tt) => match tt.get(arch) {
                    None => Some(false),
                    Some(a) => if a.get(image).is_some() {
                        Some(true)
                    } else {
                        None
                    },
                },
            },
        }
    } else {
        None
    }
}

/// Whether the project configures a build image for `target_arch`: a package with a
/// binary sets `cross.target.<arch>.image` in its metadata (the search stops at the first
/// package with a binary and a metadata table that lacks `cross.target.<arch>`), the
/// workspace's metadata sets it, `Cross.toml` (`cross_toml`, when it could be read) sets
/// `target.<arch>.image`, or the environment variable for the image is set.
pub fn is_build_image_configured(
    target_arch: &str,
    env_var_set: bool,
    metadata: &CargoMetadata,
    cross_toml: Option<&Json>,
) -> (res: bool)
    ensures
        res == image_configured(
            target_arch@,
            *metadata,
            match cross_toml {
                Some(t) => Some(*t),
                None => None,
            },
            env_var_set,
        ),
{
    let ps = &metadata.packages;
    let ghost verdict = packages_verdict(ps@, target_arch@);
    assert(ps@.skip(0) =~= ps@);
    let mut i: usize = 0;
    while i < ps.len()
        invariant
            i <= ps@.len(),
            ps == &metadata.packages,
            verdict == packages_verdict(metadata.packages@, target_arch@),
            verdict == packages_verdict(ps@.skip(i as int), target_arch@),
        ensures
            verdict != Some(true),
        decreases ps@.len() - i,
    {
        let pkg = &ps[i];
        let ts = &pkg.targets;
        assert(ps@.skip(i as int)[0] == *pkg);
        assert(ps@.skip(i as int).drop_first() =~= ps@.skip(i + 1));
        assert(ts@.skip(0) =~= ts@);
        let mut j: usize = 0;
        let mut stop = false;
        while j < ts.len()
            invariant_except_break
                j <= ts@.len(),
                ts == &pkg.targets,
                verdict == packages_verdict(metadata.packages@, target_arch@),
                targets_verdict(*pkg, ts@, target_arch@) == targets_verdict(
                    *pkg,
                    ts@.skip(j as int),
                    target_arch@,
                ),
                !stop,
                verdict == packages_verdict(ps@.skip(i as int), target_arch@),
                ps@.skip(i as int).len() > 0,
                ps@.skip(i as int)[0] == *pkg,
            ensures
                stop ==> targets_verdict(*pkg, ts@, target_arch@) == Some(false),
                !stop ==> targets_verdict(*pkg, ts@, target_arch@) is None,
                verdict == packages_verdict(metadata.packages@, target_arch@),
            decreases ts@.len() - j,
        {
            let t = &ts[j];
            assert(ts@.skip(j as int)[0] == *t);
            assert(ts@.skip(j as int).drop_first() =~= ts@.skip(j + 1));
            match check_target(pkg, t, target_arch) {
                Some(true) => {
                    assert(targets_verdict(*pkg, ts@.skip(j as int), target_arch@) == Some(true));
                    assert(targets_verdict(*pkg, ts@, target_arch@) == Some(true));
                    assert(packages_verdict(ps@.skip(i as int), target_arch@) == Some(true));
                    return true;
                },
                Some(false) => {
                    stop = true;
                    break;
                },
                None => {},
            }
            j = j + 1;
        }
        if stop {
            break;
        }
        i = i + 1;
    }
    let cross = "cross";
    proof {
        reveal_strlit("cross");
    }
    assert(cross@ =~= cross_word());
    if let Some(c) = metadata.workspace_metadata.get(cross) {
        if image_set(c, target_arch) {
            return true;
        }
    }
    if let Some(t) = cross_toml {
        if image_set(t, target_arch) {
            return true;
        }
    }
    env_var_set
}

/// The build image to use for `target` with the variable that names it, unless the
/// project configures one: the `cross-rs` image `ghcr.io/cross-rs/<target>:0.2.5`
/// (`env_var_set` saying whether the variable is set in the environment).
pub fn default_cross_image(
    target: &str,
    env_var_set: bool,
    metadata: &CargoMetadata,
    cross_toml: Option<&Json>,
) -> (res: Option<(String, String)>)
    ensures
        image_configured(
            target@,
            *metadata,
            match cross_toml {
                Some(t) => Some(*t),
                None => None,
            },
            env_var_set,
        ) ==> res is None,
        !image_configured(
            target@,
            *metadata,
            match cross_toml {
                Some(t) => Some(*t),
                None => None,
            },
            env_var_set,
        ) ==> (res matches Some((name, image)) && name@ == image_env_name(target@) && image@
            == image_prefix() + target@ + image_tag()),
{
    let env_name = cross_image_env_name(target);
    if is_build_image_configured(target, env_var_set, metadata, cross_toml) {
        return None;
    }
    let prefix = "ghcr.io/cross-rs/";
    let tag = ":0.2.5";
    proof {
        reveal_strlit("ghcr.io/cross-rs/");
        reveal_strlit(":0.2.5");
    }
    let mut chars = chars_of(prefix);
    let t = chars_of(target);
    extend_chars(&mut chars, t.as_slice());
    let g = chars_of(tag);
    extend_chars(&mut chars, g.as_slice());
    Some((env_name, string_of(chars.as_slice())))
}

} // verus!
