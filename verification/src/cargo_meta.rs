//! What `cargo metadata` says of a project: its packages, their binary targets, and the
//! Lambda settings in their metadata.
use vstd::prelude::*;
use crate::error::MetadataError;
use crate::text::{join, views};

verus! {

/// A JSON value, as package metadata holds it.
#[derive(Debug)]
pub enum Json {
    Null,
    Bool(bool),
    /// A number, as written.
    Number(String),
    Str(String),
    Array(Vec<Json>),
    /// The members of an object, each key once.
    Object(Vec<(String, Json)>),
}

/// The keys of an object's members.
pub open spec fn member_keys(members: Seq<(String, Json)>) -> Seq<Seq<char>> {
    members.map_values(|m: (String, Json)| m.0@)
}

/// The position of the member `key` in an object, `-1` when there is none.
pub open spec fn member_index(members: Seq<(String, Json)>, key: Seq<char>) -> int {
    crate::config::first_named(member_keys(members), key)
}

/// The member `key` of an object; `None` for other values.
pub open spec fn json_get(j: Json, key: Seq<char>) -> Option<Json> {
    match j {
        Json::Object(members) => if member_index(members@, key) >= 0 {
            Some(members@[member_index(members@, key)].1)
        } else {
            None
        },
        _ => None,
    }
}

impl Json {
    /// Whether the value is an object.
    pub fn is_object(&self) -> (res: bool)
        ensures
            res == (*self is Object),
    {
        match self {
            Json::Object(_) => true,
            _ => false,
        }
    }

    /// The member `key` of an object (`serde_json::Value::get`); `None` for other values.
    pub fn get(&self, key: &str) -> (res: Option<&Json>)
        ensures
            match res {
                Some(r) => json_get(*self, key@) == Some(*r),
                None => json_get(*self, key@) is None,
            },
            match *self {
                Json::Object(members) => match res {
                    Some(r) => member_index(members@, key@) >= 0 && *r == members@[member_index(
                        members@,
                        key@,
                    )].1,
                    None => member_index(members@, key@) < 0,
                },
                _ => res is None,
            },
    {
        match self {
            Json::Object(members) => {
                let ghost ks = member_keys(members@);
                let mut i: usize = 0;
                while i < members.len()
                    invariant
                        i <= members@.len(),
                        *self matches Json::Object(m) && m@ == members@,
                        ks == member_keys(members@),
                        crate::config::first_named(ks.take(i as int), key@) == -1,
                    decreases members@.len() - i,
                {
                    assert(ks.take(i + 1).drop_last() =~= ks.take(i as int));
                    if crate::text::str_eq(members[i].0.as_str(), key) {
                        proof {
                            assert(ks[i as int] == members@[i as int].0@);
                            assert(ks.take(i + 1).last() == key@);
                            assert(crate::config::first_named(ks.take(i + 1), key@) == i);
                            lemma_first_named_take(ks, key@, i + 1);
                            assert(member_index(members@, key@) == i as int);
                        }
                        let r = &members[i].1;
                        assert(*r == members@[i as int].1);
                        return Some(r);
                    }
                    i = i + 1;
                }
                assert(ks.take(ks.len() as int) =~= ks);
                None
            },
            _ => None,
        }
    }
}

/// A match in a prefix is the first match of the whole sequence.
proof fn lemma_first_named_take(names: Seq<Seq<char>>, name: Seq<char>, k: int)
    requires
        0 <= k <= names.len(),
        crate::config::first_named(names.take(k), name) >= 0,
    ensures
        crate::config::first_named(names, name) == crate::config::first_named(names.take(k), name),
    decreases names.len() - k,
{
    if k < names.len() {
        assert(names.take(k + 1).drop_last() =~= names.take(k));
        lemma_first_named_take(names, name, k + 1);
    } else {
        assert(names.take(k) =~= names);
    }
}

/// The text of a string value; empty for other values.
pub open spec fn str_text(j: Json) -> Seq<char> {
    match j {
        Json::Str(s) => s@,
        _ => Seq::empty(),
    }
}

/// `key=value` for an object member, the value taken as text.
pub open spec fn member_assignment(m: (String, Json)) -> Seq<char> {
    m.0@ + seq!['='] + str_text(m.1)
}

/// A list of strings written either as an array of strings or as an object whose members
/// become `key=value`; `None` for an array with an item that is not a string, and for
/// other values.
pub open spec fn list_or_assignments(j: Json) -> Option<Seq<Seq<char>>> {
    match j {
        Json::Array(items) => if forall|i: int| 0 <= i < items@.len() ==> #[trigger] items@[i] is Str {
            Some(items@.map_values(|v: Json| str_text(v)))
        } else {
            None
        },
        Json::Object(members) => Some(members@.map_values(|m: (String, Json)| member_assignment(m))),
        _ => None,
    }
}

/// A list of strings read from a configuration value that holds either an array of strings
/// or an object of `key = value` members, such as environment variables or tags.
pub fn vec_or_map(value: &Json) -> (res: Option<Vec<String>>)
    ensures
        match res {
            Some(v) => list_or_assignments(*value) == Some(views(v@)),
            None => list_or_assignments(*value) is None,
        },
{
    match value {
        Json::Array(items) => {
            let mut out: Vec<String> = Vec::new();
            let mut i: usize = 0;
            while i < items.len()
                invariant
                    *value == Json::Array(*items),
                    i <= items@.len(),
                    out@.len() == i,
                    forall|k: int| 0 <= k < i ==> #[trigger] items@[k] is Str,
                    forall|k: int| 0 <= k < i ==> (#[trigger] out@[k])@ == str_text(items@[k]),
                decreases items@.len() - i,
            {
                match &items[i] {
                    Json::Str(s) => out.push(s.clone()),
                    _ => {
                        assert(!(items@[i as int] is Str));
                        return None;
                    },
                }
                i = i + 1;
            }
            assert(views(out@) =~= items@.map_values(|v: Json| str_text(v)));
            Some(out)
        },
        Json::Object(members) => {
            let mut out: Vec<String> = Vec::new();
            let mut i: usize = 0;
            while i < members.len()
                invariant
                    i <= members@.len(),
                    out@.len() == i,
                    forall|k: int| 0 <= k < i ==> (#[trigger] out@[k])@ == member_assignment(
                        members@[k],
                    ),
                decreases members@.len() - i,
            {
                let mut text = crate::text::chars_of(members[i].0.as_str());
                text.push('=');
                let value_text: Vec<char> = match &members[i].1 {
                    Json::Str(v) => crate::text::chars_of(v.as_str()),
                    _ => Vec::new(),
                };
                crate::text::extend_chars(&mut text, value_text.as_slice());
                let entry = crate::text::string_of(text.as_slice());
                assert(entry@ =~= member_assignment(members@[i as int]));
                out.push(entry);
                i = i + 1;
            }
            assert(views(out@) =~= members@.map_values(|m: (String, Json)| member_assignment(m)));
            Some(out)
        },
        _ => None,
    }
}

/// A target of a package.
#[derive(Debug)]
pub struct CargoTarget {
    pub name: String,
    /// Its kinds, such as `bin`, `lib` or `example`.
    pub kind: Vec<String>,
    /// Its crate types, such as `bin` or `lib`.
    pub crate_types: Vec<String>,
}

/// A package of the project.
#[derive(Debug)]
pub struct CargoPackage {
    pub name: String,
    pub targets: Vec<CargoTarget>,
    /// The package's `[package.metadata]` table.
    pub metadata: Json,
}

/// What `cargo metadata` says of a project.
#[derive(Debug)]
pub struct CargoMetadata {
    pub packages: Vec<CargoPackage>,
    /// The workspace's `[workspace.metadata]` table.
    pub workspace_metadata: Json,
    /// The directory that builds write to.
    pub target_directory: String,
}

/// `bin`.
pub open spec fn bin_word() -> Seq<char> {
    seq!['b', 'i', 'n']
}

/// `example`.
pub open spec fn example_word() -> Seq<char> {
    seq!['e', 'x', 'a', 'm', 'p', 'l', 'e']
}

/// Whether `s` is one of `words`.
fn contains_word(words: &Vec<String>, s: &str) -> (res: bool)
    ensures
        res == views(words@).contains(s@),
{
    match crate::config::position_of(words, s) {
        Some(i) => {
            assert(views(words@)[i as int] == s@);
            true
        },
        None => false,
    }
}

/// Whether a target is a binary.
pub open spec fn is_bin_target(t: CargoTarget) -> bool {
    views(t.kind@).contains(bin_word())
}

/// Whether a target is an example built as a binary.
pub open spec fn is_example_target(t: CargoTarget) -> bool {
    views(t.kind@).contains(example_word()) && views(t.crate_types@).contains(bin_word())
}

/// Whether a target is a binary (`kind` holds `bin`).
pub fn kind_bin_filter(target: &CargoTarget) -> (res: bool)
    ensures
        res == is_bin_target(*target),
{
    let b = "bin";
    proof {
        reveal_strlit("bin");
    }
    assert(b@ =~= bin_word());
    contains_word(&target.kind, b)
}

/// Whether a target is an example built as a binary (`kind` holds `example` and
/// `crate_types` holds `bin`).
pub fn kind_example_filter(target: &CargoTarget) -> (res: bool)
    ensures
        res == is_example_target(*target),
{
    let b = "bin";
    let e = "example";
    proof {
        reveal_strlit("bin");
        reveal_strlit("example");
    }
    assert(b@ =~= bin_word());
    assert(e@ =~= example_word());
    contains_word(&target.kind, e) && contains_word(&target.crate_types, b)
}

/// Which targets are wanted.
pub enum TargetFilter {
    /// Binaries.
    Bin,
    /// Examples built as binaries.
    Example,
    /// Binaries with one of these names.
    SelectedBins(Vec<String>),
}

/// Whether a target passes a filter.
pub open spec fn passes(f: TargetFilter, t: CargoTarget) -> bool {
    match f {
        TargetFilter::Bin => is_bin_target(t),
        TargetFilter::Example => is_example_target(t),
        TargetFilter::SelectedBins(names) => is_bin_target(t) && views(names@).contains(t.name@),
    }
}

/// Whether a target passes a filter.
pub fn target_passes(filter: &TargetFilter, target: &CargoTarget) -> (res: bool)
    ensures
        res == passes(*filter, *target),
{
    match filter {
        TargetFilter::Bin => kind_bin_filter(target),
        TargetFilter::Example => kind_example_filter(target),
        TargetFilter::SelectedBins(names) => kind_bin_filter(target) && contains_word(
            names,
            target.name.as_str(),
        ),
    }
}

/// The filter of binaries with one of the given names.
pub fn selected_bin_filter(selected_bins: Vec<String>) -> (res: TargetFilter)
    ensures
        res == TargetFilter::SelectedBins(selected_bins),
{
    TargetFilter::SelectedBins(selected_bins)
}

/// The names of the targets of `packages` that pass the filter (and whose package is
/// selected, when packages are selected by name).
pub open spec fn target_names(
    packages: Seq<CargoPackage>,
    filter: TargetFilter,
    selected: Option<Seq<Seq<char>>>,
) -> Set<Seq<char>> {
    Set::new(
        |n: Seq<char>|
            exists|i: int, j: int|
                0 <= i < packages.len() && 0 <= j < packages[i].targets@.len() && (
                selected matches Some(s) ==> s.contains(packages[i].name@)) && #[trigger] passes(
                    filter,
                    packages[i].targets@[j],
                ) && packages[i].targets@[j].name@ == n,
    )
}

/// The names of the targets that pass `target_filter`, in packages whose names are in
/// `package_filter` when it is given; each name once, in the order first found.
pub fn filter_binary_targets_from_metadata(
    metadata: &CargoMetadata,
    target_filter: &TargetFilter,
    package_filter: Option<&Vec<String>>,
) -> (res: Vec<String>)
    ensures
        views(res@).to_set() == target_names(
            metadata.packages@,
            *target_filter,
            match package_filter {
                Some(p) => Some(views(p@)),
                None => None,
            },
        ),
        views(res@).no_duplicates(),
{
    let ghost sel = match package_filter {
        Some(p) => Some(views(p@)),
        None => None,
    };
    let ghost pk = metadata.packages@;
    let mut res: Vec<String> = Vec::new();
    let mut i: usize = 0;
    while i < metadata.packages.len()
        invariant
            i <= pk.len(),
            pk == metadata.packages@,
            sel == match package_filter {
                Some(p) => Some(views(p@)),
                None => None,
            },
            views(res@).no_duplicates(),
            forall|n: Seq<char>| #[trigger] views(res@).contains(n) <==> exists|a: int, b: int|
                0 <= a < i && 0 <= b < pk[a].targets@.len() && (sel matches Some(s) ==> s.contains(
                    pk[a].name@,
                )) && #[trigger] passes(*target_filter, pk[a].targets@[b]) && pk[a].targets@[b].name@
                    == n,
        decreases pk.len() - i,
    {
        let pkg = &metadata.packages[i];
        let selected = match package_filter {
            Some(p) => contains_word(p, pkg.name.as_str()),
            None => true,
        };
        let mut j: usize = 0;
        while j < pkg.targets.len()
            invariant
                i < pk.len(),
                j <= pk[i as int].targets@.len(),
                *pkg == pk[i as int],
                pk == metadata.packages@,
                selected == (sel matches Some(s) ==> s.contains(pk[i as int].name@)),
                views(res@).no_duplicates(),
                forall|n: Seq<char>| #[trigger] views(res@).contains(n) <==> (exists|a: int, b: int|
                    0 <= a < i && 0 <= b < pk[a].targets@.len() && (sel matches Some(s)
                        ==> s.contains(pk[a].name@)) && #[trigger] passes(
                        *target_filter,
                        pk[a].targets@[b],
                    ) && pk[a].targets@[b].name@ == n) || (exists|b: int|
                    0 <= b < j && selected && #[trigger] passes(
                        *target_filter,
                        pk[i as int].targets@[b],
                    ) && pk[i as int].targets@[b].name@ == n),
            decreases pk[i as int].targets@.len() - j,
        {
            let t = &pkg.targets[j];
            if selected && target_passes(target_filter, t) && !contains_word(&res, t.name.as_str()) {
                let ghost before = views(res@);
                res.push(t.name.clone());
                assert(views(res@) =~= before.push(t.name@));
                proof {
                    assert forall|x: int, y: int| 0 <= x < y < views(res@).len() implies views(
                        res@,
                    )[x] != views(res@)[y] by {
                        if y == before.len() {
                            assert(before.contains(before[x]));
                        }
                    }
                }
                assert forall|n: Seq<char>| #[trigger] views(res@).contains(n) <==> ((exists|a: int, b: int|
                    0 <= a < i && 0 <= b < pk[a].targets@.len() && (sel matches Some(s)
                        ==> s.contains(pk[a].name@)) && #[trigger] passes(
                        *target_filter,
                        pk[a].targets@[b],
                    ) && pk[a].targets@[b].name@ == n) || (exists|b: int|
                    0 <= b < j + 1 && selected && #[trigger] passes(
                        *target_filter,
                        pk[i as int].targets@[b],
                    ) && pk[i as int].targets@[b].name@ == n)) by {
                    if n == t.name@ {
                        assert(views(res@)[before.len() as int] == n);
                    }
                    if views(res@).contains(n) && n != t.name@ {
                        let k = choose|k: int| 0 <= k < views(res@).len() && views(res@)[k] == n;
                        assert(before[k] == n);
                    }
                    if before.contains(n) {
                        let k = choose|k: int| 0 <= k < before.len() && before[k] == n;
                        assert(views(res@)[k] == n);
                    }
                }
            } else {
                assert forall|n: Seq<char>| #[trigger] views(res@).contains(n) <==> ((exists|a: int, b: int|
                    0 <= a < i && 0 <= b < pk[a].targets@.len() && (sel matches Some(s)
                        ==> s.contains(pk[a].name@)) && #[trigger] passes(
                        *target_filter,
                        pk[a].targets@[b],
                    ) && pk[a].targets@[b].name@ == n) || (exists|b: int|
                    0 <= b < j + 1 && selected && #[trigger] passes(
                        *target_filter,
                        pk[i as int].targets@[b],
                    ) && pk[i as int].targets@[b].name@ == n)) by {
                    if selected && passes(*target_filter, pk[i as int].targets@[j as int])
                        && pk[i as int].targets@[j as int].name@ == n {
                        assert(views(res@).contains(n));
                    }
                }
            }
            j = j + 1;
        }
        assert forall|n: Seq<char>| #[trigger] views(res@).contains(n) <==> exists|a: int, b: int|
            0 <= a < i + 1 && 0 <= b < pk[a].targets@.len() && (sel matches Some(s) ==> s.contains(
                pk[a].name@,
            )) && #[trigger] passes(*target_filter, pk[a].targets@[b]) && pk[a].targets@[b].name@
                == n by {
            if exists|b: int|
                0 <= b < pk[i as int].targets@.len() && selected && #[trigger] passes(
                    *target_filter,
                    pk[i as int].targets@[b],
                ) && pk[i as int].targets@[b].name@ == n {
                let b = choose|b: int|
                    0 <= b < pk[i as int].targets@.len() && selected && #[trigger] passes(
                        *target_filter,
                        pk[i as int].targets@[b],
                    ) && pk[i as int].targets@[b].name@ == n;
                assert(exists|a: int, b2: int|
                    0 <= a < i + 1 && 0 <= b2 < pk[a].targets@.len() && (sel matches Some(s)
                        ==> s.contains(pk[a].name@)) && #[trigger] passes(
                        *target_filter,
                        pk[a].targets@[b2],
                    ) && pk[a].targets@[b2].name@ == n) by {
                    assert(passes(*target_filter, pk[i as int].targets@[b]));
                }
            }
        }
        i = i + 1;
    }
    proof {
        assert forall|n: Seq<char>| #[trigger] views(res@).to_set().contains(n) == target_names(
            pk,
            *target_filter,
            sel,
        ).contains(n) by {
            assert(views(res@).to_set().contains(n) == views(res@).contains(n));
        }
        assert(views(res@).to_set() =~= target_names(pk, *target_filter, sel));
    }
    res
}

/// The names of the binaries (or, with `build_examples`, of the examples) of the project;
/// each name once.
pub fn binary_targets_from_metadata(metadata: &CargoMetadata, build_examples: bool) -> (res: Vec<
    String,
>)
    ensures
        views(res@).to_set() == target_names(
            metadata.packages@,
            if build_examples {
                TargetFilter::Example
            } else {
                TargetFilter::Bin
            },
            None,
        ),
        views(res@).no_duplicates(),
{
    let filter = if build_examples {
        TargetFilter::Example
    } else {
        TargetFilter::Bin
    };
    filter_binary_targets_from_metadata(metadata, &filter, None)
}

// ---------------------------------------------------------------------------
// The main binary
// ---------------------------------------------------------------------------

/// Whether `a` comes before `b` in the order of `String`: character by character, a
/// proper prefix first.
pub open spec fn str_lt(a: Seq<char>, b: Seq<char>) -> bool
    decreases a.len(),
{
    if a.len() == 0 {
        b.len() > 0
    } else if b.len() == 0 {
        false
    } else if a[0] == b[0] {
        str_lt(a.drop_first(), b.drop_first())
    } else {
        a[0] < b[0]
    }
}

/// Each string of `s` comes before the next.
pub open spec fn sorted_strictly(s: Seq<Seq<char>>) -> bool {
    forall|i: int, j: int| 0 <= i < j < s.len() ==> str_lt(#[trigger] s[i], #[trigger] s[j])
}

/// `str_lt` is irreflexive and asymmetric.
pub proof fn lemma_str_lt_asym(a: Seq<char>, b: Seq<char>)
    ensures
        !str_lt(a, a),
        !(str_lt(a, b) && str_lt(b, a)),
    decreases a.len(),
{
    if a.len() > 0 {
        lemma_str_lt_asym(a.drop_first(), a.drop_first());
        if b.len() > 0 {
            lemma_str_lt_asym(a.drop_first(), b.drop_first());
        }
    }
}

/// Of two different strings, one comes before the other.
pub proof fn lemma_str_lt_total(a: Seq<char>, b: Seq<char>)
    requires
        a != b,
    ensures
        str_lt(a, b) || str_lt(b, a),
    decreases a.len(),
{
    if a.len() > 0 && b.len() > 0 {
        if a[0] == b[0] {
            assert(a.drop_first() != b.drop_first()) by {
                if a.drop_first() == b.drop_first() {
                    assert(a =~= seq![a[0]] + a.drop_first());
                    assert(b =~= seq![b[0]] + b.drop_first());
                }
            }
            lemma_str_lt_total(a.drop_first(), b.drop_first());
        }
    } else if a.len() == 0 && b.len() == 0 {
        assert(a =~= b);
    }
}

/// `str_lt` is transitive.
pub proof fn lemma_str_lt_trans(a: Seq<char>, b: Seq<char>, c: Seq<char>)
    requires
        str_lt(a, b),
        str_lt(b, c),
    ensures
        str_lt(a, c),
    decreases a.len(),
{
    if a.len() > 0 && b.len() > 0 && c.len() > 0 && a[0] == b[0] && b[0] == c[0] {
        lemma_str_lt_trans(a.drop_first(), b.drop_first(), c.drop_first());
    }
}

/// Whether `a` comes before `b` in the order of `String`.
pub fn string_lt(a: &str, b: &str) -> (res: bool)
    ensures
        res == str_lt(a@, b@),
{
    let x = crate::text::chars_of(a);
    let y = crate::text::chars_of(b);
    let mut i: usize = 0;
    assert(x@.skip(0) =~= x@);
    assert(y@.skip(0) =~= y@);
    while i < x.len() && i < y.len() && x[i] == y[i]
        invariant
            i <= x@.len(),
            i <= y@.len(),
            str_lt(x@, y@) == str_lt(x@.skip(i as int), y@.skip(i as int)),
        decreases x@.len() - i,
    {
        assert(x@.skip(i as int).drop_first() =~= x@.skip(i + 1));
        assert(y@.skip(i as int).drop_first() =~= y@.skip(i + 1));
        i = i + 1;
    }
    if i == x.len() {
        i < y.len()
    } else if i == y.len() {
        false
    } else {
        assert(x@.skip(i as int)[0] == x@[i as int]);
        assert(y@.skip(i as int)[0] == y@[i as int]);
        x[i] < y[i]
    }
}

/// The strings of `v`, sorted; `v` holds each string once.
pub fn sort_strings(v: Vec<String>) -> (res: Vec<String>)
    requires
        views(v@).no_duplicates(),
    ensures
        sorted_strictly(views(res@)),
        views(res@).to_set() == views(v@).to_set(),
        res@.len() == v@.len(),
{
    let mut out: Vec<String> = Vec::new();
    let mut i: usize = 0;
    while i < v.len()
        invariant
            i <= v@.len(),
            views(v@).no_duplicates(),
            sorted_strictly(views(out@)),
            views(out@).to_set() == views(v@).take(i as int).to_set(),
            out@.len() == i,
        decreases v@.len() - i,
    {
        let s = v[i].clone();
        let mut k: usize = 0;
        while k < out.len() && string_lt(out[k].as_str(), s.as_str())
            invariant
                k <= out@.len(),
                forall|m: int| 0 <= m < k ==> str_lt(#[trigger] views(out@)[m], s@),
            decreases out@.len() - k,
        {
            k = k + 1;
        }
        let ghost before = views(out@);
        proof {
            assert(!before.contains(s@)) by {
                if before.contains(s@) {
                    let m = choose|m: int| 0 <= m < before.len() && before[m] == s@;
                    assert(before.to_set().contains(s@));
                    assert(views(v@).take(i as int).contains(s@));
                    let q = choose|q: int| 0 <= q < i && #[trigger] views(v@).take(i as int)[q] == s@;
                    assert(views(v@)[q] == views(v@)[i as int]);
                }
            }
            assert forall|m: int| k <= m < before.len() implies str_lt(s@, #[trigger] before[m]) by {
                assert(before[k as int] != s@);
                assert(!str_lt(before[k as int], s@));
                lemma_str_lt_total(before[k as int], s@);
                if m > k {
                    lemma_str_lt_trans(s@, before[k as int], before[m]);
                }
            }
        }
        out.insert(k, s);
        assert(views(out@) =~= before.insert(k as int, v@[i as int]@));
        proof {
            let o = views(out@);
            assert forall|a: int, b: int| 0 <= a < b < o.len() implies str_lt(
                #[trigger] o[a],
                #[trigger] o[b],
            ) by {
                if b < k {
                    assert(o[a] == before[a] && o[b] == before[b]);
                } else if b == k {
                    assert(o[a] == before[a]);
                } else if a == k {
                    assert(o[b] == before[b - 1]);
                } else if a < k {
                    assert(o[a] == before[a] && o[b] == before[b - 1]);
                    lemma_str_lt_trans(before[a], s@, before[b - 1]);
                } else {
                    assert(o[a] == before[a - 1] && o[b] == before[b - 1]);
                }
            }
            lemma_insert_to_set(before, k as int, v@[i as int]@);
            assert(views(v@).take(i + 1) =~= views(v@).take(i as int).push(v@[i as int]@));
            views(v@).take(i as int).lemma_push_to_set_commute(v@[i as int]@);
        }
        i = i + 1;
    }
    assert(views(v@).take(v@.len() as int) =~= views(v@));
    out
}

/// Inserting an element into a sequence inserts it into its set.
proof fn lemma_insert_to_set(s: Seq<Seq<char>>, k: int, x: Seq<char>)
    requires
        0 <= k <= s.len(),
    ensures
        s.insert(k, x).to_set() == s.to_set().insert(x),
{
    let t = s.insert(k, x);
    assert forall|y: Seq<char>| t.to_set().contains(y) == s.to_set().insert(x).contains(y) by {
        if t.contains(y) {
            let m = choose|m: int| 0 <= m < t.len() && t[m] == y;
            if m < k {
                assert(s[m] == y);
            } else if m > k {
                assert(s[m - 1] == y);
            }
        }
        if s.contains(y) {
            let m = choose|m: int| 0 <= m < s.len() && s[m] == y;
            if m < k {
                assert(t[m] == y);
            } else {
                assert(t[m + 1] == y);
            }
        }
        if y == x {
            assert(t[k] == y);
        }
    }
    assert(t.to_set() =~= s.to_set().insert(x));
}

/// The name of the only binary of the project; an error naming all binaries, sorted and
/// separated by `, `, when there are several, and another when there is none.
pub fn main_binary_from_metadata(metadata: &CargoMetadata) -> (res: Result<String, MetadataError>)
    ensures
        ({
            let names = target_names(metadata.packages@, TargetFilter::Bin, None);
            match res {
                Ok(n) => names == set![n@],
                Err(MetadataError::MissingBinaryInProject) => names.len() == 0,
                Err(MetadataError::MultipleBinariesInProject(s)) => names.len() > 1 && exists|
                    l: Seq<Seq<char>>,
                | #[trigger] sorted_strictly(l) && l.to_set() == names && s@ == join(
                    l,
                    seq![',', ' '],
                ),
                Err(_) => false,
            }
        }),
{
    let targets = binary_targets_from_metadata(metadata, false);
    let ghost names = target_names(metadata.packages@, TargetFilter::Bin, None);
    proof {
        views(targets@).unique_seq_to_set();
    }
    if targets.len() > 1 {
        let sorted = sort_strings(targets);
        let sep = ", ";
        proof {
            reveal_strlit(", ");
        }
        assert(sep@ =~= seq![',', ' ']);
        let s = crate::text::join_strings(sorted.as_slice(), sep);
        Err(MetadataError::MultipleBinariesInProject(s))
    } else if targets.len() == 0 {
        proof {
            assert(views(targets@).to_set().len() == 0);
        }
        Err(MetadataError::MissingBinaryInProject)
    } else {
        proof {
            let t = views(targets@);
            assert forall|y: Seq<char>| t.to_set().contains(y) == set![targets@[0]@].contains(y) by {
                if t.contains(y) {
                    let m = choose|m: int| 0 <= m < t.len() && t[m] == y;
                    assert(m == 0);
                }
                if y == targets@[0]@ {
                    assert(t[0] == y);
                }
            }
            assert(t.to_set() =~= set![targets@[0]@]);
        }
        Ok(targets[0].clone())
    }
}

// ---------------------------------------------------------------------------
// Release profile
// ---------------------------------------------------------------------------

/// A boolean setting of a Cargo profile, which may be written as a boolean, a number or
/// a string.
#[derive(Debug)]
pub enum CargoBool {
    Bool(bool),
    Num(u8),
    Str(String),
}

/// The `[profile.release]` settings that release optimizations depend on; each is given
/// or not, whatever its value.
#[derive(Debug)]
pub struct CargoProfileRelease {
    pub strip: bool,
    pub lto: bool,
    pub codegen_units: bool,
    pub panic: bool,
    pub debug: CargoBool,
}

impl CargoProfileRelease {
    /// Whether debug information is on: anything but `"none"`, `0` and `false`.
    pub fn debug_enabled(&self) -> (res: bool)
        ensures
            res == !(match self.debug {
                CargoBool::Str(s) => s@ == seq!['n', 'o', 'n', 'e'],
                CargoBool::Num(n) => n == 0,
                CargoBool::Bool(b) => !b,
            }),
    {
        let none = "none";
        proof {
            reveal_strlit("none");
        }
        assert(none@ =~= seq!['n', 'o', 'n', 'e']);
        match &self.debug {
            CargoBool::Str(s) => !crate::text::str_eq(s.as_str(), none),
            CargoBool::Num(n) => *n != 0,
            CargoBool::Bool(b) => *b,
        }
    }
}

/// The release optimizations that a project's own release profile does not already
/// set: `strip` (unless debug information is on), `lto`, `codegen-units` and `panic`.
pub fn cargo_release_profile_config_from_metadata(release: Option<&CargoProfileRelease>) -> (res: Vec<
    &'static str,
>)
    ensures
        res@.map_values(|s: &str| s@) == match release {
            None => seq![strip_config(), lto_config(), codegen_config(), panic_config()],
            Some(r) => (if r.strip || r.debug_enabled_spec() {
                Seq::empty()
            } else {
                seq![strip_config()]
            }) + (if r.lto {
                Seq::empty()
            } else {
                seq![lto_config()]
            }) + (if r.codegen_units {
                Seq::empty()
            } else {
                seq![codegen_config()]
            }) + (if r.panic {
                Seq::empty()
            } else {
                seq![panic_config()]
            }),
        },
{
    let strip = "profile.release.strip=\"symbols\"";
    let lto = "profile.release.lto=\"thin\"";
    let codegen = "profile.release.codegen-units=1";
    let panic = "profile.release.panic=\"abort\"";
    proof {
        reveal_strlit("profile.release.strip=\"symbols\"");
        reveal_strlit("profile.release.lto=\"thin\"");
        reveal_strlit("profile.release.codegen-units=1");
        reveal_strlit("profile.release.panic=\"abort\"");
    }
    assert(strip@ =~= strip_config());
    assert(lto@ =~= lto_config());
    assert(codegen@ =~= codegen_config());
    assert(panic@ =~= panic_config());
    let mut config: Vec<&'static str> = Vec::new();
    let (s, l, c, p) = match release {
        None => (true, true, true, true),
        Some(r) => (!(r.strip || r.debug_enabled()), !r.lto, !r.codegen_units, !r.panic),
    };
    if s {
        config.push(strip);
    }
    if l {
        config.push(lto);
    }
    if c {
        config.push(codegen);
    }
    if p {
        config.push(panic);
    }
    assert(config@.map_values(|s: &str| s@) =~= match release {
        None => seq![strip_config(), lto_config(), codegen_config(), panic_config()],
        Some(r) => (if r.strip || r.debug_enabled_spec() {
            Seq::empty()
        } else {
            seq![strip_config()]
        }) + (if r.lto {
            Seq::empty()
        } else {
            seq![lto_config()]
        }) + (if r.codegen_units {
            Seq::empty()
        } else {
            seq![codegen_config()]
        }) + (if r.panic {
            Seq::empty()
        } else {
            seq![panic_config()]
        }),
    });
    config
}

impl CargoProfileRelease {
    /// Debug information is on.
    pub open spec fn debug_enabled_spec(&self) -> bool {
        !(match self.debug {
            CargoBool::Str(s) => s@ == seq!['n', 'o', 'n', 'e'],
            CargoBool::Num(n) => n == 0,
            CargoBool::Bool(b) => !b,
        })
    }
}

/// `profile.release.strip="symbols"`.
pub open spec fn strip_config() -> Seq<char> {
    seq![
        'p', 'r', 'o', 'f', 'i', 'l', 'e', '.', 'r', 'e', 'l', 'e', 'a', 's', 'e', '.', 's', 't', 'r',
        'i', 'p', '=', '"', 's', 'y', 'm', 'b', 'o', 'l', 's', '"',
    ]
}

/// `profile.release.lto="thin"`.
pub open spec fn lto_config() -> Seq<char> {
    seq![
        'p', 'r', 'o', 'f', 'i', 'l', 'e', '.', 'r', 'e', 'l', 'e', 'a', 's', 'e', '.', 'l', 't', 'o',
        '=', '"', 't', 'h', 'i', 'n', '"',
    ]
}

/// `profile.release.codegen-units=1`.
pub open spec fn codegen_config() -> Seq<char> {
    seq![
        'p', 'r', 'o', 'f', 'i', 'l', 'e', '.', 'r', 'e', 'l', 'e', 'a', 's', 'e', '.', 'c', 'o', 'd',
        'e', 'g', 'e', 'n', '-', 'u', 'n', 'i', 't', 's', '=', '1',
    ]
}

/// `profile.release.panic="abort"`.
pub open spec fn panic_config() -> Seq<char> {
    seq![
        'p', 'r', 'o', 'f', 'i', 'l', 'e', '.', 'r', 'e', 'l', 'e', 'a', 's', 'e', '.', 'p', 'a', 'n',
        'i', 'c', '=', '"', 'a', 'b', 'o', 'r', 't', '"',
    ]
}

} // verus!
