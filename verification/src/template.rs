//! Project templates: their configuration, the variables they are rendered with, and
//! which of their files are rendered or left out.
use vstd::prelude::*;
use crate::text::str_eq;

verus! {

/// A value that a template prompt gives.
#[derive(Debug, Clone)]
pub enum PromptValue {
    Boolean(bool),
    String(String),
}

/// The value of a template variable.
#[derive(Debug, Clone)]
pub enum TemplateValue {
    /// No value.
    Nil,
    Bool(bool),
    Str(String),
}

/// The value of a template variable, its string taken by its characters.
pub enum ValueView {
    Nil,
    Bool(bool),
    Str(Seq<char>),
}

impl View for TemplateValue {
    type V = ValueView;

    open spec fn view(&self) -> ValueView {
        match self {
            TemplateValue::Nil => ValueView::Nil,
            TemplateValue::Bool(b) => ValueView::Bool(*b),
            TemplateValue::Str(s) => ValueView::Str(s@),
        }
    }
}

impl TemplateValue {
    /// A copy of the value.
    pub fn copy(&self) -> (res: TemplateValue)
        ensures
            res@ == self@,
    {
        match self {
            TemplateValue::Nil => TemplateValue::Nil,
            TemplateValue::Bool(b) => TemplateValue::Bool(*b),
            TemplateValue::Str(s) => TemplateValue::Str(s.clone()),
        }
    }
}

/// A condition on a template variable.
#[derive(Debug)]
pub struct RenderCondition {
    /// The variable.
    pub var: String,
    /// The condition holds when the variable equals this value.
    pub match_value: Option<PromptValue>,
    /// The condition holds when the variable differs from this value.
    pub not_match: Option<PromptValue>,
}

/// A question that a template asks when a project is created.
#[derive(Debug)]
pub struct TemplatePrompt {
    pub message: String,
    pub choices: Option<Vec<String>>,
    pub default: Option<PromptValue>,
}

/// The `[template]` table of a template's `CargoLambda.toml`.
#[derive(Debug)]
pub struct TemplateConfig {
    pub disable_default_prompts: bool,
    /// The prompts, in order, each name once.
    pub prompts: Vec<(String, TemplatePrompt)>,
    pub render_files: Vec<String>,
    pub render_all_files: bool,
    pub ignore_files: Vec<String>,
    /// Files rendered only under a condition, each path once.
    pub render_conditional_files: Vec<(String, RenderCondition)>,
    /// Files left out under a condition, each path once.
    pub ignore_conditional_files: Vec<(String, RenderCondition)>,
}

impl TemplateConfig {
    /// No prompts and no files singled out.
    pub fn default() -> (res: TemplateConfig)
        ensures
            !res.disable_default_prompts,
            res.prompts@.len() == 0,
            res.render_files@.len() == 0,
            !res.render_all_files,
            res.ignore_files@.len() == 0,
            res.render_conditional_files@.len() == 0,
            res.ignore_conditional_files@.len() == 0,
    {
        TemplateConfig {
            disable_default_prompts: false,
            prompts: Vec::new(),
            render_files: Vec::new(),
            render_all_files: false,
            ignore_files: Vec::new(),
            render_conditional_files: Vec::new(),
            ignore_conditional_files: Vec::new(),
        }
    }
}

// ---------------------------------------------------------------------------
// Comparing values as the template engine does
// ---------------------------------------------------------------------------

/// Whether the template engine takes prompt value `p` and variable value `v` as equal:
/// two booleans or two strings when they are the same; a boolean and a string when the
/// boolean is true; a boolean and no value when the boolean is false; never a string and
/// no value.
pub open spec fn liquid_eq(p: PromptValue, v: TemplateValue) -> bool {
    match (p, v) {
        (PromptValue::Boolean(a), TemplateValue::Bool(b)) => a == b,
        (PromptValue::String(a), TemplateValue::Str(b)) => a@ == b@,
        (PromptValue::Boolean(a), TemplateValue::Str(_)) => a,
        (PromptValue::String(_), TemplateValue::Bool(b)) => b,
        (PromptValue::Boolean(a), TemplateValue::Nil) => !a,
        (PromptValue::String(_), TemplateValue::Nil) => false,
    }
}

/// `liquid::model::Value`'s `==` on the two values: by liquid-core's `value_eq` and
/// `scalar_eq`, two scalars of one kind compare their contents, a boolean against a
/// scalar of another kind is its own truth, and against nil its negation (a string
/// against nil is false).
#[verifier::external_body]
fn values_equal(p: &PromptValue, v: &TemplateValue) -> (res: bool)
    ensures
        res == liquid_eq(*p, *v),
{
    let left = match p {
        PromptValue::Boolean(b) => liquid::model::Value::scalar(*b),
        PromptValue::String(s) => liquid::model::Value::scalar(s.clone()),
    };
    let right = match v {
        TemplateValue::Nil => liquid::model::Value::Nil,
        TemplateValue::Bool(b) => liquid::model::Value::scalar(*b),
        TemplateValue::Str(s) => liquid::model::Value::scalar(s.clone()),
    };
    left == right
}

// ---------------------------------------------------------------------------
// Paths
// ---------------------------------------------------------------------------

/// Whether two paths are equal as `std::path::Path` compares them, component by component.
pub uninterp spec fn path_eq(a: Seq<char>, b: Seq<char>) -> bool;

/// `Path::new(a) == Path::new(b)`.
#[verifier::external_body]
fn same_path(a: &str, b: &str) -> (res: bool)
    ensures
        res == path_eq(a@, b@),
{
    std::path::Path::new(a) == std::path::Path::new(b)
}

/// Whether `path` is one of `paths`, as paths compare.
pub open spec fn path_listed(paths: Seq<String>, path: Seq<char>) -> bool {
    exists|i: int| 0 <= i < paths.len() && path_eq(path, #[trigger] paths[i]@)
}

/// Whether `path` is one of `paths`, as paths compare.
fn contains_path(paths: &Vec<String>, path: &str) -> (res: bool)
    ensures
        res == path_listed(paths@, path@),
{
    let mut i: usize = 0;
    while i < paths.len()
        invariant
            i <= paths@.len(),
            forall|k: int| 0 <= k < i ==> !path_eq(path@, #[trigger] paths@[k]@),
        decreases paths@.len() - i,
    {
        if same_path(path, paths[i].as_str()) {
            return true;
        }
        i = i + 1;
    }
    false
}

// ---------------------------------------------------------------------------
// Conditions
// ---------------------------------------------------------------------------

/// The position of the first entry named `key`, if any.
pub open spec fn key_index<T>(entries: Seq<(String, T)>, key: Seq<char>) -> Option<int>
    decreases entries.len(),
{
    if entries.len() == 0 {
        None
    } else if entries.last().0@ == key && key_index(entries.drop_last(), key) is None {
        Some(entries.len() - 1)
    } else {
        key_index(entries.drop_last(), key)
    }
}

/// What `key_index` gives is the first entry named `key`.
proof fn lemma_key_index<T>(entries: Seq<(String, T)>, key: Seq<char>)
    ensures
        key_index(entries, key) matches Some(i) ==> 0 <= i < entries.len() && entries[i].0@ == key
            && forall|j: int| 0 <= j < i ==> entries[j].0@ != key,
        key_index(entries, key) is None ==> forall|j: int|
            0 <= j < entries.len() ==> entries[j].0@ != key,
    decreases entries.len(),
{
    if entries.len() > 0 {
        let d = entries.drop_last();
        lemma_key_index(d, key);
        assert forall|j: int| 0 <= j < d.len() implies d[j] == entries[j] by {}
    }
}

/// The position of the first entry named `key`.
fn find_key<T>(entries: &Vec<(String, T)>, key: &str) -> (res: Option<usize>)
    ensures
        res matches Some(i) ==> key_index(entries@, key@) == Some(i as int),
        res is None ==> key_index(entries@, key@) is None,
{
    proof {
        lemma_key_index(entries@, key@);
    }
    let mut i: usize = 0;
    while i < entries.len()
        invariant
            i <= entries@.len(),
            forall|j: int| 0 <= j < i ==> entries@[j].0@ != key@,
            key_index(entries@, key@) matches Some(k) ==> 0 <= k < entries@.len()
                && entries@[k].0@ == key@ && forall|j: int| 0 <= j < k ==> entries@[j].0@ != key@,
            key_index(entries@, key@) is None ==> forall|j: int|
                0 <= j < entries@.len() ==> entries@[j].0@ != key@,
        decreases entries@.len() - i,
    {
        if str_eq(entries[i].0.as_str(), key) {
            return Some(i);
        }
        i = i + 1;
    }
    None
}

/// Whether condition `c` holds of the variables: the variable is set, and it equals the
/// value to match or differs from the value not to match.
pub open spec fn condition_holds(c: RenderCondition, variables: Seq<(String, TemplateValue)>) -> bool {
    match key_index(variables, c.var@) {
        None => false,
        Some(i) => {
            ||| (c.match_value matches Some(m) && liquid_eq(m, variables[i].1))
            ||| (c.not_match matches Some(n) && !liquid_eq(n, variables[i].1))
        },
    }
}

/// Whether the condition on `path` in `conditions`, if there is one, holds.
pub open spec fn conditional(
    conditions: Seq<(String, RenderCondition)>,
    path: Seq<char>,
    variables: Seq<(String, TemplateValue)>,
) -> bool {
    match key_index(conditions, path) {
        Some(i) => condition_holds(conditions[i].1, variables),
        None => false,
    }
}

/// Whether the condition on `path` in `conditions`, if there is one, holds.
fn check_condition(
    conditions: &Vec<(String, RenderCondition)>,
    path: &str,
    variables: &Vec<(String, TemplateValue)>,
) -> (res: bool)
    ensures
        res == conditional(conditions@, path@, variables@),
{
    proof {
        lemma_key_index(conditions@, path@);
    }
    let c = match find_key(conditions, path) {
        None => {
            return false;
        },
        Some(i) => &conditions[i].1,
    };
    proof {
        lemma_key_index(variables@, c.var@);
    }
    let value = match find_key(variables, c.var.as_str()) {
        None => {
            return false;
        },
        Some(i) => &variables[i].1,
    };
    if let Some(m) = &c.match_value {
        if values_equal(m, value) {
            return true;
        }
    }
    if let Some(n) = &c.not_match {
        if !values_equal(n, value) {
            return true;
        }
    }
    false
}

/// Whether a file of a template is rendered: all files are, the file is listed, or its
/// condition holds.
pub open spec fn renders(
    relative: Seq<char>,
    render_files: Seq<String>,
    config: TemplateConfig,
    variables: Seq<(String, TemplateValue)>,
) -> bool {
    ||| config.render_all_files
    ||| path_listed(render_files, relative)
    ||| conditional(config.render_conditional_files@, relative, variables)
}

/// Whether the file at `relative` in a template is rendered with the template engine:
/// when the template renders all files, when `render_files` lists it, or when the
/// condition on it holds of the variables.
pub fn should_render_file(
    relative: &str,
    render_files: &Vec<String>,
    template_config: &TemplateConfig,
    variables: &Vec<(String, TemplateValue)>,
) -> (res: bool)
    ensures
        res == renders(relative@, render_files@, *template_config, variables@),
{
    if template_config.render_all_files {
        return true;
    }
    if contains_path(render_files, relative) {
        return true;
    }
    check_condition(&template_config.render_conditional_files, relative, variables)
}

/// Whether a file of a template is left out: the file is listed, or its condition holds.
pub open spec fn ignores(
    relative: Seq<char>,
    ignore_files: Seq<String>,
    config: TemplateConfig,
    variables: Seq<(String, TemplateValue)>,
) -> bool {
    ||| path_listed(ignore_files, relative)
    ||| conditional(config.ignore_conditional_files@, relative, variables)
}

/// Whether the file at `relative` in a template is left out of the new project: when
/// `ignore_files` lists it, or when the condition on it holds of the variables.
pub fn should_ignore_file(
    relative: &str,
    ignore_files: &Vec<String>,
    template_config: &TemplateConfig,
    variables: &Vec<(String, TemplateValue)>,
) -> (res: bool)
    ensures
        res == ignores(relative@, ignore_files@, *template_config, variables@),
{
    if contains_path(ignore_files, relative) {
        return true;
    }
    check_condition(&template_config.ignore_conditional_files, relative, variables)
}

// ---------------------------------------------------------------------------
// Prompts without interaction
// ---------------------------------------------------------------------------

/// The value that a prompt takes without interaction: its default, else the empty string.
pub open spec fn default_answer(p: TemplatePrompt) -> ValueView {
    match p.default {
        Some(PromptValue::Boolean(b)) => ValueView::Bool(b),
        Some(PromptValue::String(s)) => ValueView::Str(s@),
        None => ValueView::Str(Seq::empty()),
    }
}

impl TemplateConfig {
    /// The variables that the prompts give without interaction, in order: each prompt's
    /// name with its default value, or the empty string when it has none.
    pub fn default_template_options(&self) -> (res: Vec<(String, TemplateValue)>)
        ensures
            res@.len() == self.prompts@.len(),
            forall|i: int|
                0 <= i < res@.len() ==> #[trigger] res@[i].0@ == self.prompts@[i].0@ && res@[i].1@
                    == default_answer(self.prompts@[i].1),
    {
        let mut out: Vec<(String, TemplateValue)> = Vec::new();
        let mut i: usize = 0;
        while i < self.prompts.len()
            invariant
                i <= self.prompts@.len(),
                out@.len() == i,
                forall|k: int|
                    0 <= k < i ==> #[trigger] out@[k].0@ == self.prompts@[k].0@ && out@[k].1@
                        == default_answer(self.prompts@[k].1),
            decreases self.prompts@.len() - i,
        {
            let (name, prompt) = &self.prompts[i];
            let value = match &prompt.default {
                Some(PromptValue::Boolean(b)) => TemplateValue::Bool(*b),
                Some(PromptValue::String(s)) => TemplateValue::Str(s.clone()),
                None => TemplateValue::Str(String::new()),
            };
            out.push((name.clone(), value));
            i = i + 1;
        }
        out
    }
}

// ---------------------------------------------------------------------------
// Paths with variables
// ---------------------------------------------------------------------------

/// Whether `s` holds `{{`, then characters other than `/`, then `}}` (what the pattern
/// `\{\{[^/]*\}\}` finds).
pub open spec fn has_placeholder(s: Seq<char>) -> bool {
    exists|i: int, j: int|
        #![trigger s[i], s[j]]
        0 <= i && i + 2 <= j && j + 2 <= s.len() && s[i] == '{' && s[i + 1] == '{' && s[j] == '}'
            && s[j + 1] == '}' && forall|k: int| i + 2 <= k < j ==> s[k] != '/'
}

/// Whether `{{` at `i` is closed by a `}}` with no `/` in between.
pub open spec fn closed_from(s: Seq<char>, i: int) -> bool {
    exists|j: int|
        #![trigger s[j]]
        i + 2 <= j && j + 2 <= s.len() && s[j] == '}' && s[j + 1] == '}' && forall|k: int|
            i + 2 <= k < j ==> s[k] != '/'
}

/// Whether the `{{` at `i` of `v` is closed by a `}}` with no `/` in between.
fn closes(v: &Vec<char>, i: usize) -> (res: bool)
    requires
        i + 2 <= v.len(),
    ensures
        res == closed_from(v@, i as int),
{
    let mut j: usize = i + 2;
    while j < v.len() && v.len() - j >= 2
        invariant
            i + 2 <= j <= v@.len(),
            forall|k: int| i + 2 <= k < j ==> v@[k] != '/',
            forall|m: int|
                #![trigger v@[m]]
                i + 2 <= m < j && m + 2 <= v@.len() ==> !(v@[m] == '}' && v@[m + 1] == '}'),
        decreases v@.len() - j,
    {
        if v[j] == '}' && v[j + 1] == '}' {
            return true;
        }
        if v[j] == '/' {
            assert forall|m: int|
                #![trigger v@[m]]
                i + 2 <= m && m + 2 <= v@.len() && v@[m] == '}' && v@[m + 1] == '}' implies exists|
                k: int,
            | i + 2 <= k < m && v@[k] == '/' by {
                if m < j {
                } else if m == j {
                } else {
                    assert(v@[j as int] == '/');
                }
            }
            return false;
        }
        j = j + 1;
    }
    false
}

/// Whether `path` holds a `{{...}}` placeholder with no `/` inside.
pub fn path_has_placeholder(path: &str) -> (res: bool)
    ensures
        res == has_placeholder(path@),
{
    let v = crate::text::chars_of(path);
    let mut i: usize = 0;
    while i < v.len() && v.len() - i >= 2
        invariant
            v@ == path@,
            forall|m: int|
                #![trigger v@[m]]
                0 <= m < i && m + 2 <= v@.len() && v@[m] == '{' && v@[m + 1] == '{'
                    ==> !closed_from(v@, m),
        decreases v@.len() - i,
    {
        if v[i] == '{' && v[i + 1] == '{' {
            if closes(&v, i) {
                proof {
                    let j = choose|j: int|
                        #![trigger v@[j]]
                        i + 2 <= j && j + 2 <= v@.len() && v@[j] == '}' && v@[j + 1] == '}'
                            && forall|k: int| i + 2 <= k < j ==> v@[k] != '/';
                    assert(v@[i as int] == '{');
                }
                return true;
            }
        }
        i = i + 1;
    }
    proof {
        if has_placeholder(v@) {
            let (a, b) = choose|a: int, b: int|
                #![trigger v@[a], v@[b]]
                0 <= a && a + 2 <= b && b + 2 <= v@.len() && v@[a] == '{' && v@[a + 1] == '{'
                    && v@[b] == '}' && v@[b + 1] == '}' && forall|k: int|
                    a + 2 <= k < b ==> v@[k] != '/';
            assert(closed_from(v@, a));
            assert(v@[a] == '{');
        }
    }
    false
}

/// The variables taken by value.
pub open spec fn variables_view(variables: Seq<(String, TemplateValue)>) -> Seq<
    (Seq<char>, ValueView),
> {
    variables.map_values(|e: (String, TemplateValue)| (e.0@, e.1@))
}

/// `ParserBuilder::with_stdlib().build()`, `parse` and `render` of the liquid crate:
/// `template` rendered with the variables, each set to its value (nil, a boolean or a
/// string); `None` when a step fails. Nothing is stated of the text: the standard `date`
/// filter can read the clock (`now`, `today`), so it is not a function of the arguments.
#[verifier::external_body]
fn render_liquid(template: &str, variables: &Vec<(String, TemplateValue)>) -> Option<String> {
    let mut globals = liquid::Object::new();
    for (k, v) in variables {
        let value = match v {
            TemplateValue::Nil => liquid::model::Value::Nil,
            TemplateValue::Bool(b) => liquid::model::Value::scalar(*b),
            TemplateValue::Str(s) => liquid::model::Value::scalar(s.clone()),
        };
        globals.insert(k.clone().into(), value);
    }
    let parser = liquid::ParserBuilder::with_stdlib().build().ok()?;
    parser.parse(template).ok()?.render(&globals).ok()
}

/// The text of a template file rendered with the project's variables by the template
/// engine, as a new project's files to render are; `None` when the engine cannot parse or
/// render it. What the engine renders is not stated (its filters can read the clock).
pub fn render_template_text(text: &str, variables: &Vec<(String, TemplateValue)>) -> Option<
    String,
> {
    render_liquid(text, variables)
}

/// The path with its variables filled in by the template engine, when it holds a
/// `{{...}}` placeholder; `None` when it holds none or when the engine cannot render it.
/// What the engine renders is not stated (its filters can read the clock).
pub fn render_path_with_variables(path: &str, variables: &Vec<(String, TemplateValue)>) -> (res:
    Option<String>)
    ensures
        !has_placeholder(path@) ==> res is None,
{
    if !path_has_placeholder(path) {
        return None;
    }
    render_liquid(path, variables)
}

// ---------------------------------------------------------------------------
// Variables
// ---------------------------------------------------------------------------

/// The value of variable `k`, if it is set.
pub open spec fn var_lookup(vars: Seq<(String, TemplateValue)>, k: Seq<char>) -> Option<ValueView> {
    match key_index(vars, k) {
        Some(i) => Some(vars[i].1@),
        None => None,
    }
}

/// The value that the last entry named `k` gives, if any.
pub open spec fn view_lookup(vars: Seq<(Seq<char>, ValueView)>, k: Seq<char>) -> Option<ValueView>
    decreases vars.len(),
{
    if vars.len() == 0 {
        None
    } else if vars.last().0 == k {
        Some(vars.last().1)
    } else {
        view_lookup(vars.drop_last(), k)
    }
}

/// The value that the last entry named `k` gives, if any.
pub open spec fn last_lookup(vars: Seq<(String, TemplateValue)>, k: Seq<char>) -> Option<ValueView> {
    view_lookup(variables_view(vars), k)
}

/// The value of `k` as the last entry of `upper` sets it, else in `lower`: `upper` set
/// over `lower` in order.
pub open spec fn layered(
    lower: Seq<(String, TemplateValue)>,
    upper: Seq<(String, TemplateValue)>,
    k: Seq<char>,
) -> Option<ValueView> {
    match last_lookup(upper, k) {
        Some(v) => Some(v),
        None => var_lookup(lower, k),
    }
}

/// Lists with the same names in the same order find the same first position of a name.
proof fn lemma_key_index_names(a: Seq<(String, TemplateValue)>, b: Seq<(String, TemplateValue)>, k: Seq<char>)
    requires
        a.len() == b.len(),
        forall|i: int| 0 <= i < a.len() ==> #[trigger] a[i].0@ == b[i].0@,
    ensures
        key_index(a, k) == key_index(b, k),
    decreases a.len(),
{
    if a.len() > 0 {
        let (da, db) = (a.drop_last(), b.drop_last());
        assert forall|i: int| 0 <= i < da.len() implies #[trigger] da[i].0@ == db[i].0@ by {
            assert(da[i] == a[i] && db[i] == b[i]);
        }
        lemma_key_index_names(da, db, k);
        assert(a.last().0@ == b.last().0@);
    }
}

/// Sets variable `key` to `value`, in place when it is set, else at the end.
pub fn set_variable(vars: &mut Vec<(String, TemplateValue)>, key: String, value: TemplateValue)
    ensures
        forall|k: Seq<char>|
            #[trigger] var_lookup(final(vars)@, k) == if k == key@ {
                Some(value@)
            } else {
                var_lookup(old(vars)@, k)
            },
{
    let ghost kv = key@;
    let ghost vv = value@;
    let ghost before = vars@;
    proof {
        lemma_key_index(before, kv);
    }
    match find_key(vars, key.as_str()) {
        Some(i) => {
            assert(before[i as int].0@ == kv);
            vars.set(i, (key, value));
            assert(vars@[i as int].0@ == kv);
            assert(vars@[i as int].1@ == vv);
            assert forall|j: int| 0 <= j < vars@.len() implies #[trigger] vars@[j].0@
                == before[j].0@ by {
                if j != i {
                    assert(vars@[j] == before[j]);
                }
            }
            proof {
                assert forall|k: Seq<char>| #[trigger]
                    var_lookup(vars@, k) == if k == kv {
                        Some(vv)
                    } else {
                        var_lookup(before, k)
                    } by {
                    lemma_key_index_names(vars@, before, k);
                    if k != kv {
                        if let Some(m) = key_index(before, k) {
                            lemma_key_index(before, k);
                            assert(m != i);
                            assert(vars@[m] == before[m]);
                        }
                    }
                }
            }
        },
        None => {
            vars.push((key, value));
            proof {
                assert(vars@.drop_last() =~= before);
                assert(vars@.last().0@ == kv);
                assert(vars@.last().1@ == vv);
                lemma_key_index(before, kv);
                assert forall|k: Seq<char>| #[trigger]
                    var_lookup(vars@, k) == if k == kv {
                        Some(vv)
                    } else {
                        var_lookup(before, k)
                    } by {
                    if k != kv {
                        if let Some(m) = key_index(before, k) {
                            lemma_key_index(before, k);
                            assert(vars@[m] == before[m]);
                        }
                    }
                }
            }
        },
    }
}

/// Sets each variable of `other` in `vars`, in order.
pub fn extend_variables(vars: &mut Vec<(String, TemplateValue)>, other: &Vec<(String, TemplateValue)>)
    ensures
        forall|k: Seq<char>| #[trigger]
            var_lookup(final(vars)@, k) == layered(old(vars)@, other@, k),
{
    let ghost before = vars@;
    let mut i: usize = 0;
    while i < other.len()
        invariant
            i <= other@.len(),
            forall|k: Seq<char>| #[trigger]
                var_lookup(vars@, k) == layered(before, other@.take(i as int), k),
        decreases other@.len() - i,
    {
        let (k, v) = &other[i];
        let ghost prev = vars@;
        set_variable(vars, k.clone(), v.copy());
        proof {
            let t = other@.take(i + 1);
            assert(t.drop_last() =~= other@.take(i as int));
            assert(t.last() == other@[i as int]);
            assert(variables_view(t).drop_last() =~= variables_view(other@.take(i as int)));
            assert forall|q: Seq<char>| #[trigger]
                var_lookup(vars@, q) == layered(before, t, q) by {
                assert(var_lookup(prev, q) == layered(before, other@.take(i as int), q));
            }
        }
        i = i + 1;
    }
    assert(other@.take(i as int) =~= other@);
}

/// The key and value of a `KEY=VALUE` render variable: the text before the first `=`
/// and the text after it.
pub open spec fn render_entry(line: Seq<char>) -> Option<(Seq<char>, Seq<char>)> {
    crate::text::split_once_spec(line, '=')
}

/// The value that the last of `lines` setting `k` gives it, if any does.
pub open spec fn last_render(lines: Seq<String>, k: Seq<char>) -> Option<ValueView>
    decreases lines.len(),
{
    if lines.len() == 0 {
        None
    } else {
        match render_entry(lines.last()@) {
            Some((key, value)) => if key == k {
                Some(ValueView::Str(value))
            } else {
                last_render(lines.drop_last(), k)
            },
            None => last_render(lines.drop_last(), k),
        }
    }
}

/// Sets the `KEY=VALUE` variables of `lines` in `vars`, in order; lines without `=` are
/// skipped.
pub fn set_render_variables(vars: &mut Vec<(String, TemplateValue)>, lines: &Vec<String>)
    ensures
        forall|k: Seq<char>| #[trigger]
            var_lookup(final(vars)@, k) == match last_render(lines@, k) {
                Some(v) => Some(v),
                None => var_lookup(old(vars)@, k),
            },
{
    let ghost before = vars@;
    let mut i: usize = 0;
    while i < lines.len()
        invariant
            i <= lines@.len(),
            forall|k: Seq<char>| #[trigger]
                var_lookup(vars@, k) == match last_render(lines@.take(i as int), k) {
                    Some(v) => Some(v),
                    None => var_lookup(before, k),
                },
        decreases lines@.len() - i,
    {
        let ghost prev = vars@;
        let chars = crate::text::chars_of(lines[i].as_str());
        proof {
            let t = lines@.take(i + 1);
            assert(t.drop_last() =~= lines@.take(i as int));
            assert(t.last() == lines@[i as int]);
        }
        match crate::text::split_once_chars(chars.as_slice(), '=') {
            Some((k, v)) => {
                let key = crate::text::string_of(k.as_slice());
                let value = crate::text::string_of(v.as_slice());
                set_variable(vars, key, TemplateValue::Str(value));
            },
            None => {},
        }
        proof {
            let t = lines@.take(i + 1);
            assert forall|q: Seq<char>| #[trigger]
                var_lookup(vars@, q) == match last_render(t, q) {
                    Some(v) => Some(v),
                    None => var_lookup(before, q),
                } by {
                assert(var_lookup(prev, q) == match last_render(lines@.take(i as int), q) {
                    Some(v) => Some(v),
                    None => var_lookup(before, q),
                });
            }
        }
        i = i + 1;
    }
    assert(lines@.take(i as int) =~= lines@);
}

/// The variables given as `KEY=VALUE` flags: each key with the value of the last flag
/// that sets it; flags without `=` are skipped.
pub fn render_variables(render_var: &Option<Vec<String>>) -> (res: Vec<(String, TemplateValue)>)
    ensures
        forall|k: Seq<char>| #[trigger]
            var_lookup(res@, k) == match render_var {
                Some(lines) => last_render(lines@, k),
                None => None,
            },
{
    let mut vars: Vec<(String, TemplateValue)> = Vec::new();
    if let Some(lines) = render_var {
        set_render_variables(&mut vars, lines);
    }
    vars
}

// ---------------------------------------------------------------------------
// What becomes of each entry of a template
// ---------------------------------------------------------------------------

/// What creating a project does with an entry of its template.
#[derive(Debug, Clone, Copy, PartialEq, Eq, Structural)]
pub enum FileAction {
    /// A directory: it is created.
    CreateDir,
    /// Left out of the project.
    Skip,
    /// Rendered by the template engine into the target path.
    Render,
    /// Copied as it is to the target path.
    Copy,
}

/// Whether the name is `src`.
pub open spec fn is_src(parent: Option<Seq<char>>) -> bool {
    parent == Some("src"@)
}

/// What creating a project does with a template entry named `name` at `relative` in the
/// template, whose target path has the parent directory `target_parent`: directories are
/// created, but for `.git`; the template's own zip file and ignored files are left out;
/// `Cargo.toml`, `README.md`, `src/main.rs`, `src/lib.rs`, files in a `bin` directory and
/// files to render are rendered; the others are copied.
pub open spec fn file_action_of(
    name: Seq<char>,
    is_dir: bool,
    relative: Seq<char>,
    target_parent: Option<Seq<char>>,
    render_files: Seq<String>,
    ignore_files: Seq<String>,
    config: TemplateConfig,
    variables: Seq<(String, TemplateValue)>,
) -> FileAction {
    if is_dir {
        if name == ".git"@ {
            FileAction::Skip
        } else {
            FileAction::CreateDir
        }
    } else if name == "cargo-lambda-template.zip"@ {
        FileAction::Skip
    } else if ignores(relative, ignore_files, config, variables) {
        FileAction::Skip
    } else if name == "Cargo.toml"@ || name == "README.md"@ || (name == "main.rs"@ && is_src(
        target_parent,
    )) || (name == "lib.rs"@ && is_src(target_parent)) || target_parent == Some("bin"@) || renders(
        relative,
        render_files,
        config,
        variables,
    ) {
        FileAction::Render
    } else {
        FileAction::Copy
    }
}

/// Whether an optional name is `name`.
fn opt_is(o: Option<&str>, name: &str) -> (res: bool)
    ensures
        res == (match o {
            Some(s) => Some(s@),
            None => None,
        } == Some(name@)),
{
    match o {
        Some(s) => crate::text::str_eq(s, name),
        None => false,
    }
}

/// What creating a project does with a template entry (see `file_action_of`).
pub fn file_action(
    name: &str,
    is_dir: bool,
    relative: &str,
    target_parent: Option<&str>,
    render_files: &Vec<String>,
    ignore_files: &Vec<String>,
    config: &TemplateConfig,
    variables: &Vec<(String, TemplateValue)>,
) -> (res: FileAction)
    ensures
        res == file_action_of(
            name@,
            is_dir,
            relative@,
            match target_parent {
                Some(p) => Some(p@),
                None => None,
            },
            render_files@,
            ignore_files@,
            *config,
            variables@,
        ),
{
    if is_dir {
        if crate::text::str_eq(name, ".git") {
            return FileAction::Skip;
        }
        return FileAction::CreateDir;
    }
    if crate::text::str_eq(name, "cargo-lambda-template.zip") {
        return FileAction::Skip;
    }
    if should_ignore_file(relative, ignore_files, config, variables) {
        return FileAction::Skip;
    }
    if crate::text::str_eq(name, "Cargo.toml") || crate::text::str_eq(name, "README.md")
        || (crate::text::str_eq(name, "main.rs") && opt_is(target_parent, "src"))
        || (crate::text::str_eq(name, "lib.rs") && opt_is(target_parent, "src")) || opt_is(
        target_parent,
        "bin",
    ) || should_render_file(relative, render_files, config, variables) {
        FileAction::Render
    } else {
        FileAction::Copy
    }
}

/// A file of a template that is neither ignored nor the template's own archive is rendered
/// when it is `Cargo.toml` or `README.md`, `main.rs` or `lib.rs` under `src`, or any file
/// under `bin`; a directory is created unless it is `.git`.
pub proof fn law_template_files_rendered(
    name: Seq<char>,
    is_dir: bool,
    relative: Seq<char>,
    target_parent: Option<Seq<char>>,
    render_files: Seq<String>,
    ignore_files: Seq<String>,
    config: TemplateConfig,
    variables: Seq<(String, TemplateValue)>,
)
    ensures
        !is_dir && name != "cargo-lambda-template.zip"@ && !ignores(
            relative,
            ignore_files,
            config,
            variables,
        ) && (name == "Cargo.toml"@ || name == "README.md"@ || ((name == "main.rs"@ || name
            == "lib.rs"@) && target_parent == Some("src"@)) || target_parent == Some("bin"@))
            ==> file_action_of(
            name,
            is_dir,
            relative,
            target_parent,
            render_files,
            ignore_files,
            config,
            variables,
        ) == FileAction::Render,
        is_dir && name != ".git"@ ==> file_action_of(
            name,
            is_dir,
            relative,
            target_parent,
            render_files,
            ignore_files,
            config,
            variables,
        ) == FileAction::CreateDir,
{
}

} // verus!
