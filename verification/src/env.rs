//! Environment variables for a function: `KEY=VALUE` flags over a base environment.
use vstd::prelude::*;
use crate::error::MetadataError;
use crate::remote::{flag, flag_count};
use crate::strmap::{map_of, pairs_view, StringMap};
use crate::text::{split_once_spec, trim, views};

verus! {

/// The key and value of a `KEY=VALUE` line: the line is trimmed, split at its first `=`,
/// and both sides trimmed; neither may be empty.
pub open spec fn var_parts(line: Seq<char>) -> Option<(Seq<char>, Seq<char>)> {
    match split_once_spec(trim(line), '=') {
        None => None,
        Some(parts) => {
            let (k, v) = parts;
            if trim(k).len() == 0 || trim(v).len() == 0 {
                None
            } else {
                Some((trim(k), trim(v)))
            }
        },
    }
}

/// `m` with the variables of `lines` set in order, or the first line that is not a variable.
pub open spec fn with_vars(m: Map<Seq<char>, Seq<char>>, lines: Seq<Seq<char>>) -> Result<
    Map<Seq<char>, Seq<char>>,
    Seq<char>,
>
    decreases lines.len(),
{
    if lines.len() == 0 {
        Ok(m)
    } else {
        match with_vars(m, lines.drop_last()) {
            Err(bad) => Err(bad),
            Ok(m2) => match var_parts(lines.last()) {
                None => Err(lines.last()),
                Some(kv) => Ok(m2.insert(kv.0, kv.1)),
            },
        }
    }
}

/// The value that the last of `lines` setting `k` gives it, if any does.
pub open spec fn last_value(lines: Seq<Seq<char>>, k: Seq<char>) -> Option<Seq<char>>
    decreases lines.len(),
{
    if lines.len() == 0 {
        None
    } else {
        match var_parts(lines.last()) {
            Some((key, value)) => if key == k {
                Some(value)
            } else {
                last_value(lines.drop_last(), k)
            },
            None => last_value(lines.drop_last(), k),
        }
    }
}

/// Setting the variables of `lines` over `m` gives each key the value of the last line
/// that sets it, and leaves the other keys of `m` as they were.
proof fn lemma_with_vars_value(m: Map<Seq<char>, Seq<char>>, lines: Seq<Seq<char>>, k: Seq<char>)
    requires
        with_vars(m, lines) is Ok,
    ensures
        match last_value(lines, k) {
            Some(v) => with_vars(m, lines)->Ok_0.dom().contains(k) && with_vars(m, lines)->Ok_0[k] == v,
            None => (with_vars(m, lines)->Ok_0.dom().contains(k) == m.dom().contains(k)) && (
            m.dom().contains(k) ==> with_vars(m, lines)->Ok_0[k] == m[k]),
        },
    decreases lines.len(),
{
    if lines.len() > 0 {
        lemma_with_vars_value(m, lines.drop_last(), k);
    }
}

/// A function's environment: a variable given as a flag has the value of the last flag
/// that sets it; otherwise one in the environment file has the file's value; otherwise
/// one in the base environment keeps its value; no other variable is set.
pub proof fn law_environment_precedence(
    base: Map<Seq<char>, Seq<char>>,
    file: Map<Seq<char>, Seq<char>>,
    flags: Seq<Seq<char>>,
    k: Seq<char>,
)
    requires
        environment(base, file, Some(flags)) is Ok,
    ensures
        ({
            let env = environment(base, file, Some(flags))->Ok_0;
            match last_value(flags, k) {
                Some(v) => env.dom().contains(k) && env[k] == v,
                None => if file.dom().contains(k) {
                    env.dom().contains(k) && env[k] == file[k]
                } else if base.dom().contains(k) {
                    env.dom().contains(k) && env[k] == base[k]
                } else {
                    !env.dom().contains(k)
                },
            }
        }),
{
    lemma_with_vars_value(base.union_prefer_right(file), flags, k);
}

/// The map of an optional map, empty when there is none.
pub open spec fn map_or_empty(m: Option<&StringMap>) -> Map<Seq<char>, Seq<char>> {
    match m {
        Some(m) => m@,
        None => Map::empty(),
    }
}

/// The environment of a function: the base, then the variables of its environment file,
/// then its `KEY=VALUE` flags, each later one winning; or the first flag that is not a variable.
pub open spec fn environment(
    base: Map<Seq<char>, Seq<char>>,
    file: Map<Seq<char>, Seq<char>>,
    flags: Option<Seq<Seq<char>>>,
) -> Result<Map<Seq<char>, Seq<char>>, Seq<char>> {
    let start = base.union_prefer_right(file);
    match flags {
        None => Ok(start),
        Some(lines) => with_vars(start, lines),
    }
}

/// Splits a `KEY=VALUE` line into its trimmed key and value.
pub fn extract_var(line: &str) -> (res: Result<(String, String), MetadataError>)
    ensures
        match res {
            Ok((k, v)) => var_parts(line@) == Some((k@, v@)),
            Err(e) => {
                &&& var_parts(line@) is None
                &&& e matches MetadataError::InvalidEnvVar(s) && s@ == line@
            },
        },
{
    let chars = crate::text::chars_of(line);
    let t = crate::text::trim_chars(chars.as_slice());
    match crate::text::split_once_chars(t.as_slice(), '=') {
        None => Err(MetadataError::InvalidEnvVar(crate::text::owned(line))),
        Some((k, v)) => {
            let k = crate::text::trim_chars(k.as_slice());
            let v = crate::text::trim_chars(v.as_slice());
            if k.len() == 0 || v.len() == 0 {
                Err(MetadataError::InvalidEnvVar(crate::text::owned(line)))
            } else {
                Ok((crate::text::string_of(k.as_slice()), crate::text::string_of(v.as_slice())))
            }
        },
    }
}

/// Sets the variables of `lines` in `env`, in order.
fn apply_vars(env: &mut StringMap, lines: &Vec<String>) -> (res: Result<(), MetadataError>)
    ensures
        match res {
            Ok(()) => with_vars(old(env)@, views(lines@)) == Ok::<
                Map<Seq<char>, Seq<char>>,
                Seq<char>,
            >(final(env)@),
            Err(e) => with_vars(old(env)@, views(lines@)) matches Err(bad) && (e matches MetadataError::InvalidEnvVar(s)
                && s@ == bad),
        },
{
    let ghost ls = views(lines@);
    let mut i: usize = 0;
    while i < lines.len()
        invariant
            i <= lines@.len(),
            ls == views(lines@),
            with_vars(old(env)@, ls.take(i as int)) == Ok::<
                Map<Seq<char>, Seq<char>>,
                Seq<char>,
            >(env@),
        decreases lines@.len() - i,
    {
        assert(ls.take(i + 1).drop_last() =~= ls.take(i as int));
        assert(ls.take(i + 1).last() == lines@[i as int]@);
        match extract_var(lines[i].as_str()) {
            Ok((k, v)) => {
                env.insert(k, v);
            },
            Err(e) => {
                proof {
                    lemma_with_vars_err_stays(old(env)@, ls, i + 1);
                    assert(ls.take(ls.len() as int) =~= ls);
                }
                return Err(e);
            },
        }
        i = i + 1;
    }
    assert(ls.take(ls.len() as int) =~= ls);
    Ok(())
}

/// Once a line fails, the lines after it do not matter.
proof fn lemma_with_vars_err_stays(m: Map<Seq<char>, Seq<char>>, lines: Seq<Seq<char>>, k: int)
    requires
        0 <= k <= lines.len(),
        with_vars(m, lines.take(k)) is Err,
    ensures
        with_vars(m, lines.take(lines.len() as int)) == with_vars(m, lines.take(k)),
    decreases lines.len() - k,
{
    if k < lines.len() {
        assert(lines.take(k + 1).drop_last() =~= lines.take(k));
        lemma_with_vars_err_stays(m, lines, k + 1);
    }
}

/// The environment of a function from a base environment, the variables read from its
/// environment file, and its `KEY=VALUE` flags; later sources win.
pub fn lambda_environment(
    base: Option<&StringMap>,
    file_vars: Option<&StringMap>,
    vars: Option<&Vec<String>>,
) -> (res: Result<StringMap, MetadataError>)
    ensures
        match res {
            Ok(env) => environment(
                map_or_empty(base),
                map_or_empty(file_vars),
                match vars {
                    Some(v) => Some(views(v@)),
                    None => None,
                },
            ) == Ok::<Map<Seq<char>, Seq<char>>, Seq<char>>(env@),
            Err(e) => environment(
                map_or_empty(base),
                map_or_empty(file_vars),
                match vars {
                    Some(v) => Some(views(v@)),
                    None => None,
                },
            ) matches Err(bad) && (e matches MetadataError::InvalidEnvVar(s) && s@ == bad),
        },
{
    let mut env = StringMap::new();
    if let Some(b) = base {
        env.extend(b);
    }
    if let Some(f) = file_vars {
        env.extend(f);
    }
    assert(env@ =~= map_or_empty(base).union_prefer_right(map_or_empty(file_vars)));
    if let Some(lines) = vars {
        match apply_vars(&mut env, lines) {
            Ok(()) => {},
            Err(e) => {
                return Err(e);
            },
        }
    }
    Ok(env)
}

/// What `env_file_reader::read_str` gives for the text of an environment file: its
/// variables, or `None` when the text is not in the format of such a file.
pub uninterp spec fn env_file_vars(text: Seq<char>) -> Option<Map<Seq<char>, Seq<char>>>;

/// `env_file_reader::read_str`: the variables of an environment file's text, as pairs in
/// the order in which its hash map hands them out (unspecified; each key once), or the
/// message of the error when the text is not in the format of such a file.
#[verifier::external_body]
fn read_env_str(text: &str) -> (res: Result<Vec<(String, String)>, String>)
    ensures
        res matches Ok(v) ==> env_file_vars(text@) == Some(map_of(pairs_view(v@))),
        res is Err ==> env_file_vars(text@) is None,
{
    match env_file_reader::read_str(text) {
        Ok(vars) => Ok(vars.into_iter().collect()),
        Err(e) => Err(e.to_string()),
    }
}

/// The variables of the environment file at `path`, read from its text; a text that is not
/// an environment file is refused, with the path and the reason.
pub fn read_env_file(path: &str, text: &str) -> (res: Result<StringMap, MetadataError>)
    ensures
        match res {
            Ok(m) => env_file_vars(text@) == Some(m@),
            Err(e) => env_file_vars(text@) is None && (e matches MetadataError::InvalidEnvFile(p, _)
                && p@ == path@),
        },
{
    match read_env_str(text) {
        Ok(v) => Ok(StringMap::from_entries(v)),
        Err(reason) => Err(MetadataError::InvalidEnvFile(crate::text::owned(path), reason)),
    }
}

/// Options that add environment variables to a function.
#[derive(Debug, Clone)]
pub struct EnvOptions {
    /// `KEY=VALUE` variables.
    pub env_var: Option<Vec<String>>,
    /// A file with one `KEY=VALUE` variable per line.
    pub env_file: Option<String>,
}

impl EnvOptions {
    /// No options.
    pub fn new() -> (res: EnvOptions)
        ensures
            res.env_var is None,
            res.env_file is None,
    {
        EnvOptions { env_var: None, env_file: None }
    }

    /// The environment over `base`, given the variables read from `env_file` when it is a file.
    pub fn lambda_environment(&self, base: &StringMap, file_vars: Option<&StringMap>) -> (res:
        Result<StringMap, MetadataError>)
        ensures
            match res {
                Ok(env) => environment(
                    base@,
                    map_or_empty(file_vars),
                    match self.env_var {
                        Some(v) => Some(views(v@)),
                        None => None,
                    },
                ) == Ok::<Map<Seq<char>, Seq<char>>, Seq<char>>(env@),
                Err(e) => environment(
                    base@,
                    map_or_empty(file_vars),
                    match self.env_var {
                        Some(v) => Some(views(v@)),
                        None => None,
                    },
                ) matches Err(bad) && (e matches MetadataError::InvalidEnvVar(s) && s@ == bad),
            },
    {
        lambda_environment(Some(base), file_vars, self.env_var.as_ref())
    }

    /// How many of the options are set.
    pub fn count_fields(&self) -> (res: usize)
        ensures
            res == flag(self.env_var is Some) + flag(self.env_file is Some),
            res <= 2,
    {
        flag_count(self.env_var.is_some()) + flag_count(self.env_file.is_some())
    }
}

/// Why an environment variable could not be read.
#[derive(Debug, Clone, Copy, PartialEq, Eq)]
pub enum VarError {
    /// The variable is not set.
    NotPresent,
    /// The variable's value is not valid Unicode.
    NotUnicode,
}

/// A source of environment variables.
pub trait EnvVarExtractor {
    /// The value of the variable `name`.
    fn var(&self, name: &str) -> Result<String, VarError>;
}

/// Environment variables held in a map.
pub struct HashMapEnvExtractor {
    env: StringMap,
}

impl HashMapEnvExtractor {
    /// The variables of the given pairs; a later pair for a name wins.
    pub fn from_pairs(env: Vec<(&str, &str)>) -> (res: HashMapEnvExtractor)
        ensures
            res.vars() == crate::strmap::map_of(
                env@.map_values(|p: (&str, &str)| (p.0@, p.1@)),
            ),
    {
        HashMapEnvExtractor { env: StringMap::from_pairs(env.as_slice()) }
    }

    /// The variables.
    pub closed spec fn vars(&self) -> Map<Seq<char>, Seq<char>> {
        self.env@
    }
}

impl EnvVarExtractor for HashMapEnvExtractor {
    fn var(&self, name: &str) -> (res: Result<String, VarError>)
        ensures
            match res {
                Ok(v) => self.vars().dom().contains(name@) && self.vars()[name@] == v@,
                Err(e) => !self.vars().dom().contains(name@) && e == VarError::NotPresent,
            },
    {
        match self.env.get(name) {
            Some(v) => Ok(v.clone()),
            None => Err(VarError::NotPresent),
        }
    }
}

} // verus!
