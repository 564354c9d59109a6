//! Recognises the Git repository URLs that templates can be fetched from.
//!
//! Three forms are accepted, each anywhere in the text and running to its end:
//! - `https://HOST/OWNER/NAME`, optionally followed by `/`, or by `/branch/REF`,
//!   `/tag/REF` or `/tree/REF`, or by `branch/REF`, `tag/REF` or `tree/REF` with the
//!   keyword taken from the end of `NAME`;
//! - `ssh://HOST/OWNER/NAME`, optionally followed by `.git`;
//! - `git@HOST:OWNER/NAME`, optionally followed by `.git`.
//!
//! `HOST` is made of ASCII letters, digits, `.` and `-`; `OWNER` and `NAME` are made of
//! ASCII letters, digits, `_` and `-`, start with a letter or digit and have at least two
//! characters; `REF` is any non-empty text without a line break. When the text holds
//! several candidates, the first position where one starts is taken, and there the
//! longest `NAME` that leaves a valid rest.
use vstd::prelude::*;
use crate::text::{chars_occur_at, occurs_at, string_of, sub_chars};

verus! {

/// An ASCII letter or digit.
pub open spec fn is_alnum(c: char) -> bool {
    ('a' <= c <= 'z') || ('A' <= c <= 'Z') || ('0' <= c <= '9')
}

/// A character of a host name: ASCII letters, digits, `.` and `-`.
pub open spec fn is_host_char(c: char) -> bool {
    is_alnum(c) || c == '.' || c == '-'
}

/// A character of an owner or repository name: ASCII letters, digits, `_` and `-`.
pub open spec fn is_name_char(c: char) -> bool {
    is_alnum(c) || c == '_' || c == '-'
}

/// The end of the run of host characters that starts at `p`.
pub open spec fn host_end(s: Seq<char>, p: int) -> int
    decreases s.len() - p,
{
    if 0 <= p < s.len() && is_host_char(s[p]) {
        host_end(s, p + 1)
    } else {
        p
    }
}

/// The end of the run of name characters that starts at `p`.
pub open spec fn name_end(s: Seq<char>, p: int) -> int
    decreases s.len() - p,
{
    if 0 <= p < s.len() && is_name_char(s[p]) {
        name_end(s, p + 1)
    } else {
        p
    }
}

/// `s[a..b]` is a valid owner or repository name (its characters being name characters).
pub open spec fn valid_name(s: Seq<char>, a: int, b: int) -> bool {
    b - a >= 2 && 0 <= a < s.len() && is_alnum(s[a])
}

/// Whether the character sequence `t` holds a line break.
pub open spec fn has_newline(t: Seq<char>) -> bool {
    exists|i: int| 0 <= i < t.len() && t[i] == '\n'
}

/// The reference that `t` names when it reads `branch/REF`, `tag/REF` or `tree/REF`.
pub open spec fn ref_after_keyword(t: Seq<char>) -> Option<Seq<char>> {
    let branch = seq!['b', 'r', 'a', 'n', 'c', 'h', '/'];
    let tag = seq!['t', 'a', 'g', '/'];
    let tree = seq!['t', 'r', 'e', 'e', '/'];
    let r = if occurs_at(t, branch, 0) {
        Some(t.skip(7))
    } else if occurs_at(t, tag, 0) {
        Some(t.skip(4))
    } else if occurs_at(t, tree, 0) {
        Some(t.skip(5))
    } else {
        None
    };
    match r {
        Some(r) => if r.len() > 0 && !has_newline(r) {
            Some(r)
        } else {
            None
        },
        None => None,
    }
}

/// The start of a keyword (`tag`, `tree` or `branch`, tried in that order) that ends the
/// name `s[b0..b1]` and leaves at least two characters of it, when the name is followed by
/// `/` and a valid reference.
pub open spec fn keyword_start(s: Seq<char>, b0: int, b1: int) -> Option<int> {
    let tag = seq!['t', 'a', 'g'];
    let tree = seq!['t', 'r', 'e', 'e'];
    let branch = seq!['b', 'r', 'a', 'n', 'c', 'h'];
    if b1 - 3 - b0 >= 2 && occurs_at(s, tag, b1 - 3) {
        Some(b1 - 3)
    } else if b1 - 4 - b0 >= 2 && occurs_at(s, tree, b1 - 4) {
        Some(b1 - 4)
    } else if b1 - 6 - b0 >= 2 && occurs_at(s, branch, b1 - 6) {
        Some(b1 - 6)
    } else {
        None
    }
}

/// A repository found in a URL: host, `OWNER/NAME` and the raw reference.
pub type RawRepo = (Seq<char>, Seq<char>, Option<Seq<char>>);

/// The repository of an `https://` URL that starts at position `i` and runs to the end.
pub open spec fn http_at(s: Seq<char>, i: int) -> Option<RawRepo> {
    let scheme = seq!['h', 't', 't', 'p', 's', ':', '/', '/'];
    let h0 = i + 8;
    let h1 = host_end(s, h0);
    let a0 = h1 + 1;
    let a1 = name_end(s, a0);
    let b0 = a1 + 1;
    let b1 = name_end(s, b0);
    if !occurs_at(s, scheme, i) || h1 == h0 || h1 >= s.len() || s[h1] != '/' || !valid_name(
        s,
        a0,
        a1,
    ) || a1 >= s.len() || s[a1] != '/' || !valid_name(s, b0, b1) {
        None
    } else {
        let host = s.subrange(h0, h1);
        let rest = s.skip(b1);
        if rest.len() == 0 {
            Some((host, s.subrange(a0, b1), None))
        } else if rest[0] == '/' && ref_after_keyword(rest.skip(1)) is Some {
            Some((host, s.subrange(a0, b1), ref_after_keyword(rest.skip(1))))
        } else if rest.len() == 1 && rest[0] == '/' {
            Some((host, s.subrange(a0, b1), None))
        } else {
            match keyword_start(s, b0, b1) {
                Some(k) => if s[b1] == '/' && ref_after_keyword(s.skip(k)) is Some {
                    Some((host, s.subrange(a0, k), ref_after_keyword(s.skip(k))))
                } else {
                    None
                },
                None => None,
            }
        }
    }
}

/// The repository of a URL with the given scheme (`ssh://` or `git@`) and separator after
/// the host, starting at position `i` and running to the end, with an optional `.git`.
pub open spec fn ssh_like_at(s: Seq<char>, i: int, scheme: Seq<char>, sep: char) -> Option<
    RawRepo,
> {
    let h0 = i + scheme.len();
    let h1 = host_end(s, h0);
    let a0 = h1 + 1;
    let a1 = name_end(s, a0);
    let b0 = a1 + 1;
    let b1 = name_end(s, b0);
    if !occurs_at(s, scheme, i) || h1 == h0 || h1 >= s.len() || s[h1] != sep || !valid_name(
        s,
        a0,
        a1,
    ) || a1 >= s.len() || s[a1] != '/' || !valid_name(s, b0, b1) {
        None
    } else {
        let rest = s.skip(b1);
        if rest.len() == 0 || rest == seq!['.', 'g', 'i', 't'] {
            Some((s.subrange(h0, h1), s.subrange(a0, b1), None))
        } else {
            None
        }
    }
}

/// The `ssh://` scheme.
pub open spec fn ssh_scheme() -> Seq<char> {
    seq!['s', 's', 'h', ':', '/', '/']
}

/// The `git@` prefix.
pub open spec fn git_scheme() -> Seq<char> {
    seq!['g', 'i', 't', '@']
}

/// Which form a search looks for.
pub enum UrlForm {
    Https,
    Ssh,
    GitAt,
}

/// The repository of the given form that starts at `i`.
pub open spec fn form_at(s: Seq<char>, i: int, form: UrlForm) -> Option<RawRepo> {
    match form {
        UrlForm::Https => http_at(s, i),
        UrlForm::Ssh => ssh_like_at(s, i, ssh_scheme(), '/'),
        UrlForm::GitAt => ssh_like_at(s, i, git_scheme(), ':'),
    }
}

/// The repository of the given form at the first position from `i` on where one starts.
pub open spec fn first_from(s: Seq<char>, i: int, form: UrlForm) -> Option<RawRepo>
    decreases s.len() + 1 - i,
{
    if i < 0 || i > s.len() {
        None
    } else if form_at(s, i, form) is Some {
        form_at(s, i, form)
    } else {
        first_from(s, i + 1, form)
    }
}

/// A reference with its trailing slashes removed.
pub open spec fn trim_end_slashes(r: Seq<char>) -> Seq<char>
    decreases r.len(),
{
    if r.len() > 0 && r.last() == '/' {
        trim_end_slashes(r.drop_last())
    } else {
        r
    }
}

/// A reference as a branch name: trailing slashes removed, the others made `-`.
pub open spec fn ref_name(r: Seq<char>) -> Seq<char> {
    trim_end_slashes(r).map_values(|c: char| if c == '/' {
        '-'
    } else {
        c
    })
}

/// How a repository is cloned.
#[derive(Clone, Copy, Debug, PartialEq, Eq, Structural)]
pub enum GitProtocol {
    Http,
    Ssh,
}

/// A Git repository that a template comes from.
#[derive(Debug)]
pub struct GitRepo {
    pub host: String,
    pub repo: String,
    pub reference: Option<String>,
    pub auth_user: Option<String>,
    pub protocol: GitProtocol,
}

/// The scheme of a protocol, as written in a URL.
pub open spec fn protocol_scheme(p: GitProtocol) -> Seq<char> {
    match p {
        GitProtocol::Http => seq!['h', 't', 't', 'p', 's'],
        GitProtocol::Ssh => seq!['s', 's', 'h'],
    }
}

impl GitProtocol {
    /// The scheme of the protocol, as `Display` writes it.
    pub fn to_string(&self) -> (res: String)
        ensures
            res@ == protocol_scheme(*self),
    {
        match self {
            GitProtocol::Http => {
                let s = "https";
                proof {
                    reveal_strlit("https");
                }
                assert(s@ =~= protocol_scheme(GitProtocol::Http));
                crate::text::owned(s)
            },
            GitProtocol::Ssh => {
                let s = "ssh";
                proof {
                    reveal_strlit("ssh");
                }
                assert(s@ =~= protocol_scheme(GitProtocol::Ssh));
                crate::text::owned(s)
            },
        }
    }
}

impl GitRepo {
    /// The URL that the repository is cloned from: `PROTOCOL://HOST/REPO`.
    pub fn to_url(&self) -> (res: String)
        ensures
            res@ == protocol_scheme(self.protocol) + seq![':', '/', '/'] + self.host@ + seq!['/']
                + self.repo@,
    {
        let mut out = crate::text::chars_of(self.protocol.to_string().as_str());
        out.push(':');
        out.push('/');
        out.push('/');
        let h = crate::text::chars_of(self.host.as_str());
        crate::text::extend_chars(&mut out, h.as_slice());
        out.push('/');
        let r = crate::text::chars_of(self.repo.as_str());
        crate::text::extend_chars(&mut out, r.as_slice());
        let res = string_of(out.as_slice());
        assert(res@ =~= protocol_scheme(self.protocol) + seq![':', '/', '/'] + self.host@ + seq![
            '/'] + self.repo@);
        res
    }
}

// ---------------------------------------------------------------------------
// Executable matching
// ---------------------------------------------------------------------------

/// Whether `c` is an ASCII letter or digit.
fn alnum(c: char) -> (res: bool)
    ensures
        res == is_alnum(c),
{
    ('a' <= c && c <= 'z') || ('A' <= c && c <= 'Z') || ('0' <= c && c <= '9')
}

/// Whether `c` is a host character (`host`) or a name character.
fn in_run(c: char, host: bool) -> (res: bool)
    ensures
        host ==> res == is_host_char(c),
        !host ==> res == is_name_char(c),
{
    if host {
        alnum(c) || c == '.' || c == '-'
    } else {
        alnum(c) || c == '_' || c == '-'
    }
}

/// The end of the run of host characters (`host`) or name characters from `p`.
fn run_end(v: &[char], p: usize, host: bool) -> (res: usize)
    requires
        p <= v@.len(),
    ensures
        host ==> res == host_end(v@, p as int),
        !host ==> res == name_end(v@, p as int),
        p <= res <= v@.len(),
{
    let mut i = p;
    while i < v.len() && in_run(v[i], host)
        invariant
            p <= i <= v@.len(),
            host ==> host_end(v@, p as int) == host_end(v@, i as int),
            !host ==> name_end(v@, p as int) == name_end(v@, i as int),
        decreases v@.len() - i,
    {
        i = i + 1;
    }
    i
}

/// Whether the characters of `v` from `p` on hold a line break.
fn newline_from(v: &[char], p: usize) -> (res: bool)
    requires
        p <= v@.len(),
    ensures
        res == has_newline(v@.skip(p as int)),
{
    let mut i = p;
    while i < v.len()
        invariant
            p <= i <= v@.len(),
            forall|k: int| p <= k < i ==> v@[k] != '\n',
        decreases v@.len() - i,
    {
        if v[i] == '\n' {
            assert(v@.skip(p as int)[i - p] == '\n');
            return true;
        }
        i = i + 1;
    }
    assert forall|k: int| 0 <= k < v@.skip(p as int).len() implies v@.skip(p as int)[k] != '\n' by {
        assert(v@.skip(p as int)[k] == v@[p + k]);
    }
    false
}

/// Whether `v` holds the literal `lit` at position `at`.
fn lit_at(v: &[char], lit: &str, at: usize) -> (res: bool)
    ensures
        res == occurs_at(v@, lit@, at as int),
{
    let l = crate::text::chars_of(lit);
    chars_occur_at(v, l.as_slice(), at)
}

/// The start of the reference when the characters of `v` from `p` read `branch/REF`,
/// `tag/REF` or `tree/REF`.
fn ref_start(v: &[char], p: usize) -> (res: Option<usize>)
    requires
        p <= v@.len(),
    ensures
        match res {
            Some(q) => p <= q <= v@.len() && ref_after_keyword(v@.skip(p as int)) == Some(
                v@.skip(q as int),
            ),
            None => ref_after_keyword(v@.skip(p as int)) is None,
        },
{
    let n = v.len();
    let ghost t = v@.skip(p as int);
    let branch = "branch/";
    let tag = "tag/";
    let tree = "tree/";
    proof {
        reveal_strlit("branch/");
        reveal_strlit("tag/");
        reveal_strlit("tree/");
    }
    assert(branch@ =~= seq!['b', 'r', 'a', 'n', 'c', 'h', '/']);
    assert(tag@ =~= seq!['t', 'a', 'g', '/']);
    assert(tree@ =~= seq!['t', 'r', 'e', 'e', '/']);
    proof {
        lemma_occurs_shift(v@, branch@, p as int);
        lemma_occurs_shift(v@, tag@, p as int);
        lemma_occurs_shift(v@, tree@, p as int);
    }
    let q: usize = if lit_at(v, branch, p) {
        assert(p + 7 <= v@.len());
        p + 7
    } else if lit_at(v, tag, p) {
        assert(p + 4 <= v@.len());
        p + 4
    } else if lit_at(v, tree, p) {
        assert(p + 5 <= v@.len());
        p + 5
    } else {
        return None;
    };
    assert(t.skip(q - p) =~= v@.skip(q as int));
    if q < v.len() && !newline_from(v, q) {
        Some(q)
    } else {
        None
    }
}

/// A literal occurs at `p` in `s` exactly when it starts the rest of `s` from `p`.
proof fn lemma_occurs_shift(s: Seq<char>, lit: Seq<char>, p: int)
    requires
        0 <= p <= s.len(),
    ensures
        occurs_at(s, lit, p) == occurs_at(s.skip(p), lit, 0),
{
    if p + lit.len() <= s.len() {
        assert(s.subrange(p, p + lit.len()) =~= s.skip(p).subrange(0, lit.len() as int));
    }
}

/// The start of a keyword that ends the name `v[b0..b1]` (see `keyword_start`).
fn keyword_at(v: &[char], b0: usize, b1: usize) -> (res: Option<usize>)
    requires
        b0 <= b1 <= v@.len(),
    ensures
        match res {
            Some(k) => keyword_start(v@, b0 as int, b1 as int) == Some(k as int),
            None => keyword_start(v@, b0 as int, b1 as int) is None,
        },
{
    let tag = "tag";
    let tree = "tree";
    let branch = "branch";
    proof {
        reveal_strlit("tag");
        reveal_strlit("tree");
        reveal_strlit("branch");
    }
    assert(tag@ =~= seq!['t', 'a', 'g']);
    assert(tree@ =~= seq!['t', 'r', 'e', 'e']);
    assert(branch@ =~= seq!['b', 'r', 'a', 'n', 'c', 'h']);
    if b1 - b0 >= 5 && lit_at(v, tag, b1 - 3) {
        Some(b1 - 3)
    } else if b1 - b0 >= 6 && lit_at(v, tree, b1 - 4) {
        Some(b1 - 4)
    } else if b1 - b0 >= 8 && lit_at(v, branch, b1 - 6) {
        Some(b1 - 6)
    } else {
        None
    }
}

/// The positions of host and names of a URL of the given form at `i`: `(h0, h1, a0, b0, b1)`,
/// when its scheme, host, owner and name are valid.
fn url_parts(v: &[char], i: usize, scheme: &str, sep: char) -> (res: Option<
    (usize, usize, usize, usize, usize),
>)
    ensures
        match res {
            Some((h0, h1, a0, b0, b1)) => {
                let a1 = name_end(v@, a0 as int);
                &&& occurs_at(v@, scheme@, i as int)
                &&& h0 == i + scheme@.len()
                &&& h1 == host_end(v@, h0 as int)
                &&& h1 != h0 && h1 < v@.len() && v@[h1 as int] == sep
                &&& a0 == h1 + 1
                &&& valid_name(v@, a0 as int, a1)
                &&& a1 < v@.len() && v@[a1] == '/'
                &&& b0 == a1 + 1
                &&& b1 == name_end(v@, b0 as int)
                &&& valid_name(v@, b0 as int, b1 as int)
                &&& h0 <= h1 < a0 <= a1 < b0 <= b1 <= v@.len()
            },
            None => {
                let h0 = i + scheme@.len();
                let h1 = host_end(v@, h0);
                let a0 = h1 + 1;
                let a1 = name_end(v@, a0);
                let b0 = a1 + 1;
                let b1 = name_end(v@, b0);
                !occurs_at(v@, scheme@, i as int) || h1 == h0 || h1 >= v@.len() || v@[h1]
                    != sep || !valid_name(v@, a0, a1) || a1 >= v@.len() || v@[a1] != '/'
                    || !valid_name(v@, b0, b1)
            },
        },
{
    let n = v.len();
    if !lit_at(v, scheme, i) {
        return None;
    }
    let sl = crate::text::chars_of(scheme).len();
    assert(i + sl <= v@.len());
    let h0 = i + sl;
    let h1 = run_end(v, h0, true);
    if h1 == h0 || h1 >= v.len() || v[h1] != sep {
        return None;
    }
    let a0 = h1 + 1;
    let a1 = run_end(v, a0, false);
    if !(a1 - a0 >= 2 && alnum(v[a0])) || a1 >= v.len() || v[a1] != '/' {
        return None;
    }
    let b0 = a1 + 1;
    let b1 = run_end(v, b0, false);
    if !(b1 - b0 >= 2 && alnum(v[b0])) {
        return None;
    }
    Some((h0, h1, a0, b0, b1))
}

/// The repository of an `https://` URL that starts at `i` (see `http_at`).
fn http_match_at(v: &[char], i: usize) -> (res: Option<(Vec<char>, Vec<char>, Option<Vec<char>>)>)
    ensures
        raw_view(res) == http_at(v@, i as int),
{
    let scheme = "https://";
    proof {
        reveal_strlit("https://");
    }
    assert(scheme@ =~= seq!['h', 't', 't', 'p', 's', ':', '/', '/']);
    let (h0, h1, a0, b0, b1) = match url_parts(v, i, scheme, '/') {
        Some(parts) => parts,
        None => {
            return None;
        },
    };
    let host = sub_chars(v, h0, h1);
    let ghost rest = v@.skip(b1 as int);
    if b1 == v.len() {
        assert(rest.len() == 0);
        return Some((host, sub_chars(v, a0, b1), None));
    }
    assert(rest[0] == v@[b1 as int]);
    if v[b1] == '/' {
        assert(rest.skip(1) =~= v@.skip(b1 + 1));
        match ref_start(v, b1 + 1) {
            Some(q) => {
                return Some((host, sub_chars(v, a0, b1), Some(sub_chars(v, q, v.len()))));
            },
            None => {},
        }
        if b1 + 1 == v.len() {
            return Some((host, sub_chars(v, a0, b1), None));
        }
    }
    match keyword_at(v, b0, b1) {
        Some(k) => {
            if v[b1] == '/' {
                match ref_start(v, k) {
                    Some(q) => Some((host, sub_chars(v, a0, k), Some(sub_chars(v, q, v.len())))),
                    None => None,
                }
            } else {
                None
            }
        },
        None => None,
    }
}

/// The repository of an `ssh://` or `git@` URL that starts at `i` (see `ssh_like_at`).
fn ssh_match_at(v: &[char], i: usize, git_at: bool) -> (res: Option<
    (Vec<char>, Vec<char>, Option<Vec<char>>),
>)
    ensures
        git_at ==> raw_view(res) == ssh_like_at(v@, i as int, git_scheme(), ':'),
        !git_at ==> raw_view(res) == ssh_like_at(v@, i as int, ssh_scheme(), '/'),
{
    let ssh = "ssh://";
    let git = "git@";
    let dot_git = ".git";
    proof {
        reveal_strlit("ssh://");
        reveal_strlit("git@");
        reveal_strlit(".git");
    }
    assert(ssh@ =~= ssh_scheme());
    assert(git@ =~= git_scheme());
    assert(dot_git@ =~= seq!['.', 'g', 'i', 't']);
    let parts = if git_at {
        url_parts(v, i, git, ':')
    } else {
        url_parts(v, i, ssh, '/')
    };
    let (h0, h1, a0, b0, b1) = match parts {
        Some(p) => p,
        None => {
            return None;
        },
    };
    let ghost rest = v@.skip(b1 as int);
    let n = v.len();
    if b1 == n || (n - b1 == 4 && lit_at(v, dot_git, b1)) {
        proof {
            if b1 < v.len() {
                assert(rest =~= seq!['.', 'g', 'i', 't']);
            }
        }
        Some((sub_chars(v, h0, h1), sub_chars(v, a0, b1), None))
    } else {
        proof {
            if rest == seq!['.', 'g', 'i', 't'] {
                assert(rest.len() == 4);
                assert(v@.subrange(b1 as int, b1 + 4) =~= rest);
            }
        }
        None
    }
}

/// A match taken by its characters.
pub open spec fn raw_view(r: Option<(Vec<char>, Vec<char>, Option<Vec<char>>)>) -> Option<RawRepo> {
    match r {
        Some((h, p, rf)) => Some(
            (
                h@,
                p@,
                match rf {
                    Some(x) => Some(x@),
                    None => None,
                },
            ),
        ),
        None => None,
    }
}

/// The first match of the given form (`0` https, `1` ssh, `2` git@) in `v`.
fn first_match(v: &[char], form: u8) -> (res: Option<(Vec<char>, Vec<char>, Option<Vec<char>>)>)
    requires
        form < 3,
    ensures
        form == 0 ==> raw_view(res) == first_from(v@, 0, UrlForm::Https),
        form == 1 ==> raw_view(res) == first_from(v@, 0, UrlForm::Ssh),
        form == 2 ==> raw_view(res) == first_from(v@, 0, UrlForm::GitAt),
{
    let ghost f = if form == 0 {
        UrlForm::Https
    } else if form == 1 {
        UrlForm::Ssh
    } else {
        UrlForm::GitAt
    };
    let n = v.len();
    let mut i: usize = 0;
    loop
        invariant
            i <= v@.len(),
            n == v@.len(),
            form < 3,
            f == (if form == 0 {
                UrlForm::Https
            } else if form == 1 {
                UrlForm::Ssh
            } else {
                UrlForm::GitAt
            }),
            first_from(v@, 0, f) == first_from(v@, i as int, f),
        decreases v@.len() + 1 - i,
    {
        let m = if form == 0 {
            http_match_at(v, i)
        } else {
            ssh_match_at(v, i, form == 2)
        };
        if m.is_some() {
            return m;
        }
        if i == n {
            assert(first_from(v@, i + 1, f) is None);
            return None;
        }
        i = i + 1;
    }
}

/// A reference turned into a branch name (see `ref_name`).
fn reference_name(r: &[char]) -> (res: String)
    ensures
        res@ == ref_name(r@),
{
    let mut n = r.len();
    assert(r@.take(n as int) =~= r@);
    while n > 0 && r[n - 1] == '/'
        invariant
            n <= r@.len(),
            trim_end_slashes(r@) == trim_end_slashes(r@.take(n as int)),
        decreases n,
    {
        assert(r@.take(n as int).drop_last() =~= r@.take(n - 1));
        n = n - 1;
    }
    assert(trim_end_slashes(r@.take(n as int)) == r@.take(n as int));
    let mut out: Vec<char> = Vec::new();
    let mut i: usize = 0;
    while i < n
        invariant
            i <= n <= r@.len(),
            out@ == r@.take(n as int).take(i as int).map_values(|c: char| if c == '/' {
                '-'
            } else {
                c
            }),
        decreases n - i,
    {
        let c = if r[i] == '/' {
            '-'
        } else {
            r[i]
        };
        out.push(c);
        assert(out@ =~= r@.take(n as int).take(i + 1).map_values(|c: char| if c == '/' {
            '-'
        } else {
            c
        }));
        i = i + 1;
    }
    assert(r@.take(n as int).take(n as int) =~= r@.take(n as int));
    string_of(out.as_slice())
}

/// The repository that a URL found by `first_from` describes.
pub open spec fn repo_of(m: Option<RawRepo>, protocol: GitProtocol, auth_user: Option<Seq<char>>) -> Option<
    (Seq<char>, Seq<char>, Option<Seq<char>>, Option<Seq<char>>, GitProtocol),
> {
    match m {
        Some((h, p, r)) => Some(
            (
                h,
                p,
                match r {
                    Some(r) => Some(ref_name(r)),
                    None => None,
                },
                auth_user,
                protocol,
            ),
        ),
        None => None,
    }
}

/// A repository taken by its characters: host, repository, reference, user and protocol.
pub open spec fn repo_view(r: Option<GitRepo>) -> Option<
    (Seq<char>, Seq<char>, Option<Seq<char>>, Option<Seq<char>>, GitProtocol),
> {
    match r {
        Some(g) => Some(
            (
                g.host@,
                g.repo@,
                crate::text::opt_view(g.reference),
                crate::text::opt_view(g.auth_user),
                g.protocol,
            ),
        ),
        None => None,
    }
}

/// The repository of an `https://` URL in `path`.
pub fn match_git_http_url(path: &str) -> (res: Option<GitRepo>)
    ensures
        repo_view(res) == repo_of(first_from(path@, 0, UrlForm::Https), GitProtocol::Http, None),
{
    let v = crate::text::chars_of(path);
    match first_match(v.as_slice(), 0) {
        None => None,
        Some((h, p, r)) => Some(
            GitRepo {
                host: string_of(h.as_slice()),
                repo: string_of(p.as_slice()),
                reference: match r {
                    Some(r) => Some(reference_name(r.as_slice())),
                    None => None,
                },
                auth_user: None,
                protocol: GitProtocol::Http,
            },
        ),
    }
}

/// The repository of an `ssh://` URL in `value`, or else of a `git@` one, whose user is `git`.
pub fn match_git_ssh_url(value: &str) -> (res: Option<GitRepo>)
    ensures
        repo_view(res) == if first_from(value@, 0, UrlForm::Ssh) is Some {
            repo_of(first_from(value@, 0, UrlForm::Ssh), GitProtocol::Ssh, None)
        } else {
            repo_of(
                first_from(value@, 0, UrlForm::GitAt),
                GitProtocol::Ssh,
                Some(seq!['g', 'i', 't']),
            )
        },
{
    let v = crate::text::chars_of(value);
    let (m, user) = match first_match(v.as_slice(), 1) {
        Some(m) => (m, None),
        None => match first_match(v.as_slice(), 2) {
            Some(m) => {
                let g = "git";
                proof {
                    reveal_strlit("git");
                }
                assert(g@ =~= seq!['g', 'i', 't']);
                (m, Some(crate::text::owned(g)))
            },
            None => {
                return None;
            },
        },
    };
    let (h, p, r) = m;
    Some(
        GitRepo {
            host: string_of(h.as_slice()),
            repo: string_of(p.as_slice()),
            reference: match r {
                Some(r) => Some(reference_name(r.as_slice())),
                None => None,
            },
            auth_user: user,
            protocol: GitProtocol::Ssh,
        },
    )
}

/// Whether a template path is a ZIP file served over HTTPS.
pub fn is_remote_zip_file(path: &str) -> (res: bool)
    ensures
        res == (crate::text::starts_with(
            path@,
            seq!['h', 't', 't', 'p', 's', ':', '/', '/'],
        ) && crate::text::ends_with(path@, seq!['.', 'z', 'i', 'p'])),
{
    let https = "https://";
    let zip = ".zip";
    proof {
        reveal_strlit("https://");
        reveal_strlit(".zip");
    }
    assert(https@ =~= seq!['h', 't', 't', 'p', 's', ':', '/', '/']);
    assert(zip@ =~= seq!['.', 'z', 'i', 'p']);
    crate::text::str_starts_with(path, https) && crate::text::str_ends_with(path, zip)
}

// ---------------------------------------------------------------------------
// Template sources
// ---------------------------------------------------------------------------

/// The repository that an HTTPS URL names.
pub open spec fn http_repo(v: Seq<char>) -> Option<
    (Seq<char>, Seq<char>, Option<Seq<char>>, Option<Seq<char>>, GitProtocol),
> {
    repo_of(first_from(v, 0, UrlForm::Https), GitProtocol::Http, None)
}

/// The repository that an SSH URL names.
pub open spec fn ssh_repo(v: Seq<char>) -> Option<
    (Seq<char>, Seq<char>, Option<Seq<char>>, Option<Seq<char>>, GitProtocol),
> {
    if first_from(v, 0, UrlForm::Ssh) is Some {
        repo_of(first_from(v, 0, UrlForm::Ssh), GitProtocol::Ssh, None)
    } else {
        repo_of(first_from(v, 0, UrlForm::GitAt), GitProtocol::Ssh, Some(seq!['g', 'i', 't']))
    }
}

/// Where a project template comes from.
#[derive(Debug)]
pub enum TemplateSource {
    /// A ZIP file served over HTTPS.
    RemoteZip(String),
    /// A Git repository.
    RemoteRepo(GitRepo),
    /// A local ZIP file, by its real path.
    LocalZip(String),
    /// A local directory, by its real path.
    LocalDir(String),
}

/// What the file system says of a template option taken as a local path: its real path or
/// the reason it has none, and whether that path is a file with the `zip` extension, or a
/// directory.
pub struct LocalPath {
    pub real_path: Result<String, String>,
    pub is_zip_file: bool,
    pub is_dir: bool,
}

/// A template source taken by value.
pub enum TemplateSourceView {
    RemoteZip(Seq<char>),
    RemoteRepo((Seq<char>, Seq<char>, Option<Seq<char>>, Option<Seq<char>>, GitProtocol)),
    LocalZip(Seq<char>),
    LocalDir(Seq<char>),
}

/// The value of a template source.
pub open spec fn source_view(s: TemplateSource) -> TemplateSourceView {
    match s {
        TemplateSource::RemoteZip(u) => TemplateSourceView::RemoteZip(u@),
        TemplateSource::RemoteRepo(g) => TemplateSourceView::RemoteRepo(repo_view(Some(g))->0),
        TemplateSource::LocalZip(p) => TemplateSourceView::LocalZip(p@),
        TemplateSource::LocalDir(p) => TemplateSourceView::LocalDir(p@),
    }
}

/// The source that a template option names: a ZIP file over HTTPS, a Git repository by its
/// HTTPS or SSH URL, or, for an option that is not an HTTPS URL, a local ZIP file or
/// directory; otherwise the reason why it names none.
pub open spec fn template_source_of(
    value: Seq<char>,
    real_path: Result<Seq<char>, Seq<char>>,
    is_zip_file: bool,
    is_dir: bool,
) -> Result<TemplateSourceView, Seq<char>> {
    let https = seq!['h', 't', 't', 'p', 's', ':', '/', '/'];
    if crate::text::starts_with(value, https) && crate::text::ends_with(
        value,
        seq!['.', 'z', 'i', 'p'],
    ) {
        Ok(TemplateSourceView::RemoteZip(value))
    } else if http_repo(value) is Some {
        Ok(TemplateSourceView::RemoteRepo(http_repo(value)->0))
    } else if ssh_repo(value) is Some {
        Ok(TemplateSourceView::RemoteRepo(ssh_repo(value)->0))
    } else if !crate::text::starts_with(value, https) {
        match real_path {
            Ok(p) => if is_zip_file {
                Ok(TemplateSourceView::LocalZip(p))
            } else if is_dir {
                Ok(TemplateSourceView::LocalDir(p))
            } else {
                Err("invalid template option "@ + value + ": No such directory"@)
            },
            Err(e) => Err("invalid template option "@ + value + ": "@ + e),
        }
    } else {
        Err("the given template option is not a valid GitHub URL or local directory: "@ + value)
    }
}

/// `a`, `b` and `c`, one after the other.
fn concat3(a: &str, b: &str, c: &str) -> (res: String)
    ensures
        res@ == a@ + b@ + c@,
{
    let mut v = crate::text::chars_of(a);
    crate::text::extend_chars(&mut v, crate::text::chars_of(b).as_slice());
    crate::text::extend_chars(&mut v, crate::text::chars_of(c).as_slice());
    string_of(v.as_slice())
}

impl TemplateSource {
    /// The source that a template option names, given what the file system says of it as a
    /// local path.
    pub fn from_option(value: &str, local: &LocalPath) -> (res: Result<TemplateSource, String>)
        ensures
            match res {
                Ok(s) => template_source_of(
                    value@,
                    match local.real_path {
                        Ok(p) => Ok(p@),
                        Err(e) => Err(e@),
                    },
                    local.is_zip_file,
                    local.is_dir,
                ) == Ok::<TemplateSourceView, Seq<char>>(source_view(s)),
                Err(m) => template_source_of(
                    value@,
                    match local.real_path {
                        Ok(p) => Ok(p@),
                        Err(e) => Err(e@),
                    },
                    local.is_zip_file,
                    local.is_dir,
                ) == Err::<TemplateSourceView, Seq<char>>(m@),
            },
    {
        if is_remote_zip_file(value) {
            return Ok(TemplateSource::RemoteZip(crate::text::owned(value)));
        }
        if let Some(repo) = match_git_http_url(value) {
            return Ok(TemplateSource::RemoteRepo(repo));
        }
        if let Some(repo) = match_git_ssh_url(value) {
            return Ok(TemplateSource::RemoteRepo(repo));
        }
        let https = "https://";
        proof {
            reveal_strlit("https://");
            reveal_strlit("");
        }
        assert(https@ =~= seq!['h', 't', 't', 'p', 's', ':', '/', '/']);
        if !crate::text::str_starts_with(value, https) {
            return match &local.real_path {
                Ok(p) => if local.is_zip_file {
                    Ok(TemplateSource::LocalZip(p.clone()))
                } else if local.is_dir {
                    Ok(TemplateSource::LocalDir(p.clone()))
                } else {
                    Err(concat3("invalid template option ", value, ": No such directory"))
                },
                Err(e) => {
                    let head = concat3("invalid template option ", value, ": ");
                    Err(concat3(head.as_str(), e.as_str(), ""))
                },
            };
        }
        Err(concat3(
            "the given template option is not a valid GitHub URL or local directory: ",
            value,
            "",
        ))
    }
}

} // verus!
