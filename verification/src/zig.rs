//! Ways to install Zig, which cross-compiles the functions, and the Rust toolchain checks.
use vstd::prelude::*;
use crate::target_arch::Channel;

verus! {

/// A package manager that can install Zig.
#[derive(Debug, Clone, Copy, PartialEq, Eq, Structural)]
pub enum InstallOption {
    Brew,
    Npm,
    Pip3,
}

/// The command that installs Zig with a package manager.
pub open spec fn install_usage(o: InstallOption) -> Seq<char> {
    match o {
        InstallOption::Brew => seq!['b', 'r', 'e', 'w', ' ', 'i', 'n', 's', 't', 'a', 'l', 'l', ' ', 'z', 'i', 'g'],
        InstallOption::Npm => seq![
            'n',
            'p',
            'm',
            ' ',
            'i',
            'n',
            's',
            't',
            'a',
            'l',
            'l',
            ' ',
            '-',
            'g',
            ' ',
            '@',
            'z',
            'i',
            'g',
            'l',
            'a',
            'n',
            'g',
            '/',
            'c',
            'l',
            'i',
        ],
        InstallOption::Pip3 => seq![
            'p',
            'i',
            'p',
            '3',
            ' ',
            'i',
            'n',
            's',
            't',
            'a',
            'l',
            'l',
            ' ',
            'z',
            'i',
            'g',
            'l',
            'a',
            'n',
            'g',
        ],
    }
}

/// The words of a command line separated by single spaces (`str::split(' ')`).
pub open spec fn split_spaces(s: Seq<char>) -> Seq<Seq<char>>
    decreases s.len(),
{
    match crate::text::split_once_spec(s, ' ') {
        Some(parts) => {
            proof {
                crate::text::lemma_split_once(s, ' ');
            }
            seq![parts.0] + split_spaces(parts.1)
        },
        None => seq![s],
    }
}

impl InstallOption {
    /// The command that installs Zig with this package manager.
    pub fn usage(&self) -> (res: &'static str)
        ensures
            res@ == install_usage(*self),
    {
        let s = match self {
            InstallOption::Brew => {
                let s = "brew install zig";
                proof {
                    reveal_strlit("brew install zig");
                }
                s
            },
            InstallOption::Npm => {
                let s = "npm install -g @ziglang/cli";
                proof {
                    reveal_strlit("npm install -g @ziglang/cli");
                }
                s
            },
            InstallOption::Pip3 => {
                let s = "pip3 install ziglang";
                proof {
                    reveal_strlit("pip3 install ziglang");
                }
                s
            },
        };
        assert(s@ =~= install_usage(*self));
        s
    }

    /// How the option is offered to the user, as `Display` writes it.
    pub fn to_string(&self) -> (res: String)
        ensures
            *self == InstallOption::Brew ==> res@ == seq![
                'I',
                'n',
                's',
                't',
                'a',
                'l',
                'l',
                ' ',
                'w',
                'i',
                't',
                'h',
                ' ',
                'H',
                'o',
                'm',
                'e',
                'b',
                'r',
                'e',
                'w',
            ],
    {
        match self {
            InstallOption::Brew => {
                let s = "Install with Homebrew";
                proof {
                    reveal_strlit("Install with Homebrew");
                }
                assert(s@ =~= seq![
                    'I',
                    'n',
                    's',
                    't',
                    'a',
                    'l',
                    'l',
                    ' ',
                    'w',
                    'i',
                    't',
                    'h',
                    ' ',
                    'H',
                    'o',
                    'm',
                    'e',
                    'b',
                    'r',
                    'e',
                    'w',
                ]);
                crate::text::owned(s)
            },
            InstallOption::Npm => crate::text::owned("Install with NPM"),
            InstallOption::Pip3 => crate::text::owned("Install with Pip3 (Python 3)"),
        }
    }

    /// The program and arguments that install Zig: the words of the usage.
    pub fn install_command(&self) -> (res: Vec<String>)
        ensures
            crate::text::views(res@) == split_spaces(install_usage(*self)),
            res@.len() >= 1,
    {
        let v = crate::text::chars_of(self.usage());
        split_on_spaces(v.as_slice())
    }
}

/// The words of `v` separated by single spaces.
pub(crate) fn split_on_spaces(v: &[char]) -> (res: Vec<String>)
    ensures
        crate::text::views(res@) == split_spaces(v@),
        res@.len() >= 1,
    decreases v@.len(),
{
    match crate::text::split_once_chars(v, ' ') {
        Some((a, b)) => {
            proof {
                crate::text::lemma_split_once(v@, ' ');
            }
            let mut res: Vec<String> = Vec::new();
            res.push(crate::text::string_of(a.as_slice()));
            let rest = split_on_spaces(b.as_slice());
            let mut i: usize = 0;
            while i < rest.len()
                invariant
                    i <= rest@.len(),
                    res@.len() == 1 + i,
                    crate::text::views(res@) == seq![a@] + crate::text::views(rest@).take(i as int),
                decreases rest@.len() - i,
            {
                let ghost before = res@;
                res.push(rest[i].clone());
                assert(crate::text::views(res@) =~= crate::text::views(before).push(rest@[i as int]@));
                assert(crate::text::views(rest@).take(i + 1) =~= crate::text::views(rest@).take(
                    i as int,
                ).push(rest@[i as int]@));
                i = i + 1;
            }
            assert(crate::text::views(rest@).take(rest@.len() as int) =~= crate::text::views(rest@));
            res
        },
        None => {
            let mut res: Vec<String> = Vec::new();
            res.push(crate::text::string_of(v));
            assert(crate::text::views(res@) =~= seq![v@]);
            res
        },
    }
}

/// The ways to install Zig on this system, given which package managers are found, in the
/// order they are offered: Homebrew, Pip3, NPM.
pub fn install_options(has_brew: bool, has_pip3: bool, has_npm: bool) -> (res: Vec<InstallOption>)
    ensures
        res@ == (if has_brew {
            seq![InstallOption::Brew]
        } else {
            Seq::empty()
        }) + (if has_pip3 {
            seq![InstallOption::Pip3]
        } else {
            Seq::empty()
        }) + (if has_npm {
            seq![InstallOption::Npm]
        } else {
            Seq::empty()
        }),
{
    let mut options: Vec<InstallOption> = Vec::new();
    if has_brew {
        options.push(InstallOption::Brew);
    }
    if has_pip3 {
        options.push(InstallOption::Pip3);
    }
    if has_npm {
        options.push(InstallOption::Npm);
    }
    assert(options@ =~= (if has_brew {
        seq![InstallOption::Brew]
    } else {
        Seq::empty()
    }) + (if has_pip3 {
        seq![InstallOption::Pip3]
    } else {
        Seq::empty()
    }) + (if has_npm {
        seq![InstallOption::Npm]
    } else {
        Seq::empty()
    }));
    options
}

/// What is known of the Zig installation.
#[derive(Debug)]
pub struct ZigInfo {
    /// Where Zig is installed.
    pub path: Option<String>,
    /// How Zig can be installed, when it is not.
    pub install_options: Option<Vec<InstallOption>>,
    /// The version of Zig.
    pub version: Option<String>,
}

impl ZigInfo {
    /// Zig is installed at `path`, in `version` (whose surrounding white space is dropped).
    pub fn installed(path: String, version: &str) -> (res: ZigInfo)
        ensures
            res.path == Some(path),
            res.install_options is None,
            res.version matches Some(v) && v@ == crate::text::trim(version@),
    {
        ZigInfo { path: Some(path), install_options: None, version: Some(crate::text::trim_str(version)) }
    }

    /// Zig is not installed; these are the ways to install it.
    pub fn missing(options: Vec<InstallOption>) -> (res: ZigInfo)
        ensures
            res.path is None,
            res.install_options == Some(options),
            res.version is None,
    {
        ZigInfo { path: None, install_options: Some(options), version: None }
    }
}

/// The name of a toolchain channel, as `rustup` takes it.
pub open spec fn channel_name(channel: Channel) -> Seq<char> {
    match channel {
        Channel::Stable => seq!['s', 't', 'a', 'b', 'l', 'e'],
        Channel::Nightly => seq!['n', 'i', 'g', 'h', 't', 'l', 'y'],
        Channel::Dev => seq!['d', 'e', 'v'],
        Channel::Beta => seq!['b', 'e', 't', 'a'],
    }
}

/// The name of a toolchain channel, as `rustup` takes it.
pub fn toolchain_name(channel: Channel) -> (res: &'static str)
    ensures
        res@ == channel_name(channel),
{
    proof {
        reveal_strlit("stable");
        reveal_strlit("nightly");
        reveal_strlit("dev");
        reveal_strlit("beta");
    }
    let s = match channel {
        Channel::Stable => "stable",
        Channel::Nightly => "nightly",
        Channel::Dev => "dev",
        Channel::Beta => "beta",
    };
    assert(s@ =~= match channel {
        Channel::Stable => seq!['s', 't', 'a', 'b', 'l', 'e'],
        Channel::Nightly => seq!['n', 'i', 'g', 'h', 't', 'l', 'y'],
        Channel::Dev => seq!['d', 'e', 'v'],
        Channel::Beta => seq!['b', 'e', 't', 'a'],
    });
    s
}

/// A line as `str::lines` yields it: without a `\r` that ends it.
pub open spec fn line_content(l: Seq<char>) -> Seq<char> {
    if l.len() > 0 && l.last() == '\r' {
        l.drop_last()
    } else {
        l
    }
}

/// Whether some line of `out` (split at `\n`, a final `\r` dropped) is `component`.
pub open spec fn has_line(out: Seq<char>, component: Seq<char>) -> bool
    decreases out.len(),
{
    if out.len() == 0 {
        false
    } else {
        match crate::text::split_once_spec(out, '\n') {
            Some(parts) => {
                proof {
                    crate::text::lemma_split_once(out, '\n');
                }
                line_content(parts.0) == component || has_line(parts.1, component)
            },
            None => line_content(out) == component,
        }
    }
}

/// Whether the installed targets that `rustup target list --installed` printed include
/// `component`.
pub fn has_target_component(out: &str, component: &str) -> (res: bool)
    ensures
        res == has_line(out@, component@),
{
    let v = crate::text::chars_of(out);
    let c = crate::text::chars_of(component);
    has_line_chars(v.as_slice(), c.as_slice())
}

/// Whether some line of `v` is `c`.
fn has_line_chars(v: &[char], c: &[char]) -> (res: bool)
    ensures
        res == has_line(v@, c@),
    decreases v@.len(),
{
    if v.len() == 0 {
        return false;
    }
    match crate::text::split_once_chars(v, '\n') {
        Some((line, rest)) => {
            proof {
                crate::text::lemma_split_once(v@, '\n');
            }
            if crate::text::chars_eq(line_without_cr(line.as_slice()).as_slice(), c) {
                true
            } else {
                has_line_chars(rest.as_slice(), c)
            }
        },
        None => crate::text::chars_eq(line_without_cr(v).as_slice(), c),
    }
}

/// A line without a `\r` that ends it.
fn line_without_cr(l: &[char]) -> (res: Vec<char>)
    ensures
        res@ == line_content(l@),
{
    if l.len() > 0 && l[l.len() - 1] == '\r' {
        crate::text::sub_chars(l, 0, l.len() - 1)
    } else {
        crate::text::sub_chars(l, 0, l.len())
    }
}

} // verus!
