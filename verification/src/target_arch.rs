//! Build targets: which Lambda architecture a Rust target triple is for, and how it is built.
use vstd::prelude::*;
use crate::text::{split_once_spec, starts_with};

verus! {

/// Why a build cannot go ahead.
#[derive(Debug, Clone)]
pub enum BuildError {
    /// `--arm64`, `--x86-64` and `--target` were given together.
    InvalidTargetOptions,
    /// `--compiler=cargo` was given on another system than Linux.
    InvalidCompilerOption,
    /// Zig is not installed.
    ZigMissing,
    /// The binary target is not in the project.
    FunctionBinaryMissing(String),
    /// The binary has not been built: its name and the command that builds it.
    BinaryMissing(String, String),
    /// The target is not one that AWS Lambda runs.
    UnsupportedTarget(String),
}

impl BuildError {
    /// The message of the error, as `Display` writes it, for the errors that carry a target.
    pub fn to_string(&self) -> (res: String)
        ensures
            self matches BuildError::UnsupportedTarget(t) ==> res@ == unsupported_target_message()
                + t@,
    {
        match self {
            BuildError::UnsupportedTarget(t) => {
                let p = "invalid or unsupported target for AWS Lambda: ";
                proof {
                    reveal_strlit("invalid or unsupported target for AWS Lambda: ");
                }
                assert(p@ =~= unsupported_target_message());
                let mut v = crate::text::chars_of(p);
                let w = crate::text::chars_of(t.as_str());
                crate::text::extend_chars(&mut v, w.as_slice());
                crate::text::string_of(v.as_slice())
            },
            BuildError::InvalidTargetOptions => crate::text::owned(
                "invalid options: --arm64, --x86-64, and --target cannot be specified at the same time",
            ),
            BuildError::InvalidCompilerOption => crate::text::owned(
                "invalid options: --compiler=cargo is only allowed on Linux",
            ),
            BuildError::ZigMissing => crate::text::owned("install Zig and run cargo-lambda again"),
            BuildError::FunctionBinaryMissing(name) => {
                let mut v = crate::text::chars_of("binary target is missing from this project: ");
                let w = crate::text::chars_of(name.as_str());
                crate::text::extend_chars(&mut v, w.as_slice());
                crate::text::string_of(v.as_slice())
            },
            BuildError::BinaryMissing(name, help) => {
                let mut v = crate::text::chars_of("binary file for ");
                let w = crate::text::chars_of(name.as_str());
                crate::text::extend_chars(&mut v, w.as_slice());
                let m = crate::text::chars_of(" not found, use `cargo lambda ");
                crate::text::extend_chars(&mut v, m.as_slice());
                let h = crate::text::chars_of(help.as_str());
                crate::text::extend_chars(&mut v, h.as_slice());
                let e = crate::text::chars_of("` to create it");
                crate::text::extend_chars(&mut v, e.as_slice());
                crate::text::string_of(v.as_slice())
            },
        }
    }
}

/// The message of an unsupported target, before the target itself.
pub open spec fn unsupported_target_message() -> Seq<char> {
    seq![
        'i',
        'n',
        'v',
        'a',
        'l',
        'i',
        'd',
        ' ',
        'o',
        'r',
        ' ',
        'u',
        'n',
        's',
        'u',
        'p',
        'p',
        'o',
        'r',
        't',
        'e',
        'd',
        ' ',
        't',
        'a',
        'r',
        'g',
        'e',
        't',
        ' ',
        'f',
        'o',
        'r',
        ' ',
        'A',
        'W',
        'S',
        ' ',
        'L',
        'a',
        'm',
        'b',
        'd',
        'a',
        ':',
        ' ',
    ]
}

/// `aarch64-unknown-linux`, the prefix of the ARM targets that Lambda runs.
pub open spec fn arm_linux_prefix() -> Seq<char> {
    seq![
        'a',
        'a',
        'r',
        'c',
        'h',
        '6',
        '4',
        '-',
        'u',
        'n',
        'k',
        'n',
        'o',
        'w',
        'n',
        '-',
        'l',
        'i',
        'n',
        'u',
        'x',
    ]
}

/// `x86_64-unknown-linux`, the prefix of the x86-64 targets that Lambda runs.
pub open spec fn x86_linux_prefix() -> Seq<char> {
    seq![
        'x',
        '8',
        '6',
        '_',
        '6',
        '4',
        '-',
        'u',
        'n',
        'k',
        'n',
        'o',
        'w',
        'n',
        '-',
        'l',
        'i',
        'n',
        'u',
        'x',
    ]
}

/// `aarch64-unknown-linux-gnu`.
pub open spec fn target_arm() -> Seq<char> {
    arm_linux_prefix() + seq!['-', 'g', 'n', 'u']
}

/// `x86_64-unknown-linux-gnu`.
pub open spec fn target_x86_64() -> Seq<char> {
    x86_linux_prefix() + seq!['-', 'g', 'n', 'u']
}

/// `aarch64-unknown-linux-musl`.
pub open spec fn target_arm_musl() -> Seq<char> {
    arm_linux_prefix() + seq!['-', 'm', 'u', 's', 'l']
}

/// `x86_64-unknown-linux-musl`.
pub open spec fn target_x86_64_musl() -> Seq<char> {
    x86_linux_prefix() + seq!['-', 'm', 'u', 's', 'l']
}

/// A processor architecture that Lambda runs.
#[derive(Debug, Clone, Copy, PartialEq, Eq, Structural)]
pub enum Arch {
    X86_64,
    ARM64,
}

impl Arch {
    /// The default architecture, x86-64.
    pub fn default() -> (res: Arch)
        ensures
            res == Arch::X86_64,
    {
        Arch::X86_64
    }

    /// The CPU that binaries for the architecture are tuned for.
    pub fn target_cpu(&self) -> (res: &'static str)
        ensures
            *self == Arch::ARM64 ==> res@ == seq![
                'n',
                'e',
                'o',
                'v',
                'e',
                'r',
                's',
                'e',
                '-',
                'n',
                '1',
            ],
            *self == Arch::X86_64 ==> res@ == seq!['h', 'a', 's', 'w', 'e', 'l', 'l'],
    {
        match self {
            Arch::ARM64 => {
                let s = "neoverse-n1";
                proof {
                    reveal_strlit("neoverse-n1");
                }
                assert(s@ =~= seq!['n', 'e', 'o', 'v', 'e', 'r', 's', 'e', '-', 'n', '1']);
                s
            },
            Arch::X86_64 => {
                let s = "haswell";
                proof {
                    reveal_strlit("haswell");
                }
                assert(s@ =~= seq!['h', 'a', 's', 'w', 'e', 'l', 'l']);
                s
            },
        }
    }
}

/// The release channel of a Rust toolchain.
#[derive(Debug, Clone, Copy, PartialEq, Eq, Structural)]
pub enum Channel {
    Dev,
    Nightly,
    Beta,
    Stable,
}

/// A Rust target to build for, and the channel of the toolchain that builds it.
#[derive(Debug)]
pub struct TargetArch {
    /// The Rust target triple, possibly with a glibc version after a `.`.
    pub rustc_target: String,
    /// The toolchain's channel, when known.
    pub channel: Option<Channel>,
}

/// The target triple without the glibc version that may follow it after a `.`.
pub open spec fn without_glibc_version(t: Seq<char>) -> Seq<char> {
    match split_once_spec(t, '.') {
        Some(parts) => parts.0,
        None => t,
    }
}

impl TargetArch {
    /// The ARM Linux target.
    pub fn arm64() -> (res: TargetArch)
        ensures
            res.rustc_target@ == target_arm(),
            res.channel is None,
    {
        let s = "aarch64-unknown-linux-gnu";
        proof {
            reveal_strlit("aarch64-unknown-linux-gnu");
        }
        assert(s@ =~= target_arm());
        TargetArch { rustc_target: crate::text::owned(s), channel: None }
    }

    /// The x86-64 Linux target.
    pub fn x86_64() -> (res: TargetArch)
        ensures
            res.rustc_target@ == target_x86_64(),
            res.channel is None,
    {
        let s = "x86_64-unknown-linux-gnu";
        proof {
            reveal_strlit("x86_64-unknown-linux-gnu");
        }
        assert(s@ =~= target_x86_64());
        TargetArch { rustc_target: crate::text::owned(s), channel: None }
    }

    /// The target named `host`, as `FromStr` reads it.
    pub fn from_str(host: &str) -> (res: TargetArch)
        ensures
            res.rustc_target@ == host@,
            res.channel is None,
    {
        TargetArch { rustc_target: crate::text::owned(host), channel: None }
    }

    /// The target to build for on a host: the host's own target when Lambda's linkers
    /// work with it, else x86-64 Linux; with the host toolchain's channel.
    pub fn from_host_meta(host: &str, channel: Channel) -> (res: TargetArch)
        ensures
            res.rustc_target@ == (if without_glibc_version(host@) == target_arm()
                || without_glibc_version(host@) == target_x86_64() {
                host@
            } else {
                target_x86_64()
            }),
            res.channel == Some(channel),
    {
        let mut target = TargetArch::from_str(host);
        if !target.compatible_host_linker() {
            target = TargetArch::x86_64();
        }
        target.channel = Some(channel);
        target
    }

    /// The target triple, as `Display` writes it.
    pub fn to_string(&self) -> (res: String)
        ensures
            res@ == self.rustc_target@,
    {
        self.rustc_target.clone()
    }

    /// The architecture of the target: ARM for `aarch64-unknown-linux` targets, else x86-64.
    pub fn arch(&self) -> (res: Arch)
        ensures
            res == (if starts_with(self.rustc_target@, arm_linux_prefix()) {
                Arch::ARM64
            } else {
                Arch::X86_64
            }),
    {
        let p = "aarch64-unknown-linux";
        proof {
            reveal_strlit("aarch64-unknown-linux");
        }
        assert(p@ =~= arm_linux_prefix());
        if crate::text::str_starts_with(self.rustc_target.as_str(), p) {
            Arch::ARM64
        } else {
            Arch::X86_64
        }
    }

    /// The CPU that binaries for the target are tuned for.
    pub fn target_cpu(&self) -> (res: &'static str)
        ensures
            starts_with(self.rustc_target@, arm_linux_prefix()) ==> res@ == seq![
                'n',
                'e',
                'o',
                'v',
                'e',
                'r',
                's',
                'e',
                '-',
                'n',
                '1',
            ],
            !starts_with(self.rustc_target@, arm_linux_prefix()) ==> res@ == seq![
                'h',
                'a',
                's',
                'w',
                'e',
                'l',
                'l',
            ],
    {
        self.arch().target_cpu()
    }

    /// Whether the host's linker can link for Lambda: the target without its glibc version
    /// is `aarch64-unknown-linux-gnu` or `x86_64-unknown-linux-gnu`.
    pub fn compatible_host_linker(&self) -> (res: bool)
        ensures
            res == (without_glibc_version(self.rustc_target@) == target_arm()
                || without_glibc_version(self.rustc_target@) == target_x86_64()),
    {
        let t = self.rustc_target_without_glibc_version();
        let arm = "aarch64-unknown-linux-gnu";
        let x86 = "x86_64-unknown-linux-gnu";
        proof {
            reveal_strlit("aarch64-unknown-linux-gnu");
            reveal_strlit("x86_64-unknown-linux-gnu");
        }
        assert(arm@ =~= target_arm());
        assert(x86@ =~= target_x86_64());
        crate::text::str_eq(t.as_str(), arm) || crate::text::str_eq(t.as_str(), x86)
    }

    /// Whether the target links statically: the musl Linux targets.
    pub fn is_static_linking(&self) -> (res: bool)
        ensures
            res == (self.rustc_target@ == target_x86_64_musl() || self.rustc_target@
                == target_arm_musl()),
    {
        let x86 = "x86_64-unknown-linux-musl";
        let arm = "aarch64-unknown-linux-musl";
        proof {
            reveal_strlit("x86_64-unknown-linux-musl");
            reveal_strlit("aarch64-unknown-linux-musl");
        }
        assert(x86@ =~= target_x86_64_musl());
        assert(arm@ =~= target_arm_musl());
        crate::text::str_eq(self.rustc_target.as_str(), x86) || crate::text::str_eq(
            self.rustc_target.as_str(),
            arm,
        )
    }

    /// The toolchain's channel, when it is known; when it is not, the host toolchain is
    /// to be asked.
    pub fn channel(&self) -> (res: Option<Channel>)
        ensures
            res == self.channel,
    {
        self.channel
    }

    /// The target triple without the glibc version that may follow it after a `.`.
    pub fn rustc_target_without_glibc_version(&self) -> (res: String)
        ensures
            res@ == without_glibc_version(self.rustc_target@),
    {
        let v = crate::text::chars_of(self.rustc_target.as_str());
        match crate::text::split_once_chars(v.as_slice(), '.') {
            Some((a, _)) => crate::text::string_of(a.as_slice()),
            None => self.rustc_target.clone(),
        }
    }
}

/// Checks that AWS Lambda runs binaries for `target`: an `aarch64-unknown-linux` or
/// `x86_64-unknown-linux` target, of any C library and glibc version.
pub fn validate_linux_target(target: &str) -> (res: Result<(), BuildError>)
    ensures
        res is Ok <==> (starts_with(target@, arm_linux_prefix()) || starts_with(
            target@,
            x86_linux_prefix(),
        )),
        res matches Err(e) ==> (e matches BuildError::UnsupportedTarget(t) && t@ == target@),
{
    let arm = "aarch64-unknown-linux";
    let x86 = "x86_64-unknown-linux";
    proof {
        reveal_strlit("aarch64-unknown-linux");
        reveal_strlit("x86_64-unknown-linux");
    }
    assert(arm@ =~= arm_linux_prefix());
    assert(x86@ =~= x86_linux_prefix());
    if crate::text::str_starts_with(target, arm) || crate::text::str_starts_with(target, x86) {
        Ok(())
    } else {
        Err(BuildError::UnsupportedTarget(crate::text::owned(target)))
    }
}

/// Every target that the host linker accepts is one that Lambda runs.
pub proof fn law_compatible_targets_are_supported(t: Seq<char>)
    requires
        without_glibc_version(t) == target_arm() || without_glibc_version(t) == target_x86_64(),
    ensures
        starts_with(t, arm_linux_prefix()) || starts_with(t, x86_linux_prefix()),
{
    let w = without_glibc_version(t);
    assert(starts_with(t, w)) by {
        if crate::text::has_char(t, '.') {
            let i = crate::text::first_index(t, '.');
            assert(crate::text::is_first_at(t, '.', i)) by {
                crate::text::lemma_split_once(t, '.');
            }
            assert(t.subrange(0, w.len() as int) =~= w);
        } else {
            assert(t.subrange(0, t.len() as int) =~= t);
        }
    }
    if w == target_arm() {
        assert(t.subrange(0, arm_linux_prefix().len() as int) =~= w.subrange(
            0,
            arm_linux_prefix().len() as int,
        ));
        assert(w.subrange(0, arm_linux_prefix().len() as int) =~= arm_linux_prefix());
    } else {
        assert(t.subrange(0, x86_linux_prefix().len() as int) =~= w.subrange(
            0,
            x86_linux_prefix().len() as int,
        ));
        assert(w.subrange(0, x86_linux_prefix().len() as int) =~= x86_linux_prefix());
    }
}

/// The profile directory that a build writes to: `debug` for the `dev` and `test` profiles,
/// `release` for the `release` and `bench` ones, any other profile's own name, and without
/// a profile `release` or `debug` as `--release` says.
pub fn build_profile<'a>(profile: Option<&'a str>, release: bool) -> (res: &'a str)
    ensures
        res@ == match profile {
            Some(p) => if p@ == seq!['d', 'e', 'v'] || p@ == seq!['t', 'e', 's', 't'] {
                seq!['d', 'e', 'b', 'u', 'g']
            } else if p@ == seq!['r', 'e', 'l', 'e', 'a', 's', 'e'] || p@ == seq![
                'b',
                'e',
                'n',
                'c',
                'h',
            ] {
                seq!['r', 'e', 'l', 'e', 'a', 's', 'e']
            } else {
                p@
            },
            None => if release {
                seq!['r', 'e', 'l', 'e', 'a', 's', 'e']
            } else {
                seq!['d', 'e', 'b', 'u', 'g']
            },
        },
{
    let debug = "debug";
    let rel = "release";
    proof {
        reveal_strlit("debug");
        reveal_strlit("release");
        reveal_strlit("dev");
        reveal_strlit("test");
        reveal_strlit("bench");
    }
    assert(debug@ =~= seq!['d', 'e', 'b', 'u', 'g']);
    assert(rel@ =~= seq!['r', 'e', 'l', 'e', 'a', 's', 'e']);
    assert("dev"@ =~= seq!['d', 'e', 'v']);
    assert("test"@ =~= seq!['t', 'e', 's', 't']);
    assert("bench"@ =~= seq!['b', 'e', 'n', 'c', 'h']);
    match profile {
        Some(p) => {
            if crate::text::str_eq(p, "dev") || crate::text::str_eq(p, "test") {
                debug
            } else if crate::text::str_eq(p, "release") || crate::text::str_eq(p, "bench") {
                rel
            } else {
                p
            }
        },
        None => if release {
            rel
        } else {
            debug
        },
    }
}

} // verus!
