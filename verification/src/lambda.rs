//! Lambda function settings: timeout, memory size and tracing mode.
use vstd::prelude::*;
use crate::error::MetadataError;
use crate::number::{decimal, parse_signed, parse_unsigned, signed_decimal};

verus! {

/// Whether `s` and `t` are equal when ASCII letters are compared without case.
pub open spec fn eq_ignore_ascii_case(s: Seq<char>, t: Seq<char>) -> bool {
    s.len() == t.len() && forall|i: int| 0 <= i < s.len() ==> #[trigger] ascii_lower(s[i])
        == ascii_lower(t[i])
}

/// The lower-case form of an ASCII upper-case letter; any other character unchanged.
pub open spec fn ascii_lower(c: char) -> char {
    if 'A' <= c <= 'Z' {
        ((c as u32) + 32) as char
    } else {
        c
    }
}

/// Lower-cases an ASCII letter.
pub fn to_ascii_lower(c: char) -> (res: char)
    ensures
        res == ascii_lower(c),
{
    if 'A' <= c && c <= 'Z' {
        let u = (c as u32) + 32;
        assert(97 <= u <= 122);
        u as u8 as char
    } else {
        c
    }
}

/// Whether the two strings are equal when ASCII letters are compared without case.
pub fn str_eq_ignore_ascii_case(s: &str, t: &str) -> (res: bool)
    ensures
        res == eq_ignore_ascii_case(s@, t@),
{
    let a = crate::text::chars_of(s);
    let b = crate::text::chars_of(t);
    if a.len() != b.len() {
        return false;
    }
    let mut i: usize = 0;
    while i < a.len()
        invariant
            a@ == s@,
            b@ == t@,
            a@.len() == b@.len(),
            i <= a@.len(),
            forall|k: int| 0 <= k < i ==> #[trigger] ascii_lower(a@[k]) == ascii_lower(b@[k]),
        decreases a@.len() - i,
    {
        if to_ascii_lower(a[i]) != to_ascii_lower(b[i]) {
            return false;
        }
        i = i + 1;
    }
    true
}

// ---------------------------------------------------------------------------
// Timeout
// ---------------------------------------------------------------------------

/// How long a function may run, in seconds.
#[derive(Clone, Copy, Debug, PartialEq, Eq)]
pub struct Timeout(u32);

impl View for Timeout {
    type V = u32;

    closed spec fn view(&self) -> u32 {
        self.0
    }
}

/// The seconds of a `Duration` made from a whole number of seconds (`Duration::from_secs`).
pub uninterp spec fn duration_of_secs(secs: u64) -> std::time::Duration;

/// `Duration::from_secs`: the duration of `secs` whole seconds.
#[verifier::external_body]
fn duration_from_secs(secs: u64) -> (d: std::time::Duration)
    ensures
        d == duration_of_secs(secs),
{
    std::time::Duration::from_secs(secs)
}

impl Timeout {
    /// A timeout of `i` seconds.
    pub fn new(i: u32) -> (res: Timeout)
        ensures
            res@ == i,
    {
        Timeout(i)
    }

    /// The default timeout, thirty seconds.
    pub fn default() -> (res: Timeout)
        ensures
            res@ == 30,
    {
        Timeout(30)
    }

    /// Whether the timeout is zero.
    pub fn is_zero(&self) -> (res: bool)
        ensures
            res == (self@ == 0),
    {
        self.0 == 0
    }

    /// The timeout as a duration.
    pub fn duration(&self) -> (res: std::time::Duration)
        ensures
            res == duration_of_secs(self@ as u64),
    {
        duration_from_secs(self.0 as u64)
    }

    /// The seconds, as written by `Display`.
    pub fn to_string(&self) -> (res: String)
        ensures
            res@ == decimal(self@ as nat),
    {
        crate::number::u64_to_string(self.0 as u64)
    }

    /// Reads a number of seconds, as `FromStr` does.
    pub fn from_str(t: &str) -> (res: Result<Timeout, MetadataError>)
        ensures
            match res {
                Ok(v) => parse_unsigned(t@) == Some(v@ as nat),
                Err(e) => !(parse_unsigned(t@) is Some && parse_unsigned(t@)->0 <= u32::MAX)
                    && e is InvalidTimeout,
            },
    {
        match crate::number::parse_u32(t) {
            Some(v) => Ok(Timeout(v)),
            None => Err(MetadataError::InvalidTimeout),
        }
    }

    /// The seconds.
    pub fn seconds(&self) -> (res: u32)
        ensures
            res == self@,
    {
        self.0
    }

    /// The seconds as an `i32`, wrapping as `as` does.
    pub fn to_i32(&self) -> (res: i32)
        ensures
            res == self@ as i32,
    {
        self.0 as i32
    }

    /// A timeout from an `i32`, wrapping as `as` does.
    pub fn from(t: i32) -> (res: Timeout)
        ensures
            res@ == t as u32,
    {
        Timeout(t as u32)
    }
}

// ---------------------------------------------------------------------------
// Memory
// ---------------------------------------------------------------------------

/// The least memory size that Lambda accepts, in megabytes.
pub const MIN_MEMORY: i64 = 128;

/// The largest memory size that Lambda accepts, in megabytes.
pub const MAX_MEMORY: i64 = 10240;

/// Memory allocated to a function, in megabytes.
#[derive(Clone, Copy, Debug, PartialEq, Eq)]
pub struct Memory(u32);

impl View for Memory {
    type V = u32;

    closed spec fn view(&self) -> u32 {
        self.0
    }
}

/// What `Memory::from_str` reads: the number, in range, or the text of the error.
pub open spec fn memory_from_str(t: Seq<char>) -> Result<u32, Seq<char>> {
    match parse_signed(t) {
        Some(n) => if i64::MIN <= n <= i64::MAX {
            if MIN_MEMORY <= n <= MAX_MEMORY {
                Ok(n as u32)
            } else {
                Err(signed_decimal(n))
            }
        } else {
            Err(t)
        },
        None => Err(t),
    }
}

impl Memory {
    /// The megabytes, as written by `Display`.
    pub fn to_string(&self) -> (res: String)
        ensures
            res@ == decimal(self@ as nat),
    {
        crate::number::u64_to_string(self.0 as u64)
    }

    /// A memory size in range, from an `i64`.
    pub fn try_from(m: i64) -> (res: Result<Memory, MetadataError>)
        ensures
            match res {
                Ok(v) => MIN_MEMORY <= m <= MAX_MEMORY && v@ == m,
                Err(e) => {
                    &&& !(MIN_MEMORY <= m <= MAX_MEMORY)
                    &&& e matches MetadataError::InvalidMemory(s) && s@ == signed_decimal(m as int)
                },
            },
    {
        if m < MIN_MEMORY || m > MAX_MEMORY {
            return Err(MetadataError::InvalidMemory(crate::number::i64_to_string(m)));
        }
        Ok(Memory(m as u32))
    }

    /// Reads a memory size, as `FromStr` does.
    pub fn from_str(t: &str) -> (res: Result<Memory, MetadataError>)
        ensures
            match res {
                Ok(v) => memory_from_str(t@) == Ok::<u32, Seq<char>>(v@),
                Err(e) => memory_from_str(t@) matches Err(msg) && (e matches MetadataError::InvalidMemory(
                    s,
                ) && s@ == msg),
            },
    {
        match crate::number::parse_i64(t) {
            None => Err(MetadataError::InvalidMemory(crate::text::owned(t))),
            Some(n) => Memory::try_from(n),
        }
    }

    /// The megabytes as an `i32`.
    pub fn to_i32(&self) -> (res: i32)
        ensures
            res == self@ as i32,
    {
        self.0 as i32
    }

    /// A memory size from an `i32`, wrapping as `as` does.
    pub fn from(t: i32) -> (res: Memory)
        ensures
            res@ == t as u32,
    {
        Memory(t as u32)
    }
}

/// Reads memory sizes given on the command line.
#[derive(Clone, Copy, Debug)]
pub struct MemoryValueParser;

impl MemoryValueParser {
    /// Reads a memory size; `Err` holds the text when it is not one that Lambda accepts.
    pub fn parse_ref(&self, value: &str) -> (res: Result<Memory, String>)
        ensures
            match res {
                Ok(v) => memory_from_str(value@) == Ok::<u32, Seq<char>>(v@),
                Err(s) => memory_from_str(value@) is Err && s@ == value@,
            },
    {
        match Memory::from_str(value) {
            Ok(m) => Ok(m),
            Err(_) => Err(crate::text::owned(value)),
        }
    }
}

// ---------------------------------------------------------------------------
// Tracing
// ---------------------------------------------------------------------------

/// The X-Ray tracing mode of a function.
#[derive(Clone, Copy, Debug, PartialEq, Eq, Structural)]
pub enum Tracing {
    Active,
    PassThrough,
}

/// The name of a tracing mode.
pub open spec fn tracing_name(t: Tracing) -> Seq<char> {
    match t {
        Tracing::Active => seq!['A', 'c', 't', 'i', 'v', 'e'],
        Tracing::PassThrough => seq!['P', 'a', 's', 's', 'T', 'h', 'r', 'o', 'u', 'g', 'h'],
    }
}

/// The tracing mode that a name stands for, ignoring ASCII case.
pub open spec fn tracing_from_name(s: Seq<char>) -> Option<Tracing> {
    if eq_ignore_ascii_case(s, tracing_name(Tracing::Active)) {
        Some(Tracing::Active)
    } else if eq_ignore_ascii_case(s, tracing_name(Tracing::PassThrough)) {
        Some(Tracing::PassThrough)
    } else {
        None
    }
}

impl Tracing {
    /// The default mode, `PassThrough`.
    pub fn default() -> (res: Tracing)
        ensures
            res == Tracing::PassThrough,
    {
        Tracing::PassThrough
    }

    /// The name of the mode.
    pub fn as_str(&self) -> (res: &'static str)
        ensures
            res@ == tracing_name(*self),
    {
        match self {
            Tracing::Active => {
                let s = "Active";
                proof {
                    reveal_strlit("Active");
                }
                assert(s@ =~= tracing_name(Tracing::Active));
                s
            },
            Tracing::PassThrough => {
                let s = "PassThrough";
                proof {
                    reveal_strlit("PassThrough");
                }
                assert(s@ =~= tracing_name(Tracing::PassThrough));
                s
            },
        }
    }

    /// The name of the mode, as written by `Display`.
    pub fn to_string(&self) -> (res: String)
        ensures
            res@ == tracing_name(*self),
    {
        crate::text::owned(self.as_str())
    }

    /// Reads a mode from its name, ignoring ASCII case.
    pub fn try_from(s: &str) -> (res: Result<Tracing, MetadataError>)
        ensures
            match res {
                Ok(t) => tracing_from_name(s@) == Some(t),
                Err(e) => {
                    &&& tracing_from_name(s@) is None
                    &&& e matches MetadataError::InvalidTracing(m) && m@ == s@
                },
            },
    {
        if str_eq_ignore_ascii_case(s, Tracing::Active.as_str()) {
            Ok(Tracing::Active)
        } else if str_eq_ignore_ascii_case(s, Tracing::PassThrough.as_str()) {
            Ok(Tracing::PassThrough)
        } else {
            Err(MetadataError::InvalidTracing(crate::text::owned(s)))
        }
    }
}

// ---------------------------------------------------------------------------
// Laws
// ---------------------------------------------------------------------------

/// Reading back the name of a tracing mode gives the same mode.
pub proof fn law_tracing_name_round_trip(t: Tracing)
    ensures
        tracing_from_name(tracing_name(t)) == Some(t),
{
    let a = tracing_name(Tracing::Active);
    let p = tracing_name(Tracing::PassThrough);
    assert(ascii_lower(a[0]) != ascii_lower(p[0]));
    assert(a.len() != p.len());
}

/// A timeout written out reads back as the same timeout.
pub proof fn law_timeout_round_trip(t: u32)
    ensures
        parse_unsigned(decimal(t as nat)) == Some(t as nat),
{
    crate::number::lemma_parse_decimal(t as nat);
}

/// A memory size that Lambda accepts, written out, reads back as the same size.
pub proof fn law_memory_round_trip(m: u32)
    requires
        MIN_MEMORY <= m <= MAX_MEMORY,
    ensures
        memory_from_str(decimal(m as nat)) == Ok::<u32, Seq<char>>(m),
{
    crate::number::lemma_parse_decimal(m as nat);
}

} // verus!
