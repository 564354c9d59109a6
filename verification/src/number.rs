//! Decimal rendering and parsing of integers, as `Display` and `FromStr` do them.
use vstd::prelude::*;

verus! {

/// The character of the decimal digit `d`.
pub open spec fn digit_char(d: nat) -> char
    recommends
        d < 10,
{
    (('0' as u32) + d) as char
}

/// Whether `c` is an ASCII decimal digit.
pub open spec fn is_digit(c: char) -> bool {
    '0' as u32 <= c as u32 <= '9' as u32
}

/// The value of the digit character `c`.
pub open spec fn digit_value(c: char) -> nat {
    ((c as u32) - ('0' as u32)) as nat
}

/// The decimal representation of `n`, without sign or leading zeros.
pub open spec fn decimal(n: nat) -> Seq<char>
    decreases n,
{
    if n < 10 {
        seq![digit_char(n)]
    } else {
        decimal(n / 10).push(digit_char(n % 10))
    }
}

/// All characters of `s` are decimal digits.
pub open spec fn all_digits(s: Seq<char>) -> bool {
    forall|i: int| 0 <= i < s.len() ==> is_digit(#[trigger] s[i])
}

/// The value of the digit string `s`, most significant digit first.
pub open spec fn digits_value(s: Seq<char>) -> nat
    decreases s.len(),
{
    if s.len() == 0 {
        0
    } else {
        digits_value(s.drop_last()) * 10 + digit_value(s.last())
    }
}

/// What `u32::from_str`, `u64::from_str` and the like read from `s`, before the range check:
/// an optional `+` followed by at least one digit.
pub open spec fn parse_unsigned(s: Seq<char>) -> Option<nat> {
    let d = if s.len() > 0 && s[0] == '+' {
        s.drop_first()
    } else {
        s
    };
    if d.len() > 0 && all_digits(d) {
        Some(digits_value(d))
    } else {
        None
    }
}

/// What `i64::from_str` and the like read from `s`, before the range check:
/// an optional `+` or `-` followed by at least one digit.
pub open spec fn parse_signed(s: Seq<char>) -> Option<int> {
    if s.len() > 0 && s[0] == '-' {
        let d = s.drop_first();
        if d.len() > 0 && all_digits(d) {
            Some(-(digits_value(d) as int))
        } else {
            None
        }
    } else {
        match parse_unsigned(s) {
            Some(v) => Some(v as int),
            None => None,
        }
    }
}

/// The decimal rendering of `n` reads back as `n`.
pub proof fn lemma_decimal_digits(n: nat)
    ensures
        decimal(n).len() > 0,
        all_digits(decimal(n)),
        digits_value(decimal(n)) == n,
        decimal(n)[0] != '+' && decimal(n)[0] != '-',
    decreases n,
{
    if n < 10 {
        assert(digit_value(digit_char(n)) == n);
        assert(decimal(n).drop_last() =~= Seq::<char>::empty());
        assert(digits_value(Seq::<char>::empty()) == 0);
        assert(digits_value(decimal(n)) == n);
    }
    if n >= 10 {
        lemma_decimal_digits(n / 10);
        let d = decimal(n / 10);
        assert(decimal(n).drop_last() =~= d);
        assert(decimal(n).last() == digit_char(n % 10));
        assert(digit_value(digit_char(n % 10)) == n % 10);
        assert(n == (n / 10) * 10 + n % 10);
        assert(digits_value(decimal(n)) == digits_value(d) * 10 + digit_value(decimal(n).last()));
        assert forall|i: int| 0 <= i < decimal(n).len() implies is_digit(
            #[trigger] decimal(n)[i],
        ) by {
            if i < d.len() {
                assert(decimal(n)[i] == d[i]);
            }
        }
        assert(decimal(n)[0] == d[0]);
    }
}

/// Parsing the decimal rendering of `n` gives `n` back.
pub proof fn lemma_parse_decimal(n: nat)
    ensures
        parse_unsigned(decimal(n)) == Some(n),
        parse_signed(decimal(n)) == Some(n as int),
{
    lemma_decimal_digits(n);
}

/// Appending digits never lowers the value of a digit string.
pub proof fn lemma_digits_value_prefix(s: Seq<char>, k: int)
    requires
        0 <= k <= s.len(),
    ensures
        digits_value(s.take(k)) <= digits_value(s),
    decreases s.len() - k,
{
    if k < s.len() {
        lemma_digits_value_prefix(s, k + 1);
        assert(s.take(k + 1).drop_last() =~= s.take(k));
    } else {
        assert(s.take(k) =~= s);
    }
}

/// The character of the digit `d`.
pub fn digit_to_char(d: u64) -> (c: char)
    requires
        d < 10,
    ensures
        c == digit_char(d as nat),
{
    match d {
        0 => '0',
        1 => '1',
        2 => '2',
        3 => '3',
        4 => '4',
        5 => '5',
        6 => '6',
        7 => '7',
        8 => '8',
        _ => '9',
    }
}

/// Appends the decimal digits of `n` to `out`.
pub fn push_decimal(n: u64, out: &mut Vec<char>)
    ensures
        final(out)@ == old(out)@ + decimal(n as nat),
    decreases n,
{
    if n >= 10 {
        push_decimal(n / 10, out);
    }
    out.push(digit_to_char(n % 10));
    proof {
        if n >= 10 {
            assert(old(out)@ + decimal(n as nat) =~= old(out)@ + decimal((n / 10) as nat) + seq![
                digit_char((n % 10) as nat)]);
        } else {
            assert(old(out)@ + decimal(n as nat) =~= old(out)@ + seq![digit_char(n as nat)]);
        }
    }
}

/// The decimal characters of `n`.
pub fn decimal_chars(n: u64) -> (res: Vec<char>)
    ensures
        res@ == decimal(n as nat),
{
    let mut out: Vec<char> = Vec::new();
    push_decimal(n, &mut out);
    assert(out@ =~= decimal(n as nat));
    out
}

/// Reads a non-empty string of digits; `None` when it holds another character or its value
/// exceeds `bound`.
pub fn read_digits(v: &[char], lo: usize, bound: u64) -> (res: Option<u64>)
    requires
        lo <= v@.len(),
    ensures
        match res {
            Some(x) => {
                &&& v@.len() > lo
                &&& all_digits(v@.skip(lo as int))
                &&& x as nat == digits_value(v@.skip(lo as int))
                &&& x <= bound
            },
            None => !(v@.len() > lo && all_digits(v@.skip(lo as int)) && digits_value(
                v@.skip(lo as int),
            ) <= bound),
        },
{
    let n = v.len();
    if lo >= n {
        return None;
    }
    let ghost d = v@.skip(lo as int);
    let mut acc: u64 = 0;
    let mut i: usize = lo;
    while i < n
        invariant
            n == v@.len(),
            lo <= i <= n,
            d == v@.skip(lo as int),
            all_digits(d.take(i - lo)),
            acc as nat == digits_value(d.take(i - lo)),
            acc <= bound,
        decreases n - i,
    {
        let c = v[i];
        assert(d[i - lo] == c);
        let u = c as u32;
        if u < 48 || u > 57 {
            return None;
        }
        let dv = (u - 48) as u64;
        assert(d.take(i - lo + 1).drop_last() =~= d.take(i - lo));
        assert(d.take(i - lo + 1).last() == c);
        assert(digit_value(c) == dv);
        if dv > bound || acc > (bound - dv) / 10 {
            proof {
                lemma_digits_value_prefix(d, i - lo + 1);
                assert(acc * 10 + dv > bound) by (nonlinear_arith)
                    requires
                        dv > bound || acc > (bound - dv) / 10,
                ;
            }
            return None;
        }
        assert(acc * 10 + dv <= bound) by (nonlinear_arith)
            requires
                dv <= bound,
                acc <= (bound - dv) / 10,
        ;
        acc = acc * 10 + dv;
        assert forall|k: int| 0 <= k < i - lo + 1 implies is_digit(#[trigger] d.take(i - lo + 1)[k]) by {
            if k < i - lo {
                assert(d.take(i - lo + 1)[k] == d.take(i - lo)[k]);
            }
        }
        i = i + 1;
    }
    assert(d.take(n - lo) =~= d);
    Some(acc)
}

/// `u32::from_str`: an optional `+`, then decimal digits, within the range of `u32`.
pub fn parse_u32(s: &str) -> (res: Option<u32>)
    ensures
        match res {
            Some(x) => parse_unsigned(s@) == Some(x as nat),
            None => !(parse_unsigned(s@) is Some && parse_unsigned(s@)->0 <= u32::MAX),
        },
{
    let v = crate::text::chars_of(s);
    let lo: usize = if v.len() > 0 && v[0] == '+' {
        1
    } else {
        0
    };
    proof {
        if lo == 1 {
            assert(v@.skip(1) =~= s@.drop_first());
        } else {
            assert(v@.skip(0) =~= s@);
        }
    }
    match read_digits(v.as_slice(), lo, u32::MAX as u64) {
        Some(x) => Some(x as u32),
        None => None,
    }
}

/// `i64::from_str`: an optional sign, then decimal digits, within the range of `i64`.
pub fn parse_i64(s: &str) -> (res: Option<i64>)
    ensures
        match res {
            Some(x) => parse_signed(s@) == Some(x as int),
            None => !(parse_signed(s@) is Some && i64::MIN <= parse_signed(s@)->0 <= i64::MAX),
        },
{
    let v = crate::text::chars_of(s);
    if v.len() > 0 && v[0] == '-' {
        assert(v@.skip(1) =~= s@.drop_first());
        match read_digits(v.as_slice(), 1, 9223372036854775808u64) {
            Some(x) => {
                if x == 9223372036854775808u64 {
                    Some(i64::MIN)
                } else {
                    Some(-(x as i64))
                }
            },
            None => None,
        }
    } else {
        let lo: usize = if v.len() > 0 && v[0] == '+' {
            1
        } else {
            0
        };
        proof {
            if lo == 1 {
                assert(v@.skip(1) =~= s@.drop_first());
            } else {
                assert(v@.skip(0) =~= s@);
            }
        }
        match read_digits(v.as_slice(), lo, i64::MAX as u64) {
            Some(x) => Some(x as i64),
            None => None,
        }
    }
}

/// The decimal rendering of `n` as a string, as `Display` writes it.
pub fn u64_to_string(n: u64) -> (res: String)
    ensures
        res@ == decimal(n as nat),
{
    let v = decimal_chars(n);
    crate::text::string_of(v.as_slice())
}

/// The rendering of `n` as `Display` writes a signed integer.
pub open spec fn signed_decimal(n: int) -> Seq<char> {
    if n < 0 {
        seq!['-'] + decimal((-n) as nat)
    } else {
        decimal(n as nat)
    }
}

/// The decimal rendering of the signed integer `n`.
pub fn i64_to_string(n: i64) -> (res: String)
    ensures
        res@ == signed_decimal(n as int),
{
    let mut out: Vec<char> = Vec::new();
    if n < 0 {
        out.push('-');
        let m: u64 = if n == i64::MIN {
            9223372036854775808u64
        } else {
            (-n) as u64
        };
        push_decimal(m, &mut out);
    } else {
        push_decimal(n as u64, &mut out);
    }
    assert(out@ =~= signed_decimal(n as int));
    crate::text::string_of(out.as_slice())
}

} // verus!
