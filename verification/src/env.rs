//! Reading configuration values: trimming, booleans and numbers.

use vstd::prelude::*;
use crate::text::{ascii_lowercase, chars_of, str_eq, to_ascii_lowercase, trim, trimmed};

verus! {

/// The text of an optional string.
pub open spec fn opt_view(o: Option<String>) -> Option<Seq<char>> {
    match o {
        Some(s) => Some(s@),
        None => None,
    }
}

/// A configuration value as the resolver reads it: trimmed, and absent
/// when nothing but whitespace is left.
pub open spec fn env_text(raw: Option<String>) -> Option<Seq<char>> {
    match raw {
        Some(v) => if trimmed(v@).len() > 0 {
            Some(trimmed(v@))
        } else {
            None
        },
        None => None,
    }
}

/// The trimmed value of a variable, absent when empty.
pub fn optional_value(raw: &Option<String>) -> (r: Option<String>)
    ensures
        opt_view(r) == env_text(*raw),
{
    match raw {
        Some(v) => {
            let t = trim(v.as_str());
            if t.as_str().is_empty() {
                None
            } else {
                Some(t)
            }
        },
        None => None,
    }
}

/// The boolean that a word names, case aside: `1`, `true`, `yes`, `on`
/// and `0`, `false`, `no`, `off`.
pub open spec fn bool_word(s: Seq<char>) -> Option<bool> {
    let l = ascii_lowercase(s);
    if l == "1"@ || l == "true"@ || l == "yes"@ || l == "on"@ {
        Some(true)
    } else if l == "0"@ || l == "false"@ || l == "no"@ || l == "off"@ {
        Some(false)
    } else {
        None
    }
}

/// The boolean that a word names, if any.
pub fn parse_bool_word(s: &str) -> (r: Option<bool>)
    ensures
        r == bool_word(s@),
{
    let l = to_ascii_lowercase(s);
    let t = l.as_str();
    if str_eq(t, "1") || str_eq(t, "true") || str_eq(t, "yes") || str_eq(t, "on") {
        Some(true)
    } else if str_eq(t, "0") || str_eq(t, "false") || str_eq(t, "no") || str_eq(t, "off") {
        Some(false)
    } else {
        None
    }
}

/// The value of a variable, or `default` when it is unset or empty.
pub fn value_or(raw: &Option<String>, default: &str) -> (r: String)
    ensures
        r@ == match env_text(*raw) {
            Some(v) => v,
            None => default@,
        },
{
    match optional_value(raw) {
        Some(v) => v,
        None => crate::text::owned(default),
    }
}


/// Why text is not an unsigned integer.
#[derive(Clone, Copy, Debug, PartialEq, Eq, Structural)]
pub enum IntErrorKind {
    Empty,
    InvalidDigit,
    PosOverflow,
}

/// The message of each integer parse error.
pub open spec fn int_error_text(k: IntErrorKind) -> Seq<char> {
    match k {
        IntErrorKind::Empty => "cannot parse integer from empty string"@,
        IntErrorKind::InvalidDigit => "invalid digit found in string"@,
        IntErrorKind::PosOverflow => "number too large to fit in target type"@,
    }
}

/// The message of an integer parse error.
pub fn int_error_message(k: IntErrorKind) -> (r: String)
    ensures
        r@ == int_error_text(k),
{
    match k {
        IntErrorKind::Empty => crate::text::owned("cannot parse integer from empty string"),
        IntErrorKind::InvalidDigit => crate::text::owned("invalid digit found in string"),
        IntErrorKind::PosOverflow => crate::text::owned("number too large to fit in target type"),
    }
}

/// The value of a digit in a radix: `0`-`9`, then letters of either case.
pub open spec fn digit_value(c: char, radix: nat) -> Option<nat> {
    let d: int = if '0' <= c && c <= '9' {
        c as int - 48
    } else if 'a' <= c && c <= 'z' {
        c as int - 97 + 10
    } else if 'A' <= c && c <= 'Z' {
        c as int - 65 + 10
    } else {
        36
    };
    if d < radix {
        Some(d as nat)
    } else {
        None
    }
}

/// Reading digits from the left: the value so far, or the first error.
pub open spec fn scan_digits(d: Seq<char>, radix: nat, max: nat) -> Result<nat, IntErrorKind>
    decreases d.len(),
{
    if d.len() == 0 {
        Ok(0)
    } else {
        match scan_digits(d.drop_last(), radix, max) {
            Err(e) => Err(e),
            Ok(acc) => match digit_value(d.last(), radix) {
                None => Err(IntErrorKind::InvalidDigit),
                Some(x) => if acc * radix + x > max {
                    Err(IntErrorKind::PosOverflow)
                } else {
                    Ok(acc * radix + x)
                },
            },
        }
    }
}

/// An unsigned integer in a radix, as `from_str_radix` reads it: an
/// optional `+`, then digits, no larger than `max`.
pub open spec fn parse_unsigned_spec(s: Seq<char>, radix: nat, max: nat) -> Result<nat, IntErrorKind> {
    if s.len() == 0 {
        Err(IntErrorKind::Empty)
    } else if s.len() == 1 && (s[0] == '+' || s[0] == '-') {
        Err(IntErrorKind::InvalidDigit)
    } else if s[0] == '+' {
        scan_digits(s.drop_first(), radix, max)
    } else {
        scan_digits(s, radix, max)
    }
}

fn digit_of(c: char, radix: u32) -> (r: Option<u32>)
    requires
        2 <= radix <= 36,
    ensures
        match digit_value(c, radix as nat) {
            Some(d) => r == Some(d as u32),
            None => r is None,
        },
{
    let d: u32 = if '0' <= c && c <= '9' {
        (c as u32) - 48
    } else if 'a' <= c && c <= 'z' {
        (c as u32) - 97 + 10
    } else if 'A' <= c && c <= 'Z' {
        (c as u32) - 65 + 10
    } else {
        36
    };
    if d < radix {
        Some(d)
    } else {
        None
    }
}

/// Reads an unsigned integer in a radix, no larger than `max`.
pub fn parse_unsigned(s: &str, radix: u32, max: u64) -> (r: Result<u64, IntErrorKind>)
    requires
        2 <= radix <= 36,
    ensures
        match r {
            Ok(v) => parse_unsigned_spec(s@, radix as nat, max as nat) == Ok::<nat, IntErrorKind>(v as nat),
            Err(e) => parse_unsigned_spec(s@, radix as nat, max as nat) == Err::<nat, IntErrorKind>(e),
        },
{
    let v = chars_of(s);
    let n = v.len();
    if n == 0 {
        return Err(IntErrorKind::Empty);
    }
    if n == 1 && (v[0] == '+' || v[0] == '-') {
        return Err(IntErrorKind::InvalidDigit);
    }
    let start: usize = if v[0] == '+' { 1 } else { 0 };
    let ghost d = if v@[0] == '+' { s@.drop_first() } else { s@ };
    assert(d =~= s@.skip(start as int));
    assert(parse_unsigned_spec(s@, radix as nat, max as nat) == scan_digits(d, radix as nat, max as nat));
    let mut acc: u64 = 0;
    let mut i: usize = start;
    assert(d.take(0) =~= Seq::<char>::empty());
    while i < n
        invariant
            v@ == s@,
            n == v@.len(),
            start <= i <= n,
            d == s@.skip(start as int),
            parse_unsigned_spec(s@, radix as nat, max as nat) == scan_digits(d, radix as nat, max as nat),
            2 <= radix <= 36,
            acc <= max,
            scan_digits(d.take((i - start) as int), radix as nat, max as nat) == Ok::<nat, IntErrorKind>(acc as nat),
        decreases n - i,
    {
        let ghost pre = d.take((i - start) as int);
        let ghost next = d.take((i - start + 1) as int);
        assert(next.drop_last() =~= pre);
        assert(next.last() == v@[i as int]);
        match digit_of(v[i], radix) {
            None => {
                assert(scan_digits(next, radix as nat, max as nat) == Err::<nat, IntErrorKind>(IntErrorKind::InvalidDigit));
                proof {
                    lemma_scan_error_sticks(d, (i - start + 1) as int, radix as nat, max as nat);
                }
                return Err(IntErrorKind::InvalidDigit);
            },
            Some(x) => {
                assert((acc as u128) * (radix as u128) <= (max as u128) * 36) by (nonlinear_arith)
                    requires
                        acc <= max,
                        radix <= 36,
                ;
                let wide: u128 = (acc as u128) * (radix as u128) + (x as u128);
                if wide > max as u128 {
                    assert(scan_digits(next, radix as nat, max as nat) == Err::<nat, IntErrorKind>(IntErrorKind::PosOverflow));
                    proof {
                        lemma_scan_error_sticks(d, (i - start + 1) as int, radix as nat, max as nat);
                    }
                    return Err(IntErrorKind::PosOverflow);
                }
                acc = wide as u64;
            },
        }
        i = i + 1;
    }
    assert(d.take((n - start) as int) =~= d);
    Ok(acc)
}

/// Once reading digits fails, reading more keeps the error.
proof fn lemma_scan_error_sticks(d: Seq<char>, k: int, radix: nat, max: nat)
    requires
        0 <= k <= d.len(),
        scan_digits(d.take(k), radix, max) is Err,
    ensures
        scan_digits(d, radix, max) == scan_digits(d.take(k), radix, max),
    decreases d.len() - k,
{
    if k < d.len() {
        let next = d.take(k + 1);
        assert(next.drop_last() =~= d.take(k));
        lemma_scan_error_sticks(d, k + 1, radix, max);
    } else {
        assert(d.take(k) =~= d);
    }
}

} // verus!
