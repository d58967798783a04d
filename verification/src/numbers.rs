//! Unsigned integer parsing with the semantics of Rust's
//! `from_str_radix`: an optional leading `+`, then at least one digit of
//! the radix; digits are read left to right and the first invalid digit or
//! the first overflow decides the error.

use vstd::prelude::*;
use vstd::string::*;
use crate::text::push_str;

verus! {

/// Why an integer did not parse.
#[derive(Debug, Clone, Copy, PartialEq, Eq, Structural)]
pub enum IntErrorKind {
    /// The text was empty.
    Empty,
    /// A character is not a digit of the radix.
    InvalidDigit,
    /// The value does not fit the target type.
    PosOverflow,
}

impl IntErrorKind {
    /// The description Rust gives each kind.
    pub open spec fn spec_message(self) -> Seq<char> {
        match self {
            IntErrorKind::Empty => "cannot parse integer from empty string"@,
            IntErrorKind::InvalidDigit => "invalid digit found in string"@,
            IntErrorKind::PosOverflow => "number too large to fit in target type"@,
        }
    }

    /// Human-readable description of the error.
    pub fn message(&self) -> (res: String)
        ensures
            res@ == self.spec_message(),
    {
        let mut s = String::new();
        match self {
            IntErrorKind::Empty => push_str(&mut s, "cannot parse integer from empty string"),
            IntErrorKind::InvalidDigit => push_str(&mut s, "invalid digit found in string"),
            IntErrorKind::PosOverflow => push_str(&mut s, "number too large to fit in target type"),
        }
        assert(s@ =~= self.spec_message());
        s
    }
}

/// The value of a character as a digit of `radix` (at most 36): `0`–`9`,
/// then letters of either case.
pub open spec fn spec_digit_value(c: char, radix: nat) -> Option<nat> {
    let v: int = if '0' <= c <= '9' {
        c as int - 48
    } else if 'a' <= c <= 'z' {
        c as int - 87
    } else if 'A' <= c <= 'Z' {
        c as int - 55
    } else {
        99
    };
    if v < radix {
        Some(v as nat)
    } else {
        None
    }
}

/// Reading digits left to right: the value so far, or the first error.
pub open spec fn spec_scan_digits(s: Seq<char>, radix: nat, max: nat) -> Result<nat, IntErrorKind>
    decreases s.len(),
{
    if s.len() == 0 {
        Ok(0)
    } else {
        match spec_scan_digits(s.drop_last(), radix, max) {
            Err(e) => Err(e),
            Ok(v) => match spec_digit_value(s.last(), radix) {
                None => Err(IntErrorKind::InvalidDigit),
                Some(d) => if v * radix + d > max {
                    Err(IntErrorKind::PosOverflow)
                } else {
                    Ok(v * radix + d)
                },
            },
        }
    }
}

/// `from_str_radix` for an unsigned type whose largest value is `max`.
pub open spec fn spec_parse_uint(s: Seq<char>, radix: nat, max: nat) -> Result<nat, IntErrorKind> {
    if s.len() == 0 {
        Err(IntErrorKind::Empty)
    } else if s[0] == '+' {
        if s.len() == 1 {
            Err(IntErrorKind::InvalidDigit)
        } else {
            spec_scan_digits(s.drop_first(), radix, max)
        }
    } else {
        spec_scan_digits(s, radix, max)
    }
}

/// The characters of a string.
pub fn chars_of(s: &str) -> (res: Vec<char>)
    ensures
        res@ == s@,
{
    let n = s.unicode_len();
    let mut v: Vec<char> = Vec::new();
    let mut i: usize = 0;
    while i < n
        invariant
            n == s@.len(),
            i <= n,
            v@ == s@.take(i as int),
        decreases n - i,
    {
        let c = s.get_char(i);
        v.push(c);
        assert(s@.take(i + 1) =~= s@.take(i as int).push(c));
        i = i + 1;
    }
    assert(s@.take(n as int) =~= s@);
    v
}

/// A string holding these characters.
pub fn string_of(cs: &[char]) -> (res: String)
    ensures
        res@ == cs@,
{
    let mut s = String::new();
    let mut i: usize = 0;
    while i < cs.len()
        invariant
            i <= cs@.len(),
            s@ == cs@.take(i as int),
        decreases cs@.len() - i,
    {
        crate::text::push_char(&mut s, cs[i]);
        assert(cs@.take(i + 1) =~= cs@.take(i as int).push(cs@[i as int]));
        i = i + 1;
    }
    assert(cs@.take(i as int) =~= cs@);
    s
}

/// The value of one digit character.
fn digit_value(c: char, radix: u32) -> (res: Option<u32>)
    requires
        radix <= 36,
    ensures
        res matches Some(d) ==> spec_digit_value(c, radix as nat) == Some(d as nat),
        res is None ==> spec_digit_value(c, radix as nat) is None,
{
    let v: u32 = if '0' <= c && c <= '9' {
        (c as u32) - 48
    } else if 'a' <= c && c <= 'z' {
        (c as u32) - 87
    } else if 'A' <= c && c <= 'Z' {
        (c as u32) - 55
    } else {
        99
    };
    if v < radix {
        Some(v)
    } else {
        None
    }
}

/// Parses `s` as an unsigned integer of `radix` whose largest value is
/// `max`, as `from_str_radix` does.
pub fn parse_uint(s: &[char], radix: u32, max: u64) -> (res: Result<u64, IntErrorKind>)
    requires
        2 <= radix <= 36,
    ensures
        match spec_parse_uint(s@, radix as nat, max as nat) {
            Ok(v) => res == Ok::<u64, IntErrorKind>(v as u64),
            Err(e) => res == Err::<u64, IntErrorKind>(e),
        },
{
    if s.len() == 0 {
        return Err(IntErrorKind::Empty);
    }
    let start: usize = if s[0] == '+' {
        if s.len() == 1 {
            return Err(IntErrorKind::InvalidDigit);
        }
        1
    } else {
        0
    };
    let ghost digits = s@.skip(start as int);
    assert(start == 1 ==> digits =~= s@.drop_first());
    assert(start == 0 ==> digits =~= s@);
    let mut value: u128 = 0;
    let mut i: usize = start;
    while i < s.len()
        invariant
            start <= i <= s@.len(),
            2 <= radix <= 36,
            digits == s@.skip(start as int),
            s@.len() > 0,
            start == 1 ==> digits == s@.drop_first() && s@[0] == '+' && s@.len() > 1,
            start == 0 ==> digits == s@ && s@[0] != '+',
            start <= 1,
            spec_scan_digits(digits.take(i - start), radix as nat, max as nat) == Ok::<nat, IntErrorKind>(value as nat),
            value <= max,
        decreases s@.len() - i,
    {
        let ghost pre = digits.take(i - start);
        assert(digits.take(i + 1 - start).drop_last() =~= pre);
        assert(digits.take(i + 1 - start).last() == s@[i as int]);
        match digit_value(s[i], radix) {
            None => {
                proof {
                    assert(spec_scan_digits(digits.take(i + 1 - start), radix as nat, max as nat) == Err::<nat, IntErrorKind>(IntErrorKind::InvalidDigit));
                    lemma_scan_error_sticks(digits, (i + 1 - start) as nat, radix as nat, max as nat);
                }
                return Err(IntErrorKind::InvalidDigit);
            },
            Some(d) => {
                assert(value * (radix as u128) <= 0xffff_ffff_ffff_ffffu128 * 36) by (nonlinear_arith)
                    requires
                        value <= 0xffff_ffff_ffff_ffffu128,
                        radix <= 36,
                ;
                let next: u128 = value * (radix as u128) + (d as u128);
                if next > max as u128 {
                    proof {
                        assert(spec_scan_digits(digits.take(i + 1 - start), radix as nat, max as nat) == Err::<nat, IntErrorKind>(IntErrorKind::PosOverflow));
                        lemma_scan_error_sticks(digits, (i + 1 - start) as nat, radix as nat, max as nat);
                    }
                    return Err(IntErrorKind::PosOverflow);
                }
                value = next;
            },
        }
        i = i + 1;
    }
    assert(digits.take(i - start) =~= digits);
    if start == 1 {
        assert(digits =~= s@.drop_first());
    } else {
        assert(digits =~= s@);
    }
    Ok(value as u64)
}

/// Once the scan of a prefix fails, the scan of the whole fails the same
/// way.
proof fn lemma_scan_error_sticks(s: Seq<char>, k: nat, radix: nat, max: nat)
    requires
        k <= s.len(),
        spec_scan_digits(s.take(k as int), radix, max) is Err,
    ensures
        spec_scan_digits(s, radix, max) == spec_scan_digits(s.take(k as int), radix, max),
    decreases s.len() - k,
{
    if k < s.len() {
        assert(s.take(k + 1 as int).drop_last() =~= s.take(k as int));
        lemma_scan_error_sticks(s, k + 1, radix, max);
    } else {
        assert(s.take(k as int) =~= s);
    }
}

/// `u8::from_str`: a decimal `u8`.
pub fn parse_u8(s: &[char]) -> (res: Result<u8, IntErrorKind>)
    ensures
        match spec_parse_uint(s@, 10, 255) {
            Ok(v) => res == Ok::<u8, IntErrorKind>(v as u8),
            Err(e) => res == Err::<u8, IntErrorKind>(e),
        },
{
    match parse_uint(s, 10, 255) {
        Ok(v) => Ok(v as u8),
        Err(e) => Err(e),
    }
}

/// `u16::from_str`: a decimal `u16`.
pub fn parse_u16(s: &[char]) -> (res: Result<u16, IntErrorKind>)
    ensures
        match spec_parse_uint(s@, 10, 0xffff) {
            Ok(v) => res == Ok::<u16, IntErrorKind>(v as u16),
            Err(e) => res == Err::<u16, IntErrorKind>(e),
        },
{
    match parse_uint(s, 10, 0xffff) {
        Ok(v) => Ok(v as u16),
        Err(e) => Err(e),
    }
}

/// `u32::from_str`: a decimal `u32`.
pub fn parse_u32(s: &[char]) -> (res: Result<u32, IntErrorKind>)
    ensures
        match spec_parse_uint(s@, 10, 0xffff_ffff) {
            Ok(v) => res == Ok::<u32, IntErrorKind>(v as u32),
            Err(e) => res == Err::<u32, IntErrorKind>(e),
        },
{
    match parse_uint(s, 10, 0xffff_ffff) {
        Ok(v) => Ok(v as u32),
        Err(e) => Err(e),
    }
}

/// `usize::from_str`: a decimal `usize`.
pub fn parse_usize(s: &[char]) -> (res: Result<usize, IntErrorKind>)
    ensures
        match spec_parse_uint(s@, 10, usize::MAX as nat) {
            Ok(v) => res == Ok::<usize, IntErrorKind>(v as usize),
            Err(e) => res == Err::<usize, IntErrorKind>(e),
        },
{
    match parse_uint(s, 10, usize::MAX as u64) {
        Ok(v) => Ok(v as usize),
        Err(e) => Err(e),
    }
}

} // verus!
