//! The value syntax of the command line: bytes in hexadecimal, binary or
//! decimal, I2C addresses, hex strings, comma-separated byte lists, and
//! the `--op` strings of batch commands.

use vstd::prelude::*;
use vstd::string::*;
use crate::numbers::{IntErrorKind, spec_parse_uint, parse_uint, parse_u16, parse_u32, chars_of};
use crate::text::{push_str, push_char, push_decimal, spec_decimal};
use crate::batch::{BatchOpModel, I2cBatchOp, SpiBatchOp, i2c_ops_model, spi_ops_model};

verus! {

/// Whether `s` begins with `prefix`.
pub open spec fn spec_starts_with(s: Seq<char>, prefix: Seq<char>) -> bool {
    prefix.len() <= s.len() && s.take(prefix.len() as int) == prefix
}

/// Whether `s` begins with `prefix`, as characters.
pub fn starts_with(s: &[char], prefix: &str) -> (res: bool)
    ensures
        res == spec_starts_with(s@, prefix@),
{
    let p = chars_of(prefix);
    if p.len() > s.len() {
        return false;
    }
    let mut i: usize = 0;
    while i < p.len()
        invariant
            p@ == prefix@,
            p@.len() <= s@.len(),
            i <= p@.len(),
            s@.take(i as int) == p@.take(i as int),
        decreases p@.len() - i,
    {
        if s[i] != p[i] {
            assert(s@.take(p@.len() as int)[i as int] != p@[i as int]);
            return false;
        }
        assert(s@.take(i + 1) =~= s@.take(i as int).push(s@[i as int]));
        assert(p@.take(i + 1) =~= p@.take(i as int).push(p@[i as int]));
        i = i + 1;
    }
    assert(p@.take(i as int) =~= p@);
    true
}

/// The characters of `s` from index `from` on.
pub fn chars_from(s: &[char], from: usize) -> (res: Vec<char>)
    requires
        from <= s@.len(),
    ensures
        res@ == s@.skip(from as int),
{
    let mut v: Vec<char> = Vec::new();
    let mut i: usize = from;
    while i < s.len()
        invariant
            from <= i <= s@.len(),
            v@ == s@.subrange(from as int, i as int),
        decreases s@.len() - i,
    {
        v.push(s[i]);
        assert(s@.subrange(from as int, i + 1) =~= s@.subrange(from as int, i as int).push(s@[i as int]));
        i = i + 1;
    }
    assert(s@.subrange(from as int, i as int) =~= s@.skip(from as int));
    v
}

/// A byte as the command line writes it: `0x` and hexadecimal digits,
/// `0b` and binary digits, or decimal.
pub open spec fn spec_parse_byte(s: Seq<char>) -> Result<nat, IntErrorKind> {
    if spec_starts_with(s, "0x"@) {
        spec_parse_uint(s.skip(2), 16, 255)
    } else if spec_starts_with(s, "0b"@) {
        spec_parse_uint(s.skip(2), 2, 255)
    } else {
        spec_parse_uint(s, 10, 255)
    }
}

/// Parses a byte given as characters; see [`parse_byte`].
pub fn parse_byte_chars(s: &[char]) -> (res: Result<u8, IntErrorKind>)
    ensures
        match spec_parse_byte(s@) {
            Ok(v) => res == Ok::<u8, IntErrorKind>(v as u8),
            Err(e) => res == Err::<u8, IntErrorKind>(e),
        },
{
    proof {
        reveal_strlit("0x");
        reveal_strlit("0b");
    }
    let r = if starts_with(s, "0x") {
        let rest = chars_from(s, 2);
        parse_uint(rest.as_slice(), 16, 255)
    } else if starts_with(s, "0b") {
        let rest = chars_from(s, 2);
        parse_uint(rest.as_slice(), 2, 255)
    } else {
        parse_uint(s, 10, 255)
    };
    match r {
        Ok(v) => Ok(v as u8),
        Err(e) => Err(e),
    }
}

/// Parses a byte: `0x48`, `0b1010`, or `42`.
pub fn parse_byte(s: &str) -> (res: Result<u8, IntErrorKind>)
    ensures
        match spec_parse_byte(s@) {
            Ok(v) => res == Ok::<u8, IntErrorKind>(v as u8),
            Err(e) => res == Err::<u8, IntErrorKind>(e),
        },
{
    let cs = chars_of(s);
    parse_byte_chars(cs.as_slice())
}

/// An I2C address: a byte no greater than `0x7F`.
pub open spec fn spec_parse_i2c_address(s: Seq<char>) -> Result<u8, Seq<char>> {
    match spec_parse_byte(s) {
        Err(e) => Err(e.spec_message()),
        Ok(v) => if v > 0x7f {
            Err("I2C address "@ + s + " exceeds 7-bit range (max 0x7F)"@)
        } else {
            Ok(v as u8)
        },
    }
}

/// Parses a 7-bit I2C address (0x00–0x7F).
pub fn parse_i2c_address(s: &str) -> (res: Result<u8, String>)
    ensures
        match spec_parse_i2c_address(s@) {
            Ok(v) => res == Ok::<u8, String>(v),
            Err(m) => res matches Err(e) && e@ == m,
        },
{
    match parse_byte(s) {
        Err(e) => Err(e.message()),
        Ok(b) => if b > 0x7f {
            let mut m = String::new();
            push_str(&mut m, "I2C address ");
            push_str(&mut m, s);
            push_str(&mut m, " exceeds 7-bit range (max 0x7F)");
            Err(m)
        } else {
            Ok(b)
        },
    }
}

/// Whether a character is white space as Rust's `char::is_whitespace`
/// says (the Unicode `White_Space` property).
pub open spec fn spec_is_whitespace(c: char) -> bool {
    ||| c == ' '
    ||| ('\t' <= c <= '\r')
    ||| c == '\u{85}'
    ||| c == '\u{a0}'
    ||| c == '\u{1680}'
    ||| ('\u{2000}' <= c <= '\u{200a}')
    ||| c == '\u{2028}'
    ||| c == '\u{2029}'
    ||| c == '\u{202f}'
    ||| c == '\u{205f}'
    ||| c == '\u{3000}'
}

fn is_whitespace(c: char) -> (res: bool)
    ensures
        res == spec_is_whitespace(c),
{
    c == ' ' || ('\t' <= c && c <= '\r') || c == '\u{85}' || c == '\u{a0}' || c == '\u{1680}' || (
    '\u{2000}' <= c && c <= '\u{200a}') || c == '\u{2028}' || c == '\u{2029}' || c == '\u{202f}'
        || c == '\u{205f}' || c == '\u{3000}'
}

/// The number of leading white-space characters.
pub open spec fn spec_leading_ws(s: Seq<char>) -> nat
    decreases s.len(),
{
    if s.len() > 0 && spec_is_whitespace(s[0]) {
        1 + spec_leading_ws(s.drop_first())
    } else {
        0
    }
}

/// The number of trailing white-space characters.
pub open spec fn spec_trailing_ws(s: Seq<char>) -> nat
    decreases s.len(),
{
    if s.len() > 0 && spec_is_whitespace(s.last()) {
        1 + spec_trailing_ws(s.drop_last())
    } else {
        0
    }
}

/// `str::trim`: `s` without its leading and trailing white space.
pub open spec fn spec_trim(s: Seq<char>) -> Seq<char> {
    let t = s.skip(spec_leading_ws(s) as int);
    t.take(t.len() - spec_trailing_ws(t))
}

proof fn lemma_leading_ws(s: Seq<char>, i: nat)
    requires
        i <= s.len(),
        forall|j: int| 0 <= j < i ==> spec_is_whitespace(#[trigger] s[j]),
    ensures
        (i == s.len() || !spec_is_whitespace(s[i as int])) ==> spec_leading_ws(s) == i,
        spec_leading_ws(s) >= i,
        spec_leading_ws(s) <= s.len(),
    decreases i,
{
    if i > 0 {
        assert forall|j: int| 0 <= j < i - 1 implies spec_is_whitespace(#[trigger] s.drop_first()[j]) by {
            assert(s.drop_first()[j] == s[j + 1]);
        }
        lemma_leading_ws(s.drop_first(), (i - 1) as nat);
    } else {
        lemma_ws_bound(s);
    }
}

proof fn lemma_ws_bound(s: Seq<char>)
    ensures
        spec_leading_ws(s) <= s.len(),
        spec_trailing_ws(s) <= s.len(),
    decreases s.len(),
{
    if s.len() > 0 {
        lemma_ws_bound(s.drop_first());
        lemma_ws_bound(s.drop_last());
    }
}

proof fn lemma_trailing_ws(s: Seq<char>, i: nat)
    requires
        i <= s.len(),
        forall|j: int| s.len() - i <= j < s.len() ==> spec_is_whitespace(#[trigger] s[j]),
    ensures
        (i == s.len() || !spec_is_whitespace(s[s.len() - i - 1])) ==> spec_trailing_ws(s) == i,
    decreases i,
{
    if i > 0 {
        assert forall|j: int| s.drop_last().len() - (i - 1) <= j < s.drop_last().len() implies spec_is_whitespace(
            #[trigger] s.drop_last()[j],
        ) by {
            assert(s.drop_last()[j] == s[j]);
        }
        lemma_trailing_ws(s.drop_last(), (i - 1) as nat);
    }
}

/// `str::trim` on characters.
pub fn trim(s: &[char]) -> (res: Vec<char>)
    ensures
        res@ == spec_trim(s@),
{
    let mut a: usize = 0;
    while a < s.len() && is_whitespace(s[a])
        invariant
            a <= s@.len(),
            forall|j: int| 0 <= j < a ==> spec_is_whitespace(#[trigger] s@[j]),
        decreases s@.len() - a,
    {
        a = a + 1;
    }
    proof {
        lemma_leading_ws(s@, a as nat);
    }
    let t = chars_from(s, a);
    let mut b: usize = t.len();
    while b > 0 && is_whitespace(t[b - 1])
        invariant
            b <= t@.len(),
            forall|j: int| b <= j < t@.len() ==> spec_is_whitespace(#[trigger] t@[j]),
        decreases b,
    {
        b = b - 1;
    }
    proof {
        lemma_trailing_ws(t@, (t@.len() - b) as nat);
    }
    let mut out: Vec<char> = Vec::new();
    let mut i: usize = 0;
    while i < b
        invariant
            b <= t@.len(),
            i <= b,
            out@ == t@.take(i as int),
        decreases b - i,
    {
        out.push(t[i]);
        assert(t@.take(i + 1) =~= t@.take(i as int).push(t@[i as int]));
        i = i + 1;
    }
    out
}

/// Splitting at commas, one character at a time: `done` holds the pieces
/// already closed and `cur` the piece being read.
pub open spec fn spec_split_acc(rest: Seq<char>, done: Seq<Seq<char>>, cur: Seq<char>) -> Seq<Seq<char>>
    decreases rest.len(),
{
    if rest.len() == 0 {
        done.push(cur)
    } else if rest[0] == ',' {
        spec_split_acc(rest.drop_first(), done.push(cur), Seq::empty())
    } else {
        spec_split_acc(rest.drop_first(), done, cur.push(rest[0]))
    }
}

/// `str::split(',')`: the pieces between commas, empty ones included.
pub open spec fn spec_split_commas(s: Seq<char>) -> Seq<Seq<char>> {
    spec_split_acc(s, Seq::empty(), Seq::empty())
}

/// `str::split(',')` on characters.
pub fn split_commas(s: &[char]) -> (res: Vec<Vec<char>>)
    ensures
        res@.map_values(|v: Vec<char>| v@) == spec_split_commas(s@),
{
    let mut done: Vec<Vec<char>> = Vec::new();
    let mut cur: Vec<char> = Vec::new();
    let mut i: usize = 0;
    assert(s@.skip(0) =~= s@);
    assert(done@.map_values(|v: Vec<char>| v@) =~= Seq::<Seq<char>>::empty());
    while i < s.len()
        invariant
            i <= s@.len(),
            spec_split_commas(s@) == spec_split_acc(s@.skip(i as int), done@.map_values(|v: Vec<char>| v@), cur@),
        decreases s@.len() - i,
    {
        assert(s@.skip(i as int).drop_first() =~= s@.skip(i + 1));
        if s[i] == ',' {
            let piece = cur;
            proof {
                assert(done@.push(piece).map_values(|v: Vec<char>| v@) =~= done@.map_values(|v: Vec<char>| v@).push(piece@));
            }
            done.push(piece);
            cur = Vec::new();
        } else {
            cur.push(s[i]);
        }
        i = i + 1;
    }
    let ghost before = done@.map_values(|v: Vec<char>| v@);
    let last = cur;
    proof {
        assert(s@.skip(i as int).len() == 0);
        assert(done@.push(last).map_values(|v: Vec<char>| v@) =~= before.push(last@));
    }
    done.push(last);
    done
}

/// The first error of a sequence of results, or all their values.
pub open spec fn spec_collect<T>(s: Seq<Result<T, Seq<char>>>) -> Result<Seq<T>, Seq<char>>
    decreases s.len(),
{
    if s.len() == 0 {
        Ok(Seq::empty())
    } else {
        match spec_collect(s.drop_last()) {
            Err(e) => Err(e),
            Ok(v) => match s.last() {
                Ok(x) => Ok(v.push(x)),
                Err(e) => Err(e),
            },
        }
    }
}

/// Once a prefix has an error, the whole has that error.
pub proof fn lemma_collect_error_sticks<T>(s: Seq<Result<T, Seq<char>>>, k: nat)
    requires
        k <= s.len(),
        spec_collect(s.take(k as int)) is Err,
    ensures
        spec_collect(s) == spec_collect(s.take(k as int)),
    decreases s.len() - k,
{
    if k < s.len() {
        assert(s.take(k + 1 as int).drop_last() =~= s.take(k as int));
        lemma_collect_error_sticks(s, k + 1);
    } else {
        assert(s.take(k as int) =~= s);
    }
}

/// One entry of a byte list: its trimmed text as a byte.
pub open spec fn spec_list_byte(piece: Seq<char>) -> Result<u8, Seq<char>> {
    let b = spec_trim(piece);
    match spec_parse_byte(b) {
        Ok(v) => Ok(v as u8),
        Err(e) => Err("invalid byte '"@ + b + "': "@ + e.spec_message()),
    }
}

/// A comma-separated byte list: each entry trimmed and read as a byte;
/// the first bad entry is the error.
pub open spec fn spec_parse_byte_list(s: Seq<char>) -> Result<Seq<u8>, Seq<char>> {
    spec_collect(spec_split_commas(s).map_values(|p: Seq<char>| spec_list_byte(p)))
}

fn list_byte(piece: &[char]) -> (res: Result<u8, String>)
    ensures
        match spec_list_byte(piece@) {
            Ok(v) => res == Ok::<u8, String>(v),
            Err(m) => res matches Err(e) && e@ == m,
        },
{
    let b = trim(piece);
    match parse_byte_chars(b.as_slice()) {
        Ok(v) => Ok(v),
        Err(e) => {
            let mut m = String::new();
            push_str(&mut m, "invalid byte '");
            let bs = crate::numbers::string_of(b.as_slice());
            push_str(&mut m, bs.as_str());
            push_str(&mut m, "': ");
            let em = e.message();
            push_str(&mut m, em.as_str());
            assert(m@ =~= "invalid byte '"@ + b@ + "': "@ + e.spec_message());
            Err(m)
        },
    }
}

/// Parses a comma-separated list of bytes given as characters; see
/// [`parse_byte_list`].
pub fn parse_byte_list_chars(s: &[char]) -> (res: Result<Vec<u8>, String>)
    ensures
        match spec_parse_byte_list(s@) {
            Ok(v) => res matches Ok(bytes) && bytes@ == v,
            Err(m) => res matches Err(e) && e@ == m,
        },
{
    let pieces = split_commas(s);
    let ghost results = spec_split_commas(s@).map_values(|p: Seq<char>| spec_list_byte(p));
    let mut out: Vec<u8> = Vec::new();
    let mut i: usize = 0;
    while i < pieces.len()
        invariant
            i <= pieces@.len(),
            pieces@.map_values(|v: Vec<char>| v@) == spec_split_commas(s@),
            results == spec_split_commas(s@).map_values(|p: Seq<char>| spec_list_byte(p)),
            spec_collect(results.take(i as int)) == Ok::<Seq<u8>, Seq<char>>(out@),
        decreases pieces@.len() - i,
    {
        assert(results.take(i + 1).drop_last() =~= results.take(i as int));
        assert(results[i as int] == spec_list_byte(pieces@[i as int]@));
        match list_byte(pieces[i].as_slice()) {
            Ok(v) => {
                out.push(v);
            },
            Err(e) => {
                proof {
                    lemma_collect_error_sticks(results, (i + 1) as nat);
                }
                return Err(e);
            },
        }
        i = i + 1;
    }
    assert(results.take(i as int) =~= results);
    Ok(out)
}

/// Parses a comma-separated list of bytes (`0x00,0x10` or `1, 2`); the
/// first bad entry is the error.
pub fn parse_byte_list(s: &str) -> (res: Result<Vec<u8>, String>)
    ensures
        match spec_parse_byte_list(s@) {
            Ok(v) => res matches Ok(bytes) && bytes@ == v,
            Err(m) => res matches Err(e) && e@ == m,
        },
{
    let cs = chars_of(s);
    parse_byte_list_chars(cs.as_slice())
}

/// The bytes of a hex string at byte offset `i`: two ASCII hex digits (or
/// a sign and one digit, as `from_str_radix` allows), else an invalid
/// digit.
pub open spec fn spec_hex_pair(b0: u8, b1: u8) -> Result<nat, IntErrorKind> {
    if b0 < 128 && b1 < 128 {
        spec_parse_uint(seq![b0 as char, b1 as char], 16, 255)
    } else {
        Err(IntErrorKind::InvalidDigit)
    }
}

/// The text of a hex string after an optional `0x` or `0X`, as bytes.
pub open spec fn spec_hex_body(b: Seq<u8>) -> Seq<u8> {
    if b.len() >= 2 && b[0] == 48 && (b[1] == 120 || b[1] == 88) {
        b.skip(2)
    } else {
        b
    }
}

/// A hex string: an optional `0x`/`0X`, then an even number of bytes read
/// two at a time as hexadecimal; errors name the length or the offset of
/// the bad pair.
pub open spec fn spec_parse_hex(b: Seq<u8>) -> Result<Seq<u8>, Seq<char>> {
    let body = spec_hex_body(b);
    if body.len() % 2 != 0 {
        Err("hex string must have even length, got "@ + spec_decimal(body.len()))
    } else {
        spec_collect(
            Seq::new(
                body.len() / 2,
                |k: int|
                    match spec_hex_pair(body[2 * k], body[2 * k + 1]) {
                        Ok(v) => Ok(v as u8),
                        Err(e) => Err(
                            "invalid hex at position "@ + spec_decimal((2 * k) as nat) + ": "@
                                + e.spec_message(),
                        ),
                    },
            ),
        )
    }
}

/// Parses a hex string such as `cc44` or `0xCC44` into bytes.
///
/// The string is read two bytes at a time, so every even offset of its
/// text must fall on a character boundary.
pub fn parse_hex_string(s: &str) -> (res: Result<Vec<u8>, String>)
    requires
        forall|i: int|
            0 <= i <= s.spec_bytes().len() && i % 2 == 0 ==> vstd::utf8::is_char_boundary(
                s.spec_bytes(),
                i,
            ),
    ensures
        match spec_parse_hex(s.spec_bytes()) {
            Ok(v) => res matches Ok(bytes) && bytes@ == v,
            Err(m) => res matches Err(e) && e@ == m,
        },
{
    let all = s.as_bytes();
    let start: usize = if all.len() >= 2 && all[0] == 48 && (all[1] == 120 || all[1] == 88) {
        2
    } else {
        0
    };
    let ghost body = spec_hex_body(all@);
    assert(body =~= all@.skip(start as int));
    let n = all.len() - start;
    if n % 2 != 0 {
        let mut m = String::new();
        push_str(&mut m, "hex string must have even length, got ");
        push_decimal(&mut m, n as u64);
        return Err(m);
    }
    let ghost results = Seq::new(
        body.len() / 2,
        |k: int|
            match spec_hex_pair(body[2 * k], body[2 * k + 1]) {
                Ok(v) => Ok(v as u8),
                Err(e) => Err(
                    "invalid hex at position "@ + spec_decimal((2 * k) as nat) + ": "@
                        + e.spec_message(),
                ),
            },
    );
    let mut out: Vec<u8> = Vec::new();
    let mut k: usize = 0;
    while k < n / 2
        invariant
            n == body.len(),
            n % 2 == 0,
            start + n == all@.len(),
            body == all@.skip(start as int),
            body == spec_hex_body(all@),
            all@ == s.spec_bytes(),
            k <= n / 2,
            results.len() == n / 2,
            results == Seq::new(
                body.len() / 2,
                |k: int|
                    match spec_hex_pair(body[2 * k], body[2 * k + 1]) {
                        Ok(v) => Ok(v as u8),
                        Err(e) => Err(
                            "invalid hex at position "@ + spec_decimal((2 * k) as nat) + ": "@
                                + e.spec_message(),
                        ),
                    },
            ),
            spec_collect(results.take(k as int)) == Ok::<Seq<u8>, Seq<char>>(out@),
        decreases n / 2 - k,
    {
        assert(2 * k + 1 < n);
        assert(start + 2 * k + 1 < all@.len());
        let idx: usize = start + 2 * k;
        let b0 = all[idx];
        let b1 = all[idx + 1];
        assert(b0 == body[2 * k as int] && b1 == body[2 * k + 1]);
        let r = if b0 < 128 && b1 < 128 {
            let mut pair: Vec<char> = Vec::new();
            pair.push(b0 as char);
            pair.push(b1 as char);
            assert(pair@ =~= seq![b0 as char, b1 as char]);
            parse_uint(pair.as_slice(), 16, 255)
        } else {
            Err(IntErrorKind::InvalidDigit)
        };
        assert(results.take(k + 1).drop_last() =~= results.take(k as int));
        assert(match spec_hex_pair(b0, b1) {
            Ok(v) => r == Ok::<u64, IntErrorKind>(v as u64),
            Err(e) => r == Err::<u64, IntErrorKind>(e),
        });
        match r {
            Ok(v) => {
                assert(results[k as int] == Ok::<u8, Seq<char>>(v as u8));
                assert(results.take(k + 1).last() == results[k as int]);
                out.push(v as u8);
            },
            Err(e) => {
                let mut m = String::new();
                push_str(&mut m, "invalid hex at position ");
                push_decimal(&mut m, (2 * k) as u64);
                push_str(&mut m, ": ");
                let em = e.message();
                push_str(&mut m, em.as_str());
                proof {
                    assert(m@ =~= "invalid hex at position "@ + spec_decimal((2 * k) as nat) + ": "@
                        + e.spec_message());
                    assert(results[k as int] == Err::<u8, Seq<char>>(m@));
                    assert(results.take(k + 1).last() == results[k as int]);
                    lemma_collect_error_sticks(results, (k + 1) as nat);
                }
                return Err(m);
            },
        }
        k = k + 1;
    }
    assert(results.take(k as int) =~= results);
    Ok(out)
}

/// One `--op` of an I2C batch: `read:N` reads `N` bytes (a `u16`, white
/// space around it ignored); `write:B1,B2,...` writes a byte list.
pub open spec fn spec_parse_i2c_op(op: Seq<char>) -> Result<BatchOpModel, Seq<char>> {
    if spec_starts_with(op, "read:"@) {
        let n = op.skip(5);
        match spec_parse_uint(spec_trim(n), 10, 0xffff) {
            Ok(v) => Ok(BatchOpModel::Read(v as u16)),
            Err(e) => Err("invalid read length '"@ + n + "': "@ + e.spec_message()),
        }
    } else if spec_starts_with(op, "write:"@) {
        match spec_parse_byte_list(op.skip(6)) {
            Ok(bytes) => Ok(BatchOpModel::Write(bytes)),
            Err(m) => Err(m),
        }
    } else {
        Err("unknown I2C batch op '"@ + op + "'. Use 'read:N' or 'write:B1,B2,...'"@)
    }
}

/// One `--op` of an SPI batch: `read:N`, `write:B1,B2,...`,
/// `transfer:B1,B2,...`, or `delay:NS` (a `u32` of nanoseconds).
pub open spec fn spec_parse_spi_op(op: Seq<char>) -> Result<BatchOpModel, Seq<char>> {
    if spec_starts_with(op, "read:"@) {
        let n = op.skip(5);
        match spec_parse_uint(spec_trim(n), 10, 0xffff) {
            Ok(v) => Ok(BatchOpModel::Read(v as u16)),
            Err(e) => Err("invalid read length '"@ + n + "': "@ + e.spec_message()),
        }
    } else if spec_starts_with(op, "write:"@) {
        match spec_parse_byte_list(op.skip(6)) {
            Ok(bytes) => Ok(BatchOpModel::Write(bytes)),
            Err(m) => Err(m),
        }
    } else if spec_starts_with(op, "transfer:"@) {
        match spec_parse_byte_list(op.skip(9)) {
            Ok(bytes) => Ok(BatchOpModel::Transfer(bytes)),
            Err(m) => Err(m),
        }
    } else if spec_starts_with(op, "delay:"@) {
        let ns = op.skip(6);
        match spec_parse_uint(spec_trim(ns), 10, 0xffff_ffff) {
            Ok(v) => Ok(BatchOpModel::DelayNs(v as u32)),
            Err(e) => Err("invalid delay nanoseconds '"@ + ns + "': "@ + e.spec_message()),
        }
    } else {
        Err(
            "unknown SPI batch op '"@ + op
                + "'. Use 'read:N', 'write:B1,B2,...', 'transfer:B1,B2,...', or 'delay:NS'"@,
        )
    }
}

/// The error text `<head><text>': <error>`.
fn quoted_error(head: &str, text: &[char], e: IntErrorKind) -> (res: String)
    ensures
        res@ == head@ + text@ + "': "@ + e.spec_message(),
{
    let mut m = String::new();
    push_str(&mut m, head);
    let t = crate::numbers::string_of(text);
    push_str(&mut m, t.as_str());
    push_str(&mut m, "': ");
    let em = e.message();
    push_str(&mut m, em.as_str());
    assert(m@ =~= head@ + text@ + "': "@ + e.spec_message());
    m
}

fn parse_i2c_op(op: &[char]) -> (res: Result<I2cBatchOp, String>)
    ensures
        match spec_parse_i2c_op(op@) {
            Ok(m) => res matches Ok(o) && o@ == m,
            Err(m) => res matches Err(e) && e@ == m,
        },
{
    proof {
        reveal_strlit("read:");
        reveal_strlit("write:");
    }
    if starts_with(op, "read:") {
        let n = chars_from(op, 5);
        let t = trim(n.as_slice());
        match parse_u16(t.as_slice()) {
            Ok(len) => Ok(I2cBatchOp::Read { len }),
            Err(e) => Err(quoted_error("invalid read length '", n.as_slice(), e)),
        }
    } else if starts_with(op, "write:") {
        let d = chars_from(op, 6);
        match parse_byte_list_chars(d.as_slice()) {
            Ok(data) => Ok(I2cBatchOp::Write { data }),
            Err(m) => Err(m),
        }
    } else {
        let mut m = String::new();
        push_str(&mut m, "unknown I2C batch op '");
        let t = crate::numbers::string_of(op);
        push_str(&mut m, t.as_str());
        push_str(&mut m, "'. Use 'read:N' or 'write:B1,B2,...'");
        assert(m@ =~= "unknown I2C batch op '"@ + op@ + "'. Use 'read:N' or 'write:B1,B2,...'"@);
        Err(m)
    }
}

fn parse_spi_op(op: &[char]) -> (res: Result<SpiBatchOp, String>)
    ensures
        match spec_parse_spi_op(op@) {
            Ok(m) => res matches Ok(o) && o@ == m,
            Err(m) => res matches Err(e) && e@ == m,
        },
{
    proof {
        reveal_strlit("read:");
        reveal_strlit("write:");
        reveal_strlit("transfer:");
        reveal_strlit("delay:");
    }
    if starts_with(op, "read:") {
        let n = chars_from(op, 5);
        let t = trim(n.as_slice());
        match parse_u16(t.as_slice()) {
            Ok(len) => Ok(SpiBatchOp::Read { len }),
            Err(e) => Err(quoted_error("invalid read length '", n.as_slice(), e)),
        }
    } else if starts_with(op, "write:") {
        let d = chars_from(op, 6);
        match parse_byte_list_chars(d.as_slice()) {
            Ok(data) => Ok(SpiBatchOp::Write { data }),
            Err(m) => Err(m),
        }
    } else if starts_with(op, "transfer:") {
        let d = chars_from(op, 9);
        match parse_byte_list_chars(d.as_slice()) {
            Ok(data) => Ok(SpiBatchOp::Transfer { data }),
            Err(m) => Err(m),
        }
    } else if starts_with(op, "delay:") {
        let n = chars_from(op, 6);
        let t = trim(n.as_slice());
        match parse_u32(t.as_slice()) {
            Ok(ns) => Ok(SpiBatchOp::DelayNs { ns }),
            Err(e) => Err(quoted_error("invalid delay nanoseconds '", n.as_slice(), e)),
        }
    } else {
        let mut m = String::new();
        push_str(&mut m, "unknown SPI batch op '");
        let t = crate::numbers::string_of(op);
        push_str(&mut m, t.as_str());
        push_str(
            &mut m,
            "'. Use 'read:N', 'write:B1,B2,...', 'transfer:B1,B2,...', or 'delay:NS'",
        );
        assert(m@ =~= "unknown SPI batch op '"@ + op@
            + "'. Use 'read:N', 'write:B1,B2,...', 'transfer:B1,B2,...', or 'delay:NS'"@);
        Err(m)
    }
}

/// The views of a list of strings.
pub open spec fn strings_view(v: Seq<String>) -> Seq<Seq<char>> {
    v.map_values(|s: String| s@)
}

/// Parses the `--op` strings of an I2C batch; the first bad one is the
/// error.
pub fn parse_i2c_batch_ops(ops: &[String]) -> (res: Result<Vec<I2cBatchOp>, String>)
    ensures
        match spec_collect(strings_view(ops@).map_values(|o: Seq<char>| spec_parse_i2c_op(o))) {
            Ok(ms) => res matches Ok(v) && i2c_ops_model(v@) == ms,
            Err(m) => res matches Err(e) && e@ == m,
        },
{
    let ghost results = strings_view(ops@).map_values(|o: Seq<char>| spec_parse_i2c_op(o));
    let mut out: Vec<I2cBatchOp> = Vec::new();
    let mut i: usize = 0;
    assert(results.take(0) =~= Seq::<Result<BatchOpModel, Seq<char>>>::empty());
    assert(i2c_ops_model(out@) =~= Seq::<BatchOpModel>::empty());
    while i < ops.len()
        invariant
            i <= ops@.len(),
            results == strings_view(ops@).map_values(|o: Seq<char>| spec_parse_i2c_op(o)),
            spec_collect(results.take(i as int)) == Ok::<Seq<BatchOpModel>, Seq<char>>(i2c_ops_model(out@)),
        decreases ops@.len() - i,
    {
        assert(results.take(i + 1).drop_last() =~= results.take(i as int));
        assert(results[i as int] == spec_parse_i2c_op(ops@[i as int]@));
        let cs = chars_of(ops[i].as_str());
        match parse_i2c_op(cs.as_slice()) {
            Ok(op) => {
                proof {
                    assert(i2c_ops_model(out@.push(op)) =~= i2c_ops_model(out@).push(op@));
                }
                out.push(op);
            },
            Err(e) => {
                proof {
                    lemma_collect_error_sticks(results, (i + 1) as nat);
                }
                return Err(e);
            },
        }
        i = i + 1;
    }
    assert(results.take(i as int) =~= results);
    Ok(out)
}

/// Parses the `--op` strings of an SPI batch; the first bad one is the
/// error.
pub fn parse_spi_batch_ops(ops: &[String]) -> (res: Result<Vec<SpiBatchOp>, String>)
    ensures
        match spec_collect(strings_view(ops@).map_values(|o: Seq<char>| spec_parse_spi_op(o))) {
            Ok(ms) => res matches Ok(v) && spi_ops_model(v@) == ms,
            Err(m) => res matches Err(e) && e@ == m,
        },
{
    let ghost results = strings_view(ops@).map_values(|o: Seq<char>| spec_parse_spi_op(o));
    let mut out: Vec<SpiBatchOp> = Vec::new();
    let mut i: usize = 0;
    assert(results.take(0) =~= Seq::<Result<BatchOpModel, Seq<char>>>::empty());
    assert(spi_ops_model(out@) =~= Seq::<BatchOpModel>::empty());
    while i < ops.len()
        invariant
            i <= ops@.len(),
            results == strings_view(ops@).map_values(|o: Seq<char>| spec_parse_spi_op(o)),
            spec_collect(results.take(i as int)) == Ok::<Seq<BatchOpModel>, Seq<char>>(spi_ops_model(out@)),
        decreases ops@.len() - i,
    {
        assert(results.take(i + 1).drop_last() =~= results.take(i as int));
        assert(results[i as int] == spec_parse_spi_op(ops@[i as int]@));
        let cs = chars_of(ops[i].as_str());
        match parse_spi_op(cs.as_slice()) {
            Ok(op) => {
                proof {
                    assert(spi_ops_model(out@.push(op)) =~= spi_ops_model(out@).push(op@));
                }
                out.push(op);
            },
            Err(e) => {
                proof {
                    lemma_collect_error_sticks(results, (i + 1) as nat);
                }
                return Err(e);
            },
        }
        i = i + 1;
    }
    assert(results.take(i as int) =~= results);
    Ok(out)
}

/// An I2C address is a byte of the seven-bit range: the parse gives an
/// address exactly when the byte parses and is at most 0x7F, and then it
/// is that byte.
pub proof fn lemma_i2c_address_range(s: Seq<char>)
    ensures
        spec_parse_i2c_address(s) is Ok <==> (spec_parse_byte(s) matches Ok(b) && b <= 0x7f),
        spec_parse_i2c_address(s) matches Ok(a) ==> spec_parse_byte(s) == Ok::<nat, IntErrorKind>(a as nat),
{
}

} // verus!
