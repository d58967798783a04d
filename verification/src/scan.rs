//! The option syntax of the command line, for one command level.
//!
//! A level declares its options, each with an optional short name, a long
//! name, and a kind: a flag, an option with one value, or an option with
//! one or more values that may repeat. Tokens are read left to right:
//!
//! - `--name`, `--name=value`, `-c` and `-cvalue` name an option;
//! - a value-taking option without an attached value takes the next token
//!   as its value, unless that token looks like an option (two or more
//!   characters starting with `-`); a many-valued option takes every such
//!   following token;
//! - a flag or one-valued option given twice is an error, as is a flag
//!   with an attached value;
//! - `--` ends the options and must be the last token;
//! - `-h`/`--help` (and at the top level `-V`/`--version`), when not
//!   declared, ask for help (or the version);
//! - any other token is an error, except at the top level, where the
//!   first token that is not an option starts the subcommand.

use vstd::prelude::*;
use crate::numbers::chars_of;

verus! {

/// Why the command line was not accepted.
#[derive(Debug, Clone, Copy, PartialEq, Eq, Structural)]
pub enum CliErrorKind {
    /// Help was asked for, or nothing at all was given.
    DisplayHelp,
    /// The version was asked for.
    DisplayVersion,
    /// A command that needs a subcommand got none.
    MissingSubcommand,
    /// The subcommand is not known.
    UnknownSubcommand,
    /// A token is not an option of the command.
    UnexpectedArgument,
    /// An option that takes a value got none.
    MissingValue,
    /// A required option is missing.
    MissingArgument,
    /// A value does not parse.
    InvalidValue,
    /// An option that may appear once appeared twice.
    ArgumentConflict,
}

/// How many values an option takes.
#[derive(Debug, Clone, Copy, PartialEq, Eq, Structural)]
pub enum OptKind {
    /// No value; present or not.
    Flag,
    /// Exactly one value, at most once.
    Single,
    /// One or more values per occurrence; occurrences accumulate.
    Multi,
}

/// One declared option.
#[derive(Debug, Clone)]
pub struct OptDecl {
    /// The short name, if any.
    pub short: Option<char>,
    /// The long name.
    pub long: Vec<char>,
    /// How many values it takes.
    pub kind: OptKind,
}

/// What the command line gave for one option.
#[derive(Debug, Clone)]
pub struct OptSlot {
    /// Whether the option appeared.
    pub seen: bool,
    /// Its values, in order.
    pub values: Vec<Vec<char>>,
}

/// A declared option as plain values.
pub type DeclView = (Option<char>, Seq<char>, OptKind);

/// A slot as plain values.
pub type SlotView = (bool, Seq<Seq<char>>);

/// The views of a list of character vectors.
pub open spec fn chars_view(v: Seq<Vec<char>>) -> Seq<Seq<char>> {
    v.map_values(|c: Vec<char>| c@)
}

/// The declarations as plain values.
pub open spec fn decls_view(t: Seq<OptDecl>) -> Seq<DeclView> {
    t.map_values(|d: OptDecl| (d.short, d.long@, d.kind))
}

/// The slots as plain values.
pub open spec fn slots_view(s: Seq<OptSlot>) -> Seq<SlotView> {
    s.map_values(|o: OptSlot| (o.seen, chars_view(o.values@)))
}

/// No option seen yet.
pub open spec fn spec_empty_slots(n: nat) -> Seq<SlotView> {
    Seq::new(n, |i: int| (false, Seq::<Seq<char>>::empty()))
}

/// Whether a token looks like an option.
pub open spec fn spec_optionlike(t: Seq<char>) -> bool {
    t.len() >= 2 && t[0] == '-'
}

/// The first index of `c` in `s`.
pub open spec fn spec_first_index(s: Seq<char>, c: char) -> Option<nat>
    decreases s.len(),
{
    if s.len() == 0 {
        None
    } else if s[0] == c {
        Some(0)
    } else {
        match spec_first_index(s.drop_first(), c) {
            Some(k) => Some(k + 1),
            None => None,
        }
    }
}

/// The first declaration, from index `j` on, with long name `name`.
pub open spec fn spec_find_long(table: Seq<DeclView>, name: Seq<char>, j: nat) -> Option<nat>
    decreases table.len() - j,
{
    if j >= table.len() {
        None
    } else if table[j as int].1 == name {
        Some(j)
    } else {
        spec_find_long(table, name, j + 1)
    }
}

/// The first declaration, from index `j` on, with short name `c`.
pub open spec fn spec_find_short(table: Seq<DeclView>, c: char, j: nat) -> Option<nat>
    decreases table.len() - j,
{
    if j >= table.len() {
        None
    } else if table[j as int].0 == Some(c) {
        Some(j)
    } else {
        spec_find_short(table, c, j + 1)
    }
}

/// Which declared option a token names, with its attached value; or the
/// error an undeclared name gives.
pub open spec fn spec_classify(t: Seq<char>, table: Seq<DeclView>, top: bool) -> Result<(nat, Option<Seq<char>>), CliErrorKind> {
    if t.len() > 2 && t[0] == '-' && t[1] == '-' {
        let body = t.skip(2);
        let (name, attached) = match spec_first_index(body, '=') {
            Some(e) => (body.take(e as int), Some(body.skip(e + 1 as int))),
            None => (body, None),
        };
        match spec_find_long(table, name, 0) {
            Some(k) => Ok((k, attached)),
            None => if name == "help"@ {
                Err(CliErrorKind::DisplayHelp)
            } else if top && name == "version"@ {
                Err(CliErrorKind::DisplayVersion)
            } else {
                Err(CliErrorKind::UnexpectedArgument)
            },
        }
    } else {
        let c = t[1];
        let attached = if t.len() > 2 {
            Some(t.skip(2))
        } else {
            None
        };
        match spec_find_short(table, c, 0) {
            Some(k) => Ok((k, attached)),
            None => if c == 'h' {
                Err(CliErrorKind::DisplayHelp)
            } else if top && c == 'V' {
                Err(CliErrorKind::DisplayVersion)
            } else {
                Err(CliErrorKind::UnexpectedArgument)
            },
        }
    }
}

/// The index of the first token, from `j` on, that looks like an option.
pub open spec fn spec_values_end(toks: Seq<Seq<char>>, j: nat) -> nat
    decreases toks.len() - j,
{
    if j >= toks.len() || spec_optionlike(toks[j as int]) {
        j
    } else {
        spec_values_end(toks, j + 1)
    }
}

/// Applies the option `k` named by token `i`: the slots after it and the
/// index of the next token to read.
pub open spec fn spec_apply(
    toks: Seq<Seq<char>>,
    i: nat,
    table: Seq<DeclView>,
    st: Seq<SlotView>,
    k: nat,
    attached: Option<Seq<char>>,
) -> Result<(Seq<SlotView>, nat), CliErrorKind> {
    let slot = st[k as int];
    match table[k as int].2 {
        OptKind::Flag => if attached is Some {
            Err(CliErrorKind::UnexpectedArgument)
        } else if slot.0 {
            Err(CliErrorKind::ArgumentConflict)
        } else {
            Ok((st.update(k as int, (true, Seq::empty())), i + 1))
        },
        OptKind::Single => if slot.0 {
            Err(CliErrorKind::ArgumentConflict)
        } else {
            match attached {
                Some(v) => Ok((st.update(k as int, (true, seq![v])), i + 1)),
                None => if i + 1 < toks.len() && !spec_optionlike(toks[i + 1 as int]) {
                    Ok((st.update(k as int, (true, seq![toks[i + 1 as int]])), i + 2))
                } else {
                    Err(CliErrorKind::MissingValue)
                },
            }
        },
        OptKind::Multi => match attached {
            Some(v) => Ok((st.update(k as int, (true, slot.1.push(v))), i + 1)),
            None => {
                let end = spec_values_end(toks, i + 1);
                if end == i + 1 {
                    Err(CliErrorKind::MissingValue)
                } else {
                    Ok((st.update(k as int, (true, slot.1 + toks.subrange(i + 1 as int, end as int))), end))
                }
            },
        },
    }
}

/// Reads the options of one level from token `i` on: the slots, and the
/// index of the token that starts the subcommand (at the top level) or
/// the number of tokens.
pub open spec fn spec_scan(
    toks: Seq<Seq<char>>,
    i: nat,
    table: Seq<DeclView>,
    st: Seq<SlotView>,
    top: bool,
) -> Result<(Seq<SlotView>, nat), CliErrorKind>
    decreases toks.len() - i,
{
    if i >= toks.len() {
        Ok((st, i))
    } else if toks[i as int] == "--"@ {
        if i + 1 < toks.len() {
            Err(CliErrorKind::UnexpectedArgument)
        } else {
            Ok((st, toks.len()))
        }
    } else if !spec_optionlike(toks[i as int]) {
        if top {
            Ok((st, i))
        } else {
            Err(CliErrorKind::UnexpectedArgument)
        }
    } else {
        match spec_classify(toks[i as int], table, top) {
            Err(e) => Err(e),
            Ok((k, attached)) => match spec_apply(toks, i, table, st, k, attached) {
                Err(e) => Err(e),
                Ok((st2, next)) => if i < next <= toks.len() {
                    spec_scan(toks, next, table, st2, top)
                } else {
                    Ok((st2, next))
                },
            },
        }
    }
}

pub proof fn lemma_chars_view_push(s: Seq<Vec<char>>, v: Vec<char>)
    ensures
        chars_view(s.push(v)) == chars_view(s).push(v@),
{
    assert(chars_view(s.push(v)) =~= chars_view(s).push(v@)) by {
        assert forall|i: int| 0 <= i < s.len() + 1 implies chars_view(s.push(v))[i] == chars_view(s).push(v@)[i] by {
            if i < s.len() {
                assert(s.push(v)[i] == s[i]);
            }
        }
    }
}

proof fn lemma_slots_view_push(s: Seq<OptSlot>, o: OptSlot)
    ensures
        slots_view(s.push(o)) == slots_view(s).push((o.seen, chars_view(o.values@))),
{
    assert(slots_view(s.push(o)) =~= slots_view(s).push((o.seen, chars_view(o.values@)))) by {
        assert forall|i: int| 0 <= i < s.len() + 1 implies slots_view(s.push(o))[i] == slots_view(s).push((o.seen, chars_view(o.values@)))[i] by {
            if i < s.len() {
                assert(s.push(o)[i] == s[i]);
            }
        }
    }
}

proof fn lemma_slots_view_update(s: Seq<OptSlot>, k: int, o: OptSlot)
    requires
        0 <= k < s.len(),
    ensures
        slots_view(s.update(k, o)) == slots_view(s).update(k, (o.seen, chars_view(o.values@))),
{
    assert(slots_view(s.update(k, o)) =~= slots_view(s).update(k, (o.seen, chars_view(o.values@))));
}

/// The first index of a character, when there is one, lies within the
/// sequence.
pub proof fn lemma_first_index_bound(s: Seq<char>, c: char)
    ensures
        spec_first_index(s, c) matches Some(k) ==> k < s.len(),
    decreases s.len(),
{
    if s.len() > 0 && s[0] != c {
        lemma_first_index_bound(s.drop_first(), c);
    }
}

proof fn lemma_find_long_bound(table: Seq<DeclView>, name: Seq<char>, j: nat)
    ensures
        spec_find_long(table, name, j) matches Some(k) ==> j <= k < table.len(),
    decreases table.len() - j,
{
    if j < table.len() && table[j as int].1 != name {
        lemma_find_long_bound(table, name, j + 1);
    }
}

proof fn lemma_find_short_bound(table: Seq<DeclView>, c: char, j: nat)
    ensures
        spec_find_short(table, c, j) matches Some(k) ==> j <= k < table.len(),
    decreases table.len() - j,
{
    if j < table.len() && table[j as int].0 != Some(c) {
        lemma_find_short_bound(table, c, j + 1);
    }
}

/// The slots' values are those the scanner gives: one slot per option,
/// and a seen one-valued option has exactly one value.
pub open spec fn slots_wf(st: Seq<SlotView>, table: Seq<DeclView>) -> bool {
    st.len() == table.len() && forall|k: int|
        0 <= k < st.len() && #[trigger] st[k].0 && table[k].2 == OptKind::Single ==> st[k].1.len() == 1
}

proof fn lemma_classify_bound(t: Seq<char>, table: Seq<DeclView>, top: bool)
    requires
        spec_optionlike(t),
    ensures
        spec_classify(t, table, top) matches Ok((k, _)) ==> k < table.len(),
{
    if t.len() > 2 && t[0] == '-' && t[1] == '-' {
        let body = t.skip(2);
        lemma_find_long_bound(table, body, 0);
        match spec_first_index(body, '=') {
            Some(e) => lemma_find_long_bound(table, body.take(e as int), 0),
            None => {},
        }
    } else {
        lemma_find_short_bound(table, t[1], 0);
    }
}

/// An option that no token names stays unset: if no option-like token
/// from `i` on is classified as option `k`, scanning leaves slot `k` as
/// it found it.
pub proof fn lemma_scan_untouched_slot(
    toks: Seq<Seq<char>>,
    i: nat,
    table: Seq<DeclView>,
    st: Seq<SlotView>,
    top: bool,
    k: nat,
)
    requires
        k < st.len(),
        st.len() == table.len(),
        forall|j: int|
            i <= j < toks.len() && spec_optionlike(#[trigger] toks[j]) ==> !(spec_classify(toks[j], table, top) matches Ok(
                (kk, _),
            ) && kk == k),
    ensures
        spec_scan(toks, i, table, st, top) matches Ok((st2, _)) ==> st2.len() == st.len() && st2[k as int]
            == st[k as int],
    decreases toks.len() - i,
{
    if i < toks.len() && toks[i as int] != "--"@ && spec_optionlike(toks[i as int]) {
        let t = toks[i as int];
        lemma_classify_bound(t, table, top);
        match spec_classify(t, table, top) {
            Err(_) => {},
            Ok((k2, attached)) => {
                assert(k2 != k);
                match spec_apply(toks, i, table, st, k2, attached) {
                    Err(_) => {},
                    Ok((st2, next)) => {
                        assert(st2.len() == st.len() && st2[k as int] == st[k as int]);
                        if i < next <= toks.len() {
                            lemma_scan_untouched_slot(toks, next, table, st2, top, k);
                        }
                    },
                }
            },
        }
    }
}

/// Scanning keeps the slots well formed.
pub proof fn lemma_scan_wf(toks: Seq<Seq<char>>, i: nat, table: Seq<DeclView>, st: Seq<SlotView>, top: bool)
    requires
        slots_wf(st, table),
    ensures
        spec_scan(toks, i, table, st, top) matches Ok((st2, _)) ==> slots_wf(st2, table),
    decreases toks.len() - i,
{
    if i < toks.len() && toks[i as int] != "--"@ && spec_optionlike(toks[i as int]) {
        lemma_classify_bound(toks[i as int], table, top);
        match spec_classify(toks[i as int], table, top) {
            Err(_) => {},
            Ok((k, attached)) => match spec_apply(toks, i, table, st, k, attached) {
                Err(_) => {},
                Ok((st2, next)) => {
                    assert(slots_wf(st2, table));
                    if i < next <= toks.len() {
                        lemma_scan_wf(toks, next, table, st2, top);
                    }
                },
            },
        }
    }
}

/// Whether two character sequences are equal.
pub fn chars_eq(a: &[char], b: &[char]) -> (res: bool)
    ensures
        res == (a@ == b@),
{
    if a.len() != b.len() {
        return false;
    }
    let mut i: usize = 0;
    while i < a.len()
        invariant
            a@.len() == b@.len(),
            i <= a@.len(),
            forall|j: int| 0 <= j < i ==> a@[j] == b@[j],
        decreases a@.len() - i,
    {
        if a[i] != b[i] {
            return false;
        }
        i = i + 1;
    }
    assert(a@ =~= b@);
    true
}

/// Whether a character sequence equals a literal.
pub fn is_lit(a: &[char], lit: &str) -> (res: bool)
    ensures
        res == (a@ == lit@),
{
    let l = chars_of(lit);
    chars_eq(a, l.as_slice())
}

/// Whether a token looks like an option.
pub fn optionlike(t: &[char]) -> (res: bool)
    ensures
        res == spec_optionlike(t@),
{
    t.len() >= 2 && t[0] == '-'
}

fn first_index(s: &[char], c: char) -> (res: Option<usize>)
    ensures
        match spec_first_index(s@, c) {
            Some(k) => res matches Some(r) && r == k,
            None => res is None,
        },
        res matches Some(k) ==> k < s@.len(),
{
    let mut i: usize = 0;
    assert(s@.skip(0) =~= s@);
    while i < s.len()
        invariant
            i <= s@.len(),
            spec_first_index(s@, c) == match spec_first_index(s@.skip(i as int), c) {
                Some(k) => Some((k + i) as nat),
                None => None::<nat>,
            },
        decreases s@.len() - i,
    {
        assert(s@.skip(i as int).drop_first() =~= s@.skip(i + 1));
        if s[i] == c {
            return Some(i);
        }
        i = i + 1;
    }
    None
}

fn find_long(table: &[OptDecl], name: &[char]) -> (res: Option<usize>)
    ensures
        match spec_find_long(decls_view(table@), name@, 0) {
            Some(k) => res matches Some(r) && r == k,
            None => res is None,
        },
{
    let ghost tv = decls_view(table@);
    let mut j: usize = 0;
    while j < table.len()
        invariant
            j <= table@.len(),
            tv == decls_view(table@),
            spec_find_long(tv, name@, 0) == spec_find_long(tv, name@, j as nat),
        decreases table@.len() - j,
    {
        assert(tv[j as int].1 == table@[j as int].long@);
        if chars_eq(table[j].long.as_slice(), name) {
            return Some(j);
        }
        j = j + 1;
    }
    None
}

fn find_short(table: &[OptDecl], c: char) -> (res: Option<usize>)
    ensures
        match spec_find_short(decls_view(table@), c, 0) {
            Some(k) => res matches Some(r) && r == k,
            None => res is None,
        },
{
    let ghost tv = decls_view(table@);
    let mut j: usize = 0;
    while j < table.len()
        invariant
            j <= table@.len(),
            tv == decls_view(table@),
            spec_find_short(tv, c, 0) == spec_find_short(tv, c, j as nat),
        decreases table@.len() - j,
    {
        assert(tv[j as int].0 == table@[j as int].short);
        if table[j].short == Some(c) {
            return Some(j);
        }
        j = j + 1;
    }
    None
}

fn classify(t: &[char], table: &[OptDecl], top: bool) -> (res: Result<(usize, Option<Vec<char>>), CliErrorKind>)
    requires
        spec_optionlike(t@),
    ensures
        match spec_classify(t@, decls_view(table@), top) {
            Ok((k, a)) => res matches Ok((k2, a2)) && k2 == k,
            Err(e) => res == Err::<(usize, Option<Vec<char>>), CliErrorKind>(e),
        },
        match spec_classify(t@, decls_view(table@), top) {
            Ok((k, a)) => res matches Ok((k2, a2)) && match a {
                Some(v) => a2 matches Some(w) && w@ == v,
                None => a2 is None,
            },
            Err(e) => true,
        },
        res matches Ok((k, _)) ==> k < table@.len(),
{
    proof {
        lemma_find_long_bound(decls_view(table@), t@.skip(2), 0);
        lemma_find_short_bound(decls_view(table@), t@[1], 0);
    }
    if t.len() > 2 && t[0] == '-' && t[1] == '-' {
        let body = crate::args::chars_from(t, 2);
        proof {
            lemma_first_index_bound(body@, '=');
        }
        let (name, attached) = match first_index(body.as_slice(), '=') {
            Some(e) => {
                let mut n: Vec<char> = Vec::new();
                let mut i: usize = 0;
                while i < e
                    invariant
                        e <= body@.len(),
                        i <= e,
                        n@ == body@.take(i as int),
                    decreases e - i,
                {
                    n.push(body[i]);
                    assert(body@.take(i + 1) =~= body@.take(i as int).push(body@[i as int]));
                    i = i + 1;
                }
                (n, Some(crate::args::chars_from(body.as_slice(), e + 1)))
            },
            None => (body, None),
        };
        proof {
            lemma_find_long_bound(decls_view(table@), name@, 0);
            let sbody = t@.skip(2);
            assert(body@ == sbody);
            let spair = match spec_first_index(sbody, '=') {
                Some(e) => (sbody.take(e as int), Some(sbody.skip(e + 1 as int))),
                None => (sbody, None),
            };
            assert(name@ == spair.0);
            assert(match spair.1 {
                Some(v) => attached matches Some(w) && w@ == v,
                None => attached is None,
            });
        }
        let found = find_long(table, name.as_slice());
        proof {
            let sbody = t@.skip(2);
            let spair = match spec_first_index(sbody, '=') {
                Some(e) => (sbody.take(e as int), Some(sbody.skip(e + 1 as int))),
                None => (sbody, None),
            };
            assert(spec_classify(t@, decls_view(table@), top) == match spec_find_long(decls_view(table@), spair.0, 0) {
                Some(k) => Ok((k, spair.1)),
                None => if spair.0 == "help"@ {
                    Err(CliErrorKind::DisplayHelp)
                } else if top && spair.0 == "version"@ {
                    Err(CliErrorKind::DisplayVersion)
                } else {
                    Err(CliErrorKind::UnexpectedArgument)
                },
            });
        }
        match found {
            Some(k) => Ok((k, attached)),
            None => if is_lit(name.as_slice(), "help") {
                Err(CliErrorKind::DisplayHelp)
            } else if top && is_lit(name.as_slice(), "version") {
                Err(CliErrorKind::DisplayVersion)
            } else {
                Err(CliErrorKind::UnexpectedArgument)
            },
        }
    } else {
        let c = t[1];
        let attached = if t.len() > 2 {
            Some(crate::args::chars_from(t, 2))
        } else {
            None
        };
        let found = find_short(table, c);
        proof {
            assert(c == t@[1]);
            assert(spec_classify(t@, decls_view(table@), top) == match spec_find_short(decls_view(table@), c, 0) {
                Some(k) => Ok((k, if t@.len() > 2 { Some(t@.skip(2)) } else { None })),
                None => if c == 'h' {
                    Err(CliErrorKind::DisplayHelp)
                } else if top && c == 'V' {
                    Err(CliErrorKind::DisplayVersion)
                } else {
                    Err(CliErrorKind::UnexpectedArgument)
                },
            });
        }
        match found {
            Some(k) => Ok((k, attached)),
            None => if c == 'h' {
                Err(CliErrorKind::DisplayHelp)
            } else if top && c == 'V' {
                Err(CliErrorKind::DisplayVersion)
            } else {
                Err(CliErrorKind::UnexpectedArgument)
            },
        }
    }
}

/// The index of the first token, from `j` on, that looks like an option.
fn values_end(toks: &[Vec<char>], j: usize) -> (res: usize)
    requires
        j <= toks@.len(),
    ensures
        res == spec_values_end(chars_view(toks@), j as nat),
        j <= res <= toks@.len(),
{
    let ghost tv = chars_view(toks@);
    let mut e: usize = j;
    while e < toks.len() && !optionlike(toks[e].as_slice())
        invariant
            j <= e <= toks@.len(),
            tv == chars_view(toks@),
            spec_values_end(tv, j as nat) == spec_values_end(tv, e as nat),
        decreases toks@.len() - e,
    {
        e = e + 1;
    }
    e
}

/// Copies the characters of a token.
fn copy_chars(t: &[char]) -> (res: Vec<char>)
    ensures
        res@ == t@,
{
    crate::args::chars_from(t, 0)
}

/// Copies a list of character vectors.
fn copy_values(vs: &[Vec<char>]) -> (res: Vec<Vec<char>>)
    ensures
        chars_view(res@) == chars_view(vs@),
{
    let mut out: Vec<Vec<char>> = Vec::new();
    let mut j: usize = 0;
    while j < vs.len()
        invariant
            j <= vs@.len(),
            chars_view(out@) == chars_view(vs@.take(j as int)),
        decreases vs@.len() - j,
    {
        let c = copy_chars(vs[j].as_slice());
        proof {
            lemma_chars_view_push(out@, c);
            lemma_chars_view_push(vs@.take(j as int), vs@[j as int]);
            assert(vs@.take(j + 1) =~= vs@.take(j as int).push(vs@[j as int]));
        }
        out.push(c);
        j = j + 1;
    }
    assert(vs@.take(j as int) =~= vs@);
    out
}

proof fn lemma_values_end_bound(toks: Seq<Seq<char>>, j: nat)
    requires
        j <= toks.len(),
    ensures
        j <= spec_values_end(toks, j) <= toks.len(),
    decreases toks.len() - j,
{
    if j < toks.len() && !spec_optionlike(toks[j as int]) {
        lemma_values_end_bound(toks, j + 1);
    }
}

/// Reads the options of one level from token `start` on; see
/// [`spec_scan`].
pub fn scan(toks: &[Vec<char>], start: usize, table: &[OptDecl], top: bool) -> (res: Result<(Vec<OptSlot>, usize), CliErrorKind>)
    requires
        start <= toks@.len(),
    ensures
        match spec_scan(chars_view(toks@), start as nat, decls_view(table@), spec_empty_slots(table@.len()), top) {
            Ok((st, next)) => res matches Ok((slots, n)) && slots_view(slots@) == st && n == next,
            Err(e) => res == Err::<(Vec<OptSlot>, usize), CliErrorKind>(e),
        },
{
    let ghost tv = chars_view(toks@);
    let ghost dv = decls_view(table@);
    let mut slots: Vec<OptSlot> = Vec::new();
    let mut j: usize = 0;
    while j < table.len()
        invariant
            j <= table@.len(),
            slots_view(slots@) == spec_empty_slots(j as nat),
        decreases table@.len() - j,
    {
        let o = OptSlot { seen: false, values: Vec::new() };
        proof {
            assert(chars_view(o.values@) =~= Seq::<Seq<char>>::empty());
            lemma_slots_view_push(slots@, o);
            assert(spec_empty_slots((j + 1) as nat) =~= spec_empty_slots(j as nat).push((false, Seq::<Seq<char>>::empty())));
        }
        slots.push(o);
        j = j + 1;
    }
    let mut i: usize = start;
    while i < toks.len()
        invariant
            start <= i <= toks@.len(),
            tv == chars_view(toks@),
            dv == decls_view(table@),
            slots@.len() == table@.len(),
            spec_scan(tv, start as nat, dv, spec_empty_slots(table@.len()), top) == spec_scan(
                tv,
                i as nat,
                dv,
                slots_view(slots@),
                top,
            ),
        decreases toks@.len() - i,
    {
        let ghost sv = slots_view(slots@);
        let t = toks[i].as_slice();
        assert(tv[i as int] == t@);
        if is_lit(t, "--") {
            if i + 1 < toks.len() {
                return Err(CliErrorKind::UnexpectedArgument);
            }
            return Ok((slots, toks.len()));
        }
        if !optionlike(t) {
            if top {
                return Ok((slots, i));
            }
            return Err(CliErrorKind::UnexpectedArgument);
        }
        let (k, attached) = match classify(t, table, top) {
            Err(e) => {
                return Err(e);
            },
            Ok(x) => x,
        };
        assert(dv[k as int] == (table@[k as int].short, table@[k as int].long@, table@[k as int].kind));
        let kind = table[k].kind;
        let seen = slots[k].seen;
        assert(sv[k as int].0 == seen);
        match kind {
            OptKind::Flag => {
                if attached.is_some() {
                    return Err(CliErrorKind::UnexpectedArgument);
                }
                if seen {
                    return Err(CliErrorKind::ArgumentConflict);
                }
                let o = OptSlot { seen: true, values: Vec::new() };
                proof {
                    assert(chars_view(o.values@) =~= Seq::<Seq<char>>::empty());
                    lemma_slots_view_update(slots@, k as int, o);
                }
                slots.set(k, o);
                i = i + 1;
            },
            OptKind::Single => {
                if seen {
                    return Err(CliErrorKind::ArgumentConflict);
                }
                match attached {
                    Some(v) => {
                        let mut vals: Vec<Vec<char>> = Vec::new();
                        vals.push(v);
                        proof {
                            assert(chars_view(vals@) =~= seq![v@]);
                        }
                        let o = OptSlot { seen: true, values: vals };
                        proof {
                            lemma_slots_view_update(slots@, k as int, o);
                        }
                        slots.set(k, o);
                        i = i + 1;
                    },
                    None => {
                        if i + 1 < toks.len() && !optionlike(toks[i + 1].as_slice()) {
                            assert(tv[i + 1] == toks@[i + 1]@);
                            let v = copy_chars(toks[i + 1].as_slice());
                            let mut vals: Vec<Vec<char>> = Vec::new();
                            vals.push(v);
                            proof {
                                assert(chars_view(vals@) =~= seq![tv[i + 1]]);
                            }
                            let o = OptSlot { seen: true, values: vals };
                            proof {
                                lemma_slots_view_update(slots@, k as int, o);
                            }
                            slots.set(k, o);
                            i = i + 2;
                        } else {
                            return Err(CliErrorKind::MissingValue);
                        }
                    },
                }
            },
            OptKind::Multi => {
                let mut vals: Vec<Vec<char>> = copy_values(slots[k].values.as_slice());
                assert(chars_view(vals@) == sv[k as int].1);
                match attached {
                    Some(v) => {
                        proof {
                            lemma_chars_view_push(vals@, v);
                        }
                        vals.push(v);
                        let o = OptSlot { seen: true, values: vals };
                        proof {
                            lemma_slots_view_update(slots@, k as int, o);
                        }
                        slots.set(k, o);
                        i = i + 1;
                    },
                    None => {
                        let end = values_end(toks, i + 1);
                        if end == i + 1 {
                            return Err(CliErrorKind::MissingValue);
                        }
                        let ghost before = chars_view(vals@);
                        let mut m: usize = i + 1;
                        while m < end
                            invariant
                                i + 1 <= m <= end <= toks@.len(),
                                tv == chars_view(toks@),
                                chars_view(vals@) == before + tv.subrange(i + 1, m as int),
                            decreases end - m,
                        {
                            let v = copy_chars(toks[m].as_slice());
                            proof {
                                assert(tv[m as int] == toks@[m as int]@);
                                lemma_chars_view_push(vals@, v);
                                assert(before + tv.subrange(i + 1, m + 1) =~= (before + tv.subrange(i + 1, m as int)).push(tv[m as int]));
                            }
                            vals.push(v);
                            m = m + 1;
                        }
                        let o = OptSlot { seen: true, values: vals };
                        proof {
                            lemma_slots_view_update(slots@, k as int, o);
                        }
                        slots.set(k, o);
                        i = end;
                    },
                }
            },
        }
    }
    Ok((slots, i))
}

} // verus!
