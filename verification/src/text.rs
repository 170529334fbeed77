//! Character-level building blocks of SQL text: quoted identifiers, string literals,
//! decimal numerals and separated lists.

use vstd::prelude::*;
use crate::types::DBEngine;

verus! {

/// `String::push` appends the given character to the end of the string and changes
/// nothing else. This is the one fact about the standard library that the text
/// builders rest on without proof.
pub assume_specification[ std::string::String::push ](s: &mut std::string::String, c: char)
    ensures
        final(s)@ == old(s)@.push(c),
;

/// The character that encloses an identifier: a backtick for MySQL, a double quote for
/// PostgreSQL and SQLite.
pub open spec fn quote_char(d: DBEngine) -> char {
    match d {
        DBEngine::Mysql => '`',
        DBEngine::Postgres => '"',
        DBEngine::Sqlite => '"',
    }
}

/// `s` with every occurrence of `q` written twice.
pub open spec fn doubled(s: Seq<char>, q: char) -> Seq<char>
    decreases s.len(),
{
    if s.len() == 0 {
        Seq::empty()
    } else if s.last() == q {
        doubled(s.drop_last(), q).push(q).push(q)
    } else {
        doubled(s.drop_last(), q).push(s.last())
    }
}

/// A quoted identifier: the name between two quote characters, with every quote
/// character inside the name doubled.
pub open spec fn ident_text(name: Seq<char>, d: DBEngine) -> Seq<char> {
    seq![quote_char(d)] + doubled(name, quote_char(d)) + seq![quote_char(d)]
}

/// What one character of a string literal is written as: a single quote is doubled in
/// every dialect, and MySQL, which reads the backslash as an escape, has it doubled too.
pub open spec fn escaped_char(c: char, d: DBEngine) -> Seq<char> {
    if c == '\'' {
        seq!['\'', '\'']
    } else if c == '\\' && d == DBEngine::Mysql {
        seq!['\\', '\\']
    } else {
        seq![c]
    }
}

/// The characters of `s`, each written as `escaped_char` says.
pub open spec fn escaped(s: Seq<char>, d: DBEngine) -> Seq<char>
    decreases s.len(),
{
    if s.len() == 0 {
        Seq::empty()
    } else {
        escaped(s.drop_last(), d) + escaped_char(s.last(), d)
    }
}

/// A string literal: the escaped text between two single quotes.
pub open spec fn string_literal(s: Seq<char>, d: DBEngine) -> Seq<char> {
    seq!['\''] + escaped(s, d) + seq!['\'']
}

/// The character of one decimal digit.
pub open spec fn digit_char(d: int) -> char {
    if d == 0 {
        '0'
    } else if d == 1 {
        '1'
    } else if d == 2 {
        '2'
    } else if d == 3 {
        '3'
    } else if d == 4 {
        '4'
    } else if d == 5 {
        '5'
    } else if d == 6 {
        '6'
    } else if d == 7 {
        '7'
    } else if d == 8 {
        '8'
    } else {
        '9'
    }
}

/// The decimal numeral of a natural number, without leading zeros.
pub open spec fn nat_text(n: nat) -> Seq<char>
    decreases n,
{
    if n < 10 {
        seq![digit_char(n as int)]
    } else {
        nat_text(n / 10).push(digit_char((n % 10) as int))
    }
}

/// The decimal numeral of an integer: a minus sign before the magnitude of a negative one.
pub open spec fn int_text(i: int) -> Seq<char> {
    if i < 0 {
        seq!['-'] + nat_text((-i) as nat)
    } else {
        nat_text(i as nat)
    }
}

/// Whether the character is one of the ten decimal digits.
pub open spec fn is_digit(c: char) -> bool {
    '0' <= c && c <= '9'
}

/// Whether every character is a decimal digit.
pub open spec fn all_digits(s: Seq<char>) -> bool {
    forall|i: int| 0 <= i < s.len() ==> is_digit(#[trigger] s[i])
}

/// An unsigned decimal numeral: one or more digits, optionally followed by a point and
/// one or more digits.
pub open spec fn is_unsigned_decimal(s: Seq<char>) -> bool {
    ||| (s.len() > 0 && all_digits(s))
    ||| exists|k: int|
        0 < k < s.len() - 1 && #[trigger] s[k] == '.' && all_digits(s.take(k)) && all_digits(
            s.skip(k + 1),
        )
}

/// A decimal numeral with an optional leading minus sign. Every finite binary
/// floating-point number has such a numeral.
pub open spec fn is_decimal_literal(s: Seq<char>) -> bool {
    if s.len() > 0 && s[0] == '-' {
        is_unsigned_decimal(s.skip(1))
    } else {
        is_unsigned_decimal(s)
    }
}

/// The parts in order, with `sep` between each two neighbours.
pub open spec fn joined(parts: Seq<Seq<char>>, sep: Seq<char>) -> Seq<char>
    decreases parts.len(),
{
    if parts.len() == 0 {
        Seq::empty()
    } else if parts.len() == 1 {
        parts[0]
    } else {
        joined(parts.drop_last(), sep) + sep + parts.last()
    }
}

/// Each name as a quoted identifier.
pub open spec fn ident_texts(names: Seq<Seq<char>>, d: DBEngine) -> Seq<Seq<char>> {
    Seq::new(names.len(), |i: int| ident_text(names[i], d))
}

/// The texts of the strings of a vector.
pub open spec fn string_views(v: Seq<String>) -> Seq<Seq<char>> {
    Seq::new(v.len(), |i: int| v[i]@)
}

/// Doubling loses nothing: two texts that are doubled to the same text are the same.
pub proof fn lemma_doubled_is_injective(a: Seq<char>, b: Seq<char>, q: char)
    requires
        doubled(a, q) == doubled(b, q),
    ensures
        a == b,
    decreases a.len(),
{
    if a.len() == 0 || b.len() == 0 {
        assert(a.len() == 0 ==> a =~= Seq::<char>::empty());
        assert(b.len() == 0 ==> b =~= Seq::<char>::empty());
        assert(a =~= b);
    } else {
        let da = doubled(a.drop_last(), q);
        let db = doubled(b.drop_last(), q);
        assert(doubled(a, q).last() == a.last());
        assert(doubled(b, q).last() == b.last());
        if a.last() == q {
            assert(da.push(q).push(q).drop_last().drop_last() =~= da);
            assert(db.push(q).push(q).drop_last().drop_last() =~= db);
        } else {
            assert(da.push(a.last()).drop_last() =~= da);
            assert(db.push(b.last()).drop_last() =~= db);
        }
        lemma_doubled_is_injective(a.drop_last(), b.drop_last(), q);
        assert(a =~= a.drop_last().push(a.last()));
        assert(b =~= b.drop_last().push(b.last()));
    }
}

/// Different names are never written as the same identifier.
pub proof fn lemma_ident_text_is_injective(a: Seq<char>, b: Seq<char>, d: DBEngine)
    requires
        ident_text(a, d) == ident_text(b, d),
    ensures
        a == b,
{
    let q = quote_char(d);
    let ta = ident_text(a, d);
    let tb = ident_text(b, d);
    assert(ta.subrange(1, ta.len() - 1) =~= doubled(a, q));
    assert(tb.subrange(1, tb.len() - 1) =~= doubled(b, q));
    lemma_doubled_is_injective(a, b, q);
}

/// Escaping loses nothing: two texts that are escaped to the same text are the same.
pub proof fn lemma_escaped_is_injective(a: Seq<char>, b: Seq<char>, d: DBEngine)
    requires
        escaped(a, d) == escaped(b, d),
    ensures
        a == b,
    decreases a.len(),
{
    if a.len() == 0 || b.len() == 0 {
        assert(a =~= b);
    } else {
        let ea = escaped(a.drop_last(), d);
        let eb = escaped(b.drop_last(), d);
        let ca = escaped_char(a.last(), d);
        let cb = escaped_char(b.last(), d);
        assert(escaped(a, d).last() == ca.last());
        assert(escaped(b, d).last() == cb.last());
        assert(ca.last() == a.last());
        assert(cb.last() == b.last());
        assert(ca == cb);
        assert(escaped(a, d).subrange(0, escaped(a, d).len() - ca.len()) =~= ea);
        assert(escaped(b, d).subrange(0, escaped(b, d).len() - cb.len()) =~= eb);
        lemma_escaped_is_injective(a.drop_last(), b.drop_last(), d);
        assert(a =~= a.drop_last().push(a.last()));
        assert(b =~= b.drop_last().push(b.last()));
    }
}

/// Different texts are never written as the same string literal.
pub proof fn lemma_string_literal_is_injective(a: Seq<char>, b: Seq<char>, d: DBEngine)
    requires
        string_literal(a, d) == string_literal(b, d),
    ensures
        a == b,
{
    let ta = string_literal(a, d);
    let tb = string_literal(b, d);
    assert(ta.subrange(1, ta.len() - 1) =~= escaped(a, d));
    assert(tb.subrange(1, tb.len() - 1) =~= escaped(b, d));
    lemma_escaped_is_injective(a, b, d);
}

/// One more part joins a list that was joined so far.
pub proof fn lemma_joined_step(parts: Seq<Seq<char>>, sep: Seq<char>, i: int)
    requires
        0 <= i < parts.len(),
    ensures
        joined(parts.take(i + 1), sep) == if i == 0 {
            parts[i]
        } else {
            joined(parts.take(i), sep) + sep + parts[i]
        },
{
    assert(parts.take(i + 1).drop_last() =~= parts.take(i));
}

/// Appends part `i` of a list to the text of the parts before it.
pub(crate) fn append_part(out: &mut String, i: usize, sep: &str, part: &str, Ghost(parts): Ghost<Seq<Seq<char>>>)
    requires
        i < parts.len(),
        part@ == parts[i as int],
        old(out)@ == joined(parts.take(i as int), sep@),
    ensures
        final(out)@ == joined(parts.take(i as int + 1), sep@),
{
    proof {
        lemma_joined_step(parts, sep@, i as int);
    }
    if i > 0 {
        out.append(sep);
    }
    out.append(part);
}

/// The character that encloses an identifier in the dialect.
pub fn quote_char_of(d: DBEngine) -> (q: char)
    ensures
        q == quote_char(d),
{
    match d {
        DBEngine::Mysql => '`',
        DBEngine::Postgres => '"',
        DBEngine::Sqlite => '"',
    }
}

/// Writes a name as a quoted identifier of the dialect.
pub fn write_ident(name: &str, d: DBEngine) -> (r: String)
    ensures
        r@ == ident_text(name@, d),
{
    broadcast use vstd::string::group_string_axioms;

    let q = quote_char_of(d);
    let mut out = String::new();
    out.push(q);
    for c in it: name.chars()
        invariant
            it.seq() == name@,
            out@ == seq![q] + doubled(name@.take(it.index()), q),
    {
        assert(name@.take(it.index() + 1).drop_last() =~= name@.take(it.index()));
        if c == q {
            out.push(q);
            out.push(q);
        } else {
            out.push(c);
        }
    }
    assert(name@.take(name@.len() as int) =~= name@);
    out.push(q);
    out
}

/// Writes a text as a string literal of the dialect.
pub fn write_string_literal(s: &str, d: DBEngine) -> (r: String)
    ensures
        r@ == string_literal(s@, d),
{
    broadcast use vstd::string::group_string_axioms;

    let mut out = String::new();
    out.push('\'');
    for c in it: s.chars()
        invariant
            it.seq() == s@,
            out@ == seq!['\''] + escaped(s@.take(it.index()), d),
    {
        assert(s@.take(it.index() + 1).drop_last() =~= s@.take(it.index()));
        if c == '\'' {
            out.push('\'');
            out.push('\'');
        } else if c == '\\' && d == DBEngine::Mysql {
            out.push('\\');
            out.push('\\');
        } else {
            out.push(c);
        }
    }
    assert(s@.take(s@.len() as int) =~= s@);
    out.push('\'');
    out
}

fn digit_of(d: u64) -> (c: char)
    requires
        d < 10,
    ensures
        c == digit_char(d as int),
{
    if d == 0 {
        '0'
    } else if d == 1 {
        '1'
    } else if d == 2 {
        '2'
    } else if d == 3 {
        '3'
    } else if d == 4 {
        '4'
    } else if d == 5 {
        '5'
    } else if d == 6 {
        '6'
    } else if d == 7 {
        '7'
    } else if d == 8 {
        '8'
    } else {
        '9'
    }
}

fn push_nat(out: &mut String, n: u64)
    ensures
        final(out)@ == old(out)@ + nat_text(n as nat),
    decreases n,
{
    if n >= 10 {
        push_nat(out, n / 10);
    }
    out.push(digit_of(n % 10));
}

/// Writes the decimal numeral of an unsigned number.
pub fn write_u64(n: u64) -> (r: String)
    ensures
        r@ == nat_text(n as nat),
{
    let mut out = String::new();
    push_nat(&mut out, n);
    out
}

/// Writes the decimal numeral of a signed number.
pub fn write_i64(v: i64) -> (r: String)
    ensures
        r@ == int_text(v as int),
{
    let mut out = String::new();
    if v < 0 {
        out.push('-');
        let magnitude: u64 = ((-(v + 1)) as u64) + 1;
        push_nat(&mut out, magnitude);
    } else {
        push_nat(&mut out, v as u64);
    }
    out
}

/// Writes the names as quoted identifiers, separated by a comma and a space.
pub fn write_ident_list(names: &Vec<String>, d: DBEngine) -> (r: String)
    ensures
        r@ == joined(ident_texts(string_views(names@), d), ", "@),
{
    let ghost parts = ident_texts(string_views(names@), d);
    let mut out = String::new();
    let mut i: usize = 0;
    while i < names.len()
        invariant
            i <= names.len(),
            parts == ident_texts(string_views(names@), d),
            out@ == joined(parts.take(i as int), ", "@),
        decreases names.len() - i,
    {
        let part = write_ident(names[i].as_str(), d);
        append_part(&mut out, i, ", ", part.as_str(), Ghost(parts));
        i += 1;
    }
    assert(parts.take(names.len() as int) =~= parts);
    out
}

/// Decides whether a text is a decimal numeral.
pub fn check_decimal_literal(s: &str) -> (ok: bool)
    ensures
        ok == is_decimal_literal(s@),
{
    broadcast use vstd::string::group_string_axioms;

    // Where the scan stands: 0 at the start, 1 after the sign, 2 inside the integer
    // digits, 3 after the point, 4 inside the fraction digits.
    let mut state: u8 = 0;
    let ghost mut start: int = 0;
    let ghost mut point: int = 0;
    for c in it: s.chars()
        invariant
            it.seq() == s@,
            state <= 4,
            state == 0 ==> it.index() == 0 && start == 0,
            state == 1 ==> it.index() == 1 && start == 1 && s@[0] == '-',
            state >= 2 ==> (start == 0 || (start == 1 && s@[0] == '-')) && (start == 0 ==> s@[0]
                != '-'),
            state == 2 ==> start < it.index() && forall|j: int|
                start <= j < it.index() ==> is_digit(#[trigger] s@[j]),
            state >= 3 ==> start < point < it.index() && s@[point] == '.' && forall|j: int|
                start <= j < point ==> is_digit(#[trigger] s@[j]),
            state == 3 ==> it.index() == point + 1,
            state == 4 ==> point + 1 < it.index() && forall|j: int|
                point < j < it.index() ==> is_digit(#[trigger] s@[j]),
    {
        let ghost i = it.index();
        let digit = '0' <= c && c <= '9';
        if state == 0 && c == '-' {
            state = 1;
            proof {
                start = 1;
            }
        } else if digit && state <= 2 {
            state = 2;
        } else if digit {
            state = 4;
        } else if c == '.' && state == 2 {
            state = 3;
            proof {
                point = i;
            }
        } else {
            proof {
                lemma_bad_char_rejects(s@, start, point, i, state as int);
            }
            return false;
        }
    }
    proof {
        lemma_scan_end(s@, start, point, state as int);
    }
    state == 2 || state == 4
}

proof fn lemma_bad_char_rejects(s: Seq<char>, start: int, point: int, i: int, state: int)
    requires
        0 <= i < s.len(),
        0 <= state <= 4,
        state == 0 ==> i == 0 && start == 0 && s[i] != '-',
        state == 1 ==> i == 1 && start == 1 && s[0] == '-',
        state >= 2 ==> (start == 0 || (start == 1 && s[0] == '-')) && (start == 0 ==> s[0] != '-'),
        state == 2 ==> start < i && forall|j: int| start <= j < i ==> is_digit(#[trigger] s[j]),
        state >= 3 ==> start < point < i && s[point] == '.' && forall|j: int|
            start <= j < point ==> is_digit(#[trigger] s[j]),
        state == 3 ==> i == point + 1,
        state == 4 ==> point + 1 < i && forall|j: int| point < j < i ==> is_digit(#[trigger] s[j]),
        !is_digit(s[i]),
        state == 2 ==> s[i] != '.',
    ensures
        !is_decimal_literal(s),
{
    let body = s.skip(start);
    let at = i - start;
    assert(start == 0 ==> body =~= s);
    assert(body[at] == s[i]);
    assert(!all_digits(body));
    assert forall|k: int|
        0 < k < body.len() - 1 && #[trigger] body[k] == '.' && all_digits(body.take(k)) implies !all_digits(
        body.skip(k + 1),
    ) by {
        if k > at {
            assert(body.take(k)[at] == body[at]);
        } else if k == at {
            assert(state >= 3);
            assert(body.take(k)[point - start] == s[point]);
        } else {
            assert(body[k] == s[k + start]);
            if state >= 3 {
                if k + start < point {
                    assert(is_digit(s[k + start]));
                } else if k + start == point {
                    assert(body.skip(k + 1)[at - k - 1] == body[at]);
                } else {
                    assert(is_digit(s[k + start]));
                }
            } else {
                assert(is_digit(s[k + start]));
            }
        }
    }
}

proof fn lemma_scan_end(s: Seq<char>, start: int, point: int, state: int)
    requires
        0 <= state <= 4,
        state == 0 ==> s.len() == 0 && start == 0,
        state == 1 ==> s.len() == 1 && start == 1 && s[0] == '-',
        state >= 2 ==> (start == 0 || (start == 1 && s[0] == '-')) && (start == 0 ==> s[0] != '-'),
        state == 2 ==> start < s.len() && forall|j: int|
            start <= j < s.len() ==> is_digit(#[trigger] s[j]),
        state >= 3 ==> start < point < s.len() && s[point] == '.' && forall|j: int|
            start <= j < point ==> is_digit(#[trigger] s[j]),
        state == 3 ==> s.len() == point + 1,
        state == 4 ==> point + 1 < s.len() && forall|j: int|
            point < j < s.len() ==> is_digit(#[trigger] s[j]),
    ensures
        is_decimal_literal(s) == (state == 2 || state == 4),
{
    let body = s.skip(start);
    assert(start == 0 ==> body =~= s);
    if state == 2 {
        assert forall|j: int| 0 <= j < body.len() implies is_digit(#[trigger] body[j]) by {
            assert(body[j] == s[j + start]);
        }
    } else if state == 4 {
        let k = point - start;
        assert(body[k] == '.');
        assert forall|j: int| 0 <= j < body.take(k).len() implies is_digit(
            #[trigger] body.take(k)[j],
        ) by {
            assert(body.take(k)[j] == s[j + start]);
        }
        assert forall|j: int| 0 <= j < body.skip(k + 1).len() implies is_digit(
            #[trigger] body.skip(k + 1)[j],
        ) by {
            assert(body.skip(k + 1)[j] == s[j + point + 1]);
        }
    } else if state == 3 {
        let at = point - start;
        assert(body[at] == '.');
        assert(!all_digits(body));
        assert forall|k: int|
            0 < k < body.len() - 1 && #[trigger] body[k] == '.' && all_digits(
                body.take(k),
            ) implies !all_digits(body.skip(k + 1)) by {
            assert(body[k] == s[k + start]);
            assert(is_digit(s[k + start]));
        }
    } else {
        assert(body.len() == 0);
    }
}

} // verus!
