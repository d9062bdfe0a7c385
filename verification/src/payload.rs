//! Parser for the addition payload: a JSON object with the two required
//! integer members `a` and `b`.
//!
//! The accepted grammar is the JSON object form with scalar members only:
//! member values are integers of at most ten digits, strings without escape
//! sequences, `true`, `false` or `null`; nested objects and arrays are
//! rejected.  Members other than `a` and `b` are allowed and ignored; a
//! duplicated `a` or `b`, a missing member, a value of the wrong type or a
//! value outside the signed 32-bit range all make the parse fail.

use vstd::prelude::*;

verus! {

// ---------------------------------------------------------------------------
// Character classes
// ---------------------------------------------------------------------------

/// JSON insignificant whitespace.
pub open spec fn is_ws_char(c: char) -> bool {
    c == ' ' || c == '\t' || c == '\n' || c == '\r'
}

/// A decimal digit.
pub open spec fn is_digit_char(c: char) -> bool {
    48 <= c as u32 && c as u32 <= 57
}

/// The numeric value of a decimal digit.
pub open spec fn digit_val(c: char) -> int {
    c as u32 - 48
}

/// A character allowed inside a string literal: anything but the closing
/// quote, the escape character and control characters.
pub open spec fn is_str_char(c: char) -> bool {
    c != '"' && c != '\\' && c as u32 >= 32
}

// ---------------------------------------------------------------------------
// Scanning, in specification form
// ---------------------------------------------------------------------------

/// The first position at or after `i` holding a non-whitespace character.
pub open spec fn ws_end(s: Seq<char>, i: int) -> int
    decreases s.len() - i,
{
    if 0 <= i && i < s.len() && is_ws_char(s[i]) {
        ws_end(s, i + 1)
    } else {
        i
    }
}

/// The first position at or after `i` holding a non-digit character.
pub open spec fn digits_end(s: Seq<char>, i: int) -> int
    decreases s.len() - i,
{
    if 0 <= i && i < s.len() && is_digit_char(s[i]) {
        digits_end(s, i + 1)
    } else {
        i
    }
}

pub proof fn lemma_digits_end(s: Seq<char>, i: int)
    requires
        0 <= i <= s.len(),
    ensures
        i <= digits_end(s, i) <= s.len(),
        forall|k: int| i <= k < digits_end(s, i) ==> is_digit_char(#[trigger] s[k]),
    decreases s.len() - i,
{
    if i < s.len() && is_digit_char(s[i]) {
        lemma_digits_end(s, i + 1);
    }
}

/// The first position at or after `i` that cannot stand inside a string
/// literal.
pub open spec fn str_body_end(s: Seq<char>, i: int) -> int
    decreases s.len() - i,
{
    if 0 <= i && i < s.len() && is_str_char(s[i]) {
        str_body_end(s, i + 1)
    } else {
        i
    }
}

/// The value of the digit run `s[i..j]`, most significant digit first.
pub open spec fn digits_val(s: Seq<char>, i: int, j: int) -> int
    decreases j - i,
{
    if j <= i {
        0
    } else {
        digits_val(s, i, j - 1) * 10 + digit_val(s[j - 1])
    }
}

/// Powers of ten.
pub open spec fn pow10(n: nat) -> int
    decreases n,
{
    if n == 0 {
        1
    } else {
        10 * pow10((n - 1) as nat)
    }
}

// ---------------------------------------------------------------------------
// The grammar, in specification form
// ---------------------------------------------------------------------------

/// An integer literal at `i`: optional minus sign, then digits with no
/// leading zero, at most ten digits, not followed by a fraction or exponent.
/// Yields the value and the position after the literal.
pub open spec fn spec_parse_int(s: Seq<char>, i: int) -> Option<(int, int)> {
    let d0 = if 0 <= i && i < s.len() && s[i] == '-' {
        i + 1
    } else {
        i
    };
    if 0 <= d0 && d0 < s.len() && is_digit_char(s[d0]) {
        let e = if s[d0] == '0' {
            d0 + 1
        } else {
            digits_end(s, d0)
        };
        if e < s.len() && (is_digit_char(s[e]) || s[e] == '.' || s[e] == 'e' || s[e] == 'E') {
            None
        } else if e - d0 > 10 {
            None
        } else {
            let v = digits_val(s, d0, e);
            Some((if d0 != i { -v } else { v }, e))
        }
    } else {
        None
    }
}

/// A string literal at `i`, without escape sequences.  Yields the content
/// bounds and the position after the closing quote.
pub open spec fn spec_parse_str(s: Seq<char>, i: int) -> Option<(int, int, int)> {
    if 0 <= i && i < s.len() && s[i] == '"' {
        let e = str_body_end(s, i + 1);
        if e < s.len() && s[e] == '"' {
            Some((i + 1, e, e + 1))
        } else {
            None
        }
    } else {
        None
    }
}

pub open spec fn kw_true_at(s: Seq<char>, i: int) -> bool {
    0 <= i && i + 4 <= s.len() && s[i] == 't' && s[i + 1] == 'r' && s[i + 2] == 'u' && s[i + 3]
        == 'e'
}

pub open spec fn kw_false_at(s: Seq<char>, i: int) -> bool {
    0 <= i && i + 5 <= s.len() && s[i] == 'f' && s[i + 1] == 'a' && s[i + 2] == 'l' && s[i + 3]
        == 's' && s[i + 4] == 'e'
}

pub open spec fn kw_null_at(s: Seq<char>, i: int) -> bool {
    0 <= i && i + 4 <= s.len() && s[i] == 'n' && s[i + 1] == 'u' && s[i + 2] == 'l' && s[i + 3]
        == 'l'
}

/// A scalar member value at `i`: a string, an integer, `true`, `false` or
/// `null`.  Yields the value when it is an integer, and the position after
/// the literal.
pub open spec fn spec_parse_value(s: Seq<char>, i: int) -> Option<(Option<int>, int)> {
    if spec_parse_str(s, i) is Some {
        Some((None, spec_parse_str(s, i)->Some_0.2))
    } else if spec_parse_int(s, i) is Some {
        Some((Some(spec_parse_int(s, i)->Some_0.0), spec_parse_int(s, i)->Some_0.1))
    } else if kw_true_at(s, i) {
        Some((None, i + 4))
    } else if kw_false_at(s, i) {
        Some((None, i + 5))
    } else if kw_null_at(s, i) {
        Some((None, i + 4))
    } else {
        None
    }
}

/// One `"key": value` member at `i`.  Yields the key bounds, the value when
/// it is an integer, and the position after the member.
pub open spec fn spec_parse_member(s: Seq<char>, i: int) -> Option<(int, int, Option<int>, int)> {
    match spec_parse_str(s, i) {
        None => None,
        Some((ks, ke, j)) => {
            let k = ws_end(s, j);
            if k < s.len() && s[k] == ':' {
                let m = ws_end(s, k + 1);
                match spec_parse_value(s, m) {
                    None => None,
                    Some((nv, e)) => Some((ks, ke, nv, e)),
                }
            } else {
                None
            }
        },
    }
}

/// The key `s[ks..ke]` is the single character `c`.
pub open spec fn key_is(s: Seq<char>, ks: int, ke: int, c: char) -> bool {
    ke - ks == 1 && 0 <= ks < s.len() && s[ks] == c
}

/// A value fits the signed 32-bit range.
pub open spec fn in_i32(n: int) -> bool {
    -0x8000_0000 <= n <= 0x7fff_ffff
}

/// Folds one member into the record of the `a` and `b` values seen so far.
/// A duplicated `a` or `b`, a non-integer value for them, or a value out of
/// the 32-bit range fails; any other key is ignored.
pub open spec fn spec_update_ab(
    s: Seq<char>,
    ks: int,
    ke: int,
    nv: Option<int>,
    a: Option<int>,
    b: Option<int>,
) -> Option<(Option<int>, Option<int>)> {
    if key_is(s, ks, ke, 'a') {
        match nv {
            Some(n) => if a is None && in_i32(n) {
                Some((Some(n), b))
            } else {
                None
            },
            None => None,
        }
    } else if key_is(s, ks, ke, 'b') {
        match nv {
            Some(n) => if b is None && in_i32(n) {
                Some((a, Some(n)))
            } else {
                None
            },
            None => None,
        }
    } else {
        Some((a, b))
    }
}

/// The members of an object from position `i` (at the first key) up to and
/// including the closing brace.  Yields the `a` and `b` values seen and the
/// position after the brace.
pub open spec fn spec_parse_members(s: Seq<char>, i: int, a: Option<int>, b: Option<int>) -> Option<
    (Option<int>, Option<int>, int),
>
    decreases s.len() - i,
{
    match spec_parse_member(s, i) {
        None => None,
        Some((ks, ke, nv, j)) => match spec_update_ab(s, ks, ke, nv, a, b) {
            None => None,
            Some((a2, b2)) => {
                let k = ws_end(s, j);
                if k < s.len() && s[k] == '}' {
                    Some((a2, b2, k + 1))
                } else if k < s.len() && s[k] == ',' {
                    let m = ws_end(s, k + 1);
                    if i < m && m <= s.len() {
                        spec_parse_members(s, m, a2, b2)
                    } else {
                        None
                    }
                } else {
                    None
                }
            },
        },
    }
}

/// The whole payload: one object carrying integer members `a` and `b`,
/// nothing but whitespace around it.
pub open spec fn spec_parse_sum(s: Seq<char>) -> Option<(int, int)> {
    let i0 = ws_end(s, 0);
    if i0 < s.len() && s[i0] == '{' {
        let i1 = ws_end(s, i0 + 1);
        if i1 < s.len() && s[i1] == '}' {
            None
        } else {
            match spec_parse_members(s, i1, None, None) {
                None => None,
                Some((a, b, j)) => {
                    if ws_end(s, j) == s.len() {
                        match (a, b) {
                            (Some(x), Some(y)) => Some((x, y)),
                            _ => None,
                        }
                    } else {
                        None
                    }
                },
            }
        }
    } else {
        None
    }
}

// ---------------------------------------------------------------------------
// The executable parser
// ---------------------------------------------------------------------------

fn is_ws_x(c: char) -> (r: bool)
    ensures
        r == is_ws_char(c),
{
    c == ' ' || c == '\t' || c == '\n' || c == '\r'
}

fn is_digit_x(c: char) -> (r: bool)
    ensures
        r == is_digit_char(c),
{
    let u = c as u32;
    48 <= u && u <= 57
}

fn is_str_char_x(c: char) -> (r: bool)
    ensures
        r == is_str_char(c),
{
    c != '"' && c != '\\' && (c as u32) >= 32
}

fn ws_end_x(v: &Vec<char>, i: usize) -> (r: usize)
    requires
        i <= v.len(),
    ensures
        r as int == ws_end(v@, i as int),
        i <= r <= v.len(),
{
    let mut j: usize = i;
    while j < v.len() && is_ws_x(v[j])
        invariant
            i <= j <= v.len(),
            ws_end(v@, i as int) == ws_end(v@, j as int),
        decreases v.len() - j,
    {
        j += 1;
    }
    j
}

fn digits_end_x(v: &Vec<char>, i: usize) -> (r: usize)
    requires
        i <= v.len(),
    ensures
        r as int == digits_end(v@, i as int),
        i <= r <= v.len(),
{
    let mut j: usize = i;
    while j < v.len() && is_digit_x(v[j])
        invariant
            i <= j <= v.len(),
            digits_end(v@, i as int) == digits_end(v@, j as int),
        decreases v.len() - j,
    {
        j += 1;
    }
    j
}

fn str_body_end_x(v: &Vec<char>, i: usize) -> (r: usize)
    requires
        i <= v.len(),
    ensures
        r as int == str_body_end(v@, i as int),
        i <= r <= v.len(),
{
    let mut j: usize = i;
    while j < v.len() && is_str_char_x(v[j])
        invariant
            i <= j <= v.len(),
            str_body_end(v@, i as int) == str_body_end(v@, j as int),
        decreases v.len() - j,
    {
        j += 1;
    }
    j
}

fn parse_int_x(v: &Vec<char>, i: usize) -> (r: Option<(i64, usize)>)
    requires
        i <= v.len(),
    ensures
        match spec_parse_int(v@, i as int) {
            Some(p) => r matches Some(q) && q.0 as int == p.0 && q.1 as int == p.1 && i < q.1
                <= v.len(),
            None => r is None,
        },
{
    let (neg, d0): (bool, usize) = if i < v.len() && v[i] == '-' {
        (true, i + 1)
    } else {
        (false, i)
    };
    if !(d0 < v.len() && is_digit_x(v[d0])) {
        return None;
    }
    let e: usize = if v[d0] == '0' {
        d0 + 1
    } else {
        digits_end_x(v, d0)
    };
    proof {
        lemma_digits_end(v@, d0 as int);
    }
    if e < v.len() && (is_digit_x(v[e]) || v[e] == '.' || v[e] == 'e' || v[e] == 'E') {
        return None;
    }
    if e - d0 > 10 {
        return None;
    }
    let ghost s = v@;
    let mut val: u64 = 0;
    let mut j: usize = d0;
    while j < e
        invariant
            d0 <= j <= e <= v.len(),
            e - d0 <= 10,
            s == v@,
            forall|k: int| d0 <= k < e ==> is_digit_char(#[trigger] s[k]),
            val as int == digits_val(s, d0 as int, j as int),
            val < pow10((j - d0) as nat),
        decreases e - j,
    {
        proof {
            assert(pow10(((j + 1) - d0) as nat) == 10 * pow10((j - d0) as nat));
            assert(pow10((j - d0) as nat) <= pow10(9)) by {
                lemma_pow10_le((j - d0) as nat, 9);
            }
            assert(pow10(9) == 1_000_000_000) by {
                reveal_with_fuel(pow10, 11);
            }
        }
        let c = v[j];
        let d = (c as u32 - 48) as u64;
        val = val * 10 + d;
        j += 1;
    }
    proof {
        assert(pow10(10) == 10_000_000_000) by {
            reveal_with_fuel(pow10, 12);
        }
        assert(pow10((e - d0) as nat) <= pow10(10)) by {
            lemma_pow10_le((e - d0) as nat, 10);
        }
    }
    let sv: i64 = val as i64;
    Some((if neg { -sv } else { sv }, e))
}

proof fn lemma_pow10_le(m: nat, n: nat)
    requires
        m <= n,
    ensures
        pow10(m) <= pow10(n),
        pow10(m) >= 1,
        pow10(n) >= 1,
    decreases n,
{
    if n > 0 {
        lemma_pow10_le((if m == n { m - 1 } else { m as int }) as nat, (n - 1) as nat);
    }
}

fn parse_str_x(v: &Vec<char>, i: usize) -> (r: Option<(usize, usize, usize)>)
    requires
        i <= v.len(),
    ensures
        match spec_parse_str(v@, i as int) {
            Some(p) => r matches Some(q) && q.0 as int == p.0 && q.1 as int == p.1 && q.2 as int
                == p.2 && i < q.0 <= q.1 && q.1 < v.len() && q.2 <= v.len(),
            None => r is None,
        },
{
    if !(i < v.len()) {
        return None;
    }
    if v[i] != '"' {
        return None;
    }
    let e = str_body_end_x(v, i + 1);
    if e < v.len() && v[e] == '"' {
        Some((i + 1, e, e + 1))
    } else {
        None
    }
}

fn parse_value_x(v: &Vec<char>, i: usize) -> (r: Option<(Option<i64>, usize)>)
    requires
        i <= v.len(),
    ensures
        match spec_parse_value(v@, i as int) {
            Some(p) => r matches Some(q) && (match p.0 {
                Some(n) => q.0 matches Some(m) && m as int == n,
                None => q.0 is None,
            }) && q.1 as int == p.1 && i < q.1 <= v.len(),
            None => r is None,
        },
{
    match parse_str_x(v, i) {
        Some((_, _, n)) => {
            return Some((None, n));
        },
        None => {},
    }
    match parse_int_x(v, i) {
        Some((val, n)) => {
            return Some((Some(val), n));
        },
        None => {},
    }
    if v.len() - i >= 4 && v[i] == 't' && v[i + 1] == 'r' && v[i + 2] == 'u' && v[i + 3] == 'e' {
        return Some((None, i + 4));
    }
    if v.len() - i >= 5 && v[i] == 'f' && v[i + 1] == 'a' && v[i + 2] == 'l' && v[i + 3] == 's' && v[
        i + 4
    ] == 'e' {
        return Some((None, i + 5));
    }
    if v.len() - i >= 4 && v[i] == 'n' && v[i + 1] == 'u' && v[i + 2] == 'l' && v[i + 3] == 'l' {
        return Some((None, i + 4));
    }
    None
}

fn parse_member_x(v: &Vec<char>, i: usize) -> (r: Option<(usize, usize, Option<i64>, usize)>)
    requires
        i <= v.len(),
    ensures
        match spec_parse_member(v@, i as int) {
            Some(p) => r matches Some(q) && q.0 as int == p.0 && q.1 as int == p.1 && (match p.2 {
                Some(n) => q.2 matches Some(m) && m as int == n,
                None => q.2 is None,
            }) && q.3 as int == p.3 && i < q.3 <= v.len() && q.0 <= q.1 && q.1 < v.len(),
            None => r is None,
        },
{
    match parse_str_x(v, i) {
        None => None,
        Some((ks, ke, j)) => {
            let k = ws_end_x(v, j);
            if k < v.len() && v[k] == ':' {
                let m = ws_end_x(v, k + 1);
                match parse_value_x(v, m) {
                    None => None,
                    Some((nv, e)) => Some((ks, ke, nv, e)),
                }
            } else {
                None
            }
        },
    }
}

/// `a` and `b` agree between the executable and the specification record.
pub open spec fn opt_agrees(q: Option<i64>, p: Option<int>) -> bool {
    match (q, p) {
        (Some(x), Some(y)) => x as int == y,
        (None, None) => true,
        _ => false,
    }
}

fn parse_members_x(v: &Vec<char>, i: usize) -> (r: Option<(Option<i64>, Option<i64>, usize)>)
    requires
        i <= v.len(),
    ensures
        match spec_parse_members(v@, i as int, None, None) {
            Some(p) => r matches Some(q) && opt_agrees(q.0, p.0) && opt_agrees(q.1, p.1) && q.2
                as int == p.2 && q.2 <= v.len() && (q.0 matches Some(x) ==> in_i32(x as int)) && (
            q.1 matches Some(y) ==> in_i32(y as int)),
            None => r is None,
        },
{
    let mut a: Option<i64> = None;
    let mut b: Option<i64> = None;
    let mut j: usize = i;
    loop
        invariant
            i <= j <= v.len(),
            a matches Some(x) ==> in_i32(x as int),
            b matches Some(y) ==> in_i32(y as int),
            spec_parse_members(v@, i as int, None, None) == spec_parse_members(
                v@,
                j as int,
                spec_of_opt(a),
                spec_of_opt(b),
            ),
        decreases v.len() - j,
    {
        match parse_member_x(v, j) {
            None => {
                return None;
            },
            Some((ks, ke, nv, j2)) => {
                let key_a: bool = ke - ks == 1 && v[ks] == 'a';
                let key_b: bool = ke - ks == 1 && v[ks] == 'b';
                let mut a2 = a;
                let mut b2 = b;
                if key_a {
                    match nv {
                        Some(n) => {
                            if a.is_some() || n < -0x8000_0000i64 || n > 0x7fff_ffffi64 {
                                return None;
                            }
                            a2 = Some(n);
                        },
                        None => {
                            return None;
                        },
                    }
                } else if key_b {
                    match nv {
                        Some(n) => {
                            if b.is_some() || n < -0x8000_0000i64 || n > 0x7fff_ffffi64 {
                                return None;
                            }
                            b2 = Some(n);
                        },
                        None => {
                            return None;
                        },
                    }
                }
                proof {
                    assert(spec_update_ab(
                        v@,
                        ks as int,
                        ke as int,
                        spec_of_opt(nv),
                        spec_of_opt(a),
                        spec_of_opt(b),
                    ) == Some((spec_of_opt(a2), spec_of_opt(b2))));
                }
                let k = ws_end_x(v, j2);
                if k < v.len() && v[k] == '}' {
                    return Some((a2, b2, k + 1));
                } else if k < v.len() && v[k] == ',' {
                    let m = ws_end_x(v, k + 1);
                    a = a2;
                    b = b2;
                    j = m;
                } else {
                    return None;
                }
            },
        }
    }
}

/// The integer view of an optional machine integer.
pub open spec fn spec_of_opt(q: Option<i64>) -> Option<int> {
    match q {
        Some(x) => Some(x as int),
        None => None,
    }
}

/// Parses the addition payload, yielding the two integers exactly when the
/// character sequence belongs to the accepted grammar.
pub fn parse_sum(v: &Vec<char>) -> (r: Option<(i64, i64)>)
    ensures
        match spec_parse_sum(v@) {
            Some(p) => r matches Some(q) && q.0 as int == p.0 && q.1 as int == p.1 && in_i32(
                q.0 as int,
            ) && in_i32(q.1 as int),
            None => r is None,
        },
{
    let i0 = ws_end_x(v, 0);
    if !(i0 < v.len()) {
        return None;
    }
    if v[i0] != '{' {
        return None;
    }
    let i1 = ws_end_x(v, i0 + 1);
    if i1 < v.len() && v[i1] == '}' {
        return None;
    }
    match parse_members_x(v, i1) {
        None => None,
        Some((a, b, j)) => {
            let j2 = ws_end_x(v, j);
            if j2 != v.len() {
                return None;
            }
            match (a, b) {
                (Some(x), Some(y)) => Some((x, y)),
                _ => None,
            }
        },
    }
}

} // verus!
