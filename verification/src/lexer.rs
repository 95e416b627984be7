//! Byte-level tokens of the DBC text format.
//!
//! Every token is described by a spec function over the input bytes `s` and a
//! start position `p`; it yields the position just after the token (and, for
//! numbers, the value). The executable functions are proved equal to them.
use vstd::prelude::*;

verus! {

/// The classes of bytes that the grammar skips over or collects.
#[derive(Clone, Copy, Debug, PartialEq, Eq)]
pub enum Class {
    /// Blank inside a line: space or tab.
    Space,
    /// Any blank: space, tab, carriage return or line feed.
    MultiSpace,
    /// A decimal digit.
    Digit,
    /// A letter, a digit or an underscore.
    IdentChar,
    /// Anything but a double quote.
    NotQuote,
    /// Anything but a semicolon.
    NotSemicolon,
}

pub open spec fn is_space(b: u8) -> bool {
    b == 32 || b == 9
}

pub open spec fn is_multispace(b: u8) -> bool {
    is_space(b) || b == 10 || b == 13
}

pub open spec fn is_digit(b: u8) -> bool {
    48 <= b <= 57
}

pub open spec fn is_alpha(b: u8) -> bool {
    (65 <= b <= 90) || (97 <= b <= 122)
}

pub open spec fn is_ident_head(b: u8) -> bool {
    is_alpha(b) || b == 95
}

pub open spec fn is_ident_char(b: u8) -> bool {
    is_ident_head(b) || is_digit(b)
}

pub open spec fn in_class(c: Class, b: u8) -> bool {
    match c {
        Class::Space => is_space(b),
        Class::MultiSpace => is_multispace(b),
        Class::Digit => is_digit(b),
        Class::IdentChar => is_ident_char(b),
        Class::NotQuote => b != 34,
        Class::NotSemicolon => b != 59,
    }
}

pub fn in_class_exec(c: Class, b: u8) -> (r: bool)
    ensures
        r == in_class(c, b),
{
    match c {
        Class::Space => b == 32 || b == 9,
        Class::MultiSpace => b == 32 || b == 9 || b == 10 || b == 13,
        Class::Digit => 48 <= b && b <= 57,
        Class::IdentChar => (65 <= b && b <= 90) || (97 <= b && b <= 122) || b == 95 || (48 <= b
            && b <= 57),
        Class::NotQuote => b != 34,
        Class::NotSemicolon => b != 59,
    }
}

/// The position of the first byte at or after `p` that is not in class `c`
/// (or the end of the input).
pub open spec fn skip_while(s: Seq<u8>, p: int, c: Class) -> int
    decreases s.len() - p,
{
    if 0 <= p < s.len() && in_class(c, s[p]) {
        skip_while(s, p + 1, c)
    } else {
        p
    }
}

pub proof fn lemma_skip_while(s: Seq<u8>, p: int, c: Class)
    requires
        0 <= p <= s.len(),
    ensures
        p <= skip_while(s, p, c) <= s.len(),
        forall|k: int| p <= k < skip_while(s, p, c) ==> in_class(c, #[trigger] s[k]),
        skip_while(s, p, c) < s.len() ==> !in_class(c, s[skip_while(s, p, c)]),
    decreases s.len() - p,
{
    if p < s.len() && in_class(c, s[p]) {
        lemma_skip_while(s, p + 1, c);
    }
}

/// Skipping stops at a byte outside the class, or at the end.
pub proof fn lemma_skip_stops(s: Seq<u8>, p: int, c: Class)
    requires
        0 <= p <= s.len(),
    ensures
        skip_while(s, p, c) < s.len() ==> !in_class(c, s[skip_while(s, p, c)]),
    decreases s.len() - p,
{
    if p < s.len() && in_class(c, s[p]) {
        lemma_skip_stops(s, p + 1, c);
    }
}

pub fn skip(s: &[u8], p: usize, c: Class) -> (q: usize)
    requires
        p <= s@.len(),
    ensures
        q == skip_while(s@, p as int, c),
        p <= q <= s@.len(),
{
    let mut i = p;
    while i < s.len() && in_class_exec(c, s[i])
        invariant
            p <= i <= s@.len(),
            skip_while(s@, p as int, c) == skip_while(s@, i as int, c),
        decreases s@.len() - i,
    {
        i = i + 1;
    }
    i
}

/// `t` stands at position `p`.
pub open spec fn tag(s: Seq<u8>, p: int, t: Seq<u8>) -> Option<int> {
    if 0 <= p && p + t.len() <= s.len() && s.subrange(p, p + t.len()) == t {
        Some(p + t.len())
    } else {
        None
    }
}

pub fn tag_exec(s: &[u8], p: usize, t: &[u8]) -> (r: Option<usize>)
    requires
        p <= s@.len(),
    ensures
        r matches Some(q) ==> tag(s@, p as int, t@) == Some(q as int) && p <= q <= s@.len(),
        r is None ==> tag(s@, p as int, t@) is None,
{
    if t.len() > s.len() - p {
        return None;
    }
    let n = s.len();
    let mut i: usize = 0;
    while i < t.len()
        invariant
            n == s@.len(),
            i <= t@.len(),
            p <= s@.len(),
            p + t@.len() <= s@.len(),
            forall|k: int| 0 <= k < i ==> s@[p + k] == t@[k],
        decreases t@.len() - i,
    {
        if s[p + i] != t[i] {
            assert(s@.subrange(p as int, p + t@.len())[i as int] != t@[i as int]);
            return None;
        }
        i = i + 1;
    }
    assert(s@.subrange(p as int, p + t@.len()) =~= t@);
    Some(p + t.len())
}

/// A single byte `b` at position `p`.
pub open spec fn byte_at(s: Seq<u8>, p: int, b: u8) -> Option<int> {
    if 0 <= p < s.len() && s[p] == b {
        Some(p + 1)
    } else {
        None
    }
}

pub fn byte_exec(s: &[u8], p: usize, b: u8) -> (r: Option<usize>)
    requires
        p <= s@.len(),
    ensures
        r matches Some(q) ==> byte_at(s@, p as int, b) == Some(q as int) && q == p + 1 && q
            <= s@.len(),
        r is None ==> byte_at(s@, p as int, b) is None,
{
    if p < s.len() && s[p] == b {
        Some(p + 1)
    } else {
        None
    }
}

/// Zero or more blanks of any kind.
pub open spec fn ms0(s: Seq<u8>, p: int) -> int {
    skip_while(s, p, Class::MultiSpace)
}

/// Zero or more spaces or tabs.
pub open spec fn ws0(s: Seq<u8>, p: int) -> int {
    skip_while(s, p, Class::Space)
}

/// One or more spaces or tabs.
pub open spec fn ws1(s: Seq<u8>, p: int) -> Option<int> {
    if ws0(s, p) > p {
        Some(ws0(s, p))
    } else {
        None
    }
}

pub fn ws1_exec(s: &[u8], p: usize) -> (r: Option<usize>)
    requires
        p <= s@.len(),
    ensures
        r matches Some(q) ==> ws1(s@, p as int) == Some(q as int) && p < q <= s@.len(),
        r is None ==> ws1(s@, p as int) is None,
{
    let q = skip(s, p, Class::Space);
    if q > p {
        Some(q)
    } else {
        None
    }
}

/// A line ending: `\n` or `\r\n`.
pub open spec fn eol(s: Seq<u8>, p: int) -> Option<int> {
    match byte_at(s, p, 10) {
        Some(q) => Some(q),
        None => match byte_at(s, p, 13) {
            Some(q) => byte_at(s, q, 10),
            None => None,
        },
    }
}

pub fn eol_exec(s: &[u8], p: usize) -> (r: Option<usize>)
    requires
        p <= s@.len(),
    ensures
        r matches Some(q) ==> eol(s@, p as int) == Some(q as int) && p < q <= s@.len(),
        r is None ==> eol(s@, p as int) is None,
{
    match byte_exec(s, p, 10) {
        Some(q) => Some(q),
        None => match byte_exec(s, p, 13) {
            Some(q) => byte_exec(s, q, 10),
            None => None,
        },
    }
}

/// An identifier: a letter or underscore, then letters, digits or underscores.
/// Yields the position after it.
pub open spec fn ident(s: Seq<u8>, p: int) -> Option<int> {
    if 0 <= p < s.len() && is_ident_head(s[p]) {
        Some(skip_while(s, p + 1, Class::IdentChar))
    } else {
        None
    }
}

pub fn ident_exec(s: &[u8], p: usize) -> (r: Option<usize>)
    requires
        p <= s@.len(),
    ensures
        r matches Some(q) ==> ident(s@, p as int) == Some(q as int) && p < q <= s@.len(),
        r is None ==> ident(s@, p as int) is None,
{
    if p < s.len() && ((65 <= s[p] && s[p] <= 90) || (97 <= s[p] && s[p] <= 122) || s[p] == 95) {
        Some(skip(s, p + 1, Class::IdentChar))
    } else {
        None
    }
}

/// A double-quoted string: yields the bounds `(a, b)` of its contents and the
/// position after the closing quote.
pub open spec fn quoted(s: Seq<u8>, p: int) -> Option<(int, int)> {
    match byte_at(s, p, 34) {
        Some(a) => {
            let b = skip_while(s, a, Class::NotQuote);
            match byte_at(s, b, 34) {
                Some(q) => Some((b, q)),
                None => None,
            }
        },
        None => None,
    }
}

pub fn quoted_exec(s: &[u8], p: usize) -> (r: Option<(usize, usize)>)
    requires
        p <= s@.len(),
    ensures
        r matches Some((b, q)) ==> quoted(s@, p as int) == Some((b as int, q as int)) && p < b
            < q <= s@.len() && q == b + 1,
        r is None ==> quoted(s@, p as int) is None,
{
    match byte_exec(s, p, 34) {
        Some(a) => {
            let b = skip(s, a, Class::NotQuote);
            match byte_exec(s, b, 34) {
                Some(q) => Some((b, q)),
                None => None,
            }
        },
        None => None,
    }
}

/// The decimal value of a run of digits.
pub open spec fn dec_value(d: Seq<u8>) -> int
    decreases d.len(),
{
    if d.len() == 0 {
        0
    } else {
        dec_value(d.drop_last()) * 10 + (d.last() - 48)
    }
}

/// One or more digits: yields their value and the position after them.
pub open spec fn digits(s: Seq<u8>, p: int) -> Option<(int, int)> {
    let q = skip_while(s, p, Class::Digit);
    if q > p {
        Some((dec_value(s.subrange(p, q)), q))
    } else {
        None
    }
}

pub proof fn lemma_dec_value_nonneg(d: Seq<u8>)
    requires
        forall|k: int| 0 <= k < d.len() ==> is_digit(#[trigger] d[k]),
    ensures
        dec_value(d) >= 0,
    decreases d.len(),
{
    if d.len() > 0 {
        lemma_dec_value_nonneg(d.drop_last());
    }
}

/// Appending digits never makes the value smaller.
proof fn lemma_dec_value_grows(s: Seq<u8>, p: int, i: int, j: int)
    requires
        0 <= p <= i <= j <= s.len(),
        forall|k: int| p <= k < j ==> is_digit(#[trigger] s[k]),
    ensures
        dec_value(s.subrange(p, i)) <= dec_value(s.subrange(p, j)),
    decreases j - i,
{
    if i < j {
        lemma_dec_value_grows(s, p, i, j - 1);
        assert(s.subrange(p, j).drop_last() =~= s.subrange(p, j - 1));
        assert forall|k: int| 0 <= k < j - 1 - p implies is_digit(
            #[trigger] s.subrange(p, j - 1)[k],
        ) by {
            assert(s.subrange(p, j - 1)[k] == s[p + k]);
        }
        lemma_dec_value_nonneg(s.subrange(p, j - 1));
    }
}

/// The outcome of reading a run of digits into a `u64`.
pub enum Digits {
    /// No digit at the position.
    NoDigits,
    /// The digits end at `.0` but their value does not fit in a `u64`.
    Overflow(usize),
    /// The value and the position after the digits.
    Value(u64, usize),
}

pub fn digits_exec(s: &[u8], p: usize) -> (r: Digits)
    requires
        p <= s@.len(),
    ensures
        r is NoDigits <==> digits(s@, p as int) is None,
        r matches Digits::Overflow(q) ==> digits(s@, p as int) matches Some((v, e)) && v
            > u64::MAX && e == q && p < q <= s@.len(),
        r matches Digits::Value(v, q) ==> digits(s@, p as int) == Some((v as int, q as int)) && p
            < q <= s@.len(),
{
    let q = skip(s, p, Class::Digit);
    proof {
        lemma_skip_while(s@, p as int, Class::Digit);
    }
    if q == p {
        return Digits::NoDigits;
    }
    let mut acc: u64 = 0;
    let mut i = p;
    while i < q
        invariant
            p <= i <= q <= s@.len(),
            q == skip_while(s@, p as int, Class::Digit),
            forall|k: int| p <= k < q ==> is_digit(#[trigger] s@[k]),
            acc == dec_value(s@.subrange(p as int, i as int)),
        decreases q - i,
    {
        let d = (s[i] - 48) as u64;
        assert(is_digit(s@[i as int]));
        proof {
            assert(s@.subrange(p as int, i + 1).drop_last() =~= s@.subrange(p as int, i as int));
        }
        match acc.checked_mul(10) {
            Some(m) => match m.checked_add(d) {
                Some(n) => {
                    acc = n;
                },
                None => {
                    proof {
                        lemma_dec_value_grows(s@, p as int, i + 1, q as int);
                    }
                    return Digits::Overflow(q);
                },
            },
            None => {
                proof {
                    lemma_dec_value_grows(s@, p as int, i + 1, q as int);
                }
                return Digits::Overflow(q);
            },
        }
        i = i + 1;
    }
    Digits::Value(acc, q)
}

/// An unsigned decimal that fits in a `u64`.
pub open spec fn u64_num(s: Seq<u8>, p: int) -> Option<(u64, int)> {
    match digits(s, p) {
        Some((v, q)) => if v <= u64::MAX {
            Some((v as u64, q))
        } else {
            None
        },
        None => None,
    }
}

pub fn u64_exec(s: &[u8], p: usize) -> (r: Option<(u64, usize)>)
    requires
        p <= s@.len(),
    ensures
        r matches Some((v, q)) ==> u64_num(s@, p as int) == Some((v, q as int)) && p < q
            <= s@.len(),
        r is None ==> u64_num(s@, p as int) is None,
{
    match digits_exec(s, p) {
        Digits::NoDigits => None,
        Digits::Overflow(_) => None,
        Digits::Value(v, q) => Some((v, q)),
    }
}

/// An optional sign (`+` or `-`): whether it is `-`, and the position after it.
pub open spec fn sign(s: Seq<u8>, p: int) -> (bool, int) {
    if 0 <= p < s.len() && s[p] == 45 {
        (true, p + 1)
    } else if 0 <= p < s.len() && s[p] == 43 {
        (false, p + 1)
    } else {
        (false, p)
    }
}

pub fn sign_exec(s: &[u8], p: usize) -> (r: (bool, usize))
    requires
        p <= s@.len(),
    ensures
        r.0 == sign(s@, p as int).0,
        r.1 == sign(s@, p as int).1,
        p <= r.1 <= s@.len(),
{
    if p < s.len() && s[p] == 45 {
        (true, p + 1)
    } else if p < s.len() && s[p] == 43 {
        (false, p + 1)
    } else {
        (false, p)
    }
}

/// A signed decimal that fits in an `i64`.
pub open spec fn i64_num(s: Seq<u8>, p: int) -> Option<(i64, int)> {
    let (neg, a) = sign(s, p);
    match digits(s, a) {
        Some((m, q)) => {
            let v = if neg {
                -m
            } else {
                m
            };
            if i64::MIN <= v <= i64::MAX {
                Some((v as i64, q))
            } else {
                None
            }
        },
        None => None,
    }
}

pub fn i64_exec(s: &[u8], p: usize) -> (r: Option<(i64, usize)>)
    requires
        p <= s@.len(),
    ensures
        r matches Some((v, q)) ==> i64_num(s@, p as int) == Some((v, q as int)) && p < q
            <= s@.len(),
        r is None ==> i64_num(s@, p as int) is None,
{
    let (neg, a) = sign_exec(s, p);
    match digits_exec(s, a) {
        Digits::NoDigits => None,
        Digits::Overflow(_) => None,
        Digits::Value(m, q) => {
            if neg {
                if m <= 9223372036854775807 {
                    Some((-(m as i64), q))
                } else if m == 9223372036854775808 {
                    Some((-9223372036854775807i64 - 1, q))
                } else {
                    None
                }
            } else {
                if m <= 9223372036854775807 {
                    Some((m as i64, q))
                } else {
                    None
                }
            }
        },
    }
}

/// The mantissa of a decimal number: digits with an optional fraction, or a
/// fraction alone. Yields the position after it.
pub open spec fn mantissa(s: Seq<u8>, p: int) -> Option<int> {
    let d = skip_while(s, p, Class::Digit);
    if d > p {
        match byte_at(s, d, 46) {
            Some(f) => Some(skip_while(s, f, Class::Digit)),
            None => Some(d),
        }
    } else {
        match byte_at(s, p, 46) {
            Some(f) => {
                let e = skip_while(s, f, Class::Digit);
                if e > f {
                    Some(e)
                } else {
                    None
                }
            },
            None => None,
        }
    }
}

/// The exponent of a decimal number (`e` or `E`, a sign, digits), or nothing.
pub open spec fn exponent(s: Seq<u8>, m: int) -> int {
    if 0 <= m < s.len() && (s[m] == 101 || s[m] == 69) {
        let (_, a) = sign(s, m + 1);
        let e = skip_while(s, a, Class::Digit);
        if e > a {
            e
        } else {
            m
        }
    } else {
        m
    }
}

/// The text of a decimal number: a sign, a mantissa and an optional exponent.
/// Yields the position after it.
pub open spec fn number_text(s: Seq<u8>, p: int) -> Option<int> {
    let (_, a) = sign(s, p);
    match mantissa(s, a) {
        Some(m) => Some(exponent(s, m)),
        None => None,
    }
}

pub fn number_text_exec(s: &[u8], p: usize) -> (r: Option<usize>)
    requires
        p <= s@.len(),
    ensures
        r matches Some(q) ==> number_text(s@, p as int) == Some(q as int) && p < q <= s@.len(),
        r is None ==> number_text(s@, p as int) is None,
{
    let (_, a) = sign_exec(s, p);
    let d = skip(s, a, Class::Digit);
    let m;
    if d > a {
        match byte_exec(s, d, 46) {
            Some(f) => {
                m = skip(s, f, Class::Digit);
            },
            None => {
                m = d;
            },
        }
    } else {
        match byte_exec(s, a, 46) {
            Some(f) => {
                let e = skip(s, f, Class::Digit);
                if e > f {
                    m = e;
                } else {
                    return None;
                }
            },
            None => {
                return None;
            },
        }
    }
    assert(mantissa(s@, a as int) == Some(m as int));
    if m < s.len() && (s[m] == 101 || s[m] == 69) {
        let (_, b) = sign_exec(s, m + 1);
        let e = skip(s, b, Class::Digit);
        if e > b {
            Some(e)
        } else {
            Some(m)
        }
    } else {
        Some(m)
    }
}

} // verus!
