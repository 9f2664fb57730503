use vstd::prelude::*;
use crate::common::text::{
    all_digits, ascii_lower, ascii_lower_char, first_index, is_digit, lemma_first_index,
};

verus! {

/// A mantissa: digits with at most one `.`, and at least one digit.
pub open spec fn mantissa_ok(m: Seq<char>) -> bool {
    &&& forall|i: int| 0 <= i < m.len() ==> (is_digit(#[trigger] m[i]) || m[i] == '.')
    &&& forall|i: int, j: int| 0 <= i < j < m.len() ==> !(#[trigger] m[i] == '.' && #[trigger] m[j] == '.')
    &&& exists|i: int| 0 <= i < m.len() && is_digit(#[trigger] m[i])
}

/// An exponent after the `e`: an optional sign, then one or more digits.
pub open spec fn exponent_ok(x: Seq<char>) -> bool {
    let d = if x.len() > 0 && (x[0] == '+' || x[0] == '-') { x.drop_first() } else { x };
    d.len() > 0 && all_digits(d)
}

/// A decimal number: a mantissa, then optionally `e` and an exponent.
pub open spec fn number_ok(b: Seq<char>) -> bool {
    match first_index(b, 'e') {
        None => mantissa_ok(b),
        Some(p) => mantissa_ok(b.take(p)) && exponent_ok(b.skip(p + 1)),
    }
}

/// A text that `str::parse::<f64>` accepts: once lower-cased, an optional
/// sign, then `inf`, `infinity`, `nan` or a decimal number.
pub open spec fn float_literal(s: Seq<char>) -> bool {
    let t = ascii_lower(s);
    let b = if t.len() > 0 && (t[0] == '+' || t[0] == '-') { t.drop_first() } else { t };
    b == "inf"@ || b == "infinity"@ || b == "nan"@ || number_ok(b)
}

/// The display text of the error of `str::parse::<f64>` on a text it
/// refuses.
pub open spec fn float_error_text(s: Seq<char>) -> Seq<char> {
    if s.len() == 0 {
        "cannot parse float from empty string"@
    } else {
        "invalid float literal"@
    }
}

fn lower_char(c: char) -> (r: char)
    ensures
        r == ascii_lower_char(c),
{
    match c {
        'A' => 'a',
        'B' => 'b',
        'C' => 'c',
        'D' => 'd',
        'E' => 'e',
        'F' => 'f',
        'G' => 'g',
        'H' => 'h',
        'I' => 'i',
        'J' => 'j',
        'K' => 'k',
        'L' => 'l',
        'M' => 'm',
        'N' => 'n',
        'O' => 'o',
        'P' => 'p',
        'Q' => 'q',
        'R' => 'r',
        'S' => 's',
        'T' => 't',
        'U' => 'u',
        'V' => 'v',
        'W' => 'w',
        'X' => 'x',
        'Y' => 'y',
        'Z' => 'z',
        _ => c,
    }
}

/// The lower-cased text between positions `a` and `b` equals a literal.
fn lower_range_is(s: &str, a: usize, b: usize, lit: &str) -> (r: bool)
    requires
        a <= b <= s@.len(),
    ensures
        r == (ascii_lower(s@).subrange(a as int, b as int) == lit@),
{
    let ghost t = ascii_lower(s@).subrange(a as int, b as int);
    let m = lit.unicode_len();
    if b - a != m {
        return false;
    }
    let mut i: usize = 0;
    while i < m
        invariant
            a <= b <= s@.len(),
            m == lit@.len(),
            b - a == m,
            t == ascii_lower(s@).subrange(a as int, b as int),
            i <= m,
            forall|j: int| 0 <= j < i ==> t[j] == lit@[j],
        decreases m - i,
    {
        if lower_char(s.get_char(a + i)) != lit.get_char(i) {
            return false;
        }
        i = i + 1;
    }
    assert(t =~= lit@);
    true
}

/// Whether the lower-cased text between `a` and `b` is a mantissa.
fn mantissa_check(s: &str, a: usize, b: usize) -> (r: bool)
    requires
        a <= b <= s@.len(),
    ensures
        r == mantissa_ok(ascii_lower(s@).subrange(a as int, b as int)),
{
    let ghost m = ascii_lower(s@).subrange(a as int, b as int);
    let mut dot: Option<usize> = None;
    let mut digit = false;
    let mut i: usize = a;
    while i < b
        invariant
            a <= i <= b <= s@.len(),
            m == ascii_lower(s@).subrange(a as int, b as int),
            forall|j: int| 0 <= j < i - a ==> (is_digit(#[trigger] m[j]) || m[j] == '.'),
            dot matches Some(d) ==> a <= d < i && m[d - a] == '.',
            forall|j: int| 0 <= j < i - a && m[j] == '.' ==> (dot matches Some(d) && j == d - a),
            digit == (exists|j: int| 0 <= j < i - a && is_digit(#[trigger] m[j])),
        decreases b - i,
    {
        let c = lower_char(s.get_char(i));
        assert(m[i - a] == c);
        if c == '.' {
            if dot.is_some() {
                proof {
                    let d = dot->Some_0;
                    assert(m[d - a] == '.' && m[i - a] == '.');
                }
                return false;
            }
            dot = Some(i);
        } else if '0' <= c && c <= '9' {
            digit = true;
        } else {
            return false;
        }
        i = i + 1;
    }
    digit
}

/// Whether the lower-cased text between `a` and `b` is an exponent.
fn exponent_check(s: &str, a: usize, b: usize) -> (r: bool)
    requires
        a <= b <= s@.len(),
    ensures
        r == exponent_ok(ascii_lower(s@).subrange(a as int, b as int)),
{
    let ghost x = ascii_lower(s@).subrange(a as int, b as int);
    let mut start = a;
    if a < b {
        let c = s.get_char(a);
        assert(x[0] == ascii_lower_char(c));
        if c == '+' || c == '-' {
            start = a + 1;
        }
    }
    let ghost d = if x.len() > 0 && (x[0] == '+' || x[0] == '-') { x.drop_first() } else { x };
    assert(d =~= ascii_lower(s@).subrange(start as int, b as int));
    if start == b {
        return false;
    }
    let mut i: usize = start;
    while i < b
        invariant
            start <= i <= b <= s@.len(),
            d == ascii_lower(s@).subrange(start as int, b as int),
            x == ascii_lower(s@).subrange(a as int, b as int),
            d == (if x.len() > 0 && (x[0] == '+' || x[0] == '-') { x.drop_first() } else { x }),
            forall|j: int| 0 <= j < i - start ==> is_digit(#[trigger] d[j]),
        decreases b - i,
    {
        let c = lower_char(s.get_char(i));
        assert(d[i - start] == c);
        if !('0' <= c && c <= '9') {
            return false;
        }
        i = i + 1;
    }
    true
}

/// Whether `str::parse::<f64>` accepts a text.
pub fn float_literal_check(s: &str) -> (r: bool)
    ensures
        r == float_literal(s@),
{
    let n = s.unicode_len();
    let ghost t = ascii_lower(s@);
    let mut a: usize = 0;
    if n > 0 {
        let c = s.get_char(0);
        assert(t[0] == ascii_lower_char(c));
        if c == '+' || c == '-' {
            a = 1;
        }
    }
    let ghost b = if t.len() > 0 && (t[0] == '+' || t[0] == '-') { t.drop_first() } else { t };
    assert(b =~= t.subrange(a as int, n as int));
    if lower_range_is(s, a, n, "inf") || lower_range_is(s, a, n, "infinity") || lower_range_is(
        s,
        a,
        n,
        "nan",
    ) {
        return true;
    }
    let mut p: usize = a;
    while p < n && lower_char(s.get_char(p)) != 'e'
        invariant
            a <= p <= n,
            n == s@.len(),
            t == ascii_lower(s@),
            b == t.subrange(a as int, n as int),
            forall|j: int| 0 <= j < p - a ==> b[j] != 'e',
        decreases n - p,
    {
        p = p + 1;
    }
    if p == n {
        proof {
            crate::common::text::lemma_first_index_none(b, 'e');
        }
        mantissa_check(s, a, n)
    } else {
        proof {
            crate::common::text::lemma_first_index_at(b, 'e', p - a);
            assert(b.take(p - a) =~= t.subrange(a as int, p as int));
            assert(b.skip(p - a + 1) =~= t.subrange(p + 1, n as int));
        }
        mantissa_check(s, a, p) && exponent_check(s, p + 1, n)
    }
}

} // verus!
