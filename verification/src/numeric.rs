//! Numeric-literal syntax.
//!
//! A lexeme is a numeric literal when the whole slice is standard decimal
//! float syntax: an optional sign, then digits with an optional decimal
//! point (at least one digit on one side of the point), then an optional
//! exponent (`e` or `E`, an optional sign, one or more digits). Numeric
//! detection runs before every other multi-character rule, so this predicate
//! decides the first step of the classification chain.

use vstd::prelude::*;

verus! {

/// A decimal digit.
pub open spec fn is_digit(c: char) -> bool {
    '0' <= c && c <= '9'
}

/// Every character of `s` is a decimal digit.
pub open spec fn all_digits(s: Seq<char>) -> bool {
    forall|i: int| 0 <= i < s.len() ==> is_digit(#[trigger] s[i])
}

/// One or more decimal digits.
pub open spec fn is_digits(s: Seq<char>) -> bool {
    s.len() > 0 && all_digits(s)
}

/// `s` without one leading `+` or `-`, if it has one.
pub open spec fn strip_sign(s: Seq<char>) -> Seq<char> {
    if s.len() > 0 && (s[0] == '+' || s[0] == '-') {
        s.subrange(1, s.len() as int)
    } else {
        s
    }
}

/// Position `i` of `s` holds a decimal point with only digits on both sides,
/// and `s` holds at least one digit beside the point.
pub open spec fn dot_split_at(s: Seq<char>, i: int) -> bool {
    &&& 0 <= i < s.len()
    &&& s[i] == '.'
    &&& all_digits(s.subrange(0, i))
    &&& all_digits(s.subrange(i + 1, s.len() as int))
    &&& s.len() > 1
}

/// A mantissa: digits, optionally with one decimal point somewhere among
/// them, with at least one digit present.
pub open spec fn is_mantissa(s: Seq<char>) -> bool {
    is_digits(s) || exists|i: int| dot_split_at(s, i)
}

/// An exponent part: `e` or `E`, then an optional sign and one or more
/// digits.
pub open spec fn is_exponent(s: Seq<char>) -> bool {
    &&& s.len() >= 2
    &&& (s[0] == 'e' || s[0] == 'E')
    &&& is_digits(strip_sign(s.subrange(1, s.len() as int)))
}

/// Position `i` of `s` splits it into a mantissa followed by an exponent.
pub open spec fn exp_split_at(s: Seq<char>, i: int) -> bool {
    &&& 0 <= i < s.len()
    &&& (s[i] == 'e' || s[i] == 'E')
    &&& is_mantissa(s.subrange(0, i))
    &&& is_exponent(s.subrange(i, s.len() as int))
}

/// A float without its sign: a mantissa alone, or a mantissa followed by an
/// exponent.
pub open spec fn is_float_body(s: Seq<char>) -> bool {
    is_mantissa(s) || exists|i: int| exp_split_at(s, i)
}

/// The whole slice is a floating-point literal.
pub open spec fn is_float_syntax(s: Seq<char>) -> bool {
    is_float_body(strip_sign(s))
}

/// Every character of a mantissa is a digit or the decimal point.
pub proof fn lemma_mantissa_chars(s: Seq<char>)
    requires
        is_mantissa(s),
    ensures
        forall|i: int| 0 <= i < s.len() ==> is_digit(#[trigger] s[i]) || s[i] == '.',
{
    if is_digits(s) {
    } else {
        let k = choose|k: int| dot_split_at(s, k);
        assert forall|i: int| 0 <= i < s.len() implies is_digit(#[trigger] s[i]) || s[i] == '.' by {
            if i < k {
                assert(s.subrange(0, k)[i] == s[i]);
            } else if i > k {
                assert(s.subrange(k + 1, s.len() as int)[i - k - 1] == s[i]);
            }
        }
    }
}

/// Whether every character of `s` in `[a, b)` is a decimal digit.
fn all_digits_in(s: &str, a: usize, b: usize) -> (r: bool)
    requires
        a <= b,
        b as nat <= s@.len(),
    ensures
        r == (forall|i: int| a <= i < b ==> is_digit(#[trigger] s@[i])),
{
    let mut k = a;
    while k < b
        invariant
            a <= k <= b,
            b as nat <= s@.len(),
            forall|i: int| a <= i < k ==> is_digit(#[trigger] s@[i]),
        decreases b - k,
    {
        let c = s.get_char(k);
        if !(c >= '0' && c <= '9') {
            assert(!is_digit(s@[k as int]));
            return false;
        }
        k += 1;
    }
    true
}

/// The first position in `[a, b)` holding `c1` or `c2`, if any.
fn find_first_in(s: &str, a: usize, b: usize, c1: char, c2: char) -> (r: Option<usize>)
    requires
        a <= b,
        b as nat <= s@.len(),
    ensures
        match r {
            Some(i) => {
                &&& a <= i < b
                &&& (s@[i as int] == c1 || s@[i as int] == c2)
                &&& forall|j: int| a <= j < i ==> s@[j] != c1 && s@[j] != c2
            },
            None => forall|j: int| a <= j < b ==> s@[j] != c1 && s@[j] != c2,
        },
{
    let mut k = a;
    while k < b
        invariant
            a <= k <= b,
            b as nat <= s@.len(),
            forall|j: int| a <= j < k ==> s@[j] != c1 && s@[j] != c2,
        decreases b - k,
    {
        let c = s.get_char(k);
        if c == c1 || c == c2 {
            return Some(k);
        }
        k += 1;
    }
    None
}

/// Relates digit-ness of a subrange to digit-ness over the underlying indices.
proof fn lemma_all_digits_subrange(s: Seq<char>, a: int, b: int)
    requires
        0 <= a <= b <= s.len(),
    ensures
        all_digits(s.subrange(a, b)) <==> (forall|i: int| a <= i < b ==> is_digit(#[trigger] s[i])),
{
    let sub = s.subrange(a, b);
    if all_digits(sub) {
        assert forall|i: int| a <= i < b implies is_digit(#[trigger] s[i]) by {
            assert(sub[i - a] == s[i]);
        }
    }
    if forall|i: int| a <= i < b ==> is_digit(#[trigger] s[i]) {
        assert forall|j: int| 0 <= j < sub.len() implies is_digit(#[trigger] sub[j]) by {
            assert(sub[j] == s[a + j]);
        }
    }
}

/// Whether `s@.subrange(a, b)` is a mantissa.
fn is_mantissa_range(s: &str, a: usize, b: usize) -> (r: bool)
    requires
        a <= b,
        b as nat <= s@.len(),
    ensures
        r == is_mantissa(s@.subrange(a as int, b as int)),
{
    let ghost sub = s@.subrange(a as int, b as int);
    let dot = find_first_in(s, a, b, '.', '.');
    match dot {
        None => {
            let r = a < b && all_digits_in(s, a, b);
            proof {
                lemma_all_digits_subrange(s@, a as int, b as int);
                if r {
                    assert(is_digits(sub));
                } else {
                    assert(!is_digits(sub));
                    assert forall|k: int| !dot_split_at(sub, k) by {
                        if 0 <= k < sub.len() {
                            assert(sub[k] == s@[a + k]);
                        }
                    }
                }
            }
            r
        },
        Some(d) => {
            proof {
                assert(sub[d - a] == s@[d as int]);
                assert(!is_digits(sub));
            }
            if b - a == 1 {
                proof {
                    assert forall|k: int| !dot_split_at(sub, k) by {}
                }
                false
            } else {
                let left_ok = all_digits_in(s, a, d);
                let right_ok = all_digits_in(s, d + 1, b);
                proof {
                    lemma_all_digits_subrange(s@, a as int, d as int);
                    lemma_all_digits_subrange(s@, d + 1, b as int);
                    assert(sub.subrange(0, d - a) =~= s@.subrange(a as int, d as int));
                    assert(sub.subrange(d - a + 1, sub.len() as int) =~= s@.subrange(
                        d + 1,
                        b as int,
                    ));
                    if left_ok && right_ok {
                        assert(dot_split_at(sub, d - a));
                    } else {
                        assert forall|k: int| !dot_split_at(sub, k) by {
                            if 0 <= k < sub.len() && sub[k] == '.' {
                                assert(sub[k] == s@[a + k]);
                                if a + k > d {
                                    assert(sub.subrange(0, k)[d - a] == s@[d as int]);
                                    assert(!all_digits(sub.subrange(0, k)));
                                }
                            }
                        }
                    }
                }
                left_ok && right_ok
            }
        },
    }
}

/// Whether `s@.subrange(a, b)` is an exponent part.
fn is_exponent_range(s: &str, a: usize, b: usize) -> (r: bool)
    requires
        a <= b,
        b as nat <= s@.len(),
    ensures
        r == is_exponent(s@.subrange(a as int, b as int)),
{
    let ghost sub = s@.subrange(a as int, b as int);
    if b - a < 2 {
        return false;
    }
    let c0 = s.get_char(a);
    if !(c0 == 'e' || c0 == 'E') {
        return false;
    }
    let c1 = s.get_char(a + 1);
    let dstart: usize = if c1 == '+' || c1 == '-' {
        a + 2
    } else {
        a + 1
    };
    let r = dstart < b && all_digits_in(s, dstart, b);
    proof {
        let tail = sub.subrange(1, sub.len() as int);
        assert(tail =~= s@.subrange(a + 1, b as int));
        assert(tail[0] == s@[a + 1]);
        assert(strip_sign(tail) =~= s@.subrange(dstart as int, b as int));
        lemma_all_digits_subrange(s@, dstart as int, b as int);
    }
    r
}

/// Whether the whole slice is a floating-point literal, per
/// [`is_float_syntax`].
pub fn check_float_syntax(s: &str) -> (r: bool)
    ensures
        r == is_float_syntax(s@),
{
    let n = s.unicode_len();
    let start: usize = if n > 0 {
        let c = s.get_char(0);
        if c == '+' || c == '-' {
            1
        } else {
            0
        }
    } else {
        0
    };
    let ghost body = strip_sign(s@);
    proof {
        assert(body =~= s@.subrange(start as int, n as int));
    }
    let e_pos = find_first_in(s, start, n, 'e', 'E');
    match e_pos {
        None => {
            let r = is_mantissa_range(s, start, n);
            proof {
                assert forall|k: int| !exp_split_at(body, k) by {
                    if 0 <= k < body.len() {
                        assert(body[k] == s@[start + k]);
                    }
                }
            }
            r
        },
        Some(i) => {
            let m_ok = is_mantissa_range(s, start, i);
            let e_ok = is_exponent_range(s, i, n);
            proof {
                let ib = i - start;
                assert(body[ib] == s@[i as int]);
                lemma_mantissa_not_with_e(body, ib);
                assert(body.subrange(0, ib) =~= s@.subrange(start as int, i as int));
                assert(body.subrange(ib, body.len() as int) =~= s@.subrange(i as int, n as int));
                if m_ok && e_ok {
                    assert(exp_split_at(body, ib));
                } else {
                    assert forall|k: int| !exp_split_at(body, k) by {
                        if 0 <= k < body.len() && (body[k] == 'e' || body[k] == 'E') && k != ib {
                            assert(body[k] == s@[start + k]);
                            assert(k > ib);
                            assert(body.subrange(0, k)[ib] == body[ib]);
                            if is_mantissa(body.subrange(0, k)) {
                                lemma_mantissa_chars(body.subrange(0, k));
                            }
                        }
                    }
                }
            }
            m_ok && e_ok
        },
    }
}

/// A mantissa holds at least one digit.
proof fn lemma_mantissa_has_digit(s: Seq<char>)
    requires
        is_mantissa(s),
    ensures
        exists|i: int| 0 <= i < s.len() && is_digit(#[trigger] s[i]),
{
    if is_digits(s) {
        assert(is_digit(s[0]));
    } else {
        let k = choose|k: int| dot_split_at(s, k);
        if k > 0 {
            assert(s.subrange(0, k)[0] == s[0]);
            assert(is_digit(s[0]));
        } else {
            assert(s.subrange(k + 1, s.len() as int)[0] == s[k + 1]);
            assert(is_digit(s[k + 1]));
        }
    }
}

/// A float literal holds at least one digit.
pub proof fn lemma_float_has_digit(s: Seq<char>)
    requires
        is_float_syntax(s),
    ensures
        exists|i: int| 0 <= i < s.len() && is_digit(#[trigger] s[i]),
{
    let body = strip_sign(s);
    let shift: int = if s.len() > 0 && (s[0] == '+' || s[0] == '-') {
        1
    } else {
        0
    };
    if is_mantissa(body) {
        lemma_mantissa_has_digit(body);
        let i = choose|i: int| 0 <= i < body.len() && is_digit(#[trigger] body[i]);
        assert(body[i] == s[i + shift]);
    } else {
        let k = choose|k: int| exp_split_at(body, k);
        let pre = body.subrange(0, k);
        lemma_mantissa_has_digit(pre);
        let i = choose|i: int| 0 <= i < pre.len() && is_digit(#[trigger] pre[i]);
        assert(pre[i] == body[i]);
        assert(body[i] == s[i + shift]);
    }
}

/// A lexeme without a digit is not a float literal.
pub proof fn lemma_no_digit_not_float(s: Seq<char>)
    requires
        forall|i: int| 0 <= i < s.len() ==> !is_digit(#[trigger] s[i]),
    ensures
        !is_float_syntax(s),
{
    if is_float_syntax(s) {
        lemma_float_has_digit(s);
    }
}

/// A sequence holding `e` or `E` at some position is no mantissa.
proof fn lemma_mantissa_not_with_e(s: Seq<char>, i: int)
    requires
        0 <= i < s.len(),
        s[i] == 'e' || s[i] == 'E',
    ensures
        !is_mantissa(s),
{
    if is_mantissa(s) {
        lemma_mantissa_chars(s);
    }
}

} // verus!
