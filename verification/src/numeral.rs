//! Decimal numerals as the standard library's floating-point parser
//! accepts them (`f64::from_str`):
//!
//! ```text
//! Float    ::= Sign? ( 'inf' | 'infinity' | 'nan' | Number )
//! Number   ::= ( Digit+ | Digit+ '.' Digit* | Digit* '.' Digit+ ) Exp?
//! Exp      ::= 'e' Sign? Digit+
//! Sign     ::= [+-]
//! Digit    ::= [0-9]
//! ```
//!
//! where letters match regardless of ASCII case.

use vstd::prelude::*;
use crate::text::{chars_of, eq_ignore_case, range_eq_ignore_case};

verus! {

pub open spec fn is_digit(c: char) -> bool {
    '0' <= c && c <= '9'
}

pub open spec fn is_sign(c: char) -> bool {
    c == '+' || c == '-'
}

pub open spec fn all_digits(s: Seq<char>) -> bool {
    forall|i: int| 0 <= i < s.len() ==> is_digit(#[trigger] s[i])
}

/// `Digit+ | Digit+ '.' Digit* | Digit* '.' Digit+`
pub open spec fn is_mantissa(s: Seq<char>) -> bool {
    ||| s.len() > 0 && all_digits(s)
    ||| exists|p: int|
        0 <= p < s.len() && s.len() >= 2 && #[trigger] s[p] == '.' && all_digits(s.subrange(0, p))
            && all_digits(s.subrange(p + 1, s.len() as int))
}

/// The digits of an exponent, after its optional sign.
pub open spec fn exponent_digits(r: Seq<char>) -> Seq<char> {
    if r.len() > 0 && is_sign(r[0]) {
        r.drop_first()
    } else {
        r
    }
}

/// `('e' | 'E') Sign? Digit+`
pub open spec fn is_exponent(s: Seq<char>) -> bool {
    &&& s.len() >= 2
    &&& (s[0] == 'e' || s[0] == 'E')
    &&& exponent_digits(s.drop_first()).len() > 0
    &&& all_digits(exponent_digits(s.drop_first()))
}

/// `Number`: a mantissa, optionally followed by an exponent.
pub open spec fn is_decimal(s: Seq<char>) -> bool {
    ||| is_mantissa(s)
    ||| exists|m: int|
        0 < m < s.len() && #[trigger] is_mantissa(s.subrange(0, m)) && is_exponent(
            s.subrange(m, s.len() as int),
        )
}

/// `s` without one leading sign.
pub open spec fn unsigned_part(s: Seq<char>) -> Seq<char> {
    if s.len() > 0 && is_sign(s[0]) {
        s.drop_first()
    } else {
        s
    }
}

/// `Float`: the text that `f64::from_str` accepts.
pub open spec fn is_float_literal(s: Seq<char>) -> bool {
    let b = unsigned_part(s);
    ||| eq_ignore_case(b, "inf"@)
    ||| eq_ignore_case(b, "infinity"@)
    ||| eq_ignore_case(b, "nan"@)
    ||| is_decimal(b)
}

/// The characters a mantissa is made of.
pub open spec fn is_mantissa_char(c: char) -> bool {
    is_digit(c) || c == '.'
}

/// A mantissa holds only digits and at most one point.
proof fn lemma_mantissa_shape(s: Seq<char>)
    requires
        is_mantissa(s),
    ensures
        forall|i: int| 0 <= i < s.len() ==> is_mantissa_char(#[trigger] s[i]),
        forall|i: int, j: int|
            #![trigger s[i], s[j]]
            0 <= i < j < s.len() && s[i] == '.' ==> s[j] != '.',
{
    if s.len() > 0 && all_digits(s) {
    } else {
        let p = choose|p: int|
            0 <= p < s.len() && s.len() >= 2 && #[trigger] s[p] == '.' && all_digits(
                s.subrange(0, p),
            ) && all_digits(s.subrange(p + 1, s.len() as int));
        assert forall|i: int| 0 <= i < s.len() implies is_mantissa_char(#[trigger] s[i]) by {
            if i < p {
                assert(s.subrange(0, p)[i] == s[i]);
            } else if i > p {
                assert(s.subrange(p + 1, s.len() as int)[i - p - 1] == s[i]);
            }
        }
        assert forall|i: int, j: int|
            #![trigger s[i], s[j]]
            0 <= i < j < s.len() && s[i] == '.' implies s[j] != '.' by {
            if i < p {
                assert(s.subrange(0, p)[i] == s[i]);
            } else if i > p {
                assert(s.subrange(p + 1, s.len() as int)[i - p - 1] == s[i]);
            } else {
                assert(s.subrange(p + 1, s.len() as int)[j - p - 1] == s[j]);
            }
        }
    }
}

/// Whether `c` is an ASCII digit.
fn is_digit_char(c: char) -> (r: bool)
    ensures
        r == is_digit(c),
{
    '0' <= c && c <= '9'
}

/// Whether `v[a..b]` is a numeral that `f64::from_str` accepts.
pub fn is_float_literal_range(v: &Vec<char>, a: usize, b: usize) -> (r: bool)
    requires
        a <= b <= v.len(),
    ensures
        r == is_float_literal(v@.subrange(a as int, b as int)),
{
    let ghost s = v@.subrange(a as int, b as int);
    let mut i = a;
    if i < b && (v[i] == '+' || v[i] == '-') {
        i = i + 1;
        assert(s.drop_first() =~= v@.subrange(i as int, b as int));
    }
    let ghost body = v@.subrange(i as int, b as int);
    assert(body == unsigned_part(s));
    let inf = chars_of("inf");
    let infinity = chars_of("infinity");
    let nan = chars_of("nan");
    if range_eq_ignore_case(v, i, b, &inf) || range_eq_ignore_case(v, i, b, &infinity)
        || range_eq_ignore_case(v, i, b, &nan) {
        return true;
    }
    // Mantissa: digits, then an optional point and digits.

    let mut k = i;
    while k < b && is_digit_char(v[k])
        invariant
            i <= k <= b <= v.len(),
            forall|j: int| i <= j < k ==> is_digit(v@[j]),
        decreases b - k,
    {
        k = k + 1;
    }
    let int_end = k;
    let mut has_point = false;
    if k < b && v[k] == '.' {
        has_point = true;
        k = k + 1;
        while k < b && is_digit_char(v[k])
            invariant
                i <= int_end < k <= b <= v.len(),
                forall|j: int| int_end < j < k ==> is_digit(v@[j]),
            decreases b - k,
        {
            k = k + 1;
        }
    }
    let m0 = k;
    let digit_count = if has_point {
        m0 - int_end - 1
    } else {
        m0 - int_end
    } + (int_end - i);
    let ghost mant = v@.subrange(i as int, m0 as int);
    proof {
        lemma_scan_mantissa(v@, i as int, int_end as int, has_point, m0 as int, b as int);
        assert(!eq_ignore_case(body, "inf"@) && !eq_ignore_case(body, "infinity"@)
            && !eq_ignore_case(body, "nan"@));
    }
    if digit_count == 0 {
        return false;
    }
    if m0 == b {
        return true;
    }
    // Exponent.

    if v[m0] != 'e' && v[m0] != 'E' {
        return false;
    }
    let mut k = m0 + 1;
    if k < b && (v[k] == '+' || v[k] == '-') {
        k = k + 1;
    }
    let e0 = k;
    while k < b && is_digit_char(v[k])
        invariant
            m0 < e0 <= k <= b <= v.len(),
            forall|j: int| e0 <= j < k ==> is_digit(v@[j]),
        decreases b - k,
    {
        k = k + 1;
    }
    proof {
        let e = v@.subrange(m0 as int, b as int);
        let ed = exponent_digits(e.drop_first());
        assert(e.drop_first() =~= v@.subrange(m0 + 1, b as int));
        assert(ed =~= v@.subrange(e0 as int, b as int));
        if k == b && k > e0 {
            assert(all_digits(ed));
        } else if k < b {
            assert(ed[k - e0] == v@[k as int]);
        }
    }
    k == b && k > e0
}

/// What a scan of the longest prefix of digits, point and digits tells
/// about the mantissa and decimal forms of `v[i..b]`.
proof fn lemma_scan_mantissa(
    v: Seq<char>,
    i: int,
    int_end: int,
    has_point: bool,
    m0: int,
    b: int,
)
    requires
        0 <= i <= int_end <= m0 <= b <= v.len(),
        forall|j: int| i <= j < int_end ==> is_digit(v[j]),
        int_end < b ==> !is_digit(v[int_end]),
        has_point ==> int_end < m0 && v[int_end] == '.',
        has_point ==> forall|j: int| int_end < j < m0 ==> is_digit(v[j]),
        has_point ==> (m0 < b ==> !is_digit(v[m0])),
        !has_point ==> m0 == int_end && (int_end < b ==> v[int_end] != '.'),
    ensures
        ({
            let count = (if has_point {
                m0 - int_end - 1
            } else {
                m0 - int_end
            }) + (int_end - i);
            let body = v.subrange(i, b);
            &&& is_mantissa(v.subrange(i, m0)) <==> count > 0
            &&& is_mantissa(body) <==> (count > 0 && m0 == b)
            &&& forall|m: int|
                0 < m < body.len() && #[trigger] is_mantissa(body.subrange(0, m)) && is_exponent(
                    body.subrange(m, body.len() as int),
                ) ==> m == m0 - i
            &&& is_decimal(body) <==> (count > 0 && (m0 == b || is_exponent(v.subrange(m0, b))))
        }),
{
    let count = (if has_point {
        m0 - int_end - 1
    } else {
        m0 - int_end
    }) + (int_end - i);
    let body = v.subrange(i, b);
    let mant = v.subrange(i, m0);
    // The scanned prefix, as a mantissa.
    if count > 0 {
        if !has_point {
            assert(all_digits(mant)) by {
                assert forall|j: int| 0 <= j < mant.len() implies is_digit(#[trigger] mant[j]) by {
                    assert(mant[j] == v[i + j]);
                }
            }
        } else {
            let p = int_end - i;
            assert(mant[p] == '.');
            assert(all_digits(mant.subrange(0, p))) by {
                assert forall|j: int| 0 <= j < p implies is_digit(
                    #[trigger] mant.subrange(0, p)[j],
                ) by {
                    assert(mant.subrange(0, p)[j] == v[i + j]);
                }
            }
            assert(all_digits(mant.subrange(p + 1, mant.len() as int))) by {
                assert forall|j: int| 0 <= j < mant.len() - p - 1 implies is_digit(
                    #[trigger] mant.subrange(p + 1, mant.len() as int)[j],
                ) by {
                    assert(mant.subrange(p + 1, mant.len() as int)[j] == v[int_end + 1 + j]);
                }
            }
        }
    } else {
        if is_mantissa(mant) {
            lemma_mantissa_shape(mant);
            if mant.len() > 0 && all_digits(mant) {
                assert(is_digit(mant[0]));
                assert(mant[0] == v[i]);
            } else {
                let p = choose|p: int|
                    0 <= p < mant.len() && mant.len() >= 2 && #[trigger] mant[p] == '.'
                        && all_digits(mant.subrange(0, p)) && all_digits(
                        mant.subrange(p + 1, mant.len() as int),
                    );
                assert(mant.len() == 1);
            }
        }
    }
    // Any mantissa prefix of the body ends exactly where the scan stopped,
    // or earlier only where the next character is a mantissa character.
    assert forall|m: int|
        0 < m <= body.len() && is_mantissa(#[trigger] body.subrange(0, m)) implies m <= m0 - i by {
        let x = body.subrange(0, m);
        lemma_mantissa_shape(x);
        if m > m0 - i {
            let q = m0 - i;
            assert(x[q] == v[m0]);
            assert(is_mantissa_char(x[q]));
            if has_point {
                assert(!is_digit(v[m0]));
                assert(x[int_end - i] == '.');
                assert(x[q] != '.');
            } else {
                assert(x[q] == v[int_end]);
            }
        }
    }
    assert forall|m: int|
        0 < m < body.len() && #[trigger] is_mantissa(body.subrange(0, m)) && is_exponent(
            body.subrange(m, body.len() as int),
        ) implies m == m0 - i by {
        assert(m <= m0 - i);
        if m < m0 - i {
            assert(body.subrange(m, body.len() as int)[0] == v[i + m]);
            if i + m < int_end {
                assert(is_digit(v[i + m]));
            } else if i + m == int_end {
                assert(v[i + m] == '.');
            } else {
                assert(is_digit(v[i + m]));
            }
        }
    }
    if is_mantissa(body) {
        assert(body.subrange(0, body.len() as int) =~= body);
        assert(body.len() <= m0 - i);
        assert(mant =~= body);
    }
    if count > 0 && m0 == b {
        assert(mant =~= body);
    }
    if m0 < b {
        assert(body.subrange(0, m0 - i) =~= mant);
        assert(body.subrange(m0 - i, body.len() as int) =~= v.subrange(m0, b));
    }
    if is_decimal(body) && !is_mantissa(body) {
        let m = choose|m: int|
            0 < m < body.len() && #[trigger] is_mantissa(body.subrange(0, m)) && is_exponent(
                body.subrange(m, body.len() as int),
            );
        assert(m == m0 - i);
    }
}

} // verus!
