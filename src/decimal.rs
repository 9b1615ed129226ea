//! Exact decimal numbers, as the design files write them.
use vstd::prelude::*;
use crate::text::chars_of;

verus! {

/// The number `mantissa / 10^scale`, as a document writes it: `1.0` and
/// `1.00` are the same number in two forms.
#[derive(Clone, Copy, Debug, PartialEq, Eq, Structural)]
pub struct Decimal {
    pub mantissa: i64,
    pub scale: u32,
}

impl Decimal {
    pub fn new(mantissa: i64, scale: u32) -> (r: Decimal)
        ensures
            r.mantissa == mantissa,
            r.scale == scale,
    {
        Decimal { mantissa, scale }
    }

    pub fn zero() -> (r: Decimal)
        ensures
            r == (Decimal { mantissa: 0, scale: 0 }),
    {
        Decimal { mantissa: 0, scale: 0 }
    }
}

pub open spec fn is_digit(c: char) -> bool {
    '0' <= c <= '9'
}

pub open spec fn digit_value(c: char) -> int {
    c as int - '0' as int
}

/// Number of digits in `s`.
pub open spec fn digit_count(s: Seq<char>) -> nat
    decreases s.len(),
{
    if s.len() == 0 {
        0
    } else {
        digit_count(s.drop_last()) + if is_digit(s.last()) {
            1nat
        } else {
            0nat
        }
    }
}

/// Number of `.` in `s`.
pub open spec fn dot_count(s: Seq<char>) -> nat
    decreases s.len(),
{
    if s.len() == 0 {
        0
    } else {
        dot_count(s.drop_last()) + if s.last() == '.' {
            1nat
        } else {
            0nat
        }
    }
}

/// Number of digits after the first `.`.
pub open spec fn fraction_len(s: Seq<char>) -> nat
    decreases s.len(),
{
    if s.len() == 0 {
        0
    } else {
        fraction_len(s.drop_last()) + if dot_count(s.drop_last()) >= 1 && is_digit(s.last()) {
            1nat
        } else {
            0nat
        }
    }
}

/// The integer that the digits of `s` spell, the dot left out.
pub open spec fn digits_value(s: Seq<char>) -> int
    decreases s.len(),
{
    if s.len() == 0 {
        0
    } else if is_digit(s.last()) {
        digits_value(s.drop_last()) * 10 + digit_value(s.last())
    } else {
        digits_value(s.drop_last())
    }
}

pub open spec fn pow10(n: nat) -> int
    decreases n,
{
    if n == 0 {
        1
    } else {
        10 * pow10((n - 1) as nat)
    }
}

/// Digits and dots only, at most one dot, between one and eighteen digits.
pub open spec fn is_number_body(b: Seq<char>) -> bool {
    &&& forall|i: int| 0 <= i < b.len() ==> is_digit(#[trigger] b[i]) || b[i] == '.'
    &&& dot_count(b) <= 1
    &&& 1 <= digit_count(b) <= 18
}

/// The number a token writes: an optional sign, then digits with at most one
/// decimal point; exponents and other forms are no number.
pub open spec fn decimal_of(s: Seq<char>) -> Option<Decimal> {
    let signed = s.len() > 0 && (s[0] == '-' || s[0] == '+');
    let b = if signed {
        s.drop_first()
    } else {
        s
    };
    if is_number_body(b) {
        let v = digits_value(b);
        Some(
            Decimal {
                mantissa: (if s.len() > 0 && s[0] == '-' {
                    -v
                } else {
                    v
                }) as i64,
                scale: fraction_len(b) as u32,
            },
        )
    } else {
        None
    }
}

proof fn lemma_counts_prefix(s: Seq<char>, k: int)
    requires
        0 <= k <= s.len(),
    ensures
        digit_count(s.subrange(0, k)) <= digit_count(s),
        dot_count(s.subrange(0, k)) <= dot_count(s),
    decreases s.len() - k,
{
    if k < s.len() {
        lemma_counts_prefix(s, k + 1);
        assert(s.subrange(0, k + 1).drop_last() =~= s.subrange(0, k));
    } else {
        assert(s.subrange(0, k) =~= s);
    }
}

proof fn lemma_pow10_le(a: nat, b: nat)
    requires
        a <= b,
    ensures
        1 <= pow10(a) <= pow10(b),
    decreases b,
{
    if b > a {
        lemma_pow10_le(a, (b - 1) as nat);
    } else if a > 0 {
        lemma_pow10_le((a - 1) as nat, (a - 1) as nat);
    }
}

/// Reads a token as a number.
pub fn parse_decimal(s: &str) -> (r: Option<Decimal>)
    ensures
        r == decimal_of(s@),
{
    let v = chars_of(s);
    let n = v.len();
    let mut neg = false;
    let mut start: usize = 0;
    if n > 0 && (v[0] == '-' || v[0] == '+') {
        neg = v[0] == '-';
        start = 1;
    }
    let ghost b = v@.subrange(start as int, n as int);
    proof {
        if start == 1 {
            assert(b =~= s@.drop_first());
        } else {
            assert(b =~= s@);
        }
    }
    let mut acc: i64 = 0;
    let mut digits: u32 = 0;
    let mut dots: u32 = 0;
    let mut frac: u32 = 0;
    let mut i = start;
    while i < n
        invariant
            v@ == s@,
            n == v@.len(),
            start <= i <= n,
            b == v@.subrange(start as int, n as int),
            acc == digits_value(b.subrange(0, i - start)),
            digits == digit_count(b.subrange(0, i - start)),
            dots == dot_count(b.subrange(0, i - start)),
            frac == fraction_len(b.subrange(0, i - start)),
            b == (if s@.len() > 0 && (s@[0] == '-' || s@[0] == '+') {
                s@.drop_first()
            } else {
                s@
            }),
            neg == (s@.len() > 0 && s@[0] == '-'),
            digits <= 18,
            frac <= digits,
            dots <= 1,
            0 <= acc < pow10(digits as nat),
            forall|j: int| 0 <= j < i - start ==> is_digit(#[trigger] b[j]) || b[j] == '.',
        decreases n - i,
    {
        let c = v[i];
        let ghost p = b.subrange(0, i - start);
        let ghost q = b.subrange(0, i + 1 - start);
        assert(q.drop_last() =~= p);
        assert(q.last() == c);
        if '0' <= c && c <= '9' {
            if digits == 18 {
                proof {
                    lemma_counts_prefix(b, i + 1 - start);
                }
                return None;
            }
            proof {
                lemma_pow10_le(digits as nat, 17);
                reveal_with_fuel(pow10, 18);
                assert(pow10(17) == 100000000000000000);
            }
            acc = acc * 10 + (c as u32 - '0' as u32) as i64;
            digits = digits + 1;
            if dots == 1 {
                frac = frac + 1;
            }
        } else if c == '.' {
            if dots == 1 {
                proof {
                    lemma_counts_prefix(b, i + 1 - start);
                }
                return None;
            }
            dots = dots + 1;
        } else {
            assert(!(is_digit(b[i - start]) || b[i - start] == '.'));
            return None;
        }
        i = i + 1;
    }
    assert(b.subrange(0, n - start) =~= b);
    if digits == 0 {
        return None;
    }
    let m = if neg {
        -acc
    } else {
        acc
    };
    Some(Decimal { mantissa: m, scale: frac })
}

pub open spec fn all_digits(b: Seq<char>) -> bool {
    forall|i: int| 0 <= i < b.len() ==> is_digit(#[trigger] b[i])
}

/// What `u32::from_str` reads: an optional `+`, then digits whose value fits.
pub open spec fn u32_of(s: Seq<char>) -> Option<u32> {
    let b = if s.len() > 0 && s[0] == '+' {
        s.drop_first()
    } else {
        s
    };
    if b.len() >= 1 && all_digits(b) && digits_value(b) <= u32::MAX {
        Some(digits_value(b) as u32)
    } else {
        None
    }
}

proof fn lemma_value_prefix(s: Seq<char>, k: int)
    requires
        0 <= k <= s.len(),
        forall|i: int| 0 <= i < s.len() ==> is_digit(#[trigger] s[i]),
    ensures
        0 <= digits_value(s.subrange(0, k)) <= digits_value(s),
    decreases s.len() - k,
{
    if k < s.len() {
        lemma_value_prefix(s, k + 1);
        let q = s.subrange(0, k + 1);
        assert(q.drop_last() =~= s.subrange(0, k));
        assert(is_digit(q.last()));
    } else {
        assert(s.subrange(0, k) =~= s);
        lemma_value_nonneg(s);
    }
}

proof fn lemma_value_nonneg(s: Seq<char>)
    ensures
        digits_value(s) >= 0,
    decreases s.len(),
{
    if s.len() > 0 {
        lemma_value_nonneg(s.drop_last());
    }
}

/// Reads a token as an unsigned 32-bit number.
pub fn parse_u32(s: &str) -> (r: Option<u32>)
    ensures
        r == u32_of(s@),
{
    let v = chars_of(s);
    let n = v.len();
    let mut start: usize = 0;
    if n > 0 && v[0] == '+' {
        start = 1;
    }
    let ghost b = v@.subrange(start as int, n as int);
    proof {
        if start == 1 {
            assert(b =~= s@.drop_first());
        } else {
            assert(b =~= s@);
        }
    }
    if start == n {
        return None;
    }
    let mut acc: u64 = 0;
    let mut i = start;
    while i < n
        invariant
            v@ == s@,
            n == v@.len(),
            start <= i <= n,
            start < n,
            b == v@.subrange(start as int, n as int),
            b == (if s@.len() > 0 && s@[0] == '+' {
                s@.drop_first()
            } else {
                s@
            }),
            acc == digits_value(b.subrange(0, i - start)),
            acc <= u32::MAX,
            forall|j: int| 0 <= j < i - start ==> is_digit(#[trigger] b[j]),
        decreases n - i,
    {
        let c = v[i];
        let ghost q = b.subrange(0, i + 1 - start);
        assert(q.drop_last() =~= b.subrange(0, i - start));
        assert(q.last() == c);
        if !('0' <= c && c <= '9') {
            assert(!is_digit(b[i - start]));
            assert(!all_digits(b));
            return None;
        }
        acc = acc * 10 + (c as u32 - '0' as u32) as u64;
        assert(digits_value(q) == acc);
        if acc > 0xffff_ffffu64 {
            proof {
                if all_digits(b) {
                    lemma_value_prefix(b, i + 1 - start);
                }
            }
            return None;
        }
        i = i + 1;
    }
    assert(b.subrange(0, n - start) =~= b);
    Some(acc as u32)
}

} // verus!
