//! Host numbers.
//!
//! The host's only numeric type is the IEEE-754 double. A [`Number`] carries
//! one by its 64-bit pattern, and everything that is said about it here is
//! said over that pattern with integer arithmetic: sign, biased exponent and
//! fraction, and from those the question that matters for counts, combos and
//! bit flags: does the double stand for an integer exactly, and for which one?

use vstd::arithmetic::div_mod::{lemma_fundamental_div_mod, lemma_mod_multiples_basic};
use vstd::arithmetic::mul::lemma_mul_equality_converse;
use vstd::arithmetic::power2::{
    lemma2_to64, lemma2_to64_rest, lemma_pow2_adds, lemma_pow2_pos, lemma_pow2_strictly_increases,
    pow2,
};
use vstd::bits::{lemma_u64_pow2_no_overflow, lemma_u64_shl_is_mul, lemma_u64_shr_is_div};
use vstd::prelude::*;

verus! {

/// Largest magnitude of an integer that a double holds without loss: 2^53 - 1.
pub const MAX_SAFE_INTEGER: i64 = 0x1f_ffff_ffff_ffff;

/// 2^52, the weight of the implicit leading bit of a normal double.
pub const IMPLICIT_BIT: u64 = 0x10_0000_0000_0000;

/// A host number, held as the bit pattern of an IEEE-754 double.
#[derive(Clone, Copy, Debug, PartialEq, Eq, Hash, Structural)]
pub struct Number {
    pub bits: u64,
}

/// The sign bit: set for negative values and for negative zero.
pub open spec fn sign_bit(bits: u64) -> bool {
    bits >= 0x8000_0000_0000_0000
}

/// The eleven exponent bits, still biased.
pub open spec fn biased_exponent(bits: u64) -> int {
    (bits as int / 0x10_0000_0000_0000) % 0x800
}

/// The low fifty-two bits.
pub open spec fn fraction(bits: u64) -> int {
    bits as int % 0x10_0000_0000_0000
}

/// Neither an infinity nor a NaN.
pub open spec fn is_finite(bits: u64) -> bool {
    biased_exponent(bits) != 0x7ff
}

/// A NaN: all exponent bits set and a fraction that is not zero.
pub open spec fn is_nan(bits: u64) -> bool {
    biased_exponent(bits) == 0x7ff && fraction(bits) != 0
}

/// The integer significand: the fraction, with the implicit bit for normal values.
pub open spec fn significand(bits: u64) -> int {
    if biased_exponent(bits) == 0 {
        fraction(bits)
    } else {
        0x10_0000_0000_0000 + fraction(bits)
    }
}

/// The power of two by which the significand is scaled.
pub open spec fn scale(bits: u64) -> int {
    if biased_exponent(bits) == 0 {
        -1074
    } else {
        biased_exponent(bits) - 1075
    }
}

/// The magnitude of the double is exactly the natural number `n`:
/// `n == significand * 2^scale`, written without fractions.
pub open spec fn magnitude_is(bits: u64, n: nat) -> bool {
    if scale(bits) >= 0 {
        n == significand(bits) * pow2(scale(bits) as nat)
    } else {
        n * pow2((-scale(bits)) as nat) == significand(bits)
    }
}

/// The double with this bit pattern is finite and its value is exactly the
/// integer `n`. Both zeros represent `0`.
pub open spec fn represents(bits: u64, n: int) -> bool {
    &&& is_finite(bits)
    &&& magnitude_is(bits, (if n < 0 { -n } else { n }) as nat)
    &&& n < 0 ==> sign_bit(bits)
    &&& n > 0 ==> !sign_bit(bits)
}

/// `n` is the safe integer that the double stands for: it is represented
/// exactly and its magnitude is at most 2^53 - 1.
pub open spec fn is_safe_integer_of(bits: u64, n: int) -> bool {
    represents(bits, n) && -MAX_SAFE_INTEGER <= n <= MAX_SAFE_INTEGER
}

/// The double stands for some safe integer.
pub open spec fn is_safe_integer(bits: u64) -> bool {
    exists|n: int| is_safe_integer_of(bits, n)
}

/// A bit pattern represents at most one integer.
pub proof fn lemma_represents_unique(bits: u64, a: int, b: int)
    requires
        represents(bits, a),
        represents(bits, b),
    ensures
        a == b,
{
    let ma: int = if a < 0 { -a } else { a };
    let mb: int = if b < 0 { -b } else { b };
    if scale(bits) < 0 {
        let p = pow2((-scale(bits)) as nat) as int;
        lemma_pow2_pos((-scale(bits)) as nat);
        assert(ma * p == mb * p);
        assert(p * ma == p * mb) by (nonlinear_arith)
            requires
                ma * p == mb * p,
        ;
        lemma_mul_equality_converse(p, ma, mb);
    }
    assert(ma == mb);
}

/// The safe integer of a pattern is the one integer that it represents.
pub proof fn lemma_safe_integer_is(bits: u64, n: int)
    requires
        is_safe_integer_of(bits, n),
    ensures
        (Number { bits }).safe_integer() == Some(n),
{
    let m = choose|m: int| is_safe_integer_of(bits, m);
    lemma_represents_unique(bits, n, m);
}

/// The place of the highest set bit of `n`: the `t` with `2^t <= n < 2^(t+1)`,
/// and 0 for 0.
pub open spec fn top_bit(n: nat) -> nat
    decreases n,
{
    if n < 2 {
        0
    } else {
        1 + top_bit(n / 2)
    }
}

/// The bit pattern of the double that stands for the integer `n`, for `n`
/// below 2^53: zero for zero, and else the exponent that the highest bit
/// asks for, over the integer shifted so that its highest bit becomes the
/// implicit one.
pub open spec fn bits_of(n: nat) -> int {
    if n == 0 {
        0
    } else {
        (1023 + top_bit(n)) * 0x10_0000_0000_0000 + n * pow2((52 - top_bit(n)) as nat)
            - 0x10_0000_0000_0000
    }
}

/// The number that stands for the integer `n`.
pub open spec fn number_of(n: nat) -> Number {
    Number { bits: bits_of(n) as u64 }
}

/// An integer between two neighbouring powers of two has its highest bit at
/// the lower one's place.
pub proof fn lemma_top_bit(n: nat, t: nat)
    requires
        pow2(t) <= n < pow2(t + 1),
    ensures
        top_bit(n) == t,
    decreases t,
{
    lemma2_to64();
    if t > 0 {
        vstd::arithmetic::power2::lemma_pow2_unfold(t);
        vstd::arithmetic::power2::lemma_pow2_unfold(t + 1);
        lemma_pow2_pos((t - 1) as nat);
        lemma_top_bit(n / 2, (t - 1) as nat);
    }
}

/// Splits a pattern into its three fields with shifts and masks.
proof fn lemma_fields(bits: u64)
    ensures
        ((bits >> 52) & 0x7ff) as int == biased_exponent(bits),
        (bits & 0xf_ffff_ffff_ffff) as int == fraction(bits),
        ((bits >> 63) == 1) == sign_bit(bits),
        0 <= biased_exponent(bits) < 0x800,
        0 <= fraction(bits) < 0x10_0000_0000_0000,
{
    assert(((bits >> 52) & 0x7ff) == (bits / 0x10_0000_0000_0000) % 0x800) by (bit_vector);
    assert((bits & 0xf_ffff_ffff_ffff) == bits % 0x10_0000_0000_0000) by (bit_vector);
    assert(((bits >> 63) == 1) == (bits >= 0x8000_0000_0000_0000)) by (bit_vector);
}

/// No integer of magnitude `m >= 1` satisfies `m * p == s` when `s < p`.
proof fn lemma_no_multiple_below(s: int, p: int, m: int)
    requires
        0 < s < p,
        0 <= m,
    ensures
        m * p != s,
{
    if m >= 1 {
        assert(m * p >= p) by (nonlinear_arith)
            requires
                m >= 1,
                p > 0,
        ;
    } else {
        assert(m * p == 0) by (nonlinear_arith)
            requires
                m == 0,
        ;
    }
}

impl Number {
    /// The safe integer that the number stands for, if it stands for one.
    pub open spec fn safe_integer(self) -> Option<int> {
        if is_safe_integer(self.bits) {
            Some(choose|n: int| is_safe_integer_of(self.bits, n))
        } else {
            None
        }
    }

    /// The number with the given bit pattern.
    pub fn from_bits(bits: u64) -> (r: Number)
        ensures
            r.bits == bits,
    {
        Number { bits }
    }

    /// The bit pattern.
    pub fn to_bits(&self) -> (r: u64)
        ensures
            r == self.bits,
    {
        self.bits
    }

    /// Whether the number is a NaN.
    pub fn is_nan(&self) -> (r: bool)
        ensures
            r == is_nan(self.bits),
    {
        proof {
            lemma_fields(self.bits);
        }
        ((self.bits >> 52) & 0x7ff) == 0x7ff && (self.bits & 0xf_ffff_ffff_ffff) != 0
    }

    /// Whether the number is finite.
    pub fn is_finite(&self) -> (r: bool)
        ensures
            r == is_finite(self.bits),
    {
        proof {
            lemma_fields(self.bits);
        }
        ((self.bits >> 52) & 0x7ff) != 0x7ff
    }

    /// The safe integer that the number stands for, if it stands for one.
    ///
    /// `Some(n)` exactly when the double is finite, has no fractional part
    /// and its magnitude is at most 2^53 - 1; `n` is then its value. Negative
    /// zero gives `Some(0)`. Nothing is rounded or truncated.
    pub fn as_safe_integer(&self) -> (r: Option<i64>)
        ensures
            match r {
                Some(n) => is_safe_integer_of(self.bits, n as int) && self.safe_integer() == Some(
                    n as int,
                ),
                None => !is_safe_integer(self.bits) && self.safe_integer() is None,
            },
    {
        let r = self.safe_integer_parts();
        proof {
            if let Some(n) = r {
                lemma_safe_integer_is(self.bits, n as int);
            }
        }
        r
    }

    /// The case analysis behind [`Number::as_safe_integer`].
    fn safe_integer_parts(&self) -> (r: Option<i64>)
        ensures
            match r {
                Some(n) => is_safe_integer_of(self.bits, n as int),
                None => !is_safe_integer(self.bits),
            },
    {
        let bits = self.bits;
        let e: u64 = (bits >> 52) & 0x7ff;
        let f: u64 = bits & 0xf_ffff_ffff_ffff;
        let negative = (bits >> 63) == 1;
        proof {
            lemma_fields(bits);
            lemma2_to64();
            lemma2_to64_rest();
        }
        if e == 0x7ff {
            return None;
        }
        if e == 0 {
            if f == 0 {
                assert(0 * pow2(1074) == 0) by (nonlinear_arith);
                return Some(0);
            }
            proof {
                lemma_pow2_strictly_increases(52, 1074);
                assert forall|n: int| !is_safe_integer_of(bits, n) by {
                    let m: int = if n < 0 { -n } else { n };
                    lemma_no_multiple_below(f as int, pow2(1074) as int, m);
                }
            }
            return None;
        }
        let s: u64 = IMPLICIT_BIT + f;
        if e > 1075 {
            proof {
                let k = (e - 1075) as nat;
                if k > 1 {
                    lemma_pow2_strictly_increases(1, k);
                }
                assert forall|n: int| !is_safe_integer_of(bits, n) by {
                    let p = pow2(k) as int;
                    assert(s * p >= 0x20_0000_0000_0000) by (nonlinear_arith)
                        requires
                            s >= 0x10_0000_0000_0000,
                            p >= 2,
                    ;
                }
            }
            return None;
        }
        if e == 1075 {
            assert(s * pow2(0) == s) by (nonlinear_arith)
                requires
                    pow2(0) == 1,
            ;
            let n: i64 = s as i64;
            if negative {
                return Some(-n);
            }
            return Some(n);
        }
        let shift: u64 = 1075 - e;
        if shift > 52 {
            proof {
                if shift > 53 {
                    lemma_pow2_strictly_increases(53, shift as nat);
                }
                assert forall|n: int| !is_safe_integer_of(bits, n) by {
                    let m: int = if n < 0 { -n } else { n };
                    lemma_no_multiple_below(s as int, pow2(shift as nat) as int, m);
                }
            }
            return None;
        }
        proof {
            lemma_u64_pow2_no_overflow(shift as nat);
            lemma_u64_shl_is_mul(1, shift);
        }
        let p: u64 = 1u64 << shift;
        assert(p == pow2(shift as nat));
        if s % p != 0 {
            proof {
                assert forall|n: int| !is_safe_integer_of(bits, n) by {
                    let m: int = if n < 0 { -n } else { n };
                    lemma_mod_multiples_basic(m, p as int);
                }
            }
            return None;
        }
        let n: i64 = (s / p) as i64;
        proof {
            lemma_fundamental_div_mod(s as int, p as int);
            assert((s / p) * p == s) by (nonlinear_arith)
                requires
                    s == p * (s / p) + (s % p),
                    s % p == 0,
            ;
            assert(0 <= s / p <= s) by (nonlinear_arith)
                requires
                    (s / p) * p == s,
                    p >= 1,
                    s >= 0,
            ;
        }
        if negative {
            Some(-n)
        } else {
            Some(n)
        }
    }

    /// The number that stands for the unsigned integer `n`.
    pub fn from_u32(n: u32) -> (r: Number)
        ensures
            r == number_of(n as nat),
            is_safe_integer_of(r.bits, n as int),
            r.safe_integer() == Some(n as int),
            !sign_bit(r.bits),
    {
        let r = Number::encode_u32(n);
        proof {
            lemma_safe_integer_is(r.bits, n as int);
        }
        r
    }

    /// The construction behind [`Number::from_u32`].
    fn encode_u32(n: u32) -> (r: Number)
        ensures
            r == number_of(n as nat),
            is_safe_integer_of(r.bits, n as int),
            !sign_bit(r.bits),
    {
        if n == 0 {
            proof {
                lemma_fields(0);
                assert(0 * pow2(1074) == 0) by (nonlinear_arith);
            }
            return Number { bits: 0 };
        }
        let wide: u64 = n as u64;
        let mut top: u64 = 0;
        assert((wide >> 0) == wide) by (bit_vector);
        while top < 31 && (wide >> (top + 1)) != 0
            invariant
                top <= 31,
                wide == n,
                (wide >> top) != 0,
            decreases 31 - top,
        {
            top = top + 1;
        }
        let shift: u64 = 52 - top;
        let e: u64 = 1023 + top;
        proof {
            lemma2_to64();
            lemma2_to64_rest();
            let low = pow2(top as nat) as int;
            let high = pow2((top + 1) as nat) as int;
            let p = pow2(shift as nat) as int;
            lemma_pow2_pos(top as nat);
            lemma_pow2_pos(shift as nat);
            lemma_u64_shr_is_div(wide, top);
            lemma_fundamental_div_mod(wide as int, low);
            assert(wide >= low) by (nonlinear_arith)
                requires
                    wide == low * (wide as int / low) + (wide as int % low),
                    wide as int / low >= 1,
                    wide as int % low >= 0,
                    low > 0,
            ;
            if top < 31 {
                lemma_u64_shr_is_div(wide, (top + 1) as u64);
                lemma_pow2_pos((top + 1) as nat);
                lemma_fundamental_div_mod(wide as int, high);
                assert(wide < high) by (nonlinear_arith)
                    requires
                        wide == high * (wide as int / high) + (wide as int % high),
                        wide as int / high == 0,
                        wide as int % high < high,
                ;
            }
            lemma_pow2_adds(top as nat, shift as nat);
            lemma_pow2_adds((top + 1) as nat, shift as nat);
            assert(low * p <= wide * p < high * p) by (nonlinear_arith)
                requires
                    low <= wide < high,
                    p > 0,
            ;
            lemma_u64_shl_is_mul(wide, shift);
            lemma_top_bit(n as nat, top as nat);
        }
        let s: u64 = wide << shift;
        let f: u64 = s - IMPLICIT_BIT;
        let bits: u64 = (e << 52) | f;
        proof {
            lemma_fields(bits);
            assert(((bits >> 52) & 0x7ff) == e && (bits & 0xf_ffff_ffff_ffff) == f && (bits >> 63)
                == 0) by (bit_vector)
                requires
                    bits == (e << 52) | f,
                    f < 0x10_0000_0000_0000,
                    1023 <= e <= 1054,
            ;
            assert(scale(bits) == -(shift as int));
            assert(significand(bits) == s);
            assert(bits == e * 0x10_0000_0000_0000 + f) by (bit_vector)
                requires
                    bits == (e << 52) | f,
                    f < 0x10_0000_0000_0000,
                    1023 <= e <= 1054,
            ;
        }
        Number { bits }
    }
}

} // verus!
