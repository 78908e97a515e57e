//! Semantics of the `f32` instructions, on IEEE-754 binary32 bit patterns.
//!
//! A pattern is read arithmetically: the sign is its top bit, the
//! magnitude the remaining 31 bits, of which the upper 8 are the biased
//! exponent and the lower 23 the fraction.
use vstd::prelude::*;
use vstd::arithmetic::power2::{pow2, lemma_pow2_pos, lemma_pow2_unfold, lemma_pow2_adds, lemma_pow2_strictly_increases, lemma2_to64, lemma2_to64_rest};
use vstd::arithmetic::div_mod::{lemma_small_mod, lemma_basic_div, lemma_fundamental_div_mod, lemma_fundamental_div_mod_converse};
use crate::interpreter::rounding::{bit_length, bit_length_of, divide_to_nearest, integer_sqrt_of, lemma_bit_length, lemma_bit_length_is, lemma_pow2_monotonic, lemma_pow2_values, magnitude_number, nearest_sqrt, pow2_of, rne_div, rounded_magnitude, signed_number, Rounding};

verus! {

/// The weight of the sign bit.
pub const SIGN_BIT: u32 = 0x8000_0000;

/// The magnitude of positive infinity: exponent all ones, fraction zero.
pub const INFINITY: u32 = 0x7f80_0000;

/// The quiet NaN with a zero payload and a clear sign bit.
pub const CANONICAL_NAN: u32 = 0x7fc0_0000;

/// Whether the sign bit of `bits` is set.
pub open spec fn is_negative(bits: u32) -> bool {
    bits >= SIGN_BIT
}

/// `bits` with the sign bit cleared.
pub open spec fn magnitude_bits(bits: u32) -> u32 {
    if bits >= SIGN_BIT {
        (bits - SIGN_BIT) as u32
    } else {
        bits
    }
}

/// Whether `bits` is a NaN: exponent all ones and a fraction that is not zero.
pub open spec fn is_nan(bits: u32) -> bool {
    magnitude_bits(bits) > INFINITY
}

/// Where a pattern that is not a NaN stands in the order of the values:
/// the magnitude, negated under a set sign bit. Both zeros stand at 0.
pub open spec fn order_key(bits: u32) -> int {
    if is_negative(bits) {
        -(magnitude_bits(bits) as int)
    } else {
        magnitude_bits(bits) as int
    }
}

fn negative(bits: u32) -> (r: bool)
    ensures
        r == is_negative(bits),
{
    bits >= SIGN_BIT
}

fn magnitude_of(bits: u32) -> (r: u32)
    ensures
        r == magnitude_bits(bits),
        r < SIGN_BIT,
{
    if bits >= SIGN_BIT {
        bits - SIGN_BIT
    } else {
        bits
    }
}

/// Whether `bits` is a NaN.
pub fn nan(bits: u32) -> (r: bool)
    ensures
        r == is_nan(bits),
{
    magnitude_of(bits) > INFINITY
}

fn key(bits: u32) -> (r: i64)
    ensures
        r == order_key(bits),
{
    if negative(bits) {
        -(magnitude_of(bits) as i64)
    } else {
        magnitude_of(bits) as i64
    }
}

pub open spec fn spec_abs(a: u32) -> u32 {
    magnitude_bits(a)
}

/// `f32.abs`: clears the sign bit.
pub fn abs(a: u32) -> (r: u32)
    ensures
        r == spec_abs(a),
{
    magnitude_of(a)
}

pub open spec fn spec_neg(a: u32) -> u32 {
    if is_negative(a) {
        magnitude_bits(a)
    } else {
        (a + SIGN_BIT) as u32
    }
}

/// `f32.neg`: flips the sign bit.
pub fn neg(a: u32) -> (r: u32)
    ensures
        r == spec_neg(a),
{
    if negative(a) {
        magnitude_of(a)
    } else {
        a + SIGN_BIT
    }
}

pub open spec fn spec_copysign(a: u32, b: u32) -> u32 {
    if is_negative(b) {
        (magnitude_bits(a) + SIGN_BIT) as u32
    } else {
        magnitude_bits(a)
    }
}

/// `f32.copysign`: the magnitude of `a` under the sign bit of `b`.
pub fn copysign(a: u32, b: u32) -> (r: u32)
    ensures
        r == spec_copysign(a, b),
{
    if negative(b) {
        magnitude_of(a) + SIGN_BIT
    } else {
        magnitude_of(a)
    }
}

pub open spec fn spec_eq(a: u32, b: u32) -> bool {
    !is_nan(a) && !is_nan(b) && order_key(a) == order_key(b)
}

/// `f32.eq`: false when either operand is a NaN; the two zeros are equal.
pub fn eq(a: u32, b: u32) -> (r: bool)
    ensures
        r == spec_eq(a, b),
{
    !nan(a) && !nan(b) && key(a) == key(b)
}

pub open spec fn spec_lt(a: u32, b: u32) -> bool {
    !is_nan(a) && !is_nan(b) && order_key(a) < order_key(b)
}

/// `f32.lt`: false when either operand is a NaN.
pub fn lt(a: u32, b: u32) -> (r: bool)
    ensures
        r == spec_lt(a, b),
{
    !nan(a) && !nan(b) && key(a) < key(b)
}

pub open spec fn spec_le(a: u32, b: u32) -> bool {
    !is_nan(a) && !is_nan(b) && order_key(a) <= order_key(b)
}

/// `f32.le`: false when either operand is a NaN.
pub fn le(a: u32, b: u32) -> (r: bool)
    ensures
        r == spec_le(a, b),
{
    !nan(a) && !nan(b) && key(a) <= key(b)
}

pub open spec fn spec_min(a: u32, b: u32) -> u32 {
    if is_nan(a) || is_nan(b) {
        CANONICAL_NAN
    } else if order_key(a) < order_key(b) {
        a
    } else if order_key(b) < order_key(a) {
        b
    } else if is_negative(a) {
        a
    } else {
        b
    }
}

/// `f32.min`: a NaN when either operand is one; of the two zeros, the
/// negative one.
pub fn min(a: u32, b: u32) -> (r: u32)
    ensures
        r == spec_min(a, b),
{
    if nan(a) || nan(b) {
        CANONICAL_NAN
    } else if key(a) < key(b) {
        a
    } else if key(b) < key(a) {
        b
    } else if negative(a) {
        a
    } else {
        b
    }
}

pub open spec fn spec_max(a: u32, b: u32) -> u32 {
    if is_nan(a) || is_nan(b) {
        CANONICAL_NAN
    } else if order_key(a) < order_key(b) {
        b
    } else if order_key(b) < order_key(a) {
        a
    } else if is_negative(a) {
        b
    } else {
        a
    }
}

/// `f32.max`: a NaN when either operand is one; of the two zeros, the
/// positive one.
pub fn max(a: u32, b: u32) -> (r: u32)
    ensures
        r == spec_max(a, b),
{
    if nan(a) || nan(b) {
        CANONICAL_NAN
    } else if key(a) < key(b) {
        b
    } else if key(b) < key(a) {
        a
    } else if negative(a) {
        b
    } else {
        a
    }
}

/// The number of fraction bits.
pub const FRAC_BITS: u32 = 23;

/// The weight of the hidden bit of the significand: two to the power `FRAC_BITS`.
pub const HIDDEN: u32 = 0x80_0000;

/// The exponent of the least significant fraction bit of the subnormal numbers.
pub const EMIN: i32 = -149;

/// The biased exponent that infinities and NaNs have.
pub const EXP_MAX: u32 = 255;

/// The powers of two that the proofs below compare with.
pub proof fn lemma_constants()
    ensures
        pow2(0) == 1,
        pow2(FRAC_BITS as nat) == HIDDEN,
        pow2((FRAC_BITS + 1) as nat) == 2 * HIDDEN,
        pow2(64) == 0x1_0000_0000_0000_0000,
        pow2(126) == 0x4000_0000_0000_0000_0000_0000_0000_0000,
        pow2(127) == 0x8000_0000_0000_0000_0000_0000_0000_0000,
        pow2(128) == 0x1_0000_0000_0000_0000_0000_0000_0000_0000,
{
    lemma_pow2_values();
    lemma2_to64();
    lemma2_to64_rest();
}

/// The exponent of the last bit that a float keeps of the number
/// `sig` times two to the `exp`: such that `FRAC_BITS + 1` bits are kept,
/// but not below `EMIN`.
pub open spec fn quantum(sig: nat, exp: int) -> int {
    let q = exp + bit_length(sig) - (FRAC_BITS + 1);
    if q < EMIN {
        EMIN as int
    } else {
        q
    }
}

/// The number `sig` times two to the `exp` in units of its quantum,
/// rounded to the nearest integer, a tie to the even one.
pub open spec fn scaled(sig: nat, exp: int) -> nat {
    let q = quantum(sig, exp);
    if q <= exp {
        sig * pow2((exp - q) as nat)
    } else {
        rne_div(sig, pow2((q - exp) as nat))
    }
}

/// The magnitude bits of the float nearest to `sig` times two to the
/// `exp`, a tie going to the float with an even fraction; those of
/// infinity where the nearest float would need a larger exponent than the
/// format has.
pub open spec fn spec_round(sig: nat, exp: int) -> u32 {
    if sig == 0 {
        0
    } else {
        let m = (quantum(sig, exp) - EMIN) * HIDDEN + scaled(sig, exp);
        if m >= INFINITY {
            INFINITY
        } else {
            m as u32
        }
    }
}

/// The significand of the finite float with magnitude bits `m`: the
/// fraction, with the hidden bit unless the float is subnormal.
pub open spec fn significand(m: u32) -> nat {
    if m < HIDDEN {
        m as nat
    } else {
        (HIDDEN + m % HIDDEN) as nat
    }
}

/// The exponent of the last fraction bit of the finite float with
/// magnitude bits `m`: the float is `significand(m)` times two to this.
pub open spec fn exponent(m: u32) -> int {
    if m < HIDDEN {
        EMIN as int
    } else {
        m / HIDDEN - 1 + EMIN
    }
}

/// `bits` with the sign bit set if `negative`, for `bits` below `SIGN_BIT`.
pub open spec fn with_sign(negative: bool, bits: u32) -> u32 {
    if negative {
        (bits + SIGN_BIT) as u32
    } else {
        bits
    }
}

fn signed(negative: bool, bits: u32) -> (r: u32)
    requires
        bits < SIGN_BIT,
    ensures
        r == with_sign(negative, bits),
{
    if negative {
        bits + SIGN_BIT
    } else {
        bits
    }
}

/// The magnitude bits of the float nearest to `sig` times two to the `exp`.
pub(crate) fn round(sig: u128, exp: i32) -> (r: u32)
    requires
        sig < 0x4000_0000_0000_0000_0000_0000_0000_0000,
        -0x10000 <= exp <= 0x10000,
    ensures
        r == spec_round(sig as nat, exp as int),
        r <= INFINITY,
{
    if sig == 0 {
        return 0;
    }
    let n = bit_length_of(sig);
    proof {
        lemma_bit_length(sig as nat);
        lemma_constants();
        if n > 126 {
            lemma_pow2_monotonic(126, (n - 1) as nat);
        }
    }
    let mut q: i32 = exp + (n as i32) - (FRAC_BITS as i32 + 1);
    if q < EMIN {
        q = EMIN;
    }
    assert(q == quantum(sig as nat, exp as int));
    let s: u128;
    if q <= exp {
        let shift = (exp - q) as u32;
        let p = pow2_of(shift);
        proof {
            lemma_pow2_adds(n as nat, shift as nat);
            lemma_pow2_monotonic((n + shift) as nat, (FRAC_BITS + 1) as nat);
            assert(sig * p < pow2(n as nat) * p) by (nonlinear_arith)
                requires
                    sig < pow2(n as nat),
                    p > 0,
            ;
        }
        s = sig * p;
    } else {
        let shift = q - exp;
        if shift >= 127 {
            proof {
                let d = pow2(shift as nat);
                lemma_pow2_monotonic(127, shift as nat);
                lemma_small_mod(sig as nat, d);
                lemma_basic_div(sig as int, d as int);
            }
            s = 0;
        } else {
            let d = pow2_of(shift as u32);
            let quotient = sig / d;
            let rest = sig % d;
            if 2 * rest > d || (2 * rest == d && quotient % 2 == 1) {
                s = quotient + 1;
            } else {
                s = quotient;
            }
        }
    }
    assert(s == scaled(sig as nat, exp as int));
    if q - EMIN > EXP_MAX as i32 {
        assert((q - EMIN) * HIDDEN >= (EXP_MAX + 1) * HIDDEN) by (nonlinear_arith)
            requires
                q - EMIN >= EXP_MAX + 1,
                HIDDEN > 0,
        ;
        return INFINITY;
    }
    let steps = (q - EMIN) as u128;
    assert(steps * (HIDDEN as u128) <= EXP_MAX * HIDDEN) by (nonlinear_arith)
        requires
            steps <= EXP_MAX,
            HIDDEN > 0,
    ;
    let m = steps * (HIDDEN as u128) + s;
    if m >= INFINITY as u128 {
        INFINITY
    } else {
        m as u32
    }
}

/// A finite float is the nearest to its own value: rounding its
/// significand at its exponent gives its magnitude bits back.
pub proof fn lemma_round_exact(m: u32)
    requires
        m < INFINITY,
    ensures
        spec_round(significand(m), exponent(m)) == m,
{
    lemma_constants();
    let sig = significand(m);
    let exp = exponent(m);
    if m == 0 {
    } else if m < HIDDEN {
        lemma_bit_length(sig);
        let n = bit_length(sig);
        if n > FRAC_BITS {
            lemma_pow2_monotonic(FRAC_BITS as nat, (n - 1) as nat);
        }
        assert(quantum(sig, exp) == EMIN);
        assert(sig * pow2(0) == sig);
    } else {
        lemma_bit_length_is(sig, (FRAC_BITS + 1) as nat);
        assert(quantum(sig, exp) == exp);
        assert(sig * pow2(0) == sig);
        assert((exp - EMIN) * HIDDEN + sig == m) by {
            lemma_fundamental_div_mod(m as int, HIDDEN as int);
            assert((m / HIDDEN - 1) * HIDDEN == HIDDEN * (m / HIDDEN) - HIDDEN) by (nonlinear_arith);
        }
    }
}

/// The significand and the exponent of the finite float with magnitude bits `m`.
pub(crate) fn unpack(m: u32) -> (r: (u128, i32))
    requires
        m < INFINITY,
    ensures
        r.0 == significand(m),
        r.1 == exponent(m),
        r.0 < 2 * HIDDEN,
        m >= HIDDEN ==> r.0 >= HIDDEN,
        EMIN <= r.1 <= EMIN + EXP_MAX,
{
    if m < HIDDEN {
        (m as u128, EMIN)
    } else {
        ((HIDDEN + m % HIDDEN) as u128, (m / HIDDEN) as i32 - 1 + EMIN)
    }
}

pub open spec fn spec_mul(a: u32, b: u32) -> u32 {
    let ma = magnitude_bits(a);
    let mb = magnitude_bits(b);
    let negative = is_negative(a) != is_negative(b);
    if is_nan(a) || is_nan(b) {
        CANONICAL_NAN
    } else if ma == INFINITY || mb == INFINITY {
        if ma == 0 || mb == 0 {
            CANONICAL_NAN
        } else {
            with_sign(negative, INFINITY)
        }
    } else {
        with_sign(negative, spec_round(significand(ma) * significand(mb), exponent(ma) + exponent(mb)))
    }
}

/// `f32.mul`: the float nearest to the product. A NaN if an operand is
/// one, and for zero times infinity.
pub fn mul(a: u32, b: u32) -> (r: u32)
    ensures
        r == spec_mul(a, b),
{
    let ma = magnitude_of(a);
    let mb = magnitude_of(b);
    let negative = negative(a) != negative(b);
    if nan(a) || nan(b) {
        CANONICAL_NAN
    } else if ma == INFINITY || mb == INFINITY {
        if ma == 0 || mb == 0 {
            CANONICAL_NAN
        } else {
            signed(negative, INFINITY)
        }
    } else {
        let (sa, ea) = unpack(ma);
        let (sb, eb) = unpack(mb);
        assert(sa * sb < (2 * HIDDEN) * (2 * HIDDEN)) by (nonlinear_arith)
            requires
                sa < 2 * HIDDEN,
                sb < 2 * HIDDEN,
        ;
        signed(negative, round(sa * sb, ea + eb))
    }
}

/// The float nearest to the integer of the given sign and magnitude.
pub open spec fn spec_from_integer(negative: bool, magnitude: nat) -> u32 {
    with_sign(negative, spec_round(magnitude, 0))
}

/// The conversions from an integer: the float nearest to the integer of
/// the given sign and magnitude.
pub fn from_integer(negative: bool, magnitude: u64) -> (r: u32)
    ensures
        r == spec_from_integer(negative, magnitude as nat),
{
    signed(negative, round(magnitude as u128, 0))
}

/// The integer that a float is rounded to toward zero; none for a NaN
/// and for an infinity.
pub open spec fn spec_truncate(a: u32) -> Option<int> {
    let m = magnitude_bits(a);
    if m >= INFINITY {
        None
    } else {
        let sig = significand(m);
        let exp = exponent(m);
        let whole: int = if exp >= 0 {
            (sig * pow2(exp as nat)) as int
        } else {
            (sig / pow2((-exp) as nat)) as int
        };
        if is_negative(a) {
            Some(-whole)
        } else {
            Some(whole)
        }
    }
}

/// `spec_truncate` where its result lies from `low` to `high`, else none.
pub open spec fn spec_truncate_within(a: u32, low: int, high: int) -> Option<int> {
    match spec_truncate(a) {
        Some(x) => if low <= x <= high {
            Some(x)
        } else {
            None
        },
        None => None,
    }
}

/// The truncations to an integer: the float rounded toward zero, if that
/// lies from `low` to `high`; none else, and for a NaN and an infinity.
/// The bounds are those of an integer type of at most 64 bits.
pub fn truncate_within(a: u32, low: i128, high: i128) -> (r: Option<i128>)
    requires
        -0x8000_0000_0000_0000 <= low <= 0,
        0 <= high <= 0xffff_ffff_ffff_ffff,
    ensures
        r matches Some(x) ==> spec_truncate_within(a, low as int, high as int) == Some(x as int),
        r is None ==> spec_truncate_within(a, low as int, high as int) is None,
{
    let m = magnitude_of(a);
    if m >= INFINITY {
        return None;
    }
    let (sig, exp) = unpack(m);
    proof {
        lemma_constants();
    }
    let whole: u128;
    if exp >= 0 {
        if exp >= 65 {
            proof {
                // the float is at least two to the 65
                lemma_pow2_monotonic(65, exp as nat);
                lemma_pow2_adds(1, 64);
                lemma2_to64();
                assert(sig * pow2(exp as nat) >= pow2(65)) by (nonlinear_arith)
                    requires
                        sig >= 1,
                        pow2(exp as nat) >= pow2(65),
                ;
            }
            return None;
        }
        let p = pow2_of(exp as u32);
        proof {
            lemma_pow2_monotonic(exp as nat, 64);
            assert(sig * p <= (2 * HIDDEN) * pow2(64)) by (nonlinear_arith)
                requires
                    sig < 2 * HIDDEN,
                    p <= pow2(64),
            ;
        }
        whole = sig * p;
    } else {
        let shift = -exp;
        if shift >= 127 {
            proof {
                lemma_pow2_monotonic(127, shift as nat);
                lemma_basic_div(sig as int, pow2(shift as nat) as int);
            }
            whole = 0;
        } else {
            whole = sig / pow2_of(shift as u32);
        }
    }
    let value: i128 = if negative(a) {
        -(whole as i128)
    } else {
        whole as i128
    };
    if low <= value && value <= high {
        Some(value)
    } else {
        None
    }
}

pub open spec fn spec_round_to_integer(mode: Rounding, a: u32) -> u32 {
    let m = magnitude_bits(a);
    if is_nan(a) {
        CANONICAL_NAN
    } else if m == INFINITY || exponent(m) >= 0 {
        a
    } else {
        with_sign(
            is_negative(a),
            spec_round(
                rounded_magnitude(
                    mode,
                    is_negative(a),
                    significand(m),
                    pow2((-exponent(m)) as nat),
                ),
                0,
            ),
        )
    }
}

/// `f32.ceil`, `f32.floor`, `f32.trunc` and `f32.nearest`: the float
/// rounded to an integer in the given way. The sign stays, also where the
/// result is zero. A NaN gives a NaN, an infinity itself.
pub fn round_to_integer(mode: Rounding, a: u32) -> (r: u32)
    ensures
        r == spec_round_to_integer(mode, a),
{
    let m = magnitude_of(a);
    if nan(a) {
        return CANONICAL_NAN;
    }
    if m == INFINITY {
        return a;
    }
    let (sig, exp) = unpack(m);
    if exp >= 0 {
        return a;
    }
    let shift = -exp;
    let is_negative = negative(a);
    proof {
        lemma_constants();
    }
    let quotient: u128;
    let rest: u128;
    let nearest: u128;
    if shift >= 127 {
        proof {
            let d = pow2(shift as nat);
            lemma_pow2_monotonic(127, shift as nat);
            lemma_small_mod(sig as nat, d);
            lemma_basic_div(sig as int, d as int);
        }
        quotient = 0;
        rest = sig;
        nearest = 0;
    } else {
        let d = pow2_of(shift as u32);
        quotient = sig / d;
        rest = sig % d;
        nearest = if 2 * rest > d || (2 * rest == d && quotient % 2 == 1) {
            quotient + 1
        } else {
            quotient
        };
    }
    let whole = match mode {
        Rounding::Ceil => if !is_negative && rest != 0 {
            quotient + 1
        } else {
            quotient
        },
        Rounding::Floor => if is_negative && rest != 0 {
            quotient + 1
        } else {
            quotient
        },
        Rounding::Trunc => quotient,
        Rounding::Nearest => nearest,
    };
    signed(is_negative, round(whole, 0))
}

pub open spec fn spec_ceil(a: u32) -> u32 {
    spec_round_to_integer(Rounding::Ceil, a)
}

/// `f32.ceil`: the least integer that is not below the operand.
pub fn ceil(a: u32) -> (r: u32)
    ensures
        r == spec_ceil(a),
{
    round_to_integer(Rounding::Ceil, a)
}

pub open spec fn spec_floor(a: u32) -> u32 {
    spec_round_to_integer(Rounding::Floor, a)
}

/// `f32.floor`: the greatest integer that is not above the operand.
pub fn floor(a: u32) -> (r: u32)
    ensures
        r == spec_floor(a),
{
    round_to_integer(Rounding::Floor, a)
}

pub open spec fn spec_trunc(a: u32) -> u32 {
    spec_round_to_integer(Rounding::Trunc, a)
}

/// `f32.trunc`: the operand without its fractional part.
pub fn trunc(a: u32) -> (r: u32)
    ensures
        r == spec_trunc(a),
{
    round_to_integer(Rounding::Trunc, a)
}

pub open spec fn spec_nearest(a: u32) -> u32 {
    spec_round_to_integer(Rounding::Nearest, a)
}

/// `f32.nearest`: the integer nearest to the operand, a tie to the even one.
pub fn nearest(a: u32) -> (r: u32)
    ensures
        r == spec_nearest(a),
{
    round_to_integer(Rounding::Nearest, a)
}

/// The float of this format nearest to the float of the other format
/// with bits `a`.
pub open spec fn spec_from_other(a: u64) -> u32 {
    let m = crate::interpreter::float64::magnitude_bits(a);
    let negative = crate::interpreter::float64::is_negative(a);
    if crate::interpreter::float64::is_nan(a) {
        CANONICAL_NAN
    } else if m == crate::interpreter::float64::INFINITY {
        with_sign(negative, INFINITY)
    } else {
        with_sign(
            negative,
            spec_round(
                crate::interpreter::float64::significand(m),
                crate::interpreter::float64::exponent(m),
            ),
        )
    }
}

/// `f32.demote/f64`: the float nearest to the operand. A NaN gives a NaN.
pub fn from_other(a: u64) -> (r: u32)
    ensures
        r == spec_from_other(a),
{
    let negative = a >= crate::interpreter::float64::SIGN_BIT;
    let m = if negative {
        a - crate::interpreter::float64::SIGN_BIT
    } else {
        a
    };
    if crate::interpreter::float64::nan(a) {
        CANONICAL_NAN
    } else if m == crate::interpreter::float64::INFINITY {
        signed(negative, INFINITY)
    } else {
        let (sig, exp) = crate::interpreter::float64::unpack(m);
        signed(negative, round(sig, exp))
    }
}

/// The smaller of the exponents of two finite floats.
pub open spec fn common_exponent(ma: u32, mb: u32) -> int {
    if exponent(ma) <= exponent(mb) {
        exponent(ma)
    } else {
        exponent(mb)
    }
}

/// The sum of two finite floats, in units of two to their common exponent.
pub open spec fn exact_sum(a: u32, b: u32) -> int {
    let ma = magnitude_bits(a);
    let mb = magnitude_bits(b);
    let e = common_exponent(ma, mb);
    signed_number(is_negative(a), significand(ma) * pow2((exponent(ma) - e) as nat)) + signed_number(
        is_negative(b),
        significand(mb) * pow2((exponent(mb) - e) as nat),
    )
}

pub open spec fn spec_add(a: u32, b: u32) -> u32 {
    let ma = magnitude_bits(a);
    let mb = magnitude_bits(b);
    if is_nan(a) || is_nan(b) {
        CANONICAL_NAN
    } else if ma == INFINITY {
        if mb == INFINITY && is_negative(a) != is_negative(b) {
            CANONICAL_NAN
        } else {
            a
        }
    } else if mb == INFINITY {
        b
    } else {
        spec_add_finite(a, b)
    }
}

/// The sum of two finite floats: the float nearest to the exact sum; an
/// exact zero is positive unless both operands are negative.
pub open spec fn spec_add_finite(a: u32, b: u32) -> u32 {
    let sum = exact_sum(a, b);
    if sum == 0 {
        with_sign(is_negative(a) && is_negative(b), 0)
    } else {
        with_sign(
            sum < 0,
            spec_round(
                magnitude_number(sum),
                common_exponent(magnitude_bits(a), magnitude_bits(b)),
            ),
        )
    }
}

/// A sum or difference of a normal float and a float that is more than
/// `FRAC_BITS + 2` binary places smaller rounds to the normal float.
pub proof fn lemma_round_far(ma: u32, sb: nat, d: nat, subtract: bool)
    requires
        HIDDEN <= ma < INFINITY,
        sb < 2 * HIDDEN,
        d >= FRAC_BITS + 3,
        exponent(ma) - d >= EMIN,
    ensures
        !subtract ==> spec_round(significand(ma) * pow2(d) + sb, exponent(ma) - d) == ma,
        subtract ==> significand(ma) * pow2(d) > sb && spec_round(
            (significand(ma) * pow2(d) - sb) as nat,
            exponent(ma) - d,
        ) == ma,
{
    lemma_constants();
    lemma_round_exact(ma);
    let sa = significand(ma);
    let ea = exponent(ma);
    let eb = ea - d;
    let p = pow2(d);
    lemma_bit_length_is(sa, (FRAC_BITS + 1) as nat);
    assert(quantum(sa, ea) == ea);
    assert(sa * pow2(0) == sa);
    // the smaller float is below a quarter of the last place of the larger
    lemma_pow2_monotonic((FRAC_BITS + 3) as nat, d);
    lemma_pow2_adds((FRAC_BITS + 1) as nat, 2);
    lemma2_to64();
    assert(4 * sb < p);
    lemma_pow2_adds((FRAC_BITS + 1) as nat, d);
    lemma_pow2_adds(FRAC_BITS as nat, d);
    assert(pow2((FRAC_BITS + 1 + d) as nat) == 2 * HIDDEN * p);
    assert(pow2((FRAC_BITS + d) as nat) == HIDDEN * p);
    assert(sa * p >= HIDDEN * p) by (nonlinear_arith)
        requires
            sa >= HIDDEN,
            p > 0,
    ;
    assert(sa * p + p <= 2 * HIDDEN * p) by (nonlinear_arith)
        requires
            sa + 1 <= 2 * HIDDEN,
            p > 0,
    ;
    if !subtract || sb == 0 {
        let s = sa * p + sb;
        lemma_bit_length_is(s, (FRAC_BITS + 1 + d) as nat);
        assert(quantum(s, eb) == ea);
        lemma_fundamental_div_mod_converse(s as int, p as int, sa as int, sb as int);
        assert(rne_div(s, p) == sa);
        assert(scaled(s, eb) == sa);
    } else if sa > HIDDEN {
        let s = (sa * p - sb) as nat;
        assert(sa * p - p >= HIDDEN * p) by (nonlinear_arith)
            requires
                sa - 1 >= HIDDEN,
                p > 0,
        ;
        lemma_bit_length_is(s, (FRAC_BITS + 1 + d) as nat);
        assert(quantum(s, eb) == ea);
        assert(s == (sa - 1) * p + (p - sb)) by (nonlinear_arith)
            requires
                s == sa * p - sb,
        ;
        lemma_fundamental_div_mod_converse(s as int, p as int, sa - 1, p - sb);
        assert(rne_div(s, p) == sa);
        assert(scaled(s, eb) == sa);
    } else {
        let s = (sa * p - sb) as nat;
        let half = pow2((d - 1) as nat);
        lemma_pow2_unfold(d);
        assert(p == 2 * half);
        lemma_pow2_adds(FRAC_BITS as nat, (d - 1) as nat);
        assert(pow2((FRAC_BITS + d - 1) as nat) == HIDDEN * half);
        assert(sa * p == HIDDEN * half * 2) by (nonlinear_arith)
            requires
                sa == HIDDEN,
                p == 2 * half,
        ;
        lemma_bit_length_is(s, (FRAC_BITS + d) as nat);
        assert(quantum(s, eb) == ea - 1);
        assert(s == (2 * HIDDEN - 1) * half + (half - sb)) by (nonlinear_arith)
            requires
                s == sa * p - sb,
                sa == HIDDEN,
                p == 2 * half,
        ;
        lemma_fundamental_div_mod_converse(s as int, half as int, 2 * HIDDEN - 1, half - sb);
        assert((2 * HIDDEN - 1) % 2 == 1);
        assert(rne_div(s, half) == 2 * HIDDEN);
        assert(pow2((quantum(s, eb) - eb) as nat) == half);
        assert(scaled(s, eb) == 2 * HIDDEN);
        assert((ea - 1 - EMIN) * HIDDEN + 2 * HIDDEN == (ea - EMIN) * HIDDEN + HIDDEN)
            by (nonlinear_arith);
    }
}

/// `f32.add`: the float nearest to the sum. A NaN if an operand is one,
/// and for the sum of the two infinities. A sum that is exactly zero is
/// positive, unless both operands are negative.
pub fn add(a: u32, b: u32) -> (r: u32)
    ensures
        r == spec_add(a, b),
{
    let ma = magnitude_of(a);
    let mb = magnitude_of(b);
    if nan(a) || nan(b) {
        return CANONICAL_NAN;
    }
    if ma == INFINITY {
        if mb == INFINITY && negative(a) != negative(b) {
            return CANONICAL_NAN;
        }
        return a;
    }
    if mb == INFINITY {
        return b;
    }
    let (_, ea) = unpack(ma);
    let (_, eb) = unpack(mb);
    if ea >= eb {
        add_ordered(a, b)
    } else {
        proof {
            lemma_add_commutes(a, b);
        }
        add_ordered(b, a)
    }
}

/// The sum of two finite floats does not depend on their order.
pub proof fn lemma_add_commutes(a: u32, b: u32)
    ensures
        spec_add_finite(a, b) == spec_add_finite(b, a),
{
    assert(exact_sum(a, b) == exact_sum(b, a));
    assert(common_exponent(magnitude_bits(a), magnitude_bits(b)) == common_exponent(
        magnitude_bits(b),
        magnitude_bits(a),
    ));
}

/// The sum of two finite floats of which the first has no smaller exponent.
fn add_ordered(a: u32, b: u32) -> (r: u32)
    requires
        magnitude_bits(a) < INFINITY,
        magnitude_bits(b) < INFINITY,
        exponent(magnitude_bits(a)) >= exponent(magnitude_bits(b)),
    ensures
        r == spec_add_finite(a, b),
{
    let ma = magnitude_of(a);
    let mb = magnitude_of(b);
    let na = negative(a);
    let nb = negative(b);
    let (sa, ea) = unpack(ma);
    let (sb, eb) = unpack(mb);
    let d = ea - eb;
    proof {
        lemma_constants();
        assert(common_exponent(ma, mb) == eb);
        assert(sb * pow2(0) == sb);
        assert(exact_sum(a, b) == signed_number(na, sa as nat * pow2(d as nat)) + signed_number(
            nb,
            sb as nat,
        ));
    }
    if d > 64 {
        proof {
            lemma_round_far(ma, sb as nat, d as nat, na != nb);
            let big = sa as nat * pow2(d as nat);
            let sum = exact_sum(a, b);
            if na == nb {
                assert(magnitude_number(sum) == big + sb);
                assert((sum < 0) == na);
            } else {
                assert(magnitude_number(sum) == (big - sb) as nat);
                assert((sum < 0) == na);
            }
            assert(a == with_sign(na, ma));
        }
        return a;
    }
    let p = pow2_of(d as u32);
    proof {
        lemma_pow2_monotonic(d as nat, 64);
        assert(sa * p <= (2 * HIDDEN) * pow2(64)) by (nonlinear_arith)
            requires
                sa < 2 * HIDDEN,
                p <= pow2(64),
        ;
    }
    finish_sum(na, sa * p, nb, sb, eb)
}

/// The float for the sum of two numbers, given by sign and magnitude in
/// units of two to the `exp`.
fn finish_sum(na: bool, x: u128, nb: bool, y: u128, exp: i32) -> (r: u32)
    requires
        x < 0x2000_0000_0000_0000_0000_0000_0000_0000,
        y < 0x2000_0000_0000_0000_0000_0000_0000_0000,
        -0x10000 <= exp <= 0x10000,
    ensures
        r == ({
            let sum = signed_number(na, x as nat) + signed_number(nb, y as nat);
            if sum == 0 {
                with_sign(na && nb, 0)
            } else {
                with_sign(sum < 0, spec_round(magnitude_number(sum), exp as int))
            }
        }),
{
    let sx: i128 = if na {
        -(x as i128)
    } else {
        x as i128
    };
    let sy: i128 = if nb {
        -(y as i128)
    } else {
        y as i128
    };
    let sum = sx + sy;
    if sum == 0 {
        signed(na && nb, 0)
    } else if sum < 0 {
        signed(true, round((-sum) as u128, exp))
    } else {
        signed(false, round(sum as u128, exp))
    }
}

pub open spec fn spec_sub(a: u32, b: u32) -> u32 {
    spec_add(a, spec_neg(b))
}

/// `f32.sub`: the float nearest to the difference: the sum of the
/// first operand and the second with its sign flipped.
pub fn sub(a: u32, b: u32) -> (r: u32)
    ensures
        r == spec_sub(a, b),
{
    self::add(a, neg(b))
}

/// How far a significand is shifted left to bring its leading bit to
/// the place of the hidden bit.
pub open spec fn normal_shift(sig: nat) -> nat {
    (FRAC_BITS + 1 - bit_length(sig)) as nat
}

/// The magnitude bits of the float nearest to the quotient of `sa`
/// times two to the `ea` by `sb` times two to the `eb`, for significands
/// that are not zero. Both are brought to `FRAC_BITS + 1` bits: `n` and `d`.
/// The quotient `n / d` then lies from a half to two, which gives the
/// exponent of the last bit that the float keeps, and the quotient is
/// rounded at that bit, a tie to the even side.
pub open spec fn spec_round_quotient(sa: nat, ea: int, sb: nat, eb: int) -> u32 {
    let n = sa * pow2(normal_shift(sa));
    let d = sb * pow2(normal_shift(sb));
    let e = (ea - normal_shift(sa)) - (eb - normal_shift(sb));
    let lead: int = if n >= d {
        0
    } else {
        -1
    };
    let q: int = if e + lead - FRAC_BITS < EMIN {
        EMIN as int
    } else {
        e + lead - FRAC_BITS
    };
    let s = if q <= e {
        rne_div(n * pow2((e - q) as nat), d)
    } else {
        rne_div(n, d * pow2((q - e) as nat))
    };
    let m = (q - EMIN) * HIDDEN + s;
    if m >= INFINITY {
        INFINITY
    } else {
        m as u32
    }
}

pub open spec fn spec_div(a: u32, b: u32) -> u32 {
    let ma = magnitude_bits(a);
    let mb = magnitude_bits(b);
    let negative = is_negative(a) != is_negative(b);
    if is_nan(a) || is_nan(b) {
        CANONICAL_NAN
    } else if ma == INFINITY {
        if mb == INFINITY {
            CANONICAL_NAN
        } else {
            with_sign(negative, INFINITY)
        }
    } else if mb == INFINITY {
        with_sign(negative, 0)
    } else if mb == 0 {
        if ma == 0 {
            CANONICAL_NAN
        } else {
            with_sign(negative, INFINITY)
        }
    } else if ma == 0 {
        with_sign(negative, 0)
    } else {
        with_sign(
            negative,
            spec_round_quotient(significand(ma), exponent(ma), significand(mb), exponent(mb)),
        )
    }
}

/// A significand that is not zero, with its leading bit brought to the
/// place of the hidden bit, and the shift that brings it there.
fn normalize(sig: u128) -> (r: (u128, u32))
    requires
        0 < sig < 2 * HIDDEN,
    ensures
        r.1 == normal_shift(sig as nat),
        r.0 == sig * pow2(r.1 as nat),
        HIDDEN <= r.0 < 2 * HIDDEN,
        r.1 <= FRAC_BITS,
{
    let n = bit_length_of(sig);
    proof {
        lemma_constants();
        lemma_bit_length(sig as nat);
        if n > FRAC_BITS + 1 {
            lemma_pow2_monotonic((FRAC_BITS + 1) as nat, (n - 1) as nat);
        }
    }
    let shift = FRAC_BITS + 1 - n;
    let p = pow2_of(shift);
    proof {
        lemma_pow2_adds(n as nat, shift as nat);
        lemma_pow2_adds((n - 1) as nat, shift as nat);
        assert(sig * p < pow2(n as nat) * p) by (nonlinear_arith)
            requires
                sig < pow2(n as nat),
                p > 0,
        ;
        assert(sig * p >= pow2((n - 1) as nat) * p) by (nonlinear_arith)
            requires
                sig >= pow2((n - 1) as nat),
                p > 0,
        ;
    }
    (sig * p, shift)
}

/// `f32.div`: the float nearest to the quotient. A NaN if an operand is
/// one, and for zero by zero and infinity by infinity; an infinity for any
/// other number by zero.
pub fn div(a: u32, b: u32) -> (r: u32)
    ensures
        r == spec_div(a, b),
{
    let ma = magnitude_of(a);
    let mb = magnitude_of(b);
    let negative = negative(a) != negative(b);
    if nan(a) || nan(b) {
        return CANONICAL_NAN;
    }
    if ma == INFINITY {
        if mb == INFINITY {
            return CANONICAL_NAN;
        }
        return signed(negative, INFINITY);
    }
    if mb == INFINITY {
        return signed(negative, 0);
    }
    if mb == 0 {
        if ma == 0 {
            return CANONICAL_NAN;
        }
        return signed(negative, INFINITY);
    }
    if ma == 0 {
        return signed(negative, 0);
    }
    let (sa, ea) = unpack(ma);
    let (sb, eb) = unpack(mb);
    signed(negative, round_quotient(sa, ea, sb, eb))
}

/// The magnitude bits of the float nearest to a quotient.
fn round_quotient(sa: u128, ea: i32, sb: u128, eb: i32) -> (r: u32)
    requires
        0 < sa < 2 * HIDDEN,
        0 < sb < 2 * HIDDEN,
        EMIN <= ea <= EMIN + EXP_MAX,
        EMIN <= eb <= EMIN + EXP_MAX,
    ensures
        r == spec_round_quotient(sa as nat, ea as int, sb as nat, eb as int),
        r <= INFINITY,
{
    let (n, za) = normalize(sa);
    let (d, zb) = normalize(sb);
    let e: i32 = (ea - za as i32) - (eb - zb as i32);
    let lead: i32 = if n >= d {
        0
    } else {
        -1
    };
    let mut q: i32 = e + lead - FRAC_BITS as i32;
    if q < EMIN {
        q = EMIN;
    }
    proof {
        lemma_constants();
    }
    let s: u128;
    if q <= e {
        let shift = (e - q) as u32;
        let p = pow2_of(shift);
        proof {
            lemma_pow2_monotonic(shift as nat, (FRAC_BITS + 1) as nat);
            assert(n * p < 0x100_0000_0000_0000_0000_0000_0000_0000) by (nonlinear_arith)
                requires
                    n < 2 * HIDDEN,
                    p <= 2 * HIDDEN,
                    HIDDEN <= 0x10_0000_0000_0000,
            ;
        }
        s = divide_to_nearest(n * p, d);
    } else {
        let shift = q - e;
        if shift >= 64 {
            proof {
                let p = pow2(shift as nat);
                lemma_pow2_monotonic(64, shift as nat);
                assert(d * p >= HIDDEN * pow2(64)) by (nonlinear_arith)
                    requires
                        d >= HIDDEN,
                        p >= pow2(64),
                ;
                lemma_small_mod(n as nat, d as nat * p);
                lemma_basic_div(n as int, (d * p) as int);
            }
            s = 0;
        } else {
            let p = pow2_of(shift as u32);
            proof {
                lemma_pow2_monotonic(shift as nat, 64);
                assert(d * p <= (2 * HIDDEN) * pow2(64)) by (nonlinear_arith)
                    requires
                        d < 2 * HIDDEN,
                        p <= pow2(64),
                ;
                assert(d * p > 0) by (nonlinear_arith)
                    requires
                        d > 0,
                        p > 0,
                ;
            }
            s = divide_to_nearest(n, d * p);
        }
    }
    if q - EMIN > EXP_MAX as i32 {
        assert((q - EMIN) * HIDDEN >= (EXP_MAX + 1) * HIDDEN) by (nonlinear_arith)
            requires
                q - EMIN >= EXP_MAX + 1,
                HIDDEN > 0,
        ;
        return INFINITY;
    }
    let steps = (q - EMIN) as u128;
    assert(steps * (HIDDEN as u128) <= EXP_MAX * HIDDEN) by (nonlinear_arith)
        requires
            steps <= EXP_MAX,
            HIDDEN > 0,
    ;
    let m = steps * (HIDDEN as u128) + s;
    if m >= INFINITY as u128 {
        INFINITY
    } else {
        m as u32
    }
}

/// The magnitude bits of the float nearest to the square root of `sig`
/// times two to the `exp`, for a significand that is not zero. The root
/// lies from two to the `lead` up to two to the `lead + 1`, so the last bit
/// that the float keeps has the exponent `lead - FRAC_BITS`; the number is
/// brought to units of the square of that bit, and its root is rounded.
pub open spec fn spec_round_sqrt(sig: nat, exp: int) -> u32 {
    let lead = (exp + bit_length(sig) - 1) / 2;
    let q = lead - FRAC_BITS;
    ((q - EMIN) * HIDDEN + nearest_sqrt(sig * pow2((exp - 2 * q) as nat))) as u32
}

pub open spec fn spec_sqrt(a: u32) -> u32 {
    let m = magnitude_bits(a);
    if is_nan(a) {
        CANONICAL_NAN
    } else if m == 0 {
        a
    } else if is_negative(a) {
        CANONICAL_NAN
    } else if m == INFINITY {
        a
    } else {
        spec_round_sqrt(significand(m), exponent(m))
    }
}

/// `f32.sqrt`: the float nearest to the square root. A NaN for a NaN
/// and for a negative number; the zeros and positive infinity give
/// themselves.
pub fn sqrt(a: u32) -> (r: u32)
    ensures
        r == spec_sqrt(a),
{
    let m = magnitude_of(a);
    if nan(a) {
        return CANONICAL_NAN;
    }
    if m == 0 {
        return a;
    }
    if negative(a) {
        return CANONICAL_NAN;
    }
    if m == INFINITY {
        return a;
    }
    let (sig, exp) = unpack(m);
    let n = bit_length_of(sig);
    proof {
        lemma_constants();
        lemma2_to64();
        lemma2_to64_rest();
        lemma_bit_length(sig as nat);
        if n > FRAC_BITS + 1 {
            lemma_pow2_monotonic((FRAC_BITS + 1) as nat, (n - 1) as nat);
        }
    }
    let top: i32 = exp + n as i32 - 1;
    let lead: i32 = if top >= 0 {
        top / 2
    } else {
        -((1 - top) / 2)
    };
    assert(lead == (exp + bit_length(sig as nat) - 1) / 2);
    let q: i32 = lead - FRAC_BITS as i32;
    let shift = (exp - 2 * q) as u32;
    let p = pow2_of(shift);
    proof {
        lemma_pow2_adds(n as nat, shift as nat);
        lemma_pow2_monotonic((n + shift) as nat, (2 * FRAC_BITS + 2) as nat);
        lemma_pow2_adds((FRAC_BITS + 1) as nat, (FRAC_BITS + 1) as nat);
        assert(sig * p < pow2(n as nat) * p) by (nonlinear_arith)
            requires
                sig < pow2(n as nat),
                p > 0,
        ;
        assert((2 * HIDDEN) * (2 * HIDDEN) <= 0x400_0000_0000_0000_0000_0000_0000) by (nonlinear_arith)
            requires
                HIDDEN <= 0x10_0000_0000_0000,
        ;
    }
    let scaled = sig * p;
    let s = integer_sqrt_of(scaled);
    assert(s * s <= scaled);
    let root = if scaled - s * s > s {
        s + 1
    } else {
        s
    };
    assert(root == nearest_sqrt(scaled as nat));
    // the root has `FRAC_BITS + 1` bits, or is two to the `FRAC_BITS + 1`
    proof {
        lemma_pow2_adds((n - 1) as nat, shift as nat);
        lemma_pow2_monotonic((2 * FRAC_BITS) as nat, (n - 1 + shift) as nat);
        lemma_pow2_adds(FRAC_BITS as nat, FRAC_BITS as nat);
        assert(sig * p >= pow2((n - 1) as nat) * p) by (nonlinear_arith)
            requires
                sig >= pow2((n - 1) as nat),
                p > 0,
        ;
        assert(scaled >= HIDDEN * HIDDEN);
        assert(s + 1 > HIDDEN) by (nonlinear_arith)
            requires
                (s + 1) * (s + 1) > scaled,
                scaled >= HIDDEN * HIDDEN,
                HIDDEN > 0,
                s >= 0,
        ;
        assert(s < 2 * HIDDEN) by (nonlinear_arith)
            requires
                s * s <= scaled,
                scaled < (2 * HIDDEN) * (2 * HIDDEN),
                s >= 0,
                HIDDEN > 0,
        ;
    }
    let steps = (q - EMIN) as u128;
    assert(steps * (HIDDEN as u128) <= (EXP_MAX - 2) * HIDDEN) by (nonlinear_arith)
        requires
            steps <= EXP_MAX - 2,
            HIDDEN > 0,
    ;
    (steps * (HIDDEN as u128) + root) as u32
}

} // verus!
