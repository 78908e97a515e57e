//! Integer semantics of the numeric instructions on 32-bit values.
//!
//! Values are held as `i32`; an instruction that reads its operands as
//! unsigned works on `unsigned32` of them. Every result is stated over
//! mathematical integers and brought back into range by `wrap_i32`.
use vstd::prelude::*;
use crate::interpreter::error::Error;

verus! {

/// Two to the power 32.
pub open spec fn range32() -> int {
    0x1_0000_0000
}

/// The value in `i32` range that is congruent to `x` modulo 2^32.
pub open spec fn wrap_i32(x: int) -> i32 {
    let m = x % range32();
    if m >= 0x8000_0000 {
        (m - range32()) as i32
    } else {
        m as i32
    }
}

/// The two's-complement bit pattern of `a`, read as an unsigned number.
pub open spec fn unsigned32(a: i32) -> int {
    if a < 0 {
        a + range32()
    } else {
        a as int
    }
}

/// The absolute value of `a`.
pub open spec fn magnitude(a: int) -> int {
    if a < 0 {
        -a
    } else {
        a
    }
}

/// Division that rounds toward zero, for `b != 0`.
pub open spec fn trunc_div(a: int, b: int) -> int {
    if (a < 0) == (b < 0) {
        magnitude(a) / magnitude(b)
    } else {
        -(magnitude(a) / magnitude(b))
    }
}

/// The remainder that goes with `trunc_div`: it has the sign of `a`.
pub open spec fn trunc_rem(a: int, b: int) -> int {
    if a < 0 {
        -(magnitude(a) % magnitude(b))
    } else {
        magnitude(a) % magnitude(b)
    }
}

/// The number of one bits in `x`.
pub open spec fn count_ones(x: nat) -> nat
    decreases x,
{
    if x == 0 {
        0
    } else {
        (x % 2) + count_ones(x / 2)
    }
}

/// The bit pattern of `a` as a `u32`.
pub fn to_u32(a: i32) -> (r: u32)
    ensures
        r == unsigned32(a),
{
    if a < 0 {
        ((a as i64) + 0x1_0000_0000) as u32
    } else {
        a as u32
    }
}

/// The `i32` with the bit pattern of `x`.
pub fn from_u32(x: u32) -> (r: i32)
    ensures
        r == wrap_i32(x as int),
        unsigned32(r) == x,
{
    if x >= 0x8000_0000 {
        ((x as i64) - 0x1_0000_0000) as i32
    } else {
        x as i32
    }
}

pub open spec fn spec_i32_add(a: i32, b: i32) -> i32 {
    wrap_i32(a + b)
}

/// `i32.add`: addition modulo 2^32.
pub fn i32_add(a: i32, b: i32) -> (r: i32)
    ensures
        r == spec_i32_add(a, b),
{
    a.wrapping_add(b)
}

pub open spec fn spec_i32_sub(a: i32, b: i32) -> i32 {
    wrap_i32(a - b)
}

/// `i32.sub`: subtraction modulo 2^32.
pub fn i32_sub(a: i32, b: i32) -> (r: i32)
    ensures
        r == spec_i32_sub(a, b),
{
    a.wrapping_sub(b)
}

pub open spec fn spec_i32_mul(a: i32, b: i32) -> i32 {
    wrap_i32(a * b)
}

/// `i32.mul`: multiplication modulo 2^32.
pub fn i32_mul(a: i32, b: i32) -> (r: i32)
    ensures
        r == spec_i32_mul(a, b),
{
    a.wrapping_mul(b)
}

pub open spec fn spec_i32_div_s(a: i32, b: i32) -> Result<i32, Error> {
    if b == 0 || (a == i32::MIN && b == -1) {
        Err(Error::Trap)
    } else {
        Ok(trunc_div(a as int, b as int) as i32)
    }
}

/// The absolute value of `a` as a `u32`.
fn abs_u32(a: i32) -> (r: u32)
    ensures
        r == magnitude(a as int),
{
    if a < 0 {
        (-(a as i64)) as u32
    } else {
        a as u32
    }
}

/// `i32.div_s`: signed division rounding toward zero. Traps on a zero
/// divisor and on the one quotient that is out of range.
pub fn i32_div_s(a: i32, b: i32) -> (r: Result<i32, Error>)
    ensures
        r == spec_i32_div_s(a, b),
{
    if b == 0 || (a == i32::MIN && b == -1) {
        return Err(Error::Trap);
    }
    let ua = abs_u32(a);
    let ub = abs_u32(b);
    let q = ua / ub;
    assert(q <= ua) by (nonlinear_arith)
        requires
            q == ua / ub,
            ub > 0,
    ;
    if (a < 0) == (b < 0) {
        assert(q < 0x8000_0000) by {
            if ua == 0x8000_0000 {
                assert(ub >= 2);
                assert(ua / ub < 0x8000_0000) by (nonlinear_arith)
                    requires
                        ua == 0x8000_0000,
                        ub >= 2,
                ;
            }
        }
        Ok(q as i32)
    } else {
        Ok((-(q as i64)) as i32)
    }
}

pub open spec fn spec_i32_div_u(a: i32, b: i32) -> Result<i32, Error> {
    if b == 0 {
        Err(Error::Trap)
    } else {
        Ok(wrap_i32(unsigned32(a) / unsigned32(b)))
    }
}

/// `i32.div_u`: unsigned division. Traps on a zero divisor.
pub fn i32_div_u(a: i32, b: i32) -> (r: Result<i32, Error>)
    ensures
        r == spec_i32_div_u(a, b),
{
    if b == 0 {
        return Err(Error::Trap);
    }
    Ok(from_u32(to_u32(a) / to_u32(b)))
}

pub open spec fn spec_i32_rem_s(a: i32, b: i32) -> Result<i32, Error> {
    if b == 0 {
        Err(Error::Trap)
    } else {
        Ok(trunc_rem(a as int, b as int) as i32)
    }
}

/// `i32.rem_s`: the remainder of the signed division, with the sign of
/// the dividend. Traps on a zero divisor only.
pub fn i32_rem_s(a: i32, b: i32) -> (r: Result<i32, Error>)
    ensures
        r == spec_i32_rem_s(a, b),
{
    if b == 0 {
        return Err(Error::Trap);
    }
    let ua = abs_u32(a);
    let ub = abs_u32(b);
    let m = ua % ub;
    if a < 0 {
        Ok((-(m as i64)) as i32)
    } else {
        Ok(m as i32)
    }
}

pub open spec fn spec_i32_rem_u(a: i32, b: i32) -> Result<i32, Error> {
    if b == 0 {
        Err(Error::Trap)
    } else {
        Ok(wrap_i32(unsigned32(a) % unsigned32(b)))
    }
}

/// `i32.rem_u`: the remainder of the unsigned division. Traps on a zero
/// divisor.
pub fn i32_rem_u(a: i32, b: i32) -> (r: Result<i32, Error>)
    ensures
        r == spec_i32_rem_u(a, b),
{
    if b == 0 {
        return Err(Error::Trap);
    }
    Ok(from_u32(to_u32(a) % to_u32(b)))
}

/// The shift distance that `b` stands for: its bit pattern modulo 32.
pub open spec fn shift32(b: i32) -> u32 {
    (unsigned32(b) % 32) as u32
}

fn shift_amount32(b: i32) -> (r: u32)
    ensures
        r == shift32(b),
        r < 32,
{
    to_u32(b) % 32
}

pub open spec fn spec_i32_shl(a: i32, b: i32) -> i32 {
    a << shift32(b)
}

/// `i32.shl`: shift left by `b` modulo 32.
pub fn i32_shl(a: i32, b: i32) -> (r: i32)
    ensures
        r == spec_i32_shl(a, b),
{
    a << shift_amount32(b)
}

pub open spec fn spec_i32_shr_s(a: i32, b: i32) -> i32 {
    a >> shift32(b)
}

/// `i32.shr_s`: arithmetic shift right by `b` modulo 32.
pub fn i32_shr_s(a: i32, b: i32) -> (r: i32)
    ensures
        r == spec_i32_shr_s(a, b),
{
    a >> shift_amount32(b)
}

pub open spec fn spec_i32_shr_u(a: i32, b: i32) -> i32 {
    wrap_i32(((unsigned32(a) as u32) >> shift32(b)) as int)
}

/// `i32.shr_u`: logical shift right by `b` modulo 32.
pub fn i32_shr_u(a: i32, b: i32) -> (r: i32)
    ensures
        r == spec_i32_shr_u(a, b),
{
    from_u32(to_u32(a) >> shift_amount32(b))
}

/// Rotation of the 32-bit pattern `x` to the left by `k < 32` bits.
pub open spec fn rotate_left32(x: u32, k: u32) -> u32 {
    if k == 0 {
        x
    } else {
        (x << k) | (x >> ((32 - k) as u32))
    }
}

pub open spec fn spec_i32_rotl(a: i32, b: i32) -> i32 {
    wrap_i32(rotate_left32(unsigned32(a) as u32, shift32(b)) as int)
}

/// `i32.rotl`: rotate left by `b` modulo 32.
pub fn i32_rotl(a: i32, b: i32) -> (r: i32)
    ensures
        r == spec_i32_rotl(a, b),
{
    let x = to_u32(a);
    let k = shift_amount32(b);
    if k == 0 {
        a
    } else {
        from_u32((x << k) | (x >> (32 - k)))
    }
}

pub open spec fn spec_i32_rotr(a: i32, b: i32) -> i32 {
    wrap_i32(rotate_left32(unsigned32(a) as u32, ((32 - shift32(b)) % 32) as u32) as int)
}

/// `i32.rotr`: rotate right by `b` modulo 32.
pub fn i32_rotr(a: i32, b: i32) -> (r: i32)
    ensures
        r == spec_i32_rotr(a, b),
{
    let x = to_u32(a);
    let k = shift_amount32(b);
    if k == 0 {
        a
    } else {
        from_u32((x << (32 - k)) | (x >> k))
    }
}

pub open spec fn spec_i32_clz(a: i32) -> i32 {
    vstd::std_specs::bits::u32_leading_zeros(unsigned32(a) as u32) as i32
}

/// `i32.clz`: the number of leading zero bits; 32 for zero.
pub fn i32_clz(a: i32) -> (r: i32)
    ensures
        r == spec_i32_clz(a),
        0 <= r <= 32,
        a == 0 <==> r == 32,
{
    let x = to_u32(a);
    proof {
        vstd::std_specs::bits::axiom_u32_leading_zeros(x);
    }
    x.leading_zeros() as i32
}

pub open spec fn spec_i32_ctz(a: i32) -> i32 {
    vstd::std_specs::bits::u32_trailing_zeros(unsigned32(a) as u32) as i32
}

/// `i32.ctz`: the number of trailing zero bits; 32 for zero.
pub fn i32_ctz(a: i32) -> (r: i32)
    ensures
        r == spec_i32_ctz(a),
        0 <= r <= 32,
        a == 0 <==> r == 32,
{
    let x = to_u32(a);
    proof {
        vstd::std_specs::bits::axiom_u32_trailing_zeros(x);
    }
    x.trailing_zeros() as i32
}

/// No number below 2^`bits` has more than `bits` one bits.
pub proof fn lemma_count_ones_bound(x: nat, bits: nat)
    requires
        x < vstd::arithmetic::power2::pow2(bits),
    ensures
        count_ones(x) <= bits,
    decreases bits,
{
    vstd::arithmetic::power2::lemma2_to64();
    if bits == 0 || x == 0 {
        assert(vstd::arithmetic::power2::pow2(0) == 1);
    } else {
        vstd::arithmetic::power2::lemma_pow2_unfold(bits);
        lemma_count_ones_bound(x / 2, (bits - 1) as nat);
    }
}

pub open spec fn spec_i32_popcnt(a: i32) -> i32 {
    count_ones(unsigned32(a) as nat) as i32
}

/// `i32.popcnt`: the number of one bits.
pub fn i32_popcnt(a: i32) -> (r: i32)
    ensures
        r == spec_i32_popcnt(a),
        0 <= r <= 32,
{
    let mut x = to_u32(a);
    let mut n: i32 = 0;
    proof {
        vstd::arithmetic::power2::lemma2_to64();
        lemma_count_ones_bound(x as nat, 32);
    }
    while x != 0
        invariant
            0 <= n,
            n + count_ones(x as nat) == count_ones(unsigned32(a) as nat),
            count_ones(unsigned32(a) as nat) <= 32,
        decreases x,
    {
        if x % 2 == 1 {
            n = n + 1;
        }
        x = x / 2;
    }
    n
}

} // verus!
