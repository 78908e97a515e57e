//! Integer semantics of the numeric instructions on 64-bit values.
//!
//! Values are held as `i64`; an instruction that reads its operands as
//! unsigned works on `unsigned64` of them. Every result is stated over
//! mathematical integers and brought back into range by `wrap_i64`.
use vstd::prelude::*;
use crate::interpreter::error::Error;
use crate::interpreter::integer::{magnitude, trunc_div, trunc_rem, count_ones, lemma_count_ones_bound};

verus! {

/// Two to the power 64.
pub open spec fn range64() -> int {
    0x1_0000_0000_0000_0000
}

/// The value in `i64` range that is congruent to `x` modulo 2^64.
pub open spec fn wrap_i64(x: int) -> i64 {
    let m = x % range64();
    if m >= 0x8000_0000_0000_0000 {
        (m - range64()) as i64
    } else {
        m as i64
    }
}

/// The two's-complement bit pattern of `a`, read as an unsigned number.
pub open spec fn unsigned64(a: i64) -> int {
    if a < 0 {
        a + range64()
    } else {
        a as int
    }
}

/// The bit pattern of `a` as a `u64`.
pub fn to_u64(a: i64) -> (r: u64)
    ensures
        r == unsigned64(a),
{
    if a < 0 {
        ((a as i128) + 0x1_0000_0000_0000_0000) as u64
    } else {
        a as u64
    }
}

/// The `i64` with the bit pattern of `x`.
pub fn from_u64(x: u64) -> (r: i64)
    ensures
        r == wrap_i64(x as int),
        unsigned64(r) == x,
{
    if x >= 0x8000_0000_0000_0000 {
        ((x as i128) - 0x1_0000_0000_0000_0000) as i64
    } else {
        x as i64
    }
}

pub open spec fn spec_i64_add(a: i64, b: i64) -> i64 {
    wrap_i64(a + b)
}

/// `i64.add`: addition modulo 2^64.
pub fn i64_add(a: i64, b: i64) -> (r: i64)
    ensures
        r == spec_i64_add(a, b),
{
    a.wrapping_add(b)
}

pub open spec fn spec_i64_sub(a: i64, b: i64) -> i64 {
    wrap_i64(a - b)
}

/// `i64.sub`: subtraction modulo 2^64.
pub fn i64_sub(a: i64, b: i64) -> (r: i64)
    ensures
        r == spec_i64_sub(a, b),
{
    a.wrapping_sub(b)
}

pub open spec fn spec_i64_mul(a: i64, b: i64) -> i64 {
    wrap_i64(a * b)
}

/// `i64.mul`: multiplication modulo 2^64.
pub fn i64_mul(a: i64, b: i64) -> (r: i64)
    ensures
        r == spec_i64_mul(a, b),
{
    a.wrapping_mul(b)
}

pub open spec fn spec_i64_div_s(a: i64, b: i64) -> Result<i64, Error> {
    if b == 0 || (a == i64::MIN && b == -1) {
        Err(Error::Trap)
    } else {
        Ok(trunc_div(a as int, b as int) as i64)
    }
}

/// The absolute value of `a` as a `u64`.
fn abs_u64(a: i64) -> (r: u64)
    ensures
        r == magnitude(a as int),
{
    if a < 0 {
        (-(a as i128)) as u64
    } else {
        a as u64
    }
}

/// `i64.div_s`: signed division rounding toward zero. Traps on a zero
/// divisor and on the one quotient that is out of range.
pub fn i64_div_s(a: i64, b: i64) -> (r: Result<i64, Error>)
    ensures
        r == spec_i64_div_s(a, b),
{
    if b == 0 || (a == i64::MIN && b == -1) {
        return Err(Error::Trap);
    }
    let ua = abs_u64(a);
    let ub = abs_u64(b);
    let q = ua / ub;
    assert(q <= ua) by (nonlinear_arith)
        requires
            q == ua / ub,
            ub > 0,
    ;
    if (a < 0) == (b < 0) {
        assert(q < 0x8000_0000_0000_0000) by {
            if ua == 0x8000_0000_0000_0000 {
                assert(ub >= 2);
                assert(ua / ub < 0x8000_0000_0000_0000) by (nonlinear_arith)
                    requires
                        ua == 0x8000_0000_0000_0000,
                        ub >= 2,
                ;
            }
        }
        Ok(q as i64)
    } else {
        Ok((-(q as i128)) as i64)
    }
}

pub open spec fn spec_i64_div_u(a: i64, b: i64) -> Result<i64, Error> {
    if b == 0 {
        Err(Error::Trap)
    } else {
        Ok(wrap_i64(unsigned64(a) / unsigned64(b)))
    }
}

/// `i64.div_u`: unsigned division. Traps on a zero divisor.
pub fn i64_div_u(a: i64, b: i64) -> (r: Result<i64, Error>)
    ensures
        r == spec_i64_div_u(a, b),
{
    if b == 0 {
        return Err(Error::Trap);
    }
    Ok(from_u64(to_u64(a) / to_u64(b)))
}

pub open spec fn spec_i64_rem_s(a: i64, b: i64) -> Result<i64, Error> {
    if b == 0 {
        Err(Error::Trap)
    } else {
        Ok(trunc_rem(a as int, b as int) as i64)
    }
}

/// `i64.rem_s`: the remainder of the signed division, with the sign of
/// the dividend. Traps on a zero divisor only.
pub fn i64_rem_s(a: i64, b: i64) -> (r: Result<i64, Error>)
    ensures
        r == spec_i64_rem_s(a, b),
{
    if b == 0 {
        return Err(Error::Trap);
    }
    let ua = abs_u64(a);
    let ub = abs_u64(b);
    let m = ua % ub;
    if a < 0 {
        Ok((-(m as i128)) as i64)
    } else {
        Ok(m as i64)
    }
}

pub open spec fn spec_i64_rem_u(a: i64, b: i64) -> Result<i64, Error> {
    if b == 0 {
        Err(Error::Trap)
    } else {
        Ok(wrap_i64(unsigned64(a) % unsigned64(b)))
    }
}

/// `i64.rem_u`: the remainder of the unsigned division. Traps on a zero
/// divisor.
pub fn i64_rem_u(a: i64, b: i64) -> (r: Result<i64, Error>)
    ensures
        r == spec_i64_rem_u(a, b),
{
    if b == 0 {
        return Err(Error::Trap);
    }
    Ok(from_u64(to_u64(a) % to_u64(b)))
}

/// The shift distance that `b` stands for: its bit pattern modulo 64.
pub open spec fn shift64(b: i64) -> u64 {
    (unsigned64(b) % 64) as u64
}

fn shift_amount64(b: i64) -> (r: u64)
    ensures
        r == shift64(b),
        r < 64,
{
    to_u64(b) % 64
}

pub open spec fn spec_i64_shl(a: i64, b: i64) -> i64 {
    a << shift64(b)
}

/// `i64.shl`: shift left by `b` modulo 64.
pub fn i64_shl(a: i64, b: i64) -> (r: i64)
    ensures
        r == spec_i64_shl(a, b),
{
    a << shift_amount64(b)
}

pub open spec fn spec_i64_shr_s(a: i64, b: i64) -> i64 {
    a >> shift64(b)
}

/// `i64.shr_s`: arithmetic shift right by `b` modulo 64.
pub fn i64_shr_s(a: i64, b: i64) -> (r: i64)
    ensures
        r == spec_i64_shr_s(a, b),
{
    a >> shift_amount64(b)
}

pub open spec fn spec_i64_shr_u(a: i64, b: i64) -> i64 {
    wrap_i64(((unsigned64(a) as u64) >> shift64(b)) as int)
}

/// `i64.shr_u`: logical shift right by `b` modulo 64.
pub fn i64_shr_u(a: i64, b: i64) -> (r: i64)
    ensures
        r == spec_i64_shr_u(a, b),
{
    from_u64(to_u64(a) >> shift_amount64(b))
}

/// Rotation of the 64-bit pattern `x` to the left by `k < 64` bits.
pub open spec fn rotate_left64(x: u64, k: u64) -> u64 {
    if k == 0 {
        x
    } else {
        (x << k) | (x >> ((64 - k) as u64))
    }
}

pub open spec fn spec_i64_rotl(a: i64, b: i64) -> i64 {
    wrap_i64(rotate_left64(unsigned64(a) as u64, shift64(b)) as int)
}

/// `i64.rotl`: rotate left by `b` modulo 64.
pub fn i64_rotl(a: i64, b: i64) -> (r: i64)
    ensures
        r == spec_i64_rotl(a, b),
{
    let x = to_u64(a);
    let k = shift_amount64(b);
    if k == 0 {
        a
    } else {
        from_u64((x << k) | (x >> (64 - k)))
    }
}

pub open spec fn spec_i64_rotr(a: i64, b: i64) -> i64 {
    wrap_i64(rotate_left64(unsigned64(a) as u64, ((64 - shift64(b)) % 64) as u64) as int)
}

/// `i64.rotr`: rotate right by `b` modulo 64.
pub fn i64_rotr(a: i64, b: i64) -> (r: i64)
    ensures
        r == spec_i64_rotr(a, b),
{
    let x = to_u64(a);
    let k = shift_amount64(b);
    if k == 0 {
        a
    } else {
        from_u64((x << (64 - k)) | (x >> k))
    }
}

pub open spec fn spec_i64_clz(a: i64) -> i64 {
    vstd::std_specs::bits::u64_leading_zeros(unsigned64(a) as u64) as i64
}

/// `i64.clz`: the number of leading zero bits; 64 for zero.
pub fn i64_clz(a: i64) -> (r: i64)
    ensures
        r == spec_i64_clz(a),
        0 <= r <= 64,
        a == 0 <==> r == 64,
{
    let x = to_u64(a);
    proof {
        vstd::std_specs::bits::axiom_u64_leading_zeros(x);
    }
    x.leading_zeros() as i64
}

pub open spec fn spec_i64_ctz(a: i64) -> i64 {
    vstd::std_specs::bits::u64_trailing_zeros(unsigned64(a) as u64) as i64
}

/// `i64.ctz`: the number of trailing zero bits; 64 for zero.
pub fn i64_ctz(a: i64) -> (r: i64)
    ensures
        r == spec_i64_ctz(a),
        0 <= r <= 64,
        a == 0 <==> r == 64,
{
    let x = to_u64(a);
    proof {
        vstd::std_specs::bits::axiom_u64_trailing_zeros(x);
    }
    x.trailing_zeros() as i64
}

pub open spec fn spec_i64_popcnt(a: i64) -> i64 {
    count_ones(unsigned64(a) as nat) as i64
}

/// `i64.popcnt`: the number of one bits.
pub fn i64_popcnt(a: i64) -> (r: i64)
    ensures
        r == spec_i64_popcnt(a),
        0 <= r <= 64,
{
    let mut x = to_u64(a);
    let mut n: i64 = 0;
    proof {
        vstd::arithmetic::power2::lemma2_to64();
        lemma_count_ones_bound(x as nat, 64);
    }
    while x != 0
        invariant
            0 <= n,
            n + count_ones(x as nat) == count_ones(unsigned64(a) as nat),
            count_ones(unsigned64(a) as nat) <= 64,
        decreases x,
    {
        if x % 2 == 1 {
            n = n + 1;
        }
        x = x / 2;
    }
    n
}

/// The low 32 bits of `a`, as an `i32`.
pub fn wrap_to_i32(a: i64) -> (r: i32)
    ensures
        r == crate::interpreter::integer::wrap_i32(a as int),
{
    let m = to_u64(a) % 0x1_0000_0000;
    if m >= 0x8000_0000 {
        ((m as i64) - 0x1_0000_0000) as i32
    } else {
        m as i32
    }
}

} // verus!
