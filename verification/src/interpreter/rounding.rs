//! Arithmetic that both float formats round with: powers of two, the
//! length of a number in bits, division and square root to the nearest
//! integer.
use vstd::prelude::*;
use vstd::arithmetic::power2::{pow2, lemma_pow2_pos, lemma_pow2_unfold, lemma_pow2_adds, lemma_pow2_strictly_increases, lemma2_to64, lemma2_to64_rest};
use vstd::arithmetic::div_mod::lemma_fundamental_div_mod;

verus! {

/// The powers of two that the proofs of the float formats compare with.
pub proof fn lemma_pow2_values()
    ensures
        pow2(0) == 1,
        pow2(64) == 0x1_0000_0000_0000_0000,
        pow2(126) == 0x4000_0000_0000_0000_0000_0000_0000_0000,
        pow2(127) == 0x8000_0000_0000_0000_0000_0000_0000_0000,
        pow2(128) == 0x1_0000_0000_0000_0000_0000_0000_0000_0000,
{
    lemma2_to64();
    lemma2_to64_rest();
    lemma_pow2_adds(62, 64);
    lemma_pow2_adds(63, 64);
    lemma_pow2_adds(64, 64);
    assert(pow2(126) == 0x4000_0000_0000_0000 * 0x1_0000_0000_0000_0000);
    assert(pow2(127) == 0x8000_0000_0000_0000 * 0x1_0000_0000_0000_0000);
    assert(pow2(128) == 0x1_0000_0000_0000_0000 * 0x1_0000_0000_0000_0000);
}

/// Two to the `a` is at most two to the `b` for `a <= b`.
pub proof fn lemma_pow2_monotonic(a: nat, b: nat)
    requires
        a <= b,
    ensures
        pow2(a) <= pow2(b),
{
    if a < b {
        lemma_pow2_strictly_increases(a, b);
    }
}

/// The number of binary digits of `n`; 0 for 0.
pub open spec fn bit_length(n: nat) -> nat
    decreases n,
{
    if n == 0 {
        0
    } else {
        1 + bit_length(n / 2)
    }
}

/// A number of `bit_length` `k > 0` lies from two to the `k - 1` up to, and without, two to the `k`.
pub proof fn lemma_bit_length(n: nat)
    ensures
        n < pow2(bit_length(n)),
        n > 0 ==> pow2((bit_length(n) - 1) as nat) <= n,
    decreases n,
{
    if n == 0 {
        lemma_pow2_pos(0);
    } else {
        lemma_bit_length(n / 2);
        lemma_pow2_unfold(bit_length(n));
        if n / 2 > 0 {
            lemma_pow2_unfold(bit_length(n / 2));
        } else {
            lemma2_to64();
        }
    }
}

/// The number with the bounds of `lemma_bit_length` has that length.
pub proof fn lemma_bit_length_is(n: nat, k: nat)
    requires
        k > 0,
        pow2((k - 1) as nat) <= n < pow2(k),
    ensures
        bit_length(n) == k,
{
    lemma_bit_length(n);
    let l = bit_length(n);
    lemma_pow2_pos((k - 1) as nat);
    if l < k {
        if l < k - 1 {
            lemma_pow2_strictly_increases(l, (k - 1) as nat);
        }
    } else if l > k {
        if l - 1 > k {
            lemma_pow2_strictly_increases(k, (l - 1) as nat);
        }
    }
}

/// `n / d` rounded to the nearest integer, a tie to the even one.
pub open spec fn rne_div(n: nat, d: nat) -> nat {
    let q = n / d;
    let r = n % d;
    if 2 * r > d || (2 * r == d && q % 2 == 1) {
        q + 1
    } else {
        q
    }
}

/// Two to the power `k`.
pub(crate) fn pow2_of(k: u32) -> (r: u128)
    requires
        k < 127,
    ensures
        r == pow2(k as nat),
        0 < r < 0x8000_0000_0000_0000_0000_0000_0000_0000,
{
    let mut r: u128 = 1;
    let mut i: u32 = 0;
    proof {
        lemma_pow2_values();
    }
    while i < k
        invariant
            i <= k,
            k < 127,
            r == pow2(i as nat),
            pow2(127) == 0x8000_0000_0000_0000_0000_0000_0000_0000,
        decreases k - i,
    {
        proof {
            lemma_pow2_unfold((i + 1) as nat);
            lemma_pow2_strictly_increases((i + 1) as nat, 127);
        }
        r = r * 2;
        i = i + 1;
    }
    proof {
        lemma_pow2_strictly_increases(k as nat, 127);
        lemma_pow2_pos(k as nat);
    }
    r
}

/// The number of binary digits of `n`.
pub(crate) fn bit_length_of(n: u128) -> (r: u32)
    ensures
        r == bit_length(n as nat),
        r <= 128,
{
    let mut x = n;
    let mut r: u32 = 0;
    proof {
        lemma_bit_length(n as nat);
        lemma_pow2_values();
        if bit_length(n as nat) > 128 {
            lemma_pow2_monotonic(128, (bit_length(n as nat) - 1) as nat);
        }
    }
    while x > 0
        invariant
            r + bit_length(x as nat) == bit_length(n as nat),
            bit_length(n as nat) <= 128,
        decreases x,
    {
        x = x / 2;
        r = r + 1;
    }
    r
}

/// The ways of rounding a float to an integer.
#[derive(Clone, Copy, Debug, PartialEq, Eq, Structural)]
pub enum Rounding {
    /// Up.
    Ceil,
    /// Down.
    Floor,
    /// Toward zero.
    Trunc,
    /// To the nearest integer, a tie to the even one.
    Nearest,
}

/// The magnitude of the integer that the number of the given sign and
/// of magnitude `sig / d` is rounded to.
pub open spec fn rounded_magnitude(mode: Rounding, negative: bool, sig: nat, d: nat) -> nat {
    let inexact = sig % d != 0;
    match mode {
        Rounding::Ceil => if !negative && inexact {
            sig / d + 1
        } else {
            sig / d
        },
        Rounding::Floor => if negative && inexact {
            sig / d + 1
        } else {
            sig / d
        },
        Rounding::Trunc => sig / d,
        Rounding::Nearest => rne_div(sig, d),
    }
}

/// The number of the given sign and magnitude.
pub open spec fn signed_number(negative: bool, magnitude: nat) -> int {
    if negative {
        -(magnitude as int)
    } else {
        magnitude as int
    }
}

/// The absolute value of `x`.
pub open spec fn magnitude_number(x: int) -> nat {
    if x < 0 {
        (-x) as nat
    } else {
        x as nat
    }
}

/// `n / d` rounded to the nearest integer, a tie to the even one.
pub(crate) fn divide_to_nearest(n: u128, d: u128) -> (r: u128)
    requires
        d > 0,
        d < 0x4000_0000_0000_0000_0000_0000_0000_0000,
    ensures
        r == rne_div(n as nat, d as nat),
        r <= n,
{
    let quotient = n / d;
    let rest = n % d;
    assert(quotient <= n) by (nonlinear_arith)
        requires
            quotient == n / d,
            d > 0,
    ;
    if 2 * rest > d || (2 * rest == d && quotient % 2 == 1) {
        proof {
            lemma_fundamental_div_mod(n as int, d as int);
        }
        assert(quotient < n) by (nonlinear_arith)
            requires
                quotient == n / d,
                rest == n % d,
                d > 0,
                n == d * (n / d) + n % d,
                2 * rest >= d,
        {
        }
        quotient + 1
    } else {
        quotient
    }
}

/// Whether `s` is the integer part of the square root of `n`.
pub open spec fn is_integer_sqrt(s: nat, n: nat) -> bool {
    s * s <= n < (s + 1) * (s + 1)
}

/// The integer part of the square root of `n`.
pub open spec fn integer_sqrt(n: nat) -> nat {
    choose|s: nat| is_integer_sqrt(s, n)
}

/// No number has two integer square roots.
pub proof fn lemma_integer_sqrt_unique(s: nat, t: nat, n: nat)
    requires
        is_integer_sqrt(s, n),
        is_integer_sqrt(t, n),
    ensures
        s == t,
{
    if s < t {
        assert((s + 1) * (s + 1) <= t * t) by (nonlinear_arith)
            requires
                s + 1 <= t,
        ;
    } else if t < s {
        assert((t + 1) * (t + 1) <= s * s) by (nonlinear_arith)
            requires
                t + 1 <= s,
        ;
    }
}

/// The square root of `n` rounded to the nearest integer. It is never
/// half way between two integers.
pub open spec fn nearest_sqrt(n: nat) -> nat {
    let s = integer_sqrt(n);
    if n - s * s > s {
        s + 1
    } else {
        s
    }
}

/// The integer part of the square root of `n`.
pub(crate) fn integer_sqrt_of(n: u128) -> (r: u128)
    requires
        n < 0x1000_0000_0000_0000_0000_0000_0000,
    ensures
        r == integer_sqrt(n as nat),
        is_integer_sqrt(r as nat, n as nat),
        r < 0x40_0000_0000_0000,
{
    let mut s: u128 = 0;
    let mut i: u32 = 54;
    proof {
        lemma_pow2_values();
        lemma2_to64();
        lemma2_to64_rest();
    }
    while i > 0
        invariant
            i <= 54,
            s * s <= n,
            n < (s + pow2(i as nat)) * (s + pow2(i as nat)),
            s + pow2(i as nat) <= pow2(54),
            pow2(54) == 0x40_0000_0000_0000,
            n < 0x1000_0000_0000_0000_0000_0000_0000,
        decreases i,
    {
        let half = pow2_of(i - 1);
        proof {
            lemma_pow2_unfold(i as nat);
        }
        let candidate = s + half;
        assert(candidate * candidate <= pow2(54) * pow2(54)) by (nonlinear_arith)
            requires
                candidate <= pow2(54),
        ;
        if candidate * candidate <= n {
            s = candidate;
        }
        i = i - 1;
    }
    proof {
        assert(pow2(0) == 1);
        let t = integer_sqrt(n as nat);
        assert(is_integer_sqrt(s as nat, n as nat));
        lemma_integer_sqrt_unique(s as nat, t, n as nat);
    }
    s
}

} // verus!
