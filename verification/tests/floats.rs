use wasm_interpreter::interpreter::float32;
use wasm_interpreter::interpreter::float64;

/// A fixed sequence of bit patterns that visits zeros, subnormals,
/// powers of two, numbers next to them, infinities and NaNs, and then
/// patterns without structure.
struct Patterns {
    state: u64,
    count: u32,
}

impl Patterns {
    fn new() -> Self {
        Patterns { state: 0x2545_f491_4f6c_dd1d, count: 0 }
    }

    fn next_u64(&mut self) -> u64 {
        self.state ^= self.state << 13;
        self.state ^= self.state >> 7;
        self.state ^= self.state << 17;
        self.state
    }

    fn next_f32(&mut self) -> u32 {
        self.count += 1;
        let r = self.next_u64();
        let special: [u32; 16] = [
            0x0000_0000, 0x8000_0000, 0x0000_0001, 0x8000_0001, 0x007f_ffff, 0x0080_0000,
            0x3f80_0000, 0xbf80_0000, 0x7f7f_ffff, 0xff7f_ffff, 0x7f80_0000, 0xff80_0000,
            0x7fc0_0000, 0x3f00_0000, 0x4b00_0000, 0x4b80_0001,
        ];
        match self.count % 4 {
            0 => special[(r % 16) as usize],
            1 => (r as u32) & 0x807f_ffff | (((r >> 40) % 4) as u32 * 0x0080_0000),
            2 => 0x3f80_0000u32.wrapping_add((r % 0x0400_0000) as u32).wrapping_sub(0x0200_0000)
                | ((r >> 63) as u32) << 31,
            _ => r as u32,
        }
    }

    fn next_f64(&mut self) -> u64 {
        self.count += 1;
        let r = self.next_u64();
        let special: [u64; 16] = [
            0x0000_0000_0000_0000, 0x8000_0000_0000_0000, 0x0000_0000_0000_0001,
            0x8000_0000_0000_0001, 0x000f_ffff_ffff_ffff, 0x0010_0000_0000_0000,
            0x3ff0_0000_0000_0000, 0xbff0_0000_0000_0000, 0x7fef_ffff_ffff_ffff,
            0xffef_ffff_ffff_ffff, 0x7ff0_0000_0000_0000, 0xfff0_0000_0000_0000,
            0x7ff8_0000_0000_0000, 0x3fe0_0000_0000_0000, 0x4330_0000_0000_0000,
            0x4340_0000_0000_0001,
        ];
        match self.count % 4 {
            0 => special[(r % 16) as usize],
            1 => r & 0x800f_ffff_ffff_ffff | ((r >> 40) % 4) * 0x0010_0000_0000_0000,
            2 => 0x3ff0_0000_0000_0000u64
                .wrapping_add(r % 0x0080_0000_0000_0000)
                .wrapping_sub(0x0040_0000_0000_0000)
                | (r >> 63) << 63,
            _ => r,
        }
    }
}

fn same32(got: u32, expected: f32) -> bool {
    if expected.is_nan() {
        float32::nan(got)
    } else {
        got == expected.to_bits()
    }
}

fn same64(got: u64, expected: f64) -> bool {
    if expected.is_nan() {
        float64::nan(got)
    } else {
        got == expected.to_bits()
    }
}

#[test]
fn f32_mul_agrees_with_the_machine() {
    let mut p = Patterns::new();
    for _ in 0..200_000 {
        let (a, b) = (p.next_f32(), p.next_f32());
        let expected = f32::from_bits(a) * f32::from_bits(b);
        assert!(same32(float32::mul(a, b), expected), "{:#x} * {:#x}", a, b);
    }
}

#[test]
fn f64_mul_agrees_with_the_machine() {
    let mut p = Patterns::new();
    for _ in 0..200_000 {
        let (a, b) = (p.next_f64(), p.next_f64());
        let expected = f64::from_bits(a) * f64::from_bits(b);
        assert!(same64(float64::mul(a, b), expected), "{:#x} * {:#x}", a, b);
    }
}

#[test]
fn f32_mul_exact_values() {
    assert_eq!(float32::mul(1.5f32.to_bits(), 2.0f32.to_bits()), 3.0f32.to_bits());
    assert_eq!(float32::mul((-0.0f32).to_bits(), 5.0f32.to_bits()), 0x8000_0000);
    assert_eq!(float32::mul(0x7f7f_ffff, 2.0f32.to_bits()), 0x7f80_0000);
    assert_eq!(float32::mul(0x7f80_0000, 0), float32::CANONICAL_NAN);
    // the smallest subnormal halved is a tie between zero and itself: to even
    assert_eq!(float32::mul(0x0000_0001, 0.5f32.to_bits()), 0);
    assert_eq!(float32::mul(0x0000_0003, 0.5f32.to_bits()), 2);
}

#[test]
fn rounding_to_integers_agrees_with_the_machine() {
    let mut p = Patterns::new();
    for _ in 0..100_000 {
        let a = p.next_f32();
        let x = f32::from_bits(a);
        assert!(same32(float32::ceil(a), x.ceil()), "ceil {:#x}", a);
        assert!(same32(float32::floor(a), x.floor()), "floor {:#x}", a);
        assert!(same32(float32::trunc(a), x.trunc()), "trunc {:#x}", a);
        assert!(same32(float32::nearest(a), x.round_ties_even()), "nearest {:#x}", a);
        let b = p.next_f64();
        let y = f64::from_bits(b);
        assert!(same64(float64::ceil(b), y.ceil()), "ceil {:#x}", b);
        assert!(same64(float64::floor(b), y.floor()), "floor {:#x}", b);
        assert!(same64(float64::trunc(b), y.trunc()), "trunc {:#x}", b);
        assert!(same64(float64::nearest(b), y.round_ties_even()), "nearest {:#x}", b);
    }
}

#[test]
fn rounding_to_integers_keeps_the_sign_of_zero() {
    assert_eq!(float32::ceil((-0.5f32).to_bits()), 0x8000_0000);
    assert_eq!(float32::floor(0.5f32.to_bits()), 0);
    assert_eq!(float32::floor((-0.5f32).to_bits()), (-1.0f32).to_bits());
    assert_eq!(float32::nearest(0.5f32.to_bits()), 0);
    assert_eq!(float32::nearest(1.5f32.to_bits()), 2.0f32.to_bits());
    assert_eq!(float32::nearest(2.5f32.to_bits()), 2.0f32.to_bits());
    assert_eq!(float64::nearest((-3.5f64).to_bits()), (-4.0f64).to_bits());
}

#[test]
fn conversions_from_integers_agree_with_the_machine() {
    let mut p = Patterns::new();
    for _ in 0..100_000 {
        let n = p.next_u64() >> (p.next_u64() % 64);
        assert_eq!(float32::from_integer(false, n), (n as f32).to_bits());
        assert_eq!(float64::from_integer(false, n), (n as f64).to_bits());
        let s = n as i64;
        assert_eq!(float32::from_integer(s < 0, s.unsigned_abs()), (s as f32).to_bits());
        assert_eq!(float64::from_integer(s < 0, s.unsigned_abs()), (s as f64).to_bits());
    }
    // 2^24 + 1 is a tie between two floats: to the even one
    assert_eq!(float32::from_integer(false, 16_777_217), 16_777_216f32.to_bits());
    assert_eq!(float32::from_integer(false, 16_777_219), 16_777_220f32.to_bits());
}

#[test]
fn promotion_and_demotion_agree_with_the_machine() {
    let mut p = Patterns::new();
    for _ in 0..200_000 {
        let a = p.next_f32();
        assert!(same64(float64::from_other(a), f32::from_bits(a) as f64), "promote {:#x}", a);
        let b = p.next_f64();
        assert!(same32(float32::from_other(b), f64::from_bits(b) as f32), "demote {:#x}", b);
        // doubles near the floats, where demotion has to round
        let c = (f32::from_bits(a) as f64).to_bits().wrapping_add(p.next_u64() % 0x4000_0000);
        assert!(same32(float32::from_other(c), f64::from_bits(c) as f32), "demote {:#x}", c);
    }
}

#[test]
fn truncation_agrees_with_the_machine() {
    let mut p = Patterns::new();
    for _ in 0..200_000 {
        let a = p.next_f32();
        let x = f32::from_bits(a);
        let got = float32::truncate_within(a, i32::MIN as i128, i32::MAX as i128);
        let fits = !x.is_nan() && x.trunc() >= -2147483648.0 && x.trunc() < 2147483648.0;
        assert_eq!(got, if fits { Some(x as i32 as i128) } else { None }, "{:#x}", a);
        let b = p.next_f64();
        let y = f64::from_bits(b);
        let got = float64::truncate_within(b, 0, u64::MAX as i128);
        let fits = !y.is_nan() && y.trunc() >= 0.0 && y.trunc() < 18446744073709551616.0;
        assert_eq!(got, if fits { Some(y as u64 as i128) } else { None }, "{:#x}", b);
    }
}

#[test]
fn comparisons_agree_with_the_machine() {
    let mut p = Patterns::new();
    for _ in 0..200_000 {
        let (a, b) = (p.next_f32(), p.next_f32());
        let (x, y) = (f32::from_bits(a), f32::from_bits(b));
        assert_eq!(float32::eq(a, b), x == y);
        assert_eq!(float32::lt(a, b), x < y);
        assert_eq!(float32::le(a, b), x <= y);
        let (a, b) = (p.next_f64(), p.next_f64());
        let (x, y) = (f64::from_bits(a), f64::from_bits(b));
        assert_eq!(float64::eq(a, b), x == y);
        assert_eq!(float64::lt(a, b), x < y);
        assert_eq!(float64::le(a, b), x <= y);
    }
}

#[test]
fn sign_operations() {
    assert_eq!(float32::abs((-1.5f32).to_bits()), 1.5f32.to_bits());
    assert_eq!(float32::neg(1.5f32.to_bits()), (-1.5f32).to_bits());
    assert_eq!(float32::neg(0x7fc0_0001), 0xffc0_0001);
    assert_eq!(float32::copysign(1.5f32.to_bits(), (-0.0f32).to_bits()), (-1.5f32).to_bits());
    assert_eq!(float32::copysign(0xffc0_0001, 1.0f32.to_bits()), 0x7fc0_0001);
    assert_eq!(float64::copysign((-2.0f64).to_bits(), 3.0f64.to_bits()), 2.0f64.to_bits());
}

#[test]
fn min_and_max() {
    let nan = float32::CANONICAL_NAN;
    assert!(float32::nan(float32::min(nan, 1.0f32.to_bits())));
    assert!(float32::nan(float32::max(1.0f32.to_bits(), nan)));
    assert_eq!(float32::min(0, 0x8000_0000), 0x8000_0000);
    assert_eq!(float32::min(0x8000_0000, 0), 0x8000_0000);
    assert_eq!(float32::max(0, 0x8000_0000), 0);
    assert_eq!(float32::max(0x8000_0000, 0), 0);
    assert_eq!(float32::min(1.0f32.to_bits(), (-2.0f32).to_bits()), (-2.0f32).to_bits());
    assert_eq!(float64::max(1.0f64.to_bits(), (-2.0f64).to_bits()), 1.0f64.to_bits());
    assert_eq!(float64::min(f64::NEG_INFINITY.to_bits(), 0), f64::NEG_INFINITY.to_bits());
}

#[test]
fn f32_add_and_sub_agree_with_the_machine() {
    let mut p = Patterns::new();
    for _ in 0..200_000 {
        let (a, b) = (p.next_f32(), p.next_f32());
        let (x, y) = (f32::from_bits(a), f32::from_bits(b));
        assert!(same32(float32::add(a, b), x + y), "{:#x} + {:#x}", a, b);
        assert!(same32(float32::sub(a, b), x - y), "{:#x} - {:#x}", a, b);
    }
}

#[test]
fn f64_add_and_sub_agree_with_the_machine() {
    let mut p = Patterns::new();
    for _ in 0..200_000 {
        let (a, b) = (p.next_f64(), p.next_f64());
        let (x, y) = (f64::from_bits(a), f64::from_bits(b));
        assert!(same64(float64::add(a, b), x + y), "{:#x} + {:#x}", a, b);
        assert!(same64(float64::sub(a, b), x - y), "{:#x} - {:#x}", a, b);
    }
}

#[test]
fn sums_of_operands_far_apart() {
    // operands whose exponents differ by more than the exact sum can hold
    let mut p = Patterns::new();
    for _ in 0..50_000 {
        let big = (p.next_f64() & 0x800f_ffff_ffff_ffff) | (0x500 + p.next_u64() % 0x100) << 52;
        let small = (p.next_f64() & 0x800f_ffff_ffff_ffff) | (p.next_u64() % 0x400) << 52;
        let (x, y) = (f64::from_bits(big), f64::from_bits(small));
        assert_eq!(float64::add(big, small), (x + y).to_bits());
        assert_eq!(float64::add(small, big), (y + x).to_bits());
        assert_eq!(float64::sub(big, small), (x - y).to_bits());
        let big = (p.next_f32() & 0x807f_ffff) | (0xa0 + p.next_u64() % 0x50) as u32 * 0x80_0000;
        let small = (p.next_f32() & 0x807f_ffff) | (p.next_u64() % 0x40) as u32 * 0x80_0000;
        let (x, y) = (f32::from_bits(big), f32::from_bits(small));
        assert_eq!(float32::add(big, small), (x + y).to_bits());
        assert_eq!(float32::sub(small, big), (y - x).to_bits());
    }
}

#[test]
fn zero_sums_have_the_right_sign() {
    let (pz, nz) = (0u32, 0x8000_0000u32);
    assert_eq!(float32::add(pz, nz), pz);
    assert_eq!(float32::add(nz, nz), nz);
    assert_eq!(float32::add(pz, pz), pz);
    assert_eq!(float32::sub(1.5f32.to_bits(), 1.5f32.to_bits()), pz);
    assert_eq!(float32::sub(nz, pz), nz);
    assert!(float32::nan(float32::add(0x7f80_0000, 0xff80_0000)));
    assert_eq!(float32::add(0x7f80_0000, 0x7f80_0000), 0x7f80_0000);
}

#[test]
fn f32_div_and_sqrt_agree_with_the_machine() {
    let mut p = Patterns::new();
    for _ in 0..200_000 {
        let (a, b) = (p.next_f32(), p.next_f32());
        let (x, y) = (f32::from_bits(a), f32::from_bits(b));
        assert!(same32(float32::div(a, b), x / y), "{:#x} / {:#x}", a, b);
        assert!(same32(float32::sqrt(a), x.sqrt()), "sqrt {:#x}", a);
    }
}

#[test]
fn f64_div_and_sqrt_agree_with_the_machine() {
    let mut p = Patterns::new();
    for _ in 0..200_000 {
        let (a, b) = (p.next_f64(), p.next_f64());
        let (x, y) = (f64::from_bits(a), f64::from_bits(b));
        assert!(same64(float64::div(a, b), x / y), "{:#x} / {:#x}", a, b);
        assert!(same64(float64::sqrt(a), x.sqrt()), "sqrt {:#x}", a);
    }
}

#[test]
fn division_and_root_exact_values() {
    assert_eq!(float32::div(1.0f32.to_bits(), 3.0f32.to_bits()), (1.0f32 / 3.0).to_bits());
    assert_eq!(float32::div(1.0f32.to_bits(), 0), 0x7f80_0000);
    assert_eq!(float32::div((-1.0f32).to_bits(), 0), 0xff80_0000);
    assert!(float32::nan(float32::div(0, 0)));
    assert!(float32::nan(float32::div(0x7f80_0000, 0xff80_0000)));
    assert_eq!(float32::div(6.0f32.to_bits(), 0x7f80_0000), 0);
    assert_eq!(float64::sqrt(4.0f64.to_bits()), 2.0f64.to_bits());
    assert_eq!(float64::sqrt(2.0f64.to_bits()), 2.0f64.sqrt().to_bits());
    assert!(float64::nan(float64::sqrt((-1.0f64).to_bits())));
    assert_eq!(float64::sqrt(0x8000_0000_0000_0000), 0x8000_0000_0000_0000);
    assert_eq!(float32::sqrt(0x0000_0001), (f32::from_bits(1)).sqrt().to_bits());
}
