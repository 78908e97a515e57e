//! Runtime values and the numeric operations of the instruction set on them.
//!
//! A value carries its type as a tag. Floats are held as their IEEE-754
//! bit patterns. Each operation switches on the tags of its operands; on
//! operands whose tags it is not defined for it fails with `Error::Value`.
use vstd::prelude::*;
use crate::elements::ValueType;
use crate::interpreter::error::Error;
use crate::interpreter::integer;
use crate::interpreter::integer64;
use crate::interpreter::float32;
use crate::interpreter::float64;

verus! {

/// A value on the stack, in a local or in a global.
#[derive(Clone, Copy, Debug, PartialEq, Eq, Structural)]
pub enum RuntimeValue {
    I32(i32),
    I64(i64),
    /// The bit pattern of a binary32 float.
    F32(u32),
    /// The bit pattern of a binary64 float.
    F64(u64),
}

/// The `I32` that stands for a truth value: 1 for true, 0 for false.
pub open spec fn spec_flag(b: bool) -> RuntimeValue {
    if b {
        RuntimeValue::I32(1)
    } else {
        RuntimeValue::I32(0)
    }
}

/// The `I32` that stands for a truth value: 1 for true, 0 for false.
pub fn flag(b: bool) -> (r: RuntimeValue)
    ensures
        r == spec_flag(b),
{
    if b {
        RuntimeValue::I32(1)
    } else {
        RuntimeValue::I32(0)
    }
}

impl RuntimeValue {
    pub open spec fn spec_value_type(self) -> ValueType {
        match self {
            RuntimeValue::I32(_) => ValueType::I32,
            RuntimeValue::I64(_) => ValueType::I64,
            RuntimeValue::F32(_) => ValueType::F32,
            RuntimeValue::F64(_) => ValueType::F64,
        }
    }

    /// The tag of this value.
    pub fn value_type(&self) -> (r: ValueType)
        ensures
            r == self.spec_value_type(),
    {
        match self {
            RuntimeValue::I32(_) => ValueType::I32,
            RuntimeValue::I64(_) => ValueType::I64,
            RuntimeValue::F32(_) => ValueType::F32,
            RuntimeValue::F64(_) => ValueType::F64,
        }
    }

    pub open spec fn spec_default(value_type: ValueType) -> RuntimeValue {
        match value_type {
            ValueType::I32 => RuntimeValue::I32(0),
            ValueType::I64 => RuntimeValue::I64(0),
            ValueType::F32 => RuntimeValue::F32(0),
            ValueType::F64 => RuntimeValue::F64(0),
        }
    }

    /// The all-zeros value of the given type.
    pub fn default(value_type: ValueType) -> (r: RuntimeValue)
        ensures
            r == Self::spec_default(value_type),
    {
        match value_type {
            ValueType::I32 => RuntimeValue::I32(0),
            ValueType::I64 => RuntimeValue::I64(0),
            ValueType::F32 => RuntimeValue::F32(0),
            ValueType::F64 => RuntimeValue::F64(0),
        }
    }

    /// The `F32` with the given bit pattern.
    pub fn decode_f32(bits: u32) -> (r: RuntimeValue)
        ensures
            r == RuntimeValue::F32(bits),
    {
        RuntimeValue::F32(bits)
    }

    /// The `F64` with the given bit pattern.
    pub fn decode_f64(bits: u64) -> (r: RuntimeValue)
        ensures
            r == RuntimeValue::F64(bits),
    {
        RuntimeValue::F64(bits)
    }

    pub open spec fn spec_try_into_i32(self) -> Result<i32, Error> {
        match self {
            RuntimeValue::I32(v) => Ok(v),
            _ => Err(Error::Value),
        }
    }

    /// The number in an `I32`.
    pub fn try_into_i32(self) -> (r: Result<i32, Error>)
        ensures
            r == self.spec_try_into_i32(),
    {
        match self {
            RuntimeValue::I32(v) => Ok(v),
            _ => Err(Error::Value),
        }
    }

    pub open spec fn spec_try_into_i64(self) -> Result<i64, Error> {
        match self {
            RuntimeValue::I64(v) => Ok(v),
            _ => Err(Error::Value),
        }
    }

    /// The number in an `I64`.
    pub fn try_into_i64(self) -> (r: Result<i64, Error>)
        ensures
            r == self.spec_try_into_i64(),
    {
        match self {
            RuntimeValue::I64(v) => Ok(v),
            _ => Err(Error::Value),
        }
    }

    pub open spec fn spec_try_into_u32(self) -> Result<u32, Error> {
        match self {
            RuntimeValue::I32(v) => Ok(integer::unsigned32(v) as u32),
            _ => Err(Error::Value),
        }
    }

    /// The number in an `I32`, read as unsigned.
    pub fn try_into_u32(self) -> (r: Result<u32, Error>)
        ensures
            r == self.spec_try_into_u32(),
    {
        match self {
            RuntimeValue::I32(v) => Ok(integer::to_u32(v)),
            _ => Err(Error::Value),
        }
    }

    pub open spec fn spec_try_into_u64(self) -> Result<u64, Error> {
        match self {
            RuntimeValue::I64(v) => Ok(integer64::unsigned64(v) as u64),
            _ => Err(Error::Value),
        }
    }

    /// The number in an `I64`, read as unsigned.
    pub fn try_into_u64(self) -> (r: Result<u64, Error>)
        ensures
            r == self.spec_try_into_u64(),
    {
        match self {
            RuntimeValue::I64(v) => Ok(integer64::to_u64(v)),
            _ => Err(Error::Value),
        }
    }

    pub open spec fn spec_try_into_bool(self) -> Result<bool, Error> {
        match self {
            RuntimeValue::I32(v) => Ok(v != 0),
            _ => Err(Error::Value),
        }
    }

    /// The truth value of an `I32`: true unless it is zero.
    pub fn try_into_bool(self) -> (r: Result<bool, Error>)
        ensures
            r == self.spec_try_into_bool(),
    {
        match self {
            RuntimeValue::I32(v) => Ok(v != 0),
            _ => Err(Error::Value),
        }
    }

    pub open spec fn spec_try_into_f32_bits(self) -> Result<u32, Error> {
        match self {
            RuntimeValue::F32(v) => Ok(v),
            _ => Err(Error::Value),
        }
    }

    /// The bit pattern in an `F32`.
    pub fn try_into_f32_bits(self) -> (r: Result<u32, Error>)
        ensures
            r == self.spec_try_into_f32_bits(),
    {
        match self {
            RuntimeValue::F32(v) => Ok(v),
            _ => Err(Error::Value),
        }
    }

    pub open spec fn spec_try_into_f64_bits(self) -> Result<u64, Error> {
        match self {
            RuntimeValue::F64(v) => Ok(v),
            _ => Err(Error::Value),
        }
    }

    /// The bit pattern in an `F64`.
    pub fn try_into_f64_bits(self) -> (r: Result<u64, Error>)
        ensures
            r == self.spec_try_into_f64_bits(),
    {
        match self {
            RuntimeValue::F64(v) => Ok(v),
            _ => Err(Error::Value),
        }
    }

    pub open spec fn spec_width(value_type: ValueType) -> usize {
        match value_type {
            ValueType::I32 => 4,
            ValueType::I64 => 8,
            ValueType::F32 => 4,
            ValueType::F64 => 8,
        }
    }

    /// The number of bytes that a value of the given type takes in memory.
    pub fn width(value_type: ValueType) -> (r: usize)
        ensures
            r == Self::spec_width(value_type),
    {
        match value_type {
            ValueType::I32 => 4,
            ValueType::I64 => 8,
            ValueType::F32 => 4,
            ValueType::F64 => 8,
        }
    }

    pub open spec fn spec_bits(self) -> u64 {
        match self {
            RuntimeValue::I32(a) => integer::unsigned32(a) as u64,
            RuntimeValue::I64(a) => integer64::unsigned64(a) as u64,
            RuntimeValue::F32(a) => a as u64,
            RuntimeValue::F64(a) => a,
        }
    }

    /// The bit pattern of this value, as an unsigned number.
    pub fn bits(self) -> (r: u64)
        ensures
            r == self.spec_bits(),
    {
        match self {
            RuntimeValue::I32(a) => integer::to_u32(a) as u64,
            RuntimeValue::I64(a) => integer64::to_u64(a),
            RuntimeValue::F32(a) => a as u64,
            RuntimeValue::F64(a) => a,
        }
    }

    pub open spec fn spec_from_bits(value_type: ValueType, bits: u64) -> RuntimeValue {
        match value_type {
            ValueType::I32 => RuntimeValue::I32(integer::wrap_i32(bits as int)),
            ValueType::I64 => RuntimeValue::I64(integer64::wrap_i64(bits as int)),
            ValueType::F32 => RuntimeValue::F32((bits % 0x1_0000_0000) as u32),
            ValueType::F64 => RuntimeValue::F64(bits),
        }
    }

    /// The value of the given type whose bit pattern is `bits`, cut to the
    /// width of the type.
    pub fn from_bits(value_type: ValueType, bits: u64) -> (r: RuntimeValue)
        ensures
            r == Self::spec_from_bits(value_type, bits),
    {
        match value_type {
            ValueType::I32 => RuntimeValue::I32(integer::from_u32((bits % 0x1_0000_0000) as u32)),
            ValueType::I64 => RuntimeValue::I64(integer64::from_u64(bits)),
            ValueType::F32 => RuntimeValue::F32((bits % 0x1_0000_0000) as u32),
            ValueType::F64 => RuntimeValue::F64(bits),
        }
    }

    /// The number that the low `width` bytes of `raw` stand for, read as
    /// a two's-complement number if `signed` and as an unsigned one if not.
    /// `width` is 1, 2 or 4.
    pub open spec fn spec_narrow_number(raw: u64, width: usize, signed: bool) -> int {
        let half: int = if width == 1 {
            0x80
        } else if width == 2 {
            0x8000
        } else {
            0x8000_0000
        };
        let low = raw as int % (2 * half);
        if signed && low >= half {
            low - 2 * half
        } else {
            low
        }
    }

    pub open spec fn spec_extend_narrow(
        value_type: ValueType,
        raw: u64,
        width: usize,
        signed: bool,
    ) -> Result<RuntimeValue, Error> {
        match value_type {
            ValueType::I32 => Ok(
                RuntimeValue::I32(integer::wrap_i32(Self::spec_narrow_number(raw, width, signed))),
            ),
            ValueType::I64 => Ok(
                RuntimeValue::I64(integer64::wrap_i64(Self::spec_narrow_number(raw, width, signed))),
            ),
            _ => Err(Error::Value),
        }
    }

    /// The integer of the given type that a number of `width` bytes (1, 2
    /// or 4), loaded as `raw`, extends to: by its sign if `signed`, by zeros
    /// if not.
    pub fn extend_narrow(value_type: ValueType, raw: u64, width: usize, signed: bool) -> (r: Result<
        RuntimeValue,
        Error,
    >)
        ensures
            r == Self::spec_extend_narrow(value_type, raw, width, signed),
    {
        let half: u64 = if width == 1 {
            0x80
        } else if width == 2 {
            0x8000
        } else {
            0x8000_0000
        };
        let low = raw % (2 * half);
        let number: i64 = if signed && low >= half {
            (low as i64) - ((2 * half) as i64)
        } else {
            low as i64
        };
        match value_type {
            ValueType::I32 => Ok(RuntimeValue::I32(integer64::wrap_to_i32(number))),
            ValueType::I64 => Ok(RuntimeValue::I64(number)),
            _ => Err(Error::Value),
        }
    }

    pub open spec fn spec_add(self, other: RuntimeValue) -> Result<RuntimeValue, Error> {
        match (self, other) {
            (RuntimeValue::I32(a), RuntimeValue::I32(b)) => Ok(RuntimeValue::I32(integer::spec_i32_add(a, b))),
            (RuntimeValue::I64(a), RuntimeValue::I64(b)) => Ok(RuntimeValue::I64(integer64::spec_i64_add(a, b))),
            (RuntimeValue::F32(a), RuntimeValue::F32(b)) => Ok(RuntimeValue::F32(float32::spec_add(a, b))),
            (RuntimeValue::F64(a), RuntimeValue::F64(b)) => Ok(RuntimeValue::F64(float64::spec_add(a, b))),
            _ => Err(Error::Value),
        }
    }

    /// `add`: the sum; modulo 2^N on integers.
    pub fn add(self, other: RuntimeValue) -> (r: Result<RuntimeValue, Error>)
        ensures
            r == self.spec_add(other),
    {
        match (self, other) {
            (RuntimeValue::I32(a), RuntimeValue::I32(b)) => Ok(RuntimeValue::I32(integer::i32_add(a, b))),
            (RuntimeValue::I64(a), RuntimeValue::I64(b)) => Ok(RuntimeValue::I64(integer64::i64_add(a, b))),
            (RuntimeValue::F32(a), RuntimeValue::F32(b)) => Ok(RuntimeValue::F32(float32::add(a, b))),
            (RuntimeValue::F64(a), RuntimeValue::F64(b)) => Ok(RuntimeValue::F64(float64::add(a, b))),
            _ => Err(Error::Value),
        }
    }

    pub open spec fn spec_sub(self, other: RuntimeValue) -> Result<RuntimeValue, Error> {
        match (self, other) {
            (RuntimeValue::I32(a), RuntimeValue::I32(b)) => Ok(RuntimeValue::I32(integer::spec_i32_sub(a, b))),
            (RuntimeValue::I64(a), RuntimeValue::I64(b)) => Ok(RuntimeValue::I64(integer64::spec_i64_sub(a, b))),
            (RuntimeValue::F32(a), RuntimeValue::F32(b)) => Ok(RuntimeValue::F32(float32::spec_sub(a, b))),
            (RuntimeValue::F64(a), RuntimeValue::F64(b)) => Ok(RuntimeValue::F64(float64::spec_sub(a, b))),
            _ => Err(Error::Value),
        }
    }

    /// `sub`: the difference; modulo 2^N on integers.
    pub fn sub(self, other: RuntimeValue) -> (r: Result<RuntimeValue, Error>)
        ensures
            r == self.spec_sub(other),
    {
        match (self, other) {
            (RuntimeValue::I32(a), RuntimeValue::I32(b)) => Ok(RuntimeValue::I32(integer::i32_sub(a, b))),
            (RuntimeValue::I64(a), RuntimeValue::I64(b)) => Ok(RuntimeValue::I64(integer64::i64_sub(a, b))),
            (RuntimeValue::F32(a), RuntimeValue::F32(b)) => Ok(RuntimeValue::F32(float32::sub(a, b))),
            (RuntimeValue::F64(a), RuntimeValue::F64(b)) => Ok(RuntimeValue::F64(float64::sub(a, b))),
            _ => Err(Error::Value),
        }
    }

    pub open spec fn spec_mul(self, other: RuntimeValue) -> Result<RuntimeValue, Error> {
        match (self, other) {
            (RuntimeValue::I32(a), RuntimeValue::I32(b)) => Ok(RuntimeValue::I32(integer::spec_i32_mul(a, b))),
            (RuntimeValue::I64(a), RuntimeValue::I64(b)) => Ok(RuntimeValue::I64(integer64::spec_i64_mul(a, b))),
            (RuntimeValue::F32(a), RuntimeValue::F32(b)) => Ok(RuntimeValue::F32(float32::spec_mul(a, b))),
            (RuntimeValue::F64(a), RuntimeValue::F64(b)) => Ok(RuntimeValue::F64(float64::spec_mul(a, b))),
            _ => Err(Error::Value),
        }
    }

    /// `mul`: the product; modulo 2^N on integers.
    pub fn mul(self, other: RuntimeValue) -> (r: Result<RuntimeValue, Error>)
        ensures
            r == self.spec_mul(other),
    {
        match (self, other) {
            (RuntimeValue::I32(a), RuntimeValue::I32(b)) => Ok(RuntimeValue::I32(integer::i32_mul(a, b))),
            (RuntimeValue::I64(a), RuntimeValue::I64(b)) => Ok(RuntimeValue::I64(integer64::i64_mul(a, b))),
            (RuntimeValue::F32(a), RuntimeValue::F32(b)) => Ok(RuntimeValue::F32(float32::mul(a, b))),
            (RuntimeValue::F64(a), RuntimeValue::F64(b)) => Ok(RuntimeValue::F64(float64::mul(a, b))),
            _ => Err(Error::Value),
        }
    }

    pub open spec fn spec_div(self, other: RuntimeValue, signed: bool) -> Result<RuntimeValue, Error> {
        match (self, other) {
            (RuntimeValue::I32(a), RuntimeValue::I32(b)) => match (if signed { integer::spec_i32_div_s(a, b) } else { integer::spec_i32_div_u(a, b) }) { Ok(v) => Ok(RuntimeValue::I32(v)), Err(e) => Err(e) },
            (RuntimeValue::I64(a), RuntimeValue::I64(b)) => match (if signed { integer64::spec_i64_div_s(a, b) } else { integer64::spec_i64_div_u(a, b) }) { Ok(v) => Ok(RuntimeValue::I64(v)), Err(e) => Err(e) },
            (RuntimeValue::F32(a), RuntimeValue::F32(b)) => Ok(RuntimeValue::F32(float32::spec_div(a, b))),
            (RuntimeValue::F64(a), RuntimeValue::F64(b)) => Ok(RuntimeValue::F64(float64::spec_div(a, b))),
            _ => Err(Error::Value),
        }
    }

    /// `div_s`, `div_u` and the float `div`. On integers it traps on a zero
    /// divisor, and `div_s` on the one quotient that is out of range. `signed`
    /// is not read for floats.
    pub fn div(self, other: RuntimeValue, signed: bool) -> (r: Result<RuntimeValue, Error>)
        ensures
            r == self.spec_div(other, signed),
    {
        match (self, other) {
            (RuntimeValue::I32(a), RuntimeValue::I32(b)) => match (if signed { integer::i32_div_s(a, b) } else { integer::i32_div_u(a, b) }) { Ok(v) => Ok(RuntimeValue::I32(v)), Err(e) => Err(e) },
            (RuntimeValue::I64(a), RuntimeValue::I64(b)) => match (if signed { integer64::i64_div_s(a, b) } else { integer64::i64_div_u(a, b) }) { Ok(v) => Ok(RuntimeValue::I64(v)), Err(e) => Err(e) },
            (RuntimeValue::F32(a), RuntimeValue::F32(b)) => Ok(RuntimeValue::F32(float32::div(a, b))),
            (RuntimeValue::F64(a), RuntimeValue::F64(b)) => Ok(RuntimeValue::F64(float64::div(a, b))),
            _ => Err(Error::Value),
        }
    }

    pub open spec fn spec_rem(self, other: RuntimeValue, signed: bool) -> Result<RuntimeValue, Error> {
        match (self, other) {
            (RuntimeValue::I32(a), RuntimeValue::I32(b)) => match (if signed { integer::spec_i32_rem_s(a, b) } else { integer::spec_i32_rem_u(a, b) }) { Ok(v) => Ok(RuntimeValue::I32(v)), Err(e) => Err(e) },
            (RuntimeValue::I64(a), RuntimeValue::I64(b)) => match (if signed { integer64::spec_i64_rem_s(a, b) } else { integer64::spec_i64_rem_u(a, b) }) { Ok(v) => Ok(RuntimeValue::I64(v)), Err(e) => Err(e) },
            _ => Err(Error::Value),
        }
    }

    /// `rem_s` and `rem_u`: the remainder; traps on a zero divisor.
    pub fn rem(self, other: RuntimeValue, signed: bool) -> (r: Result<RuntimeValue, Error>)
        ensures
            r == self.spec_rem(other, signed),
    {
        match (self, other) {
            (RuntimeValue::I32(a), RuntimeValue::I32(b)) => match (if signed { integer::i32_rem_s(a, b) } else { integer::i32_rem_u(a, b) }) { Ok(v) => Ok(RuntimeValue::I32(v)), Err(e) => Err(e) },
            (RuntimeValue::I64(a), RuntimeValue::I64(b)) => match (if signed { integer64::i64_rem_s(a, b) } else { integer64::i64_rem_u(a, b) }) { Ok(v) => Ok(RuntimeValue::I64(v)), Err(e) => Err(e) },
            _ => Err(Error::Value),
        }
    }

    pub open spec fn spec_and(self, other: RuntimeValue) -> Result<RuntimeValue, Error> {
        match (self, other) {
            (RuntimeValue::I32(a), RuntimeValue::I32(b)) => Ok(RuntimeValue::I32(a & b)),
            (RuntimeValue::I64(a), RuntimeValue::I64(b)) => Ok(RuntimeValue::I64(a & b)),
            _ => Err(Error::Value),
        }
    }

    /// `and`: bitwise conjunction.
    pub fn and(self, other: RuntimeValue) -> (r: Result<RuntimeValue, Error>)
        ensures
            r == self.spec_and(other),
    {
        match (self, other) {
            (RuntimeValue::I32(a), RuntimeValue::I32(b)) => Ok(RuntimeValue::I32(a & b)),
            (RuntimeValue::I64(a), RuntimeValue::I64(b)) => Ok(RuntimeValue::I64(a & b)),
            _ => Err(Error::Value),
        }
    }

    pub open spec fn spec_or(self, other: RuntimeValue) -> Result<RuntimeValue, Error> {
        match (self, other) {
            (RuntimeValue::I32(a), RuntimeValue::I32(b)) => Ok(RuntimeValue::I32(a | b)),
            (RuntimeValue::I64(a), RuntimeValue::I64(b)) => Ok(RuntimeValue::I64(a | b)),
            _ => Err(Error::Value),
        }
    }

    /// `or`: bitwise disjunction.
    pub fn or(self, other: RuntimeValue) -> (r: Result<RuntimeValue, Error>)
        ensures
            r == self.spec_or(other),
    {
        match (self, other) {
            (RuntimeValue::I32(a), RuntimeValue::I32(b)) => Ok(RuntimeValue::I32(a | b)),
            (RuntimeValue::I64(a), RuntimeValue::I64(b)) => Ok(RuntimeValue::I64(a | b)),
            _ => Err(Error::Value),
        }
    }

    pub open spec fn spec_xor(self, other: RuntimeValue) -> Result<RuntimeValue, Error> {
        match (self, other) {
            (RuntimeValue::I32(a), RuntimeValue::I32(b)) => Ok(RuntimeValue::I32(a ^ b)),
            (RuntimeValue::I64(a), RuntimeValue::I64(b)) => Ok(RuntimeValue::I64(a ^ b)),
            _ => Err(Error::Value),
        }
    }

    /// `xor`: bitwise exclusive or.
    pub fn xor(self, other: RuntimeValue) -> (r: Result<RuntimeValue, Error>)
        ensures
            r == self.spec_xor(other),
    {
        match (self, other) {
            (RuntimeValue::I32(a), RuntimeValue::I32(b)) => Ok(RuntimeValue::I32(a ^ b)),
            (RuntimeValue::I64(a), RuntimeValue::I64(b)) => Ok(RuntimeValue::I64(a ^ b)),
            _ => Err(Error::Value),
        }
    }

    pub open spec fn spec_shl(self, other: RuntimeValue) -> Result<RuntimeValue, Error> {
        match (self, other) {
            (RuntimeValue::I32(a), RuntimeValue::I32(b)) => Ok(RuntimeValue::I32(integer::spec_i32_shl(a, b))),
            (RuntimeValue::I64(a), RuntimeValue::I64(b)) => Ok(RuntimeValue::I64(integer64::spec_i64_shl(a, b))),
            _ => Err(Error::Value),
        }
    }

    /// `shl`: shift left; the distance is taken modulo N.
    pub fn shl(self, other: RuntimeValue) -> (r: Result<RuntimeValue, Error>)
        ensures
            r == self.spec_shl(other),
    {
        match (self, other) {
            (RuntimeValue::I32(a), RuntimeValue::I32(b)) => Ok(RuntimeValue::I32(integer::i32_shl(a, b))),
            (RuntimeValue::I64(a), RuntimeValue::I64(b)) => Ok(RuntimeValue::I64(integer64::i64_shl(a, b))),
            _ => Err(Error::Value),
        }
    }

    pub open spec fn spec_shr(self, other: RuntimeValue, signed: bool) -> Result<RuntimeValue, Error> {
        match (self, other) {
            (RuntimeValue::I32(a), RuntimeValue::I32(b)) => Ok(RuntimeValue::I32(if signed { integer::spec_i32_shr_s(a, b) } else { integer::spec_i32_shr_u(a, b) })),
            (RuntimeValue::I64(a), RuntimeValue::I64(b)) => Ok(RuntimeValue::I64(if signed { integer64::spec_i64_shr_s(a, b) } else { integer64::spec_i64_shr_u(a, b) })),
            _ => Err(Error::Value),
        }
    }

    /// `shr_s` (arithmetic) and `shr_u` (logical): shift right; the distance is
    /// taken modulo N.
    pub fn shr(self, other: RuntimeValue, signed: bool) -> (r: Result<RuntimeValue, Error>)
        ensures
            r == self.spec_shr(other, signed),
    {
        match (self, other) {
            (RuntimeValue::I32(a), RuntimeValue::I32(b)) => Ok(RuntimeValue::I32(if signed { integer::i32_shr_s(a, b) } else { integer::i32_shr_u(a, b) })),
            (RuntimeValue::I64(a), RuntimeValue::I64(b)) => Ok(RuntimeValue::I64(if signed { integer64::i64_shr_s(a, b) } else { integer64::i64_shr_u(a, b) })),
            _ => Err(Error::Value),
        }
    }

    pub open spec fn spec_rotl(self, other: RuntimeValue) -> Result<RuntimeValue, Error> {
        match (self, other) {
            (RuntimeValue::I32(a), RuntimeValue::I32(b)) => Ok(RuntimeValue::I32(integer::spec_i32_rotl(a, b))),
            (RuntimeValue::I64(a), RuntimeValue::I64(b)) => Ok(RuntimeValue::I64(integer64::spec_i64_rotl(a, b))),
            _ => Err(Error::Value),
        }
    }

    /// `rotl`: rotate left; the distance is taken modulo N.
    pub fn rotl(self, other: RuntimeValue) -> (r: Result<RuntimeValue, Error>)
        ensures
            r == self.spec_rotl(other),
    {
        match (self, other) {
            (RuntimeValue::I32(a), RuntimeValue::I32(b)) => Ok(RuntimeValue::I32(integer::i32_rotl(a, b))),
            (RuntimeValue::I64(a), RuntimeValue::I64(b)) => Ok(RuntimeValue::I64(integer64::i64_rotl(a, b))),
            _ => Err(Error::Value),
        }
    }

    pub open spec fn spec_rotr(self, other: RuntimeValue) -> Result<RuntimeValue, Error> {
        match (self, other) {
            (RuntimeValue::I32(a), RuntimeValue::I32(b)) => Ok(RuntimeValue::I32(integer::spec_i32_rotr(a, b))),
            (RuntimeValue::I64(a), RuntimeValue::I64(b)) => Ok(RuntimeValue::I64(integer64::spec_i64_rotr(a, b))),
            _ => Err(Error::Value),
        }
    }

    /// `rotr`: rotate right; the distance is taken modulo N.
    pub fn rotr(self, other: RuntimeValue) -> (r: Result<RuntimeValue, Error>)
        ensures
            r == self.spec_rotr(other),
    {
        match (self, other) {
            (RuntimeValue::I32(a), RuntimeValue::I32(b)) => Ok(RuntimeValue::I32(integer::i32_rotr(a, b))),
            (RuntimeValue::I64(a), RuntimeValue::I64(b)) => Ok(RuntimeValue::I64(integer64::i64_rotr(a, b))),
            _ => Err(Error::Value),
        }
    }

    pub open spec fn spec_clz(self) -> Result<RuntimeValue, Error> {
        match self {
            RuntimeValue::I32(a) => Ok(RuntimeValue::I32(integer::spec_i32_clz(a))),
            RuntimeValue::I64(a) => Ok(RuntimeValue::I64(integer64::spec_i64_clz(a))),
            _ => Err(Error::Value),
        }
    }

    /// `clz`: the number of leading zero bits; N for zero.
    pub fn clz(self) -> (r: Result<RuntimeValue, Error>)
        ensures
            r == self.spec_clz(),
    {
        match self {
            RuntimeValue::I32(a) => Ok(RuntimeValue::I32(integer::i32_clz(a))),
            RuntimeValue::I64(a) => Ok(RuntimeValue::I64(integer64::i64_clz(a))),
            _ => Err(Error::Value),
        }
    }

    pub open spec fn spec_ctz(self) -> Result<RuntimeValue, Error> {
        match self {
            RuntimeValue::I32(a) => Ok(RuntimeValue::I32(integer::spec_i32_ctz(a))),
            RuntimeValue::I64(a) => Ok(RuntimeValue::I64(integer64::spec_i64_ctz(a))),
            _ => Err(Error::Value),
        }
    }

    /// `ctz`: the number of trailing zero bits; N for zero.
    pub fn ctz(self) -> (r: Result<RuntimeValue, Error>)
        ensures
            r == self.spec_ctz(),
    {
        match self {
            RuntimeValue::I32(a) => Ok(RuntimeValue::I32(integer::i32_ctz(a))),
            RuntimeValue::I64(a) => Ok(RuntimeValue::I64(integer64::i64_ctz(a))),
            _ => Err(Error::Value),
        }
    }

    pub open spec fn spec_popcnt(self) -> Result<RuntimeValue, Error> {
        match self {
            RuntimeValue::I32(a) => Ok(RuntimeValue::I32(integer::spec_i32_popcnt(a))),
            RuntimeValue::I64(a) => Ok(RuntimeValue::I64(integer64::spec_i64_popcnt(a))),
            _ => Err(Error::Value),
        }
    }

    /// `popcnt`: the number of one bits.
    pub fn popcnt(self) -> (r: Result<RuntimeValue, Error>)
        ensures
            r == self.spec_popcnt(),
    {
        match self {
            RuntimeValue::I32(a) => Ok(RuntimeValue::I32(integer::i32_popcnt(a))),
            RuntimeValue::I64(a) => Ok(RuntimeValue::I64(integer64::i64_popcnt(a))),
            _ => Err(Error::Value),
        }
    }

    pub open spec fn spec_abs(self) -> Result<RuntimeValue, Error> {
        match self {
            RuntimeValue::F32(a) => Ok(RuntimeValue::F32(float32::spec_abs(a))),
            RuntimeValue::F64(a) => Ok(RuntimeValue::F64(float64::spec_abs(a))),
            _ => Err(Error::Value),
        }
    }

    /// `abs`: clears the sign.
    pub fn abs(self) -> (r: Result<RuntimeValue, Error>)
        ensures
            r == self.spec_abs(),
    {
        match self {
            RuntimeValue::F32(a) => Ok(RuntimeValue::F32(float32::abs(a))),
            RuntimeValue::F64(a) => Ok(RuntimeValue::F64(float64::abs(a))),
            _ => Err(Error::Value),
        }
    }

    pub open spec fn spec_neg(self) -> Result<RuntimeValue, Error> {
        match self {
            RuntimeValue::F32(a) => Ok(RuntimeValue::F32(float32::spec_neg(a))),
            RuntimeValue::F64(a) => Ok(RuntimeValue::F64(float64::spec_neg(a))),
            _ => Err(Error::Value),
        }
    }

    /// `neg`: flips the sign.
    pub fn neg(self) -> (r: Result<RuntimeValue, Error>)
        ensures
            r == self.spec_neg(),
    {
        match self {
            RuntimeValue::F32(a) => Ok(RuntimeValue::F32(float32::neg(a))),
            RuntimeValue::F64(a) => Ok(RuntimeValue::F64(float64::neg(a))),
            _ => Err(Error::Value),
        }
    }

    pub open spec fn spec_ceil(self) -> Result<RuntimeValue, Error> {
        match self {
            RuntimeValue::F32(a) => Ok(RuntimeValue::F32(float32::spec_ceil(a))),
            RuntimeValue::F64(a) => Ok(RuntimeValue::F64(float64::spec_ceil(a))),
            _ => Err(Error::Value),
        }
    }

    /// `ceil`: rounds up to an integer.
    pub fn ceil(self) -> (r: Result<RuntimeValue, Error>)
        ensures
            r == self.spec_ceil(),
    {
        match self {
            RuntimeValue::F32(a) => Ok(RuntimeValue::F32(float32::ceil(a))),
            RuntimeValue::F64(a) => Ok(RuntimeValue::F64(float64::ceil(a))),
            _ => Err(Error::Value),
        }
    }

    pub open spec fn spec_floor(self) -> Result<RuntimeValue, Error> {
        match self {
            RuntimeValue::F32(a) => Ok(RuntimeValue::F32(float32::spec_floor(a))),
            RuntimeValue::F64(a) => Ok(RuntimeValue::F64(float64::spec_floor(a))),
            _ => Err(Error::Value),
        }
    }

    /// `floor`: rounds down to an integer.
    pub fn floor(self) -> (r: Result<RuntimeValue, Error>)
        ensures
            r == self.spec_floor(),
    {
        match self {
            RuntimeValue::F32(a) => Ok(RuntimeValue::F32(float32::floor(a))),
            RuntimeValue::F64(a) => Ok(RuntimeValue::F64(float64::floor(a))),
            _ => Err(Error::Value),
        }
    }

    pub open spec fn spec_trunc(self) -> Result<RuntimeValue, Error> {
        match self {
            RuntimeValue::F32(a) => Ok(RuntimeValue::F32(float32::spec_trunc(a))),
            RuntimeValue::F64(a) => Ok(RuntimeValue::F64(float64::spec_trunc(a))),
            _ => Err(Error::Value),
        }
    }

    /// `trunc`: rounds toward zero to an integer.
    pub fn trunc(self) -> (r: Result<RuntimeValue, Error>)
        ensures
            r == self.spec_trunc(),
    {
        match self {
            RuntimeValue::F32(a) => Ok(RuntimeValue::F32(float32::trunc(a))),
            RuntimeValue::F64(a) => Ok(RuntimeValue::F64(float64::trunc(a))),
            _ => Err(Error::Value),
        }
    }

    pub open spec fn spec_nearest(self) -> Result<RuntimeValue, Error> {
        match self {
            RuntimeValue::F32(a) => Ok(RuntimeValue::F32(float32::spec_nearest(a))),
            RuntimeValue::F64(a) => Ok(RuntimeValue::F64(float64::spec_nearest(a))),
            _ => Err(Error::Value),
        }
    }

    /// `nearest`: rounds to the nearest integer, ties to even.
    pub fn nearest(self) -> (r: Result<RuntimeValue, Error>)
        ensures
            r == self.spec_nearest(),
    {
        match self {
            RuntimeValue::F32(a) => Ok(RuntimeValue::F32(float32::nearest(a))),
            RuntimeValue::F64(a) => Ok(RuntimeValue::F64(float64::nearest(a))),
            _ => Err(Error::Value),
        }
    }

    pub open spec fn spec_sqrt(self) -> Result<RuntimeValue, Error> {
        match self {
            RuntimeValue::F32(a) => Ok(RuntimeValue::F32(float32::spec_sqrt(a))),
            RuntimeValue::F64(a) => Ok(RuntimeValue::F64(float64::spec_sqrt(a))),
            _ => Err(Error::Value),
        }
    }

    /// `sqrt`: the square root; a NaN for a negative operand.
    pub fn sqrt(self) -> (r: Result<RuntimeValue, Error>)
        ensures
            r == self.spec_sqrt(),
    {
        match self {
            RuntimeValue::F32(a) => Ok(RuntimeValue::F32(float32::sqrt(a))),
            RuntimeValue::F64(a) => Ok(RuntimeValue::F64(float64::sqrt(a))),
            _ => Err(Error::Value),
        }
    }

    pub open spec fn spec_min(self, other: RuntimeValue) -> Result<RuntimeValue, Error> {
        match (self, other) {
            (RuntimeValue::F32(a), RuntimeValue::F32(b)) => Ok(RuntimeValue::F32(float32::spec_min(a, b))),
            (RuntimeValue::F64(a), RuntimeValue::F64(b)) => Ok(RuntimeValue::F64(float64::spec_min(a, b))),
            _ => Err(Error::Value),
        }
    }

    /// `min`: the smaller operand; a NaN if either is one.
    pub fn min(self, other: RuntimeValue) -> (r: Result<RuntimeValue, Error>)
        ensures
            r == self.spec_min(other),
    {
        match (self, other) {
            (RuntimeValue::F32(a), RuntimeValue::F32(b)) => Ok(RuntimeValue::F32(float32::min(a, b))),
            (RuntimeValue::F64(a), RuntimeValue::F64(b)) => Ok(RuntimeValue::F64(float64::min(a, b))),
            _ => Err(Error::Value),
        }
    }

    pub open spec fn spec_max(self, other: RuntimeValue) -> Result<RuntimeValue, Error> {
        match (self, other) {
            (RuntimeValue::F32(a), RuntimeValue::F32(b)) => Ok(RuntimeValue::F32(float32::spec_max(a, b))),
            (RuntimeValue::F64(a), RuntimeValue::F64(b)) => Ok(RuntimeValue::F64(float64::spec_max(a, b))),
            _ => Err(Error::Value),
        }
    }

    /// `max`: the larger operand; a NaN if either is one.
    pub fn max(self, other: RuntimeValue) -> (r: Result<RuntimeValue, Error>)
        ensures
            r == self.spec_max(other),
    {
        match (self, other) {
            (RuntimeValue::F32(a), RuntimeValue::F32(b)) => Ok(RuntimeValue::F32(float32::max(a, b))),
            (RuntimeValue::F64(a), RuntimeValue::F64(b)) => Ok(RuntimeValue::F64(float64::max(a, b))),
            _ => Err(Error::Value),
        }
    }

    pub open spec fn spec_copysign(self, other: RuntimeValue) -> Result<RuntimeValue, Error> {
        match (self, other) {
            (RuntimeValue::F32(a), RuntimeValue::F32(b)) => Ok(RuntimeValue::F32(float32::spec_copysign(a, b))),
            (RuntimeValue::F64(a), RuntimeValue::F64(b)) => Ok(RuntimeValue::F64(float64::spec_copysign(a, b))),
            _ => Err(Error::Value),
        }
    }

    /// `copysign`: the magnitude of the first operand under the sign of the second.
    pub fn copysign(self, other: RuntimeValue) -> (r: Result<RuntimeValue, Error>)
        ensures
            r == self.spec_copysign(other),
    {
        match (self, other) {
            (RuntimeValue::F32(a), RuntimeValue::F32(b)) => Ok(RuntimeValue::F32(float32::copysign(a, b))),
            (RuntimeValue::F64(a), RuntimeValue::F64(b)) => Ok(RuntimeValue::F64(float64::copysign(a, b))),
            _ => Err(Error::Value),
        }
    }

    pub open spec fn spec_eqz(self) -> Result<RuntimeValue, Error> {
        match self {
            RuntimeValue::I32(a) => Ok(spec_flag(a == 0)),
            RuntimeValue::I64(a) => Ok(spec_flag(a == 0)),
            _ => Err(Error::Value),
        }
    }

    /// `eqz`: 1 if the operand is zero, else 0.
    pub fn eqz(self) -> (r: Result<RuntimeValue, Error>)
        ensures
            r == self.spec_eqz(),
    {
        match self {
            RuntimeValue::I32(a) => Ok(flag(a == 0)),
            RuntimeValue::I64(a) => Ok(flag(a == 0)),
            _ => Err(Error::Value),
        }
    }

    pub open spec fn spec_eq(self, other: RuntimeValue) -> Result<RuntimeValue, Error> {
        match (self, other) {
            (RuntimeValue::I32(a), RuntimeValue::I32(b)) => Ok(spec_flag(a == b)),
            (RuntimeValue::I64(a), RuntimeValue::I64(b)) => Ok(spec_flag(a == b)),
            (RuntimeValue::F32(a), RuntimeValue::F32(b)) => Ok(spec_flag(float32::spec_eq(a, b))),
            (RuntimeValue::F64(a), RuntimeValue::F64(b)) => Ok(spec_flag(float64::spec_eq(a, b))),
            _ => Err(Error::Value),
        }
    }

    /// `eq`: 1 if the operands are equal, else 0. A NaN equals nothing.
    pub fn eq(self, other: RuntimeValue) -> (r: Result<RuntimeValue, Error>)
        ensures
            r == self.spec_eq(other),
    {
        match (self, other) {
            (RuntimeValue::I32(a), RuntimeValue::I32(b)) => Ok(flag(a == b)),
            (RuntimeValue::I64(a), RuntimeValue::I64(b)) => Ok(flag(a == b)),
            (RuntimeValue::F32(a), RuntimeValue::F32(b)) => Ok(flag(float32::eq(a, b))),
            (RuntimeValue::F64(a), RuntimeValue::F64(b)) => Ok(flag(float64::eq(a, b))),
            _ => Err(Error::Value),
        }
    }

    pub open spec fn spec_ne(self, other: RuntimeValue) -> Result<RuntimeValue, Error> {
        match (self, other) {
            (RuntimeValue::I32(a), RuntimeValue::I32(b)) => Ok(spec_flag(a != b)),
            (RuntimeValue::I64(a), RuntimeValue::I64(b)) => Ok(spec_flag(a != b)),
            (RuntimeValue::F32(a), RuntimeValue::F32(b)) => Ok(spec_flag(!float32::spec_eq(a, b))),
            (RuntimeValue::F64(a), RuntimeValue::F64(b)) => Ok(spec_flag(!float64::spec_eq(a, b))),
            _ => Err(Error::Value),
        }
    }

    /// `ne`: 1 if the operands differ, else 0. A NaN differs from everything.
    pub fn ne(self, other: RuntimeValue) -> (r: Result<RuntimeValue, Error>)
        ensures
            r == self.spec_ne(other),
    {
        match (self, other) {
            (RuntimeValue::I32(a), RuntimeValue::I32(b)) => Ok(flag(a != b)),
            (RuntimeValue::I64(a), RuntimeValue::I64(b)) => Ok(flag(a != b)),
            (RuntimeValue::F32(a), RuntimeValue::F32(b)) => Ok(flag(!float32::eq(a, b))),
            (RuntimeValue::F64(a), RuntimeValue::F64(b)) => Ok(flag(!float64::eq(a, b))),
            _ => Err(Error::Value),
        }
    }

    pub open spec fn spec_lt(self, other: RuntimeValue, signed: bool) -> Result<RuntimeValue, Error> {
        match (self, other) {
            (RuntimeValue::I32(a), RuntimeValue::I32(b)) => Ok(spec_flag(if signed { a < b } else { integer::unsigned32(a) < integer::unsigned32(b) })),
            (RuntimeValue::I64(a), RuntimeValue::I64(b)) => Ok(spec_flag(if signed { a < b } else { integer64::unsigned64(a) < integer64::unsigned64(b) })),
            (RuntimeValue::F32(a), RuntimeValue::F32(b)) => Ok(spec_flag(float32::spec_lt(a, b))),
            (RuntimeValue::F64(a), RuntimeValue::F64(b)) => Ok(spec_flag(float64::spec_lt(a, b))),
            _ => Err(Error::Value),
        }
    }

    /// `lt`: 1 if the first operand is less than the second, else 0; integers
    /// are compared as signed or as unsigned numbers. `signed` is not read for floats.
    pub fn lt(self, other: RuntimeValue, signed: bool) -> (r: Result<RuntimeValue, Error>)
        ensures
            r == self.spec_lt(other, signed),
    {
        match (self, other) {
            (RuntimeValue::I32(a), RuntimeValue::I32(b)) => Ok(flag(if signed { a < b } else { integer::to_u32(a) < integer::to_u32(b) })),
            (RuntimeValue::I64(a), RuntimeValue::I64(b)) => Ok(flag(if signed { a < b } else { integer64::to_u64(a) < integer64::to_u64(b) })),
            (RuntimeValue::F32(a), RuntimeValue::F32(b)) => Ok(flag(float32::lt(a, b))),
            (RuntimeValue::F64(a), RuntimeValue::F64(b)) => Ok(flag(float64::lt(a, b))),
            _ => Err(Error::Value),
        }
    }

    pub open spec fn spec_gt(self, other: RuntimeValue, signed: bool) -> Result<RuntimeValue, Error> {
        match (self, other) {
            (RuntimeValue::I32(a), RuntimeValue::I32(b)) => Ok(spec_flag(if signed { a > b } else { integer::unsigned32(a) > integer::unsigned32(b) })),
            (RuntimeValue::I64(a), RuntimeValue::I64(b)) => Ok(spec_flag(if signed { a > b } else { integer64::unsigned64(a) > integer64::unsigned64(b) })),
            (RuntimeValue::F32(a), RuntimeValue::F32(b)) => Ok(spec_flag(float32::spec_lt(b, a))),
            (RuntimeValue::F64(a), RuntimeValue::F64(b)) => Ok(spec_flag(float64::spec_lt(b, a))),
            _ => Err(Error::Value),
        }
    }

    /// `gt`: 1 if the first operand is greater than the second, else 0.
    pub fn gt(self, other: RuntimeValue, signed: bool) -> (r: Result<RuntimeValue, Error>)
        ensures
            r == self.spec_gt(other, signed),
    {
        match (self, other) {
            (RuntimeValue::I32(a), RuntimeValue::I32(b)) => Ok(flag(if signed { a > b } else { integer::to_u32(a) > integer::to_u32(b) })),
            (RuntimeValue::I64(a), RuntimeValue::I64(b)) => Ok(flag(if signed { a > b } else { integer64::to_u64(a) > integer64::to_u64(b) })),
            (RuntimeValue::F32(a), RuntimeValue::F32(b)) => Ok(flag(float32::lt(b, a))),
            (RuntimeValue::F64(a), RuntimeValue::F64(b)) => Ok(flag(float64::lt(b, a))),
            _ => Err(Error::Value),
        }
    }

    pub open spec fn spec_lte(self, other: RuntimeValue, signed: bool) -> Result<RuntimeValue, Error> {
        match (self, other) {
            (RuntimeValue::I32(a), RuntimeValue::I32(b)) => Ok(spec_flag(if signed { a <= b } else { integer::unsigned32(a) <= integer::unsigned32(b) })),
            (RuntimeValue::I64(a), RuntimeValue::I64(b)) => Ok(spec_flag(if signed { a <= b } else { integer64::unsigned64(a) <= integer64::unsigned64(b) })),
            (RuntimeValue::F32(a), RuntimeValue::F32(b)) => Ok(spec_flag(float32::spec_le(a, b))),
            (RuntimeValue::F64(a), RuntimeValue::F64(b)) => Ok(spec_flag(float64::spec_le(a, b))),
            _ => Err(Error::Value),
        }
    }

    /// `le`: 1 if the first operand is at most the second, else 0.
    pub fn lte(self, other: RuntimeValue, signed: bool) -> (r: Result<RuntimeValue, Error>)
        ensures
            r == self.spec_lte(other, signed),
    {
        match (self, other) {
            (RuntimeValue::I32(a), RuntimeValue::I32(b)) => Ok(flag(if signed { a <= b } else { integer::to_u32(a) <= integer::to_u32(b) })),
            (RuntimeValue::I64(a), RuntimeValue::I64(b)) => Ok(flag(if signed { a <= b } else { integer64::to_u64(a) <= integer64::to_u64(b) })),
            (RuntimeValue::F32(a), RuntimeValue::F32(b)) => Ok(flag(float32::le(a, b))),
            (RuntimeValue::F64(a), RuntimeValue::F64(b)) => Ok(flag(float64::le(a, b))),
            _ => Err(Error::Value),
        }
    }

    pub open spec fn spec_gte(self, other: RuntimeValue, signed: bool) -> Result<RuntimeValue, Error> {
        match (self, other) {
            (RuntimeValue::I32(a), RuntimeValue::I32(b)) => Ok(spec_flag(if signed { a >= b } else { integer::unsigned32(a) >= integer::unsigned32(b) })),
            (RuntimeValue::I64(a), RuntimeValue::I64(b)) => Ok(spec_flag(if signed { a >= b } else { integer64::unsigned64(a) >= integer64::unsigned64(b) })),
            (RuntimeValue::F32(a), RuntimeValue::F32(b)) => Ok(spec_flag(float32::spec_le(b, a))),
            (RuntimeValue::F64(a), RuntimeValue::F64(b)) => Ok(spec_flag(float64::spec_le(b, a))),
            _ => Err(Error::Value),
        }
    }

    /// `ge`: 1 if the first operand is at least the second, else 0.
    pub fn gte(self, other: RuntimeValue, signed: bool) -> (r: Result<RuntimeValue, Error>)
        ensures
            r == self.spec_gte(other, signed),
    {
        match (self, other) {
            (RuntimeValue::I32(a), RuntimeValue::I32(b)) => Ok(flag(if signed { a >= b } else { integer::to_u32(a) >= integer::to_u32(b) })),
            (RuntimeValue::I64(a), RuntimeValue::I64(b)) => Ok(flag(if signed { a >= b } else { integer64::to_u64(a) >= integer64::to_u64(b) })),
            (RuntimeValue::F32(a), RuntimeValue::F32(b)) => Ok(flag(float32::le(b, a))),
            (RuntimeValue::F64(a), RuntimeValue::F64(b)) => Ok(flag(float64::le(b, a))),
            _ => Err(Error::Value),
        }
    }

    pub open spec fn spec_wrap(self) -> Result<RuntimeValue, Error> {
        match self {
            RuntimeValue::I64(a) => Ok(RuntimeValue::I32(integer::wrap_i32(a as int))),
            _ => Err(Error::Value),
        }
    }

    /// `i32.wrap/i64`: the low 32 bits.
    pub fn wrap(self) -> (r: Result<RuntimeValue, Error>)
        ensures
            r == self.spec_wrap(),
    {
        match self {
            RuntimeValue::I64(a) => Ok(RuntimeValue::I32(integer64::wrap_to_i32(a))),
            _ => Err(Error::Value),
        }
    }

    pub open spec fn spec_extend(self, signed: bool) -> Result<RuntimeValue, Error> {
        match self {
            RuntimeValue::I32(a) => Ok(RuntimeValue::I64(if signed { a as i64 } else { integer::unsigned32(a) as i64 })),
            _ => Err(Error::Value),
        }
    }

    /// `i64.extend_s/i32` and `i64.extend_u/i32`: sign or zero extension.
    pub fn extend(self, signed: bool) -> (r: Result<RuntimeValue, Error>)
        ensures
            r == self.spec_extend(signed),
    {
        match self {
            RuntimeValue::I32(a) => Ok(RuntimeValue::I64(if signed { a as i64 } else { integer::to_u32(a) as i64 })),
            _ => Err(Error::Value),
        }
    }

    pub open spec fn spec_reinterpret(self) -> Result<RuntimeValue, Error> {
        match self {
            RuntimeValue::I32(a) => Ok(RuntimeValue::F32(integer::unsigned32(a) as u32)),
            RuntimeValue::I64(a) => Ok(RuntimeValue::F64(integer64::unsigned64(a) as u64)),
            RuntimeValue::F32(a) => Ok(RuntimeValue::I32(integer::wrap_i32(a as int))),
            RuntimeValue::F64(a) => Ok(RuntimeValue::I64(integer64::wrap_i64(a as int))),
        }
    }

    /// `reinterpret`: the same bit pattern under the other tag of the same width.
    pub fn reinterpret(self) -> (r: Result<RuntimeValue, Error>)
        ensures
            r == self.spec_reinterpret(),
    {
        match self {
            RuntimeValue::I32(a) => Ok(RuntimeValue::F32(integer::to_u32(a))),
            RuntimeValue::I64(a) => Ok(RuntimeValue::F64(integer64::to_u64(a))),
            RuntimeValue::F32(a) => Ok(RuntimeValue::I32(integer::from_u32(a))),
            RuntimeValue::F64(a) => Ok(RuntimeValue::I64(integer64::from_u64(a))),
        }
    }

    /// The least number of the integer type `target`, read as signed or
    /// as unsigned. `target` is `I32` or `I64`.
    pub open spec fn spec_integer_low(target: ValueType, signed: bool) -> int {
        if !signed {
            0
        } else if target == ValueType::I32 {
            -0x8000_0000
        } else {
            -0x8000_0000_0000_0000
        }
    }

    /// The greatest number of the integer type `target`, read as signed or
    /// as unsigned. `target` is `I32` or `I64`.
    pub open spec fn spec_integer_high(target: ValueType, signed: bool) -> int {
        if target == ValueType::I32 {
            if signed {
                0x7fff_ffff
            } else {
                0xffff_ffff
            }
        } else {
            if signed {
                0x7fff_ffff_ffff_ffff
            } else {
                0xffff_ffff_ffff_ffff
            }
        }
    }

    /// The integer of type `target` that stands for the number `x`.
    pub open spec fn spec_integer_of(target: ValueType, x: int) -> Result<RuntimeValue, Error> {
        match target {
            ValueType::I32 => Ok(RuntimeValue::I32(integer::wrap_i32(x))),
            ValueType::I64 => Ok(RuntimeValue::I64(integer64::wrap_i64(x))),
            _ => Err(Error::Value),
        }
    }

    fn integer_of(target: ValueType, x: i128) -> (r: Result<RuntimeValue, Error>)
        requires
            -0x8000_0000_0000_0000 <= x <= 0xffff_ffff_ffff_ffff,
            target == ValueType::I32 ==> -0x8000_0000 <= x <= 0xffff_ffff,
        ensures
            r == Self::spec_integer_of(target, x as int),
    {
        match target {
            ValueType::I32 => if x < 0 {
                Ok(RuntimeValue::I32(x as i32))
            } else {
                Ok(RuntimeValue::I32(integer::from_u32(x as u32)))
            },
            ValueType::I64 => if x < 0 {
                Ok(RuntimeValue::I64(x as i64))
            } else {
                Ok(RuntimeValue::I64(integer64::from_u64(x as u64)))
            },
            _ => Err(Error::Value),
        }
    }

    pub open spec fn spec_trunc_to_int(self, target: ValueType, signed: bool) -> Result<RuntimeValue, Error> {
        let low = Self::spec_integer_low(target, signed);
        let high = Self::spec_integer_high(target, signed);
        if target != ValueType::I32 && target != ValueType::I64 {
            Err(Error::Value)
        } else {
            match self {
                RuntimeValue::F32(a) => match float32::spec_truncate_within(a, low, high) {
                    Some(x) => Self::spec_integer_of(target, x),
                    None => Err(Error::Trap),
                },
                RuntimeValue::F64(a) => match float64::spec_truncate_within(a, low, high) {
                    Some(x) => Self::spec_integer_of(target, x),
                    None => Err(Error::Trap),
                },
                _ => Err(Error::Value),
            }
        }
    }

    /// The truncations `trunc_s` and `trunc_u` of a float to the integer
    /// type `target`: the float rounded toward zero. Traps on a NaN, on an
    /// infinity, and where the rounded float is no number of the type, read
    /// as signed or as unsigned.
    pub fn trunc_to_int(self, target: ValueType, signed: bool) -> (r: Result<RuntimeValue, Error>)
        ensures
            r == self.spec_trunc_to_int(target, signed),
    {
        let (low, high): (i128, i128) = match target {
            ValueType::I32 => if signed {
                (-0x8000_0000, 0x7fff_ffff)
            } else {
                (0, 0xffff_ffff)
            },
            ValueType::I64 => if signed {
                (-0x8000_0000_0000_0000, 0x7fff_ffff_ffff_ffff)
            } else {
                (0, 0xffff_ffff_ffff_ffff)
            },
            _ => {
                return Err(Error::Value);
            },
        };
        let truncated = match self {
            RuntimeValue::F32(a) => float32::truncate_within(a, low, high),
            RuntimeValue::F64(a) => float64::truncate_within(a, low, high),
            _ => {
                return Err(Error::Value);
            },
        };
        match truncated {
            Some(x) => Self::integer_of(target, x),
            None => Err(Error::Trap),
        }
    }

    /// Whether the integer is below zero when read as signed, and never
    /// when read as unsigned. False for a float.
    pub open spec fn spec_is_negative_integer(self, signed: bool) -> bool {
        match self {
            RuntimeValue::I32(a) => signed && a < 0,
            RuntimeValue::I64(a) => signed && a < 0,
            _ => false,
        }
    }

    /// The magnitude of the integer, read as signed or as unsigned. Zero
    /// for a float.
    pub open spec fn spec_integer_magnitude(self, signed: bool) -> nat {
        match self {
            RuntimeValue::I32(a) => if signed {
                integer::magnitude(a as int) as nat
            } else {
                integer::unsigned32(a) as nat
            },
            RuntimeValue::I64(a) => if signed {
                integer::magnitude(a as int) as nat
            } else {
                integer64::unsigned64(a) as nat
            },
            _ => 0,
        }
    }

    fn integer_magnitude(self, signed: bool) -> (r: u64)
        ensures
            r == self.spec_integer_magnitude(signed),
    {
        match self {
            RuntimeValue::I32(a) => if signed {
                if a < 0 {
                    (-(a as i64)) as u64
                } else {
                    a as u64
                }
            } else {
                integer::to_u32(a) as u64
            },
            RuntimeValue::I64(a) => if signed {
                if a < 0 {
                    (-(a as i128)) as u64
                } else {
                    a as u64
                }
            } else {
                integer64::to_u64(a)
            },
            _ => 0,
        }
    }

    fn is_negative_integer(self, signed: bool) -> (r: bool)
        ensures
            r == self.spec_is_negative_integer(signed),
    {
        match self {
            RuntimeValue::I32(a) => signed && a < 0,
            RuntimeValue::I64(a) => signed && a < 0,
            _ => false,
        }
    }

    pub open spec fn spec_convert(self, target: ValueType, signed: bool) -> Result<RuntimeValue, Error> {
        if !(self is I32 || self is I64) {
            Err(Error::Value)
        } else {
            match target {
                ValueType::F32 => Ok(
                    RuntimeValue::F32(
                        float32::spec_from_integer(
                            self.spec_is_negative_integer(signed),
                            self.spec_integer_magnitude(signed),
                        ),
                    ),
                ),
                ValueType::F64 => Ok(
                    RuntimeValue::F64(
                        float64::spec_from_integer(
                            self.spec_is_negative_integer(signed),
                            self.spec_integer_magnitude(signed),
                        ),
                    ),
                ),
                _ => Err(Error::Value),
            }
        }
    }

    /// The conversions `convert_s` and `convert_u` of an integer, read as
    /// signed or as unsigned, to the float type `target`: the float nearest
    /// to the integer, a tie going to the float with an even fraction.
    pub fn convert(self, target: ValueType, signed: bool) -> (r: Result<RuntimeValue, Error>)
        ensures
            r == self.spec_convert(target, signed),
    {
        match self {
            RuntimeValue::I32(_) => {},
            RuntimeValue::I64(_) => {},
            _ => {
                return Err(Error::Value);
            },
        }
        let negative = self.is_negative_integer(signed);
        let magnitude = self.integer_magnitude(signed);
        match target {
            ValueType::F32 => Ok(RuntimeValue::F32(float32::from_integer(negative, magnitude))),
            ValueType::F64 => Ok(RuntimeValue::F64(float64::from_integer(negative, magnitude))),
            _ => Err(Error::Value),
        }
    }

    pub open spec fn spec_demote(self) -> Result<RuntimeValue, Error> {
        match self {
            RuntimeValue::F64(a) => Ok(RuntimeValue::F32(float32::spec_from_other(a))),
            _ => Err(Error::Value),
        }
    }

    /// `f32.demote/f64`: the `F32` nearest to an `F64`.
    pub fn demote(self) -> (r: Result<RuntimeValue, Error>)
        ensures
            r == self.spec_demote(),
    {
        match self {
            RuntimeValue::F64(a) => Ok(RuntimeValue::F32(float32::from_other(a))),
            _ => Err(Error::Value),
        }
    }

    pub open spec fn spec_promote(self) -> Result<RuntimeValue, Error> {
        match self {
            RuntimeValue::F32(a) => Ok(RuntimeValue::F64(float64::spec_from_other(a))),
            _ => Err(Error::Value),
        }
    }

    /// `f64.promote/f32`: the `F64` equal to an `F32`.
    pub fn promote(self) -> (r: Result<RuntimeValue, Error>)
        ensures
            r == self.spec_promote(),
    {
        match self {
            RuntimeValue::F32(a) => Ok(RuntimeValue::F64(float64::from_other(a))),
            _ => Err(Error::Value),
        }
    }

    pub open spec fn spec_wrap_into(self, target: ValueType, signed: bool) -> Result<RuntimeValue, Error> {
        match (self, target) {
            (RuntimeValue::I64(_), ValueType::I32) => self.spec_wrap(),
            (RuntimeValue::I64(_), ValueType::F32) => self.spec_convert(target, signed),
            (RuntimeValue::F64(_), ValueType::F32) => self.spec_demote(),
            _ => Err(Error::Value),
        }
    }

    /// The conversions to a narrower type: `i32.wrap/i64`, `f32.demote/f64`
    /// and `f32.convert_s/i64`, `f32.convert_u/i64`. `signed` is read by the
    /// last two only.
    pub fn wrap_into(self, target: ValueType, signed: bool) -> (r: Result<RuntimeValue, Error>)
        ensures
            r == self.spec_wrap_into(target, signed),
    {
        match (self, target) {
            (RuntimeValue::I64(_), ValueType::I32) => self.wrap(),
            (RuntimeValue::I64(_), ValueType::F32) => self.convert(target, signed),
            (RuntimeValue::F64(_), ValueType::F32) => self.demote(),
            _ => Err(Error::Value),
        }
    }

    pub open spec fn spec_extend_into(self, target: ValueType, signed: bool) -> Result<RuntimeValue, Error> {
        match (self, target) {
            (RuntimeValue::I32(_), ValueType::I64) => self.spec_extend(signed),
            (RuntimeValue::I32(_), ValueType::F32) => self.spec_convert(target, signed),
            (RuntimeValue::I32(_), ValueType::F64) => self.spec_convert(target, signed),
            (RuntimeValue::I64(_), ValueType::F64) => self.spec_convert(target, signed),
            (RuntimeValue::F32(_), ValueType::F64) => self.spec_promote(),
            _ => Err(Error::Value),
        }
    }

    /// The conversions to a type that is no narrower: `i64.extend_s/i32`,
    /// `i64.extend_u/i32`, `f64.promote/f32`, and the conversions of an
    /// `I32` to a float and of an `I64` to an `F64`. `signed` is not read by
    /// the promotion.
    pub fn extend_into(self, target: ValueType, signed: bool) -> (r: Result<RuntimeValue, Error>)
        ensures
            r == self.spec_extend_into(target, signed),
    {
        match (self, target) {
            (RuntimeValue::I32(_), ValueType::I64) => self.extend(signed),
            (RuntimeValue::I32(_), ValueType::F32) => self.convert(target, signed),
            (RuntimeValue::I32(_), ValueType::F64) => self.convert(target, signed),
            (RuntimeValue::I64(_), ValueType::F64) => self.convert(target, signed),
            (RuntimeValue::F32(_), ValueType::F64) => self.promote(),
            _ => Err(Error::Value),
        }
    }

}

/// Reinterpreting a value, and the result again, gives the value back.
pub proof fn lemma_reinterpret_round_trip(v: RuntimeValue)
    ensures
        v.spec_reinterpret() is Ok,
        v.spec_reinterpret()->Ok_0.spec_reinterpret() == Ok::<RuntimeValue, Error>(v),
{
}

/// Reinterpreting keeps the bit pattern and changes the tag to the other
/// one of the same width.
pub proof fn lemma_reinterpret_keeps_bits(v: RuntimeValue)
    ensures
        v.spec_reinterpret() is Ok,
        v.spec_reinterpret()->Ok_0.spec_bits() == v.spec_bits(),
        RuntimeValue::spec_width(v.spec_reinterpret()->Ok_0.spec_value_type())
            == RuntimeValue::spec_width(v.spec_value_type()),
        v.spec_reinterpret()->Ok_0.spec_value_type() != v.spec_value_type(),
{
}

/// Extending an `I32` to an `I64`, by sign or by zeros, and wrapping the
/// result gives the `I32` back.
pub proof fn lemma_wrap_extend(x: i32, signed: bool)
    ensures
        RuntimeValue::I32(x).spec_extend(signed) is Ok,
        RuntimeValue::I32(x).spec_extend(signed)->Ok_0.spec_wrap() == Ok::<RuntimeValue, Error>(
            RuntimeValue::I32(x),
        ),
{
}

} // verus!
