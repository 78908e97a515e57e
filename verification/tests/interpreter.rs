use wasm_interpreter::builder::invoke::{Identity, Invoke};
use wasm_interpreter::builder::memory::{MemoryBuilder, MemoryDefinition};
use wasm_interpreter::elements::{
    BlockType, FunctionType, GlobalDefinition, Module, Opcode, Opcodes, ValueType,
};
use wasm_interpreter::interpreter::error::Error;
use wasm_interpreter::interpreter::module::ModuleInstance;
use wasm_interpreter::interpreter::runner::{
    effective_address, from_little_endian_bytes, to_little_endian_bytes, BlockFrame,
    FunctionContext, InstructionOutcome, Interpreter, DEFAULT_BUDGET,
};
use wasm_interpreter::interpreter::value::RuntimeValue;

fn run(
    params: Vec<ValueType>,
    result: Option<ValueType>,
    body: Vec<Opcode>,
    args: &[RuntimeValue],
) -> Result<Option<RuntimeValue>, Error> {
    let function_type = FunctionType::new(params, result);
    Interpreter::run_function(&function_type, &body, args)
}

/// Runs a body without parameters that leaves one value.
fn eval(result: ValueType, body: Vec<Opcode>) -> Result<RuntimeValue, Error> {
    let mut body = body;
    body.push(Opcode::End);
    run(vec![], Some(result), body, &[]).map(|v| v.unwrap())
}

fn i32_binary(op: Opcode, a: i32, b: i32) -> Result<RuntimeValue, Error> {
    eval(ValueType::I32, vec![Opcode::I32Const(a), Opcode::I32Const(b), op])
}

fn i64_binary(op: Opcode, a: i64, b: i64) -> Result<RuntimeValue, Error> {
    eval(ValueType::I64, vec![Opcode::I64Const(a), Opcode::I64Const(b), op])
}

fn module_with_memory(min: u32, max: Option<u32>) -> ModuleInstance {
    let definition = MemoryBuilder::new().with_min(min).with_max(max).build();
    ModuleInstance::new(&Module { memory: Some(definition), globals: vec![] }).unwrap()
}

fn run_in(
    module: &mut ModuleInstance,
    result: Option<ValueType>,
    body: Vec<Opcode>,
) -> Result<Option<RuntimeValue>, Error> {
    let mut body = body;
    body.push(Opcode::End);
    let function_type = FunctionType::new(vec![], result);
    Interpreter::run_function_in(module, &function_type, &[], &body, &[], DEFAULT_BUDGET)
}

#[test]
fn div_s_traps_on_overflow_and_on_zero() {
    assert_eq!(i32_binary(Opcode::I32DivS, i32::MIN, -1), Err(Error::Trap));
    assert_eq!(i32_binary(Opcode::I32DivS, 1, 0), Err(Error::Trap));
    assert_eq!(i64_binary(Opcode::I64DivS, i64::MIN, -1), Err(Error::Trap));
    assert_eq!(i32_binary(Opcode::I32DivS, -7, 2), Ok(RuntimeValue::I32(-3)));
    assert_eq!(i32_binary(Opcode::I32DivS, 7, -2), Ok(RuntimeValue::I32(-3)));
    assert_eq!(i32_binary(Opcode::I32DivS, i32::MIN, 1), Ok(RuntimeValue::I32(i32::MIN)));
    assert_eq!(i64_binary(Opcode::I64DivS, -9, -2), Ok(RuntimeValue::I64(4)));
}

#[test]
fn div_u_traps_on_zero_and_rem_s_does_not_trap_on_overflow() {
    assert_eq!(i32_binary(Opcode::I32DivU, 1, 0), Err(Error::Trap));
    assert_eq!(i32_binary(Opcode::I32RemS, i32::MIN, -1), Ok(RuntimeValue::I32(0)));
    assert_eq!(i32_binary(Opcode::I32RemS, 1, 0), Err(Error::Trap));
    assert_eq!(i32_binary(Opcode::I32RemU, 1, 0), Err(Error::Trap));
    assert_eq!(i32_binary(Opcode::I32DivU, -1, 2), Ok(RuntimeValue::I32(0x7fff_ffff)));
    assert_eq!(i32_binary(Opcode::I32RemS, -7, 2), Ok(RuntimeValue::I32(-1)));
    assert_eq!(i32_binary(Opcode::I32RemS, 7, -2), Ok(RuntimeValue::I32(1)));
    assert_eq!(i32_binary(Opcode::I32RemU, -1, 10), Ok(RuntimeValue::I32(5)));
    assert_eq!(i64_binary(Opcode::I64RemS, i64::MIN, -1), Ok(RuntimeValue::I64(0)));
    assert_eq!(i64_binary(Opcode::I64DivU, -1, 2), Ok(RuntimeValue::I64(i64::MAX)));
}

#[test]
fn trunc_s_f32_traps_at_the_boundary() {
    let trunc = |bits: u32| {
        eval(ValueType::I32, vec![Opcode::F32Const(bits), Opcode::I32TruncSF32])
    };
    assert_eq!(trunc(f32::NAN.to_bits()), Err(Error::Trap));
    assert_eq!(trunc(2147483648.0f32.to_bits()), Err(Error::Trap));
    assert_eq!(trunc(2147483520.0f32.to_bits()), Ok(RuntimeValue::I32(2147483520)));
    assert_eq!(trunc((-2147483648.0f32).to_bits()), Ok(RuntimeValue::I32(i32::MIN)));
    assert_eq!(trunc(f32::INFINITY.to_bits()), Err(Error::Trap));
    assert_eq!(trunc((-1.9f32).to_bits()), Ok(RuntimeValue::I32(-1)));
}

#[test]
fn truncations_to_unsigned_and_to_i64() {
    let body = |bits: u64, op: Opcode| eval(ValueType::I32, vec![Opcode::F64Const(bits), op]);
    assert_eq!(body(4294967295.0f64.to_bits(), Opcode::I32TruncUF64), Ok(RuntimeValue::I32(-1)));
    assert_eq!(body(4294967296.0f64.to_bits(), Opcode::I32TruncUF64), Err(Error::Trap));
    assert_eq!(body((-0.9f64).to_bits(), Opcode::I32TruncUF64), Ok(RuntimeValue::I32(0)));
    assert_eq!(body((-1.0f64).to_bits(), Opcode::I32TruncUF64), Err(Error::Trap));
    let wide = |bits: u64, op: Opcode| eval(ValueType::I64, vec![Opcode::F64Const(bits), op]);
    assert_eq!(
        wide(9223372036854775808.0f64.to_bits(), Opcode::I64TruncSF64),
        Err(Error::Trap)
    );
    assert_eq!(
        wide(9223372036854775808.0f64.to_bits(), Opcode::I64TruncUF64),
        Ok(RuntimeValue::I64(i64::MIN))
    );
    assert_eq!(wide((-3.99f64).to_bits(), Opcode::I64TruncSF64), Ok(RuntimeValue::I64(-3)));
}

#[test]
fn integer_arithmetic_wraps() {
    assert_eq!(i32_binary(Opcode::I32Add, i32::MAX, 1), Ok(RuntimeValue::I32(i32::MIN)));
    assert_eq!(i32_binary(Opcode::I32Sub, i32::MIN, 1), Ok(RuntimeValue::I32(i32::MAX)));
    assert_eq!(i32_binary(Opcode::I32Mul, 0x10000, 0x10000), Ok(RuntimeValue::I32(0)));
    assert_eq!(i32_binary(Opcode::I32Mul, -3, 7), Ok(RuntimeValue::I32(-21)));
    assert_eq!(i64_binary(Opcode::I64Add, i64::MAX, 1), Ok(RuntimeValue::I64(i64::MIN)));
    assert_eq!(
        i64_binary(Opcode::I64Mul, 0x1_0000_0001, 0x1_0000_0001),
        Ok(RuntimeValue::I64(0x2_0000_0001))
    );
}

#[test]
fn shifts_and_rotations_take_the_distance_modulo_the_width() {
    assert_eq!(i32_binary(Opcode::I32Shl, 1, 33), Ok(RuntimeValue::I32(2)));
    assert_eq!(i32_binary(Opcode::I32Shl, 1, 31), Ok(RuntimeValue::I32(i32::MIN)));
    assert_eq!(i32_binary(Opcode::I32ShrS, -8, 1), Ok(RuntimeValue::I32(-4)));
    assert_eq!(i32_binary(Opcode::I32ShrU, -8, 1), Ok(RuntimeValue::I32(0x7fff_fffc)));
    assert_eq!(i32_binary(Opcode::I32ShrU, -8, 32), Ok(RuntimeValue::I32(-8)));
    assert_eq!(i32_binary(Opcode::I32Rotl, 0x4000_0001u32 as i32, 2), Ok(RuntimeValue::I32(5)));
    assert_eq!(i32_binary(Opcode::I32Rotr, 5, 2), Ok(RuntimeValue::I32(0x4000_0001)));
    assert_eq!(i32_binary(Opcode::I32Rotl, 7, 32), Ok(RuntimeValue::I32(7)));
    assert_eq!(i64_binary(Opcode::I64Shl, 1, 65), Ok(RuntimeValue::I64(2)));
    assert_eq!(i64_binary(Opcode::I64Rotr, 1, 1), Ok(RuntimeValue::I64(i64::MIN)));
    assert_eq!(i64_binary(Opcode::I64ShrU, -1, 63), Ok(RuntimeValue::I64(1)));
    for (a, b) in [(0x1234_5678u32, 5u32), (0xdead_beef, 31), (1, 0), (0x8000_0000, 63)] {
        assert_eq!(
            i32_binary(Opcode::I32Rotl, a as i32, b as i32),
            Ok(RuntimeValue::I32(a.rotate_left(b) as i32))
        );
        assert_eq!(
            i32_binary(Opcode::I32Rotr, a as i32, b as i32),
            Ok(RuntimeValue::I32(a.rotate_right(b) as i32))
        );
    }
}

#[test]
fn bit_counting() {
    let unary = |op: Opcode, a: i32| eval(ValueType::I32, vec![Opcode::I32Const(a), op]);
    assert_eq!(unary(Opcode::I32Clz, 0), Ok(RuntimeValue::I32(32)));
    assert_eq!(unary(Opcode::I32Ctz, 0), Ok(RuntimeValue::I32(32)));
    assert_eq!(unary(Opcode::I32Clz, 1), Ok(RuntimeValue::I32(31)));
    assert_eq!(unary(Opcode::I32Clz, -1), Ok(RuntimeValue::I32(0)));
    assert_eq!(unary(Opcode::I32Ctz, 8), Ok(RuntimeValue::I32(3)));
    assert_eq!(unary(Opcode::I32Popcnt, -1), Ok(RuntimeValue::I32(32)));
    assert_eq!(unary(Opcode::I32Popcnt, 0x0101), Ok(RuntimeValue::I32(2)));
    let wide = |op: Opcode, a: i64| eval(ValueType::I64, vec![Opcode::I64Const(a), op]);
    assert_eq!(wide(Opcode::I64Clz, 0), Ok(RuntimeValue::I64(64)));
    assert_eq!(wide(Opcode::I64Ctz, 0), Ok(RuntimeValue::I64(64)));
    assert_eq!(wide(Opcode::I64Popcnt, -1), Ok(RuntimeValue::I64(64)));
    assert_eq!(wide(Opcode::I64Ctz, 1 << 40), Ok(RuntimeValue::I64(40)));
}

#[test]
fn comparisons_tell_signed_from_unsigned() {
    assert_eq!(i32_binary(Opcode::I32LtS, -1, 1), Ok(RuntimeValue::I32(1)));
    assert_eq!(i32_binary(Opcode::I32LtU, -1, 1), Ok(RuntimeValue::I32(0)));
    assert_eq!(i32_binary(Opcode::I32GtU, -1, 1), Ok(RuntimeValue::I32(1)));
    assert_eq!(i32_binary(Opcode::I32GeS, 1, 1), Ok(RuntimeValue::I32(1)));
    assert_eq!(i32_binary(Opcode::I32LeU, 2, 1), Ok(RuntimeValue::I32(0)));
    assert_eq!(i32_binary(Opcode::I32Eq, 2, 2), Ok(RuntimeValue::I32(1)));
    assert_eq!(i32_binary(Opcode::I32Ne, 2, 2), Ok(RuntimeValue::I32(0)));
    let cmp = |op: Opcode, a: i64, b: i64| {
        eval(ValueType::I32, vec![Opcode::I64Const(a), Opcode::I64Const(b), op])
    };
    assert_eq!(cmp(Opcode::I64LtU, -1, 1), Ok(RuntimeValue::I32(0)));
    assert_eq!(cmp(Opcode::I64GtS, -1, 1), Ok(RuntimeValue::I32(0)));
    assert_eq!(
        eval(ValueType::I32, vec![Opcode::I64Const(0), Opcode::I64Eqz]),
        Ok(RuntimeValue::I32(1))
    );
    assert_eq!(
        eval(ValueType::I32, vec![Opcode::I32Const(5), Opcode::I32Eqz]),
        Ok(RuntimeValue::I32(0))
    );
}

#[test]
fn float_comparisons_with_nan() {
    let cmp = |op: Opcode, a: f32, b: f32| {
        eval(
            ValueType::I32,
            vec![Opcode::F32Const(a.to_bits()), Opcode::F32Const(b.to_bits()), op],
        )
    };
    assert_eq!(cmp(Opcode::F32Eq, f32::NAN, f32::NAN), Ok(RuntimeValue::I32(0)));
    assert_eq!(cmp(Opcode::F32Ne, f32::NAN, 1.0), Ok(RuntimeValue::I32(1)));
    assert_eq!(cmp(Opcode::F32Lt, f32::NAN, 1.0), Ok(RuntimeValue::I32(0)));
    assert_eq!(cmp(Opcode::F32Ge, 1.0, f32::NAN), Ok(RuntimeValue::I32(0)));
    assert_eq!(cmp(Opcode::F32Lt, -1.0, 1.0), Ok(RuntimeValue::I32(1)));
    assert_eq!(cmp(Opcode::F32Gt, -1.0, 1.0), Ok(RuntimeValue::I32(0)));
    assert_eq!(cmp(Opcode::F32Le, 0.0, -0.0), Ok(RuntimeValue::I32(1)));
    assert_eq!(cmp(Opcode::F32Eq, 0.0, -0.0), Ok(RuntimeValue::I32(1)));
}

#[test]
fn float_arithmetic_through_the_interpreter() {
    let f64_binary = |op: Opcode, a: f64, b: f64| {
        eval(
            ValueType::F64,
            vec![Opcode::F64Const(a.to_bits()), Opcode::F64Const(b.to_bits()), op],
        )
    };
    assert_eq!(
        f64_binary(Opcode::F64Add, 0.1, 0.2),
        Ok(RuntimeValue::F64((0.1f64 + 0.2).to_bits()))
    );
    assert_eq!(
        f64_binary(Opcode::F64Sub, 1.0, 1e-20),
        Ok(RuntimeValue::F64((1.0f64 - 1e-20).to_bits()))
    );
    assert_eq!(
        f64_binary(Opcode::F64Mul, 1.5, -2.0),
        Ok(RuntimeValue::F64((-3.0f64).to_bits()))
    );
    assert_eq!(
        f64_binary(Opcode::F64Div, 1.0, 3.0),
        Ok(RuntimeValue::F64((1.0f64 / 3.0).to_bits()))
    );
    assert_eq!(
        f64_binary(Opcode::F64Copysign, 2.0, -0.0),
        Ok(RuntimeValue::F64((-2.0f64).to_bits()))
    );
    assert_eq!(
        eval(ValueType::F32, vec![Opcode::F32Const(2.0f32.to_bits()), Opcode::F32Sqrt]),
        Ok(RuntimeValue::F32(2.0f32.sqrt().to_bits()))
    );
    assert_eq!(
        eval(ValueType::F32, vec![Opcode::F32Const(2.5f32.to_bits()), Opcode::F32Nearest]),
        Ok(RuntimeValue::F32(2.0f32.to_bits()))
    );
}

#[test]
fn conversions_through_the_interpreter() {
    assert_eq!(
        eval(ValueType::I32, vec![Opcode::I64Const(0x1_2345_6789), Opcode::I32WarpI64]),
        Ok(RuntimeValue::I32(0x2345_6789))
    );
    assert_eq!(
        eval(ValueType::I64, vec![Opcode::I32Const(-1), Opcode::I64ExtendSI32]),
        Ok(RuntimeValue::I64(-1))
    );
    assert_eq!(
        eval(ValueType::I64, vec![Opcode::I32Const(-1), Opcode::I64ExtendUI32]),
        Ok(RuntimeValue::I64(0xffff_ffff))
    );
    assert_eq!(
        eval(ValueType::F32, vec![Opcode::I32Const(-1), Opcode::F32ConvertSI32]),
        Ok(RuntimeValue::F32((-1.0f32).to_bits()))
    );
    assert_eq!(
        eval(ValueType::F32, vec![Opcode::I32Const(-1), Opcode::F32ConvertUI32]),
        Ok(RuntimeValue::F32((4294967295u32 as f32).to_bits()))
    );
    assert_eq!(
        eval(ValueType::F64, vec![Opcode::I64Const(-1), Opcode::F64ConvertUI64]),
        Ok(RuntimeValue::F64((u64::MAX as f64).to_bits()))
    );
    assert_eq!(
        eval(ValueType::F32, vec![Opcode::I64Const(i64::MIN), Opcode::F32ConvertSI64]),
        Ok(RuntimeValue::F32((i64::MIN as f32).to_bits()))
    );
    assert_eq!(
        eval(ValueType::F32, vec![Opcode::F64Const(0.1f64.to_bits()), Opcode::F32DemoteF64]),
        Ok(RuntimeValue::F32(0.1f32.to_bits()))
    );
    assert_eq!(
        eval(ValueType::F64, vec![Opcode::F32Const(0.1f32.to_bits()), Opcode::F64PromoteF32]),
        Ok(RuntimeValue::F64((0.1f32 as f64).to_bits()))
    );
}

#[test]
fn reinterpret_round_trip() {
    for bits in [0u32, 1, 0x7fc0_0001, 0xffff_ffff, 0x8000_0000, 0x3f80_0000] {
        let as_int = RuntimeValue::F32(bits).reinterpret().unwrap();
        assert_eq!(as_int, RuntimeValue::I32(bits as i32));
        assert_eq!(as_int.bits(), bits as u64);
        assert_eq!(as_int.reinterpret().unwrap(), RuntimeValue::F32(bits));
    }
    for bits in [0u64, 0x7ff8_0000_0000_0001, u64::MAX, 1 << 63] {
        let as_int = RuntimeValue::F64(bits).reinterpret().unwrap();
        assert_eq!(as_int, RuntimeValue::I64(bits as i64));
        assert_eq!(as_int.reinterpret().unwrap(), RuntimeValue::F64(bits));
    }
    assert_eq!(
        eval(
            ValueType::I32,
            vec![
                Opcode::I32Const(-5),
                Opcode::F32ReinterpretI32,
                Opcode::I32ReinterpretF32
            ]
        ),
        Ok(RuntimeValue::I32(-5))
    );
}

#[test]
fn wrap_after_extend_is_the_identity() {
    for x in [0, 1, -1, i32::MIN, i32::MAX, 0x1234_5678] {
        for signed in [true, false] {
            let wide = RuntimeValue::I32(x).extend(signed).unwrap();
            assert_eq!(wide.wrap().unwrap(), RuntimeValue::I32(x));
        }
    }
    assert_eq!(RuntimeValue::I32(-1).extend(false).unwrap(), RuntimeValue::I64(0xffff_ffff));
    assert_eq!(RuntimeValue::I32(-1).extend(true).unwrap(), RuntimeValue::I64(-1));
}

#[test]
fn call_leaves_both_stacks_empty() {
    let function_type = FunctionType::new(vec![ValueType::I32], Some(ValueType::I32));
    let bodies = vec![
        vec![Opcode::I32Const(1), Opcode::I32Const(2), Opcode::I32Const(3), Opcode::End],
        vec![
            Opcode::I32Const(1),
            Opcode::GetLocal(0),
            Opcode::If(
                BlockType::Value(ValueType::I32),
                Opcodes::new(vec![
                    Opcode::I32Const(4),
                    Opcode::I32Const(5),
                    Opcode::Return,
                    Opcode::End,
                ]),
            ),
            Opcode::End,
        ],
    ];
    for body in bodies {
        for arg in [0, 1] {
            let mut context = FunctionContext::new(
        ModuleInstance::empty(),
        &function_type,
        &[],
        &body,
                &[RuntimeValue::I32(arg)],
                1000,
            )
            .unwrap();
            let result =
                Interpreter::run_context(&mut context, BlockType::Value(ValueType::I32), &body);
            assert!(matches!(result, Ok(Some(RuntimeValue::I32(_)))));
            assert_eq!(context.pop_value(), Err(Error::ValueStack));
            assert_eq!(context.pop_frame(), Err(Error::FrameStack));
        }
    }
}

#[test]
fn pop_frame_brings_the_stack_to_the_value_limit() {
    let function_type = FunctionType::new(vec![], None);
    let body = vec![Opcode::End];
    let mut context =
        FunctionContext::new(
        ModuleInstance::empty(),
        &function_type,
        &[],
        &body, &[], 10).unwrap();
    context.push_value(RuntimeValue::I32(1)).unwrap();
    context.push_frame(7, BlockType::Value(ValueType::I64)).unwrap();
    context.push_value(RuntimeValue::I32(2)).unwrap();
    context.push_value(RuntimeValue::I32(3)).unwrap();
    context.push_value(RuntimeValue::I64(4)).unwrap();
    assert_eq!(context.pop_frame(), Ok(()));
    // the result on top, then what was there when the block was entered
    assert_eq!(context.pop_value(), Ok(RuntimeValue::I64(4)));
    assert_eq!(context.pop_value(), Ok(RuntimeValue::I32(1)));
    assert_eq!(context.pop_value(), Err(Error::ValueStack));

    context.push_value(RuntimeValue::I32(1)).unwrap();
    context.push_frame(7, BlockType::NoResult).unwrap();
    context.push_value(RuntimeValue::I32(2)).unwrap();
    assert_eq!(context.pop_frame(), Ok(()));
    assert_eq!(context.pop_value(), Ok(RuntimeValue::I32(1)));
    assert_eq!(context.pop_value(), Err(Error::ValueStack));
}

#[test]
fn a_block_that_pops_below_its_value_limit_fails() {
    let body = vec![
        Opcode::I32Const(1),
        Opcode::Block(BlockType::NoResult, Opcodes::new(vec![Opcode::Drop, Opcode::End])),
        Opcode::End,
    ];
    assert_eq!(run(vec![], None, body, &[]), Err(Error::FrameStack));
}

#[test]
fn two_runs_give_the_same_result() {
    let body = vec![
        Opcode::I32Const(0),
        Opcode::GetLocal(0),
        Opcode::I32Store(4, 0),
        Opcode::I32Const(4),
        Opcode::I32Load16U(0, 0),
        Opcode::GetLocal(0),
        Opcode::I32DivS,
        Opcode::End,
    ];
    let function_type = FunctionType::new(vec![ValueType::I32], Some(ValueType::I32));
    for arg in [0x1234_5678, 0, -1] {
        let mut first = module_with_memory(1, None);
        let mut second = module_with_memory(1, None);
        let args = [RuntimeValue::I32(arg)];
        let a = Interpreter::run_function_in(&mut first, &function_type, &[], &body, &args, 100);
        let b = Interpreter::run_function_in(&mut second, &function_type, &[], &body, &args, 100);
        assert_eq!(a, b);
        assert_eq!(first.memory_get(0, 0, 16), second.memory_get(0, 0, 16));
        assert_eq!(first.memory_get(0, 4, 4).unwrap(), (arg as u32).to_le_bytes().to_vec());
    }
}

#[test]
fn loads_and_stores_are_little_endian() {
    let mut module = module_with_memory(1, None);
    let stored = run_in(
        &mut module,
        None,
        vec![Opcode::I32Const(16), Opcode::I64Const(0x0102_0304_0506_0708), Opcode::I64Store(0, 3)],
    );
    assert_eq!(stored, Ok(None));
    assert_eq!(module.memory_get(0, 16, 8).unwrap(), vec![8, 7, 6, 5, 4, 3, 2, 1]);
    let load = |module: &mut ModuleInstance, result: ValueType, op: Opcode| {
        run_in(module, Some(result), vec![Opcode::I32Const(16), op]).map(|v| v.unwrap())
    };
    assert_eq!(
        load(&mut module, ValueType::I32, Opcode::I32Load(0, 2)),
        Ok(RuntimeValue::I32(0x0506_0708))
    );
    assert_eq!(
        load(&mut module, ValueType::I32, Opcode::I32Load(2, 0)),
        Ok(RuntimeValue::I32(0x0304_0506))
    );
    assert_eq!(
        load(&mut module, ValueType::I64, Opcode::I64Load(0, 0)),
        Ok(RuntimeValue::I64(0x0102_0304_0506_0708))
    );
    assert_eq!(
        load(&mut module, ValueType::F32, Opcode::F32Load(4, 0)),
        Ok(RuntimeValue::F32(0x0102_0304))
    );
    assert_eq!(
        load(&mut module, ValueType::F64, Opcode::F64Load(0, 0)),
        Ok(RuntimeValue::F64(0x0102_0304_0506_0708))
    );
}

#[test]
fn narrow_loads_extend_by_sign_or_by_zeros() {
    let mut module = module_with_memory(1, None);
    run_in(
        &mut module,
        None,
        vec![Opcode::I32Const(0), Opcode::I64Const(-2), Opcode::I64Store(0, 0)],
    )
    .unwrap();
    let load = |module: &mut ModuleInstance, result: ValueType, op: Opcode| {
        run_in(module, Some(result), vec![Opcode::I32Const(0), op]).map(|v| v.unwrap())
    };
    assert_eq!(load(&mut module, ValueType::I32, Opcode::I32Load8S(0, 0)), Ok(RuntimeValue::I32(-2)));
    assert_eq!(load(&mut module, ValueType::I32, Opcode::I32Load8U(0, 0)), Ok(RuntimeValue::I32(0xfe)));
    assert_eq!(load(&mut module, ValueType::I32, Opcode::I32Load16S(0, 0)), Ok(RuntimeValue::I32(-2)));
    assert_eq!(
        load(&mut module, ValueType::I32, Opcode::I32Load16U(0, 0)),
        Ok(RuntimeValue::I32(0xfffe))
    );
    assert_eq!(load(&mut module, ValueType::I64, Opcode::I64Load8S(0, 0)), Ok(RuntimeValue::I64(-2)));
    assert_eq!(load(&mut module, ValueType::I64, Opcode::I64Load8U(1, 0)), Ok(RuntimeValue::I64(0xff)));
    assert_eq!(load(&mut module, ValueType::I64, Opcode::I64Load16S(0, 0)), Ok(RuntimeValue::I64(-2)));
    assert_eq!(
        load(&mut module, ValueType::I64, Opcode::I64Load16U(0, 0)),
        Ok(RuntimeValue::I64(0xfffe))
    );
    assert_eq!(load(&mut module, ValueType::I64, Opcode::I64Load32S(0, 0)), Ok(RuntimeValue::I64(-2)));
    assert_eq!(
        load(&mut module, ValueType::I64, Opcode::I64Load32U(0, 0)),
        Ok(RuntimeValue::I64(0xffff_fffe))
    );
}

#[test]
fn narrow_stores_write_the_low_bytes() {
    let mut module = module_with_memory(1, None);
    let store = |module: &mut ModuleInstance, value: Opcode, op: Opcode| {
        run_in(module, None, vec![Opcode::I32Const(8), value, op])
    };
    store(&mut module, Opcode::I64Const(-1), Opcode::I64Store(0, 0)).unwrap();
    store(&mut module, Opcode::I32Const(0x1122_3344), Opcode::I32Store8(0, 0)).unwrap();
    assert_eq!(module.memory_get(0, 8, 4).unwrap(), vec![0x44, 0xff, 0xff, 0xff]);
    store(&mut module, Opcode::I32Const(0x1122_3344), Opcode::I32Store16(2, 0)).unwrap();
    assert_eq!(module.memory_get(0, 8, 5).unwrap(), vec![0x44, 0xff, 0x44, 0x33, 0xff]);
    store(&mut module, Opcode::I64Const(0x0102_0304_0506_0708), Opcode::I64Store32(4, 0)).unwrap();
    assert_eq!(module.memory_get(0, 12, 5).unwrap(), vec![0x08, 0x07, 0x06, 0x05, 0x00]);
    store(&mut module, Opcode::I64Const(0x0102), Opcode::I64Store8(0, 0)).unwrap();
    store(&mut module, Opcode::I64Const(0x0a0b_0c0d), Opcode::I64Store16(1, 0)).unwrap();
    assert_eq!(module.memory_get(0, 8, 3).unwrap(), vec![0x02, 0x0d, 0x0c]);
    store(&mut module, Opcode::F32Const(0x0a0b_0c0d), Opcode::F32Store(0, 0)).unwrap();
    assert_eq!(module.memory_get(0, 8, 4).unwrap(), vec![0x0d, 0x0c, 0x0b, 0x0a]);
}

#[test]
fn memory_access_out_of_bounds_traps() {
    let mut module = module_with_memory(1, None);
    let load_at = |module: &mut ModuleInstance, base: i32, offset: u32| {
        run_in(module, Some(ValueType::I32), vec![Opcode::I32Const(base), Opcode::I32Load(offset, 0)])
    };
    assert_eq!(load_at(&mut module, 65532, 0), Ok(Some(RuntimeValue::I32(0))));
    assert_eq!(load_at(&mut module, 65533, 0), Err(Error::Trap));
    assert_eq!(load_at(&mut module, 65532, 1), Err(Error::Trap));
    // base plus offset must not pass 32 bits
    assert_eq!(load_at(&mut module, -1, 1), Err(Error::Trap));
    assert_eq!(load_at(&mut module, -1, 0), Err(Error::Trap));
    let stored = run_in(
        &mut module,
        None,
        vec![Opcode::I32Const(65535), Opcode::I32Const(-1), Opcode::I32Store16(0, 0)],
    );
    assert_eq!(stored, Err(Error::Trap));
    // a store that traps stores nothing
    assert_eq!(module.memory_get(0, 65535, 1).unwrap(), vec![0]);
}

#[test]
fn the_alignment_hint_does_not_move_the_access() {
    let mut module = module_with_memory(1, None);
    run_in(
        &mut module,
        None,
        vec![Opcode::I32Const(0), Opcode::I32Const(0x0a0b_0c0d), Opcode::I32Store(8, 31)],
    )
    .unwrap();
    assert_eq!(module.memory_get(0, 8, 4).unwrap(), vec![0x0d, 0x0c, 0x0b, 0x0a]);
    assert_eq!(effective_address(8, 0), Ok(8));
    assert_eq!(effective_address(u32::MAX, 0), Ok(u32::MAX));
    assert_eq!(effective_address(u32::MAX, 1), Err(Error::Trap));
    assert_eq!(effective_address(0x8000_0000, 0x8000_0000), Err(Error::Trap));
}

#[test]
fn memory_grows_up_to_its_maximum() {
    let mut module = module_with_memory(1, Some(3));
    let size = |module: &mut ModuleInstance| {
        run_in(module, Some(ValueType::I32), vec![Opcode::CurrentMemory(false)])
    };
    let grow = |module: &mut ModuleInstance, delta: i32| {
        run_in(
            module,
            Some(ValueType::I32),
            vec![Opcode::I32Const(delta), Opcode::GrowMemory(false)],
        )
    };
    assert_eq!(size(&mut module), Ok(Some(RuntimeValue::I32(1))));
    assert_eq!(grow(&mut module, 1), Ok(Some(RuntimeValue::I32(1))));
    assert_eq!(size(&mut module), Ok(Some(RuntimeValue::I32(2))));
    assert_eq!(grow(&mut module, 2), Ok(Some(RuntimeValue::I32(-1))));
    assert_eq!(size(&mut module), Ok(Some(RuntimeValue::I32(2))));
    assert_eq!(grow(&mut module, 0), Ok(Some(RuntimeValue::I32(2))));
    assert_eq!(grow(&mut module, 1), Ok(Some(RuntimeValue::I32(2))));
    assert_eq!(grow(&mut module, 1), Ok(Some(RuntimeValue::I32(-1))));
    assert_eq!(grow(&mut module, -1), Ok(Some(RuntimeValue::I32(-1))));
    // the new pages are zero and can be addressed
    assert_eq!(module.memory_get(0, 3 * 65536 - 4, 4).unwrap(), vec![0, 0, 0, 0]);
    assert_eq!(module.memory_get(0, 3 * 65536 - 3, 4), Err(Error::Trap));
    assert_eq!(module.memory_size(0), Ok(3));
}

#[test]
fn a_module_without_memory_has_none_to_access() {
    let body = vec![Opcode::I32Const(0), Opcode::I32Load(0, 0), Opcode::End];
    assert_eq!(run(vec![], Some(ValueType::I32), body, &[]), Err(Error::Memory));
    let body = vec![Opcode::CurrentMemory(false), Opcode::End];
    assert_eq!(run(vec![], Some(ValueType::I32), body, &[]), Err(Error::Memory));
    assert_eq!(
        ModuleInstance::new(&Module {
            memory: Some(MemoryDefinition { min: 3, max: Some(2) }),
            globals: vec![]
        })
        .err(),
        Some(Error::Memory)
    );
    assert_eq!(
        ModuleInstance::new(&Module {
            memory: Some(MemoryDefinition { min: 65537, max: None }),
            globals: vec![]
        })
        .err(),
        Some(Error::Memory)
    );
}

#[test]
fn globals_are_read_and_set() {
    let definition = Module {
        memory: None,
        globals: vec![
            GlobalDefinition { initial: RuntimeValue::I32(7), mutable: true },
            GlobalDefinition { initial: RuntimeValue::I64(9), mutable: false },
        ],
    };
    let mut module = ModuleInstance::new(&definition).unwrap();
    assert_eq!(
        run_in(&mut module, Some(ValueType::I32), vec![Opcode::GetGlobal(0)]),
        Ok(Some(RuntimeValue::I32(7)))
    );
    assert_eq!(
        run_in(&mut module, None, vec![Opcode::I32Const(8), Opcode::SetGlobal(0)]),
        Ok(None)
    );
    assert_eq!(module.global(0).unwrap().get(), RuntimeValue::I32(8));
    // an immutable global cannot be set
    assert_eq!(
        run_in(&mut module, None, vec![Opcode::I64Const(1), Opcode::SetGlobal(1)]),
        Err(Error::Trap)
    );
    assert_eq!(module.global(1).unwrap().get(), RuntimeValue::I64(9));
    // nor can a global take a value of another type
    assert_eq!(
        run_in(&mut module, None, vec![Opcode::I64Const(1), Opcode::SetGlobal(0)]),
        Err(Error::Global)
    );
    assert_eq!(
        run_in(&mut module, Some(ValueType::I32), vec![Opcode::GetGlobal(2)]),
        Err(Error::Global)
    );
}

#[test]
fn locals_are_read_set_and_teed() {
    let body = vec![
        Opcode::GetLocal(0),
        Opcode::SetLocal(1),
        Opcode::I32Const(5),
        Opcode::TeeLocal(0),
        Opcode::GetLocal(1),
        Opcode::I32Add,
        Opcode::GetLocal(0),
        Opcode::I32Mul,
        Opcode::End,
    ];
    let args = [RuntimeValue::I32(3), RuntimeValue::I32(100)];
    assert_eq!(
        run(vec![ValueType::I32, ValueType::I32], Some(ValueType::I32), body, &args),
        Ok(Some(RuntimeValue::I32(40)))
    );
    let body = vec![Opcode::GetLocal(1), Opcode::End];
    assert_eq!(
        run(vec![ValueType::I32], Some(ValueType::I32), body, &[RuntimeValue::I32(0)]),
        Err(Error::Local)
    );
    let body = vec![Opcode::I32Const(1), Opcode::SetLocal(0), Opcode::End];
    assert_eq!(run(vec![], None, body, &[]), Err(Error::Local));
}

#[test]
fn declared_locals_start_as_zeros() {
    let function_type = FunctionType::new(vec![ValueType::I32], Some(ValueType::I64));
    let declared = [ValueType::I64, ValueType::F32, ValueType::F64, ValueType::I32];
    let body = vec![
        Opcode::GetLocal(0),
        Opcode::SetLocal(4),
        Opcode::GetLocal(4),
        Opcode::I64ExtendSI32,
        Opcode::GetLocal(1),
        Opcode::I64Add,
        Opcode::End,
    ];
    let mut module = ModuleInstance::empty();
    assert_eq!(
        Interpreter::run_function_in(
            &mut module,
            &function_type,
            &declared,
            &body,
            &[RuntimeValue::I32(-4)],
            100
        ),
        Ok(Some(RuntimeValue::I64(-4)))
    );
    let mut context = FunctionContext::new(
        ModuleInstance::empty(),
        &function_type,
        &declared,
        &body,
        &[RuntimeValue::I32(9)],
        100,
    )
    .unwrap();
    assert_eq!(context.get_local(0), Ok(RuntimeValue::I32(9)));
    assert_eq!(context.get_local(1), Ok(RuntimeValue::I64(0)));
    assert_eq!(context.get_local(2), Ok(RuntimeValue::F32(0)));
    assert_eq!(context.get_local(3), Ok(RuntimeValue::F64(0)));
    assert_eq!(context.get_local(4), Ok(RuntimeValue::I32(0)));
    assert_eq!(context.get_local(5), Err(Error::Local));
}

#[test]
fn each_kind_of_error() {
    assert_eq!(run(vec![], None, vec![Opcode::Unreachable, Opcode::End], &[]), Err(Error::Trap));
    assert_eq!(run(vec![], None, vec![Opcode::Call(0), Opcode::End], &[]), Err(Error::NotImplemented));
    assert_eq!(
        run(vec![], None, vec![Opcode::I32Const(0), Opcode::CallIndirect(0, false), Opcode::End], &[]),
        Err(Error::NotImplemented)
    );
    assert_eq!(run(vec![], None, vec![Opcode::I32Add, Opcode::End], &[]), Err(Error::ValueStack));
    // an operand of the wrong type
    assert_eq!(
        run(vec![], None, vec![Opcode::I64Const(1), Opcode::I32Const(1), Opcode::I32Add, Opcode::End], &[]),
        Err(Error::ValueStack)
    );
    // the result is not of the type that the signature gives
    assert_eq!(
        run(vec![], Some(ValueType::I32), vec![Opcode::I64Const(1), Opcode::End], &[]),
        Err(Error::ValueStack)
    );
    // an empty body, a body without an end, arguments that do not fit
    assert_eq!(run(vec![], None, vec![], &[]), Err(Error::Interpreter));
    assert_eq!(run(vec![], None, vec![Opcode::Nop], &[]), Err(Error::Interpreter));
    assert_eq!(
        run(vec![ValueType::I32], None, vec![Opcode::End], &[]),
        Err(Error::Interpreter)
    );
    assert_eq!(
        run(vec![ValueType::I32], None, vec![Opcode::End], &[RuntimeValue::I64(0)]),
        Err(Error::Interpreter)
    );
    assert_eq!(RuntimeValue::I64(0).try_into_i32(), Err(Error::Value));
    assert_eq!(RuntimeValue::I32(0).add(RuntimeValue::I64(0)), Err(Error::Value));
    assert_eq!(RuntimeValue::F32(0).clz(), Err(Error::Value));
}

#[test]
fn the_budget_bounds_the_number_of_instructions() {
    let function_type = FunctionType::new(vec![], None);
    let body = vec![Opcode::Nop, Opcode::Nop, Opcode::End];
    let mut module = ModuleInstance::empty();
    assert_eq!(
        Interpreter::run_function_in(&mut module, &function_type, &[], &body, &[], 3),
        Ok(None)
    );
    assert_eq!(
        Interpreter::run_function_in(&mut module, &function_type, &[], &body, &[], 2),
        Err(Error::Interpreter)
    );
    // a loop that never ends stops when the budget is used up
    let body = vec![
        Opcode::Loop(BlockType::NoResult, Opcodes::new(vec![Opcode::Br(0), Opcode::End])),
        Opcode::End,
    ];
    assert_eq!(
        Interpreter::run_function_in(&mut module, &function_type, &[], &body, &[], 100_000),
        Err(Error::Interpreter)
    );
}

#[test]
fn loop_via_br() {
    // the accumulator on the stack is doubled on each turn; the loop goes
    // round as long as the counter, counted down in the local, is not zero
    let function_type = FunctionType::new(vec![ValueType::I32], Some(ValueType::I32));
    let body = vec![
        Opcode::I32Const(1),
        Opcode::Block(
            BlockType::Value(ValueType::I32),
            Opcodes::new(vec![
                Opcode::Loop(
                    BlockType::Value(ValueType::I32),
                    Opcodes::new(vec![
                        Opcode::I32Const(2),
                        Opcode::I32Mul,
                        Opcode::GetLocal(0),
                        Opcode::I32Const(1),
                        Opcode::I32Sub,
                        Opcode::TeeLocal(0),
                        Opcode::BrIf(0),
                        Opcode::Br(1),
                        Opcode::End,
                    ]),
                ),
                Opcode::End,
            ]),
        ),
        Opcode::End,
    ];
    let mut context = FunctionContext::new(
        ModuleInstance::empty(),
        &function_type,
        &[],
        &body,
        &[RuntimeValue::I32(3)],
        1000,
    )
    .unwrap();
    let result = Interpreter::run_context(&mut context, BlockType::Value(ValueType::I32), &body);
    // three turns: 1 doubled three times
    assert_eq!(result, Ok(Some(RuntimeValue::I32(8))));
    assert_eq!(context.get_local(0), Ok(RuntimeValue::I32(0)));
}

#[test]
fn the_end_of_a_loop_body_enters_the_loop_again() {
    // the counter passes zero and the loop goes on until the budget is used up
    let function_type = FunctionType::new(vec![ValueType::I32], Some(ValueType::I32));
    let body = vec![
        Opcode::I32Const(1),
        Opcode::Loop(
            BlockType::Value(ValueType::I32),
            Opcodes::new(vec![
                Opcode::GetLocal(0),
                Opcode::I32Const(1),
                Opcode::I32Sub,
                Opcode::TeeLocal(0),
                Opcode::BrIf(0),
                Opcode::End,
            ]),
        ),
        Opcode::End,
    ];
    let mut context = FunctionContext::new(
        ModuleInstance::empty(),
        &function_type,
        &[],
        &body,
        &[RuntimeValue::I32(3)],
        1 + 6 + 6 + 7 + 6 + 6,
    )
    .unwrap();
    let result = Interpreter::run_context(&mut context, BlockType::Value(ValueType::I32), &body);
    assert_eq!(result, Err(Error::Interpreter));
    // five turns: the loop instruction and five of the body each, and in the
    // third turn, where the branch is not taken, the end as well
    assert_eq!(context.get_local(0), Ok(RuntimeValue::I32(3 - 5)));
}

#[test]
fn outcomes_of_single_instructions() {
    let function_type = FunctionType::new(vec![], None);
    let body = vec![Opcode::End];
    let mut context =
        FunctionContext::new(
        ModuleInstance::empty(),
        &function_type,
        &[],
        &body, &[], 10).unwrap();
    assert_eq!(
        Interpreter::run_instruction(&mut context, &Opcode::Nop),
        Ok(InstructionOutcome::RunNextInstruction)
    );
    assert_eq!(
        Interpreter::run_instruction(&mut context, &Opcode::Br(3)),
        Ok(InstructionOutcome::PopFrame(3))
    );
    assert_eq!(
        Interpreter::run_instruction(&mut context, &Opcode::End),
        Ok(InstructionOutcome::PopFrame(0))
    );
    assert_eq!(
        Interpreter::run_instruction(&mut context, &Opcode::Else),
        Ok(InstructionOutcome::PopFrame(0))
    );
    assert_eq!(
        Interpreter::run_instruction(&mut context, &Opcode::Return),
        Ok(InstructionOutcome::Return)
    );
    context.push_value(RuntimeValue::I32(0)).unwrap();
    assert_eq!(
        Interpreter::run_instruction(&mut context, &Opcode::BrIf(2)),
        Ok(InstructionOutcome::RunNextInstruction)
    );
    context.push_value(RuntimeValue::I32(9)).unwrap();
    assert_eq!(
        Interpreter::run_instruction(&mut context, &Opcode::BrTable(vec![4, 5], 6)),
        Ok(InstructionOutcome::PopFrame(6))
    );
    // a block that is left by a branch across two blocks hands one on
    let nested = Opcode::Block(
        BlockType::NoResult,
        Opcodes::new(vec![Opcode::Br(1), Opcode::End]),
    );
    assert_eq!(
        Interpreter::run_instruction(&mut context, &nested),
        Ok(InstructionOutcome::PopFrame(0))
    );
}

#[test]
fn little_endian_bytes() {
    assert_eq!(to_little_endian_bytes(0x0102_0304, 4), vec![4, 3, 2, 1]);
    assert_eq!(to_little_endian_bytes(0x0102_0304, 2), vec![4, 3]);
    assert_eq!(to_little_endian_bytes(0x0102_0304, 0), Vec::<u8>::new());
    assert_eq!(to_little_endian_bytes(u64::MAX, 8), vec![255; 8]);
    assert_eq!(to_little_endian_bytes(1, 10), vec![1, 0, 0, 0, 0, 0, 0, 0, 0, 0]);
    assert_eq!(from_little_endian_bytes(&[4, 3, 2, 1]), 0x0102_0304);
    assert_eq!(from_little_endian_bytes(&[]), 0);
    assert_eq!(from_little_endian_bytes(&[255; 8]), u64::MAX);
    for x in [0u64, 1, 0xdead_beef_0bad_f00d, u64::MAX] {
        assert_eq!(from_little_endian_bytes(&to_little_endian_bytes(x, 8)), x);
        assert_eq!(to_little_endian_bytes(x, 8), x.to_le_bytes().to_vec());
        assert_eq!(from_little_endian_bytes(&to_little_endian_bytes(x, 3)), x % (1 << 24));
    }
}

#[test]
fn the_invalid_frame() {
    let frame = BlockFrame::invalid();
    assert_eq!(frame.position, usize::MAX);
    assert_eq!(frame.value_limit, usize::MAX);
    assert_eq!(frame.signature, BlockType::NoResult);
}

#[test]
fn memory_builder() {
    assert_eq!(MemoryDefinition::default(), MemoryDefinition { min: 1, max: None });
    assert_eq!(MemoryBuilder::new().build(), MemoryDefinition { min: 1, max: None });
    assert_eq!(
        MemoryBuilder::new().with_min(3).with_max(Some(10)).build(),
        MemoryDefinition { min: 3, max: Some(10) }
    );
    assert_eq!(
        MemoryBuilder::with_callback(Identity).with_max(Some(2)).with_max(None).with_min(0).build(),
        MemoryDefinition { min: 0, max: None }
    );
    assert_eq!(Identity.invoke(5u8), 5u8);
}
