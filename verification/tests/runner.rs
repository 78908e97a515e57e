use wasm_interpreter::elements::{BlockType, FunctionType, Opcode, Opcodes, ValueType};
use wasm_interpreter::interpreter::error::Error;
use wasm_interpreter::interpreter::runner::Interpreter;
use wasm_interpreter::interpreter::value::RuntimeValue;

fn run_function_i32(body: &Opcodes, arg: i32) -> Result<i32, Error> {
    let function_type = FunctionType::new(vec![ValueType::I32], Some(ValueType::I32));
    Interpreter::run_function(&function_type, body.elements(), &[RuntimeValue::I32(arg)])
        .map(|v| v.unwrap().try_into_i32().unwrap())
}

fn run_function_i32_i32(body: &Opcodes, first: i32, second: i32) -> Result<i32, Error> {
    let function_type =
        FunctionType::new(vec![ValueType::I32, ValueType::I32], Some(ValueType::I32));
    Interpreter::run_function(
        &function_type,
        body.elements(),
        &[RuntimeValue::I32(first), RuntimeValue::I32(second)],
    )
    .map(|v| v.unwrap().try_into_i32().unwrap())
}

#[test]
fn trap() {
    let body = Opcodes::new(vec![Opcode::Unreachable, Opcode::End]);

    assert_eq!(run_function_i32(&body, 0).unwrap_err(), Error::Trap);
}

#[test]
fn nop() {
    let body = Opcodes::new(vec![
        Opcode::Nop,
        Opcode::I32Const(20),
        Opcode::Nop,
        Opcode::End,
    ]);

    assert_eq!(run_function_i32(&body, 0).unwrap(), 20);
}

#[test]
fn if_then() {
    let body = Opcodes::new(vec![
        Opcode::I32Const(20),
        Opcode::GetLocal(0),
        Opcode::If(
            BlockType::Value(ValueType::I32),
            Opcodes::new(vec![Opcode::I32Const(10), Opcode::End]),
        ),
        Opcode::End,
    ]);

    assert_eq!(run_function_i32(&body, 0).unwrap(), 20);
    assert_eq!(run_function_i32(&body, 1).unwrap(), 10);
}

#[test]
fn if_then_else() {
    let body = Opcodes::new(vec![
        Opcode::GetLocal(0),
        Opcode::If(
            BlockType::Value(ValueType::I32),
            Opcodes::new(vec![
                Opcode::I32Const(10),
                Opcode::Else,
                Opcode::I32Const(20),
                Opcode::End,
            ]),
        ),
        Opcode::End,
    ]);

    assert_eq!(run_function_i32(&body, 0).unwrap(), 20);
    assert_eq!(run_function_i32(&body, 1).unwrap(), 10);
}

#[test]
fn return_from_if() {
    let body = Opcodes::new(vec![
        Opcode::GetLocal(0),
        Opcode::If(
            BlockType::Value(ValueType::I32),
            Opcodes::new(vec![Opcode::I32Const(20), Opcode::Return, Opcode::End]),
        ),
        Opcode::I32Const(10),
        Opcode::End,
    ]);

    assert_eq!(run_function_i32(&body, 0).unwrap(), 10);
    assert_eq!(run_function_i32(&body, 1).unwrap(), 20);
}

#[test]
fn block() {
    let body = Opcodes::new(vec![
        Opcode::Block(
            BlockType::Value(ValueType::I32),
            Opcodes::new(vec![Opcode::I32Const(10), Opcode::End]),
        ),
        Opcode::End,
    ]);

    assert_eq!(run_function_i32(&body, 0).unwrap(), 10);
}

/// Doubles the second local once for each unit of the first: the loop is
/// left by a branch to the block around it.
fn doubling_loop() -> Opcodes {
    Opcodes::new(vec![
        Opcode::Block(
            BlockType::NoResult,
            Opcodes::new(vec![
                Opcode::Loop(
                    BlockType::NoResult,
                    Opcodes::new(vec![
                        Opcode::GetLocal(0),
                        Opcode::I32Eqz,
                        Opcode::BrIf(1),
                        Opcode::GetLocal(1),
                        Opcode::I32Const(2),
                        Opcode::I32Mul,
                        Opcode::SetLocal(1),
                        Opcode::GetLocal(0),
                        Opcode::I32Const(1),
                        Opcode::I32Sub,
                        Opcode::SetLocal(0),
                        Opcode::Br(0),
                        Opcode::End,
                    ]),
                ),
                Opcode::End,
            ]),
        ),
        Opcode::GetLocal(1),
        Opcode::End,
    ])
}

#[test]
fn loop_block() {
    let body = doubling_loop();

    assert_eq!(run_function_i32_i32(&body, 0, 1).unwrap(), 1);
    assert_eq!(run_function_i32_i32(&body, 3, 1).unwrap(), 8);
    assert_eq!(run_function_i32_i32(&body, 10, 3).unwrap(), 3072);
}

#[test]
fn branch() {
    // the branch leaves the block before the second constant is pushed
    let body = Opcodes::new(vec![
        Opcode::Block(
            BlockType::Value(ValueType::I32),
            Opcodes::new(vec![
                Opcode::I32Const(10),
                Opcode::Br(0),
                Opcode::I32Const(20),
                Opcode::End,
            ]),
        ),
        Opcode::End,
    ]);
    assert_eq!(run_function_i32(&body, 0).unwrap(), 10);

    // a branch across two blocks resumes behind the outer one
    let body = Opcodes::new(vec![
        Opcode::Block(
            BlockType::Value(ValueType::I32),
            Opcodes::new(vec![
                Opcode::Block(
                    BlockType::Value(ValueType::I32),
                    Opcodes::new(vec![Opcode::I32Const(7), Opcode::Br(1), Opcode::End]),
                ),
                Opcode::Drop,
                Opcode::I32Const(8),
                Opcode::End,
            ]),
        ),
        Opcode::End,
    ]);
    assert_eq!(run_function_i32(&body, 0).unwrap(), 7);
}

#[test]
fn branch_if() {
    let body = Opcodes::new(vec![
        Opcode::Block(
            BlockType::Value(ValueType::I32),
            Opcodes::new(vec![
                Opcode::I32Const(10),
                Opcode::GetLocal(0),
                Opcode::BrIf(0),
                Opcode::Drop,
                Opcode::I32Const(20),
                Opcode::End,
            ]),
        ),
        Opcode::End,
    ]);

    assert_eq!(run_function_i32(&body, 1).unwrap(), 10);
    assert_eq!(run_function_i32(&body, -5).unwrap(), 10);
    assert_eq!(run_function_i32(&body, 0).unwrap(), 20);
}

#[test]
fn branch_table() {
    // index 0 leaves the inner block, index 1 the middle one, any other the outer one
    let body = Opcodes::new(vec![
        Opcode::Block(
            BlockType::NoResult,
            Opcodes::new(vec![
                Opcode::Block(
                    BlockType::NoResult,
                    Opcodes::new(vec![
                        Opcode::Block(
                            BlockType::NoResult,
                            Opcodes::new(vec![
                                Opcode::GetLocal(0),
                                Opcode::BrTable(vec![0, 1], 2),
                                Opcode::End,
                            ]),
                        ),
                        Opcode::I32Const(100),
                        Opcode::Return,
                        Opcode::End,
                    ]),
                ),
                Opcode::I32Const(101),
                Opcode::Return,
                Opcode::End,
            ]),
        ),
        Opcode::I32Const(102),
        Opcode::End,
    ]);

    assert_eq!(run_function_i32(&body, 0).unwrap(), 100);
    assert_eq!(run_function_i32(&body, 1).unwrap(), 101);
    assert_eq!(run_function_i32(&body, 2).unwrap(), 102);
    assert_eq!(run_function_i32(&body, 77).unwrap(), 102);
    assert_eq!(run_function_i32(&body, -1).unwrap(), 102);
}

#[test]
fn drop() {
    let body = Opcodes::new(vec![
        Opcode::I32Const(1),
        Opcode::I32Const(2),
        Opcode::Drop,
        Opcode::End,
    ]);
    assert_eq!(run_function_i32(&body, 0).unwrap(), 1);

    let body = Opcodes::new(vec![Opcode::Drop, Opcode::End]);
    assert_eq!(run_function_i32(&body, 0).unwrap_err(), Error::ValueStack);
}

#[test]
fn select() {
    let body = Opcodes::new(vec![
        Opcode::I32Const(10),
        Opcode::I32Const(20),
        Opcode::GetLocal(0),
        Opcode::Select,
        Opcode::End,
    ]);
    assert_eq!(run_function_i32(&body, 1).unwrap(), 10);
    assert_eq!(run_function_i32(&body, 0).unwrap(), 20);

    // the condition must be an I32
    let body = Opcodes::new(vec![
        Opcode::I32Const(10),
        Opcode::I32Const(20),
        Opcode::I64Const(1),
        Opcode::Select,
        Opcode::End,
    ]);
    assert_eq!(run_function_i32(&body, 0).unwrap_err(), Error::ValueStack);
}
