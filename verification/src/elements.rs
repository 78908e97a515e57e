//! The decoded form of the parts of a WebAssembly module that the
//! interpreter executes: value types, block signatures, function
//! signatures and the instruction tree.
use vstd::prelude::*;
use crate::builder::memory::MemoryDefinition;
use crate::interpreter::value::RuntimeValue;

verus! {

/// The type of a runtime value.
#[derive(Clone, Copy, Debug, PartialEq, Eq, Structural)]
pub enum ValueType {
    I32,
    I64,
    F32,
    F64,
}

/// The signature of a block: no result, or a single result of the given type.
#[derive(Clone, Copy, Debug, PartialEq, Eq, Structural)]
pub enum BlockType {
    Value(ValueType),
    NoResult,
}

/// An ordered sequence of instructions: a function body or the body of a block.
#[derive(Debug)]
pub struct Opcodes(pub Vec<Opcode>);

/// A single instruction. Structured instructions own their nested bodies.
/// Float immediates travel as IEEE-754 bit patterns.
#[derive(Debug)]
pub enum Opcode {
    Unreachable,
    Nop,
    Block(BlockType, Opcodes),
    Loop(BlockType, Opcodes),
    If(BlockType, Opcodes),
    Else,
    End,
    Br(u32),
    BrIf(u32),
    BrTable(Vec<u32>, u32),
    Return,
    Call(u32),
    CallIndirect(u32, bool),
    Drop,
    Select,
    GetLocal(u32),
    SetLocal(u32),
    TeeLocal(u32),
    GetGlobal(u32),
    SetGlobal(u32),
    I32Load(u32, u32),
    I64Load(u32, u32),
    F32Load(u32, u32),
    F64Load(u32, u32),
    I32Load8S(u32, u32),
    I32Load8U(u32, u32),
    I32Load16S(u32, u32),
    I32Load16U(u32, u32),
    I64Load8S(u32, u32),
    I64Load8U(u32, u32),
    I64Load16S(u32, u32),
    I64Load16U(u32, u32),
    I64Load32S(u32, u32),
    I64Load32U(u32, u32),
    I32Store(u32, u32),
    I64Store(u32, u32),
    F32Store(u32, u32),
    F64Store(u32, u32),
    I32Store8(u32, u32),
    I32Store16(u32, u32),
    I64Store8(u32, u32),
    I64Store16(u32, u32),
    I64Store32(u32, u32),
    CurrentMemory(bool),
    GrowMemory(bool),
    I32Const(i32),
    I64Const(i64),
    F32Const(u32),
    F64Const(u64),
    I32Eqz,
    I32Eq,
    I32Ne,
    I32LtS,
    I32LtU,
    I32GtS,
    I32GtU,
    I32LeS,
    I32LeU,
    I32GeS,
    I32GeU,
    I64Eqz,
    I64Eq,
    I64Ne,
    I64LtS,
    I64LtU,
    I64GtS,
    I64GtU,
    I64LeS,
    I64LeU,
    I64GeS,
    I64GeU,
    F32Eq,
    F32Ne,
    F32Lt,
    F32Gt,
    F32Le,
    F32Ge,
    F64Eq,
    F64Ne,
    F64Lt,
    F64Gt,
    F64Le,
    F64Ge,
    I32Clz,
    I32Ctz,
    I32Popcnt,
    I32Add,
    I32Sub,
    I32Mul,
    I32DivS,
    I32DivU,
    I32RemS,
    I32RemU,
    I32And,
    I32Or,
    I32Xor,
    I32Shl,
    I32ShrS,
    I32ShrU,
    I32Rotl,
    I32Rotr,
    I64Clz,
    I64Ctz,
    I64Popcnt,
    I64Add,
    I64Sub,
    I64Mul,
    I64DivS,
    I64DivU,
    I64RemS,
    I64RemU,
    I64And,
    I64Or,
    I64Xor,
    I64Shl,
    I64ShrS,
    I64ShrU,
    I64Rotl,
    I64Rotr,
    F32Abs,
    F32Neg,
    F32Ceil,
    F32Floor,
    F32Trunc,
    F32Nearest,
    F32Sqrt,
    F32Add,
    F32Sub,
    F32Mul,
    F32Div,
    F32Min,
    F32Max,
    F32Copysign,
    F64Abs,
    F64Neg,
    F64Ceil,
    F64Floor,
    F64Trunc,
    F64Nearest,
    F64Sqrt,
    F64Add,
    F64Sub,
    F64Mul,
    F64Div,
    F64Min,
    F64Max,
    F64Copysign,
    I32WarpI64,
    I32TruncSF32,
    I32TruncUF32,
    I32TruncSF64,
    I32TruncUF64,
    I64ExtendSI32,
    I64ExtendUI32,
    I64TruncSF32,
    I64TruncUF32,
    I64TruncSF64,
    I64TruncUF64,
    F32ConvertSI32,
    F32ConvertUI32,
    F32ConvertSI64,
    F32ConvertUI64,
    F32DemoteF64,
    F64ConvertSI32,
    F64ConvertUI32,
    F64ConvertSI64,
    F64ConvertUI64,
    F64PromoteF32,
    I32ReinterpretF32,
    I64ReinterpretF64,
    F32ReinterpretI32,
    F64ReinterpretI64,
}

impl Opcodes {
    /// The instructions of this body, as a mathematical sequence.
    pub open spec fn spec_elements(&self) -> Seq<Opcode> {
        self.0@
    }

    /// Wraps a vector of instructions.
    pub fn new(elements: Vec<Opcode>) -> (r: Self)
        ensures
            r.spec_elements() == elements@,
    {
        Opcodes(elements)
    }

    /// The instructions of this body.
    pub fn elements(&self) -> (r: &[Opcode])
        ensures
            r@ == self.spec_elements(),
    {
        self.0.as_slice()
    }
}

/// The signature of a function: parameter types and at most one result type.
#[derive(Clone, Debug, PartialEq)]
pub struct FunctionType {
    params: Vec<ValueType>,
    return_type: Option<ValueType>,
}

impl FunctionType {
    /// The parameter types, in declaration order.
    pub closed spec fn spec_params(&self) -> Seq<ValueType> {
        self.params@
    }

    /// The result type, if the function returns a value.
    pub closed spec fn spec_return_type(&self) -> Option<ValueType> {
        self.return_type
    }

    /// A signature with the given parameter types and result type.
    pub fn new(params: Vec<ValueType>, return_type: Option<ValueType>) -> (r: Self)
        ensures
            r.spec_params() == params@,
            r.spec_return_type() == return_type,
    {
        FunctionType { params, return_type }
    }

    /// The parameter types, in declaration order.
    pub fn params(&self) -> (r: &[ValueType])
        ensures
            r@ == self.spec_params(),
    {
        self.params.as_slice()
    }

    /// The result type, if the function returns a value.
    pub fn return_type(&self) -> (r: Option<ValueType>)
        ensures
            r == self.spec_return_type(),
    {
        self.return_type
    }
}

/// The definition of a global: its initial value, whose tag is the
/// global's type, and whether it may be set.
#[derive(Clone, Copy, Debug, PartialEq, Eq, Structural)]
pub struct GlobalDefinition {
    pub initial: RuntimeValue,
    pub mutable: bool,
}

/// What of a decoded module its instance is made from: the definition of
/// its linear memory, if it has one, and of its globals.
#[derive(Clone, Debug, PartialEq)]
pub struct Module {
    pub memory: Option<MemoryDefinition>,
    pub globals: Vec<GlobalDefinition>,
}

impl Default for Module {
    /// The module without memory and without globals.
    fn default() -> (r: Self)
        ensures
            r.memory is None,
            r.globals@ == Seq::<GlobalDefinition>::empty(),
    {
        Module { memory: None, globals: Vec::new() }
    }
}

} // verus!
