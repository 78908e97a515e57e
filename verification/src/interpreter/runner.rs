//! The instruction evaluator: the per-call execution context with its
//! two stacks, the semantics of every instruction, and the dispatcher that
//! drives a function body through nested blocks.
//!
//! What the evaluator does is stated over `Machine`, the mathematical
//! model of a context: every executable function here returns what the
//! spec function of the same name, prefixed `spec_`, gives for the model
//! before the call, and leaves the context in the state that it gives.
use vstd::prelude::*;
use vstd::slice::slice_subrange;
use crate::elements::{BlockType, FunctionType, Module, Opcode, ValueType};
use crate::interpreter::error::Error;
use crate::interpreter::integer;
use crate::interpreter::module::{ModuleInstance, ModuleModel, DEFAULT_MEMORY_INDEX};
use crate::interpreter::value::{RuntimeValue, spec_flag};

verus! {

/// The number of instructions that `Interpreter::run_function` executes at most.
pub const DEFAULT_BUDGET: u64 = 0xffff_ffff_ffff_ffff;

/// The evaluator of function bodies.
pub struct Interpreter;

/// What the dispatcher is to do after an instruction.
#[derive(Clone, Copy, Debug, PartialEq, Eq, Structural)]
pub enum InstructionOutcome {
    /// Continue with the instruction at the current position.
    RunInstruction,
    /// Continue with the next instruction.
    RunNextInstruction,
    /// Leave this many blocks, and one more.
    PopFrame(usize),
    /// Return from the function.
    Return,
}

/// An entry of the frame stack: a block that has been entered and not yet left.
#[derive(Clone, Copy, Debug, PartialEq, Eq, Structural)]
pub struct BlockFrame {
    /// The position, in the body around the block, at which execution
    /// resumes when the block is left.
    pub position: usize,
    /// The depth of the value stack when the block was entered.
    pub value_limit: usize,
    /// The type of the block's result.
    pub signature: BlockType,
}

impl BlockFrame {
    /// A frame that no block has: both numbers are the largest `usize`.
    pub fn invalid() -> (r: Self)
        ensures
            r == (BlockFrame {
                position: usize::MAX,
                value_limit: usize::MAX,
                signature: BlockType::NoResult,
            }),
    {
        BlockFrame { position: usize::MAX, value_limit: usize::MAX, signature: BlockType::NoResult }
    }
}

/// The mathematical model of a `FunctionContext`.
#[verifier::ext_equal]
pub struct Machine {
    /// The value stack, top last.
    pub values: Seq<RuntimeValue>,
    /// The frame stack, innermost block last.
    pub frames: Seq<BlockFrame>,
    /// The locals.
    pub locals: Seq<RuntimeValue>,
    /// The position of the current instruction in the body that is being executed.
    pub position: usize,
    /// The number of instructions that may still be executed.
    pub budget: u64,
    /// The module instance.
    pub module: ModuleModel,
}

/// A machine state together with what an operation on the state before returned.
pub type Step<T> = (Machine, Result<T, Error>);

impl Machine {
    /// The module is well-formed.
    pub open spec fn wf(self) -> bool {
        self.module.wf()
    }

    /// The state at the start of a call: empty value stack, the given
    /// locals, and one frame, that of the function itself.
    pub open spec fn fresh(
        module: ModuleModel,
        locals: Seq<RuntimeValue>,
        outer: BlockFrame,
        budget: u64,
    ) -> Machine {
        Machine {
            values: Seq::empty(),
            frames: seq![outer],
            locals: locals,
            position: 0,
            budget: budget,
            module: module,
        }
    }

    pub open spec fn with_values(self, values: Seq<RuntimeValue>) -> Machine {
        Machine { values: values, ..self }
    }

    pub open spec fn with_frames(self, frames: Seq<BlockFrame>) -> Machine {
        Machine { frames: frames, ..self }
    }

    pub open spec fn with_locals(self, locals: Seq<RuntimeValue>) -> Machine {
        Machine { locals: locals, ..self }
    }

    pub open spec fn with_position(self, position: usize) -> Machine {
        Machine { position: position, ..self }
    }

    pub open spec fn with_budget(self, budget: u64) -> Machine {
        Machine { budget: budget, ..self }
    }

    pub open spec fn with_module(self, module: ModuleModel) -> Machine {
        Machine { module: module, ..self }
    }

    pub open spec fn spec_set_local(self, index: usize, value: RuntimeValue) -> Step<
        InstructionOutcome,
    > {
        if index < self.locals.len() {
            (
                self.with_locals(self.locals.update(index as int, value)),
                Ok(InstructionOutcome::RunNextInstruction),
            )
        } else {
            (self, Err(Error::Local))
        }
    }

    pub open spec fn spec_get_local(self, index: usize) -> Result<RuntimeValue, Error> {
        if index < self.locals.len() {
            Ok(self.locals[index as int])
        } else {
            Err(Error::Local)
        }
    }

    pub open spec fn spec_push_value(self, value: RuntimeValue) -> Machine {
        self.with_values(self.values.push(value))
    }

    pub open spec fn spec_top_value(self) -> Result<RuntimeValue, Error> {
        if self.values.len() > 0 {
            Ok(self.values.last())
        } else {
            Err(Error::ValueStack)
        }
    }

    pub open spec fn spec_pop_value(self) -> Step<RuntimeValue> {
        if self.values.len() > 0 {
            (self.with_values(self.values.drop_last()), Ok(self.values.last()))
        } else {
            (self, Err(Error::ValueStack))
        }
    }

    pub open spec fn spec_pop_value_as(self, value_type: ValueType) -> Step<RuntimeValue> {
        let (m, r) = self.spec_pop_value();
        match r {
            Ok(v) => if v.spec_value_type() == value_type {
                (m, Ok(v))
            } else {
                (m, Err(Error::ValueStack))
            },
            Err(e) => (m, Err(e)),
        }
    }

    pub open spec fn spec_pop_value_pair(self) -> Step<(RuntimeValue, RuntimeValue)> {
        let (m1, right) = self.spec_pop_value();
        match right {
            Err(e) => (m1, Err(e)),
            Ok(right) => {
                let (m2, left) = m1.spec_pop_value();
                match left {
                    Err(e) => (m2, Err(e)),
                    Ok(left) => (m2, Ok((left, right))),
                }
            },
        }
    }

    pub open spec fn spec_pop_value_pair_as(self, value_type: ValueType) -> Step<
        (RuntimeValue, RuntimeValue),
    > {
        let (m1, right) = self.spec_pop_value_as(value_type);
        match right {
            Err(e) => (m1, Err(e)),
            Ok(right) => {
                let (m2, left) = m1.spec_pop_value_as(value_type);
                match left {
                    Err(e) => (m2, Err(e)),
                    Ok(left) => (m2, Ok((left, right))),
                }
            },
        }
    }

    pub open spec fn spec_pop_value_triple(self) -> Step<(RuntimeValue, RuntimeValue, RuntimeValue)> {
        let (m1, right) = self.spec_pop_value();
        match right {
            Err(e) => (m1, Err(e)),
            Ok(right) => {
                let (m2, mid) = m1.spec_pop_value();
                match mid {
                    Err(e) => (m2, Err(e)),
                    Ok(mid) => {
                        let (m3, left) = m2.spec_pop_value();
                        match left {
                            Err(e) => (m3, Err(e)),
                            Ok(left) => (m3, Ok((left, mid, right))),
                        }
                    },
                }
            },
        }
    }

    pub open spec fn spec_push_frame(self, position: usize, signature: BlockType) -> Machine {
        self.with_frames(
            self.frames.push(
                BlockFrame {
                    position: position,
                    value_limit: self.values.len() as usize,
                    signature: signature,
                },
            ),
        )
    }

    /// The value stack cut down to `limit` values, or filled up to it with
    /// `I32(0)`.
    pub open spec fn resized(values: Seq<RuntimeValue>, limit: usize) -> Seq<RuntimeValue> {
        if limit <= values.len() {
            values.subrange(0, limit as int)
        } else {
            values + Seq::new((limit - values.len()) as nat, |i: int| RuntimeValue::I32(0))
        }
    }

    /// Leaving the innermost block: its frame goes, its result (if its
    /// signature has one) is taken from the top of the value stack, the
    /// stack is brought to the frame's value limit, execution moves to the
    /// frame's position, and the result is pushed again. Fails if there is
    /// no frame or if the frame's value limit lies above the stack.
    pub open spec fn spec_pop_frame(self) -> Step<()> {
        if self.frames.len() == 0 {
            (self, Err(Error::FrameStack))
        } else {
            let frame = self.frames.last();
            let m = self.with_frames(self.frames.drop_last());
            if frame.value_limit > m.values.len() {
                (m, Err(Error::FrameStack))
            } else {
                match frame.signature {
                    BlockType::Value(_) => {
                        let (m1, r) = m.spec_pop_value();
                        match r {
                            Err(e) => (m1, Err(e)),
                            Ok(v) => (
                                m1.with_values(
                                    Self::resized(m1.values, frame.value_limit).push(v),
                                ).with_position(frame.position),
                                Ok(()),
                            ),
                        }
                    },
                    BlockType::NoResult => (
                        m.with_values(Self::resized(m.values, frame.value_limit)).with_position(
                            frame.position,
                        ),
                        Ok(()),
                    ),
                }
            }
        }
    }
}

/// The state of one call: the module instance it runs in, the value
/// stack, the frame stack, the locals, the position of the current
/// instruction, and the number of instructions that may still be executed.
pub struct FunctionContext {
    module: ModuleInstance,
    value_stack: Vec<RuntimeValue>,
    frame_stack: Vec<BlockFrame>,
    locals: Vec<RuntimeValue>,
    position: usize,
    budget: u64,
}

impl View for FunctionContext {
    type V = Machine;

    closed spec fn view(&self) -> Machine {
        Machine {
            values: self.value_stack@,
            frames: self.frame_stack@,
            locals: self.locals@,
            position: self.position,
            budget: self.budget,
            module: self.module@,
        }
    }
}

/// The signature of the block that a function body is.
pub open spec fn spec_block_type_of(return_type: Option<ValueType>) -> BlockType {
    match return_type {
        Some(value_type) => BlockType::Value(value_type),
        None => BlockType::NoResult,
    }
}

/// The signature of the block that a function body is.
pub fn block_type_of(return_type: Option<ValueType>) -> (r: BlockType)
    ensures
        r == spec_block_type_of(return_type),
{
    match return_type {
        Some(value_type) => BlockType::Value(value_type),
        None => BlockType::NoResult,
    }
}

/// Whether `args` are as many as `params`, each of the type that its
/// parameter has.
pub open spec fn args_match(params: Seq<ValueType>, args: Seq<RuntimeValue>) -> bool {
    &&& args.len() == params.len()
    &&& forall|i: int| 0 <= i < args.len() ==> (#[trigger] args[i]).spec_value_type() == params[i]
}

fn check_args(params: &[ValueType], args: &[RuntimeValue]) -> (r: bool)
    ensures
        r == args_match(params@, args@),
{
    if params.len() != args.len() {
        return false;
    }
    let mut i: usize = 0;
    while i < args.len()
        invariant
            i <= args.len(),
            args.len() == params.len(),
            forall|j: int| 0 <= j < i ==> (#[trigger] args@[j]).spec_value_type() == params@[j],
        decreases args.len() - i,
    {
        if args[i].value_type() != params[i] {
            return false;
        }
        i = i + 1;
    }
    true
}

/// The locals at the start of a call: the arguments, then a zero of each
/// declared type.
pub open spec fn spec_initial_locals(args: Seq<RuntimeValue>, declared: Seq<ValueType>) -> Seq<
    RuntimeValue,
> {
    args + Seq::new(declared.len(), |i: int| RuntimeValue::spec_default(declared[i]))
}

impl FunctionContext {
    /// The state that `new` makes, or why it makes none: a body must hold
    /// an instruction, and the arguments must fit the signature.
    pub open spec fn spec_new(
        module: ModuleModel,
        function: FunctionType,
        declared: Seq<ValueType>,
        body: Seq<Opcode>,
        args: Seq<RuntimeValue>,
        budget: u64,
    ) -> Result<Machine, Error> {
        if body.len() == 0 || !args_match(function.spec_params(), args) {
            Err(Error::Interpreter)
        } else {
            Ok(
                Machine::fresh(
                    module,
                    spec_initial_locals(args, declared),
                    BlockFrame {
                        position: (body.len() - 1) as usize,
                        value_limit: 0,
                        signature: spec_block_type_of(function.spec_return_type()),
                    },
                    budget,
                ),
            )
        }
    }

    /// The context of a call of a function with signature `function`,
    /// locals of the types `declared` and body `body` on `args`, in
    /// `module`, with a budget of `budget` instructions: an empty value
    /// stack; as locals the arguments, then a zero of each declared type;
    /// position 0; and one frame, which resumes at the last instruction of
    /// the body and has the function's result type. Fails with
    /// `Error::Interpreter` on an empty body and on arguments that do not fit
    /// the signature.
    pub fn new(
        module: ModuleInstance,
        function: &FunctionType,
        declared: &[ValueType],
        body: &[Opcode],
        args: &[RuntimeValue],
        budget: u64,
    ) -> (r: Result<Self, Error>)
        ensures
            match Self::spec_new(module@, *function, declared@, body@, args@, budget) {
                Ok(m) => r is Ok && r->Ok_0@ == m,
                Err(e) => r is Err && r->Err_0 == e,
            },
    {
        if body.len() == 0 || !check_args(function.params(), args) {
            return Err(Error::Interpreter);
        }
        let mut locals: Vec<RuntimeValue> = Vec::new();
        let mut i: usize = 0;
        while i < args.len()
            invariant
                i <= args.len(),
                locals@ == args@.subrange(0, i as int),
            decreases args.len() - i,
        {
            locals.push(args[i]);
            i = i + 1;
            assert(locals@ =~= args@.subrange(0, i as int));
        }
        assert(args@.subrange(0, i as int) =~= args@);
        let mut j: usize = 0;
        while j < declared.len()
            invariant
                j <= declared.len(),
                locals@ == spec_initial_locals(args@, declared@.subrange(0, j as int)),
            decreases declared.len() - j,
        {
            locals.push(RuntimeValue::default(declared[j]));
            j = j + 1;
            assert(locals@ =~= spec_initial_locals(args@, declared@.subrange(0, j as int)));
        }
        assert(declared@.subrange(0, j as int) =~= declared@);
        let mut context = FunctionContext {
            module: module,
            value_stack: Vec::new(),
            frame_stack: Vec::new(),
            locals: locals,
            position: 0,
            budget: budget,
        };
        context.push_frame(body.len() - 1, block_type_of(function.return_type()));
        assert(context@ =~= Self::spec_new(
            module@,
            *function,
            declared@,
            body@,
            args@,
            budget,
        )->Ok_0);
        Ok(context)
    }

    /// The module instance that the call runs in.
    pub fn module(&mut self) -> (r: &mut ModuleInstance)
        ensures
            *r == old(self).spec_module(),
            final(self)@ == old(self)@.with_module(final(r)@),
    {
        &mut self.module
    }

    /// The module instance that the call runs in.
    pub closed spec fn spec_module(self) -> ModuleInstance {
        self.module
    }

    /// Gives the module instance back and ends the call.
    pub fn into_module(self) -> (r: ModuleInstance)
        ensures
            r@ == self@.module,
    {
        self.module
    }

    /// Sets the local at `index`, if there is one.
    pub fn set_local(&mut self, index: usize, value: RuntimeValue) -> (r: Result<
        InstructionOutcome,
        Error,
    >)
        ensures
            (final(self)@, r) == old(self)@.spec_set_local(index, value),
    {
        if index < self.locals.len() {
            self.locals.set(index, value);
            Ok(InstructionOutcome::RunNextInstruction)
        } else {
            Err(Error::Local)
        }
    }

    /// The local at `index`, if there is one.
    pub fn get_local(&mut self, index: usize) -> (r: Result<RuntimeValue, Error>)
        ensures
            final(self)@ == old(self)@,
            r == old(self)@.spec_get_local(index),
    {
        if index < self.locals.len() {
            Ok(self.locals[index])
        } else {
            Err(Error::Local)
        }
    }

    /// Pushes `value` on the value stack.
    pub fn push_value(&mut self, value: RuntimeValue) -> (r: Result<(), Error>)
        ensures
            r is Ok,
            final(self)@ == old(self)@.spec_push_value(value),
    {
        self.value_stack.push(value);
        Ok(())
    }

    /// The top of the value stack, which stays where it is.
    pub fn top_value(&mut self) -> (r: Result<RuntimeValue, Error>)
        ensures
            final(self)@ == old(self)@,
            r == old(self)@.spec_top_value(),
    {
        let n = self.value_stack.len();
        if n > 0 {
            Ok(self.value_stack[n - 1])
        } else {
            Err(Error::ValueStack)
        }
    }

    /// Takes the top off the value stack.
    pub fn pop_value(&mut self) -> (r: Result<RuntimeValue, Error>)
        ensures
            (final(self)@, r) == old(self)@.spec_pop_value(),
    {
        match self.value_stack.pop() {
            Some(v) => Ok(v),
            None => Err(Error::ValueStack),
        }
    }

    /// Takes the top off the value stack and fails, the top gone, if it
    /// is not of type `value_type`.
    pub fn pop_value_as(&mut self, value_type: ValueType) -> (r: Result<RuntimeValue, Error>)
        ensures
            (final(self)@, r) == old(self)@.spec_pop_value_as(value_type),
    {
        let v = self.pop_value()?;
        if v.value_type() == value_type {
            Ok(v)
        } else {
            Err(Error::ValueStack)
        }
    }

    /// Takes the two topmost values off the stack; the one that was on
    /// top comes second.
    pub fn pop_value_pair(&mut self) -> (r: Result<(RuntimeValue, RuntimeValue), Error>)
        ensures
            (final(self)@, r) == old(self)@.spec_pop_value_pair(),
    {
        let right = self.pop_value()?;
        let left = self.pop_value()?;
        Ok((left, right))
    }

    /// As `pop_value_pair`, with the check of `pop_value_as` on each value.
    pub fn pop_value_pair_as(&mut self, value_type: ValueType) -> (r: Result<
        (RuntimeValue, RuntimeValue),
        Error,
    >)
        ensures
            (final(self)@, r) == old(self)@.spec_pop_value_pair_as(value_type),
    {
        let right = self.pop_value_as(value_type)?;
        let left = self.pop_value_as(value_type)?;
        Ok((left, right))
    }

    /// Takes the three topmost values off the stack; the one that was on
    /// top comes last.
    pub fn pop_value_triple(&mut self) -> (r: Result<
        (RuntimeValue, RuntimeValue, RuntimeValue),
        Error,
    >)
        ensures
            (final(self)@, r) == old(self)@.spec_pop_value_triple(),
    {
        let right = self.pop_value()?;
        let mid = self.pop_value()?;
        let left = self.pop_value()?;
        Ok((left, mid, right))
    }

    /// Enters a block: pushes a frame that resumes at `position`, with the
    /// current depth of the value stack as its value limit.
    pub fn push_frame(&mut self, position: usize, signature: BlockType) -> (r: Result<(), Error>)
        ensures
            r is Ok,
            final(self)@ == old(self)@.spec_push_frame(position, signature),
    {
        self.frame_stack.push(
            BlockFrame {
                position: position,
                value_limit: self.value_stack.len(),
                signature: signature,
            },
        );
        Ok(())
    }

    /// Leaves the innermost block, as `Machine::spec_pop_frame` says. On
    /// success the value stack is as deep as the frame's value limit, and
    /// one deeper if the frame has a result.
    pub fn pop_frame(&mut self) -> (r: Result<(), Error>)
        ensures
            (final(self)@, r) == old(self)@.spec_pop_frame(),
            r is Ok ==> {
                let frame = old(self)@.frames.last();
                &&& old(self)@.frames.len() > 0
                &&& frame.value_limit <= old(self)@.values.len()
                &&& final(self)@.frames == old(self)@.frames.drop_last()
                &&& final(self)@.position == frame.position
                &&& final(self)@.values.len() == frame.value_limit + (if frame.signature
                    is Value {
                    1int
                } else {
                    0int
                })
            },
    {
        let frame = match self.frame_stack.pop() {
            Some(frame) => frame,
            None => {
                return Err(Error::FrameStack);
            },
        };
        if frame.value_limit > self.value_stack.len() {
            return Err(Error::FrameStack);
        }
        let frame_value = match frame.signature {
            BlockType::Value(_) => Some(self.pop_value()?),
            BlockType::NoResult => None,
        };
        let ghost before = self.value_stack@;
        self.value_stack.resize(frame.value_limit, RuntimeValue::I32(0));
        assert(self.value_stack@ =~= Machine::resized(before, frame.value_limit)) by {
            if frame.value_limit > before.len() {
                assert forall|i: int| 0 <= i < frame.value_limit implies self.value_stack@[i]
                    == Machine::resized(before, frame.value_limit)[i] by {
                    if i < before.len() {
                        assert(self.value_stack@.subrange(0, before.len() as int)[i] == before[i]);
                    }
                }
            }
        }
        self.position = frame.position;
        if let Some(frame_value) = frame_value {
            self.push_value(frame_value);
        }
        Ok(())
    }
}

/// 256 to the power `n`.
pub open spec fn pow256(n: nat) -> nat
    decreases n,
{
    if n == 0 {
        1
    } else {
        256 * pow256((n - 1) as nat)
    }
}

/// The `width` low-order bytes of `number`, least significant first.
pub open spec fn spec_to_little_endian_bytes(number: nat, width: nat) -> Seq<u8>
    decreases width,
{
    if width == 0 {
        Seq::empty()
    } else {
        seq![(number % 256) as u8] + spec_to_little_endian_bytes(number / 256, (width - 1) as nat)
    }
}

/// The number that `buffer` holds, least significant byte first.
pub open spec fn spec_from_little_endian_bytes(buffer: Seq<u8>) -> nat
    decreases buffer.len(),
{
    if buffer.len() == 0 {
        0
    } else {
        buffer[0] as nat + 256 * spec_from_little_endian_bytes(buffer.drop_first())
    }
}

/// A number of `n` bytes is below 256 to the `n`.
pub proof fn lemma_from_little_endian_bytes_bound(buffer: Seq<u8>)
    ensures
        spec_from_little_endian_bytes(buffer) < pow256(buffer.len()),
    decreases buffer.len(),
{
    if buffer.len() > 0 {
        lemma_from_little_endian_bytes_bound(buffer.drop_first());
    }
}

/// Writing a number in `width` bytes and reading it back gives the number
/// modulo 256 to the `width`.
pub proof fn lemma_little_endian_round_trip(number: nat, width: nat)
    ensures
        spec_to_little_endian_bytes(number, width).len() == width,
        spec_from_little_endian_bytes(spec_to_little_endian_bytes(number, width)) == number
            % pow256(width),
    decreases width,
{
    if width > 0 {
        let rest = spec_to_little_endian_bytes(number / 256, (width - 1) as nat);
        let all = spec_to_little_endian_bytes(number, width);
        lemma_little_endian_round_trip(number / 256, (width - 1) as nat);
        assert(all.drop_first() =~= rest);
        let p = pow256((width - 1) as nat);
        lemma_pow256_positive((width - 1) as nat);
        assert(number % (256 * p) == number % 256 + 256 * ((number / 256) % p)) by {
            vstd::arithmetic::div_mod::lemma_breakdown(number as int, 256, p as int);
        }
    }
}

/// 256 to any power is positive.
pub proof fn lemma_pow256_positive(n: nat)
    ensures
        pow256(n) > 0,
    decreases n,
{
    if n > 0 {
        lemma_pow256_positive((n - 1) as nat);
    }
}

/// The `width` low-order bytes of `number`, least significant first.
pub fn to_little_endian_bytes(number: u64, width: usize) -> (r: Vec<u8>)
    ensures
        r@ == spec_to_little_endian_bytes(number as nat, width as nat),
{
    let mut out: Vec<u8> = Vec::new();
    let mut rest = number;
    let mut i: usize = 0;
    while i < width
        invariant
            i <= width,
            out@.len() == i,
            out@ + spec_to_little_endian_bytes(rest as nat, (width - i) as nat)
                == spec_to_little_endian_bytes(number as nat, width as nat),
        decreases width - i,
    {
        let ghost before = out@;
        out.push((rest % 256) as u8);
        assert(before + (seq![(rest % 256) as u8] + spec_to_little_endian_bytes(
            (rest / 256) as nat,
            (width - i - 1) as nat,
        )) =~= out@ + spec_to_little_endian_bytes((rest / 256) as nat, (width - i - 1) as nat));
        rest = rest / 256;
        i = i + 1;
    }
    assert(out@ + Seq::<u8>::empty() =~= out@);
    out
}

/// The number that `buffer`, of at most 8 bytes, holds, least
/// significant byte first.
pub fn from_little_endian_bytes(buffer: &[u8]) -> (r: u64)
    requires
        buffer@.len() <= 8,
    ensures
        r == spec_from_little_endian_bytes(buffer@),
{
    let n = buffer.len();
    let mut number: u64 = 0;
    let mut i: usize = n;
    assert(buffer@.subrange(n as int, n as int) =~= Seq::<u8>::empty());
    while i > 0
        invariant
            i <= n,
            n == buffer@.len(),
            n <= 8,
            number == spec_from_little_endian_bytes(buffer@.subrange(i as int, n as int)),
        decreases i,
    {
        let ghost tail = buffer@.subrange(i as int, n as int);
        let ghost next = buffer@.subrange(i - 1, n as int);
        proof {
            lemma_from_little_endian_bytes_bound(tail);
            assert(next.drop_first() =~= tail);
            assert(next[0] == buffer@[i - 1]);
            lemma_from_little_endian_bytes_bound(next);
            lemma_pow256_8();
            lemma_pow256_monotonic(next.len(), 8);
        }
        i = i - 1;
        number = number * 256 + buffer[i] as u64;
    }
    assert(buffer@.subrange(0, n as int) =~= buffer@);
    number
}

/// 256 to the 8 is 2 to the 64.
pub proof fn lemma_pow256_8()
    ensures
        pow256(8) == 0x1_0000_0000_0000_0000,
        pow256(4) == 0x1_0000_0000,
        pow256(2) == 0x1_0000,
        pow256(1) == 0x100,
{
    reveal_with_fuel(pow256, 9);
}

/// 256 to the `a` is at most 256 to the `b` for `a <= b`.
pub proof fn lemma_pow256_monotonic(a: nat, b: nat)
    requires
        a <= b,
    ensures
        pow256(a) <= pow256(b),
    decreases b,
{
    if a < b {
        lemma_pow256_monotonic(a, (b - 1) as nat);
        lemma_pow256_positive((b - 1) as nat);
    }
}

/// The address that an access at `offset` from `base` lands at: their
/// sum, or a trap where the sum is no 32-bit address.
pub open spec fn spec_effective_address(base: u32, offset: u32) -> Result<u32, Error> {
    if base + offset > u32::MAX {
        Err(Error::Trap)
    } else {
        Ok((base + offset) as u32)
    }
}

/// The address that an access at `offset` from `base` lands at. Traps
/// where the sum overflows 32 bits.
pub fn effective_address(base: u32, offset: u32) -> (r: Result<u32, Error>)
    ensures
        r == spec_effective_address(base, offset),
{
    if base > u32::MAX - offset {
        Err(Error::Trap)
    } else {
        Ok(base + offset)
    }
}

impl Machine {
    /// Whether `after` differs from this state in nothing that steers
    /// the dispatcher: the same frames, budget and position, and a
    /// well-formed module if it was one.
    pub open spec fn steady(self, after: Machine) -> bool {
        &&& after.frames == self.frames
        &&& after.budget == self.budget
        &&& after.position == self.position
        &&& self.wf() ==> after.wf()
    }

    /// An instruction with one operand of type `value_type`: the operand
    /// is popped, and what `f` makes of it is pushed.
    pub open spec fn unary(
        self,
        value_type: ValueType,
        f: spec_fn(RuntimeValue) -> Result<RuntimeValue, Error>,
    ) -> Step<InstructionOutcome> {
        let (m, r) = self.spec_pop_value_as(value_type);
        match r {
            Err(e) => (m, Err(e)),
            Ok(v) => match f(v) {
                Err(e) => (m, Err(e)),
                Ok(out) => (m.spec_push_value(out), Ok(InstructionOutcome::RunNextInstruction)),
            },
        }
    }

    /// An instruction with two operands of type `value_type`: they are
    /// popped, the second first, and what `f` makes of them is pushed.
    pub open spec fn binary(
        self,
        value_type: ValueType,
        f: spec_fn(RuntimeValue, RuntimeValue) -> Result<RuntimeValue, Error>,
    ) -> Step<InstructionOutcome> {
        let (m, r) = self.spec_pop_value_pair_as(value_type);
        match r {
            Err(e) => (m, Err(e)),
            Ok(pair) => match f(pair.0, pair.1) {
                Err(e) => (m, Err(e)),
                Ok(out) => (m.spec_push_value(out), Ok(InstructionOutcome::RunNextInstruction)),
            },
        }
    }

    /// Pops the base of a memory access and adds `offset` to it.
    pub open spec fn spec_pop_address(self, offset: u32) -> Step<u32> {
        let (m, r) = self.spec_pop_value_as(ValueType::I32);
        match r {
            Err(e) => (m, Err(e)),
            Ok(base) => match base.spec_try_into_u32() {
                Err(e) => (m, Err(e)),
                Ok(base) => (m, spec_effective_address(base, offset)),
            },
        }
    }

    /// Pops a condition: an `I32`, true unless zero.
    pub open spec fn spec_pop_condition(self) -> Step<bool> {
        let (m, r) = self.spec_pop_value_as(ValueType::I32);
        match r {
            Err(e) => (m, Err(e)),
            Ok(v) => (m, v.spec_try_into_bool()),
        }
    }
}

impl FunctionContext {
    /// Pops the base of a memory access and adds `offset` to it. Traps
    /// where the sum overflows 32 bits.
    pub fn pop_address(&mut self, offset: u32) -> (r: Result<u32, Error>)
        ensures
            (final(self)@, r) == old(self)@.spec_pop_address(offset),
    {
        let base = self.pop_value_as(ValueType::I32)?.try_into_u32()?;
        effective_address(base, offset)
    }

    /// Pops a condition: an `I32`, true unless zero.
    pub fn pop_condition(&mut self) -> (r: Result<bool, Error>)
        ensures
            (final(self)@, r) == old(self)@.spec_pop_condition(),
    {
        self.pop_value_as(ValueType::I32)?.try_into_bool()
    }
}

impl Interpreter {

    pub open spec fn spec_run_unreachable(m: Machine) -> Step<InstructionOutcome> {
        (m, Err(Error::Trap))
    }

    /// `unreachable`: traps.
    pub fn run_unreachable(context: &mut FunctionContext) -> (r: Result<InstructionOutcome, Error>)
        ensures
            (final(context)@, r) == Self::spec_run_unreachable(old(context)@),
            old(context)@.steady(final(context)@),
    {
        Err(Error::Trap)
    }

    pub open spec fn spec_run_nop(m: Machine) -> Step<InstructionOutcome> {
        (m, Ok(InstructionOutcome::RunNextInstruction))
    }

    /// `nop`: does nothing.
    pub fn run_nop(context: &mut FunctionContext) -> (r: Result<InstructionOutcome, Error>)
        ensures
            (final(context)@, r) == Self::spec_run_nop(old(context)@),
            old(context)@.steady(final(context)@),
    {
        Ok(InstructionOutcome::RunNextInstruction)
    }

    pub open spec fn spec_run_else(m: Machine) -> Step<InstructionOutcome> {
        (m, Ok(InstructionOutcome::PopFrame(0)))
    }

    /// `else`: ends the first arm of an `if`; the dispatcher leaves the block.
    pub fn run_else(context: &mut FunctionContext) -> (r: Result<InstructionOutcome, Error>)
        ensures
            (final(context)@, r) == Self::spec_run_else(old(context)@),
            old(context)@.steady(final(context)@),
    {
        Ok(InstructionOutcome::PopFrame(0))
    }

    pub open spec fn spec_run_end(m: Machine) -> Step<InstructionOutcome> {
        (m, Ok(InstructionOutcome::PopFrame(0)))
    }

    /// `end`: ends a block; the dispatcher leaves it.
    pub fn run_end(context: &mut FunctionContext) -> (r: Result<InstructionOutcome, Error>)
        ensures
            (final(context)@, r) == Self::spec_run_end(old(context)@),
            old(context)@.steady(final(context)@),
    {
        Ok(InstructionOutcome::PopFrame(0))
    }

    pub open spec fn spec_run_br(m: Machine, label_idx: u32) -> Step<InstructionOutcome> {
        (m, Ok(InstructionOutcome::PopFrame(label_idx as usize)))
    }

    /// `br`: leaves `label_idx + 1` blocks.
    pub fn run_br(context: &mut FunctionContext, label_idx: u32) -> (r: Result<InstructionOutcome, Error>)
        ensures
            (final(context)@, r) == Self::spec_run_br(old(context)@, label_idx),
            old(context)@.steady(final(context)@),
    {
        Ok(InstructionOutcome::PopFrame(label_idx as usize))
    }

    pub open spec fn spec_run_br_if(m: Machine, label_idx: u32) -> Step<InstructionOutcome> {
        let (m1, r) = m.spec_pop_condition();
        match r {
            Err(e) => (m1, Err(e)),
            Ok(condition) => if condition {
                (m1, Ok(InstructionOutcome::PopFrame(label_idx as usize)))
            } else {
                (m1, Ok(InstructionOutcome::RunNextInstruction))
            },
        }
    }

    /// `br_if`: pops a condition and branches as `br` if it is not zero.
    pub fn run_br_if(context: &mut FunctionContext, label_idx: u32) -> (r: Result<InstructionOutcome, Error>)
        ensures
            (final(context)@, r) == Self::spec_run_br_if(old(context)@, label_idx),
            old(context)@.steady(final(context)@),
    {
        if context.pop_condition()? {
            Ok(InstructionOutcome::PopFrame(label_idx as usize))
        } else {
            Ok(InstructionOutcome::RunNextInstruction)
        }
    }

    pub open spec fn spec_run_br_table(m: Machine, table: Seq<u32>, default: u32) -> Step<InstructionOutcome> {
        let (m1, r) = m.spec_pop_value_as(ValueType::I32);
        match r {
            Err(e) => (m1, Err(e)),
            Ok(v) => match v.spec_try_into_u32() {
                Err(e) => (m1, Err(e)),
                Ok(index) => if index < table.len() {
                    (m1, Ok(InstructionOutcome::PopFrame(table[index as int] as usize)))
                } else {
                    (m1, Ok(InstructionOutcome::PopFrame(default as usize)))
                },
            },
        }
    }

    /// `br_table`: pops an index and branches as `br` to the label that the
    /// table has at the index, or to `default` where the table has none.
    pub fn run_br_table(context: &mut FunctionContext, table: &Vec<u32>, default: u32) -> (r: Result<InstructionOutcome, Error>)
        ensures
            (final(context)@, r) == Self::spec_run_br_table(old(context)@, table@, default),
            old(context)@.steady(final(context)@),
    {
        let index = context.pop_value_as(ValueType::I32)?.try_into_u32()?;
        if (index as usize) < table.len() {
            Ok(InstructionOutcome::PopFrame(table[index as usize] as usize))
        } else {
            Ok(InstructionOutcome::PopFrame(default as usize))
        }
    }

    pub open spec fn spec_run_return(m: Machine) -> Step<InstructionOutcome> {
        (m, Ok(InstructionOutcome::Return))
    }

    /// `return`: the dispatcher leaves every block of the function.
    pub fn run_return(context: &mut FunctionContext) -> (r: Result<InstructionOutcome, Error>)
        ensures
            (final(context)@, r) == Self::spec_run_return(old(context)@),
            old(context)@.steady(final(context)@),
    {
        Ok(InstructionOutcome::Return)
    }

    pub open spec fn spec_run_call(m: Machine, func_idx: u32) -> Step<InstructionOutcome> {
        (m, Err(Error::NotImplemented))
    }

    /// `call`: calls across functions are not executed.
    pub fn run_call(context: &mut FunctionContext, func_idx: u32) -> (r: Result<InstructionOutcome, Error>)
        ensures
            (final(context)@, r) == Self::spec_run_call(old(context)@, func_idx),
            old(context)@.steady(final(context)@),
    {
        Err(Error::NotImplemented)
    }

    pub open spec fn spec_run_call_indirect(m: Machine, type_idx: u32) -> Step<InstructionOutcome> {
        (m, Err(Error::NotImplemented))
    }

    /// `call_indirect`: calls across functions are not executed.
    pub fn run_call_indirect(context: &mut FunctionContext, type_idx: u32) -> (r: Result<InstructionOutcome, Error>)
        ensures
            (final(context)@, r) == Self::spec_run_call_indirect(old(context)@, type_idx),
            old(context)@.steady(final(context)@),
    {
        Err(Error::NotImplemented)
    }

    pub open spec fn spec_run_drop(m: Machine) -> Step<InstructionOutcome> {
        let (m1, r) = m.spec_pop_value();
        match r {
            Err(e) => (m1, Err(e)),
            Ok(_) => (m1, Ok(InstructionOutcome::RunNextInstruction)),
        }
    }

    /// `drop`: pops a value.
    pub fn run_drop(context: &mut FunctionContext) -> (r: Result<InstructionOutcome, Error>)
        ensures
            (final(context)@, r) == Self::spec_run_drop(old(context)@),
            old(context)@.steady(final(context)@),
    {
        context.pop_value()?;
        Ok(InstructionOutcome::RunNextInstruction)
    }

    pub open spec fn spec_run_select(m: Machine) -> Step<InstructionOutcome> {
        let (m1, r) = m.spec_pop_value_triple();
        match r {
            Err(e) => (m1, Err(e)),
            Ok(triple) => match triple.2.spec_try_into_bool() {
                Err(_) => (m1, Err(Error::ValueStack)),
                Ok(condition) => (
                    m1.spec_push_value(if condition { triple.0 } else { triple.1 }),
                    Ok(InstructionOutcome::RunNextInstruction),
                ),
            },
        }
    }

    /// `select`: pops two values and a condition on top of them, and pushes
    /// the first value if the condition is not zero, else the second.
    pub fn run_select(context: &mut FunctionContext) -> (r: Result<InstructionOutcome, Error>)
        ensures
            (final(context)@, r) == Self::spec_run_select(old(context)@),
            old(context)@.steady(final(context)@),
    {
        let (left, mid, right) = context.pop_value_triple()?;
        match right.try_into_bool() {
            Err(_) => Err(Error::ValueStack),
            Ok(condition) => {
                context.push_value(if condition { left } else { mid })?;
                Ok(InstructionOutcome::RunNextInstruction)
            },
        }
    }

    pub open spec fn spec_run_get_local(m: Machine, index: u32) -> Step<InstructionOutcome> {
        match m.spec_get_local(index as usize) {
            Err(e) => (m, Err(e)),
            Ok(v) => (m.spec_push_value(v), Ok(InstructionOutcome::RunNextInstruction)),
        }
    }

    /// `get_local`: pushes the local at `index`.
    pub fn run_get_local(context: &mut FunctionContext, index: u32) -> (r: Result<InstructionOutcome, Error>)
        ensures
            (final(context)@, r) == Self::spec_run_get_local(old(context)@, index),
            old(context)@.steady(final(context)@),
    {
        let value = context.get_local(index as usize)?;
        context.push_value(value)?;
        Ok(InstructionOutcome::RunNextInstruction)
    }

    pub open spec fn spec_run_set_local(m: Machine, index: u32) -> Step<InstructionOutcome> {
        let (m1, r) = m.spec_pop_value();
        match r {
            Err(e) => (m1, Err(e)),
            Ok(v) => m1.spec_set_local(index as usize, v),
        }
    }

    /// `set_local`: pops a value into the local at `index`.
    pub fn run_set_local(context: &mut FunctionContext, index: u32) -> (r: Result<InstructionOutcome, Error>)
        ensures
            (final(context)@, r) == Self::spec_run_set_local(old(context)@, index),
            old(context)@.steady(final(context)@),
    {
        let arg = context.pop_value()?;
        context.set_local(index as usize, arg)
    }

    pub open spec fn spec_run_tee_local(m: Machine, index: u32) -> Step<InstructionOutcome> {
        match m.spec_top_value() {
            Err(e) => (m, Err(e)),
            Ok(v) => m.spec_set_local(index as usize, v),
        }
    }

    /// `tee_local`: copies the top of the stack into the local at `index`.
    pub fn run_tee_local(context: &mut FunctionContext, index: u32) -> (r: Result<InstructionOutcome, Error>)
        ensures
            (final(context)@, r) == Self::spec_run_tee_local(old(context)@, index),
            old(context)@.steady(final(context)@),
    {
        let arg = context.top_value()?;
        context.set_local(index as usize, arg)
    }

    pub open spec fn spec_run_get_global(m: Machine, index: u32) -> Step<InstructionOutcome> {
        if index < m.module.globals.len() {
            (m.spec_push_value(m.module.globals[index as int].spec_get()), Ok(InstructionOutcome::RunNextInstruction))
        } else {
            (m, Err(Error::Global))
        }
    }

    /// `get_global`: pushes the value of the global at `index`.
    pub fn run_get_global(context: &mut FunctionContext, index: u32) -> (r: Result<InstructionOutcome, Error>)
        ensures
            (final(context)@, r) == Self::spec_run_get_global(old(context)@, index),
            old(context)@.steady(final(context)@),
    {
        let global = context.module.global(index)?;
        context.push_value(global.get())?;
        Ok(InstructionOutcome::RunNextInstruction)
    }

    pub open spec fn spec_run_set_global(m: Machine, index: u32) -> Step<InstructionOutcome> {
        let (m1, r) = m.spec_pop_value();
        match r {
            Err(e) => (m1, Err(e)),
            Ok(v) => {
                let (module, r) = ModuleInstance::spec_set_global(m1.module, index, v);
                match r {
                    Err(e) => (m1, Err(e)),
                    Ok(_) => (m1.with_module(module), Ok(InstructionOutcome::RunNextInstruction)),
                }
            },
        }
    }

    /// `set_global`: pops a value into the global at `index`. Traps if the
    /// global is immutable.
    pub fn run_set_global(context: &mut FunctionContext, index: u32) -> (r: Result<InstructionOutcome, Error>)
        ensures
            (final(context)@, r) == Self::spec_run_set_global(old(context)@, index),
            old(context)@.steady(final(context)@),
    {
        let value = context.pop_value()?;
        context.module.set_global(index, value)?;
        Ok(InstructionOutcome::RunNextInstruction)
    }

    pub open spec fn spec_run_load(m: Machine, value_type: ValueType, offset: u32, align: u32) -> Step<InstructionOutcome> {
        let (m1, r) = m.spec_pop_address(offset);
        match r {
            Err(e) => (m1, Err(e)),
            Ok(address) => match ModuleInstance::spec_memory_get(
                m1.module,
                DEFAULT_MEMORY_INDEX,
                address,
                RuntimeValue::spec_width(value_type) as int,
            ) {
                Err(e) => (m1, Err(e)),
                Ok(bytes) => (
                    m1.spec_push_value(
                        RuntimeValue::spec_from_bits(
                            value_type,
                            spec_from_little_endian_bytes(bytes) as u64,
                        ),
                    ),
                    Ok(InstructionOutcome::RunNextInstruction),
                ),
            },
        }
    }

    /// `load`: pops the base address and pushes the value of type
    /// `value_type` whose bytes stand at base plus `offset`, least significant
    /// first. `align` is a hint and is not read.
    pub fn run_load(context: &mut FunctionContext, value_type: ValueType, offset: u32, align: u32) -> (r: Result<InstructionOutcome, Error>)
        ensures
            (final(context)@, r) == Self::spec_run_load(old(context)@, value_type, offset, align),
            old(context)@.steady(final(context)@),
    {
        let address = context.pop_address(offset)?;
        let bytes = context.module.memory_get(DEFAULT_MEMORY_INDEX, address, RuntimeValue::width(value_type))?;
        let raw = from_little_endian_bytes(bytes.as_slice());
        context.push_value(RuntimeValue::from_bits(value_type, raw))?;
        Ok(InstructionOutcome::RunNextInstruction)
    }

    pub open spec fn spec_run_load_extend(m: Machine, value_type: ValueType, width: usize, signed: bool, offset: u32, align: u32) -> Step<InstructionOutcome> {
        if width != 1 && width != 2 && width != 4 {
            (m, Err(Error::Interpreter))
        } else {
            let (m1, r) = m.spec_pop_address(offset);
            match r {
                Err(e) => (m1, Err(e)),
                Ok(address) => match ModuleInstance::spec_memory_get(
                    m1.module,
                    DEFAULT_MEMORY_INDEX,
                    address,
                    width as int,
                ) {
                    Err(e) => (m1, Err(e)),
                    Ok(bytes) => match RuntimeValue::spec_extend_narrow(
                        value_type,
                        spec_from_little_endian_bytes(bytes) as u64,
                        width,
                        signed,
                    ) {
                        Err(e) => (m1, Err(e)),
                        Ok(v) => (m1.spec_push_value(v), Ok(InstructionOutcome::RunNextInstruction)),
                    },
                },
            }
        }
    }

    /// The narrow loads: pops the base address, reads `width` bytes (1, 2
    /// or 4) at base plus `offset`, and pushes the integer of type
    /// `value_type` that they extend to, by sign if `signed`, by zeros if not.
    pub fn run_load_extend(context: &mut FunctionContext, value_type: ValueType, width: usize, signed: bool, offset: u32, align: u32) -> (r: Result<InstructionOutcome, Error>)
        ensures
            (final(context)@, r) == Self::spec_run_load_extend(old(context)@, value_type, width, signed, offset, align),
            old(context)@.steady(final(context)@),
    {
        if width != 1 && width != 2 && width != 4 {
            return Err(Error::Interpreter);
        }
        let address = context.pop_address(offset)?;
        let bytes = context.module.memory_get(DEFAULT_MEMORY_INDEX, address, width)?;
        let raw = from_little_endian_bytes(bytes.as_slice());
        let value = RuntimeValue::extend_narrow(value_type, raw, width, signed)?;
        context.push_value(value)?;
        Ok(InstructionOutcome::RunNextInstruction)
    }

    pub open spec fn spec_run_store(m: Machine, value_type: ValueType, offset: u32, align: u32) -> Step<InstructionOutcome> {
        Self::spec_run_store_wrap(m, value_type, RuntimeValue::spec_width(value_type), offset, align)
    }

    /// `store`: pops a value of type `value_type` and the base address, and
    /// stores the bytes of the value at base plus `offset`, least significant
    /// first. `align` is a hint and is not read.
    pub fn run_store(context: &mut FunctionContext, value_type: ValueType, offset: u32, align: u32) -> (r: Result<InstructionOutcome, Error>)
        ensures
            (final(context)@, r) == Self::spec_run_store(old(context)@, value_type, offset, align),
            old(context)@.steady(final(context)@),
    {
        Self::run_store_wrap(context, value_type, RuntimeValue::width(value_type), offset, align)
    }

    pub open spec fn spec_run_store_wrap(m: Machine, value_type: ValueType, width: usize, offset: u32, align: u32) -> Step<InstructionOutcome> {
        let (m1, r) = m.spec_pop_value_as(value_type);
        match r {
            Err(e) => (m1, Err(e)),
            Ok(v) => {
                let (m2, r) = m1.spec_pop_address(offset);
                match r {
                    Err(e) => (m2, Err(e)),
                    Ok(address) => {
                        let (module, r) = ModuleInstance::spec_memory_set(
                            m2.module,
                            DEFAULT_MEMORY_INDEX,
                            address,
                            spec_to_little_endian_bytes(v.spec_bits() as nat, width as nat),
                        );
                        match r {
                            Err(e) => (m2, Err(e)),
                            Ok(_) => (m2.with_module(module), Ok(InstructionOutcome::RunNextInstruction)),
                        }
                    },
                }
            },
        }
    }

    /// The narrow stores: pops a value of type `value_type` and the base
    /// address, and stores the `width` low-order bytes of the value at base
    /// plus `offset`, least significant first.
    pub fn run_store_wrap(context: &mut FunctionContext, value_type: ValueType, width: usize, offset: u32, align: u32) -> (r: Result<InstructionOutcome, Error>)
        ensures
            (final(context)@, r) == Self::spec_run_store_wrap(old(context)@, value_type, width, offset, align),
            old(context)@.steady(final(context)@),
    {
        let value = context.pop_value_as(value_type)?;
        let address = context.pop_address(offset)?;
        let bytes = to_little_endian_bytes(value.bits(), width);
        context.module.memory_set(DEFAULT_MEMORY_INDEX, address, bytes.as_slice())?;
        Ok(InstructionOutcome::RunNextInstruction)
    }

    pub open spec fn spec_run_current_memory(m: Machine) -> Step<InstructionOutcome> {
        match ModuleInstance::spec_memory_size(m.module, DEFAULT_MEMORY_INDEX) {
            Err(e) => (m, Err(e)),
            Ok(pages) => (m.spec_push_value(RuntimeValue::I32(pages as i32)), Ok(InstructionOutcome::RunNextInstruction)),
        }
    }

    /// `current_memory`: pushes the size of the memory in pages, as an `I32`.
    pub fn run_current_memory(context: &mut FunctionContext) -> (r: Result<InstructionOutcome, Error>)
        requires
            old(context)@.wf(),
        ensures
            (final(context)@, r) == Self::spec_run_current_memory(old(context)@),
            old(context)@.steady(final(context)@),
    {
        let pages = context.module.memory_size(DEFAULT_MEMORY_INDEX)?;
        context.push_value(RuntimeValue::I32(pages as i32))?;
        Ok(InstructionOutcome::RunNextInstruction)
    }

    pub open spec fn spec_run_grow_memory(m: Machine) -> Step<InstructionOutcome> {
        let (m1, r) = m.spec_pop_value_as(ValueType::I32);
        match r {
            Err(e) => (m1, Err(e)),
            Ok(v) => match v.spec_try_into_u32() {
                Err(e) => (m1, Err(e)),
                Ok(delta) => {
                    let (module, r) = ModuleInstance::spec_memory_grow(m1.module, DEFAULT_MEMORY_INDEX, delta);
                    match r {
                        Err(e) => (m1, Err(e)),
                        Ok(before) => (
                            m1.with_module(module).spec_push_value(RuntimeValue::I32(before)),
                            Ok(InstructionOutcome::RunNextInstruction),
                        ),
                    }
                },
            },
        }
    }

    /// `grow_memory`: pops a number of pages, grows the memory by it, and
    /// pushes the size before, in pages, or -1 where the memory cannot grow so far.
    pub fn run_grow_memory(context: &mut FunctionContext) -> (r: Result<InstructionOutcome, Error>)
        requires
            old(context)@.wf(),
        ensures
            (final(context)@, r) == Self::spec_run_grow_memory(old(context)@),
            old(context)@.steady(final(context)@),
    {
        let delta = context.pop_value_as(ValueType::I32)?.try_into_u32()?;
        let before = context.module.memory_grow(DEFAULT_MEMORY_INDEX, delta)?;
        context.push_value(RuntimeValue::I32(before))?;
        Ok(InstructionOutcome::RunNextInstruction)
    }

    pub open spec fn spec_run_const(m: Machine, val: RuntimeValue) -> Step<InstructionOutcome> {
        (m.spec_push_value(val), Ok(InstructionOutcome::RunNextInstruction))
    }

    /// The constants: pushes `val`.
    pub fn run_const(context: &mut FunctionContext, val: RuntimeValue) -> (r: Result<InstructionOutcome, Error>)
        ensures
            (final(context)@, r) == Self::spec_run_const(old(context)@, val),
            old(context)@.steady(final(context)@),
    {
        context.push_value(val)?;
        Ok(InstructionOutcome::RunNextInstruction)
    }

    pub open spec fn spec_run_eqz(m: Machine, value_type: ValueType) -> Step<InstructionOutcome> {
        m.unary(value_type, |v: RuntimeValue| v.spec_eqz())
    }

    /// `eqz`: pops an integer and pushes 1 if it is zero, else 0.
    pub fn run_eqz(context: &mut FunctionContext, value_type: ValueType) -> (r: Result<InstructionOutcome, Error>)
        ensures
            (final(context)@, r) == Self::spec_run_eqz(old(context)@, value_type),
            old(context)@.steady(final(context)@),
    {
        let v = context.pop_value_as(value_type)?;
        let out = v.eqz()?;
        context.push_value(out)?;
        Ok(InstructionOutcome::RunNextInstruction)
    }

    pub open spec fn spec_run_eq(m: Machine, value_type: ValueType) -> Step<InstructionOutcome> {
        m.binary(value_type, |left: RuntimeValue, right: RuntimeValue| left.spec_eq(right))
    }

    /// `eq`: pops two values and pushes 1 if they are equal, else 0.
    pub fn run_eq(context: &mut FunctionContext, value_type: ValueType) -> (r: Result<InstructionOutcome, Error>)
        ensures
            (final(context)@, r) == Self::spec_run_eq(old(context)@, value_type),
            old(context)@.steady(final(context)@),
    {
        let (left, right) = context.pop_value_pair_as(value_type)?;
        let out = left.eq(right)?;
        context.push_value(out)?;
        Ok(InstructionOutcome::RunNextInstruction)
    }

    pub open spec fn spec_run_ne(m: Machine, value_type: ValueType) -> Step<InstructionOutcome> {
        m.binary(value_type, |left: RuntimeValue, right: RuntimeValue| left.spec_ne(right))
    }

    /// `ne`: pops two values and pushes 1 if they differ, else 0.
    pub fn run_ne(context: &mut FunctionContext, value_type: ValueType) -> (r: Result<InstructionOutcome, Error>)
        ensures
            (final(context)@, r) == Self::spec_run_ne(old(context)@, value_type),
            old(context)@.steady(final(context)@),
    {
        let (left, right) = context.pop_value_pair_as(value_type)?;
        let out = left.ne(right)?;
        context.push_value(out)?;
        Ok(InstructionOutcome::RunNextInstruction)
    }

    pub open spec fn spec_run_lt(m: Machine, value_type: ValueType, signed: bool) -> Step<InstructionOutcome> {
        m.binary(value_type, |left: RuntimeValue, right: RuntimeValue| left.spec_lt(right, signed))
    }

    /// `lt`: pops two values and pushes 1 if the first is less than the
    /// second, else 0. Integers are compared as signed numbers if `signed`.
    pub fn run_lt(context: &mut FunctionContext, value_type: ValueType, signed: bool) -> (r: Result<InstructionOutcome, Error>)
        ensures
            (final(context)@, r) == Self::spec_run_lt(old(context)@, value_type, signed),
            old(context)@.steady(final(context)@),
    {
        let (left, right) = context.pop_value_pair_as(value_type)?;
        let out = left.lt(right, signed)?;
        context.push_value(out)?;
        Ok(InstructionOutcome::RunNextInstruction)
    }

    pub open spec fn spec_run_gt(m: Machine, value_type: ValueType, signed: bool) -> Step<InstructionOutcome> {
        m.binary(value_type, |left: RuntimeValue, right: RuntimeValue| left.spec_gt(right, signed))
    }

    /// `gt`: pops two values and pushes 1 if the first is greater than the
    /// second, else 0. Integers are compared as signed numbers if `signed`.
    pub fn run_gt(context: &mut FunctionContext, value_type: ValueType, signed: bool) -> (r: Result<InstructionOutcome, Error>)
        ensures
            (final(context)@, r) == Self::spec_run_gt(old(context)@, value_type, signed),
            old(context)@.steady(final(context)@),
    {
        let (left, right) = context.pop_value_pair_as(value_type)?;
        let out = left.gt(right, signed)?;
        context.push_value(out)?;
        Ok(InstructionOutcome::RunNextInstruction)
    }

    pub open spec fn spec_run_lte(m: Machine, value_type: ValueType, signed: bool) -> Step<InstructionOutcome> {
        m.binary(value_type, |left: RuntimeValue, right: RuntimeValue| left.spec_lte(right, signed))
    }

    /// `le`: pops two values and pushes 1 if the first is at most the
    /// second, else 0. Integers are compared as signed numbers if `signed`.
    pub fn run_lte(context: &mut FunctionContext, value_type: ValueType, signed: bool) -> (r: Result<InstructionOutcome, Error>)
        ensures
            (final(context)@, r) == Self::spec_run_lte(old(context)@, value_type, signed),
            old(context)@.steady(final(context)@),
    {
        let (left, right) = context.pop_value_pair_as(value_type)?;
        let out = left.lte(right, signed)?;
        context.push_value(out)?;
        Ok(InstructionOutcome::RunNextInstruction)
    }

    pub open spec fn spec_run_gte(m: Machine, value_type: ValueType, signed: bool) -> Step<InstructionOutcome> {
        m.binary(value_type, |left: RuntimeValue, right: RuntimeValue| left.spec_gte(right, signed))
    }

    /// `ge`: pops two values and pushes 1 if the first is at least the
    /// second, else 0. Integers are compared as signed numbers if `signed`.
    pub fn run_gte(context: &mut FunctionContext, value_type: ValueType, signed: bool) -> (r: Result<InstructionOutcome, Error>)
        ensures
            (final(context)@, r) == Self::spec_run_gte(old(context)@, value_type, signed),
            old(context)@.steady(final(context)@),
    {
        let (left, right) = context.pop_value_pair_as(value_type)?;
        let out = left.gte(right, signed)?;
        context.push_value(out)?;
        Ok(InstructionOutcome::RunNextInstruction)
    }

    pub open spec fn spec_run_clz(m: Machine, value_type: ValueType) -> Step<InstructionOutcome> {
        m.unary(value_type, |v: RuntimeValue| v.spec_clz())
    }

    /// `clz`: pops an integer and pushes the number of its leading zero bits.
    pub fn run_clz(context: &mut FunctionContext, value_type: ValueType) -> (r: Result<InstructionOutcome, Error>)
        ensures
            (final(context)@, r) == Self::spec_run_clz(old(context)@, value_type),
            old(context)@.steady(final(context)@),
    {
        let v = context.pop_value_as(value_type)?;
        let out = v.clz()?;
        context.push_value(out)?;
        Ok(InstructionOutcome::RunNextInstruction)
    }

    pub open spec fn spec_run_ctz(m: Machine, value_type: ValueType) -> Step<InstructionOutcome> {
        m.unary(value_type, |v: RuntimeValue| v.spec_ctz())
    }

    /// `ctz`: pops an integer and pushes the number of its trailing zero bits.
    pub fn run_ctz(context: &mut FunctionContext, value_type: ValueType) -> (r: Result<InstructionOutcome, Error>)
        ensures
            (final(context)@, r) == Self::spec_run_ctz(old(context)@, value_type),
            old(context)@.steady(final(context)@),
    {
        let v = context.pop_value_as(value_type)?;
        let out = v.ctz()?;
        context.push_value(out)?;
        Ok(InstructionOutcome::RunNextInstruction)
    }

    pub open spec fn spec_run_popcnt(m: Machine, value_type: ValueType) -> Step<InstructionOutcome> {
        m.unary(value_type, |v: RuntimeValue| v.spec_popcnt())
    }

    /// `popcnt`: pops an integer and pushes the number of its one bits.
    pub fn run_popcnt(context: &mut FunctionContext, value_type: ValueType) -> (r: Result<InstructionOutcome, Error>)
        ensures
            (final(context)@, r) == Self::spec_run_popcnt(old(context)@, value_type),
            old(context)@.steady(final(context)@),
    {
        let v = context.pop_value_as(value_type)?;
        let out = v.popcnt()?;
        context.push_value(out)?;
        Ok(InstructionOutcome::RunNextInstruction)
    }

    pub open spec fn spec_run_add(m: Machine, value_type: ValueType) -> Step<InstructionOutcome> {
        m.binary(value_type, |left: RuntimeValue, right: RuntimeValue| left.spec_add(right))
    }

    /// `add`: pops two values and pushes their sum.
    pub fn run_add(context: &mut FunctionContext, value_type: ValueType) -> (r: Result<InstructionOutcome, Error>)
        ensures
            (final(context)@, r) == Self::spec_run_add(old(context)@, value_type),
            old(context)@.steady(final(context)@),
    {
        let (left, right) = context.pop_value_pair_as(value_type)?;
        let out = left.add(right)?;
        context.push_value(out)?;
        Ok(InstructionOutcome::RunNextInstruction)
    }

    pub open spec fn spec_run_sub(m: Machine, value_type: ValueType) -> Step<InstructionOutcome> {
        m.binary(value_type, |left: RuntimeValue, right: RuntimeValue| left.spec_sub(right))
    }

    /// `sub`: pops two values and pushes the first less the second.
    pub fn run_sub(context: &mut FunctionContext, value_type: ValueType) -> (r: Result<InstructionOutcome, Error>)
        ensures
            (final(context)@, r) == Self::spec_run_sub(old(context)@, value_type),
            old(context)@.steady(final(context)@),
    {
        let (left, right) = context.pop_value_pair_as(value_type)?;
        let out = left.sub(right)?;
        context.push_value(out)?;
        Ok(InstructionOutcome::RunNextInstruction)
    }

    pub open spec fn spec_run_mul(m: Machine, value_type: ValueType) -> Step<InstructionOutcome> {
        m.binary(value_type, |left: RuntimeValue, right: RuntimeValue| left.spec_mul(right))
    }

    /// `mul`: pops two values and pushes their product.
    pub fn run_mul(context: &mut FunctionContext, value_type: ValueType) -> (r: Result<InstructionOutcome, Error>)
        ensures
            (final(context)@, r) == Self::spec_run_mul(old(context)@, value_type),
            old(context)@.steady(final(context)@),
    {
        let (left, right) = context.pop_value_pair_as(value_type)?;
        let out = left.mul(right)?;
        context.push_value(out)?;
        Ok(InstructionOutcome::RunNextInstruction)
    }

    pub open spec fn spec_run_div(m: Machine, value_type: ValueType, signed: bool) -> Step<InstructionOutcome> {
        m.binary(value_type, |left: RuntimeValue, right: RuntimeValue| left.spec_div(right, signed))
    }

    /// `div`: pops two values and pushes the first divided by the second.
    /// On integers it traps on a zero divisor and, if `signed`, on the
    /// quotient that is out of range.
    pub fn run_div(context: &mut FunctionContext, value_type: ValueType, signed: bool) -> (r: Result<InstructionOutcome, Error>)
        ensures
            (final(context)@, r) == Self::spec_run_div(old(context)@, value_type, signed),
            old(context)@.steady(final(context)@),
    {
        let (left, right) = context.pop_value_pair_as(value_type)?;
        let out = left.div(right, signed)?;
        context.push_value(out)?;
        Ok(InstructionOutcome::RunNextInstruction)
    }

    pub open spec fn spec_run_rem(m: Machine, value_type: ValueType, signed: bool) -> Step<InstructionOutcome> {
        m.binary(value_type, |left: RuntimeValue, right: RuntimeValue| left.spec_rem(right, signed))
    }

    /// `rem`: pops two integers and pushes the remainder of their division.
    /// Traps on a zero divisor.
    pub fn run_rem(context: &mut FunctionContext, value_type: ValueType, signed: bool) -> (r: Result<InstructionOutcome, Error>)
        ensures
            (final(context)@, r) == Self::spec_run_rem(old(context)@, value_type, signed),
            old(context)@.steady(final(context)@),
    {
        let (left, right) = context.pop_value_pair_as(value_type)?;
        let out = left.rem(right, signed)?;
        context.push_value(out)?;
        Ok(InstructionOutcome::RunNextInstruction)
    }

    pub open spec fn spec_run_and(m: Machine, value_type: ValueType) -> Step<InstructionOutcome> {
        m.binary(value_type, |left: RuntimeValue, right: RuntimeValue| left.spec_and(right))
    }

    /// `and`: pops two integers and pushes their bitwise conjunction.
    pub fn run_and(context: &mut FunctionContext, value_type: ValueType) -> (r: Result<InstructionOutcome, Error>)
        ensures
            (final(context)@, r) == Self::spec_run_and(old(context)@, value_type),
            old(context)@.steady(final(context)@),
    {
        let (left, right) = context.pop_value_pair_as(value_type)?;
        let out = left.and(right)?;
        context.push_value(out)?;
        Ok(InstructionOutcome::RunNextInstruction)
    }

    pub open spec fn spec_run_or(m: Machine, value_type: ValueType) -> Step<InstructionOutcome> {
        m.binary(value_type, |left: RuntimeValue, right: RuntimeValue| left.spec_or(right))
    }

    /// `or`: pops two integers and pushes their bitwise disjunction.
    pub fn run_or(context: &mut FunctionContext, value_type: ValueType) -> (r: Result<InstructionOutcome, Error>)
        ensures
            (final(context)@, r) == Self::spec_run_or(old(context)@, value_type),
            old(context)@.steady(final(context)@),
    {
        let (left, right) = context.pop_value_pair_as(value_type)?;
        let out = left.or(right)?;
        context.push_value(out)?;
        Ok(InstructionOutcome::RunNextInstruction)
    }

    pub open spec fn spec_run_xor(m: Machine, value_type: ValueType) -> Step<InstructionOutcome> {
        m.binary(value_type, |left: RuntimeValue, right: RuntimeValue| left.spec_xor(right))
    }

    /// `xor`: pops two integers and pushes their bitwise exclusive or.
    pub fn run_xor(context: &mut FunctionContext, value_type: ValueType) -> (r: Result<InstructionOutcome, Error>)
        ensures
            (final(context)@, r) == Self::spec_run_xor(old(context)@, value_type),
            old(context)@.steady(final(context)@),
    {
        let (left, right) = context.pop_value_pair_as(value_type)?;
        let out = left.xor(right)?;
        context.push_value(out)?;
        Ok(InstructionOutcome::RunNextInstruction)
    }

    pub open spec fn spec_run_shl(m: Machine, value_type: ValueType) -> Step<InstructionOutcome> {
        m.binary(value_type, |left: RuntimeValue, right: RuntimeValue| left.spec_shl(right))
    }

    /// `shl`: pops two integers and pushes the first shifted left by the second.
    pub fn run_shl(context: &mut FunctionContext, value_type: ValueType) -> (r: Result<InstructionOutcome, Error>)
        ensures
            (final(context)@, r) == Self::spec_run_shl(old(context)@, value_type),
            old(context)@.steady(final(context)@),
    {
        let (left, right) = context.pop_value_pair_as(value_type)?;
        let out = left.shl(right)?;
        context.push_value(out)?;
        Ok(InstructionOutcome::RunNextInstruction)
    }

    pub open spec fn spec_run_shr(m: Machine, value_type: ValueType, signed: bool) -> Step<InstructionOutcome> {
        m.binary(value_type, |left: RuntimeValue, right: RuntimeValue| left.spec_shr(right, signed))
    }

    /// `shr`: pops two integers and pushes the first shifted right by the
    /// second, arithmetically if `signed`.
    pub fn run_shr(context: &mut FunctionContext, value_type: ValueType, signed: bool) -> (r: Result<InstructionOutcome, Error>)
        ensures
            (final(context)@, r) == Self::spec_run_shr(old(context)@, value_type, signed),
            old(context)@.steady(final(context)@),
    {
        let (left, right) = context.pop_value_pair_as(value_type)?;
        let out = left.shr(right, signed)?;
        context.push_value(out)?;
        Ok(InstructionOutcome::RunNextInstruction)
    }

    pub open spec fn spec_run_rotl(m: Machine, value_type: ValueType) -> Step<InstructionOutcome> {
        m.binary(value_type, |left: RuntimeValue, right: RuntimeValue| left.spec_rotl(right))
    }

    /// `rotl`: pops two integers and pushes the first rotated left by the second.
    pub fn run_rotl(context: &mut FunctionContext, value_type: ValueType) -> (r: Result<InstructionOutcome, Error>)
        ensures
            (final(context)@, r) == Self::spec_run_rotl(old(context)@, value_type),
            old(context)@.steady(final(context)@),
    {
        let (left, right) = context.pop_value_pair_as(value_type)?;
        let out = left.rotl(right)?;
        context.push_value(out)?;
        Ok(InstructionOutcome::RunNextInstruction)
    }

    pub open spec fn spec_run_rotr(m: Machine, value_type: ValueType) -> Step<InstructionOutcome> {
        m.binary(value_type, |left: RuntimeValue, right: RuntimeValue| left.spec_rotr(right))
    }

    /// `rotr`: pops two integers and pushes the first rotated right by the second.
    pub fn run_rotr(context: &mut FunctionContext, value_type: ValueType) -> (r: Result<InstructionOutcome, Error>)
        ensures
            (final(context)@, r) == Self::spec_run_rotr(old(context)@, value_type),
            old(context)@.steady(final(context)@),
    {
        let (left, right) = context.pop_value_pair_as(value_type)?;
        let out = left.rotr(right)?;
        context.push_value(out)?;
        Ok(InstructionOutcome::RunNextInstruction)
    }

    pub open spec fn spec_run_abs(m: Machine, value_type: ValueType) -> Step<InstructionOutcome> {
        m.unary(value_type, |v: RuntimeValue| v.spec_abs())
    }

    /// `abs`: pops a float and pushes its absolute value.
    pub fn run_abs(context: &mut FunctionContext, value_type: ValueType) -> (r: Result<InstructionOutcome, Error>)
        ensures
            (final(context)@, r) == Self::spec_run_abs(old(context)@, value_type),
            old(context)@.steady(final(context)@),
    {
        let v = context.pop_value_as(value_type)?;
        let out = v.abs()?;
        context.push_value(out)?;
        Ok(InstructionOutcome::RunNextInstruction)
    }

    pub open spec fn spec_run_neg(m: Machine, value_type: ValueType) -> Step<InstructionOutcome> {
        m.unary(value_type, |v: RuntimeValue| v.spec_neg())
    }

    /// `neg`: pops a float and pushes it with the sign flipped.
    pub fn run_neg(context: &mut FunctionContext, value_type: ValueType) -> (r: Result<InstructionOutcome, Error>)
        ensures
            (final(context)@, r) == Self::spec_run_neg(old(context)@, value_type),
            old(context)@.steady(final(context)@),
    {
        let v = context.pop_value_as(value_type)?;
        let out = v.neg()?;
        context.push_value(out)?;
        Ok(InstructionOutcome::RunNextInstruction)
    }

    pub open spec fn spec_run_ceil(m: Machine, value_type: ValueType) -> Step<InstructionOutcome> {
        m.unary(value_type, |v: RuntimeValue| v.spec_ceil())
    }

    /// `ceil`: pops a float and pushes it rounded up to an integer.
    pub fn run_ceil(context: &mut FunctionContext, value_type: ValueType) -> (r: Result<InstructionOutcome, Error>)
        ensures
            (final(context)@, r) == Self::spec_run_ceil(old(context)@, value_type),
            old(context)@.steady(final(context)@),
    {
        let v = context.pop_value_as(value_type)?;
        let out = v.ceil()?;
        context.push_value(out)?;
        Ok(InstructionOutcome::RunNextInstruction)
    }

    pub open spec fn spec_run_floor(m: Machine, value_type: ValueType) -> Step<InstructionOutcome> {
        m.unary(value_type, |v: RuntimeValue| v.spec_floor())
    }

    /// `floor`: pops a float and pushes it rounded down to an integer.
    pub fn run_floor(context: &mut FunctionContext, value_type: ValueType) -> (r: Result<InstructionOutcome, Error>)
        ensures
            (final(context)@, r) == Self::spec_run_floor(old(context)@, value_type),
            old(context)@.steady(final(context)@),
    {
        let v = context.pop_value_as(value_type)?;
        let out = v.floor()?;
        context.push_value(out)?;
        Ok(InstructionOutcome::RunNextInstruction)
    }

    pub open spec fn spec_run_trunc(m: Machine, value_type: ValueType) -> Step<InstructionOutcome> {
        m.unary(value_type, |v: RuntimeValue| v.spec_trunc())
    }

    /// `trunc`: pops a float and pushes it rounded toward zero to an integer.
    pub fn run_trunc(context: &mut FunctionContext, value_type: ValueType) -> (r: Result<InstructionOutcome, Error>)
        ensures
            (final(context)@, r) == Self::spec_run_trunc(old(context)@, value_type),
            old(context)@.steady(final(context)@),
    {
        let v = context.pop_value_as(value_type)?;
        let out = v.trunc()?;
        context.push_value(out)?;
        Ok(InstructionOutcome::RunNextInstruction)
    }

    pub open spec fn spec_run_nearest(m: Machine, value_type: ValueType) -> Step<InstructionOutcome> {
        m.unary(value_type, |v: RuntimeValue| v.spec_nearest())
    }

    /// `nearest`: pops a float and pushes it rounded to the nearest integer,
    /// ties to even.
    pub fn run_nearest(context: &mut FunctionContext, value_type: ValueType) -> (r: Result<InstructionOutcome, Error>)
        ensures
            (final(context)@, r) == Self::spec_run_nearest(old(context)@, value_type),
            old(context)@.steady(final(context)@),
    {
        let v = context.pop_value_as(value_type)?;
        let out = v.nearest()?;
        context.push_value(out)?;
        Ok(InstructionOutcome::RunNextInstruction)
    }

    pub open spec fn spec_run_sqrt(m: Machine, value_type: ValueType) -> Step<InstructionOutcome> {
        m.unary(value_type, |v: RuntimeValue| v.spec_sqrt())
    }

    /// `sqrt`: pops a float and pushes its square root.
    pub fn run_sqrt(context: &mut FunctionContext, value_type: ValueType) -> (r: Result<InstructionOutcome, Error>)
        ensures
            (final(context)@, r) == Self::spec_run_sqrt(old(context)@, value_type),
            old(context)@.steady(final(context)@),
    {
        let v = context.pop_value_as(value_type)?;
        let out = v.sqrt()?;
        context.push_value(out)?;
        Ok(InstructionOutcome::RunNextInstruction)
    }

    pub open spec fn spec_run_min(m: Machine, value_type: ValueType) -> Step<InstructionOutcome> {
        m.binary(value_type, |left: RuntimeValue, right: RuntimeValue| left.spec_min(right))
    }

    /// `min`: pops two floats and pushes the smaller.
    pub fn run_min(context: &mut FunctionContext, value_type: ValueType) -> (r: Result<InstructionOutcome, Error>)
        ensures
            (final(context)@, r) == Self::spec_run_min(old(context)@, value_type),
            old(context)@.steady(final(context)@),
    {
        let (left, right) = context.pop_value_pair_as(value_type)?;
        let out = left.min(right)?;
        context.push_value(out)?;
        Ok(InstructionOutcome::RunNextInstruction)
    }

    pub open spec fn spec_run_max(m: Machine, value_type: ValueType) -> Step<InstructionOutcome> {
        m.binary(value_type, |left: RuntimeValue, right: RuntimeValue| left.spec_max(right))
    }

    /// `max`: pops two floats and pushes the larger.
    pub fn run_max(context: &mut FunctionContext, value_type: ValueType) -> (r: Result<InstructionOutcome, Error>)
        ensures
            (final(context)@, r) == Self::spec_run_max(old(context)@, value_type),
            old(context)@.steady(final(context)@),
    {
        let (left, right) = context.pop_value_pair_as(value_type)?;
        let out = left.max(right)?;
        context.push_value(out)?;
        Ok(InstructionOutcome::RunNextInstruction)
    }

    pub open spec fn spec_run_copysign(m: Machine, value_type: ValueType) -> Step<InstructionOutcome> {
        m.binary(value_type, |left: RuntimeValue, right: RuntimeValue| left.spec_copysign(right))
    }

    /// `copysign`: pops two floats and pushes the first with the sign of the second.
    pub fn run_copysign(context: &mut FunctionContext, value_type: ValueType) -> (r: Result<InstructionOutcome, Error>)
        ensures
            (final(context)@, r) == Self::spec_run_copysign(old(context)@, value_type),
            old(context)@.steady(final(context)@),
    {
        let (left, right) = context.pop_value_pair_as(value_type)?;
        let out = left.copysign(right)?;
        context.push_value(out)?;
        Ok(InstructionOutcome::RunNextInstruction)
    }

    pub open spec fn spec_run_wrap(m: Machine, value_type: ValueType, target: ValueType, signed: bool) -> Step<InstructionOutcome> {
        m.unary(value_type, |v: RuntimeValue| v.spec_wrap_into(target, signed))
    }

    /// The narrowing conversions: pops a value of type `value_type` and
    /// pushes it converted to the narrower type `target`: `i32.wrap/i64`,
    /// `f32.demote/f64`, and the conversions from `I64` to `F32`.
    pub fn run_wrap(context: &mut FunctionContext, value_type: ValueType, target: ValueType, signed: bool) -> (r: Result<InstructionOutcome, Error>)
        ensures
            (final(context)@, r) == Self::spec_run_wrap(old(context)@, value_type, target, signed),
            old(context)@.steady(final(context)@),
    {
        let v = context.pop_value_as(value_type)?;
        let out = v.wrap_into(target, signed)?;
        context.push_value(out)?;
        Ok(InstructionOutcome::RunNextInstruction)
    }

    pub open spec fn spec_run_trunc_to_int(m: Machine, value_type: ValueType, target: ValueType, signed: bool) -> Step<InstructionOutcome> {
        m.unary(value_type, |v: RuntimeValue| v.spec_trunc_to_int(target, signed))
    }

    /// The truncations: pops a float of type `value_type` and pushes it
    /// rounded toward zero as an integer of type `target`, signed or
    /// unsigned. Traps on a NaN and on a number out of range.
    pub fn run_trunc_to_int(context: &mut FunctionContext, value_type: ValueType, target: ValueType, signed: bool) -> (r: Result<InstructionOutcome, Error>)
        ensures
            (final(context)@, r) == Self::spec_run_trunc_to_int(old(context)@, value_type, target, signed),
            old(context)@.steady(final(context)@),
    {
        let v = context.pop_value_as(value_type)?;
        let out = v.trunc_to_int(target, signed)?;
        context.push_value(out)?;
        Ok(InstructionOutcome::RunNextInstruction)
    }

    pub open spec fn spec_run_extend(m: Machine, value_type: ValueType, target: ValueType, signed: bool) -> Step<InstructionOutcome> {
        m.unary(value_type, |v: RuntimeValue| v.spec_extend_into(target, signed))
    }

    /// The widening conversions: pops a value of type `value_type` and
    /// pushes it converted to the type `target`: `i64.extend/i32`,
    /// `f64.promote/f32`, and the conversions from an integer to a float that
    /// is no narrower.
    pub fn run_extend(context: &mut FunctionContext, value_type: ValueType, target: ValueType, signed: bool) -> (r: Result<InstructionOutcome, Error>)
        ensures
            (final(context)@, r) == Self::spec_run_extend(old(context)@, value_type, target, signed),
            old(context)@.steady(final(context)@),
    {
        let v = context.pop_value_as(value_type)?;
        let out = v.extend_into(target, signed)?;
        context.push_value(out)?;
        Ok(InstructionOutcome::RunNextInstruction)
    }

    pub open spec fn spec_run_reinterpret(m: Machine, value_type: ValueType) -> Step<InstructionOutcome> {
        m.unary(value_type, |v: RuntimeValue| v.spec_reinterpret())
    }

    /// `reinterpret`: pops a value of type `value_type` and pushes its bit
    /// pattern under the other tag of the same width.
    pub fn run_reinterpret(context: &mut FunctionContext, value_type: ValueType) -> (r: Result<InstructionOutcome, Error>)
        ensures
            (final(context)@, r) == Self::spec_run_reinterpret(old(context)@, value_type),
            old(context)@.steady(final(context)@),
    {
        let v = context.pop_value_as(value_type)?;
        let out = v.reinterpret()?;
        context.push_value(out)?;
        Ok(InstructionOutcome::RunNextInstruction)
    }

}

/// Where the first arm of the body of an `if` ends when read from
/// `from` on: behind the first `else`, or at the end of the body if it has none.
pub open spec fn spec_else_split(body: Seq<Opcode>, from: int) -> int
    decreases body.len() - from,
{
    if from < 0 || from >= body.len() {
        body.len() as int
    } else if body[from] is Else {
        from + 1
    } else {
        spec_else_split(body, from + 1)
    }
}

/// The split lies behind `from` and within the body.
pub proof fn lemma_else_split_bounds(body: Seq<Opcode>, from: int)
    requires
        0 <= from <= body.len(),
    ensures
        from <= spec_else_split(body, from) <= body.len(),
    decreases body.len() - from,
{
    if from < body.len() && !(body[from] is Else) {
        lemma_else_split_bounds(body, from + 1);
    }
}

fn else_split(body: &[Opcode]) -> (r: usize)
    ensures
        r == spec_else_split(body@, 0),
        r <= body@.len(),
{
    let mut i: usize = 0;
    while i < body.len()
        invariant
            i <= body@.len(),
            spec_else_split(body@, i as int) == spec_else_split(body@, 0),
        decreases body@.len() - i,
    {
        match &body[i] {
            Opcode::Else => {
                return i + 1;
            },
            _ => {},
        }
        i = i + 1;
    }
    i
}

impl Machine {
    /// What holds of the state `after` an instruction, or a block, that
    /// started in this state and returned `r`: the module is still
    /// well-formed, the budget has not grown, and, unless the function
    /// returns or fails, the frame stack is what it was.
    pub open spec fn settled(self, after: Machine, r: Result<InstructionOutcome, Error>) -> bool {
        &&& after.wf()
        &&& after.budget <= self.budget
        &&& (r is Ok && r != Ok::<InstructionOutcome, Error>(InstructionOutcome::Return))
            ==> after.frames == self.frames
    }

    /// What holds of the state `after` a block that was entered in this
    /// state, its frame on the stack, and that returned `r`: as `settled`,
    /// but the frame of the block is gone, and `r` never asks for the next
    /// instruction.
    pub open spec fn left(self, after: Machine, r: Result<InstructionOutcome, Error>) -> bool {
        &&& after.wf()
        &&& after.budget <= self.budget
        &&& r != Ok::<InstructionOutcome, Error>(InstructionOutcome::RunNextInstruction)
        &&& (r is Ok && r != Ok::<InstructionOutcome, Error>(InstructionOutcome::Return)) ==> {
            &&& self.frames.len() > 0
            &&& after.frames == self.frames.drop_last()
            &&& after.position == self.frames.last().position
            &&& after.values.len() == self.frames.last().value_limit + (if self.frames.last().signature
                is Value {
                1int
            } else {
                0int
            })
        }
    }
}

impl Interpreter {
    /// `block`: enters a block that, when left, resumes behind this instruction.
    pub open spec fn spec_run_block(m: Machine, block_type: BlockType, body: Seq<Opcode>) -> Step<
        InstructionOutcome,
    >
        decreases m.budget, 2int,
    {
        if m.position == usize::MAX {
            (m, Err(Error::Interpreter))
        } else {
            Self::spec_execute_block(
                m.spec_push_frame((m.position + 1) as usize, block_type),
                block_type,
                body,
            )
        }
    }

    /// `loop`: enters a block that, when left, resumes at this instruction.
    pub open spec fn spec_run_loop(m: Machine, block_type: BlockType, body: Seq<Opcode>) -> Step<
        InstructionOutcome,
    >
        decreases m.budget, 2int,
    {
        Self::spec_execute_block(m.spec_push_frame(m.position, block_type), block_type, body)
    }

    /// `if`: pops a condition and enters the arm of the body that it
    /// selects, the first arm up to and with the first `else`, the second
    /// behind it; the arm, when left, resumes behind this instruction. An
    /// empty arm is not entered.
    pub open spec fn spec_run_if(m: Machine, block_type: BlockType, body: Seq<Opcode>) -> Step<
        InstructionOutcome,
    >
        decreases m.budget, 2int,
    {
        let (m1, r) = m.spec_pop_condition();
        match r {
            Err(e) => (m1, Err(e)),
            Ok(condition) => {
                let split = spec_else_split(body, 0);
                let begin = if condition {
                    0
                } else {
                    split
                };
                let end = if condition {
                    split
                } else {
                    body.len() as int
                };
                if begin == end {
                    (m1, Ok(InstructionOutcome::RunNextInstruction))
                } else if m1.position == usize::MAX || m1.budget > m.budget {
                    (m1, Err(Error::Interpreter))
                } else {
                    Self::spec_execute_block(
                        m1.spec_push_frame((m1.position + 1) as usize, block_type),
                        block_type,
                        body.subrange(begin, end),
                    )
                }
            },
        }
    }

    /// Executes `body` from its first instruction on, in the block whose
    /// frame is on top of the frame stack, until the block is left.
    pub open spec fn spec_execute_block(m: Machine, block_type: BlockType, body: Seq<Opcode>) -> Step<
        InstructionOutcome,
    >
        decreases m.budget, 1int,
    {
        Self::spec_dispatch(m.with_position(0), body)
    }

    /// The dispatcher: executes the instruction of `body` at the current
    /// position, at the cost of one unit of the budget, and goes on as the
    /// outcome says: with the same position, with the next one, or by
    /// leaving the block. Leaving pops the frame of the block; of a branch
    /// that leaves more blocks than this one, the rest is handed upward. A
    /// return is handed upward as it is. The call fails with
    /// `Error::Interpreter` where the position is outside the body and where
    /// the budget is used up.
    pub open spec fn spec_dispatch(m: Machine, body: Seq<Opcode>) -> Step<InstructionOutcome>
        decreases m.budget, 0int,
    {
        if m.position >= body.len() || m.budget == 0 {
            (m, Err(Error::Interpreter))
        } else {
            let (m1, r) = Self::spec_run_instruction(
                m.with_budget((m.budget - 1) as u64),
                body[m.position as int],
            );
            match r {
                Err(e) => (m1, Err(e)),
                Ok(InstructionOutcome::RunInstruction) => if m1.budget < m.budget {
                    Self::spec_dispatch(m1, body)
                } else {
                    (m1, Err(Error::Interpreter))
                },
                Ok(InstructionOutcome::RunNextInstruction) => if m1.budget < m.budget && m1.position
                    < usize::MAX {
                    Self::spec_dispatch(m1.with_position((m1.position + 1) as usize), body)
                } else {
                    (m1, Err(Error::Interpreter))
                },
                Ok(InstructionOutcome::PopFrame(index)) => {
                    let (m2, r) = m1.spec_pop_frame();
                    match r {
                        Err(e) => (m2, Err(e)),
                        Ok(_) => if index != 0 {
                            (m2, Ok(InstructionOutcome::PopFrame((index - 1) as usize)))
                        } else {
                            (m2, Ok(InstructionOutcome::RunInstruction))
                        },
                    }
                },
                Ok(InstructionOutcome::Return) => (m1, Ok(InstructionOutcome::Return)),
            }
        }
    }


    /// What executing one instruction comes to: the state after it, and
    /// what the dispatcher is to do next or the error that ends the call.
    pub open spec fn spec_run_instruction(m: Machine, opcode: Opcode) -> Step<InstructionOutcome>
        decreases m.budget, 3int,
    {
        match opcode {
            Opcode::Unreachable => Self::spec_run_unreachable(m),
            Opcode::Nop => Self::spec_run_nop(m),
            Opcode::Block(block_type, ops) => Self::spec_run_block(m, block_type, ops.spec_elements()),
            Opcode::Loop(block_type, ops) => Self::spec_run_loop(m, block_type, ops.spec_elements()),
            Opcode::If(block_type, ops) => Self::spec_run_if(m, block_type, ops.spec_elements()),
            Opcode::Else => Self::spec_run_else(m),
            Opcode::End => Self::spec_run_end(m),
            Opcode::Br(idx) => Self::spec_run_br(m, idx),
            Opcode::BrIf(idx) => Self::spec_run_br_if(m, idx),
            Opcode::BrTable(table, default) => Self::spec_run_br_table(m, table@, default),
            Opcode::Return => Self::spec_run_return(m),
            Opcode::Call(index) => Self::spec_run_call(m, index),
            Opcode::CallIndirect(index, _) => Self::spec_run_call_indirect(m, index),
            Opcode::Drop => Self::spec_run_drop(m),
            Opcode::Select => Self::spec_run_select(m),
            Opcode::GetLocal(index) => Self::spec_run_get_local(m, index),
            Opcode::SetLocal(index) => Self::spec_run_set_local(m, index),
            Opcode::TeeLocal(index) => Self::spec_run_tee_local(m, index),
            Opcode::GetGlobal(index) => Self::spec_run_get_global(m, index),
            Opcode::SetGlobal(index) => Self::spec_run_set_global(m, index),
            Opcode::I32Load(offset, align) => Self::spec_run_load(m, ValueType::I32, offset, align),
            Opcode::I64Load(offset, align) => Self::spec_run_load(m, ValueType::I64, offset, align),
            Opcode::F32Load(offset, align) => Self::spec_run_load(m, ValueType::F32, offset, align),
            Opcode::F64Load(offset, align) => Self::spec_run_load(m, ValueType::F64, offset, align),
            Opcode::I32Load8S(offset, align) => Self::spec_run_load_extend(m, ValueType::I32, 1, true, offset, align),
            Opcode::I32Load8U(offset, align) => Self::spec_run_load_extend(m, ValueType::I32, 1, false, offset, align),
            Opcode::I32Load16S(offset, align) => Self::spec_run_load_extend(m, ValueType::I32, 2, true, offset, align),
            Opcode::I32Load16U(offset, align) => Self::spec_run_load_extend(m, ValueType::I32, 2, false, offset, align),
            Opcode::I64Load8S(offset, align) => Self::spec_run_load_extend(m, ValueType::I64, 1, true, offset, align),
            Opcode::I64Load8U(offset, align) => Self::spec_run_load_extend(m, ValueType::I64, 1, false, offset, align),
            Opcode::I64Load16S(offset, align) => Self::spec_run_load_extend(m, ValueType::I64, 2, true, offset, align),
            Opcode::I64Load16U(offset, align) => Self::spec_run_load_extend(m, ValueType::I64, 2, false, offset, align),
            Opcode::I64Load32S(offset, align) => Self::spec_run_load_extend(m, ValueType::I64, 4, true, offset, align),
            Opcode::I64Load32U(offset, align) => Self::spec_run_load_extend(m, ValueType::I64, 4, false, offset, align),
            Opcode::I32Store(offset, align) => Self::spec_run_store(m, ValueType::I32, offset, align),
            Opcode::I64Store(offset, align) => Self::spec_run_store(m, ValueType::I64, offset, align),
            Opcode::F32Store(offset, align) => Self::spec_run_store(m, ValueType::F32, offset, align),
            Opcode::F64Store(offset, align) => Self::spec_run_store(m, ValueType::F64, offset, align),
            Opcode::I32Store8(offset, align) => Self::spec_run_store_wrap(m, ValueType::I32, 1, offset, align),
            Opcode::I32Store16(offset, align) => Self::spec_run_store_wrap(m, ValueType::I32, 2, offset, align),
            Opcode::I64Store8(offset, align) => Self::spec_run_store_wrap(m, ValueType::I64, 1, offset, align),
            Opcode::I64Store16(offset, align) => Self::spec_run_store_wrap(m, ValueType::I64, 2, offset, align),
            Opcode::I64Store32(offset, align) => Self::spec_run_store_wrap(m, ValueType::I64, 4, offset, align),
            Opcode::CurrentMemory(_) => Self::spec_run_current_memory(m),
            Opcode::GrowMemory(_) => Self::spec_run_grow_memory(m),
            Opcode::I32Const(val) => Self::spec_run_const(m, RuntimeValue::I32(val)),
            Opcode::I64Const(val) => Self::spec_run_const(m, RuntimeValue::I64(val)),
            Opcode::F32Const(val) => Self::spec_run_const(m, RuntimeValue::F32(val)),
            Opcode::F64Const(val) => Self::spec_run_const(m, RuntimeValue::F64(val)),
            Opcode::I32Eqz => Self::spec_run_eqz(m, ValueType::I32),
            Opcode::I32Eq => Self::spec_run_eq(m, ValueType::I32),
            Opcode::I32Ne => Self::spec_run_ne(m, ValueType::I32),
            Opcode::I32LtS => Self::spec_run_lt(m, ValueType::I32, true),
            Opcode::I32LtU => Self::spec_run_lt(m, ValueType::I32, false),
            Opcode::I32GtS => Self::spec_run_gt(m, ValueType::I32, true),
            Opcode::I32GtU => Self::spec_run_gt(m, ValueType::I32, false),
            Opcode::I32LeS => Self::spec_run_lte(m, ValueType::I32, true),
            Opcode::I32LeU => Self::spec_run_lte(m, ValueType::I32, false),
            Opcode::I32GeS => Self::spec_run_gte(m, ValueType::I32, true),
            Opcode::I32GeU => Self::spec_run_gte(m, ValueType::I32, false),
            Opcode::I64Eqz => Self::spec_run_eqz(m, ValueType::I64),
            Opcode::I64Eq => Self::spec_run_eq(m, ValueType::I64),
            Opcode::I64Ne => Self::spec_run_ne(m, ValueType::I64),
            Opcode::I64LtS => Self::spec_run_lt(m, ValueType::I64, true),
            Opcode::I64LtU => Self::spec_run_lt(m, ValueType::I64, false),
            Opcode::I64GtS => Self::spec_run_gt(m, ValueType::I64, true),
            Opcode::I64GtU => Self::spec_run_gt(m, ValueType::I64, false),
            Opcode::I64LeS => Self::spec_run_lte(m, ValueType::I64, true),
            Opcode::I64LeU => Self::spec_run_lte(m, ValueType::I64, false),
            Opcode::I64GeS => Self::spec_run_gte(m, ValueType::I64, true),
            Opcode::I64GeU => Self::spec_run_gte(m, ValueType::I64, false),
            Opcode::F32Eq => Self::spec_run_eq(m, ValueType::F32),
            Opcode::F32Ne => Self::spec_run_ne(m, ValueType::F32),
            Opcode::F32Lt => Self::spec_run_lt(m, ValueType::F32, true),
            Opcode::F32Gt => Self::spec_run_gt(m, ValueType::F32, true),
            Opcode::F32Le => Self::spec_run_lte(m, ValueType::F32, true),
            Opcode::F32Ge => Self::spec_run_gte(m, ValueType::F32, true),
            Opcode::F64Eq => Self::spec_run_eq(m, ValueType::F64),
            Opcode::F64Ne => Self::spec_run_ne(m, ValueType::F64),
            Opcode::F64Lt => Self::spec_run_lt(m, ValueType::F64, true),
            Opcode::F64Gt => Self::spec_run_gt(m, ValueType::F64, true),
            Opcode::F64Le => Self::spec_run_lte(m, ValueType::F64, true),
            Opcode::F64Ge => Self::spec_run_gte(m, ValueType::F64, true),
            Opcode::I32Clz => Self::spec_run_clz(m, ValueType::I32),
            Opcode::I32Ctz => Self::spec_run_ctz(m, ValueType::I32),
            Opcode::I32Popcnt => Self::spec_run_popcnt(m, ValueType::I32),
            Opcode::I32Add => Self::spec_run_add(m, ValueType::I32),
            Opcode::I32Sub => Self::spec_run_sub(m, ValueType::I32),
            Opcode::I32Mul => Self::spec_run_mul(m, ValueType::I32),
            Opcode::I32DivS => Self::spec_run_div(m, ValueType::I32, true),
            Opcode::I32DivU => Self::spec_run_div(m, ValueType::I32, false),
            Opcode::I32RemS => Self::spec_run_rem(m, ValueType::I32, true),
            Opcode::I32RemU => Self::spec_run_rem(m, ValueType::I32, false),
            Opcode::I32And => Self::spec_run_and(m, ValueType::I32),
            Opcode::I32Or => Self::spec_run_or(m, ValueType::I32),
            Opcode::I32Xor => Self::spec_run_xor(m, ValueType::I32),
            Opcode::I32Shl => Self::spec_run_shl(m, ValueType::I32),
            Opcode::I32ShrS => Self::spec_run_shr(m, ValueType::I32, true),
            Opcode::I32ShrU => Self::spec_run_shr(m, ValueType::I32, false),
            Opcode::I32Rotl => Self::spec_run_rotl(m, ValueType::I32),
            Opcode::I32Rotr => Self::spec_run_rotr(m, ValueType::I32),
            Opcode::I64Clz => Self::spec_run_clz(m, ValueType::I64),
            Opcode::I64Ctz => Self::spec_run_ctz(m, ValueType::I64),
            Opcode::I64Popcnt => Self::spec_run_popcnt(m, ValueType::I64),
            Opcode::I64Add => Self::spec_run_add(m, ValueType::I64),
            Opcode::I64Sub => Self::spec_run_sub(m, ValueType::I64),
            Opcode::I64Mul => Self::spec_run_mul(m, ValueType::I64),
            Opcode::I64DivS => Self::spec_run_div(m, ValueType::I64, true),
            Opcode::I64DivU => Self::spec_run_div(m, ValueType::I64, false),
            Opcode::I64RemS => Self::spec_run_rem(m, ValueType::I64, true),
            Opcode::I64RemU => Self::spec_run_rem(m, ValueType::I64, false),
            Opcode::I64And => Self::spec_run_and(m, ValueType::I64),
            Opcode::I64Or => Self::spec_run_or(m, ValueType::I64),
            Opcode::I64Xor => Self::spec_run_xor(m, ValueType::I64),
            Opcode::I64Shl => Self::spec_run_shl(m, ValueType::I64),
            Opcode::I64ShrS => Self::spec_run_shr(m, ValueType::I64, true),
            Opcode::I64ShrU => Self::spec_run_shr(m, ValueType::I64, false),
            Opcode::I64Rotl => Self::spec_run_rotl(m, ValueType::I64),
            Opcode::I64Rotr => Self::spec_run_rotr(m, ValueType::I64),
            Opcode::F32Abs => Self::spec_run_abs(m, ValueType::F32),
            Opcode::F32Neg => Self::spec_run_neg(m, ValueType::F32),
            Opcode::F32Ceil => Self::spec_run_ceil(m, ValueType::F32),
            Opcode::F32Floor => Self::spec_run_floor(m, ValueType::F32),
            Opcode::F32Trunc => Self::spec_run_trunc(m, ValueType::F32),
            Opcode::F32Nearest => Self::spec_run_nearest(m, ValueType::F32),
            Opcode::F32Sqrt => Self::spec_run_sqrt(m, ValueType::F32),
            Opcode::F32Add => Self::spec_run_add(m, ValueType::F32),
            Opcode::F32Sub => Self::spec_run_sub(m, ValueType::F32),
            Opcode::F32Mul => Self::spec_run_mul(m, ValueType::F32),
            Opcode::F32Div => Self::spec_run_div(m, ValueType::F32, true),
            Opcode::F32Min => Self::spec_run_min(m, ValueType::F32),
            Opcode::F32Max => Self::spec_run_max(m, ValueType::F32),
            Opcode::F32Copysign => Self::spec_run_copysign(m, ValueType::F32),
            Opcode::F64Abs => Self::spec_run_abs(m, ValueType::F64),
            Opcode::F64Neg => Self::spec_run_neg(m, ValueType::F64),
            Opcode::F64Ceil => Self::spec_run_ceil(m, ValueType::F64),
            Opcode::F64Floor => Self::spec_run_floor(m, ValueType::F64),
            Opcode::F64Trunc => Self::spec_run_trunc(m, ValueType::F64),
            Opcode::F64Nearest => Self::spec_run_nearest(m, ValueType::F64),
            Opcode::F64Sqrt => Self::spec_run_sqrt(m, ValueType::F64),
            Opcode::F64Add => Self::spec_run_add(m, ValueType::F64),
            Opcode::F64Sub => Self::spec_run_sub(m, ValueType::F64),
            Opcode::F64Mul => Self::spec_run_mul(m, ValueType::F64),
            Opcode::F64Div => Self::spec_run_div(m, ValueType::F64, true),
            Opcode::F64Min => Self::spec_run_min(m, ValueType::F64),
            Opcode::F64Max => Self::spec_run_max(m, ValueType::F64),
            Opcode::F64Copysign => Self::spec_run_copysign(m, ValueType::F64),
            Opcode::I32WarpI64 => Self::spec_run_wrap(m, ValueType::I64, ValueType::I32, true),
            Opcode::I32TruncSF32 => Self::spec_run_trunc_to_int(m, ValueType::F32, ValueType::I32, true),
            Opcode::I32TruncUF32 => Self::spec_run_trunc_to_int(m, ValueType::F32, ValueType::I32, false),
            Opcode::I32TruncSF64 => Self::spec_run_trunc_to_int(m, ValueType::F64, ValueType::I32, true),
            Opcode::I32TruncUF64 => Self::spec_run_trunc_to_int(m, ValueType::F64, ValueType::I32, false),
            Opcode::I64ExtendSI32 => Self::spec_run_extend(m, ValueType::I32, ValueType::I64, true),
            Opcode::I64ExtendUI32 => Self::spec_run_extend(m, ValueType::I32, ValueType::I64, false),
            Opcode::I64TruncSF32 => Self::spec_run_trunc_to_int(m, ValueType::F32, ValueType::I64, true),
            Opcode::I64TruncUF32 => Self::spec_run_trunc_to_int(m, ValueType::F32, ValueType::I64, false),
            Opcode::I64TruncSF64 => Self::spec_run_trunc_to_int(m, ValueType::F64, ValueType::I64, true),
            Opcode::I64TruncUF64 => Self::spec_run_trunc_to_int(m, ValueType::F64, ValueType::I64, false),
            Opcode::F32ConvertSI32 => Self::spec_run_extend(m, ValueType::I32, ValueType::F32, true),
            Opcode::F32ConvertUI32 => Self::spec_run_extend(m, ValueType::I32, ValueType::F32, false),
            Opcode::F32ConvertSI64 => Self::spec_run_wrap(m, ValueType::I64, ValueType::F32, true),
            Opcode::F32ConvertUI64 => Self::spec_run_wrap(m, ValueType::I64, ValueType::F32, false),
            Opcode::F32DemoteF64 => Self::spec_run_wrap(m, ValueType::F64, ValueType::F32, true),
            Opcode::F64ConvertSI32 => Self::spec_run_extend(m, ValueType::I32, ValueType::F64, true),
            Opcode::F64ConvertUI32 => Self::spec_run_extend(m, ValueType::I32, ValueType::F64, false),
            Opcode::F64ConvertSI64 => Self::spec_run_extend(m, ValueType::I64, ValueType::F64, true),
            Opcode::F64ConvertUI64 => Self::spec_run_extend(m, ValueType::I64, ValueType::F64, false),
            Opcode::F64PromoteF32 => Self::spec_run_extend(m, ValueType::F32, ValueType::F64, true),
            Opcode::I32ReinterpretF32 => Self::spec_run_reinterpret(m, ValueType::F32),
            Opcode::I64ReinterpretF64 => Self::spec_run_reinterpret(m, ValueType::F64),
            Opcode::F32ReinterpretI32 => Self::spec_run_reinterpret(m, ValueType::I32),
            Opcode::F64ReinterpretI64 => Self::spec_run_reinterpret(m, ValueType::I64),
        }
    }

    /// Executes one instruction. An instruction that enters a block runs
    /// the block to its end. Unless the function returns, the frame stack is
    /// afterwards what it was before.
    pub fn run_instruction(context: &mut FunctionContext, opcode: &Opcode) -> (r: Result<
        InstructionOutcome,
        Error,
    >)
        requires
            old(context)@.wf(),
        ensures
            (final(context)@, r) == Self::spec_run_instruction(old(context)@, *opcode),
            old(context)@.settled(final(context)@, r),
        decreases old(context)@.budget, 3int,
    {
        match opcode {
            Opcode::Unreachable => {
                return Self::run_unreachable(context);
            },
            Opcode::Nop => {
                return Self::run_nop(context);
            },
            Opcode::Block(block_type, ops) => {
                return Self::run_block(context, *block_type, ops.elements());
            },
            Opcode::Loop(block_type, ops) => {
                return Self::run_loop(context, *block_type, ops.elements());
            },
            Opcode::If(block_type, ops) => {
                return Self::run_if(context, *block_type, ops.elements());
            },
            Opcode::Else => {
                return Self::run_else(context);
            },
            Opcode::End => {
                return Self::run_end(context);
            },
            Opcode::Br(idx) => {
                return Self::run_br(context, *idx);
            },
            Opcode::BrIf(idx) => {
                return Self::run_br_if(context, *idx);
            },
            Opcode::BrTable(table, default) => {
                return Self::run_br_table(context, table, *default);
            },
            Opcode::Return => {
                return Self::run_return(context);
            },
            Opcode::Call(index) => {
                return Self::run_call(context, *index);
            },
            Opcode::CallIndirect(index, _) => {
                return Self::run_call_indirect(context, *index);
            },
            Opcode::Drop => {
                return Self::run_drop(context);
            },
            Opcode::Select => {
                return Self::run_select(context);
            },
            Opcode::GetLocal(index) => {
                return Self::run_get_local(context, *index);
            },
            Opcode::SetLocal(index) => {
                return Self::run_set_local(context, *index);
            },
            Opcode::TeeLocal(index) => {
                return Self::run_tee_local(context, *index);
            },
            Opcode::GetGlobal(index) => {
                return Self::run_get_global(context, *index);
            },
            Opcode::SetGlobal(index) => {
                return Self::run_set_global(context, *index);
            },
            Opcode::I32Load(offset, align) => {
                return Self::run_load(context, ValueType::I32, *offset, *align);
            },
            Opcode::I64Load(offset, align) => {
                return Self::run_load(context, ValueType::I64, *offset, *align);
            },
            Opcode::F32Load(offset, align) => {
                return Self::run_load(context, ValueType::F32, *offset, *align);
            },
            Opcode::F64Load(offset, align) => {
                return Self::run_load(context, ValueType::F64, *offset, *align);
            },
            Opcode::I32Load8S(offset, align) => {
                return Self::run_load_extend(context, ValueType::I32, 1, true, *offset, *align);
            },
            Opcode::I32Load8U(offset, align) => {
                return Self::run_load_extend(context, ValueType::I32, 1, false, *offset, *align);
            },
            Opcode::I32Load16S(offset, align) => {
                return Self::run_load_extend(context, ValueType::I32, 2, true, *offset, *align);
            },
            Opcode::I32Load16U(offset, align) => {
                return Self::run_load_extend(context, ValueType::I32, 2, false, *offset, *align);
            },
            Opcode::I64Load8S(offset, align) => {
                return Self::run_load_extend(context, ValueType::I64, 1, true, *offset, *align);
            },
            Opcode::I64Load8U(offset, align) => {
                return Self::run_load_extend(context, ValueType::I64, 1, false, *offset, *align);
            },
            Opcode::I64Load16S(offset, align) => {
                return Self::run_load_extend(context, ValueType::I64, 2, true, *offset, *align);
            },
            Opcode::I64Load16U(offset, align) => {
                return Self::run_load_extend(context, ValueType::I64, 2, false, *offset, *align);
            },
            Opcode::I64Load32S(offset, align) => {
                return Self::run_load_extend(context, ValueType::I64, 4, true, *offset, *align);
            },
            Opcode::I64Load32U(offset, align) => {
                return Self::run_load_extend(context, ValueType::I64, 4, false, *offset, *align);
            },
            Opcode::I32Store(offset, align) => {
                return Self::run_store(context, ValueType::I32, *offset, *align);
            },
            Opcode::I64Store(offset, align) => {
                return Self::run_store(context, ValueType::I64, *offset, *align);
            },
            Opcode::F32Store(offset, align) => {
                return Self::run_store(context, ValueType::F32, *offset, *align);
            },
            Opcode::F64Store(offset, align) => {
                return Self::run_store(context, ValueType::F64, *offset, *align);
            },
            Opcode::I32Store8(offset, align) => {
                return Self::run_store_wrap(context, ValueType::I32, 1, *offset, *align);
            },
            Opcode::I32Store16(offset, align) => {
                return Self::run_store_wrap(context, ValueType::I32, 2, *offset, *align);
            },
            Opcode::I64Store8(offset, align) => {
                return Self::run_store_wrap(context, ValueType::I64, 1, *offset, *align);
            },
            Opcode::I64Store16(offset, align) => {
                return Self::run_store_wrap(context, ValueType::I64, 2, *offset, *align);
            },
            Opcode::I64Store32(offset, align) => {
                return Self::run_store_wrap(context, ValueType::I64, 4, *offset, *align);
            },
            Opcode::CurrentMemory(_) => {
                return Self::run_current_memory(context);
            },
            Opcode::GrowMemory(_) => {
                return Self::run_grow_memory(context);
            },
            Opcode::I32Const(val) => {
                return Self::run_const(context, RuntimeValue::I32(*val));
            },
            Opcode::I64Const(val) => {
                return Self::run_const(context, RuntimeValue::I64(*val));
            },
            Opcode::F32Const(val) => {
                return Self::run_const(context, RuntimeValue::decode_f32(*val));
            },
            Opcode::F64Const(val) => {
                return Self::run_const(context, RuntimeValue::decode_f64(*val));
            },
            Opcode::I32Eqz => {
                return Self::run_eqz(context, ValueType::I32);
            },
            Opcode::I32Eq => {
                return Self::run_eq(context, ValueType::I32);
            },
            Opcode::I32Ne => {
                return Self::run_ne(context, ValueType::I32);
            },
            Opcode::I32LtS => {
                return Self::run_lt(context, ValueType::I32, true);
            },
            Opcode::I32LtU => {
                return Self::run_lt(context, ValueType::I32, false);
            },
            Opcode::I32GtS => {
                return Self::run_gt(context, ValueType::I32, true);
            },
            Opcode::I32GtU => {
                return Self::run_gt(context, ValueType::I32, false);
            },
            Opcode::I32LeS => {
                return Self::run_lte(context, ValueType::I32, true);
            },
            Opcode::I32LeU => {
                return Self::run_lte(context, ValueType::I32, false);
            },
            Opcode::I32GeS => {
                return Self::run_gte(context, ValueType::I32, true);
            },
            Opcode::I32GeU => {
                return Self::run_gte(context, ValueType::I32, false);
            },
            Opcode::I64Eqz => {
                return Self::run_eqz(context, ValueType::I64);
            },
            Opcode::I64Eq => {
                return Self::run_eq(context, ValueType::I64);
            },
            Opcode::I64Ne => {
                return Self::run_ne(context, ValueType::I64);
            },
            Opcode::I64LtS => {
                return Self::run_lt(context, ValueType::I64, true);
            },
            Opcode::I64LtU => {
                return Self::run_lt(context, ValueType::I64, false);
            },
            Opcode::I64GtS => {
                return Self::run_gt(context, ValueType::I64, true);
            },
            Opcode::I64GtU => {
                return Self::run_gt(context, ValueType::I64, false);
            },
            Opcode::I64LeS => {
                return Self::run_lte(context, ValueType::I64, true);
            },
            Opcode::I64LeU => {
                return Self::run_lte(context, ValueType::I64, false);
            },
            Opcode::I64GeS => {
                return Self::run_gte(context, ValueType::I64, true);
            },
            Opcode::I64GeU => {
                return Self::run_gte(context, ValueType::I64, false);
            },
            Opcode::F32Eq => {
                return Self::run_eq(context, ValueType::F32);
            },
            Opcode::F32Ne => {
                return Self::run_ne(context, ValueType::F32);
            },
            Opcode::F32Lt => {
                return Self::run_lt(context, ValueType::F32, true);
            },
            Opcode::F32Gt => {
                return Self::run_gt(context, ValueType::F32, true);
            },
            Opcode::F32Le => {
                return Self::run_lte(context, ValueType::F32, true);
            },
            Opcode::F32Ge => {
                return Self::run_gte(context, ValueType::F32, true);
            },
            Opcode::F64Eq => {
                return Self::run_eq(context, ValueType::F64);
            },
            Opcode::F64Ne => {
                return Self::run_ne(context, ValueType::F64);
            },
            Opcode::F64Lt => {
                return Self::run_lt(context, ValueType::F64, true);
            },
            Opcode::F64Gt => {
                return Self::run_gt(context, ValueType::F64, true);
            },
            Opcode::F64Le => {
                return Self::run_lte(context, ValueType::F64, true);
            },
            Opcode::F64Ge => {
                return Self::run_gte(context, ValueType::F64, true);
            },
            Opcode::I32Clz => {
                return Self::run_clz(context, ValueType::I32);
            },
            Opcode::I32Ctz => {
                return Self::run_ctz(context, ValueType::I32);
            },
            Opcode::I32Popcnt => {
                return Self::run_popcnt(context, ValueType::I32);
            },
            Opcode::I32Add => {
                return Self::run_add(context, ValueType::I32);
            },
            Opcode::I32Sub => {
                return Self::run_sub(context, ValueType::I32);
            },
            Opcode::I32Mul => {
                return Self::run_mul(context, ValueType::I32);
            },
            Opcode::I32DivS => {
                return Self::run_div(context, ValueType::I32, true);
            },
            Opcode::I32DivU => {
                return Self::run_div(context, ValueType::I32, false);
            },
            Opcode::I32RemS => {
                return Self::run_rem(context, ValueType::I32, true);
            },
            Opcode::I32RemU => {
                return Self::run_rem(context, ValueType::I32, false);
            },
            Opcode::I32And => {
                return Self::run_and(context, ValueType::I32);
            },
            Opcode::I32Or => {
                return Self::run_or(context, ValueType::I32);
            },
            Opcode::I32Xor => {
                return Self::run_xor(context, ValueType::I32);
            },
            Opcode::I32Shl => {
                return Self::run_shl(context, ValueType::I32);
            },
            Opcode::I32ShrS => {
                return Self::run_shr(context, ValueType::I32, true);
            },
            Opcode::I32ShrU => {
                return Self::run_shr(context, ValueType::I32, false);
            },
            Opcode::I32Rotl => {
                return Self::run_rotl(context, ValueType::I32);
            },
            Opcode::I32Rotr => {
                return Self::run_rotr(context, ValueType::I32);
            },
            Opcode::I64Clz => {
                return Self::run_clz(context, ValueType::I64);
            },
            Opcode::I64Ctz => {
                return Self::run_ctz(context, ValueType::I64);
            },
            Opcode::I64Popcnt => {
                return Self::run_popcnt(context, ValueType::I64);
            },
            Opcode::I64Add => {
                return Self::run_add(context, ValueType::I64);
            },
            Opcode::I64Sub => {
                return Self::run_sub(context, ValueType::I64);
            },
            Opcode::I64Mul => {
                return Self::run_mul(context, ValueType::I64);
            },
            Opcode::I64DivS => {
                return Self::run_div(context, ValueType::I64, true);
            },
            Opcode::I64DivU => {
                return Self::run_div(context, ValueType::I64, false);
            },
            Opcode::I64RemS => {
                return Self::run_rem(context, ValueType::I64, true);
            },
            Opcode::I64RemU => {
                return Self::run_rem(context, ValueType::I64, false);
            },
            Opcode::I64And => {
                return Self::run_and(context, ValueType::I64);
            },
            Opcode::I64Or => {
                return Self::run_or(context, ValueType::I64);
            },
            Opcode::I64Xor => {
                return Self::run_xor(context, ValueType::I64);
            },
            Opcode::I64Shl => {
                return Self::run_shl(context, ValueType::I64);
            },
            Opcode::I64ShrS => {
                return Self::run_shr(context, ValueType::I64, true);
            },
            Opcode::I64ShrU => {
                return Self::run_shr(context, ValueType::I64, false);
            },
            Opcode::I64Rotl => {
                return Self::run_rotl(context, ValueType::I64);
            },
            Opcode::I64Rotr => {
                return Self::run_rotr(context, ValueType::I64);
            },
            Opcode::F32Abs => {
                return Self::run_abs(context, ValueType::F32);
            },
            Opcode::F32Neg => {
                return Self::run_neg(context, ValueType::F32);
            },
            Opcode::F32Ceil => {
                return Self::run_ceil(context, ValueType::F32);
            },
            Opcode::F32Floor => {
                return Self::run_floor(context, ValueType::F32);
            },
            Opcode::F32Trunc => {
                return Self::run_trunc(context, ValueType::F32);
            },
            Opcode::F32Nearest => {
                return Self::run_nearest(context, ValueType::F32);
            },
            Opcode::F32Sqrt => {
                return Self::run_sqrt(context, ValueType::F32);
            },
            Opcode::F32Add => {
                return Self::run_add(context, ValueType::F32);
            },
            Opcode::F32Sub => {
                return Self::run_sub(context, ValueType::F32);
            },
            Opcode::F32Mul => {
                return Self::run_mul(context, ValueType::F32);
            },
            Opcode::F32Div => {
                return Self::run_div(context, ValueType::F32, true);
            },
            Opcode::F32Min => {
                return Self::run_min(context, ValueType::F32);
            },
            Opcode::F32Max => {
                return Self::run_max(context, ValueType::F32);
            },
            Opcode::F32Copysign => {
                return Self::run_copysign(context, ValueType::F32);
            },
            Opcode::F64Abs => {
                return Self::run_abs(context, ValueType::F64);
            },
            Opcode::F64Neg => {
                return Self::run_neg(context, ValueType::F64);
            },
            Opcode::F64Ceil => {
                return Self::run_ceil(context, ValueType::F64);
            },
            Opcode::F64Floor => {
                return Self::run_floor(context, ValueType::F64);
            },
            Opcode::F64Trunc => {
                return Self::run_trunc(context, ValueType::F64);
            },
            Opcode::F64Nearest => {
                return Self::run_nearest(context, ValueType::F64);
            },
            Opcode::F64Sqrt => {
                return Self::run_sqrt(context, ValueType::F64);
            },
            Opcode::F64Add => {
                return Self::run_add(context, ValueType::F64);
            },
            Opcode::F64Sub => {
                return Self::run_sub(context, ValueType::F64);
            },
            Opcode::F64Mul => {
                return Self::run_mul(context, ValueType::F64);
            },
            Opcode::F64Div => {
                return Self::run_div(context, ValueType::F64, true);
            },
            Opcode::F64Min => {
                return Self::run_min(context, ValueType::F64);
            },
            Opcode::F64Max => {
                return Self::run_max(context, ValueType::F64);
            },
            Opcode::F64Copysign => {
                return Self::run_copysign(context, ValueType::F64);
            },
            Opcode::I32WarpI64 => {
                return Self::run_wrap(context, ValueType::I64, ValueType::I32, true);
            },
            Opcode::I32TruncSF32 => {
                return Self::run_trunc_to_int(context, ValueType::F32, ValueType::I32, true);
            },
            Opcode::I32TruncUF32 => {
                return Self::run_trunc_to_int(context, ValueType::F32, ValueType::I32, false);
            },
            Opcode::I32TruncSF64 => {
                return Self::run_trunc_to_int(context, ValueType::F64, ValueType::I32, true);
            },
            Opcode::I32TruncUF64 => {
                return Self::run_trunc_to_int(context, ValueType::F64, ValueType::I32, false);
            },
            Opcode::I64ExtendSI32 => {
                return Self::run_extend(context, ValueType::I32, ValueType::I64, true);
            },
            Opcode::I64ExtendUI32 => {
                return Self::run_extend(context, ValueType::I32, ValueType::I64, false);
            },
            Opcode::I64TruncSF32 => {
                return Self::run_trunc_to_int(context, ValueType::F32, ValueType::I64, true);
            },
            Opcode::I64TruncUF32 => {
                return Self::run_trunc_to_int(context, ValueType::F32, ValueType::I64, false);
            },
            Opcode::I64TruncSF64 => {
                return Self::run_trunc_to_int(context, ValueType::F64, ValueType::I64, true);
            },
            Opcode::I64TruncUF64 => {
                return Self::run_trunc_to_int(context, ValueType::F64, ValueType::I64, false);
            },
            Opcode::F32ConvertSI32 => {
                return Self::run_extend(context, ValueType::I32, ValueType::F32, true);
            },
            Opcode::F32ConvertUI32 => {
                return Self::run_extend(context, ValueType::I32, ValueType::F32, false);
            },
            Opcode::F32ConvertSI64 => {
                return Self::run_wrap(context, ValueType::I64, ValueType::F32, true);
            },
            Opcode::F32ConvertUI64 => {
                return Self::run_wrap(context, ValueType::I64, ValueType::F32, false);
            },
            Opcode::F32DemoteF64 => {
                return Self::run_wrap(context, ValueType::F64, ValueType::F32, true);
            },
            Opcode::F64ConvertSI32 => {
                return Self::run_extend(context, ValueType::I32, ValueType::F64, true);
            },
            Opcode::F64ConvertUI32 => {
                return Self::run_extend(context, ValueType::I32, ValueType::F64, false);
            },
            Opcode::F64ConvertSI64 => {
                return Self::run_extend(context, ValueType::I64, ValueType::F64, true);
            },
            Opcode::F64ConvertUI64 => {
                return Self::run_extend(context, ValueType::I64, ValueType::F64, false);
            },
            Opcode::F64PromoteF32 => {
                return Self::run_extend(context, ValueType::F32, ValueType::F64, true);
            },
            Opcode::I32ReinterpretF32 => {
                return Self::run_reinterpret(context, ValueType::F32);
            },
            Opcode::I64ReinterpretF64 => {
                return Self::run_reinterpret(context, ValueType::F64);
            },
            Opcode::F32ReinterpretI32 => {
                return Self::run_reinterpret(context, ValueType::I32);
            },
            Opcode::F64ReinterpretI64 => {
                return Self::run_reinterpret(context, ValueType::I64);
            },
        }
    }

    /// `block`: enters a block that, when left, resumes behind this
    /// instruction, and runs it to its end.
    pub fn run_block(context: &mut FunctionContext, block_type: BlockType, body: &[Opcode]) -> (r:
        Result<InstructionOutcome, Error>)
        requires
            old(context)@.wf(),
        ensures
            (final(context)@, r) == Self::spec_run_block(old(context)@, block_type, body@),
            old(context)@.settled(final(context)@, r),
        decreases old(context)@.budget, 2int,
    {
        if context.position == usize::MAX {
            return Err(Error::Interpreter);
        }
        let frame_position = context.position + 1;
        context.push_frame(frame_position, block_type)?;
        assert(context@.frames.drop_last() =~= old(context)@.frames);
        Self::execute_block(context, block_type, body)
    }

    /// `loop`: enters a block that, when left, resumes at this
    /// instruction, and runs it to its end.
    pub fn run_loop(context: &mut FunctionContext, block_type: BlockType, body: &[Opcode]) -> (r:
        Result<InstructionOutcome, Error>)
        requires
            old(context)@.wf(),
        ensures
            (final(context)@, r) == Self::spec_run_loop(old(context)@, block_type, body@),
            old(context)@.settled(final(context)@, r),
        decreases old(context)@.budget, 2int,
    {
        let frame_position = context.position;
        context.push_frame(frame_position, block_type)?;
        assert(context@.frames.drop_last() =~= old(context)@.frames);
        Self::execute_block(context, block_type, body)
    }

    /// `if`: pops a condition, and enters and runs to its end the arm of
    /// the body that it selects, unless that arm is empty.
    pub fn run_if(context: &mut FunctionContext, block_type: BlockType, body: &[Opcode]) -> (r:
        Result<InstructionOutcome, Error>)
        requires
            old(context)@.wf(),
        ensures
            (final(context)@, r) == Self::spec_run_if(old(context)@, block_type, body@),
            old(context)@.settled(final(context)@, r),
        decreases old(context)@.budget, 2int,
    {
        let body_len = body.len();
        let split = else_split(body);
        let (begin_index, end_index) = if context.pop_condition()? {
            (0, split)
        } else {
            (split, body_len)
        };
        if begin_index != end_index {
            if context.position == usize::MAX {
                return Err(Error::Interpreter);
            }
            let frame_position = context.position + 1;
            context.push_frame(frame_position, block_type)?;
            assert(context@.frames.drop_last() =~= old(context)@.frames);
            Self::execute_block(context, block_type, slice_subrange(body, begin_index, end_index))
        } else {
            Ok(InstructionOutcome::RunNextInstruction)
        }
    }

    /// Executes `body` from its first instruction on, in the block whose
    /// frame is on top of the frame stack, until the block is left, the
    /// function returns or the call fails. When the block is left, its frame
    /// is gone, execution stands at the frame's position, and the value
    /// stack is as deep as the frame's value limit, and one deeper if the
    /// block has a result.
    pub fn execute_block(context: &mut FunctionContext, block_type: BlockType, body: &[Opcode]) -> (r:
        Result<InstructionOutcome, Error>)
        requires
            old(context)@.wf(),
        ensures
            (final(context)@, r) == Self::spec_execute_block(old(context)@, block_type, body@),
            old(context)@.left(final(context)@, r),
        decreases old(context)@.budget, 1int,
    {
        context.position = 0;
        let ghost goal = Self::spec_execute_block(old(context)@, block_type, body@);
        let ghost entry = old(context)@;
        let mut outcome: Result<InstructionOutcome, Error> = Err(Error::Interpreter);
        loop
            invariant_except_break
                context@.wf(),
                context@.budget <= entry.budget,
                context@.frames == entry.frames,
                Self::spec_dispatch(context@, body@) == goal,
            invariant
                entry == old(context)@,
                goal == Self::spec_execute_block(entry, block_type, body@),
            ensures
                (context@, outcome) == goal,
                entry.left(context@, outcome),
            decreases context@.budget,
        {
            if context.position >= body.len() || context.budget == 0 {
                outcome = Err(Error::Interpreter);
                break ;
            }
            context.budget = context.budget - 1;
            let instruction = &body[context.position];
            match Self::run_instruction(context, instruction) {
                Err(e) => {
                    outcome = Err(e);
                    break ;
                },
                Ok(InstructionOutcome::RunInstruction) => {},
                Ok(InstructionOutcome::RunNextInstruction) => {
                    if context.position == usize::MAX {
                        outcome = Err(Error::Interpreter);
                        break ;
                    }
                    context.position = context.position + 1;
                },
                Ok(InstructionOutcome::PopFrame(index)) => {
                    match context.pop_frame() {
                        Err(e) => {
                            outcome = Err(e);
                        },
                        Ok(_) => {
                            if index != 0 {
                                outcome = Ok(InstructionOutcome::PopFrame(index - 1));
                            } else {
                                outcome = Ok(InstructionOutcome::RunInstruction);
                            }
                        },
                    }
                    break ;
                },
                Ok(InstructionOutcome::Return) => {
                    outcome = Ok(InstructionOutcome::Return);
                    break ;
                },
            }
        }
        outcome
    }
}


impl Machine {
    /// Whether this is the state in which the body of a function with a
    /// result of type `block_type` is entered: the frame of the function is
    /// the only one, it has that type, and it was pushed on an empty value
    /// stack.
    pub open spec fn at_entry(self, block_type: BlockType) -> bool {
        &&& self.frames.len() == 1
        &&& self.frames[0].value_limit == 0
        &&& self.frames[0].signature == block_type
    }

    /// The result of a block of type `block_type`, taken from the top of
    /// the value stack; none if the block has no result.
    pub open spec fn spec_pop_result(self, block_type: BlockType) -> Step<Option<RuntimeValue>> {
        match block_type {
            BlockType::Value(value_type) => {
                let (m, r) = self.spec_pop_value_as(value_type);
                match r {
                    Err(e) => (m, Err(e)),
                    Ok(v) => (m, Ok(Some(v))),
                }
            },
            BlockType::NoResult => (self, Ok(None)),
        }
    }

    /// Both stacks emptied.
    pub open spec fn unwound(self) -> Machine {
        self.with_values(Seq::empty()).with_frames(Seq::empty())
    }
}

impl FunctionContext {
    /// Takes the result of a block of type `block_type` off the value stack.
    pub fn pop_result(&mut self, block_type: BlockType) -> (r: Result<Option<RuntimeValue>, Error>)
        ensures
            (final(self)@, r) == old(self)@.spec_pop_result(block_type),
            final(self)@.frames == old(self)@.frames,
            final(self)@.module == old(self)@.module,
            final(self)@.budget == old(self)@.budget,
            r is Ok ==> final(self)@.values.len() + (if block_type is Value {
                1int
            } else {
                0int
            }) == old(self)@.values.len(),
    {
        match block_type {
            BlockType::Value(value_type) => {
                let v = self.pop_value_as(value_type)?;
                Ok(Some(v))
            },
            BlockType::NoResult => Ok(None),
        }
    }

    /// Empties both stacks.
    pub fn unwind(&mut self)
        ensures
            final(self)@ == old(self)@.unwound(),
    {
        self.value_stack.truncate(0);
        self.frame_stack.truncate(0);
        assert(self@ =~= old(self)@.unwound());
    }
}

impl Interpreter {
    /// What a call comes to that starts in state `m`: the body is executed
    /// as a block of type `block_type`, and the result of that type is taken
    /// off the value stack. Where the body returns by `return`, the result is
    /// taken first, and then every frame and value that is left goes.
    pub open spec fn spec_run_context(m: Machine, block_type: BlockType, body: Seq<Opcode>) -> Step<
        Option<RuntimeValue>,
    > {
        let (m1, r) = Self::spec_execute_block(m, block_type, body);
        match r {
            Err(e) => (m1, Err(e)),
            Ok(InstructionOutcome::Return) => {
                let (m2, r) = m1.spec_pop_result(block_type);
                match r {
                    Err(e) => (m2, Err(e)),
                    Ok(v) => (m2.unwound(), Ok(v)),
                }
            },
            Ok(_) => m1.spec_pop_result(block_type),
        }
    }

    /// Runs the call that `context` was made for: executes `body` as a
    /// block of type `block_type` and returns the result of that type, if it
    /// has one. After a call that was entered as `Machine::at_entry` says and
    /// that ends without an error, the value stack and the frame stack are
    /// both empty.
    pub fn run_context(context: &mut FunctionContext, block_type: BlockType, body: &[Opcode]) -> (r:
        Result<Option<RuntimeValue>, Error>)
        requires
            old(context)@.wf(),
        ensures
            (final(context)@, r) == Self::spec_run_context(old(context)@, block_type, body@),
            final(context)@.wf(),
            final(context)@.budget <= old(context)@.budget,
            r is Ok && old(context)@.at_entry(block_type) ==> final(context)@.values.len() == 0 && final(context)@.frames.len() == 0,
            r matches Ok(v) ==> match block_type {
                BlockType::Value(value_type) => v is Some && v->Some_0.spec_value_type()
                    == value_type,
                BlockType::NoResult => v is None,
            },
    {
        match Self::execute_block(context, block_type, body)? {
            InstructionOutcome::Return => {
                let result = context.pop_result(block_type)?;
                context.unwind();
                Ok(result)
            },
            _ => context.pop_result(block_type),
        }
    }

    /// What a call in a given module comes to: the module after it and the
    /// result. A call that cannot be started leaves the module unchanged.
    pub open spec fn spec_run_function_in(
        module: ModuleModel,
        function: FunctionType,
        declared: Seq<ValueType>,
        body: Seq<Opcode>,
        args: Seq<RuntimeValue>,
        budget: u64,
    ) -> (ModuleModel, Result<Option<RuntimeValue>, Error>) {
        match FunctionContext::spec_new(module, function, declared, body, args, budget) {
            Err(e) => (module, Err(e)),
            Ok(m) => {
                let (m1, r) = Self::spec_run_context(
                    m,
                    spec_block_type_of(function.spec_return_type()),
                    body,
                );
                (m1.module, r)
            },
        }
    }

    /// Calls a function of signature `function`, locals of the types
    /// `declared` and body `body` on `args` in `module`, executing at most
    /// `budget` instructions. Returns the result, of the type that the
    /// signature gives, if it gives one. What the call stored in memory and
    /// in globals stays in `module`, also where the call fails.
    pub fn run_function_in(
        module: &mut ModuleInstance,
        function: &FunctionType,
        declared: &[ValueType],
        body: &[Opcode],
        args: &[RuntimeValue],
        budget: u64,
    ) -> (r: Result<Option<RuntimeValue>, Error>)
        requires
            old(module)@.wf(),
        ensures
            (final(module)@, r) == Self::spec_run_function_in(
                old(module)@,
                *function,
                declared@,
                body@,
                args@,
                budget,
            ),
            final(module)@.wf(),
            r matches Ok(v) ==> match function.spec_return_type() {
                Some(value_type) => v is Some && v->Some_0.spec_value_type() == value_type,
                None => v is None,
            },
    {
        if body.len() == 0 || !check_args(function.params(), args) {
            return Err(Error::Interpreter);
        }
        // the context owns the module for the time of the call
        let mut owned = ModuleInstance::empty();
        core::mem::swap(module, &mut owned);
        match FunctionContext::new(owned, function, declared, body, args, budget) {
            Err(e) => {
                assert(false);
                Err(e)
            },
            Ok(context) => {
                let mut context = context;
                let block_type = block_type_of(function.return_type());
                let r = Self::run_context(&mut context, block_type, body);
                let mut after = context.into_module();
                core::mem::swap(module, &mut after);
                r
            },
        }
    }

    /// What `run_function` returns: the result of the call in a module
    /// without memory and without globals, without locals besides the
    /// arguments, with the default budget.
    pub open spec fn spec_run_function(
        function: FunctionType,
        body: Seq<Opcode>,
        args: Seq<RuntimeValue>,
    ) -> Result<Option<RuntimeValue>, Error> {
        Self::spec_run_function_in(
            ModuleModel::empty(),
            function,
            Seq::empty(),
            body,
            args,
            DEFAULT_BUDGET,
        ).1
    }

    /// Calls a function of signature `function` and body `body` on `args`,
    /// in a module without memory and without globals; the arguments are
    /// its only locals. `args` must be as
    /// many as the signature has parameters, each of its parameter's type,
    /// and the body must hold an instruction: else the call fails with
    /// `Error::Interpreter`, as it does after `DEFAULT_BUDGET` instructions.
    /// Returns the result, of the type that the signature gives, if it gives
    /// one.
    pub fn run_function(function: &FunctionType, body: &[Opcode], args: &[RuntimeValue]) -> (r:
        Result<Option<RuntimeValue>, Error>)
        ensures
            r == Self::spec_run_function(*function, body@, args@),
            r matches Ok(v) ==> match function.spec_return_type() {
                Some(value_type) => v is Some && v->Some_0.spec_value_type() == value_type,
                None => v is None,
            },
    {
        let mut module = ModuleInstance::empty();
        let declared: Vec<ValueType> = Vec::new();
        Self::run_function_in(&mut module, function, declared.as_slice(), body, args, DEFAULT_BUDGET)
    }
}

impl Machine {
    /// After a frame has been popped, the value stack is as deep as the
    /// frame's value limit, and one deeper if the frame has a result; the
    /// frames below are untouched and execution stands at the frame's
    /// position.
    pub proof fn lemma_pop_frame(self)
        ensures
            ({
                let (after, r) = self.spec_pop_frame();
                &&& after.budget == self.budget
                &&& after.module == self.module
                &&& r is Ok ==> {
                    let frame = self.frames.last();
                    &&& self.frames.len() > 0
                    &&& frame.value_limit <= self.values.len()
                    &&& after.frames == self.frames.drop_last()
                    &&& after.position == frame.position
                    &&& after.values.len() == frame.value_limit + (if frame.signature is Value {
                        1int
                    } else {
                        0int
                    })
                }
            }),
    {
    }
}

impl Interpreter {
    /// Of every instruction: the module stays well-formed, the budget does
    /// not grow, and, unless the function returns or the call fails, the
    /// frame stack after the instruction is what it was before.
    pub proof fn lemma_run_instruction_settled(m: Machine, opcode: Opcode)
        requires
            m.wf(),
        ensures
            m.settled(Self::spec_run_instruction(m, opcode).0, Self::spec_run_instruction(m, opcode).1),
        decreases m.budget, 3int,
    {
        match opcode {
            Opcode::Block(block_type, ops) => {
                if m.position != usize::MAX {
                    let entered = m.spec_push_frame((m.position + 1) as usize, block_type);
                    Self::lemma_execute_block_left(entered, block_type, ops.spec_elements());
                    assert(entered.frames.drop_last() =~= m.frames);
                }
            },
            Opcode::Loop(block_type, ops) => {
                let entered = m.spec_push_frame(m.position, block_type);
                Self::lemma_execute_block_left(entered, block_type, ops.spec_elements());
                assert(entered.frames.drop_last() =~= m.frames);
            },
            Opcode::If(block_type, ops) => {
                let body = ops.spec_elements();
                let (m1, r) = m.spec_pop_condition();
                if let Ok(condition) = r {
                    let split = spec_else_split(body, 0);
                    lemma_else_split_bounds(body, 0);
                    let begin = if condition {
                        0
                    } else {
                        split
                    };
                    let end = if condition {
                        split
                    } else {
                        body.len() as int
                    };
                    if begin != end && m1.position != usize::MAX && m1.budget <= m.budget {
                        let entered = m1.spec_push_frame((m1.position + 1) as usize, block_type);
                        Self::lemma_execute_block_left(
                            entered,
                            block_type,
                            body.subrange(begin, end),
                        );
                        assert(entered.frames.drop_last() =~= m.frames);
                    }
                }
            },
            _ => {
                Self::lemma_plain_instruction_steady(m, opcode);
            },
        }
    }

    /// `run_unreachable` changes nothing that steers the dispatcher.
    pub proof fn lemma_run_unreachable_steady(m: Machine)
        ensures
            m.steady(Self::spec_run_unreachable(m).0),
    {
    }

    /// `run_nop` changes nothing that steers the dispatcher.
    pub proof fn lemma_run_nop_steady(m: Machine)
        ensures
            m.steady(Self::spec_run_nop(m).0),
    {
    }

    /// `run_else` changes nothing that steers the dispatcher.
    pub proof fn lemma_run_else_steady(m: Machine)
        ensures
            m.steady(Self::spec_run_else(m).0),
    {
    }

    /// `run_end` changes nothing that steers the dispatcher.
    pub proof fn lemma_run_end_steady(m: Machine)
        ensures
            m.steady(Self::spec_run_end(m).0),
    {
    }

    /// `run_br` changes nothing that steers the dispatcher.
    pub proof fn lemma_run_br_steady(m: Machine, label_idx: u32)
        ensures
            m.steady(Self::spec_run_br(m, label_idx).0),
    {
    }

    /// `run_br_if` changes nothing that steers the dispatcher.
    pub proof fn lemma_run_br_if_steady(m: Machine, label_idx: u32)
        ensures
            m.steady(Self::spec_run_br_if(m, label_idx).0),
    {
    }

    /// `run_br_table` changes nothing that steers the dispatcher.
    pub proof fn lemma_run_br_table_steady(m: Machine, table: Seq<u32>, default: u32)
        ensures
            m.steady(Self::spec_run_br_table(m, table, default).0),
    {
    }

    /// `run_return` changes nothing that steers the dispatcher.
    pub proof fn lemma_run_return_steady(m: Machine)
        ensures
            m.steady(Self::spec_run_return(m).0),
    {
    }

    /// `run_call` changes nothing that steers the dispatcher.
    pub proof fn lemma_run_call_steady(m: Machine, func_idx: u32)
        ensures
            m.steady(Self::spec_run_call(m, func_idx).0),
    {
    }

    /// `run_call_indirect` changes nothing that steers the dispatcher.
    pub proof fn lemma_run_call_indirect_steady(m: Machine, type_idx: u32)
        ensures
            m.steady(Self::spec_run_call_indirect(m, type_idx).0),
    {
    }

    /// `run_drop` changes nothing that steers the dispatcher.
    pub proof fn lemma_run_drop_steady(m: Machine)
        ensures
            m.steady(Self::spec_run_drop(m).0),
    {
    }

    /// `run_select` changes nothing that steers the dispatcher.
    pub proof fn lemma_run_select_steady(m: Machine)
        ensures
            m.steady(Self::spec_run_select(m).0),
    {
    }

    /// `run_get_local` changes nothing that steers the dispatcher.
    pub proof fn lemma_run_get_local_steady(m: Machine, index: u32)
        ensures
            m.steady(Self::spec_run_get_local(m, index).0),
    {
    }

    /// `run_set_local` changes nothing that steers the dispatcher.
    pub proof fn lemma_run_set_local_steady(m: Machine, index: u32)
        ensures
            m.steady(Self::spec_run_set_local(m, index).0),
    {
    }

    /// `run_tee_local` changes nothing that steers the dispatcher.
    pub proof fn lemma_run_tee_local_steady(m: Machine, index: u32)
        ensures
            m.steady(Self::spec_run_tee_local(m, index).0),
    {
    }

    /// `run_get_global` changes nothing that steers the dispatcher.
    pub proof fn lemma_run_get_global_steady(m: Machine, index: u32)
        ensures
            m.steady(Self::spec_run_get_global(m, index).0),
    {
    }

    /// `run_set_global` changes nothing that steers the dispatcher.
    pub proof fn lemma_run_set_global_steady(m: Machine, index: u32)
        ensures
            m.steady(Self::spec_run_set_global(m, index).0),
    {
    }

    /// `run_load` changes nothing that steers the dispatcher.
    pub proof fn lemma_run_load_steady(m: Machine, value_type: ValueType, offset: u32, align: u32)
        ensures
            m.steady(Self::spec_run_load(m, value_type, offset, align).0),
    {
    }

    /// `run_load_extend` changes nothing that steers the dispatcher.
    pub proof fn lemma_run_load_extend_steady(m: Machine, value_type: ValueType, width: usize, signed: bool, offset: u32, align: u32)
        ensures
            m.steady(Self::spec_run_load_extend(m, value_type, width, signed, offset, align).0),
    {
    }

    /// `run_store` changes nothing that steers the dispatcher.
    pub proof fn lemma_run_store_steady(m: Machine, value_type: ValueType, offset: u32, align: u32)
        ensures
            m.steady(Self::spec_run_store(m, value_type, offset, align).0),
    {
    }

    /// `run_store_wrap` changes nothing that steers the dispatcher.
    pub proof fn lemma_run_store_wrap_steady(m: Machine, value_type: ValueType, width: usize, offset: u32, align: u32)
        ensures
            m.steady(Self::spec_run_store_wrap(m, value_type, width, offset, align).0),
    {
    }

    /// `run_current_memory` changes nothing that steers the dispatcher.
    pub proof fn lemma_run_current_memory_steady(m: Machine)
        ensures
            m.steady(Self::spec_run_current_memory(m).0),
    {
    }

    /// `run_grow_memory` changes nothing that steers the dispatcher.
    pub proof fn lemma_run_grow_memory_steady(m: Machine)
        ensures
            m.steady(Self::spec_run_grow_memory(m).0),
    {
    }

    /// `run_const` changes nothing that steers the dispatcher.
    pub proof fn lemma_run_const_steady(m: Machine, val: RuntimeValue)
        ensures
            m.steady(Self::spec_run_const(m, val).0),
    {
    }

    /// `run_eqz` changes nothing that steers the dispatcher.
    pub proof fn lemma_run_eqz_steady(m: Machine, value_type: ValueType)
        ensures
            m.steady(Self::spec_run_eqz(m, value_type).0),
    {
    }

    /// `run_eq` changes nothing that steers the dispatcher.
    pub proof fn lemma_run_eq_steady(m: Machine, value_type: ValueType)
        ensures
            m.steady(Self::spec_run_eq(m, value_type).0),
    {
    }

    /// `run_ne` changes nothing that steers the dispatcher.
    pub proof fn lemma_run_ne_steady(m: Machine, value_type: ValueType)
        ensures
            m.steady(Self::spec_run_ne(m, value_type).0),
    {
    }

    /// `run_lt` changes nothing that steers the dispatcher.
    pub proof fn lemma_run_lt_steady(m: Machine, value_type: ValueType, signed: bool)
        ensures
            m.steady(Self::spec_run_lt(m, value_type, signed).0),
    {
    }

    /// `run_gt` changes nothing that steers the dispatcher.
    pub proof fn lemma_run_gt_steady(m: Machine, value_type: ValueType, signed: bool)
        ensures
            m.steady(Self::spec_run_gt(m, value_type, signed).0),
    {
    }

    /// `run_lte` changes nothing that steers the dispatcher.
    pub proof fn lemma_run_lte_steady(m: Machine, value_type: ValueType, signed: bool)
        ensures
            m.steady(Self::spec_run_lte(m, value_type, signed).0),
    {
    }

    /// `run_gte` changes nothing that steers the dispatcher.
    pub proof fn lemma_run_gte_steady(m: Machine, value_type: ValueType, signed: bool)
        ensures
            m.steady(Self::spec_run_gte(m, value_type, signed).0),
    {
    }

    /// `run_clz` changes nothing that steers the dispatcher.
    pub proof fn lemma_run_clz_steady(m: Machine, value_type: ValueType)
        ensures
            m.steady(Self::spec_run_clz(m, value_type).0),
    {
    }

    /// `run_ctz` changes nothing that steers the dispatcher.
    pub proof fn lemma_run_ctz_steady(m: Machine, value_type: ValueType)
        ensures
            m.steady(Self::spec_run_ctz(m, value_type).0),
    {
    }

    /// `run_popcnt` changes nothing that steers the dispatcher.
    pub proof fn lemma_run_popcnt_steady(m: Machine, value_type: ValueType)
        ensures
            m.steady(Self::spec_run_popcnt(m, value_type).0),
    {
    }

    /// `run_add` changes nothing that steers the dispatcher.
    pub proof fn lemma_run_add_steady(m: Machine, value_type: ValueType)
        ensures
            m.steady(Self::spec_run_add(m, value_type).0),
    {
    }

    /// `run_sub` changes nothing that steers the dispatcher.
    pub proof fn lemma_run_sub_steady(m: Machine, value_type: ValueType)
        ensures
            m.steady(Self::spec_run_sub(m, value_type).0),
    {
    }

    /// `run_mul` changes nothing that steers the dispatcher.
    pub proof fn lemma_run_mul_steady(m: Machine, value_type: ValueType)
        ensures
            m.steady(Self::spec_run_mul(m, value_type).0),
    {
    }

    /// `run_div` changes nothing that steers the dispatcher.
    pub proof fn lemma_run_div_steady(m: Machine, value_type: ValueType, signed: bool)
        ensures
            m.steady(Self::spec_run_div(m, value_type, signed).0),
    {
    }

    /// `run_rem` changes nothing that steers the dispatcher.
    pub proof fn lemma_run_rem_steady(m: Machine, value_type: ValueType, signed: bool)
        ensures
            m.steady(Self::spec_run_rem(m, value_type, signed).0),
    {
    }

    /// `run_and` changes nothing that steers the dispatcher.
    pub proof fn lemma_run_and_steady(m: Machine, value_type: ValueType)
        ensures
            m.steady(Self::spec_run_and(m, value_type).0),
    {
    }

    /// `run_or` changes nothing that steers the dispatcher.
    pub proof fn lemma_run_or_steady(m: Machine, value_type: ValueType)
        ensures
            m.steady(Self::spec_run_or(m, value_type).0),
    {
    }

    /// `run_xor` changes nothing that steers the dispatcher.
    pub proof fn lemma_run_xor_steady(m: Machine, value_type: ValueType)
        ensures
            m.steady(Self::spec_run_xor(m, value_type).0),
    {
    }

    /// `run_shl` changes nothing that steers the dispatcher.
    pub proof fn lemma_run_shl_steady(m: Machine, value_type: ValueType)
        ensures
            m.steady(Self::spec_run_shl(m, value_type).0),
    {
    }

    /// `run_shr` changes nothing that steers the dispatcher.
    pub proof fn lemma_run_shr_steady(m: Machine, value_type: ValueType, signed: bool)
        ensures
            m.steady(Self::spec_run_shr(m, value_type, signed).0),
    {
    }

    /// `run_rotl` changes nothing that steers the dispatcher.
    pub proof fn lemma_run_rotl_steady(m: Machine, value_type: ValueType)
        ensures
            m.steady(Self::spec_run_rotl(m, value_type).0),
    {
    }

    /// `run_rotr` changes nothing that steers the dispatcher.
    pub proof fn lemma_run_rotr_steady(m: Machine, value_type: ValueType)
        ensures
            m.steady(Self::spec_run_rotr(m, value_type).0),
    {
    }

    /// `run_abs` changes nothing that steers the dispatcher.
    pub proof fn lemma_run_abs_steady(m: Machine, value_type: ValueType)
        ensures
            m.steady(Self::spec_run_abs(m, value_type).0),
    {
    }

    /// `run_neg` changes nothing that steers the dispatcher.
    pub proof fn lemma_run_neg_steady(m: Machine, value_type: ValueType)
        ensures
            m.steady(Self::spec_run_neg(m, value_type).0),
    {
    }

    /// `run_ceil` changes nothing that steers the dispatcher.
    pub proof fn lemma_run_ceil_steady(m: Machine, value_type: ValueType)
        ensures
            m.steady(Self::spec_run_ceil(m, value_type).0),
    {
    }

    /// `run_floor` changes nothing that steers the dispatcher.
    pub proof fn lemma_run_floor_steady(m: Machine, value_type: ValueType)
        ensures
            m.steady(Self::spec_run_floor(m, value_type).0),
    {
    }

    /// `run_trunc` changes nothing that steers the dispatcher.
    pub proof fn lemma_run_trunc_steady(m: Machine, value_type: ValueType)
        ensures
            m.steady(Self::spec_run_trunc(m, value_type).0),
    {
    }

    /// `run_nearest` changes nothing that steers the dispatcher.
    pub proof fn lemma_run_nearest_steady(m: Machine, value_type: ValueType)
        ensures
            m.steady(Self::spec_run_nearest(m, value_type).0),
    {
    }

    /// `run_sqrt` changes nothing that steers the dispatcher.
    pub proof fn lemma_run_sqrt_steady(m: Machine, value_type: ValueType)
        ensures
            m.steady(Self::spec_run_sqrt(m, value_type).0),
    {
    }

    /// `run_min` changes nothing that steers the dispatcher.
    pub proof fn lemma_run_min_steady(m: Machine, value_type: ValueType)
        ensures
            m.steady(Self::spec_run_min(m, value_type).0),
    {
    }

    /// `run_max` changes nothing that steers the dispatcher.
    pub proof fn lemma_run_max_steady(m: Machine, value_type: ValueType)
        ensures
            m.steady(Self::spec_run_max(m, value_type).0),
    {
    }

    /// `run_copysign` changes nothing that steers the dispatcher.
    pub proof fn lemma_run_copysign_steady(m: Machine, value_type: ValueType)
        ensures
            m.steady(Self::spec_run_copysign(m, value_type).0),
    {
    }

    /// `run_wrap` changes nothing that steers the dispatcher.
    pub proof fn lemma_run_wrap_steady(m: Machine, value_type: ValueType, target: ValueType, signed: bool)
        ensures
            m.steady(Self::spec_run_wrap(m, value_type, target, signed).0),
    {
    }

    /// `run_trunc_to_int` changes nothing that steers the dispatcher.
    pub proof fn lemma_run_trunc_to_int_steady(m: Machine, value_type: ValueType, target: ValueType, signed: bool)
        ensures
            m.steady(Self::spec_run_trunc_to_int(m, value_type, target, signed).0),
    {
    }

    /// `run_extend` changes nothing that steers the dispatcher.
    pub proof fn lemma_run_extend_steady(m: Machine, value_type: ValueType, target: ValueType, signed: bool)
        ensures
            m.steady(Self::spec_run_extend(m, value_type, target, signed).0),
    {
    }

    /// `run_reinterpret` changes nothing that steers the dispatcher.
    pub proof fn lemma_run_reinterpret_steady(m: Machine, value_type: ValueType)
        ensures
            m.steady(Self::spec_run_reinterpret(m, value_type).0),
    {
    }

    /// A numbering that divides the instructions that enter no block into
    /// groups, for proofs that go through them group by group.
    spec fn instruction_group(opcode: Opcode) -> int {
        match opcode {
            Opcode::Block(_, _) => -1,
            Opcode::Loop(_, _) => -1,
            Opcode::If(_, _) => -1,
            Opcode::Unreachable => 0,
            Opcode::Nop => 0,
            Opcode::Else => 0,
            Opcode::End => 0,
            Opcode::Br(_) => 0,
            Opcode::BrIf(_) => 0,
            Opcode::BrTable(_, _) => 0,
            Opcode::Return => 0,
            Opcode::Call(_) => 0,
            Opcode::CallIndirect(_, _) => 0,
            Opcode::Drop => 0,
            Opcode::Select => 0,
            Opcode::GetLocal(_) => 0,
            Opcode::SetLocal(_) => 0,
            Opcode::TeeLocal(_) => 0,
            Opcode::GetGlobal(_) => 0,
            Opcode::SetGlobal(_) => 0,
            Opcode::I32Load(_, _) => 0,
            Opcode::I64Load(_, _) => 0,
            Opcode::F32Load(_, _) => 0,
            Opcode::F64Load(_, _) => 1,
            Opcode::I32Load8S(_, _) => 1,
            Opcode::I32Load8U(_, _) => 1,
            Opcode::I32Load16S(_, _) => 1,
            Opcode::I32Load16U(_, _) => 1,
            Opcode::I64Load8S(_, _) => 1,
            Opcode::I64Load8U(_, _) => 1,
            Opcode::I64Load16S(_, _) => 1,
            Opcode::I64Load16U(_, _) => 1,
            Opcode::I64Load32S(_, _) => 1,
            Opcode::I64Load32U(_, _) => 1,
            Opcode::I32Store(_, _) => 1,
            Opcode::I64Store(_, _) => 1,
            Opcode::F32Store(_, _) => 1,
            Opcode::F64Store(_, _) => 1,
            Opcode::I32Store8(_, _) => 1,
            Opcode::I32Store16(_, _) => 1,
            Opcode::I64Store8(_, _) => 1,
            Opcode::I64Store16(_, _) => 1,
            Opcode::I64Store32(_, _) => 1,
            Opcode::CurrentMemory(_) => 2,
            Opcode::GrowMemory(_) => 2,
            Opcode::I32Const(_) => 2,
            Opcode::I64Const(_) => 2,
            Opcode::F32Const(_) => 2,
            Opcode::F64Const(_) => 2,
            Opcode::I32Eqz => 2,
            Opcode::I32Eq => 2,
            Opcode::I32Ne => 2,
            Opcode::I32LtS => 2,
            Opcode::I32LtU => 2,
            Opcode::I32GtS => 2,
            Opcode::I32GtU => 2,
            Opcode::I32LeS => 2,
            Opcode::I32LeU => 2,
            Opcode::I32GeS => 2,
            Opcode::I32GeU => 2,
            Opcode::I64Eqz => 2,
            Opcode::I64Eq => 2,
            Opcode::I64Ne => 2,
            Opcode::I64LtS => 3,
            Opcode::I64LtU => 3,
            Opcode::I64GtS => 3,
            Opcode::I64GtU => 3,
            Opcode::I64LeS => 3,
            Opcode::I64LeU => 3,
            Opcode::I64GeS => 3,
            Opcode::I64GeU => 3,
            Opcode::F32Eq => 3,
            Opcode::F32Ne => 3,
            Opcode::F32Lt => 3,
            Opcode::F32Gt => 3,
            Opcode::F32Le => 3,
            Opcode::F32Ge => 3,
            Opcode::F64Eq => 3,
            Opcode::F64Ne => 3,
            Opcode::F64Lt => 3,
            Opcode::F64Gt => 3,
            Opcode::F64Le => 3,
            Opcode::F64Ge => 3,
            Opcode::I32Clz => 4,
            Opcode::I32Ctz => 4,
            Opcode::I32Popcnt => 4,
            Opcode::I32Add => 4,
            Opcode::I32Sub => 4,
            Opcode::I32Mul => 4,
            Opcode::I32DivS => 4,
            Opcode::I32DivU => 4,
            Opcode::I32RemS => 4,
            Opcode::I32RemU => 4,
            Opcode::I32And => 4,
            Opcode::I32Or => 4,
            Opcode::I32Xor => 4,
            Opcode::I32Shl => 4,
            Opcode::I32ShrS => 4,
            Opcode::I32ShrU => 4,
            Opcode::I32Rotl => 4,
            Opcode::I32Rotr => 4,
            Opcode::I64Clz => 4,
            Opcode::I64Ctz => 4,
            Opcode::I64Popcnt => 5,
            Opcode::I64Add => 5,
            Opcode::I64Sub => 5,
            Opcode::I64Mul => 5,
            Opcode::I64DivS => 5,
            Opcode::I64DivU => 5,
            Opcode::I64RemS => 5,
            Opcode::I64RemU => 5,
            Opcode::I64And => 5,
            Opcode::I64Or => 5,
            Opcode::I64Xor => 5,
            Opcode::I64Shl => 5,
            Opcode::I64ShrS => 5,
            Opcode::I64ShrU => 5,
            Opcode::I64Rotl => 5,
            Opcode::I64Rotr => 5,
            Opcode::F32Abs => 5,
            Opcode::F32Neg => 5,
            Opcode::F32Ceil => 5,
            Opcode::F32Floor => 5,
            Opcode::F32Trunc => 6,
            Opcode::F32Nearest => 6,
            Opcode::F32Sqrt => 6,
            Opcode::F32Add => 6,
            Opcode::F32Sub => 6,
            Opcode::F32Mul => 6,
            Opcode::F32Div => 6,
            Opcode::F32Min => 6,
            Opcode::F32Max => 6,
            Opcode::F32Copysign => 6,
            Opcode::F64Abs => 6,
            Opcode::F64Neg => 6,
            Opcode::F64Ceil => 6,
            Opcode::F64Floor => 6,
            Opcode::F64Trunc => 6,
            Opcode::F64Nearest => 6,
            Opcode::F64Sqrt => 6,
            Opcode::F64Add => 6,
            Opcode::F64Sub => 6,
            Opcode::F64Mul => 6,
            Opcode::F64Div => 7,
            Opcode::F64Min => 7,
            Opcode::F64Max => 7,
            Opcode::F64Copysign => 7,
            Opcode::I32WarpI64 => 7,
            Opcode::I32TruncSF32 => 7,
            Opcode::I32TruncUF32 => 7,
            Opcode::I32TruncSF64 => 7,
            Opcode::I32TruncUF64 => 7,
            Opcode::I64ExtendSI32 => 7,
            Opcode::I64ExtendUI32 => 7,
            Opcode::I64TruncSF32 => 7,
            Opcode::I64TruncUF32 => 7,
            Opcode::I64TruncSF64 => 7,
            Opcode::I64TruncUF64 => 7,
            Opcode::F32ConvertSI32 => 7,
            Opcode::F32ConvertUI32 => 7,
            Opcode::F32ConvertSI64 => 7,
            Opcode::F32ConvertUI64 => 7,
            Opcode::F32DemoteF64 => 7,
            Opcode::F64ConvertSI32 => 8,
            Opcode::F64ConvertUI32 => 8,
            Opcode::F64ConvertSI64 => 8,
            Opcode::F64ConvertUI64 => 8,
            Opcode::F64PromoteF32 => 8,
            Opcode::I32ReinterpretF32 => 8,
            Opcode::I64ReinterpretF64 => 8,
            Opcode::F32ReinterpretI32 => 8,
            Opcode::F64ReinterpretI64 => 8,
        }
    }

    /// The instructions of group 0 change nothing that steers the dispatcher.
    proof fn lemma_group_0_steady(m: Machine, opcode: Opcode)
        requires
            Self::instruction_group(opcode) == 0,
        ensures
            m.steady(Self::spec_run_instruction(m, opcode).0),
    {
        match opcode {
            Opcode::Unreachable => {
                Self::lemma_run_unreachable_steady(m);
            },
            Opcode::Nop => {
                Self::lemma_run_nop_steady(m);
            },
            Opcode::Else => {
                Self::lemma_run_else_steady(m);
            },
            Opcode::End => {
                Self::lemma_run_end_steady(m);
            },
            Opcode::Br(idx) => {
                Self::lemma_run_br_steady(m, idx);
            },
            Opcode::BrIf(idx) => {
                Self::lemma_run_br_if_steady(m, idx);
            },
            Opcode::BrTable(table, default) => {
                Self::lemma_run_br_table_steady(m, table@, default);
            },
            Opcode::Return => {
                Self::lemma_run_return_steady(m);
            },
            Opcode::Call(index) => {
                Self::lemma_run_call_steady(m, index);
            },
            Opcode::CallIndirect(index, _) => {
                Self::lemma_run_call_indirect_steady(m, index);
            },
            Opcode::Drop => {
                Self::lemma_run_drop_steady(m);
            },
            Opcode::Select => {
                Self::lemma_run_select_steady(m);
            },
            Opcode::GetLocal(index) => {
                Self::lemma_run_get_local_steady(m, index);
            },
            Opcode::SetLocal(index) => {
                Self::lemma_run_set_local_steady(m, index);
            },
            Opcode::TeeLocal(index) => {
                Self::lemma_run_tee_local_steady(m, index);
            },
            Opcode::GetGlobal(index) => {
                Self::lemma_run_get_global_steady(m, index);
            },
            Opcode::SetGlobal(index) => {
                Self::lemma_run_set_global_steady(m, index);
            },
            Opcode::I32Load(offset, align) => {
                Self::lemma_run_load_steady(m, ValueType::I32, offset, align);
            },
            Opcode::I64Load(offset, align) => {
                Self::lemma_run_load_steady(m, ValueType::I64, offset, align);
            },
            Opcode::F32Load(offset, align) => {
                Self::lemma_run_load_steady(m, ValueType::F32, offset, align);
            },
            _ => {},
        }
    }

    /// The instructions of group 1 change nothing that steers the dispatcher.
    proof fn lemma_group_1_steady(m: Machine, opcode: Opcode)
        requires
            Self::instruction_group(opcode) == 1,
        ensures
            m.steady(Self::spec_run_instruction(m, opcode).0),
    {
        match opcode {
            Opcode::F64Load(offset, align) => {
                Self::lemma_run_load_steady(m, ValueType::F64, offset, align);
            },
            Opcode::I32Load8S(offset, align) => {
                Self::lemma_run_load_extend_steady(m, ValueType::I32, 1, true, offset, align);
            },
            Opcode::I32Load8U(offset, align) => {
                Self::lemma_run_load_extend_steady(m, ValueType::I32, 1, false, offset, align);
            },
            Opcode::I32Load16S(offset, align) => {
                Self::lemma_run_load_extend_steady(m, ValueType::I32, 2, true, offset, align);
            },
            Opcode::I32Load16U(offset, align) => {
                Self::lemma_run_load_extend_steady(m, ValueType::I32, 2, false, offset, align);
            },
            Opcode::I64Load8S(offset, align) => {
                Self::lemma_run_load_extend_steady(m, ValueType::I64, 1, true, offset, align);
            },
            Opcode::I64Load8U(offset, align) => {
                Self::lemma_run_load_extend_steady(m, ValueType::I64, 1, false, offset, align);
            },
            Opcode::I64Load16S(offset, align) => {
                Self::lemma_run_load_extend_steady(m, ValueType::I64, 2, true, offset, align);
            },
            Opcode::I64Load16U(offset, align) => {
                Self::lemma_run_load_extend_steady(m, ValueType::I64, 2, false, offset, align);
            },
            Opcode::I64Load32S(offset, align) => {
                Self::lemma_run_load_extend_steady(m, ValueType::I64, 4, true, offset, align);
            },
            Opcode::I64Load32U(offset, align) => {
                Self::lemma_run_load_extend_steady(m, ValueType::I64, 4, false, offset, align);
            },
            Opcode::I32Store(offset, align) => {
                Self::lemma_run_store_steady(m, ValueType::I32, offset, align);
            },
            Opcode::I64Store(offset, align) => {
                Self::lemma_run_store_steady(m, ValueType::I64, offset, align);
            },
            Opcode::F32Store(offset, align) => {
                Self::lemma_run_store_steady(m, ValueType::F32, offset, align);
            },
            Opcode::F64Store(offset, align) => {
                Self::lemma_run_store_steady(m, ValueType::F64, offset, align);
            },
            Opcode::I32Store8(offset, align) => {
                Self::lemma_run_store_wrap_steady(m, ValueType::I32, 1, offset, align);
            },
            Opcode::I32Store16(offset, align) => {
                Self::lemma_run_store_wrap_steady(m, ValueType::I32, 2, offset, align);
            },
            Opcode::I64Store8(offset, align) => {
                Self::lemma_run_store_wrap_steady(m, ValueType::I64, 1, offset, align);
            },
            Opcode::I64Store16(offset, align) => {
                Self::lemma_run_store_wrap_steady(m, ValueType::I64, 2, offset, align);
            },
            Opcode::I64Store32(offset, align) => {
                Self::lemma_run_store_wrap_steady(m, ValueType::I64, 4, offset, align);
            },
            _ => {},
        }
    }

    /// The instructions of group 2 change nothing that steers the dispatcher.
    proof fn lemma_group_2_steady(m: Machine, opcode: Opcode)
        requires
            Self::instruction_group(opcode) == 2,
        ensures
            m.steady(Self::spec_run_instruction(m, opcode).0),
    {
        match opcode {
            Opcode::CurrentMemory(_) => {
                Self::lemma_run_current_memory_steady(m);
            },
            Opcode::GrowMemory(_) => {
                Self::lemma_run_grow_memory_steady(m);
            },
            Opcode::I32Const(val) => {
                Self::lemma_run_const_steady(m, RuntimeValue::I32(val));
            },
            Opcode::I64Const(val) => {
                Self::lemma_run_const_steady(m, RuntimeValue::I64(val));
            },
            Opcode::F32Const(val) => {
                Self::lemma_run_const_steady(m, RuntimeValue::F32(val));
            },
            Opcode::F64Const(val) => {
                Self::lemma_run_const_steady(m, RuntimeValue::F64(val));
            },
            Opcode::I32Eqz => {
                Self::lemma_run_eqz_steady(m, ValueType::I32);
            },
            Opcode::I32Eq => {
                Self::lemma_run_eq_steady(m, ValueType::I32);
            },
            Opcode::I32Ne => {
                Self::lemma_run_ne_steady(m, ValueType::I32);
            },
            Opcode::I32LtS => {
                Self::lemma_run_lt_steady(m, ValueType::I32, true);
            },
            Opcode::I32LtU => {
                Self::lemma_run_lt_steady(m, ValueType::I32, false);
            },
            Opcode::I32GtS => {
                Self::lemma_run_gt_steady(m, ValueType::I32, true);
            },
            Opcode::I32GtU => {
                Self::lemma_run_gt_steady(m, ValueType::I32, false);
            },
            Opcode::I32LeS => {
                Self::lemma_run_lte_steady(m, ValueType::I32, true);
            },
            Opcode::I32LeU => {
                Self::lemma_run_lte_steady(m, ValueType::I32, false);
            },
            Opcode::I32GeS => {
                Self::lemma_run_gte_steady(m, ValueType::I32, true);
            },
            Opcode::I32GeU => {
                Self::lemma_run_gte_steady(m, ValueType::I32, false);
            },
            Opcode::I64Eqz => {
                Self::lemma_run_eqz_steady(m, ValueType::I64);
            },
            Opcode::I64Eq => {
                Self::lemma_run_eq_steady(m, ValueType::I64);
            },
            Opcode::I64Ne => {
                Self::lemma_run_ne_steady(m, ValueType::I64);
            },
            _ => {},
        }
    }

    /// The instructions of group 3 change nothing that steers the dispatcher.
    proof fn lemma_group_3_steady(m: Machine, opcode: Opcode)
        requires
            Self::instruction_group(opcode) == 3,
        ensures
            m.steady(Self::spec_run_instruction(m, opcode).0),
    {
        match opcode {
            Opcode::I64LtS => {
                Self::lemma_run_lt_steady(m, ValueType::I64, true);
            },
            Opcode::I64LtU => {
                Self::lemma_run_lt_steady(m, ValueType::I64, false);
            },
            Opcode::I64GtS => {
                Self::lemma_run_gt_steady(m, ValueType::I64, true);
            },
            Opcode::I64GtU => {
                Self::lemma_run_gt_steady(m, ValueType::I64, false);
            },
            Opcode::I64LeS => {
                Self::lemma_run_lte_steady(m, ValueType::I64, true);
            },
            Opcode::I64LeU => {
                Self::lemma_run_lte_steady(m, ValueType::I64, false);
            },
            Opcode::I64GeS => {
                Self::lemma_run_gte_steady(m, ValueType::I64, true);
            },
            Opcode::I64GeU => {
                Self::lemma_run_gte_steady(m, ValueType::I64, false);
            },
            Opcode::F32Eq => {
                Self::lemma_run_eq_steady(m, ValueType::F32);
            },
            Opcode::F32Ne => {
                Self::lemma_run_ne_steady(m, ValueType::F32);
            },
            Opcode::F32Lt => {
                Self::lemma_run_lt_steady(m, ValueType::F32, true);
            },
            Opcode::F32Gt => {
                Self::lemma_run_gt_steady(m, ValueType::F32, true);
            },
            Opcode::F32Le => {
                Self::lemma_run_lte_steady(m, ValueType::F32, true);
            },
            Opcode::F32Ge => {
                Self::lemma_run_gte_steady(m, ValueType::F32, true);
            },
            Opcode::F64Eq => {
                Self::lemma_run_eq_steady(m, ValueType::F64);
            },
            Opcode::F64Ne => {
                Self::lemma_run_ne_steady(m, ValueType::F64);
            },
            Opcode::F64Lt => {
                Self::lemma_run_lt_steady(m, ValueType::F64, true);
            },
            Opcode::F64Gt => {
                Self::lemma_run_gt_steady(m, ValueType::F64, true);
            },
            Opcode::F64Le => {
                Self::lemma_run_lte_steady(m, ValueType::F64, true);
            },
            Opcode::F64Ge => {
                Self::lemma_run_gte_steady(m, ValueType::F64, true);
            },
            _ => {},
        }
    }

    /// The instructions of group 4 change nothing that steers the dispatcher.
    proof fn lemma_group_4_steady(m: Machine, opcode: Opcode)
        requires
            Self::instruction_group(opcode) == 4,
        ensures
            m.steady(Self::spec_run_instruction(m, opcode).0),
    {
        match opcode {
            Opcode::I32Clz => {
                Self::lemma_run_clz_steady(m, ValueType::I32);
            },
            Opcode::I32Ctz => {
                Self::lemma_run_ctz_steady(m, ValueType::I32);
            },
            Opcode::I32Popcnt => {
                Self::lemma_run_popcnt_steady(m, ValueType::I32);
            },
            Opcode::I32Add => {
                Self::lemma_run_add_steady(m, ValueType::I32);
            },
            Opcode::I32Sub => {
                Self::lemma_run_sub_steady(m, ValueType::I32);
            },
            Opcode::I32Mul => {
                Self::lemma_run_mul_steady(m, ValueType::I32);
            },
            Opcode::I32DivS => {
                Self::lemma_run_div_steady(m, ValueType::I32, true);
            },
            Opcode::I32DivU => {
                Self::lemma_run_div_steady(m, ValueType::I32, false);
            },
            Opcode::I32RemS => {
                Self::lemma_run_rem_steady(m, ValueType::I32, true);
            },
            Opcode::I32RemU => {
                Self::lemma_run_rem_steady(m, ValueType::I32, false);
            },
            Opcode::I32And => {
                Self::lemma_run_and_steady(m, ValueType::I32);
            },
            Opcode::I32Or => {
                Self::lemma_run_or_steady(m, ValueType::I32);
            },
            Opcode::I32Xor => {
                Self::lemma_run_xor_steady(m, ValueType::I32);
            },
            Opcode::I32Shl => {
                Self::lemma_run_shl_steady(m, ValueType::I32);
            },
            Opcode::I32ShrS => {
                Self::lemma_run_shr_steady(m, ValueType::I32, true);
            },
            Opcode::I32ShrU => {
                Self::lemma_run_shr_steady(m, ValueType::I32, false);
            },
            Opcode::I32Rotl => {
                Self::lemma_run_rotl_steady(m, ValueType::I32);
            },
            Opcode::I32Rotr => {
                Self::lemma_run_rotr_steady(m, ValueType::I32);
            },
            Opcode::I64Clz => {
                Self::lemma_run_clz_steady(m, ValueType::I64);
            },
            Opcode::I64Ctz => {
                Self::lemma_run_ctz_steady(m, ValueType::I64);
            },
            _ => {},
        }
    }

    /// The instructions of group 5 change nothing that steers the dispatcher.
    proof fn lemma_group_5_steady(m: Machine, opcode: Opcode)
        requires
            Self::instruction_group(opcode) == 5,
        ensures
            m.steady(Self::spec_run_instruction(m, opcode).0),
    {
        match opcode {
            Opcode::I64Popcnt => {
                Self::lemma_run_popcnt_steady(m, ValueType::I64);
            },
            Opcode::I64Add => {
                Self::lemma_run_add_steady(m, ValueType::I64);
            },
            Opcode::I64Sub => {
                Self::lemma_run_sub_steady(m, ValueType::I64);
            },
            Opcode::I64Mul => {
                Self::lemma_run_mul_steady(m, ValueType::I64);
            },
            Opcode::I64DivS => {
                Self::lemma_run_div_steady(m, ValueType::I64, true);
            },
            Opcode::I64DivU => {
                Self::lemma_run_div_steady(m, ValueType::I64, false);
            },
            Opcode::I64RemS => {
                Self::lemma_run_rem_steady(m, ValueType::I64, true);
            },
            Opcode::I64RemU => {
                Self::lemma_run_rem_steady(m, ValueType::I64, false);
            },
            Opcode::I64And => {
                Self::lemma_run_and_steady(m, ValueType::I64);
            },
            Opcode::I64Or => {
                Self::lemma_run_or_steady(m, ValueType::I64);
            },
            Opcode::I64Xor => {
                Self::lemma_run_xor_steady(m, ValueType::I64);
            },
            Opcode::I64Shl => {
                Self::lemma_run_shl_steady(m, ValueType::I64);
            },
            Opcode::I64ShrS => {
                Self::lemma_run_shr_steady(m, ValueType::I64, true);
            },
            Opcode::I64ShrU => {
                Self::lemma_run_shr_steady(m, ValueType::I64, false);
            },
            Opcode::I64Rotl => {
                Self::lemma_run_rotl_steady(m, ValueType::I64);
            },
            Opcode::I64Rotr => {
                Self::lemma_run_rotr_steady(m, ValueType::I64);
            },
            Opcode::F32Abs => {
                Self::lemma_run_abs_steady(m, ValueType::F32);
            },
            Opcode::F32Neg => {
                Self::lemma_run_neg_steady(m, ValueType::F32);
            },
            Opcode::F32Ceil => {
                Self::lemma_run_ceil_steady(m, ValueType::F32);
            },
            Opcode::F32Floor => {
                Self::lemma_run_floor_steady(m, ValueType::F32);
            },
            _ => {},
        }
    }

    /// The instructions of group 6 change nothing that steers the dispatcher.
    proof fn lemma_group_6_steady(m: Machine, opcode: Opcode)
        requires
            Self::instruction_group(opcode) == 6,
        ensures
            m.steady(Self::spec_run_instruction(m, opcode).0),
    {
        match opcode {
            Opcode::F32Trunc => {
                Self::lemma_run_trunc_steady(m, ValueType::F32);
            },
            Opcode::F32Nearest => {
                Self::lemma_run_nearest_steady(m, ValueType::F32);
            },
            Opcode::F32Sqrt => {
                Self::lemma_run_sqrt_steady(m, ValueType::F32);
            },
            Opcode::F32Add => {
                Self::lemma_run_add_steady(m, ValueType::F32);
            },
            Opcode::F32Sub => {
                Self::lemma_run_sub_steady(m, ValueType::F32);
            },
            Opcode::F32Mul => {
                Self::lemma_run_mul_steady(m, ValueType::F32);
            },
            Opcode::F32Div => {
                Self::lemma_run_div_steady(m, ValueType::F32, true);
            },
            Opcode::F32Min => {
                Self::lemma_run_min_steady(m, ValueType::F32);
            },
            Opcode::F32Max => {
                Self::lemma_run_max_steady(m, ValueType::F32);
            },
            Opcode::F32Copysign => {
                Self::lemma_run_copysign_steady(m, ValueType::F32);
            },
            Opcode::F64Abs => {
                Self::lemma_run_abs_steady(m, ValueType::F64);
            },
            Opcode::F64Neg => {
                Self::lemma_run_neg_steady(m, ValueType::F64);
            },
            Opcode::F64Ceil => {
                Self::lemma_run_ceil_steady(m, ValueType::F64);
            },
            Opcode::F64Floor => {
                Self::lemma_run_floor_steady(m, ValueType::F64);
            },
            Opcode::F64Trunc => {
                Self::lemma_run_trunc_steady(m, ValueType::F64);
            },
            Opcode::F64Nearest => {
                Self::lemma_run_nearest_steady(m, ValueType::F64);
            },
            Opcode::F64Sqrt => {
                Self::lemma_run_sqrt_steady(m, ValueType::F64);
            },
            Opcode::F64Add => {
                Self::lemma_run_add_steady(m, ValueType::F64);
            },
            Opcode::F64Sub => {
                Self::lemma_run_sub_steady(m, ValueType::F64);
            },
            Opcode::F64Mul => {
                Self::lemma_run_mul_steady(m, ValueType::F64);
            },
            _ => {},
        }
    }

    /// The instructions of group 7 change nothing that steers the dispatcher.
    proof fn lemma_group_7_steady(m: Machine, opcode: Opcode)
        requires
            Self::instruction_group(opcode) == 7,
        ensures
            m.steady(Self::spec_run_instruction(m, opcode).0),
    {
        match opcode {
            Opcode::F64Div => {
                Self::lemma_run_div_steady(m, ValueType::F64, true);
            },
            Opcode::F64Min => {
                Self::lemma_run_min_steady(m, ValueType::F64);
            },
            Opcode::F64Max => {
                Self::lemma_run_max_steady(m, ValueType::F64);
            },
            Opcode::F64Copysign => {
                Self::lemma_run_copysign_steady(m, ValueType::F64);
            },
            Opcode::I32WarpI64 => {
                Self::lemma_run_wrap_steady(m, ValueType::I64, ValueType::I32, true);
            },
            Opcode::I32TruncSF32 => {
                Self::lemma_run_trunc_to_int_steady(m, ValueType::F32, ValueType::I32, true);
            },
            Opcode::I32TruncUF32 => {
                Self::lemma_run_trunc_to_int_steady(m, ValueType::F32, ValueType::I32, false);
            },
            Opcode::I32TruncSF64 => {
                Self::lemma_run_trunc_to_int_steady(m, ValueType::F64, ValueType::I32, true);
            },
            Opcode::I32TruncUF64 => {
                Self::lemma_run_trunc_to_int_steady(m, ValueType::F64, ValueType::I32, false);
            },
            Opcode::I64ExtendSI32 => {
                Self::lemma_run_extend_steady(m, ValueType::I32, ValueType::I64, true);
            },
            Opcode::I64ExtendUI32 => {
                Self::lemma_run_extend_steady(m, ValueType::I32, ValueType::I64, false);
            },
            Opcode::I64TruncSF32 => {
                Self::lemma_run_trunc_to_int_steady(m, ValueType::F32, ValueType::I64, true);
            },
            Opcode::I64TruncUF32 => {
                Self::lemma_run_trunc_to_int_steady(m, ValueType::F32, ValueType::I64, false);
            },
            Opcode::I64TruncSF64 => {
                Self::lemma_run_trunc_to_int_steady(m, ValueType::F64, ValueType::I64, true);
            },
            Opcode::I64TruncUF64 => {
                Self::lemma_run_trunc_to_int_steady(m, ValueType::F64, ValueType::I64, false);
            },
            Opcode::F32ConvertSI32 => {
                Self::lemma_run_extend_steady(m, ValueType::I32, ValueType::F32, true);
            },
            Opcode::F32ConvertUI32 => {
                Self::lemma_run_extend_steady(m, ValueType::I32, ValueType::F32, false);
            },
            Opcode::F32ConvertSI64 => {
                Self::lemma_run_wrap_steady(m, ValueType::I64, ValueType::F32, true);
            },
            Opcode::F32ConvertUI64 => {
                Self::lemma_run_wrap_steady(m, ValueType::I64, ValueType::F32, false);
            },
            Opcode::F32DemoteF64 => {
                Self::lemma_run_wrap_steady(m, ValueType::F64, ValueType::F32, true);
            },
            _ => {},
        }
    }

    /// The instructions of group 8 change nothing that steers the dispatcher.
    proof fn lemma_group_8_steady(m: Machine, opcode: Opcode)
        requires
            Self::instruction_group(opcode) == 8,
        ensures
            m.steady(Self::spec_run_instruction(m, opcode).0),
    {
        match opcode {
            Opcode::F64ConvertSI32 => {
                Self::lemma_run_extend_steady(m, ValueType::I32, ValueType::F64, true);
            },
            Opcode::F64ConvertUI32 => {
                Self::lemma_run_extend_steady(m, ValueType::I32, ValueType::F64, false);
            },
            Opcode::F64ConvertSI64 => {
                Self::lemma_run_extend_steady(m, ValueType::I64, ValueType::F64, true);
            },
            Opcode::F64ConvertUI64 => {
                Self::lemma_run_extend_steady(m, ValueType::I64, ValueType::F64, false);
            },
            Opcode::F64PromoteF32 => {
                Self::lemma_run_extend_steady(m, ValueType::F32, ValueType::F64, true);
            },
            Opcode::I32ReinterpretF32 => {
                Self::lemma_run_reinterpret_steady(m, ValueType::F32);
            },
            Opcode::I64ReinterpretF64 => {
                Self::lemma_run_reinterpret_steady(m, ValueType::F64);
            },
            Opcode::F32ReinterpretI32 => {
                Self::lemma_run_reinterpret_steady(m, ValueType::I32);
            },
            Opcode::F64ReinterpretI64 => {
                Self::lemma_run_reinterpret_steady(m, ValueType::I64);
            },
            _ => {},
        }
    }

    /// Of every instruction that enters no block: it changes nothing that
    /// steers the dispatcher.
    pub proof fn lemma_plain_instruction_steady(m: Machine, opcode: Opcode)
        requires
            !(opcode is Block),
            !(opcode is Loop),
            !(opcode is If),
        ensures
            m.steady(Self::spec_run_instruction(m, opcode).0),
    {
        let group = Self::instruction_group(opcode);
        if group == 0 {
            Self::lemma_group_0_steady(m, opcode);
        }
        if group == 1 {
            Self::lemma_group_1_steady(m, opcode);
        }
        if group == 2 {
            Self::lemma_group_2_steady(m, opcode);
        }
        if group == 3 {
            Self::lemma_group_3_steady(m, opcode);
        }
        if group == 4 {
            Self::lemma_group_4_steady(m, opcode);
        }
        if group == 5 {
            Self::lemma_group_5_steady(m, opcode);
        }
        if group == 6 {
            Self::lemma_group_6_steady(m, opcode);
        }
        if group == 7 {
            Self::lemma_group_7_steady(m, opcode);
        }
        if group == 8 {
            Self::lemma_group_8_steady(m, opcode);
        }
    }

    /// Of every block: the module stays well-formed and the budget does
    /// not grow; when the block is left, its frame is gone, execution stands
    /// at the frame's position, and the value stack is as deep as the frame's
    /// value limit, and one deeper if the block has a result.
    pub proof fn lemma_execute_block_left(m: Machine, block_type: BlockType, body: Seq<Opcode>)
        requires
            m.wf(),
        ensures
            m.left(
                Self::spec_execute_block(m, block_type, body).0,
                Self::spec_execute_block(m, block_type, body).1,
            ),
        decreases m.budget, 1int,
    {
        Self::lemma_dispatch_left(m.with_position(0), body);
    }

    /// What `lemma_execute_block_left` says, of the dispatcher from any position.
    pub proof fn lemma_dispatch_left(m: Machine, body: Seq<Opcode>)
        requires
            m.wf(),
        ensures
            m.left(Self::spec_dispatch(m, body).0, Self::spec_dispatch(m, body).1),
        decreases m.budget, 0int,
    {
        if m.position < body.len() && m.budget != 0 {
            let spent = m.with_budget((m.budget - 1) as u64);
            let (m1, r) = Self::spec_run_instruction(spent, body[m.position as int]);
            Self::lemma_run_instruction_settled(spent, body[m.position as int]);
            match r {
                Err(_) => {},
                Ok(InstructionOutcome::RunInstruction) => {
                    Self::lemma_dispatch_left(m1, body);
                },
                Ok(InstructionOutcome::RunNextInstruction) => {
                    if m1.position < usize::MAX {
                        Self::lemma_dispatch_left(m1.with_position((m1.position + 1) as usize), body);
                    }
                },
                Ok(InstructionOutcome::PopFrame(_)) => {
                    m1.lemma_pop_frame();
                },
                Ok(InstructionOutcome::Return) => {},
            }
        }
    }

    /// Stack balance and frame balance: after a call that was entered as
    /// `Machine::at_entry` says and that ends without an error, the value
    /// stack and the frame stack are both empty, and the result is of the
    /// type of the body, if that has one.
    pub proof fn lemma_call_leaves_stacks_empty(m: Machine, block_type: BlockType, body: Seq<Opcode>)
        requires
            m.wf(),
            m.at_entry(block_type),
        ensures
            ({
                let (after, r) = Self::spec_run_context(m, block_type, body);
                r matches Ok(v) ==> {
                    &&& after.values.len() == 0
                    &&& after.frames.len() == 0
                    &&& match block_type {
                        BlockType::Value(value_type) => v is Some && v->Some_0.spec_value_type()
                            == value_type,
                        BlockType::NoResult => v is None,
                    }
                }
            }),
    {
        Self::lemma_execute_block_left(m, block_type, body);
    }
}

} // verus!
