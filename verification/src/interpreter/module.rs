//! A module instance: the linear memory and the globals that the
//! instructions of its functions work on.
use vstd::prelude::*;
use crate::elements::{GlobalDefinition, Module};
use crate::interpreter::error::Error;
use crate::interpreter::memory::{MemoryInstance, MemoryModel};
use crate::interpreter::value::RuntimeValue;

verus! {

/// The index of the one linear memory that instructions address.
pub const DEFAULT_MEMORY_INDEX: u32 = 0;

/// A global: a typed cell that holds a value of its type.
#[derive(Clone, Copy, Debug, PartialEq, Eq, Structural)]
pub struct GlobalInstance {
    value: RuntimeValue,
    mutable: bool,
}

impl GlobalInstance {
    /// The value that the global holds.
    pub closed spec fn spec_get(self) -> RuntimeValue {
        self.value
    }

    /// Whether the global may be set.
    pub closed spec fn spec_is_mutable(self) -> bool {
        self.mutable
    }

    /// The global that holds `value`, with that value's type.
    pub fn new(value: RuntimeValue, mutable: bool) -> (r: Self)
        ensures
            r.spec_get() == value,
            r.spec_is_mutable() == mutable,
    {
        GlobalInstance { value, mutable }
    }

    /// The value that the global holds.
    pub fn get(&self) -> (r: RuntimeValue)
        ensures
            r == self.spec_get(),
    {
        self.value
    }

    /// Whether the global may be set.
    pub fn is_mutable(&self) -> (r: bool)
        ensures
            r == self.spec_is_mutable(),
    {
        self.mutable
    }

    /// The outcome of setting the global to `value`: a trap if it is
    /// immutable, `Error::Global` if the value is not of its type.
    pub open spec fn spec_set(self, value: RuntimeValue) -> Result<GlobalInstance, Error> {
        if !self.spec_is_mutable() {
            Err(Error::Trap)
        } else if value.spec_value_type() != self.spec_get().spec_value_type() {
            Err(Error::Global)
        } else {
            Ok(self.with_value(value))
        }
    }

    /// This global holding `value`.
    pub closed spec fn with_value(self, value: RuntimeValue) -> GlobalInstance {
        GlobalInstance { value: value, mutable: self.mutable }
    }

    /// The value of `with_value` is the new one; mutability stays.
    pub proof fn lemma_with_value(self, value: RuntimeValue)
        ensures
            self.with_value(value).spec_get() == value,
            self.with_value(value).spec_is_mutable() == self.spec_is_mutable(),
    {
    }

    /// Sets the global. Traps if it is immutable; fails with
    /// `Error::Global` if `value` is not of its type. On failure the global
    /// is unchanged.
    pub fn set(&mut self, value: RuntimeValue) -> (r: Result<(), Error>)
        ensures
            match old(self).spec_set(value) {
                Ok(g) => r is Ok && *final(self) == g,
                Err(e) => r == Err::<(), Error>(e) && *final(self) == *old(self),
            },
    {
        if !self.mutable {
            return Err(Error::Trap);
        }
        if !value_types_equal(&value, &self.value) {
            return Err(Error::Global);
        }
        self.value = value;
        Ok(())
    }
}

fn value_types_equal(a: &RuntimeValue, b: &RuntimeValue) -> (r: bool)
    ensures
        r == (a.spec_value_type() == b.spec_value_type()),
{
    a.value_type() == b.value_type()
}

/// What a module instance is, mathematically.
pub struct ModuleModel {
    pub memory: Option<MemoryModel>,
    pub globals: Seq<GlobalInstance>,
}

impl ModuleModel {
    /// The memory, where there is one, is well-formed.
    pub open spec fn wf(self) -> bool {
        self.memory matches Some(m) ==> m.wf()
    }

    /// The module without memory and without globals.
    pub open spec fn empty() -> ModuleModel {
        ModuleModel { memory: None, globals: Seq::empty() }
    }
}

/// A module instance.
pub struct ModuleInstance {
    memory: Option<MemoryInstance>,
    globals: Vec<GlobalInstance>,
}

impl View for ModuleInstance {
    type V = ModuleModel;

    closed spec fn view(&self) -> ModuleModel {
        ModuleModel {
            memory: match self.memory {
                Some(m) => Some(m@),
                None => None,
            },
            globals: self.globals@,
        }
    }
}

/// The globals that the definitions in `defs` describe.
pub open spec fn globals_of(defs: Seq<GlobalDefinition>) -> Seq<GlobalInstance> {
    Seq::new(defs.len(), |i: int| instance_of(defs[i]))
}

/// The global that `def` describes.
pub closed spec fn instance_of(def: GlobalDefinition) -> GlobalInstance {
    GlobalInstance { value: def.initial, mutable: def.mutable }
}

/// The global of a definition holds its initial value and has its mutability.
pub proof fn lemma_instance_of(def: GlobalDefinition)
    ensures
        instance_of(def).spec_get() == def.initial,
        instance_of(def).spec_is_mutable() == def.mutable,
{
}

impl ModuleInstance {
    /// The instance without memory and without globals.
    pub fn empty() -> (r: ModuleInstance)
        ensures
            r@ == ModuleModel::empty(),
    {
        ModuleInstance { memory: None, globals: Vec::new() }
    }

    /// What instantiating `module` comes to: the instance, or
    /// `Error::Memory` where its memory cannot be allocated.
    pub open spec fn spec_new(module: Module) -> Result<ModuleModel, Error> {
        match module.memory {
            None => Ok(ModuleModel { memory: None, globals: globals_of(module.globals@) }),
            Some(d) => if MemoryInstance::can_allocate(d.min, d.max) {
                Ok(
                    ModuleModel {
                        memory: Some(
                            MemoryModel {
                                bytes: Seq::new((d.min * 65536) as nat, |i: int| 0u8),
                                maximum: d.max,
                            },
                        ),
                        globals: globals_of(module.globals@),
                    },
                )
            } else {
                Err(Error::Memory)
            },
        }
    }

    /// Instantiates `module`: allocates its memory, of the initial size
    /// and filled with zeros, and sets its globals to their initial values.
    /// Fails with `Error::Memory` where the memory cannot be allocated.
    pub fn new(module: &Module) -> (r: Result<ModuleInstance, Error>)
        ensures
            match Self::spec_new(*module) {
                Ok(m) => r is Ok && r->Ok_0@ == m,
                Err(e) => r is Err && r->Err_0 == e,
            },
            r matches Ok(m) ==> m@.wf(),
    {
        let memory = match module.memory {
            None => None,
            Some(d) => Some(MemoryInstance::new(d.min, d.max)?),
        };
        let mut globals: Vec<GlobalInstance> = Vec::new();
        let mut i: usize = 0;
        while i < module.globals.len()
            invariant
                i <= module.globals.len(),
                globals@ == globals_of(module.globals@.subrange(0, i as int)),
            decreases module.globals.len() - i,
        {
            let d = module.globals[i];
            globals.push(GlobalInstance::new(d.initial, d.mutable));
            i = i + 1;
            assert(globals@ =~= globals_of(module.globals@.subrange(0, i as int)));
        }
        assert(module.globals@.subrange(0, i as int) =~= module.globals@);
        let instance = ModuleInstance { memory, globals };
        proof {
            if let Ok(m) = Self::spec_new(*module) {
                assert(instance@.memory == m.memory);
                assert(instance@ == m);
            }
        }
        Ok(instance)
    }

    /// The global at `index`, or `Error::Global` if there is none.
    pub fn global(&self, index: u32) -> (r: Result<GlobalInstance, Error>)
        ensures
            index < self@.globals.len() ==> r == Ok::<GlobalInstance, Error>(
                self@.globals[index as int],
            ),
            index >= self@.globals.len() ==> r == Err::<GlobalInstance, Error>(Error::Global),
    {
        if (index as usize) < self.globals.len() {
            Ok(self.globals[index as usize])
        } else {
            Err(Error::Global)
        }
    }

    /// What setting the global at `index` to `value` comes to.
    pub open spec fn spec_set_global(model: ModuleModel, index: u32, value: RuntimeValue) -> (
        ModuleModel,
        Result<(), Error>,
    ) {
        if index >= model.globals.len() {
            (model, Err(Error::Global))
        } else {
            match model.globals[index as int].spec_set(value) {
                Ok(g) => (
                    ModuleModel { memory: model.memory, globals: model.globals.update(index as int, g) },
                    Ok(()),
                ),
                Err(e) => (model, Err(e)),
            }
        }
    }

    /// Sets the global at `index`. Fails with `Error::Global` if there is
    /// none, and as `GlobalInstance::set` does; on failure nothing changes.
    pub fn set_global(&mut self, index: u32, value: RuntimeValue) -> (r: Result<(), Error>)
        ensures
            (final(self)@, r) == Self::spec_set_global(old(self)@, index, value),
    {
        if (index as usize) >= self.globals.len() {
            return Err(Error::Global);
        }
        let mut g = self.globals[index as usize];
        g.set(value)?;
        self.globals.set(index as usize, g);
        Ok(())
    }

    /// Whether the module has a memory at `index`.
    pub open spec fn has_memory(model: ModuleModel, index: u32) -> bool {
        index == DEFAULT_MEMORY_INDEX && model.memory is Some
    }

    /// What reading `n` bytes at `address` of the memory at `index` comes to.
    pub open spec fn spec_memory_get(model: ModuleModel, index: u32, address: u32, n: int) -> Result<
        Seq<u8>,
        Error,
    > {
        if !Self::has_memory(model, index) {
            Err(Error::Memory)
        } else if !model.memory->Some_0.in_bounds(address, n) {
            Err(Error::Trap)
        } else {
            Ok(model.memory->Some_0.read(address, n))
        }
    }

    /// The `n` bytes at `address` of the memory at `index`. Fails with
    /// `Error::Memory` if there is no such memory; traps if the bytes do not
    /// all lie within it.
    pub fn memory_get(&self, index: u32, address: u32, n: usize) -> (r: Result<Vec<u8>, Error>)
        ensures
            match Self::spec_memory_get(self@, index, address, n as int) {
                Ok(bytes) => r is Ok && r->Ok_0@ == bytes,
                Err(e) => r is Err && r->Err_0 == e,
            },
    {
        if index != DEFAULT_MEMORY_INDEX {
            return Err(Error::Memory);
        }
        match &self.memory {
            None => Err(Error::Memory),
            Some(m) => m.get(address, n),
        }
    }

    /// What storing `data` at `address` of the memory at `index` comes to.
    pub open spec fn spec_memory_set(model: ModuleModel, index: u32, address: u32, data: Seq<u8>) -> (
        ModuleModel,
        Result<(), Error>,
    ) {
        if !Self::has_memory(model, index) {
            (model, Err(Error::Memory))
        } else if !model.memory->Some_0.in_bounds(address, data.len() as int) {
            (model, Err(Error::Trap))
        } else {
            (
                ModuleModel {
                    memory: Some(model.memory->Some_0.write(address, data)),
                    globals: model.globals,
                },
                Ok(()),
            )
        }
    }

    /// Stores `data` at `address` of the memory at `index`. Fails with
    /// `Error::Memory` if there is no such memory; traps if the bytes would
    /// not all lie within it. On failure nothing changes.
    pub fn memory_set(&mut self, index: u32, address: u32, data: &[u8]) -> (r: Result<(), Error>)
        ensures
            (final(self)@, r) == Self::spec_memory_set(old(self)@, index, address, data@),
            old(self)@.wf() ==> final(self)@.wf(),
    {
        if index != DEFAULT_MEMORY_INDEX {
            return Err(Error::Memory);
        }
        match self.memory.take() {
            None => Err(Error::Memory),
            Some(m) => {
                let mut m = m;
                let r = m.set(address, data);
                self.memory = Some(m);
                match r {
                    Ok(_) => Ok(()),
                    Err(e) => Err(e),
                }
            },
        }
    }

    /// What `current_memory` on the memory at `index` comes to.
    pub open spec fn spec_memory_size(model: ModuleModel, index: u32) -> Result<u32, Error> {
        if !Self::has_memory(model, index) {
            Err(Error::Memory)
        } else {
            Ok(model.memory->Some_0.pages() as u32)
        }
    }

    /// The size in pages of the memory at `index`, or `Error::Memory` if
    /// there is no such memory.
    pub fn memory_size(&self, index: u32) -> (r: Result<u32, Error>)
        requires
            self@.wf(),
        ensures
            r == Self::spec_memory_size(self@, index),
    {
        if index != DEFAULT_MEMORY_INDEX {
            return Err(Error::Memory);
        }
        match &self.memory {
            None => Err(Error::Memory),
            Some(m) => Ok(m.size()),
        }
    }

    /// What `grow_memory` on the memory at `index` comes to.
    pub open spec fn spec_memory_grow(model: ModuleModel, index: u32, delta: u32) -> (
        ModuleModel,
        Result<i32, Error>,
    ) {
        if !Self::has_memory(model, index) {
            (model, Err(Error::Memory))
        } else {
            let g = model.memory->Some_0.grow(delta);
            (ModuleModel { memory: Some(g.0), globals: model.globals }, Ok(g.1))
        }
    }

    /// Grows the memory at `index` by `delta` pages and returns the size
    /// before, in pages, or -1 where it cannot grow so far (then nothing
    /// changes). Fails with `Error::Memory` if there is no such memory.
    pub fn memory_grow(&mut self, index: u32, delta: u32) -> (r: Result<i32, Error>)
        requires
            old(self)@.wf(),
        ensures
            final(self)@.wf(),
            (final(self)@, r) == Self::spec_memory_grow(old(self)@, index, delta),
    {
        if index != DEFAULT_MEMORY_INDEX {
            return Err(Error::Memory);
        }
        match self.memory.take() {
            None => Err(Error::Memory),
            Some(m) => {
                let mut m = m;
                let r = m.grow(delta);
                self.memory = Some(m);
                Ok(r)
            },
        }
    }
}

} // verus!
