//! The registry of module instances: a program is a set of instantiated
//! modules, each under its name. The registry may be used from several
//! threads: any number may look modules up at once, and one at a time may
//! add one.
use vstd::prelude::*;
use std::sync::Arc;
use crate::elements::Module;
use crate::interpreter::error::Error;
use crate::interpreter::module::{ModuleInstance, ModuleModel};

verus! {

/// A module instance under its name.
pub struct Entry {
    name: String,
    instance: Arc<ModuleInstance>,
}

/// The modules of a program by name. No name occurs twice, and every
/// module is well-formed.
pub struct ModuleRegistry {
    entries: Vec<Entry>,
}

impl ModuleRegistry {
    #[verifier::type_invariant]
    spec fn sound(self) -> bool {
        &&& forall|i: int, j: int|
            0 <= i < j < self.entries.len() ==> self.entries[i].name@ != self.entries[j].name@
        &&& forall|i: int| 0 <= i < self.entries.len() ==> (*self.entries[i].instance)@.wf()
    }

    /// The names that are registered.
    pub closed spec fn names(self) -> Set<Seq<char>> {
        Set::new(|name: Seq<char>| self.position(name) is Some)
    }

    /// Where the entry of `name` stands, if it has one.
    closed spec fn position(self, name: Seq<char>) -> Option<int> {
        if exists|i: int| 0 <= i < self.entries.len() && self.entries[i].name@ == name {
            Some(choose|i: int| 0 <= i < self.entries.len() && self.entries[i].name@ == name)
        } else {
            None
        }
    }

    /// The module registered under `name`, for a name that is registered.
    pub closed spec fn instance(self, name: Seq<char>) -> ModuleModel {
        (*self.entries[self.position(name)->Some_0].instance)@
    }

    /// The registry without modules.
    pub fn new() -> (r: Self)
        ensures
            r.names() == Set::<Seq<char>>::empty(),
    {
        let r = ModuleRegistry { entries: Vec::new() };
        assert(r.names() =~= Set::<Seq<char>>::empty());
        r
    }

    fn find(&self, name: &str) -> (r: Option<usize>)
        ensures
            match r {
                Some(i) => i < self.entries.len() && self.entries[i as int].name@ == name@
                    && self.position(name@) == Some(i as int),
                None => self.position(name@) is None,
            },
    {
        proof {
            use_type_invariant(self);
        }
        let mut i: usize = 0;
        while i < self.entries.len()
            invariant
                i <= self.entries.len(),
                self.sound(),
                forall|j: int| 0 <= j < i ==> self.entries[j].name@ != name@,
            decreases self.entries.len() - i,
        {
            if same_name(&self.entries[i].name, name) {
                proof {
                    let found = self.position(name@)->Some_0;
                    assert(self.entries[i as int].name@ == name@);
                    assert(self.entries[found].name@ == name@);
                    assert(found == i);
                }
                return Some(i);
            }
            i = i + 1;
        }
        None
    }

    /// The module registered under `name`, if there is one. It is
    /// well-formed, as every module of a registry is.
    pub fn module(&self, name: &str) -> (r: Option<Arc<ModuleInstance>>)
        ensures
            match r {
                Some(found) => self.names().contains(name@) && (*found)@ == self.instance(name@),
                None => !self.names().contains(name@),
            },
            r matches Some(found) ==> (*found)@.wf(),
    {
        proof {
            use_type_invariant(self);
        }
        match self.find(name) {
            Some(i) => Some(share(&self.entries[i].instance)),
            None => None,
        }
    }

    /// Instantiates `module` and registers the instance under `name`.
    /// Fails with `Error::Program` if the name is registered already, and
    /// as `ModuleInstance::new` does; on failure the registry is unchanged.
    /// The modules under other names stay as they are.
    pub fn add_module(&mut self, name: &str, module: Module) -> (r: Result<(), Error>)
        ensures
            old(self).names().contains(name@) ==> r == Err::<(), Error>(Error::Program),
            !old(self).names().contains(name@) ==> match ModuleInstance::spec_new(module) {
                Ok(m) => r is Ok && final(self).instance(name@) == m,
                Err(e) => r == Err::<(), Error>(e),
            },
            r is Ok ==> final(self).names() == old(self).names().insert(name@),
            r is Err ==> final(self).names() == old(self).names(),
            forall|other: Seq<char>|
                old(self).names().contains(other) && (r is Ok ==> other != name@) ==> final(self).instance(other) == old(self).instance(other),
    {
        proof {
            use_type_invariant(&*self);
        }
        if self.find(name).is_some() {
            return Err(Error::Program);
        }
        let instance = ModuleInstance::new(&module)?;
        let ghost before = *self;
        let ghost n = self.entries.len() as int;
        let mut taken = ModuleRegistry { entries: Vec::new() };
        core::mem::swap(self, &mut taken);
        let mut entries = taken.entries;
        entries.push(Entry { name: name.to_owned(), instance: Arc::new(instance) });
        *self = ModuleRegistry { entries: entries };
        proof {
            assert(self.entries[n].name@ == name@);
            assert forall|other: Seq<char>| #[trigger] self.names().contains(other)
                == before.names().insert(name@).contains(other) by {
                if before.position(other) is Some {
                    let i = before.position(other)->Some_0;
                    assert(self.entries[i].name@ == other);
                }
                if self.position(other) is Some {
                    let i = self.position(other)->Some_0;
                    if i < n {
                        assert(before.entries[i].name@ == other);
                    }
                }
            }
            assert(self.names() =~= before.names().insert(name@));
            assert(self.position(name@) == Some(n));
            assert forall|other: Seq<char>| before.names().contains(other) implies self.instance(
                other,
            ) == before.instance(other) by {
                let i = before.position(other)->Some_0;
                assert(self.entries[i].name@ == other);
                assert(self.position(other) == Some(i));
            }
        }
        Ok(())
    }
}

fn same_name(a: &String, b: &str) -> (r: bool)
    ensures
        r == (a@ == b@),
{
    let owned = b.to_owned();
    *a == owned
}

fn share(instance: &Arc<ModuleInstance>) -> (r: Arc<ModuleInstance>)
    ensures
        r == *instance,
{
    instance.clone()
}

/// What a program instance shares with its handles: the registry behind
/// a lock for readers and writers.
pub struct ProgramInstanceEssence {
    modules: parking_lot::RwLock<ModuleRegistry>,
}

/// `parking_lot::RawRwLock`: the lock without what it guards, named
/// here because the type of the lock mentions it.
#[verifier::external_type_specification]
#[verifier::external_body]
pub struct ExRawRwLock(parking_lot::RawRwLock);

/// `lock_api::RwLock`, which `parking_lot::RwLock` is an alias of: a
/// readers-writer lock around a value.
#[verifier::external_type_specification]
#[verifier::external_body]
#[verifier::reject_recursive_types(R)]
#[verifier::reject_recursive_types(T)]
pub struct ExRwLock<R, T: ?Sized>(parking_lot::lock_api::RwLock<R, T>);

/// `parking_lot::RwLockWriteGuard`: exclusive access to the registry,
/// for as long as this value lives. The guard is held behind this type
/// because its own type cannot be declared: it is bounded by a trait of
/// `lock_api`.
#[verifier::external_body]
pub struct RegistryWriteGuard<'a> {
    guard: parking_lot::RwLockWriteGuard<'a, ModuleRegistry>,
}

/// `parking_lot::RwLockReadGuard`: shared access to the registry, for as
/// long as this value lives. It is held behind this type for the reason
/// given at `RegistryWriteGuard`.
#[verifier::external_body]
pub struct RegistryReadGuard<'a> {
    guard: parking_lot::RwLockReadGuard<'a, ModuleRegistry>,
}

/// `parking_lot::RwLock::new`: an unlocked lock that holds `registry`.
/// Nothing is claimed of the lock: what it holds cannot be named from
/// outside.
#[verifier::external_body]
fn lock_new(registry: ModuleRegistry) -> parking_lot::RwLock<ModuleRegistry> {
    parking_lot::RwLock::new(registry)
}

/// `parking_lot::RwLock::write`: waits until no other thread holds the
/// lock and takes it for writing. Nothing is claimed of the registry
/// found: other threads may have changed it. A thread that holds a guard
/// of the same lock would wait for itself; no function here takes a
/// second guard.
#[verifier::external_body]
fn lock_write<'a>(lock: &'a parking_lot::RwLock<ModuleRegistry>) -> RegistryWriteGuard<'a> {
    RegistryWriteGuard { guard: lock.write() }
}

/// `parking_lot::RwLock::read`: waits until no thread holds the lock for
/// writing and takes it for reading. Nothing is claimed of the registry
/// found. No function here takes a second guard.
#[verifier::external_body]
fn lock_read<'a>(lock: &'a parking_lot::RwLock<ModuleRegistry>) -> RegistryReadGuard<'a> {
    RegistryReadGuard { guard: lock.read() }
}

/// `DerefMut` of `parking_lot::RwLockWriteGuard`: the registry that the
/// guard gives exclusive access to. Nothing is claimed of it but what
/// holds of every registry: it was put behind the lock by `lock_new` and
/// is changed only through this access.
#[verifier::external_body]
fn write_access<'a, 'b>(guard: &'a mut RegistryWriteGuard<'b>) -> &'a mut ModuleRegistry {
    &mut *guard.guard
}

/// `Deref` of `parking_lot::RwLockReadGuard`: the registry that the guard
/// gives shared access to. Nothing is claimed of it but what holds of
/// every registry.
#[verifier::external_body]
fn read_access<'a, 'b>(guard: &'a RegistryReadGuard<'b>) -> &'a ModuleRegistry {
    &*guard.guard
}

impl ProgramInstanceEssence {
    /// A program without modules.
    pub fn new() -> Self {
        ProgramInstanceEssence { modules: lock_new(ModuleRegistry::new()) }
    }

    /// The module registered under `name` at the time of the call, if
    /// there is one: what `ModuleRegistry::module` returns on the registry
    /// that it finds. Whatever other threads have registered, a module that
    /// is returned is well-formed, so that functions can be run in it.
    pub fn module(&self, name: &str) -> (r: Option<Arc<ModuleInstance>>)
        ensures
            r matches Some(found) ==> (*found)@.wf(),
    {
        let guard = lock_read(&self.modules);
        read_access(&guard).module(name)
    }
}

/// A program: a set of instantiated modules. Handles to one program may
/// be held by several threads.
pub struct ProgramInstance {
    essence: Arc<ProgramInstanceEssence>,
}

impl ProgramInstance {
    /// A program without modules.
    pub fn new() -> Self {
        ProgramInstance { essence: Arc::new(ProgramInstanceEssence::new()) }
    }

    /// What the handles of this program share.
    pub closed spec fn spec_essence(&self) -> ProgramInstanceEssence {
        *self.essence
    }

    /// What the handles of this program share.
    pub fn essence(&self) -> (r: &ProgramInstanceEssence)
        ensures
            *r == self.spec_essence(),
    {
        &self.essence
    }

    /// Instantiates `module` and registers it under `name`, with the
    /// registry locked for writing: what `ModuleRegistry::add_module`
    /// returns on the registry that it finds. Whatever other threads have
    /// registered, it succeeds only with a module that can be instantiated,
    /// and it fails either with `Error::Program`, the name being registered
    /// at that time, or with the error of the instantiation.
    pub fn add_module(&self, name: &str, module: Module) -> (r: Result<(), Error>)
        ensures
            r is Ok ==> ModuleInstance::spec_new(module) is Ok,
            r matches Err(e) ==> e == Error::Program || ModuleInstance::spec_new(module)
                == Err::<ModuleModel, Error>(e),
    {
        let mut guard = lock_write(&self.essence.modules);
        write_access(&mut guard).add_module(name, module)
    }
}

} // verus!
