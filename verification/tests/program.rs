use std::sync::Arc;
use wasm_interpreter::builder::memory::MemoryDefinition;
use wasm_interpreter::elements::{GlobalDefinition, Module};
use wasm_interpreter::interpreter::error::Error;
use wasm_interpreter::interpreter::program::{ModuleRegistry, ProgramInstance};
use wasm_interpreter::interpreter::value::RuntimeValue;

fn module_with_global(value: i32) -> Module {
    Module {
        memory: None,
        globals: vec![GlobalDefinition { initial: RuntimeValue::I32(value), mutable: false }],
    }
}

#[test]
fn a_name_is_registered_once() {
    let program = ProgramInstance::new();
    assert!(program.essence().module("first").is_none());
    assert_eq!(program.add_module("first", module_with_global(1)), Ok(()));
    assert_eq!(program.add_module("second", module_with_global(2)), Ok(()));
    assert_eq!(program.add_module("first", module_with_global(3)), Err(Error::Program));
    let first = program.essence().module("first").unwrap();
    assert_eq!(first.global(0).unwrap().get(), RuntimeValue::I32(1));
    let second = program.essence().module("second").unwrap();
    assert_eq!(second.global(0).unwrap().get(), RuntimeValue::I32(2));
    assert!(program.essence().module("third").is_none());
    assert!(program.essence().module("").is_none());
}

#[test]
fn a_module_that_cannot_be_instantiated_is_not_registered() {
    let program = ProgramInstance::new();
    let broken = Module { memory: Some(MemoryDefinition { min: 2, max: Some(1) }), globals: vec![] };
    assert_eq!(program.add_module("m", broken), Err(Error::Memory));
    assert!(program.essence().module("m").is_none());
    assert_eq!(program.add_module("m", Module::default()), Ok(()));
    assert!(program.essence().module("m").is_some());
}

#[test]
fn lookups_share_one_instance() {
    let program = ProgramInstance::new();
    program.add_module("m", module_with_global(5)).unwrap();
    let a = program.essence().module("m").unwrap();
    let b = program.essence().module("m").unwrap();
    assert!(Arc::ptr_eq(&a, &b));
}

#[test]
fn the_registry_without_a_lock() {
    let mut registry = ModuleRegistry::new();
    assert!(registry.module("a").is_none());
    assert_eq!(registry.add_module("a", module_with_global(1)), Ok(()));
    assert_eq!(registry.add_module("a", module_with_global(2)), Err(Error::Program));
    assert_eq!(registry.add_module("b", module_with_global(2)), Ok(()));
    assert_eq!(registry.module("a").unwrap().global(0).unwrap().get(), RuntimeValue::I32(1));
    assert_eq!(registry.module("b").unwrap().global(0).unwrap().get(), RuntimeValue::I32(2));
}

#[test]
fn a_registered_module_can_be_read() {
    let program = ProgramInstance::new();
    let with_memory =
        Module { memory: Some(MemoryDefinition { min: 2, max: Some(4) }), globals: vec![] };
    program.add_module("m", with_memory).unwrap();
    let found = program.essence().module("m").unwrap();
    assert_eq!(found.memory_size(0), Ok(2));
    assert_eq!(found.memory_get(0, 2 * 65536 - 2, 2), Ok(vec![0, 0]));
    assert_eq!(found.memory_get(0, 2 * 65536 - 1, 2), Err(Error::Trap));
}
