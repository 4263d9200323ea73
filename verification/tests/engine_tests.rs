//! Tests of the engine against the real native backend: functions are
//! compiled to machine code in-process and their addresses inspected.
//! Invoking the code needs an unchecked cast and stays outside the
//! library and its tests.

use minijit::engine::JIT;
use minijit::errors::CompileError;

#[test]
fn compile_returns_an_address() {
    let mut jit = JIT::new();
    let addr = jit.make_prog("addpair").unwrap();
    assert!(addr != 0);
}

#[test]
fn finalized_address_is_stable() {
    let mut jit = JIT::new();
    let h = jit.compile("stable").unwrap();
    let a1 = jit.finalized_address(h).unwrap();
    let a2 = jit.finalized_address(h).unwrap();
    let a3 = jit.finalized_address(h).unwrap();
    assert_eq!(a1, a2);
    assert_eq!(a2, a3);
}

#[test]
fn finalized_address_unknown_handle() {
    let mut jit = JIT::new();
    assert_eq!(jit.finalized_address(0), None);
    let h = jit.compile("known").unwrap();
    assert!(jit.finalized_address(h).is_some());
    assert_eq!(jit.finalized_address(h + 1), None);
}

#[test]
fn two_functions_coexist() {
    let mut jit = JIT::new();
    let a1 = jit.make_prog("first").unwrap();
    let a2 = jit.make_prog("second").unwrap();
    assert!(a1 != 0);
    assert!(a2 != 0);
    assert!(a1 != a2);
}

#[test]
fn engine_reuse_after_clear() {
    // The codegen context is cleared after each compilation; a second
    // build must not observe state left from the first.
    let mut jit = JIT::new();
    let h1 = jit.compile("again1").unwrap();
    let h2 = jit.compile("again2").unwrap();
    assert_eq!(h1, 0);
    assert_eq!(h2, 1);
    assert!(jit.finalized_address(h1).is_some());
    assert!(jit.finalized_address(h2).is_some());
}

#[test]
fn duplicate_name_fails() {
    let mut jit = JIT::new();
    jit.make_prog("dup").unwrap();
    let err = jit.make_prog("dup").unwrap_err();
    assert_eq!(err.error, CompileError::DuplicateNameError);
    assert_eq!(err.function, "dup");
}
