//! Tests of the function builder's invariants and of the meaning of the
//! graphs it produces, run through the verified reference interpreter.

use minijit::builder::{build_sum_function, FuncBuilder, Op, Signature};
use minijit::errors::CompileError;
use minijit::ir::{eval_graph, IrType};

fn begun(params: Vec<IrType>, rets: Vec<IrType>) -> FuncBuilder {
    let mut b = FuncBuilder::new();
    let entry = b.begin(Signature { params, rets }).unwrap();
    b.seal_block(entry);
    b
}

#[test]
fn sum_of_two_parameters() {
    let g = build_sum_function(2);
    assert_eq!(eval_graph(&g, &vec![10, 4]), Some(14));
    assert_eq!(eval_graph(&g, &vec![24, 7]), Some(31));
    assert_eq!(eval_graph(&g, &vec![0, 0]), Some(0));
    assert_eq!(eval_graph(&g, &vec![-5, 5]), Some(0));
}

#[test]
fn sum_of_other_arities() {
    let g0 = build_sum_function(0);
    assert_eq!(eval_graph(&g0, &vec![]), Some(0));
    let g1 = build_sum_function(1);
    assert_eq!(eval_graph(&g1, &vec![-42]), Some(-42));
    let g5 = build_sum_function(5);
    assert_eq!(eval_graph(&g5, &vec![1, 2, 3, 4, 5]), Some(15));
}

#[test]
fn sum_wraps_on_overflow() {
    let g = build_sum_function(2);
    assert_eq!(eval_graph(&g, &vec![i64::MAX, 1]), Some(i64::MIN));
    assert_eq!(eval_graph(&g, &vec![i64::MIN, -1]), Some(i64::MAX));
}

#[test]
fn use_before_def_fails() {
    let mut b = begun(vec![IrType::I64], vec![IrType::I64]);
    b.declare_variable(0, IrType::I64).unwrap();
    // Declared but never defined: the use must fail, never read garbage.
    assert_eq!(b.use_variable(0), Err(CompileError::UseBeforeDefError));
    // Never declared at all.
    assert_eq!(b.use_variable(7), Err(CompileError::UseBeforeDefError));
    // After a definition the use resolves.
    let pv = b.param_value(0).unwrap();
    b.define_variable(0, pv).unwrap();
    assert!(b.use_variable(0).is_ok());
}

#[test]
fn duplicate_declaration_fails() {
    let mut b = begun(vec![], vec![IrType::I64]);
    b.declare_variable(0, IrType::I64).unwrap();
    assert_eq!(
        b.declare_variable(0, IrType::I64),
        Err(CompileError::DuplicateDeclarationError)
    );
    // Another handle is fine; redeclaring it is not, whatever the type.
    b.declare_variable(1, IrType::I32).unwrap();
    assert_eq!(
        b.declare_variable(1, IrType::I64),
        Err(CompileError::DuplicateDeclarationError)
    );
}

#[test]
fn begin_twice_fails() {
    let mut b = FuncBuilder::new();
    b.begin(Signature { params: vec![], rets: vec![IrType::I64] }).unwrap();
    let r = b.begin(Signature { params: vec![], rets: vec![IrType::I64] });
    assert_eq!(r.err(), Some(CompileError::SignatureError));
}

#[test]
fn operations_before_begin_fail() {
    let mut b = FuncBuilder::new();
    assert_eq!(
        b.declare_variable(0, IrType::I64),
        Err(CompileError::SignatureError)
    );
    assert_eq!(b.use_variable(0), Err(CompileError::SignatureError));
    let r = b.emit(Op::Iconst { ty: IrType::I64, imm: 0 });
    assert_eq!(r.err(), Some(CompileError::SignatureError));
    assert_eq!(b.param_value(0), None);
}

#[test]
fn sum_graph_shape() {
    // One zero constant, one addition per parameter, one return.
    let g = build_sum_function(2);
    assert_eq!(g.params.len(), 2);
    assert_eq!(g.rets.len(), 1);
    assert_eq!(g.instrs.len(), 4);
}

#[test]
fn operand_type_mismatch_fails() {
    let mut b = begun(vec![], vec![IrType::I64]);
    let a = b.emit(Op::Iconst { ty: IrType::I32, imm: 1 }).unwrap().unwrap();
    let c = b.emit(Op::Iconst { ty: IrType::I64, imm: 2 }).unwrap().unwrap();
    let r = b.emit(Op::Iadd { lhs: a, rhs: c });
    assert_eq!(r.err(), Some(CompileError::TypeMismatchError));
}

#[test]
fn immediate_out_of_range_fails() {
    let mut b = begun(vec![], vec![IrType::I64]);
    let r = b.emit(Op::Iconst { ty: IrType::I32, imm: 0x1_0000_0000 });
    assert_eq!(r.err(), Some(CompileError::TypeMismatchError));
    assert!(b.emit(Op::Iconst { ty: IrType::I32, imm: -0x8000_0000 }).is_ok());
}

#[test]
fn return_type_mismatch_fails() {
    let mut b = begun(vec![], vec![IrType::I64]);
    let c = b.emit(Op::Iconst { ty: IrType::I32, imm: 3 }).unwrap().unwrap();
    let r = b.emit(Op::Ret { arg: c });
    assert_eq!(r.err(), Some(CompileError::TypeMismatchError));
}

#[test]
fn define_with_wrong_type_fails() {
    let mut b = begun(vec![], vec![IrType::I64]);
    b.declare_variable(0, IrType::I64).unwrap();
    let c = b.emit(Op::Iconst { ty: IrType::I32, imm: 3 }).unwrap().unwrap();
    assert_eq!(
        b.define_variable(0, c),
        Err(CompileError::TypeMismatchError)
    );
    // Defining an undeclared handle cannot be type-checked either.
    assert_eq!(
        b.define_variable(9, c),
        Err(CompileError::TypeMismatchError)
    );
}

#[test]
fn finish_without_terminator_fails() {
    let mut b = begun(vec![], vec![IrType::I64]);
    b.emit(Op::Iconst { ty: IrType::I64, imm: 1 }).unwrap();
    assert_eq!(b.finish().err(), Some(CompileError::IncompleteFunctionError));
}

#[test]
fn finish_unsealed_fails() {
    let mut b = FuncBuilder::new();
    b.begin(Signature { params: vec![], rets: vec![IrType::I64] }).unwrap();
    let c = b.emit(Op::Iconst { ty: IrType::I64, imm: 1 }).unwrap().unwrap();
    b.emit(Op::Ret { arg: c }).unwrap();
    assert_eq!(b.finish().err(), Some(CompileError::IncompleteFunctionError));
}

#[test]
fn instruction_after_terminator_fails_finish() {
    let mut b = begun(vec![], vec![IrType::I64]);
    let c = b.emit(Op::Iconst { ty: IrType::I64, imm: 1 }).unwrap().unwrap();
    b.emit(Op::Ret { arg: c }).unwrap();
    b.emit(Op::Iconst { ty: IrType::I64, imm: 2 }).unwrap();
    assert_eq!(b.finish().err(), Some(CompileError::IncompleteFunctionError));
}

#[test]
fn hand_built_graph_evaluates() {
    let mut b = begun(vec![], vec![IrType::I64]);
    let five = b.emit(Op::Iconst { ty: IrType::I64, imm: 5 }).unwrap().unwrap();
    let seven = b.emit(Op::Iconst { ty: IrType::I64, imm: 7 }).unwrap().unwrap();
    let sum = b.emit(Op::Iadd { lhs: five, rhs: seven }).unwrap().unwrap();
    b.emit(Op::Ret { arg: sum }).unwrap();
    let g = b.finish().unwrap();
    assert_eq!(eval_graph(&g, &vec![]), Some(12));
}

#[test]
fn thirty_two_bit_addition_wraps() {
    let mut b = begun(vec![], vec![IrType::I32]);
    let a = b.emit(Op::Iconst { ty: IrType::I32, imm: 0x7FFF_FFFF }).unwrap().unwrap();
    let c = b.emit(Op::Iconst { ty: IrType::I32, imm: 1 }).unwrap().unwrap();
    let sum = b.emit(Op::Iadd { lhs: a, rhs: c }).unwrap().unwrap();
    b.emit(Op::Ret { arg: sum }).unwrap();
    let g = b.finish().unwrap();
    assert_eq!(eval_graph(&g, &vec![]), Some(-0x8000_0000));
}

#[test]
fn zero_initialisation_is_overwritten() {
    // The sum function zero-initialises its accumulator before
    // redefining it; the zero must not leak into the result.
    let g = build_sum_function(1);
    assert_eq!(eval_graph(&g, &vec![123]), Some(123));
}
