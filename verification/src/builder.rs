//! The function builder: incremental construction of one function graph,
//! with the SSA and typing invariants checked at every step.
//!
//! A build starts with `begin`, which fixes the signature and creates the
//! entry block; variables are declared, defined and used against a typed
//! variable table; instructions are emitted in order; `finish` hands back
//! the completed graph once it ends in exactly one terminator.

use vstd::prelude::*;
use vstd::pervasive::unreached;

use crate::errors::CompileError;
use crate::ir::{
    eval, instr_wf, lemma_run_values_push, lemma_value_types_push, run_values, step_types,
    step_values, value_types, wrap_sum, FuncGraph, Instr, IrType, ValueId, I32_MAX_VAL,
    I32_MIN_VAL,
};

verus! {

/// A function signature: the parameter types and the return types, each
/// in order.
#[derive(Clone, Debug)]
pub struct Signature {
    /// The parameter types.
    pub params: Vec<IrType>,
    /// The return types.
    pub rets: Vec<IrType>,
}

/// A handle to a basic block of the function under construction. The
/// single-block core has one: the entry block, created by `begin`.
#[derive(Clone, Copy, PartialEq, Eq, Structural, Debug)]
pub struct BlockId {
    /// The dense index of the block.
    pub id: usize,
}

/// One slot of the variable table: the declared type, and the value of
/// the current definition, if the variable has one.
#[derive(Clone, Copy, Debug)]
pub struct VarSlot {
    /// The type the variable was declared with.
    pub ty: IrType,
    /// The value index of the most recent definition.
    pub def: Option<usize>,
}

/// One instruction as handed to `emit`, with its operands as value
/// handles.
#[derive(Clone, Copy, PartialEq, Eq, Structural, Debug)]
pub enum Op {
    /// Load a constant of type `ty`.
    Iconst { ty: IrType, imm: i64 },
    /// Wrapping integer addition of two values of one type.
    Iadd { lhs: ValueId, rhs: ValueId },
    /// Return a value to the caller; the terminator.
    Ret { arg: ValueId },
}

/// Builds one function graph instruction by instruction, keeping the
/// variable table and the types of all values created so far.
pub struct FuncBuilder {
    /// Whether `begin` has run for this build.
    pub begun: bool,
    /// The parameter types fixed by `begin`.
    pub params: Vec<IrType>,
    /// The return types fixed by `begin`.
    pub rets: Vec<IrType>,
    /// The variable table, indexed by variable handle.
    pub vars: Vec<Option<VarSlot>>,
    /// The types of all values created so far: parameters first, then
    /// one per value-producing instruction.
    pub vtypes: Vec<IrType>,
    /// The instructions emitted so far, in order.
    pub instrs: Vec<Instr>,
    /// Whether the entry block has been sealed.
    pub sealed: bool,
}

impl FuncBuilder {
    /// The builder's internal invariant: the value types agree with the
    /// emitted instructions, every instruction is well typed against the
    /// values before it, and every variable definition names an existing
    /// value of the variable's declared type.
    pub open spec fn wf(self) -> bool {
        &&& self.vtypes@ == value_types(self.params@, self.instrs@)
        &&& forall|i: int|
            0 <= i < self.instrs@.len() ==> instr_wf(
                self.instrs@[i],
                value_types(self.params@, self.instrs@.take(i)),
                self.rets@,
            )
        &&& forall|v: int|
            0 <= v < self.vars@.len() ==> ((#[trigger] self.vars@[v]) matches Some(slot)
                ==> (slot.def matches Some(d) ==> d < self.vtypes@.len()
                    && self.vtypes@[d as int] == slot.ty))
        &&& !self.begun ==> {
            &&& self.params@.len() == 0
            &&& self.rets@.len() == 0
            &&& self.vars@.len() == 0
            &&& self.vtypes@.len() == 0
            &&& self.instrs@.len() == 0
            &&& !self.sealed
        }
    }

    /// Whether `var` has been declared in this build.
    pub open spec fn var_declared(self, var: usize) -> bool {
        var < self.vars@.len() && self.vars@[var as int] is Some
    }

    /// The slot of a declared variable.
    pub open spec fn var_slot(self, var: usize) -> VarSlot {
        self.vars@[var as int]->0
    }

    /// A build that `finish` accepts: begun, sealed, and ended by
    /// exactly one terminator, which stands last.
    pub open spec fn complete(self) -> bool {
        &&& self.begun
        &&& self.sealed
        &&& self.instrs@.len() > 0
        &&& self.instrs@.last() is Ret
        &&& forall|i: int| 0 <= i < self.instrs@.len() - 1 ==> !(self.instrs@[i] is Ret)
    }

    /// A fresh builder, ready for `begin`.
    pub fn new() -> (b: FuncBuilder)
        ensures
            b.wf(),
            !b.begun,
    {
        let b = FuncBuilder {
            begun: false,
            params: Vec::new(),
            rets: Vec::new(),
            vars: Vec::new(),
            vtypes: Vec::new(),
            instrs: Vec::new(),
            sealed: false,
        };
        proof {
            assert(b.vtypes@ =~= value_types(b.params@, b.instrs@));
        }
        b
    }

    /// Start the build: fix the signature, create the entry block, bind
    /// one value per parameter, and switch emission to that block.
    ///
    /// Fails with `SignatureError` when called twice for one build.
    pub fn begin(&mut self, sig: Signature) -> (r: Result<BlockId, CompileError>)
        requires
            old(self).wf(),
        ensures
            final(self).wf(),
            old(self).begun ==> {
                &&& r == Err::<BlockId, CompileError>(CompileError::SignatureError)
                &&& *final(self) == *old(self)
            },
            !old(self).begun ==> {
                &&& r == Ok::<BlockId, CompileError>((BlockId { id: 0 }))
                &&& final(self).begun
                &&& final(self).params@ == sig.params@
                &&& final(self).rets@ == sig.rets@
                &&& final(self).vtypes@ == sig.params@
                &&& final(self).vars@.len() == 0
                &&& final(self).instrs@.len() == 0
                &&& !final(self).sealed
            },
    {
        if self.begun {
            return Err(CompileError::SignatureError);
        }
        self.begun = true;
        self.params = sig.params;
        self.rets = sig.rets;
        let mut i: usize = 0;
        while i < self.params.len()
            invariant
                i <= self.params@.len(),
                self.vtypes@ =~= self.params@.take(i as int),
                self.begun,
                !self.sealed,
                self.params@ == sig.params@,
                self.rets@ == sig.rets@,
                self.vars@.len() == 0,
                self.instrs@.len() == 0,
            decreases self.params@.len() - i,
        {
            let ty = self.params[i];
            self.vtypes.push(ty);
            i = i + 1;
        }
        proof {
            assert(self.params@.take(self.params@.len() as int) =~= self.params@);
            assert(self.vtypes@ =~= value_types(self.params@, self.instrs@));
        }
        Ok(BlockId { id: 0 })
    }

    /// The value bound to parameter `i` of the signature, or `None`
    /// when the build has not begun or the signature has no such
    /// parameter.
    pub fn param_value(&self, i: usize) -> (r: Option<ValueId>)
        ensures
            r is Some <==> self.begun && i < self.params@.len(),
            r is Some ==> r == Some::<ValueId>((ValueId { id: i })),
    {
        if self.begun && i < self.params.len() {
            Some(ValueId { id: i })
        } else {
            None
        }
    }

    /// Mark the entry block's predecessor set final. The single-block
    /// core has no predecessors to wait for, so the entry block may be
    /// sealed as soon as `begin` returns it; sealing an unknown block
    /// handle changes nothing.
    pub fn seal_block(&mut self, block: BlockId)
        requires
            old(self).wf(),
        ensures
            final(self).wf(),
            final(self).sealed == (old(self).sealed || (block.id == 0 && old(self).begun)),
            final(self).begun == old(self).begun,
            final(self).params@ == old(self).params@,
            final(self).rets@ == old(self).rets@,
            final(self).vars@ == old(self).vars@,
            final(self).vtypes@ == old(self).vtypes@,
            final(self).instrs@ == old(self).instrs@,
    {
        if self.begun && block.id == 0 {
            self.sealed = true;
        }
    }

    /// Declare variable handle `var` with type `ty`: the handle gets a
    /// slot in the variable table and no definition yet.
    ///
    /// Fails with `SignatureError` before `begin`, and with
    /// `DuplicateDeclarationError` when the handle is already declared;
    /// the builder is unchanged on failure.
    pub fn declare_variable(&mut self, var: usize, ty: IrType) -> (r: Result<(), CompileError>)
        requires
            old(self).wf(),
        ensures
            final(self).wf(),
            !old(self).begun ==> {
                &&& r == Err::<(), CompileError>(CompileError::SignatureError)
                &&& *final(self) == *old(self)
            },
            old(self).begun && old(self).var_declared(var) ==> {
                &&& r == Err::<(), CompileError>(CompileError::DuplicateDeclarationError)
                &&& *final(self) == *old(self)
            },
            old(self).begun && !old(self).var_declared(var) ==> {
                &&& r == Ok::<(), CompileError>(())
                &&& final(self).var_declared(var)
                &&& final(self).var_slot(var) == (VarSlot { ty, def: None })
                &&& final(self).vars@.len() == if var + 1 > old(self).vars@.len() {
                    var + 1
                } else {
                    old(self).vars@.len() as int
                }
                &&& forall|v: int|
                    0 <= v < final(self).vars@.len() && v != var ==> final(self).vars@[v]
                        == if v < old(self).vars@.len() {
                        old(self).vars@[v]
                    } else {
                        None::<VarSlot>
                    }
                &&& final(self).begun == old(self).begun
                &&& final(self).sealed == old(self).sealed
                &&& final(self).params@ == old(self).params@
                &&& final(self).rets@ == old(self).rets@
                &&& final(self).vtypes@ == old(self).vtypes@
                &&& final(self).instrs@ == old(self).instrs@
            },
    {
        if !self.begun {
            return Err(CompileError::SignatureError);
        }
        if var < self.vars.len() {
            if self.vars[var].is_some() {
                return Err(CompileError::DuplicateDeclarationError);
            }
            self.vars[var] = Some(VarSlot { ty, def: None });
            Ok(())
        } else {
            let ghost pre = *self;
            while self.vars.len() < var
                invariant
                    pre.vars@.len() <= self.vars@.len() <= var,
                    forall|v: int|
                        0 <= v < self.vars@.len() ==> self.vars@[v] == if v
                            < pre.vars@.len() {
                            pre.vars@[v]
                        } else {
                            None::<VarSlot>
                        },
                    self.begun == pre.begun,
                    self.sealed == pre.sealed,
                    self.params@ == pre.params@,
                    self.rets@ == pre.rets@,
                    self.vtypes@ == pre.vtypes@,
                    self.instrs@ == pre.instrs@,
                decreases var - self.vars@.len(),
            {
                self.vars.push(None);
            }
            self.vars.push(Some(VarSlot { ty, def: None }));
            Ok(())
        }
    }

    /// Record `val` as the current definition of `var` in the active
    /// block. The table is updated; no instruction is emitted.
    ///
    /// Fails with `SignatureError` before `begin`. Fails with
    /// `TypeMismatchError` when the value cannot be checked against a
    /// declared type: the handle was never declared, the value does not
    /// exist, or its type differs from the variable's; the builder is
    /// unchanged on failure.
    pub fn define_variable(&mut self, var: usize, val: ValueId) -> (r: Result<(), CompileError>)
        requires
            old(self).wf(),
        ensures
            final(self).wf(),
            !old(self).begun ==> {
                &&& r == Err::<(), CompileError>(CompileError::SignatureError)
                &&& *final(self) == *old(self)
            },
            old(self).begun && !(old(self).var_declared(var) && val.id < old(self).vtypes@.len()
                && old(self).vtypes@[val.id as int] == old(self).var_slot(var).ty) ==> {
                &&& r == Err::<(), CompileError>(CompileError::TypeMismatchError)
                &&& *final(self) == *old(self)
            },
            old(self).begun && old(self).var_declared(var) && val.id < old(self).vtypes@.len()
                && old(self).vtypes@[val.id as int] == old(self).var_slot(var).ty ==> {
                &&& r == Ok::<(), CompileError>(())
                &&& final(self).vars@ == old(self).vars@.update(
                    var as int,
                    Some((VarSlot { ty: old(self).var_slot(var).ty, def: Some(val.id) })),
                )
                &&& final(self).begun == old(self).begun
                &&& final(self).sealed == old(self).sealed
                &&& final(self).params@ == old(self).params@
                &&& final(self).rets@ == old(self).rets@
                &&& final(self).vtypes@ == old(self).vtypes@
                &&& final(self).instrs@ == old(self).instrs@
            },
    {
        if !self.begun {
            return Err(CompileError::SignatureError);
        }
        if var >= self.vars.len() {
            return Err(CompileError::TypeMismatchError);
        }
        match self.vars[var] {
            None => Err(CompileError::TypeMismatchError),
            Some(slot) => {
                if val.id >= self.vtypes.len() {
                    return Err(CompileError::TypeMismatchError);
                }
                if self.vtypes[val.id] != slot.ty {
                    return Err(CompileError::TypeMismatchError);
                }
                self.vars[var] = Some(VarSlot { ty: slot.ty, def: Some(val.id) });
                Ok(())
            },
        }
    }

    /// Resolve a use of `var` to its nearest dominating definition: in
    /// the single-block core, the most recent `define_variable` for it.
    ///
    /// Fails with `SignatureError` before `begin`, and with
    /// `UseBeforeDefError` when the handle was never declared or no
    /// definition reaches the use — a use never reads an undefined
    /// variable silently.
    pub fn use_variable(&self, var: usize) -> (r: Result<ValueId, CompileError>)
        requires
            self.wf(),
        ensures
            !self.begun ==> r == Err::<ValueId, CompileError>(CompileError::SignatureError),
            self.begun && !(self.var_declared(var) && self.var_slot(var).def is Some) ==> r
                == Err::<ValueId, CompileError>(CompileError::UseBeforeDefError),
            self.begun && self.var_declared(var) && self.var_slot(var).def is Some ==> {
                &&& r == Ok::<ValueId, CompileError>((ValueId { id: self.var_slot(var).def->0 }))
                &&& self.var_slot(var).def->0 < self.vtypes@.len()
                &&& self.vtypes@[self.var_slot(var).def->0 as int] == self.var_slot(var).ty
            },
    {
        if !self.begun {
            return Err(CompileError::SignatureError);
        }
        if var >= self.vars.len() {
            return Err(CompileError::UseBeforeDefError);
        }
        match self.vars[var] {
            None => Err(CompileError::UseBeforeDefError),
            Some(slot) => match slot.def {
                None => Err(CompileError::UseBeforeDefError),
                Some(d) => Ok(ValueId { id: d }),
            },
        }
    }

    /// Append one instruction to the active block, after validating its
    /// operands against the types of the values they name. A constant
    /// or an addition produces a new value; a return produces none.
    ///
    /// Fails with `SignatureError` before `begin`, and with
    /// `TypeMismatchError` when an operand does not exist, the operand
    /// types disagree, an immediate does not fit its type, or a return
    /// does not hand back exactly what the signature promises; the
    /// builder is unchanged on failure.
    pub fn emit(&mut self, op: Op) -> (r: Result<Option<ValueId>, CompileError>)
        requires
            old(self).wf(),
        ensures
            final(self).wf(),
            final(self).begun == old(self).begun,
            final(self).sealed == old(self).sealed,
            final(self).params@ == old(self).params@,
            final(self).rets@ == old(self).rets@,
            final(self).vars@ == old(self).vars@,
            !old(self).begun ==> {
                &&& r == Err::<Option<ValueId>, CompileError>(CompileError::SignatureError)
                &&& final(self).instrs@ == old(self).instrs@
                &&& final(self).vtypes@ == old(self).vtypes@
            },
            old(self).begun ==> match op {
                Op::Iconst { ty, imm } => if crate::ir::fits(ty, imm as int) {
                    &&& r == Ok::<Option<ValueId>, CompileError>(
                        Some((ValueId { id: old(self).vtypes@.len() as usize })),
                    )
                    &&& final(self).instrs@ == old(self).instrs@.push((Instr::Const { ty, imm }))
                    &&& final(self).vtypes@ == old(self).vtypes@.push(ty)
                } else {
                    &&& r == Err::<Option<ValueId>, CompileError>(CompileError::TypeMismatchError)
                    &&& final(self).instrs@ == old(self).instrs@
                    &&& final(self).vtypes@ == old(self).vtypes@
                },
                Op::Iadd { lhs, rhs } => if lhs.id < old(self).vtypes@.len() && rhs.id < old(
                    self,
                ).vtypes@.len() && old(self).vtypes@[lhs.id as int] == old(self).vtypes@[rhs.id as int] {
                    &&& r == Ok::<Option<ValueId>, CompileError>(
                        Some((ValueId { id: old(self).vtypes@.len() as usize })),
                    )
                    &&& final(self).instrs@ == old(self).instrs@.push(
                        (Instr::Add {
                            ty: old(self).vtypes@[lhs.id as int],
                            lhs: lhs.id,
                            rhs: rhs.id,
                        }),
                    )
                    &&& final(self).vtypes@ == old(self).vtypes@.push(
                        old(self).vtypes@[lhs.id as int],
                    )
                } else {
                    &&& r == Err::<Option<ValueId>, CompileError>(CompileError::TypeMismatchError)
                    &&& final(self).instrs@ == old(self).instrs@
                    &&& final(self).vtypes@ == old(self).vtypes@
                },
                Op::Ret { arg } => if arg.id < old(self).vtypes@.len() && old(self).rets@.len()
                    == 1 && old(self).vtypes@[arg.id as int] == old(self).rets@[0] {
                    &&& r == Ok::<Option<ValueId>, CompileError>(None)
                    &&& final(self).instrs@ == old(self).instrs@.push((Instr::Ret { arg: arg.id }))
                    &&& final(self).vtypes@ == old(self).vtypes@
                } else {
                    &&& r == Err::<Option<ValueId>, CompileError>(CompileError::TypeMismatchError)
                    &&& final(self).instrs@ == old(self).instrs@
                    &&& final(self).vtypes@ == old(self).vtypes@
                },
            },
    {
        if !self.begun {
            return Err(CompileError::SignatureError);
        }
        let ghost pre = *self;
        match op {
            Op::Iconst { ty, imm } => {
                match ty {
                    IrType::I32 => {
                        if imm < I32_MIN_VAL || imm > I32_MAX_VAL {
                            return Err(CompileError::TypeMismatchError);
                        }
                    },
                    IrType::I64 => {},
                }
                let id = self.vtypes.len();
                self.instrs.push(Instr::Const { ty, imm });
                self.vtypes.push(ty);
                proof {
                    Self::lemma_emit_preserves_wf(pre, *self, Instr::Const { ty, imm });
                }
                Ok(Some(ValueId { id }))
            },
            Op::Iadd { lhs, rhs } => {
                if lhs.id >= self.vtypes.len() || rhs.id >= self.vtypes.len() {
                    return Err(CompileError::TypeMismatchError);
                }
                let ty = self.vtypes[lhs.id];
                if self.vtypes[rhs.id] != ty {
                    return Err(CompileError::TypeMismatchError);
                }
                let id = self.vtypes.len();
                self.instrs.push(Instr::Add { ty, lhs: lhs.id, rhs: rhs.id });
                self.vtypes.push(ty);
                proof {
                    Self::lemma_emit_preserves_wf(
                        pre,
                        *self,
                        Instr::Add { ty, lhs: lhs.id, rhs: rhs.id },
                    );
                }
                Ok(Some(ValueId { id }))
            },
            Op::Ret { arg } => {
                if arg.id >= self.vtypes.len() {
                    return Err(CompileError::TypeMismatchError);
                }
                if self.rets.len() != 1 {
                    return Err(CompileError::TypeMismatchError);
                }
                let rty = self.rets[0];
                if self.vtypes[arg.id] != rty {
                    return Err(CompileError::TypeMismatchError);
                }
                self.instrs.push(Instr::Ret { arg: arg.id });
                proof {
                    Self::lemma_emit_preserves_wf(pre, *self, Instr::Ret { arg: arg.id });
                }
                Ok(None)
            },
        }
    }

    /// Appending one well-typed instruction preserves the builder
    /// invariant.
    proof fn lemma_emit_preserves_wf(pre: Self, post: Self, i: Instr)
        requires
            pre.wf(),
            pre.begun,
            instr_wf(i, pre.vtypes@, pre.rets@),
            post.instrs@ == pre.instrs@.push(i),
            post.vtypes@ == step_types(pre.vtypes@, i),
            post.params@ == pre.params@,
            post.rets@ == pre.rets@,
            post.vars@ == pre.vars@,
            post.begun == pre.begun,
        ensures
            post.wf(),
    {
        lemma_value_types_push(pre.params@, pre.instrs@, i);
        assert(post.vtypes@ =~= value_types(post.params@, post.instrs@));
        assert forall|j: int| 0 <= j < post.instrs@.len() implies instr_wf(
            post.instrs@[j],
            value_types(post.params@, post.instrs@.take(j)),
            post.rets@,
        ) by {
            if j < pre.instrs@.len() {
                assert(post.instrs@.take(j) =~= pre.instrs@.take(j));
                assert(post.instrs@[j] == pre.instrs@[j]);
            } else {
                assert(post.instrs@.take(j) =~= pre.instrs@);
                assert(post.instrs@[j] == i);
            }
        }
        assert forall|v: int|
            0 <= v < post.vars@.len() implies ((#[trigger] post.vars@[v]) matches Some(slot)
            ==> (slot.def matches Some(d) ==> d < post.vtypes@.len()
                && post.vtypes@[d as int] == slot.ty)) by {
            match i {
                Instr::Ret { .. } => {},
                _ => {},
            }
        }
    }

    /// Validate and hand back the completed function graph: the build
    /// has begun, the entry block is sealed, and the block ends in
    /// exactly one terminator, which stands last. Every use was already
    /// resolved against a dominating definition when it was made.
    ///
    /// Fails with `IncompleteFunctionError` otherwise.
    pub fn finish(self) -> (r: Result<FuncGraph, CompileError>)
        requires
            self.wf(),
        ensures
            match r {
                Ok(g) => {
                    &&& self.complete()
                    &&& g.params@ == self.params@
                    &&& g.rets@ == self.rets@
                    &&& g.instrs@ == self.instrs@
                    &&& g.finished()
                },
                Err(e) => {
                    &&& e == CompileError::IncompleteFunctionError
                    &&& !self.complete()
                },
            },
    {
        if !self.begun || !self.sealed {
            return Err(CompileError::IncompleteFunctionError);
        }
        let n = self.instrs.len();
        if n == 0 {
            return Err(CompileError::IncompleteFunctionError);
        }
        let is_ret = matches!(self.instrs[n - 1], Instr::Ret { .. });
        if !is_ret {
            return Err(CompileError::IncompleteFunctionError);
        }
        let mut i: usize = 0;
        while i < n - 1
            invariant
                n == self.instrs@.len(),
                n > 0,
                i <= n - 1,
                forall|j: int| 0 <= j < i ==> !(self.instrs@[j] is Ret),
            decreases n - 1 - i,
        {
            if matches!(self.instrs[i], Instr::Ret { .. }) {
                return Err(CompileError::IncompleteFunctionError);
            }
            i = i + 1;
        }
        let g = FuncGraph { params: self.params, rets: self.rets, instrs: self.instrs };
        proof {
            assert(g.instrs@.last() is Ret);
        }
        Ok(g)
    }
}

/// The value index of the accumulator read by the `j`-th addition of
/// the sum function over `n` parameters: the zero constant for the
/// first addition, the previous addition's result after that.
pub open spec fn sum_acc_index(n: int, j: int) -> int {
    if j == 0 {
        n
    } else {
        n + j
    }
}

/// The instruction list of the sum function over `n` parameters: the
/// zero constant, one addition per parameter reading the accumulator
/// and that parameter, and the return of the last accumulator value.
/// Every build of the sum function produces exactly this list, so two
/// builds are structurally identical.
pub open spec fn sum_graph_instrs(n: int) -> Seq<Instr> {
    seq![(Instr::Const { ty: IrType::I64, imm: 0 })] + Seq::new(
        n as nat,
        |j: int|
            (Instr::Add {
                ty: IrType::I64,
                lhs: sum_acc_index(n, j) as usize,
                rhs: j as usize,
            }),
    ) + seq![(Instr::Ret { arg: sum_acc_index(n, n) as usize })]
}

/// The accumulator values after the first `i` additions of the sum
/// function: the `j`-th is the wrapping sum of the first `j + 1`
/// arguments.
spec fn sum_accs(args: Seq<i64>, i: int) -> Seq<i64> {
    Seq::new(i as nat, |j: int| wrap_sum(args.take(j + 1)))
}

/// The builder state of the sum function over `n` parameters after `i`
/// additions: parameters bound to variables, the accumulator variable
/// zero-initialised and redefined by each addition so far, and the run
/// values pinned for every argument sequence.
spec fn sum_state(b: FuncBuilder, n: int, i: int) -> bool {
    &&& b.wf()
    &&& b.begun
    &&& b.sealed
    &&& b.params@.len() == n
    &&& (forall|j: int| 0 <= j < n ==> b.params@[j] == IrType::I64)
    &&& b.rets@ == seq![IrType::I64]
    &&& b.vtypes@.len() == n + 1 + i
    &&& (forall|k: int| 0 <= k < b.vtypes@.len() ==> b.vtypes@[k] == IrType::I64)
    &&& b.instrs@.len() == 1 + i
    &&& b.instrs@[0] == (Instr::Const { ty: IrType::I64, imm: 0 })
    &&& (forall|j: int|
        0 <= j < i ==> ((#[trigger] b.instrs@[j + 1]) matches Instr::Add { ty, lhs, rhs } && ty
            == IrType::I64 && lhs as int == sum_acc_index(n, j) && rhs as int == j))
    &&& b.vars@.len() == n + 1
    &&& (forall|v: int|
        0 <= v < n ==> #[trigger] b.vars@[v] == Some(
            (VarSlot { ty: IrType::I64, def: Some(v as usize) }),
        ))
    &&& (b.vars@[n] matches Some(slot) && slot.ty == IrType::I64 && (slot.def matches Some(d)
        && d as int == sum_acc_index(n, i)))
    &&& (forall|args: Seq<i64>|
        args.len() == n ==> (#[trigger] run_values(args, b.instrs@)) =~= args.push(0i64)
            + sum_accs(args, i))
}

/// Appending the `i`-th addition extends the accumulator values by the
/// wrapping sum of one more argument.
proof fn lemma_sum_step(pre: Seq<Instr>, n: int, i: int, lhs: usize, rhs: usize)
    requires
        0 <= i < n,
        lhs as int == sum_acc_index(n, i),
        rhs as int == i,
        forall|args: Seq<i64>|
            args.len() == n ==> (#[trigger] run_values(args, pre)) =~= args.push(0i64)
                + sum_accs(args, i),
    ensures
        forall|args: Seq<i64>|
            args.len() == n ==> (#[trigger] run_values(
                args,
                pre.push((Instr::Add { ty: IrType::I64, lhs, rhs })),
            )) =~= args.push(0i64) + sum_accs(args, i + 1),
{
    let instr = Instr::Add { ty: IrType::I64, lhs, rhs };
    assert forall|args: Seq<i64>| args.len() == n implies (#[trigger] run_values(
        args,
        pre.push(instr),
    )) =~= args.push(0i64) + sum_accs(args, i + 1) by {
        let accs0 = sum_accs(args, i);
        let vals0 = args.push(0i64) + accs0;
        assert(run_values(args, pre) =~= vals0);
        lemma_run_values_push(args, pre, instr);
        let lv = vals0[lhs as int];
        if i == 0 {
            assert(lv == 0i64);
            assert(args.take(0) =~= Seq::<i64>::empty());
            assert(wrap_sum(args.take(0)) == 0);
        } else {
            assert(lv == accs0[i - 1]);
            assert(lv == wrap_sum(args.take(i)));
        }
        assert(vals0[rhs as int] == args[i]);
        assert(args.take(i + 1).drop_last() =~= args.take(i));
        assert(args.take(i + 1).last() == args[i]);
        assert(wrap_sum(args.take(i + 1)) == crate::ir::wrap64(wrap_sum(args.take(i)) + args[i]));
        assert(step_values(vals0, instr) =~= vals0.push(wrap_sum(args.take(i + 1))));
        assert(run_values(args, pre.push(instr)) =~= step_values(run_values(args, pre), instr));
        assert(step_values(run_values(args, pre), instr) =~= step_values(vals0, instr));
        assert(vals0.push(wrap_sum(args.take(i + 1))) =~= args.push(0i64) + sum_accs(args, i + 1));
    }
}

/// A graph whose instructions run to the pinned sum values and end by
/// returning the last accumulator evaluates to the wrapping sum.
proof fn lemma_sum_eval(g: FuncGraph, pre: Seq<Instr>, n: int, out: usize)
    requires
        n >= 0,
        g.instrs@ == pre.push((Instr::Ret { arg: out })),
        out as int == sum_acc_index(n, n),
        forall|args: Seq<i64>|
            args.len() == n ==> (#[trigger] run_values(args, pre)) =~= args.push(0i64)
                + sum_accs(args, n),
    ensures
        forall|args: Seq<i64>| args.len() == n ==> eval(g, args) == Some(wrap_sum(args)),
{
    assert forall|args: Seq<i64>| args.len() == n implies eval(g, args) == Some(wrap_sum(args)) by {
        assert(g.instrs@.last() == (Instr::Ret { arg: out }));
        assert(g.instrs@.drop_last() =~= pre);
        let accs = sum_accs(args, n);
        let vals = args.push(0i64) + accs;
        assert(run_values(args, pre) =~= vals);
        assert(eval(g, args) == if out < vals.len() {
            Some(vals[out as int])
        } else {
            None::<i64>
        });
        if n == 0 {
            assert(out as int == 0);
            assert(vals[0] == 0i64);
            assert(args =~= Seq::<i64>::empty());
            assert(wrap_sum(args) == 0);
        } else {
            assert(out as int == n + n);
            assert(vals[n + n] == accs[n - 1]);
            assert(args.take(n) =~= args);
            assert(vals[n + n] == wrap_sum(args));
        }
    }
}

/// Begin the sum function's build: an all-64-bit signature over
/// `nparams` parameters, the entry block sealed, every parameter bound
/// to a variable, and the accumulator variable zero-initialised.
fn sum_setup(nparams: usize) -> (b: FuncBuilder)
    ensures
        sum_state(b, nparams as int, 0),
{
    let ghost n = nparams as int;
    let mut sig_params: Vec<IrType> = Vec::new();
    let mut i: usize = 0;
    while i < nparams
        invariant
            i <= nparams,
            sig_params@.len() == i,
            forall|j: int| 0 <= j < i ==> sig_params@[j] == IrType::I64,
        decreases nparams - i,
    {
        sig_params.push(IrType::I64);
        i = i + 1;
    }
    let mut sig_rets: Vec<IrType> = Vec::new();
    sig_rets.push(IrType::I64);
    proof {
        assert(sig_rets@ =~= seq![IrType::I64]);
    }
    let mut b = FuncBuilder::new();
    let entry = match b.begin(Signature { params: sig_params, rets: sig_rets }) {
        Ok(blk) => blk,
        _ => unreached(),
    };
    b.seal_block(entry);

    // Bind each parameter to a variable: declare, then define.
    let mut i: usize = 0;
    while i < nparams
        invariant
            n == nparams,
            i <= nparams,
            b.wf(),
            b.begun,
            b.sealed,
            b.params@.len() == n,
            forall|j: int| 0 <= j < n ==> b.params@[j] == IrType::I64,
            b.rets@ == seq![IrType::I64],
            b.vtypes@.len() == n,
            forall|k: int| 0 <= k < b.vtypes@.len() ==> b.vtypes@[k] == IrType::I64,
            b.instrs@.len() == 0,
            b.vars@.len() == i,
            forall|v: int|
                0 <= v < i ==> #[trigger] b.vars@[v] == Some(
                    (VarSlot { ty: IrType::I64, def: Some(v as usize) }),
                ),
        decreases nparams - i,
    {
        match b.declare_variable(i, IrType::I64) {
            Ok(_) => (),
            _ => unreached(),
        };
        let pv = match b.param_value(i) {
            Some(v) => v,
            _ => unreached(),
        };
        match b.define_variable(i, pv) {
            Ok(_) => (),
            _ => unreached(),
        };
        i = i + 1;
    }

    // The accumulator: declared, then zero-initialised so that a
    // definition exists before its first use.
    match b.declare_variable(nparams, IrType::I64) {
        Ok(_) => (),
        _ => unreached(),
    };
    let zero = match b.emit(Op::Iconst { ty: IrType::I64, imm: 0 }) {
        Ok(Some(v)) => v,
        _ => unreached(),
    };
    match b.define_variable(nparams, zero) {
        Ok(_) => (),
        _ => unreached(),
    };
    proof {
        assert forall|args: Seq<i64>| args.len() == n implies (#[trigger] run_values(
            args,
            b.instrs@,
        )) =~= args.push(0i64) + sum_accs(args, 0) by {
            let c = Instr::Const { ty: IrType::I64, imm: 0 };
            assert(b.instrs@ =~= Seq::<Instr>::empty().push(c));
            lemma_run_values_push(args, Seq::<Instr>::empty(), c);
            assert(run_values(args, Seq::<Instr>::empty()) =~= args);
            assert(step_values(args, c) =~= args.push(0i64));
            assert(args.push(0i64) =~= args.push(0i64) + sum_accs(args, 0));
        }
        assert(sum_state(b, n, 0));
    }
    b
}

/// Emit one addition of the sum function: the accumulator is used,
/// added to the `i`-th parameter's variable, and redefined.
fn sum_step(b: &mut FuncBuilder, nparams: usize, i: usize)
    requires
        sum_state(*old(b), nparams as int, i as int),
        i < nparams,
    ensures
        sum_state(*final(b), nparams as int, i as int + 1),
{
    let ghost n = nparams as int;
    let ghost pre = b.instrs@;
    let acc = match b.use_variable(nparams) {
        Ok(v) => v,
        _ => unreached(),
    };
    let argv = match b.use_variable(i) {
        Ok(v) => v,
        _ => unreached(),
    };
    let nvals = b.vtypes.len();
    let sum = match b.emit(Op::Iadd { lhs: acc, rhs: argv }) {
        Ok(Some(v)) => v,
        _ => unreached(),
    };
    proof {
        assert(sum.id == nvals);
    }
    match b.define_variable(nparams, sum) {
        Ok(_) => (),
        _ => unreached(),
    };
    proof {
        lemma_sum_step(pre, n, i as int, acc.id, argv.id);
        assert(b.instrs@ == pre.push((Instr::Add { ty: IrType::I64, lhs: acc.id, rhs: argv.id })));
        assert forall|j: int|
            0 <= j < i + 1 implies ((#[trigger] b.instrs@[j + 1]) matches Instr::Add {
            ty,
            lhs,
            rhs,
        } && ty == IrType::I64 && lhs as int == sum_acc_index(n, j) && rhs as int == j) by {
            if j < i {
                assert(b.instrs@[j + 1] == pre[j + 1]);
            } else {
                assert(b.instrs@[j + 1] == (Instr::Add {
                    ty: IrType::I64,
                    lhs: acc.id,
                    rhs: argv.id,
                }));
            }
        }
        assert forall|k: int| 0 <= k < b.vtypes@.len() implies #[trigger] b.vtypes@[k]
            == IrType::I64 by {
            if k < n + 1 + i {
                assert(b.vtypes@[k] == old(b).vtypes@[k]);
            }
        }
        assert(b.instrs@[0] == pre[0]);
        assert forall|v: int|
            0 <= v < n implies #[trigger] b.vars@[v] == Some(
            (VarSlot { ty: IrType::I64, def: Some(v as usize) }),
        ) by {
            assert(b.vars@[v] == old(b).vars@[v]);
        }
        assert(b.vars@[n] == Some((VarSlot { ty: IrType::I64, def: Some(sum.id) })));
        assert(sum.id as int == sum_acc_index(n, i as int + 1));
        assert(sum_state(*b, n, i as int + 1));
    }
}

/// End the sum function's build: the accumulator's final value is
/// returned, and the completed graph handed back.
#[verifier::rlimit(100)]
fn sum_finish(b: FuncBuilder, nparams: usize) -> (g: FuncGraph)
    requires
        sum_state(b, nparams as int, nparams as int),
    ensures
        g.finished(),
        g.params@.len() == nparams,
        g.params@ =~= Seq::new(nparams as nat, |j: int| IrType::I64),
        g.instrs@ =~= sum_graph_instrs(nparams as int),
        g.rets@ == seq![IrType::I64],
        forall|args: Seq<i64>| args.len() == nparams ==> eval(g, args) == Some(wrap_sum(args)),
{
    let ghost n = nparams as int;
    let mut b = b;
    let out = match b.use_variable(nparams) {
        Ok(v) => v,
        _ => unreached(),
    };
    let ghost pre = b.instrs@;
    match b.emit(Op::Ret { arg: out }) {
        Ok(None) => (),
        _ => unreached(),
    };
    let ghost bsnap = b;
    proof {
        assert forall|j: int| 0 <= j < bsnap.instrs@.len() - 1 implies !((#[trigger] bsnap.instrs@[j])
            is Ret) by {
            if j > 0 {
                assert(bsnap.instrs@[j] == pre[j]);
                let k = j - 1;
                assert(pre[k + 1] matches Instr::Add { ty, lhs, rhs } && ty == IrType::I64
                    && lhs as int == sum_acc_index(n, k) && rhs as int == k);
            } else {
                assert(bsnap.instrs@[0] == pre[0]);
            }
        }
    }
    let g = match b.finish() {
        Ok(g) => g,
        _ => unreached(),
    };
    proof {
        lemma_sum_eval(g, pre, n, out.id);
        assert(g.params@ =~= Seq::new(nparams as nat, |j: int| IrType::I64));
        let model = sum_graph_instrs(n);
        assert(model.len() == n + 2);
        assert(g.instrs@.len() == n + 2);
        assert forall|k: int| 0 <= k < g.instrs@.len() implies g.instrs@[k] == model[k] by {
            if k == 0 {
                assert(g.instrs@[0] == pre[0]);
                assert(model[0] == (Instr::Const { ty: IrType::I64, imm: 0 }));
            } else if k < n + 1 {
                let j = k - 1;
                assert(g.instrs@[k] == pre[j + 1]);
                assert(pre[j + 1] matches Instr::Add { ty, lhs, rhs } && ty == IrType::I64
                    && lhs as int == sum_acc_index(n, j) && rhs as int == j);
                assert(model[k] == (Instr::Add {
                    ty: IrType::I64,
                    lhs: sum_acc_index(n, j) as usize,
                    rhs: j as usize,
                }));
            } else {
                assert(k == n + 1);
                assert(g.instrs@[k] == (Instr::Ret { arg: out.id }));
                assert(out.id as int == sum_acc_index(n, n));
                assert(model[k] == (Instr::Ret { arg: sum_acc_index(n, n) as usize }));
            }
        }
        assert(g.instrs@ =~= model);
    }
    g
}

/// Build the function that returns the sum of its `nparams` 64-bit
/// integer parameters: every parameter is bound to a declared variable,
/// an accumulator variable is zero-initialised — a definition exists
/// before any use — and then redefined once per parameter, and the
/// accumulator's final value is returned.
///
/// The graph is in finished form and its meaning is pinned exactly: run
/// on any `nparams` arguments it returns their wrapping sum, which is
/// the arithmetic sum whenever that sum fits 64 bits.
pub fn build_sum_function(nparams: usize) -> (g: FuncGraph)
    ensures
        g.finished(),
        g.params@.len() == nparams,
        g.params@ =~= Seq::new(nparams as nat, |j: int| IrType::I64),
        g.instrs@ =~= sum_graph_instrs(nparams as int),
        g.rets@ == seq![IrType::I64],
        forall|args: Seq<i64>| args.len() == nparams ==> eval(g, args) == Some(wrap_sum(args)),
{
    let mut b = sum_setup(nparams);
    let mut i: usize = 0;
    while i < nparams
        invariant
            i <= nparams,
            sum_state(b, nparams as int, i as int),
        decreases nparams - i,
    {
        sum_step(&mut b, nparams, i);
        i = i + 1;
    }
    sum_finish(b, nparams)
}

} // verus!
