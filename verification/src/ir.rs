//! The intermediate representation: value types, instructions, finished
//! function graphs, and their meaning.
//!
//! A function graph is a single basic block of instructions in emission
//! order, together with the parameter and return types of the function.
//! Values are numbered densely: the parameters come first, then the
//! result of each value-producing instruction in order. `eval` gives the
//! graph its meaning: the value the function returns when run on given
//! arguments, with two's-complement wrapping arithmetic, as the native
//! code produced from the graph computes it.

use vstd::prelude::*;

verus! {

/// The integer types a value in the intermediate representation can have.
#[derive(Clone, Copy, PartialEq, Eq, Structural, Debug)]
pub enum IrType {
    /// A 32-bit signed integer.
    I32,
    /// A 64-bit signed integer.
    I64,
}

/// A handle to a value created inside one function build: a parameter of
/// the function or the result of a value-producing instruction.
#[derive(Clone, Copy, PartialEq, Eq, Structural, Debug)]
pub struct ValueId {
    /// The dense index of the value: parameters first, results after.
    pub id: usize,
}

/// One instruction of the closed instruction set, with its operands given
/// as dense value indices.
#[derive(Clone, Copy, PartialEq, Eq, Structural, Debug)]
pub enum Instr {
    /// Load a constant of type `ty`; produces a new value.
    Const { ty: IrType, imm: i64 },
    /// Integer addition of two values of type `ty`, wrapping on
    /// overflow; produces a new value of the same type.
    Add { ty: IrType, lhs: usize, rhs: usize },
    /// Return one value to the caller; the block's terminator.
    Ret { arg: usize },
}

/// A finished function graph: what the builder hands to the backend.
pub struct FuncGraph {
    /// The parameter types, in order.
    pub params: Vec<IrType>,
    /// The return types, in order.
    pub rets: Vec<IrType>,
    /// The instructions of the single basic block, in emission order.
    pub instrs: Vec<Instr>,
}

/// The smallest value of a 32-bit signed integer.
pub const I32_MIN_VAL: i64 = -0x8000_0000;

/// The largest value of a 32-bit signed integer.
pub const I32_MAX_VAL: i64 = 0x7FFF_FFFF;

/// Whether `x` fits the range of `ty`.
pub open spec fn fits(ty: IrType, x: int) -> bool {
    match ty {
        IrType::I32 => I32_MIN_VAL <= x <= I32_MAX_VAL,
        IrType::I64 => i64::MIN <= x <= i64::MAX,
    }
}

/// The types the value sequence would grow by after emitting `i`.
pub open spec fn step_types(tys: Seq<IrType>, i: Instr) -> Seq<IrType> {
    match i {
        Instr::Const { ty, imm: _ } => tys.push(ty),
        Instr::Add { ty, lhs: _, rhs: _ } => tys.push(ty),
        Instr::Ret { arg: _ } => tys,
    }
}

/// The types of all values in existence once every instruction of
/// `instrs` has been emitted after parameters of types `params`.
pub open spec fn value_types(params: Seq<IrType>, instrs: Seq<Instr>) -> Seq<IrType>
    decreases instrs.len(),
{
    if instrs.len() == 0 {
        params
    } else {
        step_types(value_types(params, instrs.drop_last()), instrs.last())
    }
}

/// Whether instruction `i` is well formed when the values so far have
/// types `tys` and the function returns values of types `rets`:
/// operands exist, operand types agree, immediates fit their type, and a
/// return hands back exactly what the signature promises.
pub open spec fn instr_wf(i: Instr, tys: Seq<IrType>, rets: Seq<IrType>) -> bool {
    match i {
        Instr::Const { ty, imm } => fits(ty, imm as int),
        Instr::Add { ty, lhs, rhs } => {
            &&& lhs < tys.len()
            &&& rhs < tys.len()
            &&& tys[lhs as int] == ty
            &&& tys[rhs as int] == ty
        },
        Instr::Ret { arg } => {
            &&& arg < tys.len()
            &&& rets.len() == 1
            &&& tys[arg as int] == rets[0]
        },
    }
}

impl FuncGraph {
    /// Every instruction is well typed against the values produced
    /// before it.
    pub open spec fn typing_wf(self) -> bool {
        forall|i: int|
            0 <= i < self.instrs@.len() ==> instr_wf(
                self.instrs@[i],
                value_types(self.params@, self.instrs@.take(i)),
                self.rets@,
            )
    }

    /// A graph in finished form: well typed, and ended by exactly one
    /// terminator, which stands last.
    pub open spec fn finished(self) -> bool {
        &&& self.typing_wf()
        &&& self.instrs@.len() > 0
        &&& self.instrs@.last() is Ret
        &&& forall|i: int| 0 <= i < self.instrs@.len() - 1 ==> !(self.instrs@[i] is Ret)
    }
}

/// `x` brought back into the range of `i64` by one two's-complement
/// wrap, as native 64-bit addition does on overflow. Exact whenever `x`
/// is the sum of two 64-bit values.
pub open spec fn wrap64(x: int) -> i64 {
    if x > i64::MAX {
        (x - 0x1_0000_0000_0000_0000) as i64
    } else if x < i64::MIN {
        (x + 0x1_0000_0000_0000_0000) as i64
    } else {
        x as i64
    }
}

/// `x` brought back into 32-bit range by one two's-complement wrap,
/// held in an `i64`. Exact whenever `x` is the sum of two 32-bit values.
pub open spec fn wrap32(x: int) -> i64 {
    if x > I32_MAX_VAL {
        (x - 0x1_0000_0000) as i64
    } else if x < I32_MIN_VAL {
        (x + 0x1_0000_0000) as i64
    } else {
        x as i64
    }
}

/// Wrapping addition at the width of `ty`, on values held in `i64`.
pub open spec fn wrap_add(ty: IrType, a: i64, b: i64) -> i64 {
    match ty {
        IrType::I32 => wrap32(a + b),
        IrType::I64 => wrap64(a + b),
    }
}

/// The values in existence after one more instruction runs, given the
/// values `vals` so far.
pub open spec fn step_values(vals: Seq<i64>, i: Instr) -> Seq<i64> {
    match i {
        Instr::Const { ty: _, imm } => vals.push(imm),
        Instr::Add { ty, lhs, rhs } => if lhs < vals.len() && rhs < vals.len() {
            vals.push(wrap_add(ty, vals[lhs as int], vals[rhs as int]))
        } else {
            vals.push(0)
        },
        Instr::Ret { arg: _ } => vals,
    }
}

/// The values in existence after every instruction of `instrs` has run
/// on arguments `args`: the arguments first, then each produced value in
/// order.
pub open spec fn run_values(args: Seq<i64>, instrs: Seq<Instr>) -> Seq<i64>
    decreases instrs.len(),
{
    if instrs.len() == 0 {
        args
    } else {
        step_values(run_values(args, instrs.drop_last()), instrs.last())
    }
}

/// The meaning of a graph in finished form: the value the function
/// returns when run on `args`. `None` when the graph does not end in a
/// return of an existing value.
pub open spec fn eval(g: FuncGraph, args: Seq<i64>) -> Option<i64> {
    if g.instrs@.len() > 0 {
        match g.instrs@.last() {
            Instr::Ret { arg } => {
                let vals = run_values(args, g.instrs@.drop_last());
                if arg < vals.len() {
                    Some(vals[arg as int])
                } else {
                    None
                }
            },
            _ => None,
        }
    } else {
        None
    }
}

/// The wrapping sum of a sequence of 64-bit values, folded left to
/// right from zero: what a chain of 64-bit additions accumulates.
pub open spec fn wrap_sum(args: Seq<i64>) -> i64
    decreases args.len(),
{
    if args.len() == 0 {
        0
    } else {
        wrap64(wrap_sum(args.drop_last()) + args.last())
    }
}

/// Appending an instruction grows the value types by one step.
pub proof fn lemma_value_types_push(params: Seq<IrType>, instrs: Seq<Instr>, i: Instr)
    ensures
        value_types(params, instrs.push(i)) == step_types(value_types(params, instrs), i),
{
    assert(instrs.push(i).drop_last() =~= instrs);
    assert(instrs.push(i).last() == i);
}

/// Appending an instruction grows the run values by one step.
pub proof fn lemma_run_values_push(args: Seq<i64>, instrs: Seq<Instr>, i: Instr)
    ensures
        run_values(args, instrs.push(i)) == step_values(run_values(args, instrs), i),
{
    assert(instrs.push(i).drop_last() =~= instrs);
    assert(instrs.push(i).last() == i);
}

/// Wrapping changes nothing on a sum that stays in 64-bit range: a
/// function summing machine integers returns the arithmetic sum whenever
/// that sum fits.
pub proof fn lemma_wrap64_in_range(x: int)
    requires
        i64::MIN <= x <= i64::MAX,
    ensures
        wrap64(x) == x,
{
}

/// The wrapping sum of two values is their arithmetic sum whenever that
/// sum fits 64 bits.
pub proof fn lemma_wrap_sum_pair(a: i64, b: i64)
    requires
        i64::MIN <= a + b <= i64::MAX,
    ensures
        wrap_sum(seq![a, b]) == a + b,
{
    let s = seq![a, b];
    assert(s.drop_last() =~= seq![a]);
    assert(seq![a].drop_last() =~= Seq::<i64>::empty());
    assert(wrap_sum(Seq::<i64>::empty()) == 0);
    assert(seq![a].last() == a);
    assert(wrap_sum(seq![a]) == wrap64(0 + a));
    assert(wrap64(0 + a) == a);
    assert(wrap_sum(s) == wrap64(a + b));
}

/// Run a finished graph on concrete arguments: the executable
/// reference interpreter for the intermediate representation, proved to
/// return exactly what `eval` gives the graph as its meaning.
///
/// Each argument must fit its parameter's type, so that the values the
/// interpreter holds stay in the range native code would hold them in.
pub fn eval_graph(g: &FuncGraph, args: &Vec<i64>) -> (r: Option<i64>)
    requires
        g.finished(),
        args@.len() == g.params@.len(),
        forall|j: int| 0 <= j < args@.len() ==> fits(g.params@[j], #[trigger] args@[j] as int),
    ensures
        r == eval(*g, args@),
{
    let n = g.instrs.len();
    let mut vals: Vec<i64> = Vec::new();
    let mut i: usize = 0;
    while i < args.len()
        invariant
            i <= args@.len(),
            vals@ =~= args@.take(i as int),
        decreases args@.len() - i,
    {
        vals.push(args[i]);
        i = i + 1;
    }
    proof {
        assert(args@.take(args@.len() as int) =~= args@);
        assert(run_values(args@, g.instrs@.take(0)) =~= args@);
        assert(value_types(g.params@, g.instrs@.take(0)) =~= g.params@);
    }
    let mut i: usize = 0;
    while i < n - 1
        invariant
            n == g.instrs@.len(),
            n >= 1,
            i <= n - 1,
            g.finished(),
            args@.len() == g.params@.len(),
            forall|j: int| 0 <= j < args@.len() ==> fits(g.params@[j], #[trigger] args@[j] as int),
            vals@ == run_values(args@, g.instrs@.take(i as int)),
            vals@.len() == value_types(g.params@, g.instrs@.take(i as int)).len(),
            forall|k: int|
                0 <= k < vals@.len() ==> fits(
                    value_types(g.params@, g.instrs@.take(i as int))[k],
                    #[trigger] vals@[k] as int,
                ),
        decreases n - i,
    {
        let ghost tys = value_types(g.params@, g.instrs@.take(i as int));
        proof {
            assert(instr_wf(g.instrs@[i as int], tys, g.rets@));
            assert(g.instrs@.take(i as int).push(g.instrs@[i as int]) =~= g.instrs@.take(
                i as int + 1,
            ));
            lemma_value_types_push(g.params@, g.instrs@.take(i as int), g.instrs@[i as int]);
            lemma_run_values_push(args@, g.instrs@.take(i as int), g.instrs@[i as int]);
        }
        match g.instrs[i] {
            Instr::Const { ty: _, imm } => {
                vals.push(imm);
            },
            Instr::Add { ty, lhs, rhs } => {
                let a = vals[lhs];
                let b = vals[rhs];
                let v: i64 = match ty {
                    IrType::I64 => a.wrapping_add(b),
                    IrType::I32 => {
                        let s = a + b;
                        if s > I32_MAX_VAL {
                            s - 0x1_0000_0000
                        } else if s < I32_MIN_VAL {
                            s + 0x1_0000_0000
                        } else {
                            s
                        }
                    },
                };
                proof {
                    assert(v == wrap_add(ty, vals@[lhs as int], vals@[rhs as int]));
                    assert(fits(ty, v as int));
                }
                vals.push(v);
            },
            Instr::Ret { arg: _ } => {
                proof {
                    assert(!(g.instrs@[i as int] is Ret));
                }
                return vstd::pervasive::unreached();
            },
        }
        i = i + 1;
    }
    proof {
        assert(g.instrs@[n - 1] == g.instrs@.last());
    }
    match g.instrs[n - 1] {
        Instr::Ret { arg } => {
            proof {
                assert(instr_wf(g.instrs@[n - 1], value_types(g.params@, g.instrs@.take(n - 1)), g.rets@));
                assert(g.instrs@.drop_last() =~= g.instrs@.take(n - 1));
            }
            Some(vals[arg])
        },
        _ => vstd::pervasive::unreached(),
    }
}

} // verus!
