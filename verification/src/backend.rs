//! The native code generator behind the library: type declarations and
//! thin trusted wrappers around the outside codegen crates, and the
//! verified lowering of a function graph into the codegen context.
//!
//! Instruction selection, register allocation, encoding and linking are
//! the outside crates' work and are trusted. The module's registry is
//! modelled by four named spec functions over the opaque module value —
//! which names are declared, which ids hold a definition, which ids'
//! code is finalized, and the stored address — and each wrapper states
//! over them exactly what the crates' own sources show.

use vstd::prelude::*;

use cranelift::codegen::ir::InstBuilder;

use crate::errors::CompileError;
use crate::ir::{instr_wf, lemma_value_types_push, value_types, FuncGraph, Instr, IrType};

verus! {

#[verifier::external_type_specification]
#[verifier::external_body]
pub struct ExFunctionBuilderContext(cranelift::frontend::FunctionBuilderContext);

#[verifier::external_type_specification]
#[verifier::external_body]
pub struct ExFunctionBuilder<'a>(cranelift::frontend::FunctionBuilder<'a>);

#[verifier::external_type_specification]
#[verifier::external_body]
pub struct ExContext(cranelift::codegen::Context);

#[verifier::external_type_specification]
#[verifier::external_body]
pub struct ExBlock(cranelift::codegen::ir::Block);

#[verifier::external_type_specification]
#[verifier::external_body]
pub struct ExValue(cranelift::codegen::ir::Value);

#[verifier::external_type_specification]
#[verifier::external_body]
pub struct ExFuncId(cranelift_module::FuncId);

#[verifier::external_type_specification]
#[verifier::external_body]
pub struct ExModuleError(cranelift_module::ModuleError);

/// The in-process code module of the outside backend: the registry of
/// declared and compiled functions, and the owner of all executable
/// memory it allocates, which it never frees while it lives. The
/// verifier cannot hold the module's own generic type, so it stands
/// behind this opaque holder; the four spec functions below name what
/// it holds.
#[verifier::external_body]
pub struct NativeModule {
    inner: cranelift_module::Module<cranelift_simplejit::SimpleJITBackend>,
}

/// The names declared in the module's registry, as functions or data.
pub uninterp spec fn module_names(m: NativeModule) -> Set<Seq<char>>;

/// Whether the function id holds a stored definition in the module.
pub uninterp spec fn module_defined(m: NativeModule, id: cranelift_module::FuncId) -> bool;

/// Whether the function id's stored definition has been finalized, so
/// that its machine-code address may be read.
pub uninterp spec fn module_ready(m: NativeModule, id: cranelift_module::FuncId) -> bool;

/// The machine-code address the module stores for a finalized function
/// id: a pure function of the module value, which is what makes the
/// address stable across repeated queries of an unchanged module.
pub uninterp spec fn module_addr(m: NativeModule, id: cranelift_module::FuncId) -> usize;

/// Relies on cranelift_simplejit::SimpleJITBuilder::new,
/// cranelift_module::default_libcall_names and
/// cranelift_module::Module::new: a fresh in-process module whose
/// registry is empty. Construction aborts on a host whose calling
/// convention the backend does not support, so an engine is never built
/// that would emit broken code.
#[verifier::external_body]
pub(crate) fn new_module() -> (m: NativeModule)
    ensures
        module_names(m) =~= Set::<Seq<char>>::empty(),
        forall|id: cranelift_module::FuncId| !module_defined(m, id) && !module_ready(m, id),
{
    let builder = cranelift_simplejit::SimpleJITBuilder::new(
        cranelift_module::default_libcall_names(),
    );
    NativeModule { inner: cranelift_module::Module::new(builder) }
}

/// Relies on cranelift::frontend::FunctionBuilderContext::new: fresh
/// reusable state for function builders. A builder context is reusable
/// again each time a builder over it is finalized, which the one
/// lowering routine below always does.
#[verifier::external_body]
pub(crate) fn new_builder_context() -> cranelift::frontend::FunctionBuilderContext {
    cranelift::frontend::FunctionBuilderContext::new()
}

/// Relies on cranelift_module::Module::make_context: a fresh codegen
/// context initialised for the module's target.
#[verifier::external_body]
pub(crate) fn make_context(m: &NativeModule) -> cranelift::codegen::Context {
    m.inner.make_context()
}

/// Relies on cranelift_module::Module::clear_context: resets the
/// context for the next function without reallocating its buffers; the
/// module itself is only read for its calling convention.
#[verifier::external_body]
pub(crate) fn clear_context(m: &NativeModule, ctx: &mut cranelift::codegen::Context) {
    m.inner.clear_context(ctx);
}

/// Relies on cranelift's AbiParam::new and Signature: appends one
/// parameter of the given type to the context's function signature.
#[verifier::external_body]
pub(crate) fn push_param(ctx: &mut cranelift::codegen::Context, ty: IrType) {
    let t = match ty {
        IrType::I32 => cranelift::codegen::ir::types::I32,
        IrType::I64 => cranelift::codegen::ir::types::I64,
    };
    ctx.func.signature.params.push(cranelift::codegen::ir::AbiParam::new(t));
}

/// Relies on cranelift's AbiParam::new and Signature: appends one
/// return of the given type to the context's function signature.
#[verifier::external_body]
pub(crate) fn push_ret(ctx: &mut cranelift::codegen::Context, ty: IrType) {
    let t = match ty {
        IrType::I32 => cranelift::codegen::ir::types::I32,
        IrType::I64 => cranelift::codegen::ir::types::I64,
    };
    ctx.func.signature.returns.push(cranelift::codegen::ir::AbiParam::new(t));
}

/// A function builder over the codegen context, together with a ghost
/// record of whether a block has been switched to: the instruction
/// wrappers demand it, since the outside builder aborts when an
/// instruction is emitted with no current block.
struct Emitter<'a> {
    fb: cranelift::frontend::FunctionBuilder<'a>,
    switched: Ghost<bool>,
}

/// Relies on cranelift::frontend::FunctionBuilder::new: a builder over
/// the context's function and the reusable builder state; no block is
/// current yet.
#[verifier::external_body]
fn fb_new<'a>(
    ctx: &'a mut cranelift::codegen::Context,
    fbc: &'a mut cranelift::frontend::FunctionBuilderContext,
) -> (e: Emitter<'a>)
    ensures
        !e.switched@,
{
    Emitter { fb: cranelift::frontend::FunctionBuilder::new(&mut ctx.func, fbc), switched: Ghost(false) }
}

/// Relies on FunctionBuilder::create_block: a fresh empty block.
#[verifier::external_body]
fn fb_create_block<'a>(e: &mut Emitter<'a>) -> (b: cranelift::codegen::ir::Block)
    ensures
        final(e).switched@ == old(e).switched@,
{
    e.fb.create_block()
}

/// Relies on FunctionBuilder::append_block_param: appends one parameter
/// of the given type to the block — the block must hold no instruction
/// yet, which holds of every call below — and returns its value.
#[verifier::external_body]
fn fb_append_block_param<'a>(
    e: &mut Emitter<'a>,
    block: cranelift::codegen::ir::Block,
    ty: IrType,
) -> (v: cranelift::codegen::ir::Value)
    ensures
        final(e).switched@ == old(e).switched@,
{
    let t = match ty {
        IrType::I32 => cranelift::codegen::ir::types::I32,
        IrType::I64 => cranelift::codegen::ir::types::I64,
    };
    e.fb.append_block_param(block, t)
}

/// Relies on FunctionBuilder::switch_to_block: emission goes to this
/// block from here on.
#[verifier::external_body]
fn fb_switch_to_block<'a>(e: &mut Emitter<'a>, block: cranelift::codegen::ir::Block)
    ensures
        final(e).switched@,
{
    e.fb.switch_to_block(block);
}

/// Relies on FunctionBuilder::seal_block: marks the block's predecessor
/// set final.
#[verifier::external_body]
fn fb_seal_block<'a>(e: &mut Emitter<'a>, block: cranelift::codegen::ir::Block)
    ensures
        final(e).switched@ == old(e).switched@,
{
    e.fb.seal_block(block);
}

/// Relies on cranelift's iconst instruction builder: emits a constant
/// of the given type into the current block and returns its value.
#[verifier::external_body]
fn fb_iconst<'a>(e: &mut Emitter<'a>, ty: IrType, imm: i64) -> (v: cranelift::codegen::ir::Value)
    requires
        old(e).switched@,
    ensures
        final(e).switched@,
{
    let t = match ty {
        IrType::I32 => cranelift::codegen::ir::types::I32,
        IrType::I64 => cranelift::codegen::ir::types::I64,
    };
    e.fb.ins().iconst(t, imm)
}

/// Relies on cranelift's iadd instruction builder: emits a wrapping
/// integer addition into the current block and returns its value.
#[verifier::external_body]
fn fb_iadd<'a>(
    e: &mut Emitter<'a>,
    a: cranelift::codegen::ir::Value,
    b: cranelift::codegen::ir::Value,
) -> (v: cranelift::codegen::ir::Value)
    requires
        old(e).switched@,
    ensures
        final(e).switched@,
{
    e.fb.ins().iadd(a, b)
}

/// Relies on cranelift's return_ instruction builder: emits the current
/// block's terminator, returning one value to the caller.
#[verifier::external_body]
fn fb_return<'a>(e: &mut Emitter<'a>, v: cranelift::codegen::ir::Value)
    requires
        old(e).switched@,
    ensures
        final(e).switched@,
{
    e.fb.ins().return_(&[v]);
}

/// Relies on FunctionBuilder::finalize: declares the function build
/// done, runs the frontend's own validation — every block filled and
/// sealed, which holds of the one lowering routine's single block — and
/// leaves the builder context reusable.
#[verifier::external_body]
fn fb_finalize<'a>(e: &mut Emitter<'a>) {
    e.fb.finalize();
}

/// Relies on cranelift_module::Module::declare_function, Export or
/// Local linkage, the context's signature: a never-seen name always
/// gets a fresh id with no definition; on success the name is in the
/// registry; a failure — the name is already declared as data or under
/// another signature — changes no name and no definition, and is the
/// module-level duplicate-name error. Definitions, finalized code and
/// stored addresses are untouched either way.
#[verifier::external_body]
pub(crate) fn declare_fn(
    m: &mut NativeModule,
    name: &str,
    export: bool,
    ctx: &cranelift::codegen::Context,
) -> (r: Result<cranelift_module::FuncId, CompileError>)
    ensures
        !module_names(*old(m)).contains(name@) ==> r is Ok,
        r matches Ok(id) ==> {
            &&& module_names(*final(m)) =~= module_names(*old(m)).insert(name@)
            &&& (!module_names(*old(m)).contains(name@) ==> !module_defined(*final(m), id))
        },
        r is Err ==> {
            &&& r == Err::<cranelift_module::FuncId, CompileError>(
                CompileError::DuplicateNameError,
            )
            &&& module_names(*old(m)).contains(name@)
            &&& module_names(*final(m)) =~= module_names(*old(m))
        },
        forall|id: cranelift_module::FuncId|
            (#[trigger] module_defined(*final(m), id)) == module_defined(*old(m), id),
        forall|id: cranelift_module::FuncId|
            (#[trigger] module_ready(*final(m), id)) == module_ready(*old(m), id),
        forall|id: cranelift_module::FuncId|
            module_ready(*old(m), id) ==> (#[trigger] module_addr(*final(m), id)) == module_addr(
                *old(m),
                id,
            ),
{
    let linkage = if export {
        cranelift_module::Linkage::Export
    } else {
        cranelift_module::Linkage::Local
    };
    match m.inner.declare_function(name, linkage, &ctx.func.signature) {
        Ok(id) => Ok(id),
        Err(_) => Err(CompileError::DuplicateNameError),
    }
}

/// Relies on cranelift_module::Module::define_function: runs
/// instruction selection, register allocation and encoding for the
/// context's function and stores the code under the id. A duplicate
/// definition of the id is the duplicate-name error; a backend
/// rejection is the codegen error; either leaves every definition,
/// finalized id and stored address as it was, and the registry's names
/// are never touched. On success the id holds a definition, not yet
/// finalized, and every other id is as it was.
#[verifier::external_body]
pub(crate) fn define_fn(
    m: &mut NativeModule,
    id: cranelift_module::FuncId,
    ctx: &mut cranelift::codegen::Context,
) -> (r: Result<(), CompileError>)
    ensures
        module_names(*final(m)) =~= module_names(*old(m)),
        r is Err ==> {
            &&& (r == Err::<(), CompileError>(CompileError::DuplicateNameError) || r == Err::<
                (),
                CompileError,
            >(CompileError::CodegenError))
            &&& (r == Err::<(), CompileError>(CompileError::DuplicateNameError)
                ==> module_defined(*old(m), id))
            &&& forall|x: cranelift_module::FuncId|
                (#[trigger] module_defined(*final(m), x)) == module_defined(*old(m), x)
            &&& forall|x: cranelift_module::FuncId|
                (#[trigger] module_ready(*final(m), x)) == module_ready(*old(m), x)
            &&& forall|x: cranelift_module::FuncId|
                module_ready(*old(m), x) ==> (#[trigger] module_addr(*final(m), x))
                    == module_addr(*old(m), x)
        },
        r is Ok ==> {
            &&& module_defined(*final(m), id)
            &&& forall|x: cranelift_module::FuncId|
                x != id ==> (#[trigger] module_defined(*final(m), x)) == module_defined(*old(m), x)
            &&& forall|x: cranelift_module::FuncId|
                x != id ==> (#[trigger] module_ready(*final(m), x)) == module_ready(*old(m), x)
            &&& forall|x: cranelift_module::FuncId|
                (x != id && module_ready(*old(m), x)) ==> (#[trigger] module_addr(*final(m), x))
                    == module_addr(*old(m), x)
        },
{
    let mut sink = cranelift::codegen::binemit::NullTrapSink {};
    match m.inner.define_function(id, ctx, &mut sink) {
        Ok(_) => Ok(()),
        Err(cranelift_module::ModuleError::DuplicateDefinition(_)) => {
            Err(CompileError::DuplicateNameError)
        },
        Err(_) => Err(CompileError::CodegenError),
    }
}

/// Relies on cranelift_module::Module::finalize_definitions: makes the
/// machine code of every defined function executable and resolves
/// cross-references. Afterwards every defined id is finalized; names
/// and definitions are unchanged, and the address of an id that was
/// already finalized does not move.
#[verifier::external_body]
pub(crate) fn finalize_defs(m: &mut NativeModule)
    ensures
        module_names(*final(m)) =~= module_names(*old(m)),
        forall|id: cranelift_module::FuncId|
            (#[trigger] module_defined(*final(m), id)) == module_defined(*old(m), id),
        forall|id: cranelift_module::FuncId|
            module_defined(*old(m), id) ==> (#[trigger] module_ready(*final(m), id)),
        forall|id: cranelift_module::FuncId|
            module_ready(*old(m), id) ==> (#[trigger] module_addr(*final(m), id)) == module_addr(
                *old(m),
                id,
            ),
{
    m.inner.finalize_definitions();
}

/// Relies on cranelift_module::Module::get_finalized_function: reads
/// the stored address of a finalized function's machine code, as an
/// integer, changing nothing — which is why repeated reads of one id
/// agree. An id that is not finalized in this module may not be asked
/// for.
#[verifier::external_body]
pub(crate) fn finalized_addr(m: &mut NativeModule, id: cranelift_module::FuncId) -> (r: usize)
    requires
        module_ready(*old(m), id),
    ensures
        r == module_addr(*old(m), id),
        *final(m) == *old(m),
{
    let code = m.inner.get_finalized_function(id);
    code as usize
}

/// Lower a finished function graph into the codegen context: the
/// signature is copied over, the entry block is created with one
/// parameter per function parameter, switched to and sealed, each
/// instruction is emitted in order against the table of already-created
/// values, and the build is finalized. The graph's typing invariant
/// makes every operand lookup hit an existing value, so lowering a
/// finished graph cannot fail.
pub(crate) fn lower_into_context(
    ctx: &mut cranelift::codegen::Context,
    fbc: &mut cranelift::frontend::FunctionBuilderContext,
    g: &FuncGraph,
)
    requires
        g.finished(),
{
    let mut i: usize = 0;
    while i < g.params.len()
        decreases g.params@.len() - i,
    {
        push_param(ctx, g.params[i]);
        i = i + 1;
    }
    let mut i: usize = 0;
    while i < g.rets.len()
        decreases g.rets@.len() - i,
    {
        push_ret(ctx, g.rets[i]);
        i = i + 1;
    }
    let mut em = fb_new(ctx, fbc);
    let block = fb_create_block(&mut em);
    let mut vals: Vec<cranelift::codegen::ir::Value> = Vec::new();
    let mut i: usize = 0;
    while i < g.params.len()
        invariant
            i <= g.params@.len(),
            vals@.len() == i,
        decreases g.params@.len() - i,
    {
        let v = fb_append_block_param(&mut em, block, g.params[i]);
        vals.push(v);
        i = i + 1;
    }
    fb_switch_to_block(&mut em, block);
    fb_seal_block(&mut em, block);
    proof {
        assert(value_types(g.params@, g.instrs@.take(0)) =~= g.params@);
    }
    let mut i: usize = 0;
    while i < g.instrs.len()
        invariant
            i <= g.instrs@.len(),
            g.typing_wf(),
            em.switched@,
            vals@.len() == value_types(g.params@, g.instrs@.take(i as int)).len(),
        decreases g.instrs@.len() - i,
    {
        let ghost tys = value_types(g.params@, g.instrs@.take(i as int));
        proof {
            assert(instr_wf(g.instrs@[i as int], tys, g.rets@));
            assert(g.instrs@.take(i as int).push(g.instrs@[i as int]) =~= g.instrs@.take(
                i as int + 1,
            ));
            lemma_value_types_push(g.params@, g.instrs@.take(i as int), g.instrs@[i as int]);
        }
        match g.instrs[i] {
            Instr::Const { ty, imm } => {
                let v = fb_iconst(&mut em, ty, imm);
                vals.push(v);
            },
            Instr::Add { ty: _, lhs, rhs } => {
                let a = vals[lhs];
                let b = vals[rhs];
                let v = fb_iadd(&mut em, a, b);
                vals.push(v);
            },
            Instr::Ret { arg } => {
                let v = vals[arg];
                fb_return(&mut em, v);
            },
        }
        i = i + 1;
    }
    fb_finalize(&mut em);
}

} // verus!
