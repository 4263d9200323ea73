//! The engine: one reusable builder context, one codegen context and one
//! code module, behind a single compile-and-link entry point.
//!
//! Each compilation builds the function graph afresh, lowers it into the
//! reused codegen context, declares and defines it in the module,
//! finalizes the machine code, and hands back a handle and the
//! executable address. The context is cleared after every compilation,
//! failed or not, so no state leaks into the next build; the module and
//! its executable memory live as long as the engine.

use vstd::prelude::*;
use vstd::pervasive::unreached;

use crate::backend::{
    clear_context, declare_fn, define_fn, finalize_defs, finalized_addr, lower_into_context,
    make_context, module_addr, module_defined, module_names, module_ready, new_builder_context,
    new_module, NativeModule,
};
use crate::builder::build_sum_function;
use crate::errors::{CompileError, CompileFailure};

verus! {

/// Ids that are defined and finalized stay so across a module step
/// that preserves definitions and finalized code exactly.
proof fn lemma_ready_preserved(
    m_old: NativeModule,
    m_new: NativeModule,
    funcs: Seq<cranelift_module::FuncId>,
)
    requires
        forall|i: int|
            0 <= i < funcs.len() ==> module_defined(m_old, #[trigger] funcs[i]) && module_ready(
                m_old,
                funcs[i],
            ),
        forall|x: cranelift_module::FuncId|
            (#[trigger] module_defined(m_new, x)) == module_defined(m_old, x),
        forall|x: cranelift_module::FuncId|
            (#[trigger] module_ready(m_new, x)) == module_ready(m_old, x),
    ensures
        forall|i: int|
            0 <= i < funcs.len() ==> module_defined(m_new, #[trigger] funcs[i]) && module_ready(
                m_new,
                funcs[i],
            ),
{
}

/// After declaring, defining the new id and finalizing, the stored ids
/// and the new one all hold finalized definitions.
proof fn lemma_ready_after_compile(
    m0: NativeModule,
    m1: NativeModule,
    m2: NativeModule,
    m3: NativeModule,
    funcs: Seq<cranelift_module::FuncId>,
    id: cranelift_module::FuncId,
)
    requires
        forall|i: int|
            0 <= i < funcs.len() ==> module_defined(m0, #[trigger] funcs[i]) && module_ready(
                m0,
                funcs[i],
            ),
        forall|x: cranelift_module::FuncId|
            (#[trigger] module_defined(m1, x)) == module_defined(m0, x),
        forall|x: cranelift_module::FuncId|
            (#[trigger] module_ready(m1, x)) == module_ready(m0, x),
        module_defined(m2, id),
        forall|x: cranelift_module::FuncId|
            x != id ==> (#[trigger] module_defined(m2, x)) == module_defined(m1, x),
        forall|x: cranelift_module::FuncId|
            (#[trigger] module_defined(m3, x)) == module_defined(m2, x),
        forall|x: cranelift_module::FuncId|
            module_defined(m2, x) ==> (#[trigger] module_ready(m3, x)),
    ensures
        forall|i: int|
            0 <= i < funcs.push(id).len() ==> module_defined(
                m3,
                #[trigger] funcs.push(id)[i],
            ) && module_ready(m3, funcs.push(id)[i]),
{
    assert forall|i: int| 0 <= i < funcs.push(id).len() implies module_defined(
        m3,
        #[trigger] funcs.push(id)[i],
    ) && module_ready(m3, funcs.push(id)[i]) by {
        let x = funcs.push(id)[i];
        if i < funcs.len() {
            assert(x == funcs[i]);
            assert(module_defined(m1, x));
            if x != id {
                assert(module_defined(m2, x));
            }
            assert(module_defined(m2, x));
        } else {
            assert(x == id);
            assert(module_defined(m2, x));
        }
        assert(module_defined(m3, x));
        assert(module_ready(m3, x));
    }
}

/// The just-in-time compilation engine: owns the reusable builder
/// context, the codegen context and the code module, and keeps one
/// handle per function it has compiled and finalized.
pub struct JIT {
    /// Reusable state for the native function builders.
    builder_context: cranelift::frontend::FunctionBuilderContext,
    /// The codegen context, reused across compilations.
    ctx: cranelift::codegen::Context,
    /// The code module that owns the compiled functions.
    module: NativeModule,
    /// The ids of the functions this engine has compiled and
    /// finalized, dense by handle.
    funcs: Vec<cranelift_module::FuncId>,
}

impl JIT {
    /// How many functions this engine has compiled and finalized.
    pub closed spec fn func_count(self) -> nat {
        self.funcs@.len()
    }

    /// The engine's code module, for the registry model the backend's
    /// contracts are stated over.
    pub closed spec fn module_view(self) -> NativeModule {
        self.module
    }

    /// The function id behind a handle.
    pub closed spec fn id_at(self, i: int) -> cranelift_module::FuncId {
        self.funcs@[i]
    }

    /// The engine's invariant: every stored id holds a definition whose
    /// machine code is finalized in the engine's module, so its address
    /// may always be read.
    pub closed spec fn wf(self) -> bool {
        forall|i: int|
            0 <= i < self.funcs@.len() ==> module_defined(self.module, #[trigger] self.funcs@[i])
                && module_ready(self.module, self.funcs@[i])
    }

    /// A fresh engine: an empty module with nothing declared and no
    /// compiled functions. Fails fast — the backend aborts construction
    /// — on a host whose calling convention it does not support, rather
    /// than compile broken code later.
    pub fn new() -> (j: JIT)
        ensures
            j.wf(),
            j.func_count() == 0,
            module_names(j.module_view()) =~= Set::<Seq<char>>::empty(),
    {
        let module = new_module();
        let ctx = make_context(&module);
        JIT { builder_context: new_builder_context(), ctx, module, funcs: Vec::new() }
    }

    /// Tag an error with the function name it arose under.
    fn failure(name: &str, error: CompileError) -> (f: CompileFailure)
        ensures
            f.function@ == name@,
            f.error == error,
    {
        CompileFailure { function: name.to_owned(), error }
    }

    /// Compile the two-parameter sum function under `name`: build its
    /// graph, lower it into the reused context, declare it in the
    /// module, define it, finalize its machine code, and clear the
    /// context — on failure too, so one failed compilation leaves the
    /// engine ready for the next. Returns the new function's dense
    /// handle.
    ///
    /// The build and lowering are proved error-free, so every failure
    /// is module-level, tagged with `name`: on a name this module has
    /// never seen, the declaration is owed success and only the native
    /// backend's own rejection (`CodegenError`) remains possible;
    /// `DuplicateNameError` can arise only for a name already in the
    /// module's registry. Earlier handles keep their ids and stay
    /// usable either way.
    #[verifier::rlimit(50)]
    pub fn compile(&mut self, name: &str) -> (r: Result<usize, CompileFailure>)
        requires
            old(self).wf(),
        ensures
            final(self).wf(),
            final(self).func_count() == match r {
                Ok(_) => old(self).func_count() + 1,
                Err(_) => old(self).func_count(),
            },
            forall|i: int|
                0 <= i < old(self).func_count() ==> (#[trigger] final(self).id_at(i)) == old(
                    self,
                ).id_at(i),
            match r {
                Ok(h) => {
                    &&& h == old(self).func_count()
                    &&& module_names(final(self).module_view()) =~= module_names(
                        old(self).module_view(),
                    ).insert(name@)
                },
                Err(f) => {
                    &&& f.function@ == name@
                    &&& (f.error == CompileError::DuplicateNameError || f.error
                        == CompileError::CodegenError)
                    &&& (f.error == CompileError::DuplicateNameError ==> module_names(
                        old(self).module_view(),
                    ).contains(name@))
                    &&& (!module_names(old(self).module_view()).contains(name@) ==> f.error
                        == CompileError::CodegenError)
                },
            },
    {
        let graph = build_sum_function(2);
        lower_into_context(&mut self.ctx, &mut self.builder_context, &graph);
        let ghost m0 = self.module;
        let id = match declare_fn(&mut self.module, name, true, &self.ctx) {
            Ok(id) => id,
            Err(e) => {
                clear_context(&self.module, &mut self.ctx);
                proof {
                    lemma_ready_preserved(m0, self.module, self.funcs@);
                }
                return Err(Self::failure(name, e));
            },
        };
        let ghost m1 = self.module;
        match define_fn(&mut self.module, id, &mut self.ctx) {
            Ok(_) => (),
            Err(e) => {
                clear_context(&self.module, &mut self.ctx);
                proof {
                    lemma_ready_preserved(m0, m1, self.funcs@);
                    lemma_ready_preserved(m1, self.module, self.funcs@);
                }
                return Err(Self::failure(name, e));
            },
        };
        let ghost m2 = self.module;
        clear_context(&self.module, &mut self.ctx);
        finalize_defs(&mut self.module);
        let h = self.funcs.len();
        self.funcs.push(id);
        proof {
            assert(self.funcs@ == old(self).funcs@.push(id));
            lemma_ready_after_compile(m0, m1, m2, self.module, old(self).funcs@, id);
        }
        Ok(h)
    }

    /// The executable address of a compiled function, by the handle
    /// `compile` returned; `None` for a handle this engine never
    /// issued. The query changes nothing, and the address is a function
    /// of the engine's state alone, so repeated queries of one handle
    /// yield the identical address.
    pub fn finalized_address(&mut self, handle: usize) -> (r: Option<usize>)
        requires
            old(self).wf(),
        ensures
            *final(self) == *old(self),
            r is Some <==> handle < old(self).func_count(),
            handle < old(self).func_count() ==> r == Some(
                module_addr(old(self).module_view(), old(self).id_at(handle as int)),
            ),
    {
        if handle < self.funcs.len() {
            let id = self.funcs[handle];
            Some(finalized_addr(&mut self.module, id))
        } else {
            None
        }
    }

    /// Compile the two-parameter sum function under `name` and hand
    /// back the executable address of its machine code — the address
    /// the module stores for the new function — to be invoked with the
    /// native calling convention as a function of two 64-bit integers
    /// returning one 64-bit integer.
    ///
    /// Failure behaves as in `compile`: owed to succeed on a never-seen
    /// name up to the backend's own rejection, tagged with `name`, the
    /// engine cleared and reusable, earlier handles and addresses
    /// untouched.
    pub fn make_prog(&mut self, name: &str) -> (r: Result<usize, CompileFailure>)
        requires
            old(self).wf(),
        ensures
            final(self).wf(),
            final(self).func_count() == match r {
                Ok(_) => old(self).func_count() + 1,
                Err(_) => old(self).func_count(),
            },
            forall|i: int|
                0 <= i < old(self).func_count() ==> (#[trigger] final(self).id_at(i)) == old(
                    self,
                ).id_at(i),
            match r {
                Ok(addr) => {
                    &&& addr == module_addr(
                        final(self).module_view(),
                        final(self).id_at(old(self).func_count() as int),
                    )
                    &&& module_names(final(self).module_view()) =~= module_names(
                        old(self).module_view(),
                    ).insert(name@)
                },
                Err(f) => {
                    &&& f.function@ == name@
                    &&& (f.error == CompileError::DuplicateNameError || f.error
                        == CompileError::CodegenError)
                    &&& (f.error == CompileError::DuplicateNameError ==> module_names(
                        old(self).module_view(),
                    ).contains(name@))
                    &&& (!module_names(old(self).module_view()).contains(name@) ==> f.error
                        == CompileError::CodegenError)
                },
            },
    {
        let h = match self.compile(name) {
            Ok(h) => h,
            Err(f) => {
                return Err(f);
            },
        };
        match self.finalized_address(h) {
            Some(addr) => Ok(addr),
            None => unreached(),
        }
    }
}

} // verus!
