//! The errors a compilation can end in.

use vstd::prelude::*;

verus! {

/// Everything that can go wrong between starting a function build and
/// receiving a finalized machine-code address.
///
/// The first five variants are raised while the intermediate
/// representation is built, before any native code generation runs.
/// The last two are module-level: they come from declaring the function
/// in the code module and from the native backend.
#[derive(Clone, Copy, PartialEq, Eq, Structural, Debug)]
pub enum CompileError {
    /// `begin` was called twice for one build, or a builder operation
    /// ran before `begin` gave the build a signature.
    SignatureError,
    /// A variable handle was declared a second time.
    DuplicateDeclarationError,
    /// A variable was used (or read) with no definition on the path
    /// reaching the use, or the handle was never declared.
    UseBeforeDefError,
    /// An operand's type or an immediate did not fit what the
    /// instruction or the declared variable expects.
    TypeMismatchError,
    /// `finish` found the function unfinished: no active block, the
    /// entry block not sealed, or not exactly one terminator at the end.
    IncompleteFunctionError,
    /// The code module already holds an incompatible declaration or
    /// definition under this name.
    DuplicateNameError,
    /// The native backend rejected the function.
    CodegenError,
}

/// A compilation failure, tagged with the name of the function whose
/// build raised it.
#[derive(Debug)]
pub struct CompileFailure {
    /// The name the function was being compiled under.
    pub function: String,
    /// What went wrong.
    pub error: CompileError,
}

} // verus!
