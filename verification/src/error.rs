//! The ways in which a compilation fails.

use vstd::prelude::*;

verus! {

/// Why a compilation was abandoned. Every kind is fatal.
#[derive(Clone, Copy, Debug, PartialEq, Eq)]
pub enum CompileError {
    /// An identifier is bound in no frame of the scope.
    UnresolvedIdentifier,
    /// No declared function of the called name takes the arguments.
    NoMatchingOverload,
    /// The type of a returned value is no subtype of the declared return
    /// type.
    TypeMismatchOnReturn,
    /// A store goes through a pointer into read-only memory.
    InvalidStore,
    /// The module of embedded bodies and external declarations could not
    /// be read, checked or linked.
    ModuleLinkFailure,
    /// The linked module did not pass its final check.
    ModuleVerificationFailure,
    /// The input holds a construct that cannot be lowered: a built-in
    /// operation with too few operands, or something other than a function
    /// where a function is expected.
    UnsupportedConstruct,
    /// A parse tree does not have the shape of the grammar: a node lacks a
    /// part, an operator is unknown, or an integer literal does not fit 64
    /// bits.
    MalformedSyntax,
}

} // verus!
