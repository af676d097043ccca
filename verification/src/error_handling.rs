//! The two ways in which a translation fails.
//!
//! Either the program uses a construct that the translation does not model, or
//! the translator met a state that its own invariants rule out. Both abort the
//! translation as a whole: no partial net is handed out.

use vstd::prelude::*;

verus! {

/// A construct of the program that the translation does not model.
#[derive(Clone, Copy, Debug, PartialEq, Eq)]
pub enum UnsupportedConstruct {
    /// A call through a function pointer.
    FunctionPointer,
    /// A call whose callee cannot be resolved to a function or closure.
    UnresolvedCall,
    /// The terminator `Yield` of a generator.
    Yield,
    /// The terminator `GeneratorDrop`.
    GeneratorDrop,
    /// The terminator `FalseEdge`.
    FalseEdge,
    /// The terminator `FalseUnwind`.
    FalseUnwind,
    /// The terminator `InlineAsm`.
    InlineAsm,
    /// The terminator `DropAndReplace`.
    DropAndReplace,
    /// A chain of nested calls longer than the translation follows.
    CallDepth,
}

/// A state that the translator's own invariants rule out.
#[derive(Clone, Copy, Debug, PartialEq, Eq)]
pub enum InternalDefect {
    /// A place or transition was to get a label that the net already holds.
    LabelInUse,
    /// An arc was to join a place and a transition of which one is not in the net.
    UnknownNode,
    /// An arc was to be added a second time.
    DuplicateArc,
    /// The tokens of a place would exceed what a place can hold.
    TokenOverflow,
    /// A counter of the translator would exceed its range.
    CounterOverflow,
    /// A local variable, a basic block or a function is named that does not exist.
    OutOfRange,
    /// A call lacks an argument that the called function takes.
    MissingArgument,
    /// A local variable does not hold the mutex that an operation expects.
    MutexExpected,
    /// A local variable does not hold the lock guard that an operation expects.
    LockGuardExpected,
    /// A local variable does not hold the condition variable that an operation expects.
    CondvarExpected,
    /// A local variable does not hold the join handle that an operation expects.
    JoinHandleExpected,
    /// A local variable does not hold the aggregate, or the field of it, that an access expects.
    AggregateExpected,
    /// The path of a place that is assigned to a sync variable holds no field access.
    FieldExpected,
    /// A handle names an object that its manager does not hold.
    StaleHandle,
    /// No handler is defined for the function that was dispatched.
    NoHandler,
}

/// Why a translation was aborted.
#[derive(Clone, Copy, Debug, PartialEq, Eq)]
pub enum TranslationError {
    /// The program holds a construct that is not modelled.
    Unsupported(UnsupportedConstruct),
    /// The translator itself is at fault.
    Internal(InternalDefect),
}

impl TranslationError {
    /// Whether the failure lies with the program and not with the translator.
    pub open spec fn spec_is_unsupported(&self) -> bool {
        *self is Unsupported
    }

    /// Whether the failure lies with the program and not with the translator.
    #[verifier::when_used_as_spec(spec_is_unsupported)]
    pub fn is_unsupported(&self) -> (r: bool)
        ensures
            r == (*self is Unsupported),
    {
        match self {
            TranslationError::Unsupported(_) => true,
            TranslationError::Internal(_) => false,
        }
    }
}

} // verus!
