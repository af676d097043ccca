//! The control-flow representation of the program to translate.
//!
//! A program is a list of functions. A function with a body is a list of
//! basic blocks, each a list of statements and one terminator. Types are
//! given by their printed name and by what kind of callable they are.

use vstd::prelude::*;

verus! {

/// What calling a value of a type leads to.
#[derive(Clone, Copy, Debug, PartialEq, Eq)]
pub enum TyKind {
    /// The type of a function item; the number is the function's index in the program.
    FnDef(usize),
    /// The type of a closure; the number is the index of the closure's body in the program.
    Closure(usize),
    /// A function pointer.
    FnPtr,
    /// Any other type.
    Other,
}

/// A type: its printed name and its kind.
#[derive(Clone, Debug)]
pub struct Ty {
    pub name: String,
    pub kind: TyKind,
}

/// One step of the path from a local variable to a part of it.
#[derive(Clone, Copy, Debug, PartialEq, Eq)]
pub enum ProjectionElem {
    /// Follows a reference or a pointer.
    Deref,
    /// Selects the field with the given index.
    Field(usize),
    /// Any other step (an index, a downcast, ...).
    Other,
}

/// A memory location: a local variable, the path to a part of it, and the type of that part.
#[derive(Clone, Debug)]
pub struct Place {
    pub local: usize,
    pub projection: Vec<ProjectionElem>,
    pub ty: Ty,
}

/// An argument of an assignment or of a call.
#[derive(Clone, Debug)]
pub enum Operand {
    Copy(Place),
    Move(Place),
    /// A constant, of which only the type matters.
    Constant(Ty),
}

/// The right-hand side of an assignment.
#[derive(Clone, Debug)]
pub enum Rvalue {
    /// `x = y` or `x = move y`.
    Use(Operand),
    /// `x = &y` or `x = &mut y`.
    Ref(Place),
    /// `x = (a, b, ..)`: a tuple, a struct, a closure or another value built from operands.
    Aggregate(Vec<Operand>),
    /// Any other right-hand side.
    Other,
}

/// A statement of a basic block.
#[derive(Clone, Debug)]
pub enum Statement {
    Assign(Place, Rvalue),
    /// Any statement that is not an assignment.
    Other,
}

/// The operation that ends a basic block. Blocks are named by their index in the body.
#[derive(Clone, Debug)]
#[allow(inconsistent_fields)]
pub enum TerminatorKind {
    Goto { target: usize },
    SwitchInt { targets: Vec<usize> },
    Resume,
    Abort,
    Return,
    Unreachable,
    Drop { place: Place, target: usize, unwind: Option<usize> },
    DropAndReplace,
    Call {
        func: Operand,
        args: Vec<Operand>,
        destination: Place,
        target: Option<usize>,
        cleanup: Option<usize>,
    },
    Assert { target: usize, cleanup: Option<usize> },
    Yield,
    GeneratorDrop,
    FalseEdge,
    FalseUnwind,
    InlineAsm,
}

/// A basic block: statements in a row, then one terminator.
#[derive(Clone, Debug)]
pub struct BasicBlockData {
    pub statements: Vec<Statement>,
    pub terminator: TerminatorKind,
}

/// The body of a function.
#[derive(Clone, Debug)]
pub struct Body {
    /// The number of local variables. Local 0 holds the return value, the
    /// locals after it the arguments.
    pub local_count: usize,
    pub basic_blocks: Vec<BasicBlockData>,
}

/// A function of the program. One without a body is foreign: it is called but not entered.
#[derive(Clone, Debug)]
pub struct Function {
    /// The path of the function, such as `std::thread::spawn`.
    pub name: String,
    pub body: Option<Body>,
}

/// A program: its functions, and which of them is the entry point.
#[derive(Clone, Debug)]
pub struct Program {
    pub functions: Vec<Function>,
    pub entry: usize,
}

} // verus!
