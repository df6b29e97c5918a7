//! A typed, null-aware columnar value engine: typed columns and scalars, a closed
//! type-erasure layer over them, and a binary expression evaluator.
use vstd::prelude::*;

pub mod array;
pub mod bitmap;
pub mod expr;
pub mod scalar;

pub use array::{
    Array, ArrayBuilder, ArrayIterator, BoolArray, BoolArrayBuilder, I32Array, I32ArrayBuilder,
    I64Array, I64ArrayBuilder, PrimitiveArray, PrimitiveArrayBuilder,
};
pub use expr::eval_binary;
pub use scalar::{PrimitiveType, Scalar, ScalarRef};

verus! {

/// Raised when an erased value is narrowed to a type that is not its own.
#[derive(Debug, Clone, Copy, PartialEq, Eq, Structural)]
pub struct TypeMismatch;

/// Why an expression could not be evaluated.
#[derive(Debug, Clone, Copy, PartialEq, Eq, Structural)]
pub enum EvalError {
    /// An input column is not of the type that the expression requires.
    TypeMismatch(TypeMismatch),
    /// The two input columns differ in length.
    LengthMismatch,
    /// The expression was given another number of inputs than it takes.
    ArgumentCount,
}

} // verus!
