//! Expressions over columns and the functions that they apply.
use crate::array::{ArrayImpl, BoolArray, I32Array, StringArray, TypedArray, WellFormed};
use crate::EvalError;
use vstd::prelude::*;

mod binary;
mod cmp;
mod string;

pub use binary::{
    binary_accepts, binary_output, binary_result, binary_row, eval_binary, lemma_null_propagation, BinaryExpression,
};
pub use cmp::{
    cmp_eq, cmp_ge, cmp_gt, cmp_le, cmp_lt, cmp_ne, compare_in, int_cmp, lemma_lex_cmp_equal,
    lex_cmp, scalar_value_cmp, ComparableScalar, IntoComparable,
};
pub use string::{occurs_at, occurs_in, str_concat, str_contains, text_contains};


verus! {

/// An operation over erased columns.
pub trait Expression {
    /// Whether the expression can be evaluated on `data`: its function accepts the
    /// values that it would be applied to.
    spec fn accepts(&self, data: Seq<ArrayImpl>) -> bool;

    /// Whether `r` is a result that evaluating on `data` may give.
    spec fn spec_eval(&self, data: Seq<ArrayImpl>, r: Result<ArrayImpl, EvalError>) -> bool;

    /// Evaluates the expression with the given input columns.
    fn eval_expr(&self, data: &[&ArrayImpl]) -> (r: Result<ArrayImpl, EvalError>)
        requires
            self.accepts(data@.map_values(|x: &ArrayImpl| *x)),
            forall|i: int| 0 <= i < data@.len() ==> (#[trigger] data@[i]).well_formed(),
        ensures
            self.spec_eval(data@.map_values(|x: &ArrayImpl| *x), r),
    ;
}

impl<
    I1: TypedArray,
    I2: TypedArray,
    O: TypedArray,
    F: Fn(I1::RefItem<'_>, I2::RefItem<'_>) -> O::OwnedItem,
> Expression for BinaryExpression<I1, I2, O, F> {
    /// With two inputs, the function accepts the values of their present rows.
    open spec fn accepts(&self, data: Seq<ArrayImpl>) -> bool {
        data.len() == 2 ==> binary_accepts::<I1, I2, O, F>(self.func(), data[0], data[1])
    }

    /// Two inputs are evaluated as `eval` does; any other number is refused.
    open spec fn spec_eval(&self, data: Seq<ArrayImpl>, r: Result<ArrayImpl, EvalError>) -> bool {
        if data.len() == 2 {
            binary_result::<I1, I2, O, F>(self.func(), data[0], data[1], r)
        } else {
            r == Err::<ArrayImpl, EvalError>(EvalError::ArgumentCount)
        }
    }

    fn eval_expr(&self, data: &[&ArrayImpl]) -> (r: Result<ArrayImpl, EvalError>) {
        if data.len() != 2 {
            return Err(EvalError::ArgumentCount);
        }
        self.eval(data[0], data[1])
    }
}

/// The functions that `build_binary_expression` can bind.
#[derive(Debug, Clone, Copy, PartialEq, Eq, Structural)]
pub enum ExpressionFunc {
    CmpLt,
    CmpLe,
    CmpGt,
    CmpGe,
    CmpEq,
    CmpNe,
    StrContains,
    StrConcat,
}

/// What applying `func` to the columns `a` and `b` may give: comparisons take two
/// `Int32` columns and give a `Bool` column, `StrContains` takes two `String`
/// columns and gives a `Bool` column, `StrConcat` gives a `String` column.
pub open spec fn func_result(
    func: ExpressionFunc,
    a: ArrayImpl,
    b: ArrayImpl,
    r: Result<ArrayImpl, EvalError>,
) -> bool {
    match func {
        ExpressionFunc::CmpLt => binary_result::<I32Array, I32Array, BoolArray, _>(cmp_lt::<i32, i32, i32>, a, b, r),
        ExpressionFunc::CmpLe => binary_result::<I32Array, I32Array, BoolArray, _>(cmp_le::<i32, i32, i32>, a, b, r),
        ExpressionFunc::CmpGt => binary_result::<I32Array, I32Array, BoolArray, _>(cmp_gt::<i32, i32, i32>, a, b, r),
        ExpressionFunc::CmpGe => binary_result::<I32Array, I32Array, BoolArray, _>(cmp_ge::<i32, i32, i32>, a, b, r),
        ExpressionFunc::CmpEq => binary_result::<I32Array, I32Array, BoolArray, _>(cmp_eq::<i32, i32, i32>, a, b, r),
        ExpressionFunc::CmpNe => binary_result::<I32Array, I32Array, BoolArray, _>(cmp_ne::<i32, i32, i32>, a, b, r),
        ExpressionFunc::StrContains => binary_result::<StringArray, StringArray, BoolArray, _>(str_contains, a, b, r),
        ExpressionFunc::StrConcat => binary_result::<StringArray, StringArray, StringArray, _>(str_concat, a, b, r),
    }
}

/// A binary expression chosen at run time from `ExpressionFunc`.
pub struct BuiltinExpression {
    func: ExpressionFunc,
}

impl BuiltinExpression {
    /// The function that this expression applies.
    pub closed spec fn func(&self) -> ExpressionFunc {
        self.func
    }
}

impl Expression for BuiltinExpression {
    /// The built-in functions accept every input.
    open spec fn accepts(&self, data: Seq<ArrayImpl>) -> bool {
        true
    }

    /// Two inputs are evaluated as `func_result` says; any other number is refused.
    open spec fn spec_eval(&self, data: Seq<ArrayImpl>, r: Result<ArrayImpl, EvalError>) -> bool {
        if data.len() == 2 {
            func_result(self.func(), data[0], data[1], r)
        } else {
            r == Err::<ArrayImpl, EvalError>(EvalError::ArgumentCount)
        }
    }

    fn eval_expr(&self, data: &[&ArrayImpl]) -> (r: Result<ArrayImpl, EvalError>) {
        if data.len() != 2 {
            return Err(EvalError::ArgumentCount);
        }
        let a = data[0];
        let b = data[1];
        match self.func {
            ExpressionFunc::CmpLt => BinaryExpression::<I32Array, I32Array, BoolArray, _>::new(
                cmp_lt::<i32, i32, i32>,
            ).eval(a, b),
            ExpressionFunc::CmpLe => BinaryExpression::<I32Array, I32Array, BoolArray, _>::new(
                cmp_le::<i32, i32, i32>,
            ).eval(a, b),
            ExpressionFunc::CmpGt => BinaryExpression::<I32Array, I32Array, BoolArray, _>::new(
                cmp_gt::<i32, i32, i32>,
            ).eval(a, b),
            ExpressionFunc::CmpGe => BinaryExpression::<I32Array, I32Array, BoolArray, _>::new(
                cmp_ge::<i32, i32, i32>,
            ).eval(a, b),
            ExpressionFunc::CmpEq => BinaryExpression::<I32Array, I32Array, BoolArray, _>::new(
                cmp_eq::<i32, i32, i32>,
            ).eval(a, b),
            ExpressionFunc::CmpNe => BinaryExpression::<I32Array, I32Array, BoolArray, _>::new(
                cmp_ne::<i32, i32, i32>,
            ).eval(a, b),
            ExpressionFunc::StrContains => BinaryExpression::<
                StringArray,
                StringArray,
                BoolArray,
                _,
            >::new(str_contains).eval(a, b),
            ExpressionFunc::StrConcat => BinaryExpression::<
                StringArray,
                StringArray,
                StringArray,
                _,
            >::new(str_concat).eval(a, b),
        }
    }
}

/// The expression that applies `f`.
pub fn build_binary_expression(f: ExpressionFunc) -> (r: BuiltinExpression)
    ensures
        r.func() == f,
{
    BuiltinExpression { func: f }
}

} // verus!
