use std::cell::Cell;
use type_exercise::array::{ArrayImpl, BoolArray, I32Array, I64Array, StringArray};
use type_exercise::expr::{
    build_binary_expression, cmp_eq, cmp_ge, cmp_gt, cmp_le, cmp_lt, cmp_ne, str_concat,
    str_contains, BinaryExpression, Expression, ExpressionFunc,
};
use type_exercise::scalar::ScalarRefImpl;
use type_exercise::{eval_binary, Array, EvalError, TypeMismatch};

fn check_array_eq<'a, A: Array>(array: &'a A, vec: &[Option<A::RefItem<'a>>])
where
    A::RefItem<'a>: PartialEq + std::fmt::Debug,
{
    assert_eq!(array.len(), vec.len());
    for (i, b) in vec.iter().enumerate() {
        assert_eq!(&array.get(i), b);
    }
}

#[test]
fn test_build_str_contains() {
    let expr = build_binary_expression(ExpressionFunc::StrContains);

    for _ in 0..10 {
        let result = expr
            .eval_expr(&[
                &StringArray::from_slice(&[Some("000"), Some("111"), None]).into(),
                &StringArray::from_slice(&[Some("0"), Some("0"), None]).into(),
            ])
            .unwrap();
        assert_eq!(result.get(0).unwrap(), ScalarRefImpl::Bool(true));
        assert_eq!(result.get(1).unwrap(), ScalarRefImpl::Bool(false));
        assert!(result.get(2).is_none());
    }
}

#[test]
fn test_str_cmp_le() {
    let expr = BinaryExpression::<StringArray, StringArray, BoolArray, _>::new(
        cmp_le::<String, String, String>,
    );
    let result = expr
        .eval(
            &StringArray::from_slice(&[Some("aa"), Some("bb"), None]).into(),
            &StringArray::from_slice(&[Some("aa"), None, Some("cc")]).into(),
        )
        .unwrap();
    check_array_eq::<BoolArray>((&result).try_into().unwrap(), &[Some(true), None, None]);
}

#[test]
fn test_str_cmp_eq() {
    let expr = BinaryExpression::<StringArray, StringArray, BoolArray, _>::new(
        cmp_eq::<String, String, String>,
    );
    let result = expr
        .eval(
            &StringArray::from_slice(&[Some("aa"), Some("bb"), None]).into(),
            &StringArray::from_slice(&[Some("aa"), None, Some("cc")]).into(),
        )
        .unwrap();
    check_array_eq::<BoolArray>((&result).try_into().unwrap(), &[Some(true), None, None]);
}

#[test]
fn test_str_contains() {
    let expr = BinaryExpression::<StringArray, StringArray, BoolArray, _>::new(str_contains);
    let result = expr
        .eval(
            &StringArray::from_slice(&[Some("000"), Some("111"), None]).into(),
            &StringArray::from_slice(&[Some("0"), Some("0"), None]).into(),
        )
        .unwrap();
    check_array_eq::<BoolArray>(
        (&result).try_into().unwrap(),
        &[Some(true), Some(false), None],
    );
}

#[test]
fn test_concat_string() {
    let expr = BinaryExpression::<StringArray, StringArray, StringArray, _>::new(str_concat);
    let result = expr
        .eval(
            &StringArray::from_slice(&[Some("aa"), Some("bb"), None]).into(),
            &StringArray::from_slice(&[Some("aa"), None, Some("cc")]).into(),
        )
        .unwrap();
    check_array_eq::<StringArray>((&result).try_into().unwrap(), &[Some("aaaa"), None, None]);
}

#[test]
fn int_function_on_text_column_is_a_type_mismatch() {
    let expr = build_binary_expression(ExpressionFunc::CmpLt);
    let text: ArrayImpl = StringArray::from_slice(&[Some("1"), Some("2")]).into();
    let ints: ArrayImpl = I32Array::from_slice(&[Some(1), Some(2)]).into();
    let r = expr.eval_expr(&[&text, &ints]);
    assert_eq!(r.err(), Some(EvalError::TypeMismatch(TypeMismatch)));
    let r = expr.eval_expr(&[&ints, &text]);
    assert_eq!(r.err(), Some(EvalError::TypeMismatch(TypeMismatch)));
}

#[test]
fn columns_of_different_lengths_are_refused() {
    let expr = build_binary_expression(ExpressionFunc::CmpEq);
    let a: ArrayImpl = I32Array::from_slice(&[Some(1), Some(2)]).into();
    let b: ArrayImpl = I32Array::from_slice(&[Some(1)]).into();
    assert_eq!(expr.eval_expr(&[&a, &b]).err(), Some(EvalError::LengthMismatch));
}

#[test]
fn wrong_number_of_inputs_is_refused() {
    let expr = build_binary_expression(ExpressionFunc::CmpEq);
    let a: ArrayImpl = I32Array::from_slice(&[Some(1)]).into();
    assert_eq!(expr.eval_expr(&[&a]).err(), Some(EvalError::ArgumentCount));
    assert_eq!(expr.eval_expr(&[&a, &a, &a]).err(), Some(EvalError::ArgumentCount));
    let bin = BinaryExpression::<I32Array, I32Array, BoolArray, _>::new(cmp_lt::<i32, i32, i32>);
    assert_eq!(bin.eval_expr(&[]).err(), Some(EvalError::ArgumentCount));
}

#[test]
fn add_expression_propagates_nulls() {
    let expr = BinaryExpression::<I32Array, I32Array, I32Array, _>::new(|a: i32, b: i32| a + b);
    let result = expr
        .eval(
            &I32Array::from_slice(&[Some(1), Some(2), Some(3), None]).into(),
            &I32Array::from_slice(&[Some(1), Some(2), None, Some(4)]).into(),
        )
        .unwrap();
    check_array_eq::<I32Array>((&result).try_into().unwrap(), &[Some(2), Some(4), None, None]);
}

#[test]
fn function_is_not_called_on_null_rows() {
    let calls = Cell::new(0);
    let expr = BinaryExpression::<I32Array, I32Array, I32Array, _>::new(|a: i32, b: i32| {
        calls.set(calls.get() + 1);
        a * b
    });
    let result = expr
        .eval(
            &I32Array::from_slice(&[None, Some(2), Some(3), None, Some(5)]).into(),
            &I32Array::from_slice(&[Some(1), None, Some(4), None, Some(6)]).into(),
        )
        .unwrap();
    assert_eq!(calls.get(), 2);
    check_array_eq::<I32Array>(
        (&result).try_into().unwrap(),
        &[None, None, Some(12), None, Some(30)],
    );
}

#[test]
fn builtin_comparisons_on_int_columns() {
    let a: ArrayImpl = I32Array::from_slice(&[Some(1), Some(2), Some(3), None]).into();
    let b: ArrayImpl = I32Array::from_slice(&[Some(2), Some(2), Some(2), Some(0)]).into();
    let expect = [
        (ExpressionFunc::CmpLt, [true, false, false]),
        (ExpressionFunc::CmpLe, [true, true, false]),
        (ExpressionFunc::CmpGt, [false, false, true]),
        (ExpressionFunc::CmpGe, [false, true, true]),
        (ExpressionFunc::CmpEq, [false, true, false]),
        (ExpressionFunc::CmpNe, [true, false, true]),
    ];
    for (func, rows) in expect {
        let r = build_binary_expression(func).eval_expr(&[&a, &b]).unwrap();
        let out: &BoolArray = (&r).try_into().unwrap();
        check_array_eq::<BoolArray>(out, &[Some(rows[0]), Some(rows[1]), Some(rows[2]), None]);
    }
}

#[test]
fn builtin_concat_gives_a_text_column() {
    let expr = build_binary_expression(ExpressionFunc::StrConcat);
    let r = expr
        .eval_expr(&[
            &StringArray::from_slice(&[Some("aa"), Some("bb"), None]).into(),
            &StringArray::from_slice(&[Some("aa"), None, Some("cc")]).into(),
        ])
        .unwrap();
    let out: &StringArray = (&r).try_into().unwrap();
    check_array_eq::<StringArray>(out, &[Some("aaaa"), None, None]);
}

#[test]
fn eval_binary_applies_the_function() {
    let a: ArrayImpl = I64Array::from_slice(&[Some(5), None]).into();
    let b: ArrayImpl = I64Array::from_slice(&[Some(5), Some(1)]).into();
    let r = eval_binary::<I64Array, I64Array, BoolArray, _>(&a, &b, &cmp_eq::<i64, i64, i64>);
    let out: BoolArray = r.unwrap().try_into().unwrap();
    check_array_eq::<BoolArray>(&out, &[Some(true), None]);
}

#[test]
fn comparisons_of_scalars() {
    assert!(cmp_lt::<i32, i32, i32>(1, 2));
    assert!(!cmp_lt::<i32, i32, i32>(2, 2));
    assert!(cmp_le::<i32, i32, i32>(2, 2));
    assert!(cmp_gt::<i32, i32, i32>(3, 2));
    assert!(!cmp_gt::<i32, i32, i32>(2, 2));
    assert!(cmp_ge::<i32, i32, i32>(2, 2));
    assert!(cmp_eq::<i32, i32, i32>(-4, -4));
    assert!(cmp_ne::<i32, i32, i32>(-4, 4));
    assert!(cmp_lt::<i32, i64, i64>(i32::MAX, i64::MAX));
    assert!(cmp_eq::<i32, i64, i64>(7, 7i64));
    assert!(cmp_lt::<bool, bool, bool>(false, true));
    assert!(cmp_lt::<String, String, String>("ab", "b"));
    assert!(cmp_lt::<String, String, String>("", "a"));
    assert!(cmp_lt::<String, String, String>("a", "ab"));
    assert!(cmp_gt::<String, String, String>("é", "z"));
    assert!(cmp_eq::<String, String, String>("日本", "日本"));
    assert!(cmp_ne::<String, String, String>("a", "A"));
}

#[test]
fn text_functions_on_scalars() {
    assert!(str_contains("hello", "ell"));
    assert!(str_contains("hello", ""));
    assert!(str_contains("", ""));
    assert!(!str_contains("hello", "elo"));
    assert!(!str_contains("he", "hello"));
    assert!(str_contains("naïve", "ï"));
    assert_eq!(str_concat("aa", "bb"), "aabb");
    assert_eq!(str_concat("", "x"), "x");
    assert_eq!(str_concat("é", ""), "é");
}
