use type_exercise::array::{
    ArrayBuilderImpl, ArrayImpl, BoolArray, I32Array, I64Array, StringArray, StringArrayBuilder,
    TypedArray,
};
use type_exercise::scalar::ScalarRefImpl;
use type_exercise::{Array, ArrayBuilder, TypeMismatch};

/// Build an array from a vector of data
fn build_array_from_vec<A: Array>(items: &[Option<A::RefItem<'_>>]) -> A {
    let mut builder = A::Builder::with_capacity(items.len());
    for item in items {
        builder.push(*item);
    }
    builder.finish()
}

/// Test if an array has the same content as a vector
fn check_array_eq<'a, A: Array>(array: &'a A, vec: &[Option<A::RefItem<'a>>])
where
    A::RefItem<'a>: PartialEq + std::fmt::Debug,
{
    let mut iter = array.iter();
    let mut i = 0;
    while let Some(a) = iter.next() {
        assert_eq!(&a, &vec[i]);
        i += 1;
    }
    assert_eq!(i, vec.len());
}

#[test]
fn test_build_int32_array() {
    let data = vec![Some(1), Some(2), Some(3), None, Some(5)];
    let array = build_array_from_vec::<I32Array>(&data[..]);
    check_array_eq(&array, &data[..]);
}

#[test]
fn test_build_string_array() {
    let data = vec![Some("1"), Some("2"), Some("3"), None, Some("5"), Some("")];
    let array = build_array_from_vec::<StringArray>(&data[..]);
    check_array_eq(&array, &data[..]);
}

fn add_i32(a: i32, b: i32) -> i32 {
    a + b
}

fn add_i32_vec(i1: &I32Array, i2: &I32Array) -> I32Array {
    let mut builder = <I32Array as Array>::Builder::with_capacity(i1.len());
    for i in 0..i1.len() {
        let a = i1.get(i);
        let b = i2.get(i);
        let sum = a.and_then(|a| b.map(|b| add_i32(a, b)));
        builder.push(sum);
    }
    builder.finish()
}

fn add_i32_wrapper(i1: ArrayImpl, i2: ArrayImpl) -> Result<ArrayImpl, TypeMismatch> {
    Ok(add_i32_vec(&i1.try_into()?, &i2.try_into()?).into())
}

#[test]
fn test_add_array() {
    check_array_eq::<I32Array>(
        &add_i32_wrapper(
            I32Array::from_slice(&[Some(1), Some(2), Some(3), None]).into(),
            I32Array::from_slice(&[Some(1), Some(2), None, Some(4)]).into(),
        )
        .unwrap()
        .try_into()
        .unwrap(),
        &[Some(2), Some(4), None, None],
    );

    let result = add_i32_wrapper(
        StringArray::from_slice(&[Some("1"), Some("2"), Some("3"), None]).into(),
        I32Array::from_slice(&[Some(1), Some(2), None, Some(4)]).into(),
    );
    assert!(result.is_err());
}

#[test]
fn get_reads_back_every_slot_of_each_column_type() {
    let ints = [Some(-7i64), None, Some(i64::MAX), Some(0)];
    let a = I64Array::from_slice(&ints);
    assert_eq!(a.len(), 4);
    for (i, v) in ints.iter().enumerate() {
        assert_eq!(a.get(i), *v);
    }
    let bools = [None, Some(true), Some(false)];
    let b = BoolArray::from_slice(&bools);
    for (i, v) in bools.iter().enumerate() {
        assert_eq!(b.get(i), *v);
    }
    let texts = [Some("héllo"), None, Some(""), Some("日本"), None];
    let s = StringArray::from_slice(&texts);
    assert_eq!(s.len(), 5);
    for (i, v) in texts.iter().enumerate() {
        assert_eq!(s.get(i), *v);
    }
}

#[test]
fn empty_column_has_no_slot() {
    let a = I32Array::from_slice(&[]);
    assert_eq!(a.len(), 0);
    assert!(a.is_empty());
    assert!(a.iter().next().is_none());
    let s = StringArray::from_slice(&[]);
    assert!(s.is_empty());
    let e: ArrayImpl = s.into();
    assert!(e.is_empty());
}

#[test]
fn iterator_yields_every_slot_then_stops() {
    let a = I32Array::from_slice(&[Some(1), None]);
    let mut it = a.iter();
    assert_eq!(it.next(), Some(Some(1)));
    assert_eq!(it.next(), Some(None));
    assert_eq!(it.next(), None);
    assert_eq!(it.next(), None);
    let mut again = a.iter();
    assert_eq!(again.next(), Some(Some(1)));
}

#[test]
fn string_column_length_follows_every_push() {
    let mut b = StringArrayBuilder::with_capacity(0);
    assert_eq!(b.len(), 0);
    b.push(Some("abc"));
    assert_eq!(b.len(), 1);
    b.push(None);
    assert_eq!(b.len(), 2);
    b.push(Some(""));
    assert_eq!(b.len(), 3);
    b.push(Some("de"));
    assert_eq!(b.len(), 4);
    let a = b.finish();
    assert_eq!(a.get(0), Some("abc"));
    assert_eq!(a.get(1), None);
    assert_eq!(a.get(2), Some(""));
    assert_eq!(a.get(3), Some("de"));
}

#[test]
fn narrowing_to_the_own_type_succeeds_and_to_another_fails() {
    let wrapped: ArrayImpl = I32Array::from_slice(&[Some(4), None]).into();
    assert!(matches!(I64Array::try_from_array_impl_ref(&wrapped), Err(TypeMismatch)));
    assert!(matches!(BoolArray::try_from_array_impl_ref(&wrapped), Err(TypeMismatch)));
    assert!(matches!(StringArray::try_from_array_impl_ref(&wrapped), Err(TypeMismatch)));
    let back: &I32Array = (&wrapped).try_into().unwrap();
    assert_eq!(back.get(0), Some(4));
    assert_eq!(back.get(1), None);
    let r: Result<StringArray, TypeMismatch> = wrapped.try_into();
    assert!(r.is_err());

    let text: ArrayImpl = StringArray::from_slice(&[Some("x")]).into();
    let r: Result<I32Array, TypeMismatch> = text.try_into();
    assert_eq!(r.err(), Some(TypeMismatch));
    let text: ArrayImpl = StringArray::from_slice(&[Some("x")]).into();
    let s = StringArray::try_from_array_impl(text).unwrap();
    assert_eq!(s.get(0), Some("x"));
}

#[test]
fn erased_column_get_tags_each_value() {
    let a: ArrayImpl = BoolArray::from_slice(&[Some(true), None]).into();
    assert_eq!(a.len(), 2);
    assert_eq!(a.get(0), Some(ScalarRefImpl::Bool(true)));
    assert_eq!(a.get(1), None);
    let s: ArrayImpl = StringArray::from_slice(&[None, Some("q")]).into();
    assert_eq!(s.get(0), None);
    assert_eq!(s.get(1), Some(ScalarRefImpl::String("q")));
}

#[test]
fn erased_builder_pushes_values_of_its_own_tag() {
    let mut b: ArrayBuilderImpl = StringArrayBuilder::with_capacity(2).into();
    b.push(Some(ScalarRefImpl::String("ab")));
    b.push(None);
    let a = b.finish();
    assert_eq!(a.len(), 2);
    assert_eq!(a.get(0), Some(ScalarRefImpl::String("ab")));
    assert_eq!(a.get(1), None);
    let s: StringArray = a.try_into().unwrap();
    assert_eq!(s.get(0), Some("ab"));
}
