use std::cmp::Ordering;
use type_exercise::scalar::{ScalarImpl, ScalarRefImpl};
use type_exercise::{Scalar, ScalarRef, TypeMismatch};

#[test]
fn primitive_scalars_round_trip() {
    let v: i32 = -12;
    assert_eq!(v.as_scalar_ref().to_owned_scalar(), v);
    let w: i64 = i64::MIN;
    assert_eq!(w.as_scalar_ref().to_owned_scalar(), w);
    let b = true;
    assert_eq!(b.as_scalar_ref().to_owned_scalar(), b);
}

#[test]
fn string_scalar_round_trips() {
    let s = String::from("déjà vu");
    let r: &str = s.as_scalar_ref();
    assert_eq!(r, "déjà vu");
    assert_eq!(r.to_owned_scalar(), s);
    assert_eq!(String::new().as_scalar_ref().to_owned_scalar(), "");
}

#[test]
fn erased_scalars_round_trip_with_their_tag() {
    let values = [
        ScalarImpl::Int32(3),
        ScalarImpl::Int64(-3),
        ScalarImpl::Bool(false),
        ScalarImpl::String("x".to_string()),
    ];
    for v in values {
        assert_eq!(v.as_scalar_ref().to_owned_scalar(), v);
    }
    assert_eq!(ScalarImpl::String("ab".to_string()).as_scalar_ref(), ScalarRefImpl::String("ab"));
}

#[test]
fn erased_scalars_narrow_only_to_their_own_type() {
    let v: ScalarImpl = 5i32.into();
    assert_eq!(v, ScalarImpl::Int32(5));
    let back: Result<i32, TypeMismatch> = v.clone().try_into();
    assert_eq!(back, Ok(5));
    let other: Result<i64, TypeMismatch> = v.try_into();
    assert_eq!(other, Err(TypeMismatch));
    let s: ScalarImpl = String::from("t").into();
    let text: Result<String, TypeMismatch> = s.try_into();
    assert_eq!(text, Ok(String::from("t")));
    let r: ScalarRefImpl = "u".into();
    let str_back: Result<&str, TypeMismatch> = r.try_into();
    assert_eq!(str_back, Ok("u"));
    let not_bool: Result<bool, TypeMismatch> = r.try_into();
    assert_eq!(not_bool, Err(TypeMismatch));
}

#[test]
fn erased_scalars_compare_only_within_one_tag() {
    let a = ScalarRefImpl::Int32(1);
    let b = ScalarRefImpl::Int32(2);
    assert_eq!(a.try_compare(&b), Ok(Ordering::Less));
    assert_eq!(b.try_compare(&a), Ok(Ordering::Greater));
    assert_eq!(a.try_compare(&a), Ok(Ordering::Equal));
    let s = ScalarRefImpl::String("b");
    assert_eq!(s.try_compare(&ScalarRefImpl::String("ab")), Ok(Ordering::Greater));
    assert_eq!(ScalarRefImpl::Bool(false).try_compare(&ScalarRefImpl::Bool(true)), Ok(Ordering::Less));
    assert_eq!(ScalarRefImpl::Int64(9).try_compare(&ScalarRefImpl::Int64(9)), Ok(Ordering::Equal));
    assert_eq!(a.try_compare(&ScalarRefImpl::Int64(1)), Err(TypeMismatch));
    assert_eq!(a.try_compare(&s), Err(TypeMismatch));
}
