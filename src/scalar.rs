//! Owned scalar values and their borrowed forms.
use vstd::prelude::*;

mod dispatch;

pub use dispatch::{lemma_scalar_impl_round_trip, ScalarImpl, ScalarRefImpl, ScalarValue};

verus! {

/// The logical value of an optional scalar.
pub open spec fn opt_view<T: View>(o: Option<T>) -> Option<T::V> {
    match o {
        Some(x) => Some(x@),
        None => None,
    }
}

/// A borrowed, copy-cheap view of a scalar.
pub trait ScalarRef<'a>: View + Copy {
    /// The owned form of this reference.
    type ScalarType: View<V = <Self as View>::V>;

    /// Copies the referenced value into an owned scalar.
    fn to_owned_scalar(&self) -> (r: Self::ScalarType)
        ensures
            r@ == self@,
    ;
}

/// An owned single value, such as `i32` or `String`.
pub trait Scalar: View + Sized + 'static {
    /// The borrowed form of this scalar.
    type RefType<'a>: ScalarRef<'a, ScalarType = Self> + View<V = <Self as View>::V>;

    /// Borrows this scalar.
    fn as_scalar_ref(&self) -> (r: Self::RefType<'_>)
        ensures
            r@ == self@,
    ;
}

/// A fixed-width value that is its own borrowed form.
pub trait PrimitiveType: Copy + Default + View<V = Self> + 'static {
    /// A primitive value is its own logical value.
    proof fn lemma_view_is_value(x: Self)
        ensures
            x@ == x,
    ;
}

/// Borrowing a scalar and copying the borrowed value back gives the value it started
/// from.
pub proof fn lemma_scalar_round_trip<S: Scalar>(v: S, r: S::RefType<'_>, o: S)
    requires
        call_ensures(S::as_scalar_ref, (&v,), r),
        call_ensures(<S::RefType<'_> as ScalarRef>::to_owned_scalar, (&r,), o),
    ensures
        o@ == v@,
{
}

/// For a primitive type, borrowing a value and copying it back gives the very same
/// value.
pub proof fn lemma_primitive_round_trip<T: PrimitiveType>(v: T, r: T, o: T)
    requires
        call_ensures(T::as_scalar_ref, (&v,), r),
        call_ensures(<T as ScalarRef>::to_owned_scalar, (&r,), o),
    ensures
        o == v,
{
    T::lemma_view_is_value(v);
    T::lemma_view_is_value(o);
}

impl PrimitiveType for i32 {
    proof fn lemma_view_is_value(x: i32) {
    }
}

impl PrimitiveType for i64 {
    proof fn lemma_view_is_value(x: i64) {
    }
}

impl PrimitiveType for bool {
    proof fn lemma_view_is_value(x: bool) {
    }
}

impl<T: PrimitiveType> Scalar for T {
    type RefType<'a> = T;

    fn as_scalar_ref(&self) -> (r: T) {
        *self
    }
}

impl<'a, T: PrimitiveType> ScalarRef<'a> for T {
    type ScalarType = T;

    fn to_owned_scalar(&self) -> (r: T) {
        *self
    }
}

impl Scalar for String {
    type RefType<'a> = &'a str;

    fn as_scalar_ref(&self) -> (r: &str) {
        self.as_str()
    }
}

impl<'a> ScalarRef<'a> for &'a str {
    type ScalarType = String;

    fn to_owned_scalar(&self) -> (r: String) {
        (*self).to_owned()
    }
}

} // verus!
