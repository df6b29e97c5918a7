//! Ordering and equality comparisons, written once over a comparison domain into
//! which both operand types convert.
use crate::scalar::{Scalar, ScalarRefImpl, ScalarValue};
use crate::TypeMismatch;
use core::cmp::Ordering;
use vstd::prelude::*;
use vstd::string::StringSliceAdditionalSpecFns;
use vstd::utf8::{encode_utf8, encode_utf8_decode_utf8};

verus! {

/// Lexicographic order of two byte strings: the first differing byte decides, and a
/// proper prefix comes first.
pub open spec fn lex_cmp(a: Seq<u8>, b: Seq<u8>) -> Ordering
    decreases a.len(),
{
    if a.len() == 0 {
        if b.len() == 0 {
            Ordering::Equal
        } else {
            Ordering::Less
        }
    } else if b.len() == 0 {
        Ordering::Greater
    } else if a[0] < b[0] {
        Ordering::Less
    } else if a[0] > b[0] {
        Ordering::Greater
    } else {
        lex_cmp(a.drop_first(), b.drop_first())
    }
}

/// Two byte strings are lexicographically equal exactly when they are the same.
pub proof fn lemma_lex_cmp_equal(a: Seq<u8>, b: Seq<u8>)
    ensures
        (lex_cmp(a, b) == Ordering::Equal) == (a == b),
    decreases a.len(),
{
    if a.len() > 0 && b.len() > 0 && a[0] == b[0] {
        lemma_lex_cmp_equal(a.drop_first(), b.drop_first());
        if a.drop_first() == b.drop_first() {
            assert(a =~= seq![a[0]] + a.drop_first());
            assert(b =~= seq![b[0]] + b.drop_first());
        }
    } else if a.len() > 0 && b.len() > 0 {
        assert(a[0] != b[0]);
    } else if a.len() == 0 && b.len() != 0 {
        assert(a != b);
    } else if a.len() != 0 && b.len() == 0 {
        assert(a != b);
    } else {
        assert(a =~= b);
    }
}

/// Compares two byte strings lexicographically.
fn compare_bytes(a: &[u8], b: &[u8]) -> (r: Ordering)
    ensures
        r == lex_cmp(a@, b@),
{
    let mut i: usize = 0;
    assert(a@.skip(0) =~= a@);
    assert(b@.skip(0) =~= b@);
    while i < a.len() && i < b.len()
        invariant
            i <= a@.len(),
            i <= b@.len(),
            lex_cmp(a@, b@) == lex_cmp(a@.skip(i as int), b@.skip(i as int)),
        decreases a@.len() - i,
    {
        if a[i] < b[i] {
            return Ordering::Less;
        }
        if a[i] > b[i] {
            return Ordering::Greater;
        }
        assert(a@.skip(i as int).drop_first() =~= a@.skip(i + 1));
        assert(b@.skip(i as int).drop_first() =~= b@.skip(i + 1));
        i = i + 1;
    }
    if i < a.len() {
        Ordering::Greater
    } else if i < b.len() {
        Ordering::Less
    } else {
        Ordering::Equal
    }
}

/// A scalar type whose values are totally ordered: the domain in which two values
/// are compared.
pub trait ComparableScalar: Scalar {
    /// The order of two values.
    spec fn spec_compare(a: Self::V, b: Self::V) -> Ordering;

    /// Two values compare `Equal` exactly when they are the same value.
    proof fn lemma_compare_equal(a: Self::V, b: Self::V)
        ensures
            (Self::spec_compare(a, b) == Ordering::Equal) == (a == b),
    ;

    /// Compares two borrowed values.
    fn compare(a: Self::RefType<'_>, b: Self::RefType<'_>) -> (r: Ordering)
        ensures
            r == Self::spec_compare(a@, b@),
    ;
}

/// The order of two integers.
pub open spec fn int_cmp(a: int, b: int) -> Ordering {
    if a < b {
        Ordering::Less
    } else if a > b {
        Ordering::Greater
    } else {
        Ordering::Equal
    }
}

impl ComparableScalar for i32 {
    open spec fn spec_compare(a: i32, b: i32) -> Ordering {
        int_cmp(a as int, b as int)
    }

    proof fn lemma_compare_equal(a: i32, b: i32) {
    }

    fn compare(a: i32, b: i32) -> (r: Ordering) {
        if a < b {
            Ordering::Less
        } else if a > b {
            Ordering::Greater
        } else {
            Ordering::Equal
        }
    }
}

impl ComparableScalar for i64 {
    open spec fn spec_compare(a: i64, b: i64) -> Ordering {
        int_cmp(a as int, b as int)
    }

    proof fn lemma_compare_equal(a: i64, b: i64) {
    }

    fn compare(a: i64, b: i64) -> (r: Ordering) {
        if a < b {
            Ordering::Less
        } else if a > b {
            Ordering::Greater
        } else {
            Ordering::Equal
        }
    }
}

impl ComparableScalar for bool {
    /// `false` comes before `true`.
    open spec fn spec_compare(a: bool, b: bool) -> Ordering {
        if a == b {
            Ordering::Equal
        } else if !a {
            Ordering::Less
        } else {
            Ordering::Greater
        }
    }

    proof fn lemma_compare_equal(a: bool, b: bool) {
    }

    fn compare(a: bool, b: bool) -> (r: Ordering) {
        if a == b {
            Ordering::Equal
        } else if !a {
            Ordering::Less
        } else {
            Ordering::Greater
        }
    }
}

impl ComparableScalar for String {
    /// Text is ordered by its UTF-8 bytes.
    open spec fn spec_compare(a: Seq<char>, b: Seq<char>) -> Ordering {
        lex_cmp(encode_utf8(a), encode_utf8(b))
    }

    proof fn lemma_compare_equal(a: Seq<char>, b: Seq<char>) {
        lemma_lex_cmp_equal(encode_utf8(a), encode_utf8(b));
        encode_utf8_decode_utf8(a);
        encode_utf8_decode_utf8(b);
    }

    fn compare(a: &str, b: &str) -> (r: Ordering) {
        compare_bytes(a.as_bytes(), b.as_bytes())
    }
}

/// A scalar type whose values convert into the comparison domain `C`; each impl is
/// one entry of the table of allowed conversions.
pub trait IntoComparable<C: ComparableScalar>: Scalar {
    /// The converted value.
    spec fn spec_convert(v: Self::V) -> C::V;

    /// Converts a borrowed value into the domain.
    fn convert<'a>(v: Self::RefType<'a>) -> (r: C::RefType<'a>)
        ensures
            r@ == Self::spec_convert(v@),
    ;
}

impl IntoComparable<i32> for i32 {
    open spec fn spec_convert(v: i32) -> i32 {
        v
    }

    fn convert<'a>(v: Self::RefType<'a>) -> (r: <i32 as Scalar>::RefType<'a>) {
        v
    }
}

impl IntoComparable<i64> for i32 {
    open spec fn spec_convert(v: i32) -> i64 {
        v as i64
    }

    fn convert<'a>(v: Self::RefType<'a>) -> (r: <i64 as Scalar>::RefType<'a>) {
        v as i64
    }
}

impl IntoComparable<i64> for i64 {
    open spec fn spec_convert(v: i64) -> i64 {
        v
    }

    fn convert<'a>(v: Self::RefType<'a>) -> (r: <i64 as Scalar>::RefType<'a>) {
        v
    }
}

impl IntoComparable<bool> for bool {
    open spec fn spec_convert(v: bool) -> bool {
        v
    }

    fn convert<'a>(v: Self::RefType<'a>) -> (r: <bool as Scalar>::RefType<'a>) {
        v
    }
}

impl IntoComparable<String> for String {
    open spec fn spec_convert(v: Seq<char>) -> Seq<char> {
        v
    }

    fn convert<'a>(v: Self::RefType<'a>) -> (r: <String as Scalar>::RefType<'a>) {
        v
    }
}

/// The order of two values once both are converted into the domain `C`.
pub open spec fn compare_in<I1: IntoComparable<C>, I2: IntoComparable<C>, C: ComparableScalar>(
    a: I1::V,
    b: I2::V,
) -> Ordering {
    C::spec_compare(I1::spec_convert(a), I2::spec_convert(b))
}

/// Whether `i1 < i2` in the domain `C`.
pub fn cmp_lt<I1: IntoComparable<C>, I2: IntoComparable<C>, C: ComparableScalar>(
    i1: I1::RefType<'_>,
    i2: I2::RefType<'_>,
) -> (r: bool)
    ensures
        r == (compare_in::<I1, I2, C>(i1@, i2@) == Ordering::Less),
{
    let c1 = I1::convert(i1);
    let c2 = I2::convert(i2);
    match C::compare(c1, c2) {
        Ordering::Less => true,
        _ => false,
    }
}

/// Whether `i1 <= i2` in the domain `C`.
pub fn cmp_le<I1: IntoComparable<C>, I2: IntoComparable<C>, C: ComparableScalar>(
    i1: I1::RefType<'_>,
    i2: I2::RefType<'_>,
) -> (r: bool)
    ensures
        r == (compare_in::<I1, I2, C>(i1@, i2@) != Ordering::Greater),
{
    let c1 = I1::convert(i1);
    let c2 = I2::convert(i2);
    match C::compare(c1, c2) {
        Ordering::Greater => false,
        _ => true,
    }
}

/// Whether `i1 > i2` in the domain `C`.
pub fn cmp_gt<I1: IntoComparable<C>, I2: IntoComparable<C>, C: ComparableScalar>(
    i1: I1::RefType<'_>,
    i2: I2::RefType<'_>,
) -> (r: bool)
    ensures
        r == (compare_in::<I1, I2, C>(i1@, i2@) == Ordering::Greater),
{
    let c1 = I1::convert(i1);
    let c2 = I2::convert(i2);
    match C::compare(c1, c2) {
        Ordering::Greater => true,
        _ => false,
    }
}

/// Whether `i1 >= i2` in the domain `C`.
pub fn cmp_ge<I1: IntoComparable<C>, I2: IntoComparable<C>, C: ComparableScalar>(
    i1: I1::RefType<'_>,
    i2: I2::RefType<'_>,
) -> (r: bool)
    ensures
        r == (compare_in::<I1, I2, C>(i1@, i2@) != Ordering::Less),
{
    let c1 = I1::convert(i1);
    let c2 = I2::convert(i2);
    match C::compare(c1, c2) {
        Ordering::Less => false,
        _ => true,
    }
}

/// Whether `i1 == i2` in the domain `C`.
pub fn cmp_eq<I1: IntoComparable<C>, I2: IntoComparable<C>, C: ComparableScalar>(
    i1: I1::RefType<'_>,
    i2: I2::RefType<'_>,
) -> (r: bool)
    ensures
        r == (I1::spec_convert(i1@) == I2::spec_convert(i2@)),
{
    let c1 = I1::convert(i1);
    let c2 = I2::convert(i2);
    proof {
        C::lemma_compare_equal(c1@, c2@);
    }
    match C::compare(c1, c2) {
        Ordering::Equal => true,
        _ => false,
    }
}

/// Whether `i1 != i2` in the domain `C`.
pub fn cmp_ne<I1: IntoComparable<C>, I2: IntoComparable<C>, C: ComparableScalar>(
    i1: I1::RefType<'_>,
    i2: I2::RefType<'_>,
) -> (r: bool)
    ensures
        r == (I1::spec_convert(i1@) != I2::spec_convert(i2@)),
{
    let c1 = I1::convert(i1);
    let c2 = I2::convert(i2);
    proof {
        C::lemma_compare_equal(c1@, c2@);
    }
    match C::compare(c1, c2) {
        Ordering::Equal => false,
        _ => true,
    }
}

/// The order of two erased values of one tag, each compared in its own type.
pub open spec fn scalar_value_cmp(a: ScalarValue, b: ScalarValue) -> Option<Ordering> {
    match (a, b) {
        (ScalarValue::Int32(x), ScalarValue::Int32(y)) => Some(<i32 as ComparableScalar>::spec_compare(x, y)),
        (ScalarValue::Int64(x), ScalarValue::Int64(y)) => Some(<i64 as ComparableScalar>::spec_compare(x, y)),
        (ScalarValue::Bool(x), ScalarValue::Bool(y)) => Some(<bool as ComparableScalar>::spec_compare(x, y)),
        (ScalarValue::String(x), ScalarValue::String(y)) => Some(<String as ComparableScalar>::spec_compare(x, y)),
        _ => None,
    }
}

impl<'a> ScalarRefImpl<'a> {
    /// Compares two erased values of the same tag; values of different tags are not
    /// comparable.
    pub fn try_compare(&self, other: &ScalarRefImpl<'_>) -> (r: Result<Ordering, TypeMismatch>)
        ensures
            match scalar_value_cmp(self@, other@) {
                Some(o) => r == Ok::<Ordering, TypeMismatch>(o),
                None => r == Err::<Ordering, TypeMismatch>(TypeMismatch),
            },
    {
        match (self, other) {
            (ScalarRefImpl::Int32(x), ScalarRefImpl::Int32(y)) => Ok(i32::compare(*x, *y)),
            (ScalarRefImpl::Int64(x), ScalarRefImpl::Int64(y)) => Ok(i64::compare(*x, *y)),
            (ScalarRefImpl::Bool(x), ScalarRefImpl::Bool(y)) => Ok(bool::compare(*x, *y)),
            (ScalarRefImpl::String(x), ScalarRefImpl::String(y)) => Ok(String::compare(*x, *y)),
            _ => Err(TypeMismatch),
        }
    }
}

} // verus!
