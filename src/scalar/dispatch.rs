//! Scalars of every supported type behind one tagged union.
use crate::TypeMismatch;
use vstd::prelude::*;

verus! {

/// The logical value of a scalar of any supported type.
pub enum ScalarValue {
    Int32(i32),
    Int64(i64),
    Bool(bool),
    String(Seq<char>),
}

/// An owned scalar of any supported type.
#[derive(Debug, PartialEq, Clone)]
pub enum ScalarImpl {
    Int32(i32),
    Int64(i64),
    Bool(bool),
    String(String),
}

/// A borrowed scalar of any supported type.
#[derive(Debug, PartialEq, Clone, Copy)]
pub enum ScalarRefImpl<'a> {
    Int32(i32),
    Int64(i64),
    Bool(bool),
    String(&'a str),
}

impl View for ScalarImpl {
    type V = ScalarValue;

    open spec fn view(&self) -> ScalarValue {
        match self {
            ScalarImpl::Int32(v) => ScalarValue::Int32(*v),
            ScalarImpl::Int64(v) => ScalarValue::Int64(*v),
            ScalarImpl::Bool(v) => ScalarValue::Bool(*v),
            ScalarImpl::String(v) => ScalarValue::String(v@),
        }
    }
}

impl<'a> View for ScalarRefImpl<'a> {
    type V = ScalarValue;

    open spec fn view(&self) -> ScalarValue {
        match self {
            ScalarRefImpl::Int32(v) => ScalarValue::Int32(*v),
            ScalarRefImpl::Int64(v) => ScalarValue::Int64(*v),
            ScalarRefImpl::Bool(v) => ScalarValue::Bool(*v),
            ScalarRefImpl::String(v) => ScalarValue::String(v@),
        }
    }
}

impl ScalarImpl {
    /// Borrows this scalar, keeping its tag.
    pub fn as_scalar_ref(&self) -> (r: ScalarRefImpl<'_>)
        ensures
            r@ == self@,
    {
        match self {
            ScalarImpl::Int32(v) => ScalarRefImpl::Int32(*v),
            ScalarImpl::Int64(v) => ScalarRefImpl::Int64(*v),
            ScalarImpl::Bool(v) => ScalarRefImpl::Bool(*v),
            ScalarImpl::String(v) => ScalarRefImpl::String(v.as_str()),
        }
    }
}

impl<'a> ScalarRefImpl<'a> {
    /// Copies the referenced value into an owned scalar with the same tag.
    pub fn to_owned_scalar(&self) -> (r: ScalarImpl)
        ensures
            r@ == self@,
    {
        match self {
            ScalarRefImpl::Int32(v) => ScalarImpl::Int32(*v),
            ScalarRefImpl::Int64(v) => ScalarImpl::Int64(*v),
            ScalarRefImpl::Bool(v) => ScalarImpl::Bool(*v),
            ScalarRefImpl::String(v) => ScalarImpl::String((*v).to_owned()),
        }
    }
}

impl From<i32> for ScalarImpl {
    fn from(v: i32) -> (r: ScalarImpl) {
        ScalarImpl::Int32(v)
    }
}

impl vstd::std_specs::convert::FromSpecImpl<i32> for ScalarImpl {
    open spec fn obeys_from_spec() -> bool {
        true
    }

    open spec fn from_spec(v: i32) -> ScalarImpl {
        ScalarImpl::Int32(v)
    }
}

impl TryFrom<ScalarImpl> for i32 {
    type Error = TypeMismatch;

    fn try_from(v: ScalarImpl) -> (r: Result<i32, TypeMismatch>) {
        match v {
            ScalarImpl::Int32(x) => Ok(x),
            _ => Err(TypeMismatch),
        }
    }
}

impl vstd::std_specs::convert::TryFromSpecImpl<ScalarImpl> for i32 {
    open spec fn obeys_try_from_spec() -> bool {
        true
    }

    open spec fn try_from_spec(v: ScalarImpl) -> Result<i32, TypeMismatch> {
        match v {
            ScalarImpl::Int32(x) => Ok(x),
            _ => Err(TypeMismatch),
        }
    }
}

impl<'a> From<i32> for ScalarRefImpl<'a> {
    fn from(v: i32) -> (r: ScalarRefImpl<'a>) {
        ScalarRefImpl::Int32(v)
    }
}

impl<'a> vstd::std_specs::convert::FromSpecImpl<i32> for ScalarRefImpl<'a> {
    open spec fn obeys_from_spec() -> bool {
        true
    }

    open spec fn from_spec(v: i32) -> ScalarRefImpl<'a> {
        ScalarRefImpl::Int32(v)
    }
}

impl<'a> TryFrom<ScalarRefImpl<'a>> for i32 {
    type Error = TypeMismatch;

    fn try_from(v: ScalarRefImpl<'a>) -> (r: Result<i32, TypeMismatch>) {
        match v {
            ScalarRefImpl::Int32(x) => Ok(x),
            _ => Err(TypeMismatch),
        }
    }
}

impl<'a> vstd::std_specs::convert::TryFromSpecImpl<ScalarRefImpl<'a>> for i32 {
    open spec fn obeys_try_from_spec() -> bool {
        true
    }

    open spec fn try_from_spec(v: ScalarRefImpl<'a>) -> Result<i32, TypeMismatch> {
        match v {
            ScalarRefImpl::Int32(x) => Ok(x),
            _ => Err(TypeMismatch),
        }
    }
}

impl From<i64> for ScalarImpl {
    fn from(v: i64) -> (r: ScalarImpl) {
        ScalarImpl::Int64(v)
    }
}

impl vstd::std_specs::convert::FromSpecImpl<i64> for ScalarImpl {
    open spec fn obeys_from_spec() -> bool {
        true
    }

    open spec fn from_spec(v: i64) -> ScalarImpl {
        ScalarImpl::Int64(v)
    }
}

impl TryFrom<ScalarImpl> for i64 {
    type Error = TypeMismatch;

    fn try_from(v: ScalarImpl) -> (r: Result<i64, TypeMismatch>) {
        match v {
            ScalarImpl::Int64(x) => Ok(x),
            _ => Err(TypeMismatch),
        }
    }
}

impl vstd::std_specs::convert::TryFromSpecImpl<ScalarImpl> for i64 {
    open spec fn obeys_try_from_spec() -> bool {
        true
    }

    open spec fn try_from_spec(v: ScalarImpl) -> Result<i64, TypeMismatch> {
        match v {
            ScalarImpl::Int64(x) => Ok(x),
            _ => Err(TypeMismatch),
        }
    }
}

impl<'a> From<i64> for ScalarRefImpl<'a> {
    fn from(v: i64) -> (r: ScalarRefImpl<'a>) {
        ScalarRefImpl::Int64(v)
    }
}

impl<'a> vstd::std_specs::convert::FromSpecImpl<i64> for ScalarRefImpl<'a> {
    open spec fn obeys_from_spec() -> bool {
        true
    }

    open spec fn from_spec(v: i64) -> ScalarRefImpl<'a> {
        ScalarRefImpl::Int64(v)
    }
}

impl<'a> TryFrom<ScalarRefImpl<'a>> for i64 {
    type Error = TypeMismatch;

    fn try_from(v: ScalarRefImpl<'a>) -> (r: Result<i64, TypeMismatch>) {
        match v {
            ScalarRefImpl::Int64(x) => Ok(x),
            _ => Err(TypeMismatch),
        }
    }
}

impl<'a> vstd::std_specs::convert::TryFromSpecImpl<ScalarRefImpl<'a>> for i64 {
    open spec fn obeys_try_from_spec() -> bool {
        true
    }

    open spec fn try_from_spec(v: ScalarRefImpl<'a>) -> Result<i64, TypeMismatch> {
        match v {
            ScalarRefImpl::Int64(x) => Ok(x),
            _ => Err(TypeMismatch),
        }
    }
}

impl From<bool> for ScalarImpl {
    fn from(v: bool) -> (r: ScalarImpl) {
        ScalarImpl::Bool(v)
    }
}

impl vstd::std_specs::convert::FromSpecImpl<bool> for ScalarImpl {
    open spec fn obeys_from_spec() -> bool {
        true
    }

    open spec fn from_spec(v: bool) -> ScalarImpl {
        ScalarImpl::Bool(v)
    }
}

impl TryFrom<ScalarImpl> for bool {
    type Error = TypeMismatch;

    fn try_from(v: ScalarImpl) -> (r: Result<bool, TypeMismatch>) {
        match v {
            ScalarImpl::Bool(x) => Ok(x),
            _ => Err(TypeMismatch),
        }
    }
}

impl vstd::std_specs::convert::TryFromSpecImpl<ScalarImpl> for bool {
    open spec fn obeys_try_from_spec() -> bool {
        true
    }

    open spec fn try_from_spec(v: ScalarImpl) -> Result<bool, TypeMismatch> {
        match v {
            ScalarImpl::Bool(x) => Ok(x),
            _ => Err(TypeMismatch),
        }
    }
}

impl<'a> From<bool> for ScalarRefImpl<'a> {
    fn from(v: bool) -> (r: ScalarRefImpl<'a>) {
        ScalarRefImpl::Bool(v)
    }
}

impl<'a> vstd::std_specs::convert::FromSpecImpl<bool> for ScalarRefImpl<'a> {
    open spec fn obeys_from_spec() -> bool {
        true
    }

    open spec fn from_spec(v: bool) -> ScalarRefImpl<'a> {
        ScalarRefImpl::Bool(v)
    }
}

impl<'a> TryFrom<ScalarRefImpl<'a>> for bool {
    type Error = TypeMismatch;

    fn try_from(v: ScalarRefImpl<'a>) -> (r: Result<bool, TypeMismatch>) {
        match v {
            ScalarRefImpl::Bool(x) => Ok(x),
            _ => Err(TypeMismatch),
        }
    }
}

impl<'a> vstd::std_specs::convert::TryFromSpecImpl<ScalarRefImpl<'a>> for bool {
    open spec fn obeys_try_from_spec() -> bool {
        true
    }

    open spec fn try_from_spec(v: ScalarRefImpl<'a>) -> Result<bool, TypeMismatch> {
        match v {
            ScalarRefImpl::Bool(x) => Ok(x),
            _ => Err(TypeMismatch),
        }
    }
}

impl From<String> for ScalarImpl {
    fn from(v: String) -> (r: ScalarImpl) {
        ScalarImpl::String(v)
    }
}

impl vstd::std_specs::convert::FromSpecImpl<String> for ScalarImpl {
    open spec fn obeys_from_spec() -> bool {
        true
    }

    open spec fn from_spec(v: String) -> ScalarImpl {
        ScalarImpl::String(v)
    }
}

impl TryFrom<ScalarImpl> for String {
    type Error = TypeMismatch;

    fn try_from(v: ScalarImpl) -> (r: Result<String, TypeMismatch>) {
        match v {
            ScalarImpl::String(x) => Ok(x),
            _ => Err(TypeMismatch),
        }
    }
}

impl vstd::std_specs::convert::TryFromSpecImpl<ScalarImpl> for String {
    open spec fn obeys_try_from_spec() -> bool {
        true
    }

    open spec fn try_from_spec(v: ScalarImpl) -> Result<String, TypeMismatch> {
        match v {
            ScalarImpl::String(x) => Ok(x),
            _ => Err(TypeMismatch),
        }
    }
}

impl<'a> From<&'a str> for ScalarRefImpl<'a> {
    fn from(v: &'a str) -> (r: ScalarRefImpl<'a>) {
        ScalarRefImpl::String(v)
    }
}

impl<'a> vstd::std_specs::convert::FromSpecImpl<&'a str> for ScalarRefImpl<'a> {
    open spec fn obeys_from_spec() -> bool {
        true
    }

    open spec fn from_spec(v: &'a str) -> ScalarRefImpl<'a> {
        ScalarRefImpl::String(v)
    }
}

impl<'a> TryFrom<ScalarRefImpl<'a>> for &'a str {
    type Error = TypeMismatch;

    fn try_from(v: ScalarRefImpl<'a>) -> (r: Result<&'a str, TypeMismatch>) {
        match v {
            ScalarRefImpl::String(x) => Ok(x),
            _ => Err(TypeMismatch),
        }
    }
}

impl<'a> vstd::std_specs::convert::TryFromSpecImpl<ScalarRefImpl<'a>> for &'a str {
    open spec fn obeys_try_from_spec() -> bool {
        true
    }

    open spec fn try_from_spec(v: ScalarRefImpl<'a>) -> Result<&'a str, TypeMismatch> {
        match v {
            ScalarRefImpl::String(x) => Ok(x),
            _ => Err(TypeMismatch),
        }
    }
}

/// Borrowing an erased scalar and copying it back gives the value it started from,
/// with the same tag.
pub proof fn lemma_scalar_impl_round_trip(v: ScalarImpl, r: ScalarRefImpl<'_>, o: ScalarImpl)
    requires
        call_ensures(ScalarImpl::as_scalar_ref, (&v,), r),
        call_ensures(ScalarRefImpl::to_owned_scalar, (&r,), o),
    ensures
        o@ == v@,
{
}

} // verus!
