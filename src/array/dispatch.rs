//! Columns and builders of every supported type behind one tagged union, and the
//! narrowing from the union back to a concrete column type.
use crate::array::{
    Array, ArrayBuilder, BoolArray, BoolArrayBuilder, I32Array, I32ArrayBuilder, I64Array,
    I64ArrayBuilder, StringArray, StringArrayBuilder, WellFormed,
};
use crate::bitmap::MAX_BITS;
use crate::scalar::{opt_view, ScalarRefImpl, ScalarValue};
use crate::TypeMismatch;
use vstd::prelude::*;

verus! {

/// The logical type of a column or scalar: the tag of the tagged unions.
#[derive(Debug, Clone, Copy, PartialEq, Eq, Structural)]
pub enum DataType {
    Int32,
    Int64,
    Bool,
    String,
}

impl ScalarValue {
    /// The tag of this value.
    pub open spec fn data_type(self) -> DataType {
        match self {
            ScalarValue::Int32(_) => DataType::Int32,
            ScalarValue::Int64(_) => DataType::Int64,
            ScalarValue::Bool(_) => DataType::Bool,
            ScalarValue::String(_) => DataType::String,
        }
    }
}

/// The slots of a typed column, each present value tagged by `tag`.
pub open spec fn erase_slots<V>(s: Seq<Option<V>>, tag: spec_fn(V) -> ScalarValue) -> Seq<
    Option<ScalarValue>,
> {
    s.map_values(
        |x: Option<V>|
            match x {
                Some(v) => Some(tag(v)),
                None => None,
            },
    )
}

/// A column of any supported type.
pub enum ArrayImpl {
    Int32(I32Array),
    Int64(I64Array),
    Bool(BoolArray),
    String(StringArray),
}

/// A builder of any supported column type.
pub enum ArrayBuilderImpl {
    Int32(I32ArrayBuilder),
    Int64(I64ArrayBuilder),
    Bool(BoolArrayBuilder),
    String(StringArrayBuilder),
}

impl ArrayImpl {
    /// The tag of the wrapped column.
    pub open spec fn data_type(&self) -> DataType {
        match self {
            ArrayImpl::Int32(_) => DataType::Int32,
            ArrayImpl::Int64(_) => DataType::Int64,
            ArrayImpl::Bool(_) => DataType::Bool,
            ArrayImpl::String(_) => DataType::String,
        }
    }
}

impl WellFormed for ArrayImpl {
    open spec fn well_formed(&self) -> bool {
        match self {
            ArrayImpl::Int32(a) => a.well_formed(),
            ArrayImpl::Int64(a) => a.well_formed(),
            ArrayImpl::Bool(a) => a.well_formed(),
            ArrayImpl::String(a) => a.well_formed(),
        }
    }
}

impl View for ArrayImpl {
    type V = Seq<Option<ScalarValue>>;

    open spec fn view(&self) -> Seq<Option<ScalarValue>> {
        match self {
            ArrayImpl::Int32(a) => erase_slots(a@, |v: i32| ScalarValue::Int32(v)),
            ArrayImpl::Int64(a) => erase_slots(a@, |v: i64| ScalarValue::Int64(v)),
            ArrayImpl::Bool(a) => erase_slots(a@, |v: bool| ScalarValue::Bool(v)),
            ArrayImpl::String(a) => erase_slots(a@, |v: Seq<char>| ScalarValue::String(v)),
        }
    }
}

impl ArrayImpl {
    /// The value at `idx`, tagged like the column, or `None` where the slot is null.
    pub fn get(&self, idx: usize) -> (r: Option<ScalarRefImpl<'_>>)
        requires
            self.well_formed(),
            idx < self@.len(),
        ensures
            opt_view(r) == self@[idx as int],
    {
        match self {
            ArrayImpl::Int32(a) => match a.get(idx) {
                Some(v) => Some(ScalarRefImpl::Int32(v)),
                None => None,
            },
            ArrayImpl::Int64(a) => match a.get(idx) {
                Some(v) => Some(ScalarRefImpl::Int64(v)),
                None => None,
            },
            ArrayImpl::Bool(a) => match a.get(idx) {
                Some(v) => Some(ScalarRefImpl::Bool(v)),
                None => None,
            },
            ArrayImpl::String(a) => match a.get(idx) {
                Some(v) => Some(ScalarRefImpl::String(v)),
                None => None,
            },
        }
    }

    /// Number of slots of the wrapped column.
    pub fn len(&self) -> (r: usize)
        requires
            self.well_formed(),
        ensures
            r == self@.len(),
    {
        match self {
            ArrayImpl::Int32(a) => a.len(),
            ArrayImpl::Int64(a) => a.len(),
            ArrayImpl::Bool(a) => a.len(),
            ArrayImpl::String(a) => a.len(),
        }
    }

    /// Whether the wrapped column has no slot.
    pub fn is_empty(&self) -> (r: bool)
        requires
            self.well_formed(),
        ensures
            r == (self@.len() == 0),
    {
        self.len() == 0
    }
}

impl ArrayBuilderImpl {
    /// The tag of the wrapped builder.
    pub open spec fn data_type(&self) -> DataType {
        match self {
            ArrayBuilderImpl::Int32(_) => DataType::Int32,
            ArrayBuilderImpl::Int64(_) => DataType::Int64,
            ArrayBuilderImpl::Bool(_) => DataType::Bool,
            ArrayBuilderImpl::String(_) => DataType::String,
        }
    }
}

impl WellFormed for ArrayBuilderImpl {
    open spec fn well_formed(&self) -> bool {
        match self {
            ArrayBuilderImpl::Int32(b) => b.well_formed(),
            ArrayBuilderImpl::Int64(b) => b.well_formed(),
            ArrayBuilderImpl::Bool(b) => b.well_formed(),
            ArrayBuilderImpl::String(b) => b.well_formed(),
        }
    }
}

impl View for ArrayBuilderImpl {
    type V = Seq<Option<ScalarValue>>;

    /// The slots pushed so far.
    open spec fn view(&self) -> Seq<Option<ScalarValue>> {
        match self {
            ArrayBuilderImpl::Int32(b) => erase_slots(b.contents(), |v: i32| ScalarValue::Int32(v)),
            ArrayBuilderImpl::Int64(b) => erase_slots(b.contents(), |v: i64| ScalarValue::Int64(v)),
            ArrayBuilderImpl::Bool(b) => erase_slots(b.contents(), |v: bool| ScalarValue::Bool(v)),
            ArrayBuilderImpl::String(b) => erase_slots(
                b.contents(),
                |v: Seq<char>| ScalarValue::String(v),
            ),
        }
    }
}

impl ArrayBuilderImpl {
    /// Appends one slot. A present value must carry the builder's own tag: a value of
    /// another type is a contract violation, never coerced or dropped.
    pub fn push(&mut self, value: Option<ScalarRefImpl<'_>>)
        requires
            old(self).well_formed(),
            old(self)@.len() < MAX_BITS,
            value matches Some(v) ==> v@.data_type() == old(self).data_type(),
        ensures
            final(self).well_formed(),
            final(self).data_type() == old(self).data_type(),
            final(self)@ == old(self)@.push(opt_view(value)),
    {
        let ghost before = self@;
        match self {
            ArrayBuilderImpl::Int32(b) => {
                proof { assert(before.len() == b.contents().len()); }
                match value {
                    Some(ScalarRefImpl::Int32(v)) => b.push(Some(v)),
                    _ => b.push(None),
                }
            },
            ArrayBuilderImpl::Int64(b) => {
                proof { assert(before.len() == b.contents().len()); }
                match value {
                    Some(ScalarRefImpl::Int64(v)) => b.push(Some(v)),
                    _ => b.push(None),
                }
            },
            ArrayBuilderImpl::Bool(b) => {
                proof { assert(before.len() == b.contents().len()); }
                match value {
                    Some(ScalarRefImpl::Bool(v)) => b.push(Some(v)),
                    _ => b.push(None),
                }
            },
            ArrayBuilderImpl::String(b) => {
                proof { assert(before.len() == b.contents().len()); }
                match value {
                    Some(ScalarRefImpl::String(v)) => b.push(Some(v)),
                    _ => b.push(None),
                }
            },
        }
        assert(self@ =~= before.push(opt_view(value)));
    }

    /// Consumes the builder and yields the column, with the same tag.
    pub fn finish(self) -> (r: ArrayImpl)
        requires
            self.well_formed(),
        ensures
            r.well_formed(),
            r.data_type() == self.data_type(),
            r@ == self@,
    {
        match self {
            ArrayBuilderImpl::Int32(b) => ArrayImpl::Int32(b.finish()),
            ArrayBuilderImpl::Int64(b) => ArrayImpl::Int64(b.finish()),
            ArrayBuilderImpl::Bool(b) => ArrayImpl::Bool(b.finish()),
            ArrayBuilderImpl::String(b) => ArrayImpl::String(b.finish()),
        }
    }
}

/// Narrowing a wrapped column to a column type with another tag fails, and
/// narrowing it to its own type gives back the very column that was wrapped.
pub proof fn lemma_narrow_wrapped<A: TypedArray, B: TypedArray>(a: A)
    ensures
        A::data_type() != B::data_type() ==> B::spec_narrow(a.spec_wrap()) is None,
        A::spec_narrow(a.spec_wrap()) == Some(a),
{
    A::lemma_wrap(a);
    B::lemma_narrow(a.spec_wrap());
}

/// A concrete column type that has its own arm in `ArrayImpl`: wrapping into the
/// union is total, narrowing back is fallible.
pub trait TypedArray: Array {
    /// The tag of this column type.
    spec fn data_type() -> DataType;

    /// The union that wrapping yields.
    spec fn spec_wrap(self) -> ArrayImpl;

    /// The column that narrowing yields, or `None` where the tag is another.
    spec fn spec_narrow(a: ArrayImpl) -> Option<Self>;

    /// Wrapping tags the column with its type and keeps it whole.
    proof fn lemma_wrap(x: Self)
        ensures
            x.spec_wrap().data_type() == Self::data_type(),
            x.spec_wrap().well_formed() == x.well_formed(),
            x.spec_wrap()@.len() == x@.len(),
            forall|k: int|
                0 <= k < x@.len() ==> (#[trigger] x.spec_wrap()@[k] is None) == (x@[k] is None),
            Self::spec_narrow(x.spec_wrap()) == Some(x),
    ;

    /// Narrowing succeeds exactly on the own tag, and undoes wrapping.
    proof fn lemma_narrow(a: ArrayImpl)
        ensures
            Self::spec_narrow(a) is Some <==> a.data_type() == Self::data_type(),
            Self::spec_narrow(a) matches Some(x) ==> x.spec_wrap() == a,
    ;

    /// Wraps the column into the union.
    fn into_array_impl(self) -> (r: ArrayImpl)
        ensures
            r == self.spec_wrap(),
    ;

    /// Moves the column out of the union, or fails where the tag is another.
    fn try_from_array_impl(a: ArrayImpl) -> (r: Result<Self, TypeMismatch>)
        ensures
            match Self::spec_narrow(a) {
                Some(x) => r == Ok::<Self, TypeMismatch>(x),
                None => r == Err::<Self, TypeMismatch>(TypeMismatch),
            },
    ;

    /// Borrows the column inside the union, or fails where the tag is another.
    fn try_from_array_impl_ref(a: &ArrayImpl) -> (r: Result<&Self, TypeMismatch>)
        ensures
            match Self::spec_narrow(*a) {
                Some(x) => r matches Ok(y) && *y == x,
                None => r == Err::<&Self, TypeMismatch>(TypeMismatch),
            },
    ;
}

impl TypedArray for I32Array {
    open spec fn data_type() -> DataType {
        DataType::Int32
    }

    open spec fn spec_wrap(self) -> ArrayImpl {
        ArrayImpl::Int32(self)
    }

    open spec fn spec_narrow(a: ArrayImpl) -> Option<Self> {
        match a {
            ArrayImpl::Int32(x) => Some(x),
            _ => None,
        }
    }

    proof fn lemma_wrap(x: Self) {
    }

    proof fn lemma_narrow(a: ArrayImpl) {
    }

    fn into_array_impl(self) -> (r: ArrayImpl) {
        ArrayImpl::Int32(self)
    }

    fn try_from_array_impl(a: ArrayImpl) -> (r: Result<Self, TypeMismatch>) {
        match a {
            ArrayImpl::Int32(x) => Ok(x),
            _ => Err(TypeMismatch),
        }
    }

    fn try_from_array_impl_ref(a: &ArrayImpl) -> (r: Result<&Self, TypeMismatch>) {
        match a {
            ArrayImpl::Int32(x) => Ok(x),
            _ => Err(TypeMismatch),
        }
    }
}

impl From<I32Array> for ArrayImpl {
    fn from(a: I32Array) -> (r: ArrayImpl) {
        ArrayImpl::Int32(a)
    }
}

impl vstd::std_specs::convert::FromSpecImpl<I32Array> for ArrayImpl {
    open spec fn obeys_from_spec() -> bool {
        true
    }

    open spec fn from_spec(a: I32Array) -> ArrayImpl {
        ArrayImpl::Int32(a)
    }
}

impl TryFrom<ArrayImpl> for I32Array {
    type Error = TypeMismatch;

    fn try_from(a: ArrayImpl) -> (r: Result<I32Array, TypeMismatch>) {
        I32Array::try_from_array_impl(a)
    }
}

impl vstd::std_specs::convert::TryFromSpecImpl<ArrayImpl> for I32Array {
    open spec fn obeys_try_from_spec() -> bool {
        true
    }

    open spec fn try_from_spec(a: ArrayImpl) -> Result<I32Array, TypeMismatch> {
        match a {
            ArrayImpl::Int32(x) => Ok(x),
            _ => Err(TypeMismatch),
        }
    }
}

impl<'a> TryFrom<&'a ArrayImpl> for &'a I32Array {
    type Error = TypeMismatch;

    fn try_from(a: &'a ArrayImpl) -> (r: Result<&'a I32Array, TypeMismatch>) {
        I32Array::try_from_array_impl_ref(a)
    }
}

impl<'a> vstd::std_specs::convert::TryFromSpecImpl<&'a ArrayImpl> for &'a I32Array {
    open spec fn obeys_try_from_spec() -> bool {
        true
    }

    open spec fn try_from_spec(a: &'a ArrayImpl) -> Result<&'a I32Array, TypeMismatch> {
        match a {
            ArrayImpl::Int32(x) => Ok(x),
            _ => Err(TypeMismatch),
        }
    }
}

impl From<I32ArrayBuilder> for ArrayBuilderImpl {
    fn from(b: I32ArrayBuilder) -> (r: ArrayBuilderImpl) {
        ArrayBuilderImpl::Int32(b)
    }
}

impl vstd::std_specs::convert::FromSpecImpl<I32ArrayBuilder> for ArrayBuilderImpl {
    open spec fn obeys_from_spec() -> bool {
        true
    }

    open spec fn from_spec(b: I32ArrayBuilder) -> ArrayBuilderImpl {
        ArrayBuilderImpl::Int32(b)
    }
}

impl TryFrom<ArrayBuilderImpl> for I32ArrayBuilder {
    type Error = TypeMismatch;

    fn try_from(b: ArrayBuilderImpl) -> (r: Result<I32ArrayBuilder, TypeMismatch>) {
        match b {
            ArrayBuilderImpl::Int32(x) => Ok(x),
            _ => Err(TypeMismatch),
        }
    }
}

impl vstd::std_specs::convert::TryFromSpecImpl<ArrayBuilderImpl> for I32ArrayBuilder {
    open spec fn obeys_try_from_spec() -> bool {
        true
    }

    open spec fn try_from_spec(b: ArrayBuilderImpl) -> Result<I32ArrayBuilder, TypeMismatch> {
        match b {
            ArrayBuilderImpl::Int32(x) => Ok(x),
            _ => Err(TypeMismatch),
        }
    }
}

impl TypedArray for I64Array {
    open spec fn data_type() -> DataType {
        DataType::Int64
    }

    open spec fn spec_wrap(self) -> ArrayImpl {
        ArrayImpl::Int64(self)
    }

    open spec fn spec_narrow(a: ArrayImpl) -> Option<Self> {
        match a {
            ArrayImpl::Int64(x) => Some(x),
            _ => None,
        }
    }

    proof fn lemma_wrap(x: Self) {
    }

    proof fn lemma_narrow(a: ArrayImpl) {
    }

    fn into_array_impl(self) -> (r: ArrayImpl) {
        ArrayImpl::Int64(self)
    }

    fn try_from_array_impl(a: ArrayImpl) -> (r: Result<Self, TypeMismatch>) {
        match a {
            ArrayImpl::Int64(x) => Ok(x),
            _ => Err(TypeMismatch),
        }
    }

    fn try_from_array_impl_ref(a: &ArrayImpl) -> (r: Result<&Self, TypeMismatch>) {
        match a {
            ArrayImpl::Int64(x) => Ok(x),
            _ => Err(TypeMismatch),
        }
    }
}

impl From<I64Array> for ArrayImpl {
    fn from(a: I64Array) -> (r: ArrayImpl) {
        ArrayImpl::Int64(a)
    }
}

impl vstd::std_specs::convert::FromSpecImpl<I64Array> for ArrayImpl {
    open spec fn obeys_from_spec() -> bool {
        true
    }

    open spec fn from_spec(a: I64Array) -> ArrayImpl {
        ArrayImpl::Int64(a)
    }
}

impl TryFrom<ArrayImpl> for I64Array {
    type Error = TypeMismatch;

    fn try_from(a: ArrayImpl) -> (r: Result<I64Array, TypeMismatch>) {
        I64Array::try_from_array_impl(a)
    }
}

impl vstd::std_specs::convert::TryFromSpecImpl<ArrayImpl> for I64Array {
    open spec fn obeys_try_from_spec() -> bool {
        true
    }

    open spec fn try_from_spec(a: ArrayImpl) -> Result<I64Array, TypeMismatch> {
        match a {
            ArrayImpl::Int64(x) => Ok(x),
            _ => Err(TypeMismatch),
        }
    }
}

impl<'a> TryFrom<&'a ArrayImpl> for &'a I64Array {
    type Error = TypeMismatch;

    fn try_from(a: &'a ArrayImpl) -> (r: Result<&'a I64Array, TypeMismatch>) {
        I64Array::try_from_array_impl_ref(a)
    }
}

impl<'a> vstd::std_specs::convert::TryFromSpecImpl<&'a ArrayImpl> for &'a I64Array {
    open spec fn obeys_try_from_spec() -> bool {
        true
    }

    open spec fn try_from_spec(a: &'a ArrayImpl) -> Result<&'a I64Array, TypeMismatch> {
        match a {
            ArrayImpl::Int64(x) => Ok(x),
            _ => Err(TypeMismatch),
        }
    }
}

impl From<I64ArrayBuilder> for ArrayBuilderImpl {
    fn from(b: I64ArrayBuilder) -> (r: ArrayBuilderImpl) {
        ArrayBuilderImpl::Int64(b)
    }
}

impl vstd::std_specs::convert::FromSpecImpl<I64ArrayBuilder> for ArrayBuilderImpl {
    open spec fn obeys_from_spec() -> bool {
        true
    }

    open spec fn from_spec(b: I64ArrayBuilder) -> ArrayBuilderImpl {
        ArrayBuilderImpl::Int64(b)
    }
}

impl TryFrom<ArrayBuilderImpl> for I64ArrayBuilder {
    type Error = TypeMismatch;

    fn try_from(b: ArrayBuilderImpl) -> (r: Result<I64ArrayBuilder, TypeMismatch>) {
        match b {
            ArrayBuilderImpl::Int64(x) => Ok(x),
            _ => Err(TypeMismatch),
        }
    }
}

impl vstd::std_specs::convert::TryFromSpecImpl<ArrayBuilderImpl> for I64ArrayBuilder {
    open spec fn obeys_try_from_spec() -> bool {
        true
    }

    open spec fn try_from_spec(b: ArrayBuilderImpl) -> Result<I64ArrayBuilder, TypeMismatch> {
        match b {
            ArrayBuilderImpl::Int64(x) => Ok(x),
            _ => Err(TypeMismatch),
        }
    }
}

impl TypedArray for BoolArray {
    open spec fn data_type() -> DataType {
        DataType::Bool
    }

    open spec fn spec_wrap(self) -> ArrayImpl {
        ArrayImpl::Bool(self)
    }

    open spec fn spec_narrow(a: ArrayImpl) -> Option<Self> {
        match a {
            ArrayImpl::Bool(x) => Some(x),
            _ => None,
        }
    }

    proof fn lemma_wrap(x: Self) {
    }

    proof fn lemma_narrow(a: ArrayImpl) {
    }

    fn into_array_impl(self) -> (r: ArrayImpl) {
        ArrayImpl::Bool(self)
    }

    fn try_from_array_impl(a: ArrayImpl) -> (r: Result<Self, TypeMismatch>) {
        match a {
            ArrayImpl::Bool(x) => Ok(x),
            _ => Err(TypeMismatch),
        }
    }

    fn try_from_array_impl_ref(a: &ArrayImpl) -> (r: Result<&Self, TypeMismatch>) {
        match a {
            ArrayImpl::Bool(x) => Ok(x),
            _ => Err(TypeMismatch),
        }
    }
}

impl From<BoolArray> for ArrayImpl {
    fn from(a: BoolArray) -> (r: ArrayImpl) {
        ArrayImpl::Bool(a)
    }
}

impl vstd::std_specs::convert::FromSpecImpl<BoolArray> for ArrayImpl {
    open spec fn obeys_from_spec() -> bool {
        true
    }

    open spec fn from_spec(a: BoolArray) -> ArrayImpl {
        ArrayImpl::Bool(a)
    }
}

impl TryFrom<ArrayImpl> for BoolArray {
    type Error = TypeMismatch;

    fn try_from(a: ArrayImpl) -> (r: Result<BoolArray, TypeMismatch>) {
        BoolArray::try_from_array_impl(a)
    }
}

impl vstd::std_specs::convert::TryFromSpecImpl<ArrayImpl> for BoolArray {
    open spec fn obeys_try_from_spec() -> bool {
        true
    }

    open spec fn try_from_spec(a: ArrayImpl) -> Result<BoolArray, TypeMismatch> {
        match a {
            ArrayImpl::Bool(x) => Ok(x),
            _ => Err(TypeMismatch),
        }
    }
}

impl<'a> TryFrom<&'a ArrayImpl> for &'a BoolArray {
    type Error = TypeMismatch;

    fn try_from(a: &'a ArrayImpl) -> (r: Result<&'a BoolArray, TypeMismatch>) {
        BoolArray::try_from_array_impl_ref(a)
    }
}

impl<'a> vstd::std_specs::convert::TryFromSpecImpl<&'a ArrayImpl> for &'a BoolArray {
    open spec fn obeys_try_from_spec() -> bool {
        true
    }

    open spec fn try_from_spec(a: &'a ArrayImpl) -> Result<&'a BoolArray, TypeMismatch> {
        match a {
            ArrayImpl::Bool(x) => Ok(x),
            _ => Err(TypeMismatch),
        }
    }
}

impl From<BoolArrayBuilder> for ArrayBuilderImpl {
    fn from(b: BoolArrayBuilder) -> (r: ArrayBuilderImpl) {
        ArrayBuilderImpl::Bool(b)
    }
}

impl vstd::std_specs::convert::FromSpecImpl<BoolArrayBuilder> for ArrayBuilderImpl {
    open spec fn obeys_from_spec() -> bool {
        true
    }

    open spec fn from_spec(b: BoolArrayBuilder) -> ArrayBuilderImpl {
        ArrayBuilderImpl::Bool(b)
    }
}

impl TryFrom<ArrayBuilderImpl> for BoolArrayBuilder {
    type Error = TypeMismatch;

    fn try_from(b: ArrayBuilderImpl) -> (r: Result<BoolArrayBuilder, TypeMismatch>) {
        match b {
            ArrayBuilderImpl::Bool(x) => Ok(x),
            _ => Err(TypeMismatch),
        }
    }
}

impl vstd::std_specs::convert::TryFromSpecImpl<ArrayBuilderImpl> for BoolArrayBuilder {
    open spec fn obeys_try_from_spec() -> bool {
        true
    }

    open spec fn try_from_spec(b: ArrayBuilderImpl) -> Result<BoolArrayBuilder, TypeMismatch> {
        match b {
            ArrayBuilderImpl::Bool(x) => Ok(x),
            _ => Err(TypeMismatch),
        }
    }
}

impl TypedArray for StringArray {
    open spec fn data_type() -> DataType {
        DataType::String
    }

    open spec fn spec_wrap(self) -> ArrayImpl {
        ArrayImpl::String(self)
    }

    open spec fn spec_narrow(a: ArrayImpl) -> Option<Self> {
        match a {
            ArrayImpl::String(x) => Some(x),
            _ => None,
        }
    }

    proof fn lemma_wrap(x: Self) {
    }

    proof fn lemma_narrow(a: ArrayImpl) {
    }

    fn into_array_impl(self) -> (r: ArrayImpl) {
        ArrayImpl::String(self)
    }

    fn try_from_array_impl(a: ArrayImpl) -> (r: Result<Self, TypeMismatch>) {
        match a {
            ArrayImpl::String(x) => Ok(x),
            _ => Err(TypeMismatch),
        }
    }

    fn try_from_array_impl_ref(a: &ArrayImpl) -> (r: Result<&Self, TypeMismatch>) {
        match a {
            ArrayImpl::String(x) => Ok(x),
            _ => Err(TypeMismatch),
        }
    }
}

impl From<StringArray> for ArrayImpl {
    fn from(a: StringArray) -> (r: ArrayImpl) {
        ArrayImpl::String(a)
    }
}

impl vstd::std_specs::convert::FromSpecImpl<StringArray> for ArrayImpl {
    open spec fn obeys_from_spec() -> bool {
        true
    }

    open spec fn from_spec(a: StringArray) -> ArrayImpl {
        ArrayImpl::String(a)
    }
}

impl TryFrom<ArrayImpl> for StringArray {
    type Error = TypeMismatch;

    fn try_from(a: ArrayImpl) -> (r: Result<StringArray, TypeMismatch>) {
        StringArray::try_from_array_impl(a)
    }
}

impl vstd::std_specs::convert::TryFromSpecImpl<ArrayImpl> for StringArray {
    open spec fn obeys_try_from_spec() -> bool {
        true
    }

    open spec fn try_from_spec(a: ArrayImpl) -> Result<StringArray, TypeMismatch> {
        match a {
            ArrayImpl::String(x) => Ok(x),
            _ => Err(TypeMismatch),
        }
    }
}

impl<'a> TryFrom<&'a ArrayImpl> for &'a StringArray {
    type Error = TypeMismatch;

    fn try_from(a: &'a ArrayImpl) -> (r: Result<&'a StringArray, TypeMismatch>) {
        StringArray::try_from_array_impl_ref(a)
    }
}

impl<'a> vstd::std_specs::convert::TryFromSpecImpl<&'a ArrayImpl> for &'a StringArray {
    open spec fn obeys_try_from_spec() -> bool {
        true
    }

    open spec fn try_from_spec(a: &'a ArrayImpl) -> Result<&'a StringArray, TypeMismatch> {
        match a {
            ArrayImpl::String(x) => Ok(x),
            _ => Err(TypeMismatch),
        }
    }
}

impl From<StringArrayBuilder> for ArrayBuilderImpl {
    fn from(b: StringArrayBuilder) -> (r: ArrayBuilderImpl) {
        ArrayBuilderImpl::String(b)
    }
}

impl vstd::std_specs::convert::FromSpecImpl<StringArrayBuilder> for ArrayBuilderImpl {
    open spec fn obeys_from_spec() -> bool {
        true
    }

    open spec fn from_spec(b: StringArrayBuilder) -> ArrayBuilderImpl {
        ArrayBuilderImpl::String(b)
    }
}

impl TryFrom<ArrayBuilderImpl> for StringArrayBuilder {
    type Error = TypeMismatch;

    fn try_from(b: ArrayBuilderImpl) -> (r: Result<StringArrayBuilder, TypeMismatch>) {
        match b {
            ArrayBuilderImpl::String(x) => Ok(x),
            _ => Err(TypeMismatch),
        }
    }
}

impl vstd::std_specs::convert::TryFromSpecImpl<ArrayBuilderImpl> for StringArrayBuilder {
    open spec fn obeys_try_from_spec() -> bool {
        true
    }

    open spec fn try_from_spec(b: ArrayBuilderImpl) -> Result<StringArrayBuilder, TypeMismatch> {
        match b {
            ArrayBuilderImpl::String(x) => Ok(x),
            _ => Err(TypeMismatch),
        }
    }
}

} // verus!
