//! Columns: fixed-length sequences of optional values of one logical type.
use crate::bitmap::MAX_BITS;
use crate::scalar::{opt_view, Scalar, ScalarRef};
use vstd::prelude::*;

mod dispatch;
mod primitive_array;
mod string_array;

pub use primitive_array::{
    lemma_primitive_build_then_get,
    BoolArray, BoolArrayBuilder, I32Array, I32ArrayBuilder, I64Array, I64ArrayBuilder,
    PrimitiveArray, PrimitiveArrayBuilder,
};
pub use dispatch::{erase_slots, lemma_narrow_wrapped, ArrayBuilderImpl, ArrayImpl, DataType, TypedArray};
pub use string_array::{lemma_offsets_len, StringArray, StringArrayBuilder};

verus! {

/// The logical contents of a sequence of optional references.
pub open spec fn opt_views<T: View>(s: Seq<Option<T>>) -> Seq<Option<T::V>> {
    s.map_values(|x: Option<T>| opt_view(x))
}

/// A container with an internal invariant.
pub trait WellFormed {
    /// The invariant that construction establishes and every method keeps.
    spec fn well_formed(&self) -> bool;
}

/// A mutable, single-use accumulator that produces an immutable column.
pub trait ArrayBuilder: WellFormed + Sized {
    /// The logical value of one present slot.
    type Value;

    /// What `push` takes for a present slot.
    type Item<'a>: View<V = Self::Value>;

    /// The column that `finish` produces.
    type Array: View<V = Seq<Option<Self::Value>>> + WellFormed;

    /// The slots pushed so far.
    spec fn contents(&self) -> Seq<Option<Self::Value>>;

    /// An empty builder with room for `capacity` slots.
    fn with_capacity(capacity: usize) -> (r: Self)
        requires
            capacity <= MAX_BITS,
        ensures
            r.well_formed(),
            r.contents() == Seq::<Option<Self::Value>>::empty(),
    ;

    /// Appends one slot, present or null.
    fn push(&mut self, item: Option<Self::Item<'_>>)
        requires
            old(self).well_formed(),
            old(self).contents().len() < MAX_BITS,
        ensures
            final(self).well_formed(),
            final(self).contents() == old(self).contents().push(opt_view(item)),
    ;

    /// Consumes the builder and yields the column.
    fn finish(self) -> (r: Self::Array)
        requires
            self.well_formed(),
        ensures
            r.well_formed(),
            r@ == self.contents(),
    ;
}

/// A column of values of one type; its view is the sequence of its slots.
pub trait Array: WellFormed + View<V = Seq<Option<<Self::OwnedItem as View>::V>>> + Sized {
    /// The owned form of one value.
    type OwnedItem: for<'a> Scalar<RefType<'a> = Self::RefItem<'a>>;

    /// The borrowed form of one value.
    type RefItem<'a>: ScalarRef<'a, ScalarType = Self::OwnedItem> + View<
        V = <Self::OwnedItem as View>::V,
    >;

    /// The builder of this column type.
    type Builder: for<'a> ArrayBuilder<
        Array = Self,
        Value = <Self::OwnedItem as View>::V,
        Item<'a> = Self::RefItem<'a>,
    >;

    /// The value at `idx`, or `None` where the slot is null.
    fn get(&self, idx: usize) -> (r: Option<Self::RefItem<'_>>)
        requires
            self.well_formed(),
            idx < self@.len(),
        ensures
            opt_view(r) == self@[idx as int],
    ;

    /// A well-formed column fits its null bitmap's limit.
    proof fn lemma_len_bound(&self)
        requires
            self.well_formed(),
        ensures
            self@.len() <= MAX_BITS,
    ;

    /// Number of slots.
    fn len(&self) -> (r: usize)
        requires
            self.well_formed(),
        ensures
            r == self@.len(),
    ;

    /// Whether the column has no slot.
    fn is_empty(&self) -> (r: bool)
        requires
            self.well_formed(),
        ensures
            r == (self@.len() == 0),
    {
        self.len() == 0
    }

    /// An iterator over the slots, from the first.
    fn iter(&self) -> (r: ArrayIterator<'_, Self>)
        requires
            self.well_formed(),
        ensures
            r@ == (self@, 0int),
            r.well_formed(),
    {
        ArrayIterator { array: self, pos: 0 }
    }

    /// Builds a column holding the given slots, in order.
    fn from_slice(slice: &[Option<Self::RefItem<'_>>]) -> (r: Self)
        requires
            slice@.len() <= MAX_BITS,
        ensures
            r.well_formed(),
            r@ == opt_views(slice@),
    {
        let mut builder = Self::Builder::with_capacity(slice.len());
        let mut i: usize = 0;
        while i < slice.len()
            invariant
                i <= slice@.len() <= MAX_BITS,
                builder.well_formed(),
                builder.contents() == opt_views(slice@.subrange(0, i as int)),
            decreases slice@.len() - i,
        {
            let item = slice[i];
            builder.push(item);
            i = i + 1;
            assert(slice@.subrange(0, i as int) == slice@.subrange(0, i - 1).push(item));
        }
        assert(slice@.subrange(0, slice@.len() as int) == slice@);
        builder.finish()
    }
}

/// A column built from a sequence of slots reads back, at every valid index, the
/// slot that the sequence holds there.
pub proof fn lemma_build_then_get<'s, 'c, A: Array>(
    slice: &'s [Option<A::RefItem<'s>>],
    a: &'c A,
    idx: usize,
    r: Option<A::RefItem<'c>>,
)
    requires
        call_ensures(A::from_slice, (slice,), *a),
        call_ensures(A::get, (a, idx), r),
        idx < slice@.len(),
    ensures
        a.well_formed(),
        opt_view(r) == opt_view(slice@[idx as int]),
{
}

/// Walks the slots of a column in order.
pub struct ArrayIterator<'a, A> {
    array: &'a A,
    pos: usize,
}

impl<'a, A: View> View for ArrayIterator<'a, A> {
    /// The view of the column and the position of the next slot.
    type V = (A::V, int);

    closed spec fn view(&self) -> Self::V {
        (self.array@, self.pos as int)
    }
}

impl<'a, A: WellFormed> WellFormed for ArrayIterator<'a, A> {
    closed spec fn well_formed(&self) -> bool {
        self.array.well_formed()
    }
}

impl<'a, A: Array> ArrayIterator<'a, A> {
    /// The next slot, or `None` once every slot was handed out.
    pub fn next(&mut self) -> (r: Option<Option<A::RefItem<'a>>>)
        requires
            old(self).well_formed(),
        ensures
            final(self).well_formed(),
            old(self)@.1 < old(self)@.0.len() ==> {
                &&& r matches Some(item)
                &&& opt_view(item) == old(self)@.0[old(self)@.1]
                &&& final(self)@ == (old(self)@.0, old(self)@.1 + 1)
            },
            old(self)@.1 >= old(self)@.0.len() ==> r is None && final(self)@ == old(self)@,
    {
        if self.pos < self.array.len() {
            let item = self.array.get(self.pos);
            self.pos = self.pos + 1;
            Some(item)
        } else {
            None
        }
    }
}

} // verus!
