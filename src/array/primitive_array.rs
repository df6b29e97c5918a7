//! Columns of fixed-width values: a dense value buffer and a null bitmap.
use crate::array::{Array, ArrayBuilder, WellFormed};
use crate::bitmap::{bitmap_get, bitmap_push, bitmap_with_capacity, bits_of, Bitmap, MAX_BITS};
use crate::scalar::{opt_view, PrimitiveType};
use vstd::prelude::*;

verus! {

/// A column of fixed-width values. A null slot keeps a placeholder value, so the
/// value buffer and the bitmap always have one entry per slot.
pub struct PrimitiveArray<T> {
    /// The values, one per slot.
    data: Vec<T>,
    /// Presence of each slot.
    bitmap: Bitmap,
}

/// A primitive column is its own builder.
pub type PrimitiveArrayBuilder<T> = PrimitiveArray<T>;

pub type I32Array = PrimitiveArray<i32>;

pub type I32ArrayBuilder = PrimitiveArrayBuilder<i32>;

pub type I64Array = PrimitiveArray<i64>;

pub type I64ArrayBuilder = PrimitiveArrayBuilder<i64>;

pub type BoolArray = PrimitiveArray<bool>;

pub type BoolArrayBuilder = PrimitiveArrayBuilder<bool>;

impl<T> WellFormed for PrimitiveArray<T> {
    closed spec fn well_formed(&self) -> bool {
        &&& self.data@.len() == bits_of(self.bitmap).len()
        &&& self.data@.len() <= MAX_BITS
    }
}

impl<T: View> View for PrimitiveArray<T> {
    type V = Seq<Option<T::V>>;

    closed spec fn view(&self) -> Seq<Option<T::V>> {
        Seq::new(
            self.data@.len(),
            |i: int|
                if bits_of(self.bitmap)[i] {
                    Some(self.data@[i]@)
                } else {
                    None
                },
        )
    }
}

/// A primitive column built from a sequence of slots reads back, at every valid
/// index, exactly the slot that the sequence holds there.
pub proof fn lemma_primitive_build_then_get<T: PrimitiveType>(
    slice: &[Option<T>],
    a: &PrimitiveArray<T>,
    idx: usize,
    r: Option<T>,
)
    requires
        call_ensures(PrimitiveArray::<T>::from_slice, (slice,), *a),
        call_ensures(PrimitiveArray::<T>::get, (a, idx), r),
        idx < slice@.len(),
    ensures
        r == slice@[idx as int],
{
    if let Some(x) = r {
        T::lemma_view_is_value(x);
    }
    if let Some(y) = slice@[idx as int] {
        T::lemma_view_is_value(y);
    }
}

impl<T: PrimitiveType> Array for PrimitiveArray<T> {
    type OwnedItem = T;

    type RefItem<'a> = T;

    type Builder = PrimitiveArrayBuilder<T>;

    fn get(&self, idx: usize) -> (r: Option<T>) {
        if bitmap_get(&self.bitmap, idx) {
            Some(self.data[idx])
        } else {
            None
        }
    }

    proof fn lemma_len_bound(&self) {
    }

    fn len(&self) -> (r: usize) {
        self.data.len()
    }
}

impl<T: PrimitiveType> ArrayBuilder for PrimitiveArrayBuilder<T> {
    type Value = T;

    type Item<'a> = T;

    type Array = PrimitiveArray<T>;

    open spec fn contents(&self) -> Seq<Option<T::V>> {
        self@
    }

    fn with_capacity(capacity: usize) -> (r: Self) {
        let r = PrimitiveArray { data: Vec::with_capacity(capacity), bitmap: bitmap_with_capacity(capacity) };
        assert(r@ =~= Seq::<Option<T::V>>::empty());
        r
    }

    fn push(&mut self, item: Option<T>) {
        let ghost before = self@;
        match item {
            Some(value) => {
                bitmap_push(&mut self.bitmap, true);
                self.data.push(value);
            },
            None => {
                bitmap_push(&mut self.bitmap, false);
                self.data.push(T::default());
            },
        }
        assert(self@ =~= before.push(opt_view(item)));
    }

    fn finish(self) -> (r: Self) {
        self
    }
}

} // verus!
