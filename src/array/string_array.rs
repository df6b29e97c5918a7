//! Columns of text: a flat UTF-8 byte buffer, an offsets index and a null bitmap.
use crate::array::{Array, ArrayBuilder, WellFormed};
use crate::bitmap::{bitmap_get, bitmap_push, bitmap_with_capacity, bits_of, Bitmap, MAX_BITS};
use crate::scalar::opt_view;
use vstd::prelude::*;
use vstd::slice::slice_subrange;
use vstd::string::StringSliceAdditionalSpecFns;
use vstd::utf8::{decode_utf8, encode_utf8, encode_utf8_decode_utf8, encode_utf8_valid_utf8, valid_utf8};

verus! {

/// Relies on `std::str::from_utf8`: it accepts exactly the valid UTF-8 byte
/// sequences and then returns the text over those very bytes.
#[verifier::external_body]
fn str_from_utf8(bytes: &[u8]) -> (r: Option<&str>)
    ensures
        r is Some <==> valid_utf8(bytes@),
        r matches Some(s) ==> s.spec_bytes() == bytes@,
{
    std::str::from_utf8(bytes).ok()
}

/// A column of text. Slot `i` spans `data[offsets[i]..offsets[i + 1]]`; a null slot
/// adds no bytes, and every push appends the real end offset, so there is always one
/// more offset than slots.
pub struct StringArray {
    /// The bytes of all present values, one after the other.
    data: Vec<u8>,
    /// Where each slot starts, plus the end of the last one.
    offsets: Vec<usize>,
    /// Presence of each slot.
    bitmap: Bitmap,
}

/// A string column is its own builder.
pub type StringArrayBuilder = StringArray;

impl StringArray {
    /// The bytes of slot `i`.
    pub closed spec fn slot_bytes(&self, i: int) -> Seq<u8> {
        self.data@.subrange(self.offsets@[i] as int, self.offsets@[i + 1] as int)
    }

    /// The offsets index.
    pub closed spec fn offsets_view(&self) -> Seq<usize> {
        self.offsets@
    }
}

impl WellFormed for StringArray {
    closed spec fn well_formed(&self) -> bool {
        let n = bits_of(self.bitmap).len();
        &&& n <= MAX_BITS
        &&& self.offsets@.len() == n + 1
        &&& self.offsets@[0] == 0
        &&& self.offsets@[n as int] == self.data@.len()
        &&& forall|i: int, j: int|
            0 <= i <= j <= n ==> #[trigger] self.offsets@[i] <= #[trigger] self.offsets@[j]
        &&& forall|i: int|
            0 <= i < n && #[trigger] bits_of(self.bitmap)[i] ==> valid_utf8(self.slot_bytes(i))
    }
}

/// A string column, in particular one after any number of pushes, has exactly one
/// more offset than slots.
pub proof fn lemma_offsets_len(a: &StringArray)
    requires
        a.well_formed(),
    ensures
        a.offsets_view().len() == a@.len() + 1,
        a.offsets_view()[0] == 0,
{
}

impl View for StringArray {
    type V = Seq<Option<Seq<char>>>;

    closed spec fn view(&self) -> Seq<Option<Seq<char>>> {
        Seq::new(
            bits_of(self.bitmap).len(),
            |i: int|
                if bits_of(self.bitmap)[i] {
                    Some(decode_utf8(self.slot_bytes(i)))
                } else {
                    None
                },
        )
    }
}

impl Array for StringArray {
    type OwnedItem = String;

    type RefItem<'a> = &'a str;

    type Builder = StringArrayBuilder;

    fn get(&self, idx: usize) -> (r: Option<&str>) {
        if bitmap_get(&self.bitmap, idx) {
            let start = self.offsets[idx];
            let end = self.offsets[idx + 1];
            let bytes = slice_subrange(self.data.as_slice(), start, end);
            let r = str_from_utf8(bytes);
            proof {
                let s = r->Some_0;
                encode_utf8_decode_utf8(s@);
            }
            r
        } else {
            None
        }
    }

    proof fn lemma_len_bound(&self) {
    }

    fn len(&self) -> (r: usize) {
        self.offsets.len() - 1
    }
}

impl ArrayBuilder for StringArrayBuilder {
    type Value = Seq<char>;

    type Item<'a> = &'a str;

    type Array = StringArray;

    open spec fn contents(&self) -> Seq<Option<Seq<char>>> {
        self@
    }

    fn with_capacity(capacity: usize) -> (r: Self) {
        let mut offsets: Vec<usize> = Vec::with_capacity(capacity + 1);
        offsets.push(0);
        let r = StringArray { data: Vec::new(), offsets, bitmap: bitmap_with_capacity(capacity) };
        assert(r@ =~= Seq::<Option<Seq<char>>>::empty());
        r
    }

    fn push(&mut self, item: Option<&str>) {
        let ghost old_self = *self;
        let ghost n = bits_of(self.bitmap).len();
        match item {
            Some(s) => {
                bitmap_push(&mut self.bitmap, true);
                self.data.extend_from_slice(s.as_bytes());
                proof {
                    assert(self.data@ =~= old_self.data@ + encode_utf8(s@));
                    encode_utf8_valid_utf8(s@);
                    encode_utf8_decode_utf8(s@);
                }
            },
            None => {
                bitmap_push(&mut self.bitmap, false);
            },
        }
        self.offsets.push(self.data.len());
        proof {
            assert forall|i: int| 0 <= i < n implies #[trigger] self.slot_bytes(i)
                == old_self.slot_bytes(i) by {
                assert(old_self.offsets@[i] <= old_self.offsets@[i + 1] <= old_self.offsets@[n as int]);
            }
            if item is Some {
                assert(self.slot_bytes(n as int) =~= encode_utf8(item->Some_0@));
            }
            assert(self@ =~= old_self@.push(opt_view(item)));
        }
    }

    fn finish(self) -> (r: Self) {
        self
    }
}

} // verus!
