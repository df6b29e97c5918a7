//! Text functions: containment and concatenation.
use vstd::prelude::*;
use vstd::string::StringSliceAdditionalSpecFns;
use vstd::utf8::encode_utf8;

verus! {

/// Whether `needle` occurs in `hay` starting at position `k`.
pub open spec fn occurs_at(hay: Seq<u8>, needle: Seq<u8>, k: int) -> bool {
    &&& 0 <= k
    &&& k + needle.len() <= hay.len()
    &&& hay.subrange(k, k + needle.len()) == needle
}

/// Whether `needle` occurs anywhere in `hay` as a contiguous run.
pub open spec fn occurs_in(hay: Seq<u8>, needle: Seq<u8>) -> bool {
    exists|k: int| occurs_at(hay, needle, k)
}

/// Whether the text `needle` occurs in the text `hay`, compared by their UTF-8 bytes.
pub open spec fn text_contains(hay: Seq<char>, needle: Seq<char>) -> bool {
    occurs_in(encode_utf8(hay), encode_utf8(needle))
}

/// Whether `needle` occurs in `hay` at position `k`, which leaves room for it.
fn occurs_at_exec(hay: &[u8], needle: &[u8], k: usize) -> (r: bool)
    requires
        k + needle@.len() <= hay@.len(),
    ensures
        r == occurs_at(hay@, needle@, k as int),
{
    let hay_len = hay.len();
    let mut j: usize = 0;
    while j < needle.len()
        invariant
            j <= needle@.len(),
            k + needle@.len() <= hay@.len() == hay_len,
            forall|t: int| 0 <= t < j ==> hay@[k + t] == needle@[t],
        decreases needle@.len() - j,
    {
        if hay[k + j] != needle[j] {
            assert(hay@.subrange(k as int, k + needle@.len())[j as int] != needle@[j as int]);
            return false;
        }
        j = j + 1;
    }
    assert(hay@.subrange(k as int, k + needle@.len()) =~= needle@);
    true
}

/// Whether `needle` occurs anywhere in `hay`, by trying each start in turn.
fn occurs_in_exec(hay: &[u8], needle: &[u8]) -> (r: bool)
    ensures
        r == occurs_in(hay@, needle@),
{
    let mut k: usize = 0;
    while k <= hay.len() && needle.len() <= hay.len() - k
        invariant
            k <= hay@.len() + 1,
            forall|t: int| 0 <= t < k ==> !occurs_at(hay@, needle@, t),
        decreases hay@.len() + 1 - k,
    {
        if occurs_at_exec(hay, needle, k) {
            return true;
        }
        proof {
            if needle@.len() == 0 {
                assert(hay@.subrange(k as int, k as int) =~= needle@);
            }
        }
        k = k + 1;
    }
    assert forall|t: int| !occurs_at(hay@, needle@, t) by {
        if 0 <= t < k {
        }
    }
    false
}

/// Whether `i1` contains `i2`.
pub fn str_contains(i1: &str, i2: &str) -> (r: bool)
    ensures
        r == text_contains(i1@, i2@),
{
    occurs_in_exec(i1.as_bytes(), i2.as_bytes())
}

/// Relies on `String + &str` (`Add<&str>` for `String`): the slice is appended to the
/// end of the string.
#[verifier::external_body]
fn append_str(s: String, t: &str) -> (r: String)
    ensures
        r@ == s@ + t@,
{
    s + t
}

/// `i1` followed by `i2`, as a new string.
pub fn str_concat(i1: &str, i2: &str) -> (r: String)
    ensures
        r@ == i1@ + i2@,
{
    append_str(i1.to_owned(), i2)
}

} // verus!
