//! Conversions at the boundary of the engine's C interface: text that the
//! engine wrote, and text that must reach it as a C string.

use vstd::prelude::*;
use vstd::slice::slice_to_vec;
use vstd::string::*;
use vstd::utf8::{decode_utf8, valid_utf8};

use crate::error::Error;

verus! {

/// The text that lossy UTF-8 decoding makes of `bytes`.
pub uninterp spec fn utf8_lossy(bytes: Seq<u8>) -> Seq<char>;

/// `String::from_utf8_lossy`: decodes `bytes` as UTF-8, substituting the
/// replacement character for whatever is malformed. The result depends on
/// the bytes alone; on well-formed input it is the text they encode.
#[verifier::external_body]
fn from_utf8_lossy(bytes: &[u8]) -> (s: String)
    ensures
        s@ == utf8_lossy(bytes@),
        valid_utf8(bytes@) ==> s@ == decode_utf8(bytes@),
{
    String::from_utf8_lossy(bytes).into_owned()
}

/// The message the engine left in an error buffer, as text.
pub fn error_message(bytes: &[u8]) -> (s: String)
    ensures
        s@ == utf8_lossy(bytes@),
        valid_utf8(bytes@) ==> s@ == decode_utf8(bytes@),
{
    from_utf8_lossy(bytes)
}

/// Position of the first zero byte of `bytes`, if it has one.
pub open spec fn first_nul(bytes: Seq<u8>) -> Option<int> {
    if exists|i: int| 0 <= i < bytes.len() && bytes[i] == 0 {
        Some(choose|i: int| is_first_nul(bytes, i))
    } else {
        None
    }
}

/// `i` indexes a zero byte of `bytes` and no zero byte comes before it.
pub open spec fn is_first_nul(bytes: Seq<u8>, i: int) -> bool {
    &&& 0 <= i < bytes.len()
    &&& bytes[i] == 0
    &&& forall|j: int| 0 <= j < i ==> bytes[j] != 0
}

/// Whether `bytes` holds a zero byte anywhere.
pub open spec fn has_nul(bytes: Seq<u8>) -> bool {
    exists|i: int| 0 <= i < bytes.len() && bytes[i] == 0
}

/// `first_nul` is `None` exactly on sequences free of zero bytes, and
/// otherwise names the one position that `is_first_nul` accepts.
pub proof fn lemma_first_nul(bytes: Seq<u8>)
    ensures
        first_nul(bytes) is None <==> !has_nul(bytes),
        first_nul(bytes) matches Some(i) ==> is_first_nul(bytes, i),
        forall|k: int| is_first_nul(bytes, k) ==> first_nul(bytes) == Some(k),
{
    if has_nul(bytes) {
        let w = choose|i: int| 0 <= i < bytes.len() && bytes[i] == 0;
        lemma_least_nul(bytes, w);
        let f = choose|i: int| is_first_nul(bytes, i);
        assert(is_first_nul(bytes, f));
        assert forall|k: int| is_first_nul(bytes, k) implies first_nul(bytes) == Some(k) by {
            if k < f {
                assert(bytes[k] != 0);
            } else if f < k {
                assert(bytes[f] != 0);
            }
        }
    }
}

proof fn lemma_least_nul(bytes: Seq<u8>, w: int)
    requires
        0 <= w < bytes.len(),
        bytes[w] == 0,
    ensures
        exists|i: int| is_first_nul(bytes, i),
    decreases w,
{
    if forall|j: int| 0 <= j < w ==> bytes[j] != 0 {
        assert(is_first_nul(bytes, w));
    } else {
        let j = choose|j: int| 0 <= j < w && bytes[j] == 0;
        lemma_least_nul(bytes, j);
    }
}

/// Scans `bytes` for its first zero byte.
pub fn find_nul(bytes: &[u8]) -> (r: Option<usize>)
    ensures
        r is None <==> !has_nul(bytes@),
        r matches Some(i) ==> first_nul(bytes@) == Some(i as int),
        r is None ==> first_nul(bytes@) is None,
{
    let mut i: usize = 0;
    while i < bytes.len()
        invariant
            i <= bytes.len(),
            forall|j: int| 0 <= j < i ==> bytes@[j] != 0,
        decreases bytes.len() - i,
    {
        if bytes[i] == 0 {
            proof {
                assert(is_first_nul(bytes@, i as int));
                lemma_first_nul(bytes@);
            }
            return Some(i);
        }
        i += 1;
    }
    proof {
        lemma_first_nul(bytes@);
    }
    None
}

/// The bytes of `path` as they go into a C string, or an error carrying
/// `error_message` when the path holds a zero byte, which no C string can.
pub fn to_cpath(path: &str, error_message: &str) -> (r: Result<Vec<u8>, Error>)
    ensures
        has_nul(path.spec_bytes()) ==> r is Err && r->Err_0@ == error_message@,
        !has_nul(path.spec_bytes()) ==> r is Ok && r->Ok_0@ == path.spec_bytes(),
{
    let bytes = path.as_bytes();
    match find_nul(bytes) {
        Some(_) => Err(Error::new(String::from_str(error_message))),
        None => Ok(slice_to_vec(bytes)),
    }
}

} // verus!
