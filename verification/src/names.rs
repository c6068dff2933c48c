//! Names of layers and extensions, held as the bytes before their terminator.

use crate::raw::ascii_bytes;
use vstd::prelude::*;
use vstd::slice::slice_to_vec;
use vstd::string::is_ascii_spec_bytes;

verus! {

/// Whether one of `names` is `wanted`, byte for byte.
pub open spec fn spec_contains_name(names: Seq<Vec<u8>>, wanted: Seq<u8>) -> bool {
    exists|i: int| 0 <= i < names.len() && (#[trigger] names[i])@ == wanted
}

/// Whether two names are the same bytes.
pub fn name_eq(left: &[u8], right: &[u8]) -> (equal: bool)
    ensures
        equal == (left@ == right@),
{
    if left.len() != right.len() {
        return false;
    }
    let mut i: usize = 0;
    while i < left.len()
        invariant
            i <= left@.len(),
            left@.len() == right@.len(),
            forall|j: int| 0 <= j < i ==> left@[j] == right@[j],
        decreases left@.len() - i,
    {
        if left[i] != right[i] {
            return false;
        }
        i += 1;
    }
    assert(left@ =~= right@);
    true
}

/// Whether `wanted` is among `names`.
pub fn contains_name(names: &[Vec<u8>], wanted: &[u8]) -> (found: bool)
    ensures
        found == spec_contains_name(names@, wanted@),
{
    let mut i: usize = 0;
    while i < names.len()
        invariant
            i <= names@.len(),
            forall|j: int| 0 <= j < i ==> (#[trigger] names@[j])@ != wanted@,
        decreases names@.len() - i,
    {
        if name_eq(names[i].as_slice(), wanted) {
            assert(names@[i as int]@ == wanted@);
            return true;
        }
        i += 1;
    }
    false
}

/// The bytes of a text that is all ASCII.
pub(crate) fn ascii_text_bytes(text: &str) -> (bytes: Vec<u8>)
    requires
        text.is_ascii(),
    ensures
        bytes@ == ascii_bytes(text@),
{
    proof {
        is_ascii_spec_bytes(text);
    }
    slice_to_vec(text.as_bytes())
}

} // verus!
