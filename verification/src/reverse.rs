//! The reverse transformer: the text written backwards, character by
//! character.  It accepts any input.

use crate::strings::{chars_string, chars_vec};
use crate::transform::{TransformError, TransformResult, TransformText};
use vstd::prelude::*;

verus! {

pub struct Reverse;

impl TransformText for Reverse {
    open spec fn spec_transform(&self, input: Seq<char>) -> Result<Seq<char>, TransformError> {
        Ok(input.reverse())
    }

    fn transform(&self, input: &str) -> (r: TransformResult<String>) {
        Ok(chars_string(&reverse_chars(&chars_vec(input))))
    }
}

/// The characters of `v`, backwards.
pub fn reverse_chars(v: &Vec<char>) -> (r: Vec<char>)
    ensures
        r@ == v@.reverse(),
{
    let len = v.len();
    let mut r: Vec<char> = Vec::new();
    let mut i: usize = 0;
    while i < len
        invariant
            i <= len,
            len == v@.len(),
            r@.len() == i,
            forall|k: int| 0 <= k < i ==> r@[k] == v@[len - 1 - k],
        decreases len - i,
    {
        r.push(v[len - 1 - i]);
        i = i + 1;
    }
    proof {
        assert(r@ =~= v@.reverse());
    }
    r
}

} // verus!
