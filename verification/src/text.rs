//! The older text-command surface: a command wrapping any transform
//! function, and the plain reverse transform.

use crate::strings::{chars_string, chars_vec};
use crate::transform::TransformResult;
use vstd::prelude::*;

verus! {

pub struct TransformCommand<T> {
    pub transform: T,
    pub monospace_reply: bool,
}

impl<T> TransformCommand<T> {
    pub fn new(transform: T) -> (r: Self)
        ensures
            r.transform == transform,
            r.monospace_reply,
    {
        Self { transform, monospace_reply: true }
    }

    pub fn without_monospace_reply(self) -> (r: Self)
        ensures
            r.transform == self.transform,
            !r.monospace_reply,
    {
        Self { monospace_reply: false, ..self }
    }
}

/// The text written backwards; it never rejects its input.
pub fn transform(orig: &str) -> (r: TransformResult<String>)
    ensures
        r matches Ok(s) && s@ == orig@.reverse(),
{
    Ok(chars_string(&crate::reverse::reverse_chars(&chars_vec(orig))))
}

} // verus!
