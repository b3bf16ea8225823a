//! A transformer that runs a list of transformers in order, feeding
//! each the previous one's output.

use crate::arrow::Arrow;
use crate::cw::Cw;
use crate::huify::Huify;
use crate::reverse::Reverse;
use crate::square::Square;
use crate::star::Star;
use crate::transform::{TransformError, TransformResult, TransformText};
use vstd::prelude::*;
use vstd::string::StringExecFns;

verus! {

/// Any one of the crate's transformers, so that a chain can hold a
/// mixed list of them.
pub enum Transformer {
    Arrow(Arrow),
    Cw(Cw),
    Huify(Huify),
    Reverse(Reverse),
    Square(Square),
    Star(Star),
}

impl TransformText for Transformer {
    open spec fn spec_transform(&self, input: Seq<char>) -> Result<Seq<char>, TransformError> {
        match self {
            Transformer::Arrow(t) => t.spec_transform(input),
            Transformer::Cw(t) => t.spec_transform(input),
            Transformer::Huify(t) => t.spec_transform(input),
            Transformer::Reverse(t) => t.spec_transform(input),
            Transformer::Square(t) => t.spec_transform(input),
            Transformer::Star(t) => t.spec_transform(input),
        }
    }

    fn transform(&self, input: &str) -> (r: TransformResult<String>) {
        match self {
            Transformer::Arrow(t) => t.transform(input),
            Transformer::Cw(t) => t.transform(input),
            Transformer::Huify(t) => t.transform(input),
            Transformer::Reverse(t) => t.transform(input),
            Transformer::Square(t) => t.transform(input),
            Transformer::Star(t) => t.transform(input),
        }
    }
}

pub struct Chain {
    pub transformers: Vec<Transformer>,
}

impl Chain {
    pub fn new(transformers: Vec<Transformer>) -> (r: Self)
        ensures
            r.transformers == transformers,
    {
        Self { transformers }
    }
}

/// The text after the transformers from `i` on have each run, or the
/// first rejection among them.
pub open spec fn chain_apply(ts: Seq<Transformer>, i: int, cur: Seq<char>) -> Result<
    Seq<char>,
    TransformError,
>
    decreases ts.len() - i,
{
    if i < 0 || i >= ts.len() {
        Ok(cur)
    } else {
        match ts[i].spec_transform(cur) {
            Ok(next) => chain_apply(ts, i + 1, next),
            Err(e) => Err(e),
        }
    }
}

impl TransformText for Chain {
    open spec fn spec_transform(&self, input: Seq<char>) -> Result<Seq<char>, TransformError> {
        chain_apply(self.transformers@, 0, input)
    }

    fn transform(&self, input: &str) -> (r: TransformResult<String>) {
        let mut result = String::from_str(input);
        let mut i: usize = 0;
        while i < self.transformers.len()
            invariant
                i <= self.transformers@.len(),
                chain_apply(self.transformers@, 0, input@) == chain_apply(
                    self.transformers@,
                    i as int,
                    result@,
                ),
            decreases self.transformers@.len() - i,
        {
            match self.transformers[i].transform(result.as_str()) {
                Ok(next) => {
                    result = next;
                },
                Err(e) => {
                    return Err(e);
                },
            }
            i = i + 1;
        }
        Ok(result)
    }
}

} // verus!
