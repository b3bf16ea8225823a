//! The arrow figure: the uppercased text as a top line, then a pair
//! of widening rails, one per remaining character.

use crate::strings::{append_spaces, lemma_bytes_at_least_chars, spaces};
use crate::transform::{
    collect_uppercase_chars, len_within, seps_row_upto, upper_chars, validate_len, TransformError,
    TransformResult, TransformText,
};
use vstd::prelude::*;
use vstd::string::StringSliceAdditionalSpecFns;

verus! {

pub struct Arrow {
    min_len: usize,
    max_len: usize,
}

impl Arrow {
    /// The accepted byte lengths are small, so the figure always fits
    /// comfortably in memory.
    #[verifier::type_invariant]
    spec fn bounds_inv(self) -> bool {
        1 <= self.min_len && self.max_len <= 100
    }

    /// The smallest byte length this transformer accepts.
    pub closed spec fn spec_min(self) -> usize {
        self.min_len
    }

    /// The largest byte length this transformer accepts.
    pub closed spec fn spec_max(self) -> usize {
        self.max_len
    }

    pub fn new() -> (r: Self)
        ensures
            r.spec_min() == 3,
            r.spec_max() == 100,
    {
        Self { min_len: 3, max_len: 100 }
    }
}

/// The rails below the top line, up to the one for `c[i]`: each rail
/// holds one character twice, the copies drifting two spaces further
/// apart per line.
pub open spec fn arrow_rails_upto(c: Seq<char>, i: int) -> Seq<char>
    decreases i,
{
    if i <= 0 {
        Seq::empty()
    } else {
        arrow_rails_upto(c, i - 1) + seq![c[i], ' '] + spaces(2 * (i - 1)) + seq![c[i], '\n']
    }
}

/// The whole arrow figure for the given characters.
pub open spec fn arrow_figure(c: Seq<char>) -> Seq<char> {
    seps_row_upto(c, c.len() as int) + arrow_rails_upto(c, c.len() - 1)
}

impl TransformText for Arrow {
    open spec fn spec_transform(&self, input: Seq<char>) -> Result<Seq<char>, TransformError> {
        if !len_within(
            self.spec_min() as int,
            self.spec_max() as int,
            vstd::utf8::encode_utf8(input).len() as int,
        ) {
            Err(TransformError::InvalidLength { min: self.spec_min(), max: self.spec_max() })
        } else {
            Ok(arrow_figure(upper_chars(input)))
        }
    }

    fn transform(&self, input: &str) -> (r: TransformResult<String>) {
        proof {
            use_type_invariant(self);
        }
        match validate_len(self.min_len, self.max_len, crate::strings::byte_len(input)) {
            Err(e) => Err(e),
            Ok(_) => {
                let chars = collect_uppercase_chars(input);
                proof {
                    lemma_bytes_at_least_chars(input@);
                }
                let len = chars.len();
                let ghost cs = chars@;
                let mut buf: Vec<char> = Vec::new();
                crate::transform::append_seps_row(&mut buf, &chars);
                proof {
                    assert(buf@ =~= seps_row_upto(cs, len as int) + arrow_rails_upto(cs, 0));
                }
                let mut k: usize = 1;
                while k < len
                    invariant
                        cs == chars@,
                        1 <= len <= 300,
                        len == cs.len(),
                        1 <= k <= len,
                        buf@ == seps_row_upto(cs, len as int) + arrow_rails_upto(cs, k as int - 1),
                    decreases len - k,
                {
                    buf.push(chars[k]);
                    buf.push(' ');
                    append_spaces(&mut buf, (k - 1) * 2);
                    buf.push(chars[k]);
                    buf.push('\n');
                    proof {
                        assert(buf@ =~= seps_row_upto(cs, len as int) + arrow_rails_upto(
                            cs,
                            k as int,
                        ));
                    }
                    k = k + 1;
                }
                proof {
                    assert(buf@ =~= arrow_figure(cs));
                }
                Ok(crate::strings::chars_string(&buf))
            },
        }
    }
}

} // verus!
