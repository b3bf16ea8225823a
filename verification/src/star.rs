//! The star figure: three rays of each character meet at the text
//! written across the middle.

use crate::strings::{append_spaces, lemma_bytes_at_least_chars, spaces};
use crate::transform::{
    append_rev_spaced, append_seps_row, collect_uppercase_chars, len_within, middle_line,
    upper_chars, validate_len, TransformError, TransformResult, TransformText,
};
use vstd::prelude::*;
use vstd::string::StringSliceAdditionalSpecFns;

verus! {

pub struct Star {
    min_len: usize,
    max_len: usize,
}

impl Star {
    /// The accepted byte lengths are small, so the figure always fits
    /// comfortably in memory.
    #[verifier::type_invariant]
    spec fn bounds_inv(self) -> bool {
        1 <= self.min_len && self.max_len <= 100
    }

    /// The smallest byte length this transformer accepts.
    pub closed spec fn spec_min(self) -> usize {
        self.min_len
    }

    /// The largest byte length this transformer accepts.
    pub closed spec fn spec_max(self) -> usize {
        self.max_len
    }

    pub fn new() -> (r: Self)
        ensures
            r.spec_min() == 3,
            r.spec_max() == 100,
    {
        Self { min_len: 3, max_len: 100 }
    }
}

/// One wing line of the figure: the character `c[i + 1]` three times,
/// the copies `2 * i` spaces apart, indented to keep the outer copies
/// aligned.
pub open spec fn star_wing_row(c: Seq<char>, i: int) -> Seq<char> {
    spaces(2 * (c.len() - i - 2)) + seq![c[i + 1], ' '] + spaces(2 * i) + seq![c[i + 1], ' ']
        + spaces(2 * i) + seq![c[i + 1], '\n']
}

/// The wing lines from the outermost character down to `c[i + 1]`.
pub open spec fn star_top_down(c: Seq<char>, i: int) -> Seq<char>
    decreases c.len() - i,
{
    if i > c.len() - 2 {
        Seq::empty()
    } else {
        star_top_down(c, i + 1) + star_wing_row(c, i)
    }
}

/// The wing lines for `c[1]` up to `c[i]`.
pub open spec fn star_bottom_upto(c: Seq<char>, i: int) -> Seq<char>
    decreases i,
{
    if i <= 0 {
        Seq::empty()
    } else {
        star_bottom_upto(c, i - 1) + star_wing_row(c, i - 1)
    }
}

/// The whole star figure for the given characters.
pub open spec fn star_figure(c: Seq<char>) -> Seq<char> {
    star_top_down(c, 0) + middle_line(c) + star_bottom_upto(c, c.len() - 1)
}

impl TransformText for Star {
    open spec fn spec_transform(&self, input: Seq<char>) -> Result<Seq<char>, TransformError> {
        if !len_within(
            self.spec_min() as int,
            self.spec_max() as int,
            vstd::utf8::encode_utf8(input).len() as int,
        ) {
            Err(TransformError::InvalidLength { min: self.spec_min(), max: self.spec_max() })
        } else {
            Ok(star_figure(upper_chars(input)))
        }
    }

    fn transform(&self, input: &str) -> (r: TransformResult<String>) {
        proof {
            use_type_invariant(self);
        }
        match validate_len(self.min_len, self.max_len, crate::strings::byte_len(input)) {
            Err(e) => Err(e),
            Ok(_) => {
                let chars = collect_uppercase_chars(input);
                proof {
                    lemma_bytes_at_least_chars(input@);
                }
                let len = chars.len();
                let ghost cs = chars@;
                let mut buf: Vec<char> = Vec::new();
                let mut i: usize = len - 1;
                proof {
                    assert(buf@ =~= star_top_down(cs, i as int));
                }
                while i >= 1
                    invariant
                        cs == chars@,
                        1 <= len <= 300,
                        len == cs.len(),
                        i <= len - 1,
                        buf@ == star_top_down(cs, i as int),
                    decreases i,
                {
                    let row = i - 1;
                    append_spaces(&mut buf, (len - row - 2) * 2);
                    buf.push(chars[row + 1]);
                    buf.push(' ');
                    append_spaces(&mut buf, row * 2);
                    buf.push(chars[row + 1]);
                    buf.push(' ');
                    append_spaces(&mut buf, row * 2);
                    buf.push(chars[row + 1]);
                    buf.push('\n');
                    proof {
                        assert(buf@ =~= star_top_down(cs, i as int - 1));
                    }
                    i = i - 1;
                }
                append_rev_spaced(&mut buf, &chars, 1);
                append_seps_row(&mut buf, &chars);
                proof {
                    assert(buf@ =~= star_top_down(cs, 0) + middle_line(cs) + star_bottom_upto(
                        cs,
                        0,
                    ));
                }
                let mut k: usize = 1;
                while k < len
                    invariant
                        cs == chars@,
                        1 <= len <= 300,
                        len == cs.len(),
                        1 <= k <= len,
                        buf@ == star_top_down(cs, 0) + middle_line(cs) + star_bottom_upto(
                            cs,
                            k as int - 1,
                        ),
                    decreases len - k,
                {
                    let row = k - 1;
                    append_spaces(&mut buf, (len - row - 2) * 2);
                    buf.push(chars[row + 1]);
                    buf.push(' ');
                    append_spaces(&mut buf, row * 2);
                    buf.push(chars[row + 1]);
                    buf.push(' ');
                    append_spaces(&mut buf, row * 2);
                    buf.push(chars[row + 1]);
                    buf.push('\n');
                    proof {
                        assert(buf@ =~= star_top_down(cs, 0) + middle_line(cs) + star_bottom_upto(
                            cs,
                            k as int,
                        ));
                    }
                    k = k + 1;
                }
                proof {
                    assert(buf@ =~= star_figure(cs));
                }
                Ok(crate::strings::chars_string(&buf))
            },
        }
    }
}

} // verus!
