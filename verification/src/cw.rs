//! The crossword figure: the text written along the four sides of a
//! square, crossing in the middle.

use crate::strings::{append_spaces, lemma_bytes_at_least_chars, spaces};
use crate::transform::{
    append_rev_spaced, append_seps_row, collect_uppercase_chars, len_within, middle_line,
    rev_spaced_from, upper_chars, validate_len, TransformError, TransformResult, TransformText,
};
use vstd::prelude::*;
use vstd::string::StringSliceAdditionalSpecFns;

verus! {

pub struct Cw {
    min_len: usize,
    max_len: usize,
}

impl Cw {
    /// The accepted byte lengths are small, so the figure always fits
    /// comfortably in memory.
    #[verifier::type_invariant]
    spec fn bounds_inv(self) -> bool {
        1 <= self.min_len && self.max_len <= 100
    }

    /// The smallest byte length this transformer accepts.
    pub closed spec fn spec_min(self) -> usize {
        self.min_len
    }

    /// The largest byte length this transformer accepts.
    pub closed spec fn spec_max(self) -> usize {
        self.max_len
    }

    pub fn new() -> (r: Self)
        ensures
            r.spec_min() == 3,
            r.spec_max() == 100,
    {
        Self { min_len: 3, max_len: 100 }
    }
}

/// The inner gap of the figure: one more than twice the distance the
/// two verticals stand apart.
pub open spec fn cw_gap(c: Seq<char>) -> Seq<char> {
    spaces(2 * (c.len() - 2) + 1)
}

/// The first `i` characters, each followed by a single space.
pub open spec fn fwd_spaced_upto(c: Seq<char>, i: int) -> Seq<char>
    decreases i,
{
    if i <= 0 {
        Seq::empty()
    } else {
        fwd_spaced_upto(c, i - 1) + seq![c[i - 1], ' ']
    }
}

/// One line of the upper half: the text running down the left edge,
/// and the text running up the right edge; the first line instead
/// carries the text written backwards from the right edge.
pub open spec fn cw_top_row(c: Seq<char>, a: int) -> Seq<char> {
    if a == 0 {
        seq![c[0]] + cw_gap(c) + rev_spaced_from(c, 0) + seq!['\n']
    } else {
        seq![c[a]] + cw_gap(c) + seq![c[c.len() - 1 - a], '\n']
    }
}

/// The upper lines before the middle, rows `0 .. a`.
pub open spec fn cw_top_upto(c: Seq<char>, a: int) -> Seq<char>
    decreases a,
{
    if a <= 0 {
        Seq::empty()
    } else {
        cw_top_upto(c, a - 1) + cw_top_row(c, a - 1)
    }
}

/// One line of the lower half; the last line instead carries the text
/// written forwards from the left edge.
pub open spec fn cw_bottom_row(c: Seq<char>, a: int) -> Seq<char> {
    if c.len() - 1 - a == 0 {
        fwd_spaced_upto(c, c.len() as int) + spaces(2 * (c.len() - 2)) + seq![c[0], '\n']
    } else {
        spaces(2 * (c.len() - 1)) + seq![c[a]] + cw_gap(c) + seq![c[c.len() - 1 - a], '\n']
    }
}

/// The lower lines after the middle, rows `1 .. a`.
pub open spec fn cw_bottom_upto(c: Seq<char>, a: int) -> Seq<char>
    decreases a,
{
    if a <= 1 {
        Seq::empty()
    } else {
        cw_bottom_upto(c, a - 1) + cw_bottom_row(c, a - 1)
    }
}

/// The whole crossword figure for the given characters.
pub open spec fn cw_figure(c: Seq<char>) -> Seq<char> {
    cw_top_upto(c, c.len() - 1) + middle_line(c) + cw_bottom_upto(c, c.len() as int)
}

impl TransformText for Cw {
    open spec fn spec_transform(&self, input: Seq<char>) -> Result<Seq<char>, TransformError> {
        if !len_within(
            self.spec_min() as int,
            self.spec_max() as int,
            vstd::utf8::encode_utf8(input).len() as int,
        ) {
            Err(TransformError::InvalidLength { min: self.spec_min(), max: self.spec_max() })
        } else {
            Ok(cw_figure(upper_chars(input)))
        }
    }

    fn transform(&self, input: &str) -> (r: TransformResult<String>) {
        proof {
            use_type_invariant(self);
        }
        match validate_len(self.min_len, self.max_len, crate::strings::byte_len(input)) {
            Err(e) => Err(e),
            Ok(_) => {
                let chars = collect_uppercase_chars(input);
                proof {
                    lemma_bytes_at_least_chars(input@);
                }
                let len = chars.len();
                let ghost cs = chars@;
                let mut buf: Vec<char> = Vec::new();
                let mut a: usize = 0;
                proof {
                    assert(buf@ =~= cw_top_upto(cs, 0));
                }
                while a + 1 < len
                    invariant
                        cs == chars@,
                        1 <= len <= 300,
                        len == cs.len(),
                        a <= len - 1,
                        buf@ == cw_top_upto(cs, a as int),
                    decreases len - a,
                {
                    buf.push(chars[a]);
                    append_spaces(&mut buf, (len - 2) * 2 + 1);
                    if a == 0 {
                        append_rev_spaced(&mut buf, &chars, 0);
                    } else {
                        buf.push(chars[len - 1 - a]);
                    }
                    buf.push('\n');
                    proof {
                        assert(buf@ =~= cw_top_upto(cs, a as int + 1));
                    }
                    a = a + 1;
                }
                proof {
                    assert(buf@ =~= cw_top_upto(cs, len - 1));
                }
                append_rev_spaced(&mut buf, &chars, 1);
                append_seps_row(&mut buf, &chars);
                proof {
                    assert(buf@ =~= cw_top_upto(cs, len - 1) + middle_line(cs) + cw_bottom_upto(
                        cs,
                        1,
                    ));
                }
                let mut k: usize = 1;
                while k < len
                    invariant
                        cs == chars@,
                        1 <= len <= 300,
                        len == cs.len(),
                        1 <= k <= len,
                        buf@ == cw_top_upto(cs, len - 1) + middle_line(cs) + cw_bottom_upto(
                            cs,
                            k as int,
                        ),
                    decreases len - k,
                {
                    let b = len - 1 - k;
                    if b == 0 {
                        let mut j: usize = 0;
                        while j < len
                            invariant
                                cs == chars@,
                                j <= len,
                                len == cs.len(),
                                1 <= k <= len,
                                b == len - 1 - k,
                                b == 0,
                                buf@ == cw_top_upto(cs, len - 1) + middle_line(cs)
                                    + cw_bottom_upto(cs, k as int) + fwd_spaced_upto(
                                    cs,
                                    j as int,
                                ),
                            decreases len - j,
                        {
                            buf.push(chars[j]);
                            buf.push(' ');
                            proof {
                                assert(buf@ =~= cw_top_upto(cs, len - 1) + middle_line(cs)
                                    + cw_bottom_upto(cs, k as int) + fwd_spaced_upto(
                                    cs,
                                    j as int + 1,
                                ));
                            }
                            j = j + 1;
                        }
                        append_spaces(&mut buf, (len - 2) * 2);
                    } else {
                        append_spaces(&mut buf, (len - 1) * 2);
                        buf.push(chars[k]);
                        append_spaces(&mut buf, (len - 2) * 2 + 1);
                    }
                    buf.push(chars[b]);
                    buf.push('\n');
                    proof {
                        assert(buf@ =~= cw_top_upto(cs, len - 1) + middle_line(cs)
                            + cw_bottom_upto(cs, k as int + 1));
                    }
                    k = k + 1;
                }
                proof {
                    assert(buf@ =~= cw_figure(cs));
                }
                Ok(crate::strings::chars_string(&buf))
            },
        }
    }
}

} // verus!
