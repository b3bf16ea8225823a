//! The square figure: the uppercased text unfolds from the centre of
//! a square grid out to its edges.

use crate::strings::lemma_bytes_at_least_chars;
use crate::transform::{
    collect_uppercase_chars, len_within, upper_chars, validate_len, TransformError,
    TransformResult, TransformText,
};
use vstd::prelude::*;
use vstd::string::StringSliceAdditionalSpecFns;

verus! {

pub struct Square {
    min_len: usize,
    max_len: usize,
}

impl Square {
    /// The accepted byte lengths are small, so the figure always fits
    /// comfortably in memory.
    #[verifier::type_invariant]
    spec fn bounds_inv(self) -> bool {
        1 <= self.min_len && self.max_len <= 100
    }

    /// The smallest byte length this transformer accepts.
    pub closed spec fn spec_min(self) -> usize {
        self.min_len
    }

    /// The largest byte length this transformer accepts.
    pub closed spec fn spec_max(self) -> usize {
        self.max_len
    }

    pub fn new() -> (r: Self)
        ensures
            r.spec_min() == 2,
            r.spec_max() == 100,
    {
        Self { min_len: 2, max_len: 100 }
    }
}

/// The character at one grid position: both coordinates fold back
/// past the middle, and the smaller folded coordinate picks the
/// character, outermost character first.
pub open spec fn square_cell(c: Seq<char>, row: int, col: int) -> char {
    let n = c.len() as int;
    let side = 2 * n - 1;
    let ri = if row >= n {
        side - row - 1
    } else {
        row
    };
    let ci = if col >= n {
        side - col - 1
    } else {
        col
    };
    c[n - 1 - (if ri <= ci {
        ri
    } else {
        ci
    })]
}

/// One grid row up to column `col`: cells separated by single spaces.
pub open spec fn square_row_upto(c: Seq<char>, row: int, col: int) -> Seq<char>
    decreases col,
{
    if col <= 0 {
        Seq::empty()
    } else {
        square_row_upto(c, row, col - 1) + seq![square_cell(c, row, col - 1)] + (if col - 1 != 2
            * c.len() - 2 {
            seq![' ']
        } else {
            Seq::empty()
        })
    }
}

/// The grid up to row `row`: rows separated by single newlines.
pub open spec fn square_rows_upto(c: Seq<char>, row: int) -> Seq<char>
    decreases row,
{
    if row <= 0 {
        Seq::empty()
    } else {
        square_rows_upto(c, row - 1) + square_row_upto(c, row - 1, 2 * c.len() - 1) + (if row - 1
            != 2 * c.len() - 2 {
            seq!['\n']
        } else {
            Seq::empty()
        })
    }
}

/// The whole square figure for the given characters.
pub open spec fn square_figure(c: Seq<char>) -> Seq<char> {
    square_rows_upto(c, 2 * c.len() - 1)
}

impl TransformText for Square {
    open spec fn spec_transform(&self, input: Seq<char>) -> Result<Seq<char>, TransformError> {
        if !len_within(
            self.spec_min() as int,
            self.spec_max() as int,
            vstd::utf8::encode_utf8(input).len() as int,
        ) {
            Err(TransformError::InvalidLength { min: self.spec_min(), max: self.spec_max() })
        } else {
            Ok(square_figure(upper_chars(input)))
        }
    }

    fn transform(&self, input: &str) -> (r: TransformResult<String>) {
        proof {
            use_type_invariant(self);
        }
        match validate_len(self.min_len, self.max_len, crate::strings::byte_len(input)) {
            Err(e) => Err(e),
            Ok(_) => {
                let chars = collect_uppercase_chars(input);
                proof {
                    lemma_bytes_at_least_chars(input@);
                }
                let len = chars.len();
                let side = len * 2 - 1;
                let mut buf: Vec<char> = Vec::new();
                let ghost cs = chars@;
                let mut row: usize = 0;
                while row < side
                    invariant
                        cs == chars@,
                        chars@ == upper_chars(input@),
                        1 <= len <= 300,
                        len == cs.len(),
                        side == 2 * len - 1,
                        row <= side,
                        buf@ == square_rows_upto(cs, row as int),
                    decreases side - row,
                {
                    let row_idx = if row >= len {
                        side - row - 1
                    } else {
                        row
                    };
                    let mut col: usize = 0;
                    while col < side
                        invariant
                            cs == chars@,
                            1 <= len <= 300,
                            len == cs.len(),
                            side == 2 * len - 1,
                            row < side,
                            col <= side,
                            row_idx as int == (if row >= len {
                                side - row - 1
                            } else {
                                row as int
                            }),
                            buf@ == square_rows_upto(cs, row as int) + square_row_upto(
                                cs,
                                row as int,
                                col as int,
                            ),
                        decreases side - col,
                    {
                        let col_idx = if col >= len {
                            side - col - 1
                        } else {
                            col
                        };
                        let fold = if row_idx <= col_idx {
                            row_idx
                        } else {
                            col_idx
                        };
                        buf.push(chars[len - 1 - fold]);
                        if col != side - 1 {
                            buf.push(' ');
                        }
                        proof {
                            assert(buf@ =~= square_rows_upto(cs, row as int) + square_row_upto(
                                cs,
                                row as int,
                                col as int + 1,
                            ));
                        }
                        col = col + 1;
                    }
                    if row != side - 1 {
                        buf.push('\n');
                    }
                    proof {
                        assert(buf@ =~= square_rows_upto(cs, row as int + 1));
                    }
                    row = row + 1;
                }
                Ok(crate::strings::chars_string(&buf))
            },
        }
    }
}

} // verus!
