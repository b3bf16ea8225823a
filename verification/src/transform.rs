//! Text transformers: the common trait, the length check they share,
//! and the uppercase folding the figure transformers start from.

use crate::strings::{chars_string, chars_vec, char_upper, spec_decimal, upper_of};
use vstd::prelude::*;
use vstd::string::StringSliceAdditionalSpecFns;

verus! {

/// Why a transformer rejected its input.
#[derive(Clone, Copy, Debug, PartialEq, Eq, Structural)]
pub enum TransformError {
    InvalidLength { min: usize, max: usize },
}

impl TransformError {
    /// The message shown for this error.
    pub open spec fn spec_message(self) -> Seq<char> {
        match self {
            TransformError::InvalidLength { min, max } => "Text must contain from "@
                + spec_decimal(min as nat) + " up to "@ + spec_decimal(max as nat)
                + " characters"@,
        }
    }

    /// Renders the message shown for this error.
    pub fn message(&self) -> (r: String)
        ensures
            r@ == self.spec_message(),
    {
        match self {
            TransformError::InvalidLength { min, max } => {
                let mut buf = chars_vec("Text must contain from ");
                let mut part = crate::strings::decimal_chars(*min);
                crate::strings::append_chars(&mut buf, &part);
                let middle = chars_vec(" up to ");
                crate::strings::append_chars(&mut buf, &middle);
                part = crate::strings::decimal_chars(*max);
                crate::strings::append_chars(&mut buf, &part);
                let tail = chars_vec(" characters");
                crate::strings::append_chars(&mut buf, &tail);
                chars_string(&buf)
            },
        }
    }
}

pub type TransformResult<T> = Result<T, TransformError>;

/// A text transformer.  Each implementor fixes, in `spec_transform`,
/// exactly what it produces for every input, and its `transform` is
/// verified against that.
pub trait TransformText {
    /// The exact result of this transformer on the characters of an
    /// input: the produced characters, or the rejection.
    spec fn spec_transform(&self, input: Seq<char>) -> Result<Seq<char>, TransformError>;

    fn transform(&self, input: &str) -> (r: TransformResult<String>)
        ensures
            r matches Ok(s) ==> self.spec_transform(input@) matches Ok(t) && s@ == t,
            r matches Err(e) ==> self.spec_transform(input@) == Err::<Seq<char>, TransformError>(
                e,
            ),
    ;
}

/// Whether a byte length lies within the given bounds.
pub open spec fn len_within(min: int, max: int, len: int) -> bool {
    min <= len && len <= max
}

/// Rejects a byte length outside `min ..= max`.
pub fn validate_len(min: usize, max: usize, len: usize) -> (r: TransformResult<()>)
    ensures
        r matches Ok(u) ==> len_within(min as int, max as int, len as int),
        r matches Err(e) ==> !len_within(min as int, max as int, len as int) && e
            == (TransformError::InvalidLength { min, max }),
{
    if len < min || len > max {
        Err(TransformError::InvalidLength { min, max })
    } else {
        Ok(())
    }
}

/// The uppercase folding of a character, as a function.
pub open spec fn upper_fn() -> spec_fn(char) -> Seq<char> {
    |c: char| upper_of(c)
}

/// The characters of `s`, each replaced by its uppercase folding.
pub open spec fn upper_chars(s: Seq<char>) -> Seq<char> {
    s.flat_map(upper_fn())
}

/// The uppercase folding of a string, character by character.
pub fn collect_uppercase_chars(s: &str) -> (r: Vec<char>)
    ensures
        r@ == upper_chars(s@),
        s@.len() >= 1 ==> r@.len() >= 1,
        r@.len() <= 3 * s@.len(),
{
    let cs = chars_vec(s);
    let mut r: Vec<char> = Vec::new();
    let mut i: usize = 0;
    proof {
        assert(cs@.take(0).flat_map(upper_fn()) =~= Seq::<char>::empty());
    }
    while i < cs.len()
        invariant
            i <= cs@.len(),
            cs@ == s@,
            r@ == cs@.take(i as int).flat_map(upper_fn()),
            i >= 1 ==> r@.len() >= 1,
            r@.len() <= 3 * i,
        decreases cs@.len() - i,
    {
        let up = char_upper(cs[i]);
        crate::strings::append_chars(&mut r, &up);
        proof {
            cs@.lemma_flat_map_take_append(upper_fn(), i as int);
        }
        i = i + 1;
    }
    proof {
        assert(cs@.take(i as int) =~= cs@);
    }
    r
}

/// The first `i` characters, each followed by a single space, except
/// the final character of the text, which is followed by a newline.
pub open spec fn seps_row_upto(c: Seq<char>, i: int) -> Seq<char>
    decreases i,
{
    if i <= 0 {
        Seq::empty()
    } else {
        seps_row_upto(c, i - 1) + seq![
            c[i - 1],
            if i - 1 == c.len() - 1 {
                '\n'
            } else {
                ' '
            },
        ]
    }
}

/// The characters from the last one down to `c[from]`, each followed
/// by a single space.
pub open spec fn rev_spaced_from(c: Seq<char>, from: int) -> Seq<char>
    decreases c.len() - from,
{
    if from >= c.len() {
        Seq::empty()
    } else {
        rev_spaced_from(c, from + 1) + seq![c[from], ' ']
    }
}

/// The middle line the star and crossword figures share: the text
/// walked backwards down to its second character, then forwards in
/// full, all single-spaced.
pub open spec fn middle_line(c: Seq<char>) -> Seq<char> {
    rev_spaced_from(c, 1) + seps_row_upto(c, c.len() as int)
}

/// Appends the first `i == c.len()` separated characters: each
/// followed by a space, the last by a newline.
pub fn append_seps_row(buf: &mut Vec<char>, chars: &Vec<char>)
    requires
        chars@.len() >= 1,
    ensures
        final(buf)@ == old(buf)@ + seps_row_upto(chars@, chars@.len() as int),
{
    let len = chars.len();
    let mut i: usize = 0;
    while i < len
        invariant
            i <= len,
            len == chars@.len(),
            1 <= len,
            buf@ == old(buf)@ + seps_row_upto(chars@, i as int),
        decreases len - i,
    {
        buf.push(chars[i]);
        if i == len - 1 {
            buf.push('\n');
        } else {
            buf.push(' ');
        }
        proof {
            assert(buf@ =~= old(buf)@ + seps_row_upto(chars@, i as int + 1));
        }
        i = i + 1;
    }
}

/// Appends the characters from the last down to `chars[from]`, each
/// followed by a space.
pub fn append_rev_spaced(buf: &mut Vec<char>, chars: &Vec<char>, from: usize)
    requires
        from <= chars@.len(),
    ensures
        final(buf)@ == old(buf)@ + rev_spaced_from(chars@, from as int),
{
    let mut k: usize = chars.len();
    proof {
        assert(buf@ =~= old(buf)@ + rev_spaced_from(chars@, k as int));
    }
    while k > from
        invariant
            from <= k <= chars@.len(),
            buf@ == old(buf)@ + rev_spaced_from(chars@, k as int),
        decreases k,
    {
        buf.push(chars[k - 1]);
        buf.push(' ');
        proof {
            assert(buf@ =~= old(buf)@ + rev_spaced_from(chars@, k as int - 1));
        }
        k = k - 1;
    }
}

} // verus!
