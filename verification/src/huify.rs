//! The huify transformer: lowercases the text and replaces the head
//! of every word, up to its first vowel, with the syllable the bot is
//! named for.  It accepts any input.

use crate::strings::{
    append_chars, chars_string, chars_vec, char_is_white, is_white, lower_of, lowercase,
};
use crate::transform::{TransformError, TransformResult, TransformText};
use vstd::prelude::*;

verus! {

pub struct Huify {}

impl Huify {
    pub fn new() -> (r: Self)
        ensures
            r == (Huify {  }),
    {
        Self {  }
    }
}

/// The lowercase Cyrillic vowels.
pub open spec fn spec_is_vowel(c: char) -> bool {
    c == 'а' || c == 'е' || c == 'ё' || c == 'и' || c == 'о' || c == 'у' || c == 'э' || c == 'ы'
        || c == 'ю' || c == 'я'
}

/// The lowercase Cyrillic consonants: the base alphabet without the
/// vowels.
pub open spec fn spec_is_consonant(c: char) -> bool {
    ('а' as u32) <= (c as u32) && (c as u32) <= ('я' as u32) && !spec_is_vowel(c)
}

/// Whether a word calls for the replacement at all: single characters
/// do not, and neither does a word that already starts with the
/// syllable followed by anything but a consonant.
pub open spec fn spec_should_huify(w: Seq<char>) -> bool {
    if w.len() == 0 {
        false
    } else if w[0] == 'х' {
        if w.len() == 1 {
            false
        } else if w[1] == 'у' {
            if w.len() == 2 {
                true
            } else {
                spec_is_consonant(w[2])
            }
        } else {
            true
        }
    } else {
        w.len() >= 2
    }
}

/// The length of the longest vowel-free prefix.
pub open spec fn first_vowel_index(w: Seq<char>) -> int
    decreases w.len(),
{
    if w.len() == 0 {
        0
    } else if spec_is_vowel(w[0]) {
        0
    } else {
        1 + first_vowel_index(w.drop_first())
    }
}

/// The vowel that follows the syllable: back vowels soften.
pub open spec fn spec_vowel_swap(c: char) -> char {
    if c == 'о' {
        'ё'
    } else if c == 'а' {
        'я'
    } else if c == 'у' {
        'ю'
    } else if c == 'ы' {
        'и'
    } else if c == 'э' {
        'е'
    } else {
        c
    }
}

/// The replacement for one word, where the word calls for one: the
/// syllable, the softened first vowel, and the rest of the word.  A
/// word of one byte, a word already carrying the syllable, and a word
/// without vowels are left alone.
pub open spec fn spec_huify_word(w: Seq<char>) -> Option<Seq<char>> {
    if w.len() == 1 && (w[0] as u32) < 128 {
        None
    } else if !spec_should_huify(w) {
        None
    } else {
        let k = first_vowel_index(w);
        if k >= w.len() {
            None
        } else {
            Some(seq!['х', 'у', spec_vowel_swap(w[k])] + w.skip(k + 1))
        }
    }
}

/// A word as the joined text carries it: replaced where the
/// replacement applies, as it stands otherwise.
pub open spec fn huified_piece(w: Seq<char>) -> Seq<char> {
    match spec_huify_word(w) {
        Some(h) => h,
        None => w,
    }
}

/// The first `i` words, huified and joined with single spaces.
pub open spec fn joined_upto(ws: Seq<Seq<char>>, i: int) -> Seq<char>
    decreases i,
{
    if i <= 0 {
        Seq::empty()
    } else if i == 1 {
        huified_piece(ws[0])
    } else {
        joined_upto(ws, i - 1) + seq![' '] + huified_piece(ws[i - 1])
    }
}

/// The length of the longest whitespace-free prefix.
pub open spec fn word_len(s: Seq<char>) -> int
    decreases s.len(),
{
    if s.len() == 0 {
        0
    } else if is_white(s[0]) {
        0
    } else {
        1 + word_len(s.drop_first())
    }
}

/// A word length is never negative and never runs past the text.
pub proof fn lemma_word_len_bounds(s: Seq<char>)
    ensures
        0 <= word_len(s) <= s.len(),
    decreases s.len(),
{
    if s.len() > 0 && !is_white(s[0]) {
        lemma_word_len_bounds(s.drop_first());
    }
}

#[via_fn]
proof fn split_ws_decreases(s: Seq<char>) {
    lemma_word_len_bounds(s);
    if s.len() > 0 && !is_white(s[0]) {
        lemma_word_len_bounds(s.drop_first());
        assert(word_len(s) == 1 + word_len(s.drop_first()));
    }
}

/// The whitespace-separated words of a text, in order.
pub open spec fn split_ws(s: Seq<char>) -> Seq<Seq<char>>
    decreases s.len(),
        via split_ws_decreases
{
    if s.len() == 0 {
        Seq::empty()
    } else if is_white(s[0]) {
        split_ws(s.drop_first())
    } else {
        seq![s.take(word_len(s))] + split_ws(s.skip(word_len(s)))
    }
}

/// The whole transformation: the lowercased text, split into words,
/// each word huified, joined with single spaces; and where all of
/// that hands the input back unchanged, a fixed marker instead.
pub open spec fn spec_huify_text(t: Seq<char>) -> Seq<char> {
    let words = split_ws(lower_of(t));
    let joined = joined_upto(words, words.len() as int);
    if joined == t {
        "<b>ALREADY HUIFIED</b>"@
    } else {
        joined
    }
}

impl TransformText for Huify {
    open spec fn spec_transform(&self, input: Seq<char>) -> Result<Seq<char>, TransformError> {
        Ok(spec_huify_text(input))
    }

    fn transform(&self, input: &str) -> (r: TransformResult<String>) {
        Ok(self.huify_text(input))
    }
}

impl Huify {
    /// Whether a character is a lowercase Cyrillic consonant.
    pub fn is_consonant(&self, c: char) -> (r: bool)
        ensures
            r == spec_is_consonant(c),
    {
        let cu = c as u32;
        ('а' as u32) <= cu && cu <= ('я' as u32) && !is_vowel(c)
    }

    /// Whether a word calls for the replacement.
    pub fn should_huify(&self, w: &Vec<char>) -> (r: bool)
        ensures
            r == spec_should_huify(w@),
    {
        if w.len() == 0 {
            false
        } else if w[0] == 'х' {
            if w.len() == 1 {
                false
            } else if w[1] == 'у' {
                if w.len() == 2 {
                    true
                } else {
                    self.is_consonant(w[2])
                }
            } else {
                true
            }
        } else {
            w.len() >= 2
        }
    }

    /// The replacement for one word, where the word calls for one.
    pub fn huify_word(&self, w: &Vec<char>) -> (r: Option<Vec<char>>)
        ensures
            match spec_huify_word(w@) {
                Some(h) => r matches Some(rv) && rv@ == h,
                None => r is None,
            },
    {
        if w.len() == 1 && (w[0] as u32) < 128 {
            return None;
        }
        if !self.should_huify(w) {
            return None;
        }
        let k = first_vowel_from(w, 0);
        proof {
            assert(w@.skip(0) =~= w@);
        }
        if k >= w.len() {
            return None;
        }
        let mut out: Vec<char> = Vec::new();
        out.push('х');
        out.push('у');
        out.push(vowel_swap(w[k]));
        let mut j: usize = k + 1;
        while j < w.len()
            invariant
                k + 1 <= j <= w@.len(),
                k < w@.len(),
                out@ == seq!['х', 'у', spec_vowel_swap(w@[k as int])] + w@.subrange(
                    k as int + 1,
                    j as int,
                ),
            decreases w@.len() - j,
        {
            out.push(w[j]);
            proof {
                assert(out@ =~= seq!['х', 'у', spec_vowel_swap(w@[k as int])] + w@.subrange(
                    k as int + 1,
                    j as int + 1,
                ));
            }
            j = j + 1;
        }
        proof {
            assert(w@.subrange(k as int + 1, w@.len() as int) =~= w@.skip(k as int + 1));
        }
        Some(out)
    }

    /// Lowercases the text, huifies each word, and joins the words
    /// with single spaces; a text this would hand back unchanged
    /// yields the fixed marker instead.
    pub fn huify_text(&self, text: &str) -> (r: String)
        ensures
            r@ == spec_huify_text(text@),
    {
        let lowered = lowercase(text);
        let lv = chars_vec(lowered.as_str());
        let words = split_white(&lv);
        let ghost ws = crate::strings::char_views(words@);
        let mut out: Vec<char> = Vec::new();
        let mut idx: usize = 0;
        while idx < words.len()
            invariant
                ws == crate::strings::char_views(words@),
                idx <= words@.len(),
                out@ == joined_upto(ws, idx as int),
            decreases words@.len() - idx,
        {
            if idx != 0 {
                out.push(' ');
            }
            match self.huify_word(&words[idx]) {
                Some(h) => append_chars(&mut out, &h),
                None => append_chars(&mut out, &words[idx]),
            }
            proof {
                assert(ws[idx as int] == words@[idx as int]@);
                assert(out@ =~= joined_upto(ws, idx as int + 1));
            }
            idx = idx + 1;
        }
        let original = chars_vec(text);
        if crate::strings::chars_eq(&out, &original) {
            let marker = chars_vec("<b>ALREADY HUIFIED</b>");
            chars_string(&marker)
        } else {
            chars_string(&out)
        }
    }
}

/// Whether a character is a lowercase Cyrillic vowel.
pub fn is_vowel(c: char) -> (r: bool)
    ensures
        r == spec_is_vowel(c),
{
    c == 'а' || c == 'е' || c == 'ё' || c == 'и' || c == 'о' || c == 'у' || c == 'э' || c == 'ы'
        || c == 'ю' || c == 'я'
}

/// The vowel that follows the syllable.
pub fn vowel_swap(c: char) -> (r: char)
    ensures
        r == spec_vowel_swap(c),
{
    match c {
        'о' => 'ё',
        'а' => 'я',
        'у' => 'ю',
        'ы' => 'и',
        'э' => 'е',
        _ => c,
    }
}

/// How far past `i` the first vowel stands.
fn first_vowel_from(v: &Vec<char>, i: usize) -> (n: usize)
    requires
        i <= v@.len(),
    ensures
        n == first_vowel_index(v@.skip(i as int)),
        i + n <= v@.len(),
    decreases v@.len() - i,
{
    if i >= v.len() {
        0
    } else if is_vowel(v[i]) {
        0
    } else {
        let rest = first_vowel_from(v, i + 1);
        proof {
            assert(v@.skip(i as int).drop_first() =~= v@.skip(i as int + 1));
        }
        1 + rest
    }
}

/// How far past `i` the first whitespace stands.
fn word_len_from(v: &Vec<char>, i: usize) -> (n: usize)
    requires
        i <= v@.len(),
    ensures
        n == word_len(v@.skip(i as int)),
        i + n <= v@.len(),
    decreases v@.len() - i,
{
    if i >= v.len() {
        0
    } else if char_is_white(v[i]) {
        0
    } else {
        let rest = word_len_from(v, i + 1);
        proof {
            assert(v@.skip(i as int).drop_first() =~= v@.skip(i as int + 1));
        }
        1 + rest
    }
}

/// The whitespace-separated words of the text, in order.
pub fn split_white(v: &Vec<char>) -> (r: Vec<Vec<char>>)
    ensures
        crate::strings::char_views(r@) == split_ws(v@),
{
    let mut r: Vec<Vec<char>> = Vec::new();
    let mut i: usize = 0;
    proof {
        assert(v@.skip(0) =~= v@);
        assert(crate::strings::char_views(r@) =~= Seq::<Seq<char>>::empty());
    }
    while i < v.len()
        invariant
            i <= v@.len(),
            split_ws(v@) == crate::strings::char_views(r@) + split_ws(v@.skip(i as int)),
        decreases v@.len() - i,
    {
        if char_is_white(v[i]) {
            proof {
                assert(v@.skip(i as int).drop_first() =~= v@.skip(i as int + 1));
            }
            i = i + 1;
        } else {
            let n = word_len_from(v, i);
            proof {
                lemma_word_len_bounds(v@.skip(i as int).drop_first());
                assert(word_len(v@.skip(i as int)) >= 1);
            }
            let mut w: Vec<char> = Vec::new();
            let mut k: usize = 0;
            while k < n
                invariant
                    k <= n,
                    i + n <= v@.len(),
                    v@.len() <= usize::MAX,
                    w@ == v@.subrange(i as int, i as int + k as int),
                decreases n - k,
            {
                w.push(v[i + k]);
                proof {
                    assert(w@ =~= v@.subrange(i as int, i as int + k as int + 1));
                }
                k = k + 1;
            }
            proof {
                let tail = v@.skip(i as int);
                assert(w@ =~= tail.take(word_len(tail)));
                assert(tail.skip(word_len(tail)) =~= v@.skip(i as int + n as int));
                assert(crate::strings::char_views(r@.push(w)) =~= crate::strings::char_views(r@).push(w@));
                assert(crate::strings::char_views(r@) + split_ws(tail) =~= crate::strings::char_views(r@.push(w)) + split_ws(
                    v@.skip(i as int + n as int),
                ));
            }
            r.push(w);
            i = i + n;
        }
    }
    proof {
        assert(v@.skip(i as int) =~= Seq::<char>::empty());
        assert(crate::strings::char_views(r@) =~= crate::strings::char_views(r@) + split_ws(v@.skip(i as int)));
    }
    r
}

} // verus!
