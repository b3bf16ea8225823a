//! Character-level helpers shared by the text handlers.
//!
//! All text logic in this crate works on `Vec<char>` so that it can be
//! verified against `Seq<char>` views; the functions here bridge to and
//! from `str`/`String` and wrap the few Unicode tables that only the
//! standard library knows.

use vstd::prelude::*;
use vstd::string::StringSliceAdditionalSpecFns;

verus! {

/// The sequence of characters that `str::to_lowercase` produces for a
/// given sequence of characters.  Lowercasing is a pure function of the
/// characters alone, but its full definition is the Unicode case-folding
/// table, so it is left abstract.
pub uninterp spec fn lower_of(s: Seq<char>) -> Seq<char>;

/// The characters that `char::to_uppercase` yields for one character.
pub uninterp spec fn upper_of(c: char) -> Seq<char>;

/// Whether `char::is_whitespace` holds of a character (the Unicode
/// `White_Space` property).
pub uninterp spec fn is_white(c: char) -> bool;

/// Relies on str::chars: it yields exactly the characters of the slice,
/// which are the view of the slice.
#[verifier::external_body]
pub fn chars_vec(s: &str) -> (r: Vec<char>)
    ensures
        r@ == s@,
{
    s.chars().collect()
}

/// Relies on FromIterator for String: collecting characters builds the
/// string of exactly those characters.
#[verifier::external_body]
pub fn chars_string(v: &Vec<char>) -> (r: String)
    ensures
        r@ == v@,
{
    v.iter().collect()
}

/// Relies on str::to_lowercase: the result depends on the characters
/// alone, and an empty string stays empty.
#[verifier::external_body]
pub fn lowercase(s: &str) -> (r: String)
    ensures
        r@ == lower_of(s@),
        s@.len() == 0 ==> r@.len() == 0,
{
    s.to_lowercase()
}

/// Relies on char::to_uppercase: the mapping depends on the character
/// alone and yields one character or more; the longest uppercase
/// mappings in Unicode are three characters.
#[verifier::external_body]
pub fn char_upper(c: char) -> (r: Vec<char>)
    ensures
        r@ == upper_of(c),
        1 <= r@.len() <= 3,
{
    c.to_uppercase().collect()
}

/// Relies on str::len: the length of the slice in bytes, which is the
/// length of its UTF-8 encoding.
#[verifier::external_body]
pub fn byte_len(s: &str) -> (n: usize)
    ensures
        n == s.spec_bytes().len(),
{
    s.len()
}

/// Relies on char::is_whitespace: a fixed table, a function of the
/// character alone.
#[verifier::external_body]
pub fn char_is_white(c: char) -> (r: bool)
    ensures
        r == is_white(c),
{
    c.is_whitespace()
}

/// A string has at least as many bytes as characters: every character
/// takes at least one byte of UTF-8.
pub proof fn lemma_bytes_at_least_chars(s: Seq<char>)
    ensures
        vstd::utf8::encode_utf8(s).len() >= s.len(),
    decreases s.len(),
{
    if s.len() > 0 {
        lemma_bytes_at_least_chars(s.drop_first());
        assert(vstd::utf8::encode_scalar(s[0] as u32).len() >= 1);
    }
}

/// The decimal digits of `n`, most significant first.
pub open spec fn spec_decimal(n: nat) -> Seq<char>
    decreases n,
{
    let digit = seq![digit_char((n % 10) as int)];
    if n < 10 {
        digit
    } else {
        spec_decimal(n / 10) + digit
    }
}

/// The character for one decimal digit.
pub open spec fn digit_char(d: int) -> char {
    if d == 0 {
        '0'
    } else if d == 1 {
        '1'
    } else if d == 2 {
        '2'
    } else if d == 3 {
        '3'
    } else if d == 4 {
        '4'
    } else if d == 5 {
        '5'
    } else if d == 6 {
        '6'
    } else if d == 7 {
        '7'
    } else if d == 8 {
        '8'
    } else {
        '9'
    }
}

/// The decimal rendering of a number.
pub fn decimal_chars(n: usize) -> (r: Vec<char>)
    ensures
        r@ == spec_decimal(n as nat),
    decreases n,
{
    let d = n % 10;
    let digit = match d {
        0 => '0',
        1 => '1',
        2 => '2',
        3 => '3',
        4 => '4',
        5 => '5',
        6 => '6',
        7 => '7',
        8 => '8',
        _ => '9',
    };
    if n < 10 {
        let mut r: Vec<char> = Vec::new();
        r.push(digit);
        proof {
            assert(r@ =~= spec_decimal(n as nat));
        }
        r
    } else {
        let mut r = decimal_chars(n / 10);
        r.push(digit);
        proof {
            assert(r@ =~= spec_decimal(n as nat));
        }
        r
    }
}

/// A run of `m` spaces.
pub open spec fn spaces(m: int) -> Seq<char> {
    Seq::new(if m >= 0 {
        m as nat
    } else {
        0
    }, |i: int| ' ')
}

/// Appends `m` spaces to the buffer.
pub fn append_spaces(buf: &mut Vec<char>, m: usize)
    ensures
        final(buf)@ == old(buf)@ + spaces(m as int),
{
    let mut k: usize = 0;
    while k < m
        invariant
            k <= m,
            buf@ == old(buf)@ + spaces(k as int),
        decreases m - k,
    {
        buf.push(' ');
        proof {
            assert(buf@ =~= old(buf)@ + spaces(k as int + 1));
        }
        k = k + 1;
    }
    proof {
        assert(buf@ =~= old(buf)@ + spaces(m as int));
    }
}

/// Whether the characters spell the given text.
pub fn eq_lit(v: &Vec<char>, lit: &str) -> (r: bool)
    ensures
        r == (v@ == lit@),
{
    let l = chars_vec(lit);
    let mut i: usize = 0;
    if v.len() != l.len() {
        proof {
            assert(v@ != lit@);
        }
        return false;
    }
    while i < v.len()
        invariant
            i <= v@.len(),
            v@.len() == l@.len(),
            l@ == lit@,
            forall|k: int| 0 <= k < i ==> v@[k] == l@[k],
        decreases v@.len() - i,
    {
        if v[i] != l[i] {
            proof {
                assert(v@ != lit@);
            }
            return false;
        }
        i = i + 1;
    }
    proof {
        assert(v@ =~= lit@);
    }
    true
}

/// Whether two character lists hold the same characters.
pub fn chars_eq(a: &Vec<char>, b: &Vec<char>) -> (r: bool)
    ensures
        r == (a@ == b@),
{
    if a.len() != b.len() {
        proof {
            assert(a@ != b@);
        }
        return false;
    }
    let mut i: usize = 0;
    while i < a.len()
        invariant
            i <= a@.len(),
            a@.len() == b@.len(),
            forall|k: int| 0 <= k < i ==> a@[k] == b@[k],
        decreases a@.len() - i,
    {
        if a[i] != b[i] {
            proof {
                assert(a@ != b@);
            }
            return false;
        }
        i = i + 1;
    }
    proof {
        assert(a@ =~= b@);
    }
    true
}

/// The views of a list of character lists.
pub open spec fn char_views(ws: Seq<Vec<char>>) -> Seq<Seq<char>> {
    ws.map_values(|w: Vec<char>| w@)
}

/// The length of the text up to its first line break.
pub open spec fn line_len(s: Seq<char>) -> int
    decreases s.len(),
{
    if s.len() == 0 {
        0
    } else if s[0] == '\n' {
        0
    } else {
        1 + line_len(s.drop_first())
    }
}

/// A line length is never negative and never runs past the text.
pub proof fn lemma_line_len_bounds(s: Seq<char>)
    ensures
        0 <= line_len(s) <= s.len(),
    decreases s.len(),
{
    if s.len() > 0 && s[0] != '\n' {
        lemma_line_len_bounds(s.drop_first());
    }
}

/// A line without its trailing carriage return, if it has one.
pub open spec fn strip_cr(l: Seq<char>) -> Seq<char> {
    if l.len() > 0 && l.last() == '\r' {
        l.drop_last()
    } else {
        l
    }
}

#[via_fn]
proof fn spec_lines_decreases(s: Seq<char>) {
    lemma_line_len_bounds(s);
}

/// The lines of a text: split at line breaks, each line's trailing
/// carriage return stripped, and no final empty line for a trailing
/// break.
pub open spec fn spec_lines(s: Seq<char>) -> Seq<Seq<char>>
    decreases s.len(),
        via spec_lines_decreases
{
    if s.len() == 0 {
        Seq::empty()
    } else {
        let k = line_len(s);
        if k >= s.len() {
            seq![s]
        } else {
            seq![strip_cr(s.take(k))] + spec_lines(s.skip(k + 1))
        }
    }
}

/// How far past `i` the first line break stands.
pub fn line_len_from(v: &Vec<char>, i: usize) -> (n: usize)
    requires
        i <= v@.len(),
    ensures
        n == line_len(v@.skip(i as int)),
        i + n <= v@.len(),
    decreases v@.len() - i,
{
    if i >= v.len() {
        0
    } else if v[i] == '\n' {
        0
    } else {
        let rest = line_len_from(v, i + 1);
        proof {
            assert(v@.skip(i as int).drop_first() =~= v@.skip(i as int + 1));
        }
        1 + rest
    }
}

/// The lines of the text, in order.
pub fn split_lines(v: &Vec<char>) -> (r: Vec<Vec<char>>)
    ensures
        char_views(r@) == spec_lines(v@),
{
    let mut r: Vec<Vec<char>> = Vec::new();
    let mut i: usize = 0;
    proof {
        assert(v@.skip(0) =~= v@);
        assert(char_views(r@) =~= Seq::<Seq<char>>::empty());
    }
    while i < v.len()
        invariant
            i <= v@.len(),
            spec_lines(v@) == char_views(r@) + spec_lines(v@.skip(i as int)),
        decreases v@.len() - i,
    {
        let n = line_len_from(v, i);
        let stop = if i + n < v.len() && n > 0 && v[i + n - 1] == '\r' {
            n - 1
        } else {
            n
        };
        let mut w: Vec<char> = Vec::new();
        let mut k: usize = 0;
        while k < stop
            invariant
                k <= stop,
                stop <= n,
                i + n <= v@.len(),
                v@.len() <= usize::MAX,
                w@ == v@.subrange(i as int, i as int + k as int),
            decreases stop - k,
        {
            w.push(v[i + k]);
            proof {
                assert(w@ =~= v@.subrange(i as int, i as int + k as int + 1));
            }
            k = k + 1;
        }
        proof {
            let tail = v@.skip(i as int);
            if i + n < v@.len() {
                assert(w@ =~= strip_cr(tail.take(line_len(tail))));
                assert(tail.skip(line_len(tail) + 1) =~= v@.skip(i as int + n as int + 1));
            } else {
                assert(w@ =~= tail);
            }
            assert(char_views(r@.push(w)) =~= char_views(r@).push(w@));
        }
        r.push(w);
        if i + n < v.len() {
            i = i + n + 1;
        } else {
            proof {
                assert(v@.skip(v@.len() as int) =~= Seq::<char>::empty());
                assert(char_views(r@) + spec_lines(Seq::<char>::empty()) =~= char_views(r@));
            }
            return r;
        }
    }
    proof {
        assert(v@.skip(i as int) =~= Seq::<char>::empty());
        assert(char_views(r@) + spec_lines(v@.skip(i as int)) =~= char_views(r@));
    }
    r
}

/// How many whitespace characters the text starts with.
pub open spec fn leading_white(s: Seq<char>) -> int
    decreases s.len(),
{
    if s.len() == 0 {
        0
    } else if !is_white(s[0]) {
        0
    } else {
        1 + leading_white(s.drop_first())
    }
}

/// How many whitespace characters the text ends with.
pub open spec fn trailing_white(s: Seq<char>) -> int
    decreases s.len(),
{
    if s.len() == 0 {
        0
    } else if !is_white(s.last()) {
        0
    } else {
        1 + trailing_white(s.drop_last())
    }
}

/// The text without its leading and trailing whitespace.
pub open spec fn trim_spec(s: Seq<char>) -> Seq<char> {
    let a = leading_white(s);
    let b = s.len() - trailing_white(s);
    if a <= b {
        s.subrange(a, b)
    } else {
        Seq::empty()
    }
}

/// How many whitespace characters `v` starts with, counting from `i`.
fn leading_count(v: &Vec<char>, i: usize) -> (n: usize)
    requires
        i <= v@.len(),
    ensures
        n == leading_white(v@.skip(i as int)),
        i + n <= v@.len(),
    decreases v@.len() - i,
{
    if i >= v.len() {
        0
    } else if !char_is_white(v[i]) {
        0
    } else {
        let rest = leading_count(v, i + 1);
        proof {
            assert(v@.skip(i as int).drop_first() =~= v@.skip(i as int + 1));
        }
        1 + rest
    }
}

/// How many whitespace characters the first `j` characters of `v` end
/// with.
fn trailing_count(v: &Vec<char>, j: usize) -> (n: usize)
    requires
        j <= v@.len(),
    ensures
        n == trailing_white(v@.take(j as int)),
        n <= j,
    decreases j,
{
    if j == 0 {
        0
    } else if !char_is_white(v[j - 1]) {
        0
    } else {
        let rest = trailing_count(v, j - 1);
        proof {
            assert(v@.take(j as int).drop_last() =~= v@.take(j as int - 1));
        }
        1 + rest
    }
}

/// The characters without their leading and trailing whitespace.
pub fn trim_chars(v: &Vec<char>) -> (r: Vec<char>)
    ensures
        r@ == trim_spec(v@),
{
    let a = leading_count(v, 0);
    let b = v.len() - trailing_count(v, v.len());
    proof {
        assert(v@.skip(0) =~= v@);
        assert(v@.take(v@.len() as int) =~= v@);
    }
    let mut r: Vec<char> = Vec::new();
    if a > b {
        proof {
            assert(r@ =~= trim_spec(v@));
        }
        return r;
    }
    let mut i: usize = a;
    while i < b
        invariant
            a <= i <= b <= v@.len(),
            r@ == v@.subrange(a as int, i as int),
        decreases b - i,
    {
        r.push(v[i]);
        proof {
            assert(r@ =~= v@.subrange(a as int, i as int + 1));
        }
        i = i + 1;
    }
    proof {
        assert(r@ =~= trim_spec(v@));
    }
    r
}

/// The views of a list of strings.
pub open spec fn string_views(ss: Seq<String>) -> Seq<Seq<char>> {
    ss.map_values(|s: String| s@)
}

/// The first `i` parts, joined with single spaces.
pub open spec fn join_spaced(parts: Seq<Seq<char>>, i: int) -> Seq<char>
    decreases i,
{
    if i <= 0 {
        Seq::empty()
    } else if i == 1 {
        parts[0]
    } else {
        join_spaced(parts, i - 1) + seq![' '] + parts[i - 1]
    }
}

/// Joins the strings with single spaces.
pub fn join_with_space(parts: &Vec<String>) -> (r: Vec<char>)
    ensures
        r@ == join_spaced(string_views(parts@), parts@.len() as int),
{
    let ghost ps = string_views(parts@);
    let mut r: Vec<char> = Vec::new();
    let mut i: usize = 0;
    while i < parts.len()
        invariant
            ps == string_views(parts@),
            i <= parts@.len(),
            r@ == join_spaced(ps, i as int),
        decreases parts@.len() - i,
    {
        if i != 0 {
            r.push(' ');
        }
        let part = chars_vec(parts[i].as_str());
        append_chars(&mut r, &part);
        proof {
            assert(ps[i as int] == parts@[i as int]@);
            assert(r@ =~= join_spaced(ps, i as int + 1));
        }
        i = i + 1;
    }
    r
}

/// Appends the view of `s` to the buffer.
pub fn append_chars(buf: &mut Vec<char>, s: &Vec<char>)
    ensures
        final(buf)@ == old(buf)@ + s@,
{
    let mut k: usize = 0;
    while k < s.len()
        invariant
            k <= s@.len(),
            buf@ == old(buf)@ + s@.take(k as int),
        decreases s@.len() - k,
    {
        buf.push(s[k]);
        proof {
            assert(buf@ =~= old(buf)@ + s@.take(k as int + 1));
        }
        k = k + 1;
    }
    proof {
        assert(buf@ =~= old(buf)@ + s@);
    }
}

} // verus!
