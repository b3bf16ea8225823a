//! The speech box: the text wrapped to a fixed width between two
//! dashed bars, with the crab underneath.

use crate::replace::{split_on_newline, split_plain};
use crate::strings::{append_chars, append_spaces, chars_string, chars_vec, char_views, spaces};
use vstd::prelude::*;

verus! {

/// A run of `m` dashes.
pub open spec fn dashes(m: int) -> Seq<char> {
    Seq::new(
        if m >= 0 {
            m as nat
        } else {
            0
        },
        |i: int| '-',
    )
}

/// The crab under the box.
pub open spec fn ferris_spec() -> Seq<char> {
    r#"
          \
           \
              _~^~^~_
          \) /  o o  \ (/
            '_   -   _'
            / '-----' \
"#@
}

/// One boxed row per `width`-character chunk of a line, from `pos`
/// on, each chunk padded to the width: `| `, the chunk, the padding,
/// ` |`.  An empty line has no rows.
pub open spec fn boxed_rows(l: Seq<char>, pos: int, width: int) -> Seq<char>
    decreases l.len() - pos,
        when width >= 1
{
    if pos >= l.len() || pos < 0 {
        Seq::empty()
    } else {
        let stop = if pos + width <= l.len() {
            pos + width
        } else {
            l.len() as int
        };
        "| "@ + l.subrange(pos, stop) + spaces(width - (stop - pos)) + " |\n"@ + boxed_rows(
            l,
            stop,
            width,
        )
    }
}

/// The boxed rows of the lines from `i` on, in order.
pub open spec fn boxed_lines(lines: Seq<Seq<char>>, i: int, width: int) -> Seq<char>
    decreases lines.len() - i,
{
    if i < 0 || i >= lines.len() {
        Seq::empty()
    } else {
        boxed_rows(lines[i], 0, width) + boxed_lines(lines, i + 1, width)
    }
}

/// The whole speech box for a text.
pub open spec fn say_spec(s: Seq<char>, width: int) -> Seq<char> {
    dashes(width + 4) + seq!['\n'] + boxed_lines(split_plain(s), 0, width) + dashes(width + 4)
        + ferris_spec()
}

/// Renders the speech box: a dashed bar, each line of the input in
/// `width`-character chunks padded to the width, the bar again, and
/// the crab.
pub fn say(input: &str, width: usize) -> (r: String)
    requires
        1 <= width,
        width + 4 <= usize::MAX,
    ensures
        r@ == say_spec(input@, width as int),
{
    let ghost w = width as int;
    let mut buf: Vec<char> = Vec::new();
    append_dashes(&mut buf, width + 4);
    buf.push('\n');
    let ghost top = dashes(w + 4) + seq!['\n'];
    let all = chars_vec(input);
    let lines = split_on_newline(&all);
    let ghost lv = char_views(lines@);
    let ghost whole = top + boxed_lines(lv, 0, w);
    let mut i: usize = 0;
    proof {
        assert(buf@ =~= top);
        assert(whole =~= buf@ + boxed_lines(lv, 0, w));
    }
    while i < lines.len()
        invariant
            lv == char_views(lines@),
            lv == split_plain(input@),
            whole == top + boxed_lines(lv, 0, w),
            1 <= width,
            width + 4 <= usize::MAX,
            w == width as int,
            i <= lines@.len(),
            whole == buf@ + boxed_lines(lv, i as int, w),
        decreases lines@.len() - i,
    {
        let line = &lines[i];
        let len = line.len();
        let mut pos: usize = 0;
        proof {
            assert(lv[i as int] == lines@[i as int]@);
        }
        while pos < len
            invariant
                1 <= width,
                width + 4 <= usize::MAX,
                w == width as int,
                i < lines@.len(),
                lv == char_views(lines@),
                lv[i as int] == lines@[i as int]@,
                line == &lines@[i as int],
                len == line@.len(),
                pos <= len,
                whole == buf@ + boxed_rows(line@, pos as int, w) + boxed_lines(lv, i as int + 1, w),
            decreases len - pos,
        {
            let stop = if len - pos > width {
                pos + width
            } else {
                len
            };
            let ghost before = buf@;
            let opener = chars_vec("| ");
            append_chars(&mut buf, &opener);
            let mut k: usize = pos;
            while k < stop
                invariant
                    pos <= k <= stop <= len,
                    i < lines@.len(),
                    len == line@.len(),
                    line == &lines@[i as int],
                    buf@ == before + "| "@ + line@.subrange(pos as int, k as int),
                decreases stop - k,
            {
                buf.push(line[k]);
                proof {
                    assert(buf@ =~= before + "| "@ + line@.subrange(pos as int, k as int + 1));
                }
                k = k + 1;
            }
            append_spaces(&mut buf, width - (stop - pos));
            let closer = chars_vec(" |\n");
            append_chars(&mut buf, &closer);
            proof {
                assert(buf@ =~= before + ("| "@ + line@.subrange(pos as int, stop as int) + spaces(
                    w - (stop - pos),
                ) + " |\n"@));
            }
            pos = stop;
        }
        i = i + 1;
    }
    proof {
        assert(whole =~= buf@);
    }
    append_dashes(&mut buf, width + 4);
    let tail = chars_vec(
        r#"
          \
           \
              _~^~^~_
          \) /  o o  \ (/
            '_   -   _'
            / '-----' \
"#,
    );
    append_chars(&mut buf, &tail);
    proof {
        assert(buf@ =~= say_spec(input@, w));
    }
    chars_string(&buf)
}

/// Appends `m` dashes to the buffer.
pub fn append_dashes(buf: &mut Vec<char>, m: usize)
    ensures
        final(buf)@ == old(buf)@ + dashes(m as int),
{
    let mut k: usize = 0;
    while k < m
        invariant
            k <= m,
            buf@ == old(buf)@ + dashes(k as int),
        decreases m - k,
    {
        buf.push('-');
        proof {
            assert(buf@ =~= old(buf)@ + dashes(k as int + 1));
        }
        k = k + 1;
    }
    proof {
        assert(buf@ =~= old(buf)@ + dashes(m as int));
    }
}

} // verus!
