//! sed-style text replacement: completing the `s/…/…/` command lines
//! a message carries, running them over the replied-to text, and
//! shaping the reply.  The regular-expression engine behind the
//! commands is an external concern, called through a trusted wrapper.

use crate::strings::{chars_string, chars_vec, string_views};
use vstd::prelude::*;

verus! {

/// What the replace commands make of a text, each command run over
/// the previous result in order — or nothing, when the engine rejects
/// a command.  Both are functions of the text and the commands alone,
/// but their definition is the regex engine's, so they are left
/// abstract.
pub uninterp spec fn sed_of(text: Seq<char>, commands: Seq<Seq<char>>) -> Option<Seq<char>>;

/// Relies on sedregex::find_and_replace: it folds the commands over
/// the text, each command a `s/…/…/` replacement; a command the
/// engine rejects reports the error's message instead.
#[verifier::external_body]
fn sed_apply(text: &str, commands: &Vec<String>) -> (r: Result<String, String>)
    ensures
        r matches Ok(t) ==> sed_of(text@, string_views(commands@)) == Some(t@),
        r is Ok <==> sed_of(text@, string_views(commands@)) is Some,
{
    match sedregex::find_and_replace(text, commands) {
        Ok(replaced) => Ok(replaced.to_string()),
        Err(err) => Err(err.to_string()),
    }
}

/// How often a character occurs in the text.
pub open spec fn count_char(s: Seq<char>, c: char) -> int
    decreases s.len(),
{
    if s.len() == 0 {
        0
    } else {
        (if s[0] == c {
            1int
        } else {
            0int
        }) + count_char(s.drop_first(), c)
    }
}

/// How often an escaped slash occurs in the text, counting from the
/// left without overlaps.
pub open spec fn count_escaped(s: Seq<char>) -> int
    decreases s.len(),
{
    if s.len() < 2 {
        0
    } else if s[0] == '\\' && s[1] == '/' {
        1 + count_escaped(s.skip(2))
    } else {
        count_escaped(s.drop_first())
    }
}

/// There are never more escaped slashes than slashes.
pub proof fn lemma_escaped_at_most_slashes(s: Seq<char>)
    ensures
        0 <= count_escaped(s) <= count_char(s, '/'),
        0 <= count_char(s, '/') <= s.len(),
    decreases s.len(),
{
    if s.len() == 0 {
    } else if s.len() >= 2 && s[0] == '\\' && s[1] == '/' {
        lemma_escaped_at_most_slashes(s.skip(2));
        lemma_escaped_at_most_slashes(s.drop_first());
        assert(s.drop_first().drop_first() =~= s.skip(2));
        assert(count_char(s.drop_first(), '/') == 1 + count_char(s.skip(2), '/'));
    } else {
        lemma_escaped_at_most_slashes(s.drop_first());
    }
}

/// A command line completed, when it is one: a line opening with
/// `s/`, or `/s/` with the extra slash dropped, and a closing slash
/// added when the line stops after the replacement text.
pub open spec fn spec_complete_command(line: Seq<char>) -> Option<Seq<char>> {
    let starts_plain = line.len() >= 2 && line[0] == 's' && line[1] == '/';
    let starts_slashed = line.len() >= 3 && line[0] == '/' && line[1] == 's' && line[2] == '/';
    if !(starts_plain || starts_slashed) {
        None
    } else {
        let body = if line[0] == '/' {
            line.drop_first()
        } else {
            line
        };
        if count_char(body, '/') - count_escaped(body) == 2 {
            Some(body.push('/'))
        } else {
            Some(body)
        }
    }
}

/// How often `c` occurs in `v` from position `i` on.
fn count_char_from(v: &Vec<char>, i: usize, c: char) -> (n: usize)
    requires
        i <= v@.len(),
    ensures
        n == count_char(v@.skip(i as int), c),
        i + n <= v@.len(),
    decreases v@.len() - i,
{
    if i >= v.len() {
        0
    } else {
        let rest = count_char_from(v, i + 1, c);
        proof {
            assert(v@.skip(i as int).drop_first() =~= v@.skip(i as int + 1));
        }
        if v[i] == c {
            1 + rest
        } else {
            rest
        }
    }
}

/// How often an escaped slash occurs in `v` from position `i` on.
fn count_escaped_from(v: &Vec<char>, i: usize) -> (n: usize)
    requires
        i <= v@.len(),
    ensures
        n == count_escaped(v@.skip(i as int)),
        2 * n <= v@.len() - i,
    decreases v@.len() - i,
{
    let len = v.len();
    if len < 2 || i > len - 2 {
        0
    } else if v[i] == '\\' && v[i + 1] == '/' {
        let rest = count_escaped_from(v, i + 2);
        proof {
            assert(v@.skip(i as int).skip(2) =~= v@.skip(i as int + 2));
        }
        1 + rest
    } else {
        let rest = count_escaped_from(v, i + 1);
        proof {
            assert(v@.skip(i as int).drop_first() =~= v@.skip(i as int + 1));
        }
        rest
    }
}

/// Completes a replace command line, when the line is one.
pub fn complete_command(line: &str) -> (r: Option<String>)
    ensures
        match spec_complete_command(line@) {
            Some(c) => r matches Some(s) && s@ == c,
            None => r is None,
        },
{
    let v = chars_vec(line);
    let starts_plain = v.len() >= 2 && v[0] == 's' && v[1] == '/';
    let starts_slashed = v.len() >= 3 && v[0] == '/' && v[1] == 's' && v[2] == '/';
    if !(starts_plain || starts_slashed) {
        return None;
    }
    let mut body: Vec<char> = Vec::new();
    let start: usize = if v[0] == '/' {
        1
    } else {
        0
    };
    let mut i: usize = start;
    while i < v.len()
        invariant
            start <= i <= v@.len(),
            body@ == v@.subrange(start as int, i as int),
        decreases v@.len() - i,
    {
        body.push(v[i]);
        proof {
            assert(body@ =~= v@.subrange(start as int, i as int + 1));
        }
        i = i + 1;
    }
    proof {
        if start == 1 {
            assert(body@ =~= v@.drop_first());
        } else {
            assert(body@ =~= v@);
        }
    }
    let slashes = count_char_from(&body, 0, '/');
    let escaped = count_escaped_from(&body, 0);
    proof {
        assert(body@.skip(0) =~= body@);
        lemma_escaped_at_most_slashes(body@);
    }
    let mut out = body;
    if slashes - escaped == 2 {
        out.push('/');
    }
    Some(chars_string(&out))
}

/// The commands among the lines of a message, completed, in order.
pub open spec fn spec_completed_commands(lines: Seq<Seq<char>>, i: int) -> Seq<Seq<char>>
    decreases lines.len() - i,
{
    if i < 0 || i >= lines.len() {
        Seq::empty()
    } else {
        match spec_complete_command(lines[i]) {
            Some(c) => seq![c] + spec_completed_commands(lines, i + 1),
            None => spec_completed_commands(lines, i + 1),
        }
    }
}

/// The reply for a replaced text: the text itself, unless it came out
/// empty or too long for one message.
pub open spec fn spec_reply_for(t: Seq<char>) -> Seq<char> {
    if t.len() == 0 {
        "Result text can not be empty"@
    } else if vstd::utf8::encode_utf8(t).len() > 4096 {
        "Result text can not exceed 4096 characters"@
    } else {
        t
    }
}

/// The reply for a replaced text, exactly as `spec_reply_for` fixes
/// it.
pub fn reply_for_replaced(t: String) -> (r: String)
    ensures
        r@ == spec_reply_for(t@),
{
    if t.as_str().is_empty() {
        proof {
            assert(t@ =~= Seq::<char>::empty());
        }
        let v = chars_vec("Result text can not be empty");
        chars_string(&v)
    } else if crate::strings::byte_len(t.as_str()) > 4096 {
        let v = chars_vec("Result text can not exceed 4096 characters");
        chars_string(&v)
    } else {
        proof {
            if t@.len() == 0 {
                assert(vstd::utf8::encode_utf8(t@).len() == 0);
            }
        }
        t
    }
}

/// Runs the replace commands found in `commands_text` over `source`:
/// nothing when no line is a command; otherwise the reply — the
/// replaced text, a complaint about its size, or the engine's error
/// message for an ill-formed command.
pub fn replace_text(source: &str, commands_text: &str) -> (r: Option<String>)
    ensures
        ({
            let commands = spec_completed_commands(split_plain(commands_text@), 0);
            &&& (commands.len() == 0 <==> r is None)
            &&& sed_of(source@, commands) matches Some(t) ==> (commands.len() > 0 ==> (r matches
                Some(s) && s@ == spec_reply_for(t)))
        }),
{
    let all = chars_vec(commands_text);
    let pieces = split_on_newline(&all);
    let ghost nl_lines = crate::strings::char_views(pieces@);
    let mut commands: Vec<String> = Vec::new();
    let mut i: usize = 0;
    proof {
        assert(string_views(commands@) =~= Seq::<Seq<char>>::empty());
        assert(spec_completed_commands(nl_lines, nl_lines.len() as int) =~= Seq::<
            Seq<char>,
        >::empty());
    }
    while i < pieces.len()
        invariant
            nl_lines == crate::strings::char_views(pieces@),
            i <= pieces@.len(),
            spec_completed_commands(nl_lines, 0) == string_views(commands@)
                + spec_completed_commands(nl_lines, i as int),
        decreases pieces@.len() - i,
    {
        let piece = chars_string(&pieces[i]);
        proof {
            assert(nl_lines[i as int] == pieces@[i as int]@);
        }
        match complete_command(piece.as_str()) {
            Some(command) => {
                commands.push(command);
                proof {
                    assert(string_views(commands@) =~= string_views(
                        commands@.drop_last(),
                    ).push(commands@.last()@));
                    assert(string_views(commands@) + spec_completed_commands(
                        nl_lines,
                        i as int + 1,
                    ) =~= string_views(commands@.drop_last()) + spec_completed_commands(
                        nl_lines,
                        i as int,
                    ));
                }
            },
            None => {},
        }
        i = i + 1;
    }
    proof {
        assert(spec_completed_commands(nl_lines, i as int) =~= Seq::<Seq<char>>::empty());
        assert(string_views(commands@) + spec_completed_commands(nl_lines, i as int)
            =~= string_views(commands@));
    }
    if commands.len() == 0 {
        proof {
            assert(string_views(commands@) =~= Seq::<Seq<char>>::empty());
        }
        return None;
    }
    match sed_apply(source, &commands) {
        Ok(t) => Some(reply_for_replaced(t)),
        Err(message) => Some(message),
    }
}

/// The pieces of the text between line-break characters, kept as they
/// stand: empty pieces included, carriage returns untouched.
pub open spec fn split_plain(s: Seq<char>) -> Seq<Seq<char>>
    decreases s.len(),
        via split_plain_decreases
{
    let k = crate::strings::line_len(s);
    if k >= s.len() {
        seq![s]
    } else {
        seq![s.take(k)] + split_plain(s.skip(k + 1))
    }
}

#[via_fn]
proof fn split_plain_decreases(s: Seq<char>) {
    crate::strings::lemma_line_len_bounds(s);
}

/// The pieces of the text between line-break characters.
pub fn split_on_newline(v: &Vec<char>) -> (r: Vec<Vec<char>>)
    ensures
        crate::strings::char_views(r@) == split_plain(v@),
{
    let mut r: Vec<Vec<char>> = Vec::new();
    let mut i: usize = 0;
    let total = v.len();
    proof {
        assert(v@.skip(0) =~= v@);
        assert(crate::strings::char_views(r@) =~= Seq::<Seq<char>>::empty());
    }
    loop
        invariant
            i <= v@.len(),
            total == v@.len(),
            split_plain(v@) == crate::strings::char_views(r@) + split_plain(v@.skip(i as int)),
        decreases v@.len() - i,
    {
        let n = crate::strings::line_len_from(v, i);
        let mut w: Vec<char> = Vec::new();
        let mut k: usize = 0;
        while k < n
            invariant
                k <= n,
                i + n <= v@.len(),
                v@.len() <= usize::MAX,
                w@ == v@.subrange(i as int, i as int + k as int),
            decreases n - k,
        {
            w.push(v[i + k]);
            proof {
                assert(w@ =~= v@.subrange(i as int, i as int + k as int + 1));
            }
            k = k + 1;
        }
        proof {
            let tail = v@.skip(i as int);
            assert(w@ =~= tail.take(crate::strings::line_len(tail)));
            assert(crate::strings::char_views(r@.push(w)) =~= crate::strings::char_views(
                r@,
            ).push(w@));
            if i + n < v@.len() {
                assert(tail.skip(crate::strings::line_len(tail) + 1) =~= v@.skip(
                    i as int + n as int + 1,
                ));
            }
        }
        r.push(w);
        if i + n < v.len() {
            i = i + n + 1;
        } else {
            proof {
                assert(split_plain(v@) =~= crate::strings::char_views(r@));
            }
            return r;
        }
    }
}

} // verus!
