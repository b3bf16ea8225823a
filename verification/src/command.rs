//! The chat commands around the text transformers: each command owns
//! a name, a transformer, and the choice whether the reply is sent in
//! a monospace block.

use crate::arrow::Arrow;
use crate::chain::{Chain, Transformer};
use crate::cw::Cw;
use crate::huify::Huify;
use crate::reverse::Reverse;
use crate::square::Square;
use crate::star::Star;
use crate::strings::{append_chars, chars_string, chars_vec};
use crate::transform::TransformText;
use vstd::prelude::*;

verus! {

pub struct TransformCommand<T> {
    pub name: String,
    pub transformer: T,
    pub monospace_reply: bool,
}

impl TransformCommand<Arrow> {
    pub fn arrow() -> (r: Self)
        ensures
            r.name@ == "/arrow"@,
            r.transformer.spec_min() == 3 && r.transformer.spec_max() == 100,
            r.monospace_reply,
    {
        Self {
            name: chars_string(&chars_vec("/arrow")),
            transformer: Arrow::new(),
            monospace_reply: true,
        }
    }
}

impl TransformCommand<Cw> {
    pub fn cw() -> (r: Self)
        ensures
            r.name@ == "/cw"@,
            r.transformer.spec_min() == 3 && r.transformer.spec_max() == 100,
            r.monospace_reply,
    {
        Self {
            name: chars_string(&chars_vec("/cw")),
            transformer: Cw::new(),
            monospace_reply: true,
        }
    }
}

impl TransformCommand<Huify> {
    pub fn huify() -> (r: Self)
        ensures
            r.name@ == "/huify"@,
            !r.monospace_reply,
    {
        Self {
            name: chars_string(&chars_vec("/huify")),
            transformer: Huify::new(),
            monospace_reply: false,
        }
    }
}

impl TransformCommand<Chain> {
    /// The chained command: huify, reverse, huify again, reverse
    /// back.
    pub fn jerkify() -> (r: Self)
        ensures
            r.name@ == "/jerkify"@,
            !r.monospace_reply,
            r.transformer.transformers@.len() == 4,
            r.transformer.transformers@[0] == Transformer::Huify(Huify {  }),
            r.transformer.transformers@[1] == Transformer::Reverse(Reverse),
            r.transformer.transformers@[2] == Transformer::Huify(Huify {  }),
            r.transformer.transformers@[3] == Transformer::Reverse(Reverse),
    {
        Self {
            name: chars_string(&chars_vec("/jerkify")),
            transformer: Chain::new(
                vec![
                    Transformer::Huify(Huify::new()),
                    Transformer::Reverse(Reverse),
                    Transformer::Huify(Huify::new()),
                    Transformer::Reverse(Reverse),
                ],
            ),
            monospace_reply: false,
        }
    }
}

impl TransformCommand<Reverse> {
    pub fn reverse() -> (r: Self)
        ensures
            r.name@ == "/reverse"@,
            !r.monospace_reply,
    {
        Self {
            name: chars_string(&chars_vec("/reverse")),
            transformer: Reverse,
            monospace_reply: false,
        }
    }
}

impl TransformCommand<Square> {
    pub fn square() -> (r: Self)
        ensures
            r.name@ == "/square"@,
            r.transformer.spec_min() == 2 && r.transformer.spec_max() == 100,
            r.monospace_reply,
    {
        Self {
            name: chars_string(&chars_vec("/square")),
            transformer: Square::new(),
            monospace_reply: true,
        }
    }
}

impl TransformCommand<Star> {
    pub fn star() -> (r: Self)
        ensures
            r.name@ == "/star"@,
            r.transformer.spec_min() == 3 && r.transformer.spec_max() == 100,
            r.monospace_reply,
    {
        Self {
            name: chars_string(&chars_vec("/star")),
            transformer: Star::new(),
            monospace_reply: true,
        }
    }
}

impl<T: TransformText> TransformCommand<T> {
    /// The reply the command sends for a given input text: the
    /// transformed text, wrapped in a monospace block where the
    /// command asks for one, or the error message where the input was
    /// rejected.
    pub open spec fn spec_response(&self, text: Seq<char>) -> Seq<char> {
        match self.transformer.spec_transform(text) {
            Ok(t) => if self.monospace_reply {
                "<pre>"@ + t + "\n</pre>"@
            } else {
                t
            },
            Err(e) => e.spec_message(),
        }
    }

    /// Whether an incoming command name is this command's.
    pub fn matches_name(&self, command: &str) -> (r: bool)
        ensures
            r == (command@ == self.name@),
    {
        let a = chars_vec(command);
        let b = chars_vec(self.name.as_str());
        crate::strings::chars_eq(&a, &b)
    }

    /// Renders the reply for an input text.
    pub fn respond(&self, text: &str) -> (r: String)
        ensures
            r@ == self.spec_response(text@),
    {
        match self.transformer.transform(text) {
            Ok(t) => {
                if self.monospace_reply {
                    let mut buf = chars_vec("<pre>");
                    let body = chars_vec(t.as_str());
                    append_chars(&mut buf, &body);
                    let tail = chars_vec("\n</pre>");
                    append_chars(&mut buf, &tail);
                    chars_string(&buf)
                } else {
                    t
                }
            },
            Err(e) => e.message(),
        }
    }
}

/// The text a command works on: its arguments joined with single
/// spaces and trimmed, or, when nothing is left of them, the text of
/// the message it replied to.
pub fn select_input(args: &Vec<String>, reply_text: Option<String>) -> (r: Option<String>)
    ensures
        ({
            let trimmed = crate::strings::trim_spec(
                crate::strings::join_spaced(
                    crate::strings::string_views(args@),
                    args@.len() as int,
                ),
            );
            if trimmed.len() > 0 {
                r matches Some(s) && s@ == trimmed
            } else {
                r == reply_text
            }
        }),
{
    let joined = crate::strings::join_with_space(args);
    let trimmed = crate::strings::trim_chars(&joined);
    if trimmed.len() > 0 {
        Some(chars_string(&trimmed))
    } else {
        reply_text
    }
}

} // verus!
