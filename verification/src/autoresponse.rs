//! Canned auto-responses: the reply a lookup hands back, and the
//! random choice among a rule's possible replies.  The lookup table
//! itself, read from a configuration file, lives outside the library.

use vstd::prelude::*;

verus! {

/// One canned reply: its text, and whether it is sent as a reply to
/// the message that triggered it.
#[derive(Debug)]
pub struct Reply {
    pub message: String,
    pub reply_to: bool,
}

/// The possible replies of one auto-response rule.
#[derive(Debug)]
pub struct Messages {
    pub reply_to: bool,
    pub output: Vec<String>,
}

impl Messages {
    /// One of the rule's replies, chosen uniformly at random; nothing
    /// when the rule has none.
    pub fn pick(&self) -> (r: Option<Reply>)
        ensures
            r is Some <==> self.output@.len() > 0,
            r matches Some(reply) ==> reply.reply_to == self.reply_to && exists|i: int|
                0 <= i < self.output@.len() && reply.message@ == (#[trigger] self.output@[i])@,
    {
        if self.output.len() == 0 {
            return None;
        }
        let i = crate::rng::random_below(self.output.len());
        Some(Reply { message: self.output[i].clone(), reply_to: self.reply_to })
    }
}

} // verus!
