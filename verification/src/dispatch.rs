//! The throttled dispatcher: hands out pre-rendered lines one at a
//! time, in submission order, so that the caller can pace the sends
//! with the mandatory delay between them.  A send that fails does not
//! lose the lines after it: the caller simply asks for the next one.

use vstd::prelude::*;

verus! {

/// Which message an outgoing reply answers.
#[derive(Clone, Copy, Debug, PartialEq, Eq, Structural)]
pub enum ReplyTo {
    /// Reply to the incoming message itself.
    Incoming,
    /// Reply to the message the incoming one replied to, if any.
    Reply,
}

/// The message id an outgoing reply should answer, given the incoming
/// message's id and the id of the message it replied to, if any.
pub fn reply_target(reply_to: ReplyTo, incoming_id: i64, replied_id: Option<i64>) -> (r: i64)
    ensures
        reply_to == ReplyTo::Incoming ==> r == incoming_id,
        reply_to == ReplyTo::Reply ==> r == (match replied_id {
            Some(id) => id,
            None => incoming_id,
        }),
{
    match reply_to {
        ReplyTo::Incoming => incoming_id,
        ReplyTo::Reply => match replied_id {
            Some(id) => id,
            None => incoming_id,
        },
    }
}

/// A queue of lines awaiting delivery, with the minimum delay to keep
/// between consecutive sends.
#[derive(Debug)]
pub struct Dispatcher {
    pub lines: Vec<String>,
    pub next: usize,
    pub delay_secs: u64,
}

impl Dispatcher {
    /// The lines not yet handed out, in the order they will come.
    pub open spec fn spec_remaining(self) -> Seq<String> {
        if self.next <= self.lines@.len() {
            self.lines@.skip(self.next as int)
        } else {
            Seq::empty()
        }
    }

    pub fn new(lines: Vec<String>, delay_secs: u64) -> (r: Self)
        ensures
            r.lines == lines,
            r.next == 0,
            r.delay_secs == delay_secs,
            r.spec_remaining() == lines@,
    {
        let r = Self { lines, next: 0, delay_secs };
        proof {
            assert(r.lines@.skip(0) =~= r.lines@);
        }
        r
    }

    /// The number of lines not yet handed out.
    pub fn remaining(&self) -> (n: usize)
        ensures
            n == self.spec_remaining().len(),
    {
        if self.next <= self.lines.len() {
            self.lines.len() - self.next
        } else {
            0
        }
    }

    /// Hands out the next line, in submission order; each line comes
    /// out exactly once.
    pub fn next_line(&mut self) -> (r: Option<String>)
        ensures
            final(self).lines == old(self).lines,
            final(self).delay_secs == old(self).delay_secs,
            old(self).next < old(self).lines@.len() ==> {
                &&& r matches Some(s) && s@ == old(self).lines@[old(self).next as int]@
                &&& final(self).next == old(self).next + 1
            },
            old(self).next >= old(self).lines@.len() ==> r is None && *final(self) == *old(self),
    {
        if self.next < self.lines.len() {
            let line = self.lines[self.next].clone();
            self.next = self.next + 1;
            Some(line)
        } else {
            None
        }
    }
}

} // verus!
