//! The membership oracle: the external authority that says whether a
//! user id currently belongs to the chat.
//!
//! The engine consumes the oracle through `check_membership`, whose
//! answer distinguishes a definite verdict from a retryable failure and
//! from a fatal one.  This in-memory oracle gives every id a fixed
//! answer, so that whole matchmaking runs can be verified and tested
//! against it; an adapter around a live chat platform answers the same
//! question over the network.

use vstd::prelude::*;

verus! {

/// What one membership lookup can come back with.
#[derive(Clone, Copy, Debug, PartialEq, Eq, Structural)]
pub enum OracleResponse {
    /// The id is a current member of the chat.
    Member,
    /// The id is definitely not a member of the chat.
    NotMember,
    /// The lookup failed but may be retried (rate limiting and the like).
    RetryableError,
    /// The lookup failed for good; retrying is pointless.
    FatalError,
}

/// An oracle whose answer for each id is fixed: ids in `down` fail
/// fatally, ids in `flaky` fail retryably every time, ids in `members`
/// are members, and every other id is not a member.
#[derive(Debug)]
pub struct MembershipOracle {
    pub members: Vec<i64>,
    pub flaky: Vec<i64>,
    pub down: Vec<i64>,
}

impl MembershipOracle {
    /// The answer the oracle gives for `id`.
    pub open spec fn spec_response(self, id: i64) -> OracleResponse {
        if self.down@.contains(id) {
            OracleResponse::FatalError
        } else if self.flaky@.contains(id) {
            OracleResponse::RetryableError
        } else if self.members@.contains(id) {
            OracleResponse::Member
        } else {
            OracleResponse::NotMember
        }
    }

    /// Whether a lookup of `id` answers without failing.
    pub open spec fn spec_answers(self, id: i64) -> bool {
        self.spec_response(id) == OracleResponse::Member || self.spec_response(id)
            == OracleResponse::NotMember
    }

    /// An oracle for which every listed id is a member and every other
    /// id is not.
    pub fn new(members: Vec<i64>) -> (r: Self)
        ensures
            r.members == members,
            r.flaky@ == Seq::<i64>::empty(),
            r.down@ == Seq::<i64>::empty(),
    {
        Self { members, flaky: Vec::new(), down: Vec::new() }
    }

    /// An oracle that also fails: retryably for ids in `flaky`, fatally
    /// for ids in `down`.
    pub fn with_failures(members: Vec<i64>, flaky: Vec<i64>, down: Vec<i64>) -> (r: Self)
        ensures
            r == (MembershipOracle { members, flaky, down }),
    {
        Self { members, flaky, down }
    }

    /// Asks whether `id` currently belongs to the chat.
    pub fn check_membership(&self, id: i64) -> (r: OracleResponse)
        ensures
            r == self.spec_response(id),
    {
        if contains_id(&self.down, id) {
            OracleResponse::FatalError
        } else if contains_id(&self.flaky, id) {
            OracleResponse::RetryableError
        } else if contains_id(&self.members, id) {
            OracleResponse::Member
        } else {
            OracleResponse::NotMember
        }
    }
}

/// Whether `ids` holds `id`.
pub fn contains_id(ids: &Vec<i64>, id: i64) -> (r: bool)
    ensures
        r == ids@.contains(id),
{
    let mut i: usize = 0;
    while i < ids.len()
        invariant
            i <= ids@.len(),
            forall|j: int| 0 <= j < i ==> ids@[j] != id,
        decreases ids@.len() - i,
    {
        if ids[i] == id {
            return true;
        }
        i = i + 1;
    }
    false
}

} // verus!
