//! The data the matchmaking engine works on: member snapshots and pairs.

use vstd::prelude::*;

verus! {

/// A cached snapshot of a chat member: written whenever a member is seen
/// active in the chat, read during sampling and pair materialization.
/// Replaced wholesale on update, never mutated field by field.
#[derive(Debug)]
pub struct UserData {
    pub id: i64,
    pub first_name: String,
    pub last_name: Option<String>,
    pub username: Option<String>,
}

impl Clone for UserData {
    fn clone(&self) -> (r: Self)
        ensures
            r == *self,
    {
        UserData {
            id: self.id,
            first_name: self.first_name.clone(),
            last_name: match &self.last_name {
                Some(s) => Some(s.clone()),
                None => None,
            },
            username: match &self.username {
                Some(s) => Some(s.clone()),
                None => None,
            },
        }
    }
}

/// Two matched members and the second at which they were matched.
///
/// `is_old` is transient: it is never persisted, and is set only when a
/// stored pair is read back while still fresh, to mark it as reused.
#[derive(Debug)]
pub struct Pair {
    pub active_user: UserData,
    pub passive_user: UserData,
    pub timestamp: u64,
    pub is_old: bool,
}

impl Pair {
    /// The invariant every pair must keep: a member is never paired
    /// with itself.
    pub open spec fn wf(self) -> bool {
        self.active_user.id != self.passive_user.id
    }

    /// Whether the pair was created within `timeout` seconds before
    /// `now` (both in seconds since the epoch).  A pair from the future
    /// counts as alive.
    pub open spec fn spec_alive(self, now: u64, timeout: u64) -> bool {
        self.timestamp >= now as int - timeout as int
    }

    /// The same pair, marked as reused.
    pub open spec fn spec_marked_old(self) -> Pair {
        Pair { is_old: true, ..self }
    }

    pub fn new(active_user: UserData, passive_user: UserData, timestamp: u64) -> (r: Self)
        requires
            active_user.id != passive_user.id,
        ensures
            r == (Pair { active_user, passive_user, timestamp, is_old: false }),
            r.wf(),
    {
        Self { active_user, passive_user, timestamp, is_old: false }
    }

    pub fn active_user(&self) -> (r: &UserData)
        ensures
            *r == self.active_user,
    {
        &self.active_user
    }

    pub fn passive_user(&self) -> (r: &UserData)
        ensures
            *r == self.passive_user,
    {
        &self.passive_user
    }

    /// Returns true if the pair was created within the given timeout
    /// before `now` and false otherwise.
    pub fn is_alive(&self, now: u64, timeout: u64) -> (r: bool)
        ensures
            r == self.spec_alive(now, timeout),
    {
        if now <= timeout {
            true
        } else {
            self.timestamp >= now - timeout
        }
    }

    pub fn is_old(&self) -> (r: bool)
        ensures
            r == self.is_old,
    {
        self.is_old
    }

    pub fn mark_as_old(&mut self)
        ensures
            *final(self) == old(self).spec_marked_old(),
    {
        self.is_old = true;
    }
}

impl Clone for Pair {
    fn clone(&self) -> (r: Self)
        ensures
            r == *self,
    {
        Pair {
            active_user: self.active_user.clone(),
            passive_user: self.passive_user.clone(),
            timestamp: self.timestamp,
            is_old: self.is_old,
        }
    }
}

} // verus!
