//! The pair/member store: the persistence the matchmaking engine
//! depends on.
//!
//! The engine consumes the store through the operations below: the
//! candidate pool and the pair history are owned by it exclusively.
//! This in-memory store gives those operations exact contracts, so that
//! whole matchmaking runs can be verified and tested against it; an
//! adapter around an external database offers the same operations.
//!
//! Every operation reports `StoreError` when the backing storage is
//! unavailable, and leaves the store unchanged in that case; the store
//! can be taken offline to exercise those paths.

use crate::entities::{Pair, UserData};
use vstd::prelude::*;

verus! {

/// Whether a member record survives an eviction of the ids in `ids`.
pub open spec fn survives(ids: Seq<i64>) -> spec_fn(UserData) -> bool {
    |u: UserData| !ids.contains(u.id)
}

/// A persistence read or write failed.
#[derive(Clone, Copy, Debug, PartialEq, Eq, Structural)]
pub struct StoreError;

/// An in-memory pair/member store.
///
/// `users` is the candidate pool together with the member records
/// (every pool id is the id of exactly one record); `pairs` is the pair
/// history, most recent first.
#[derive(Debug)]
pub struct Store {
    pub users: Vec<UserData>,
    pub pairs: Vec<Pair>,
    pub online: bool,
}

impl Store {
    /// The ids of the candidate pool, in storage order.
    pub open spec fn spec_user_ids(self) -> Seq<i64> {
        self.users@.map_values(|u: UserData| u.id)
    }

    /// Well-formedness: pool ids are unique and every stored pair keeps
    /// the pair invariant.
    pub open spec fn wf(self) -> bool {
        &&& forall|i: int, j: int|
            0 <= i < j < self.users@.len() ==> self.users@[i].id != self.users@[j].id
        &&& forall|i: int| 0 <= i < self.pairs@.len() ==> (#[trigger] self.pairs@[i]).wf()
    }

    /// The pool after the ids in `ids` are evicted: the records of the
    /// other members, in their stored order.
    pub open spec fn spec_evicted_users(self, ids: Seq<i64>) -> Seq<UserData> {
        self.users@.filter(survives(ids))
    }

    pub fn new() -> (r: Self)
        ensures
            r.users@ == Seq::<UserData>::empty(),
            r.pairs@ == Seq::<Pair>::empty(),
            r.online,
            r.wf(),
    {
        Self { users: Vec::new(), pairs: Vec::new(), online: true }
    }

    /// Marks the backing storage unavailable: every later operation
    /// fails with `StoreError` until it is brought back.
    pub fn take_offline(&mut self)
        ensures
            *final(self) == (Store { online: false, ..*old(self) }),
    {
        self.online = false;
    }

    /// All candidate pool ids, in storage order.
    pub fn get_user_ids(&self) -> (r: Result<Vec<i64>, StoreError>)
        ensures
            self.online <==> r is Ok,
            r matches Ok(ids) ==> ids@ == self.spec_user_ids(),
    {
        if !self.online {
            return Err(StoreError);
        }
        let mut ids: Vec<i64> = Vec::new();
        let mut i: usize = 0;
        while i < self.users.len()
            invariant
                self.online,
                i <= self.users@.len(),
                ids@ == self.users@.take(i as int).map_values(|u: UserData| u.id),
            decreases self.users@.len() - i,
        {
            ids.push(self.users[i].id);
            proof {
                assert(self.users@.take(i + 1 as int).drop_last() =~= self.users@.take(i as int));
                assert(ids@ =~= self.users@.take(i + 1 as int).map_values(|u: UserData| u.id));
            }
            i = i + 1;
        }
        proof {
            assert(self.users@.take(i as int) =~= self.users@);
        }
        Ok(ids)
    }

    /// The member record stored under `id`, if the pool has it.
    pub fn get_user(&self, user_id: i64) -> (r: Result<Option<UserData>, StoreError>)
        ensures
            self.online <==> r is Ok,
            r matches Ok(Some(u)) ==> self.users@.contains(u) && u.id == user_id,
            r matches Ok(None) ==> !self.spec_user_ids().contains(user_id),
    {
        if !self.online {
            return Err(StoreError);
        }
        let mut i: usize = 0;
        while i < self.users.len()
            invariant
                self.online,
                i <= self.users@.len(),
                forall|j: int| 0 <= j < i ==> self.users@[j].id != user_id,
            decreases self.users@.len() - i,
        {
            if self.users[i].id == user_id {
                let found = self.users[i].clone();
                proof {
                    assert(self.users@.contains(self.users@[i as int]));
                }
                return Ok(Some(found));
            }
            i = i + 1;
        }
        proof {
            assert(forall|j: int|
                0 <= j < self.users@.len() ==> self.spec_user_ids()[j] == self.users@[j].id);
        }
        Ok(None)
    }

    /// Writes a member record: replaces the record stored under the
    /// same id, or appends the member to the pool if it is new.
    pub fn set_user(&mut self, user: UserData) -> (r: Result<(), StoreError>)
        ensures
            old(self).online <==> r is Ok,
            r is Err ==> *final(self) == *old(self),
            r is Ok ==> final(self).pairs == old(self).pairs && final(self).online == old(self).online,
            r is Ok && old(self).wf() && old(self).spec_user_ids().contains(user.id) ==> {
                &&& final(self).users@.len() == old(self).users@.len()
                &&& forall|j: int|
                    0 <= j < old(self).users@.len() ==> final(self).users@[j] == (
                    if old(self).users@[j].id == user.id {
                        user
                    } else {
                        old(self).users@[j]
                    })
            },
            r is Ok && !old(self).spec_user_ids().contains(user.id) ==> final(self).users@
                == old(self).users@.push(user),
            old(self).wf() ==> final(self).wf(),
    {
        if !self.online {
            return Err(StoreError);
        }
        let mut i: usize = 0;
        while i < self.users.len()
            invariant
                *self == *old(self),
                self.online,
                i <= self.users@.len(),
                forall|j: int| 0 <= j < i ==> self.users@[j].id != user.id,
            decreases self.users@.len() - i,
        {
            if self.users[i].id == user.id {
                proof {
                    assert(old(self).spec_user_ids()[i as int] == user.id);
                    assert(old(self).spec_user_ids().contains(user.id));
                }
                self.users.set(i, user);
                proof {
                    if old(self).wf() {
                        assert forall|k: int, l: int|
                            0 <= k < l < self.users@.len() implies self.users@[k].id
                            != self.users@[l].id by {
                            assert(old(self).users@[k].id != old(self).users@[l].id);
                        }
                    }
                }
                return Ok(());
            }
            i = i + 1;
        }
        proof {
            assert(forall|j: int|
                0 <= j < old(self).users@.len() ==> old(self).spec_user_ids()[j] == old(
                    self,
                ).users@[j].id);
        }
        self.users.push(user);
        Ok(())
    }

    /// Removes the given ids from the candidate pool.  Removing an id
    /// that is not in the pool is a no-op, not an error.
    pub fn del_users(&mut self, user_ids: &Vec<i64>) -> (r: Result<(), StoreError>)
        ensures
            old(self).online <==> r is Ok,
            r is Err ==> *final(self) == *old(self),
            r is Ok ==> {
                &&& final(self).pairs == old(self).pairs
                &&& final(self).online == old(self).online
                &&& final(self).users@ == old(self).spec_evicted_users(user_ids@)
            },
            old(self).wf() ==> final(self).wf(),
    {
        if !self.online {
            return Err(StoreError);
        }
        let mut kept: Vec<UserData> = Vec::new();
        let mut i: usize = 0;
        proof {
            reveal_with_fuel(Seq::filter, 1);
            assert(self.users@.take(0).filter(survives(user_ids@)) =~= Seq::<UserData>::empty());
        }
        while i < self.users.len()
            invariant
                *self == *old(self),
                self.online,
                i <= self.users@.len(),
                kept@ == self.users@.take(i as int).filter(survives(user_ids@)),
            decreases self.users@.len() - i,
        {
            let u = self.users[i].clone();
            let keep = !crate::oracle::contains_id(user_ids, u.id);
            if keep {
                kept.push(u);
            }
            proof {
                assert(self.users@.take(i as int + 1) =~= self.users@.take(i as int).push(
                    self.users@[i as int],
                ));
                self.users@.take(i as int).lemma_filter_push(
                    self.users@[i as int],
                    survives(user_ids@),
                );
                assert(kept@ == self.users@.take(i as int + 1).filter(survives(user_ids@)));
            }
            i = i + 1;
        }
        proof {
            assert(self.users@.take(i as int) =~= self.users@);
            if old(self).wf() {
                lemma_filter_keeps_unique_ids(self.users@, survives(user_ids@));
            }
        }
        self.users = kept;
        Ok(())
    }

    /// Pushes a new pair onto the pair history; the pushed pair becomes
    /// the most recent one.  Hands the pair back on success.
    pub fn save_pair(&mut self, pair: Pair) -> (r: Result<Pair, StoreError>)
        requires
            pair.wf(),
        ensures
            old(self).online <==> r is Ok,
            r is Err ==> *final(self) == *old(self),
            r matches Ok(p) ==> {
                &&& p == pair
                &&& final(self).users == old(self).users
                &&& final(self).online == old(self).online
                &&& final(self).pairs@ == seq![pair] + old(self).pairs@
            },
            old(self).wf() ==> final(self).wf(),
    {
        if !self.online {
            return Err(StoreError);
        }
        let mut history: Vec<Pair> = Vec::new();
        history.push(pair.clone());
        let mut i: usize = 0;
        while i < self.pairs.len()
            invariant
                *self == *old(self),
                self.online,
                i <= self.pairs@.len(),
                history@ == seq![pair] + self.pairs@.take(i as int),
            decreases self.pairs@.len() - i,
        {
            history.push(self.pairs[i].clone());
            proof {
                assert(history@ =~= seq![pair] + self.pairs@.take(i + 1 as int));
            }
            i = i + 1;
        }
        proof {
            assert(self.pairs@.take(i as int) =~= self.pairs@);
        }
        self.pairs = history;
        Ok(pair)
    }

    /// Returns the most recent pair if one exists and was created
    /// within `timeout` seconds before `now`; a live pair comes back
    /// marked as reused.  Reads only: the store is never changed.
    pub fn find_last_pair(&self, now: u64, timeout: u64) -> (r: Result<Option<Pair>, StoreError>)
        ensures
            self.online <==> r is Ok,
            r matches Ok(Some(p)) ==> self.pairs@.len() > 0 && self.pairs@[0].spec_alive(
                now,
                timeout,
            ) && p == self.pairs@[0].spec_marked_old(),
            r matches Ok(None) ==> self.pairs@.len() == 0 || !self.pairs@[0].spec_alive(
                now,
                timeout,
            ),
    {
        if !self.online {
            return Err(StoreError);
        }
        if self.pairs.len() == 0 {
            return Ok(None);
        }
        let mut latest = self.pairs[0].clone();
        if latest.is_alive(now, timeout) {
            latest.mark_as_old();
            Ok(Some(latest))
        } else {
            Ok(None)
        }
    }
}

/// Self-healing: after an eviction, every evicted id is gone from the
/// pool, so the next pool read within the same run no longer offers it.
pub proof fn lemma_self_healing(s: Store, ids: Seq<i64>, id: i64)
    requires
        ids.contains(id),
    ensures
        !s.spec_evicted_users(ids).map_values(|u: UserData| u.id).contains(id),
{
    let kept = s.spec_evicted_users(ids);
    let kept_ids = kept.map_values(|u: UserData| u.id);
    if kept_ids.contains(id) {
        let i = choose|i: int| 0 <= i < kept_ids.len() && kept_ids[i] == id;
        s.users@.lemma_filter_pred(crate::store::survives(ids), i);
        assert(!ids.contains(kept[i].id));
    }
}

/// Progress: evicting an id that the pool holds strictly shrinks the
/// pool, so repeated eviction cycles reach a pool too small to sample
/// and the run ends.
pub proof fn lemma_eviction_shrinks(s: Seq<UserData>, ids: Seq<i64>, i: int)
    requires
        0 <= i < s.len(),
        ids.contains(s[i].id),
    ensures
        s.filter(survives(ids)).len() < s.len(),
    decreases s.len(),
{
    reveal(Seq::filter);
    let pred = survives(ids);
    if i == s.len() - 1 {
        assert(!pred(s.last()));
        s.drop_last().lemma_filter_len(pred);
    } else {
        lemma_eviction_shrinks(s.drop_last(), ids, i);
    }
}

/// Filtering a pool whose ids are unique leaves ids unique.
proof fn lemma_filter_keeps_unique_ids(s: Seq<UserData>, pred: spec_fn(UserData) -> bool)
    requires
        forall|i: int, j: int| 0 <= i < j < s.len() ==> s[i].id != s[j].id,
    ensures
        forall|i: int, j: int|
            0 <= i < j < s.filter(pred).len() ==> s.filter(pred)[i].id != s.filter(pred)[j].id,
    decreases s.len(),
{
    reveal(Seq::filter);
    if s.len() > 0 {
        let rest = s.drop_last();
        lemma_filter_keeps_unique_ids(rest, pred);
        let rf = rest.filter(pred);
        if pred(s.last()) {
            assert(s.filter(pred) == rf.push(s.last()));
            assert forall|i: int| 0 <= i < rf.len() implies rf[i].id != s.last().id by {
                assert(rf.contains(rf[i]));
                rest.lemma_filter_contains_rev(pred, rf[i]);
                let k = choose|k: int| 0 <= k < rest.len() && rest[k] == rf[i];
                assert(s[k].id != s[s.len() - 1].id);
            }
        }
    }
}

} // verus!
