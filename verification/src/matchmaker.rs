//! The matchmaking engine: find a fresh existing pair, or form a new
//! one by random sampling with live validation, evicting candidates
//! that are no longer members.
//!
//! The engine is an explicit state machine.  Each state awaits the
//! outcome of one external call (a store read or write, a membership
//! lookup); the transition functions below turn a state and such an
//! outcome into the next state.  `Matchmaker::resolve_pair` drives the
//! machine against a `Store` and a `MembershipOracle`; any other
//! driver (one that suspends at the external calls, say) steps the
//! same transitions and inherits their contracts.

use crate::entities::{Pair, UserData};
use crate::oracle::{MembershipOracle, OracleResponse};
use crate::store::Store;
use vstd::prelude::*;

verus! {

/// How a matchmaking run can fail.  A pool too small to pair and a
/// pool inconsistent with the member records are not failures: the run
/// reports them as `Ok(None)`.
#[derive(Clone, Copy, Debug, PartialEq, Eq, Structural)]
pub enum MatchmakingError {
    /// A membership lookup failed past the retry bound, or failed for
    /// good.
    OracleRetryExceeded,
    /// A store read or write failed; the run stops without touching
    /// the pair history.
    StoreFailure,
}

/// How often a retryable membership lookup is retried before the run
/// fails with `OracleRetryExceeded`.
pub const MAX_MEMBERSHIP_RETRIES: u64 = 10;

/// The states of the matchmaking machine.  Between states the machine
/// waits for the outcome of one external call.
#[derive(Debug)]
#[allow(inconsistent_fields)]
pub enum MatchmakerState {
    /// Awaiting the store's most recent pair, filtered by freshness.
    FindExistingPair,
    /// Awaiting the candidate pool, from which two ids are drawn.
    SampleCandidates,
    /// Awaiting membership verdicts for the two drawn ids: first for
    /// the active id (`active_valid` still unset), then for the
    /// passive one.
    ValidateCandidates {
        active_id: i64,
        passive_id: i64,
        active_valid: Option<bool>,
        retries_left: u64,
    },
    /// Awaiting the eviction of the ids that failed validation.
    EvictAndRetry { invalid: Vec<i64> },
    /// Awaiting the member records of the two validated ids.
    LoadMemberData { active_id: i64, passive_id: i64 },
    /// Awaiting the write of the newly formed pair.
    PersistPair { pair: Pair },
    /// The run is over: a pair, or none when the pool cannot pair.
    Done { pair: Option<Pair> },
    /// The run failed; nothing was persisted by it afterwards.
    Failed { error: MatchmakingError },
}

impl MatchmakerState {
    /// What every reachable state satisfies: drawn candidates are two
    /// distinct ids, evictions are never empty, and a pair to persist
    /// keeps the pair invariant and is new.
    pub open spec fn wf(self) -> bool {
        match self {
            MatchmakerState::ValidateCandidates { active_id, passive_id, .. } => active_id
                != passive_id,
            MatchmakerState::LoadMemberData { active_id, passive_id } => active_id != passive_id,
            MatchmakerState::EvictAndRetry { invalid } => invalid@.len() >= 1,
            MatchmakerState::PersistPair { pair } => pair.wf() && !pair.is_old,
            _ => true,
        }
    }

    /// `FindExistingPair`: the store answered with a live pair, marked
    /// as reused, or with nothing.  A live pair ends the run; with
    /// nothing the machine moves on to sampling.
    pub fn on_existing_pair(found: Option<Pair>) -> (r: MatchmakerState)
        ensures
            found matches Some(p) ==> r == (MatchmakerState::Done { pair: Some(p) }),
            found is None ==> r == MatchmakerState::SampleCandidates,
    {
        match found {
            Some(pair) => MatchmakerState::Done { pair: Some(pair) },
            None => MatchmakerState::SampleCandidates,
        }
    }

    /// `SampleCandidates`: the pool was read and two distinct ids were
    /// drawn from it, or the pool was too small to draw from.  Too
    /// small a pool ends the run with no pair; otherwise the first
    /// drawn id becomes the active candidate, the second the passive
    /// one, and both await validation.
    pub fn on_candidates(drawn: Option<(i64, i64)>) -> (r: MatchmakerState)
        requires
            drawn matches Some(d) ==> d.0 != d.1,
        ensures
            drawn is None ==> r == (MatchmakerState::Done { pair: None }),
            drawn matches Some(d) ==> r == (MatchmakerState::ValidateCandidates {
                active_id: d.0,
                passive_id: d.1,
                active_valid: None,
                retries_left: MAX_MEMBERSHIP_RETRIES,
            }),
            r.wf(),
    {
        match drawn {
            None => MatchmakerState::Done { pair: None },
            Some((active_id, passive_id)) => MatchmakerState::ValidateCandidates {
                active_id,
                passive_id,
                active_valid: None,
                retries_left: MAX_MEMBERSHIP_RETRIES,
            },
        }
    }

    /// `ValidateCandidates`: the oracle answered one membership
    /// lookup.  A retryable failure consumes one retry, and past the
    /// bound the run fails; a fatal failure fails the run at once.  A
    /// verdict for the active id is recorded and the lookup moves to
    /// the passive id with a fresh retry budget; a verdict for the
    /// passive id decides: both members proceed to loading, otherwise
    /// the ids that are no longer members are evicted.
    pub fn on_membership(self, response: OracleResponse) -> (r: MatchmakerState)
        requires
            self matches MatchmakerState::ValidateCandidates { .. },
            self.wf(),
        ensures
            r.wf(),
            ({
                let (active_id, passive_id, active_valid, retries_left) = self.validate_fields();
                match response {
                    OracleResponse::RetryableError => if retries_left > 0 {
                        r == (MatchmakerState::ValidateCandidates {
                            active_id,
                            passive_id,
                            active_valid,
                            retries_left: (retries_left - 1) as u64,
                        })
                    } else {
                        r == (MatchmakerState::Failed {
                            error: MatchmakingError::OracleRetryExceeded,
                        })
                    },
                    OracleResponse::FatalError => r == (MatchmakerState::Failed {
                        error: MatchmakingError::OracleRetryExceeded,
                    }),
                    _ => {
                        let verdict = response == OracleResponse::Member;
                        match active_valid {
                            None => r == (MatchmakerState::ValidateCandidates {
                                active_id,
                                passive_id,
                                active_valid: Some(verdict),
                                retries_left: MAX_MEMBERSHIP_RETRIES,
                            }),
                            Some(active_ok) => if active_ok && verdict {
                                r == (MatchmakerState::LoadMemberData { active_id, passive_id })
                            } else {
                                {
                                    &&& r matches MatchmakerState::EvictAndRetry { invalid }
                                    &&& invalid@ == evicted_ids(
                                        active_id,
                                        passive_id,
                                        active_ok,
                                        verdict,
                                    )
                                }
                            },
                        }
                    },
                }
            }),
    {
        match self {
            MatchmakerState::ValidateCandidates {
                active_id,
                passive_id,
                active_valid,
                retries_left,
            } => {
                match response {
                    OracleResponse::RetryableError => {
                        if retries_left > 0 {
                            MatchmakerState::ValidateCandidates {
                                active_id,
                                passive_id,
                                active_valid,
                                retries_left: retries_left - 1,
                            }
                        } else {
                            MatchmakerState::Failed {
                                error: MatchmakingError::OracleRetryExceeded,
                            }
                        }
                    },
                    OracleResponse::FatalError => MatchmakerState::Failed {
                        error: MatchmakingError::OracleRetryExceeded,
                    },
                    OracleResponse::Member | OracleResponse::NotMember => {
                        let verdict = matches!(response, OracleResponse::Member);
                        match active_valid {
                            None => MatchmakerState::ValidateCandidates {
                                active_id,
                                passive_id,
                                active_valid: Some(verdict),
                                retries_left: MAX_MEMBERSHIP_RETRIES,
                            },
                            Some(active_ok) => {
                                if active_ok && verdict {
                                    MatchmakerState::LoadMemberData { active_id, passive_id }
                                } else {
                                    let mut invalid: Vec<i64> = Vec::new();
                                    if !active_ok {
                                        invalid.push(active_id);
                                    }
                                    if !verdict {
                                        invalid.push(passive_id);
                                    }
                                    proof {
                                        assert(invalid@ =~= evicted_ids(
                                            active_id,
                                            passive_id,
                                            active_ok,
                                            verdict,
                                        ));
                                    }
                                    MatchmakerState::EvictAndRetry { invalid }
                                }
                            },
                        }
                    },
                }
            },
            _ => MatchmakerState::Failed { error: MatchmakingError::StoreFailure },
        }
    }

    /// The fields of a `ValidateCandidates` state.
    pub open spec fn validate_fields(self) -> (i64, i64, Option<bool>, u64) {
        match self {
            MatchmakerState::ValidateCandidates {
                active_id,
                passive_id,
                active_valid,
                retries_left,
            } => (active_id, passive_id, active_valid, retries_left),
            _ => (0, 0, None, 0),
        }
    }

    /// `EvictAndRetry`: the store confirmed the eviction; sampling
    /// starts over on the shrunken pool.
    pub fn on_evicted(self) -> (r: MatchmakerState)
        requires
            self matches MatchmakerState::EvictAndRetry { .. },
        ensures
            r == MatchmakerState::SampleCandidates,
    {
        MatchmakerState::SampleCandidates
    }

    /// `LoadMemberData`: the store answered with the records of the
    /// two validated ids.  A missing record means the pool and the
    /// records disagree; the run ends with no pair rather than mask
    /// that.  With both records a new pair is formed, stamped `now`.
    pub fn on_member_data(
        self,
        active: Option<UserData>,
        passive: Option<UserData>,
        now: u64,
    ) -> (r: MatchmakerState)
        requires
            self matches MatchmakerState::LoadMemberData { active_id, passive_id } ==> {
                &&& active_id != passive_id
                &&& active matches Some(u) ==> u.id == active_id
                &&& passive matches Some(u) ==> u.id == passive_id
            },
            self matches MatchmakerState::LoadMemberData { .. },
        ensures
            r.wf(),
            active is Some && passive is Some ==> r == (MatchmakerState::PersistPair {
                pair: Pair {
                    active_user: active->0,
                    passive_user: passive->0,
                    timestamp: now,
                    is_old: false,
                },
            }),
            active is None || passive is None ==> r == (MatchmakerState::Done { pair: None }),
    {
        match (active, passive) {
            (Some(active_user), Some(passive_user)) => MatchmakerState::PersistPair {
                pair: Pair::new(active_user, passive_user, now),
            },
            _ => MatchmakerState::Done { pair: None },
        }
    }

    /// `PersistPair`: the store confirmed the write; the run ends with
    /// the newly formed pair.
    pub fn on_persisted(self) -> (r: MatchmakerState)
        requires
            self matches MatchmakerState::PersistPair { .. },
        ensures
            r == (MatchmakerState::Done { pair: Some(self->PersistPair_pair) }),
    {
        match self {
            MatchmakerState::PersistPair { pair } => MatchmakerState::Done { pair: Some(pair) },
            _ => MatchmakerState::Done { pair: None },
        }
    }

    /// Any state: the store call it was waiting on failed.  The run
    /// fails and nothing more is written.
    pub fn on_store_error() -> (r: MatchmakerState)
        ensures
            r == (MatchmakerState::Failed { error: MatchmakingError::StoreFailure }),
    {
        MatchmakerState::Failed { error: MatchmakingError::StoreFailure }
    }
}

impl MatchmakerState {
    /// The id whose membership lookup the machine is waiting on: the
    /// active candidate until its verdict is in, then the passive one.
    pub fn current_candidate(&self) -> (id: i64)
        requires
            self matches MatchmakerState::ValidateCandidates { .. },
        ensures
            ({
                let (active_id, passive_id, active_valid, _) = self.validate_fields();
                id == if active_valid is None {
                    active_id
                } else {
                    passive_id
                }
            }),
    {
        match self {
            MatchmakerState::ValidateCandidates { active_id, passive_id, active_valid, .. } => {
                match active_valid {
                    None => *active_id,
                    Some(_) => *passive_id,
                }
            },
            _ => 0,
        }
    }

    /// The ids awaiting eviction.
    pub fn invalid_ids(&self) -> (r: &Vec<i64>)
        requires
            self matches MatchmakerState::EvictAndRetry { .. },
        ensures
            self matches MatchmakerState::EvictAndRetry { invalid } ==> r@ == invalid@,
    {
        match self {
            MatchmakerState::EvictAndRetry { invalid } => invalid,
            _ => vstd::pervasive::unreached(),
        }
    }

    /// The pair awaiting persistence.
    pub fn pending_pair(&self) -> (r: &Pair)
        requires
            self matches MatchmakerState::PersistPair { .. },
        ensures
            self matches MatchmakerState::PersistPair { pair } ==> *r == pair,
    {
        match self {
            MatchmakerState::PersistPair { pair } => pair,
            _ => vstd::pervasive::unreached(),
        }
    }

    /// The order in which a run passes through its states, for
    /// termination: every transition either descends in this rank or
    /// shrinks the pool first.
    pub open spec fn spec_rank(self) -> int {
        match self {
            MatchmakerState::FindExistingPair => 6,
            MatchmakerState::SampleCandidates => 5,
            MatchmakerState::ValidateCandidates { .. } => 4,
            MatchmakerState::EvictAndRetry { .. } => 3,
            MatchmakerState::LoadMemberData { .. } => 2,
            MatchmakerState::PersistPair { .. } => 1,
            _ => 0,
        }
    }

    /// Within validation, the active candidate's lookup precedes the
    /// passive one's.
    pub open spec fn spec_subphase(self) -> int {
        match self {
            MatchmakerState::ValidateCandidates { active_valid, .. } => if active_valid is None {
                1int
            } else {
                0int
            },
            _ => 0,
        }
    }

    /// The retry budget left for the lookup the machine is waiting on.
    pub open spec fn spec_retries(self) -> int {
        match self {
            MatchmakerState::ValidateCandidates { retries_left, .. } => retries_left as int,
            _ => 0,
        }
    }
}

/// The ids evicted when a verdict pair came back: the active id where
/// it is no longer a member, then the passive id where it is not.
pub open spec fn evicted_ids(active_id: i64, passive_id: i64, active_ok: bool, passive_ok: bool) -> Seq<
    i64,
> {
    let first = if !active_ok {
        seq![active_id]
    } else {
        Seq::<i64>::empty()
    };
    let second = if !passive_ok {
        seq![passive_id]
    } else {
        Seq::<i64>::empty()
    };
    first + second
}

/// The matchmaker: drives the machine against a store and a
/// membership oracle, handed in at construction.
#[derive(Debug)]
pub struct Matchmaker {
    pub store: Store,
    pub oracle: MembershipOracle,
    /// The freshness window in seconds: an existing pair no older than
    /// this is reused instead of forming a new one.
    pub pair_timeout: u64,
}

/// What stays true across a whole run: the collaborators are fixed,
/// the store stays well formed, and the pool only ever loses members
/// that the oracle reported as gone.
pub open spec fn run_inv(pre: Matchmaker, cur: Matchmaker, now: u64) -> bool {
    &&& cur.store.wf()
    &&& cur.store.online == pre.store.online
    &&& cur.oracle == pre.oracle
    &&& cur.pair_timeout == pre.pair_timeout
    &&& forall|i: int|
        0 <= i < cur.store.users@.len() ==> pre.store.users@.contains(
            #[trigger] cur.store.users@[i],
        )
    &&& forall|i: int|
        0 <= i < pre.store.users@.len() ==> cur.store.users@.contains(
            #[trigger] pre.store.users@[i],
        ) || pre.oracle.spec_response(pre.store.users@[i].id) == OracleResponse::NotMember
}

/// What each state of a run guarantees about the store and the oracle
/// at that point; `pre` is the matchmaker as the run found it.
pub open spec fn state_inv(pre: Matchmaker, cur: Matchmaker, state: MatchmakerState, now: u64) -> bool {
    &&& state.wf()
    &&& match state {
        MatchmakerState::FindExistingPair => cur == pre,
        MatchmakerState::SampleCandidates => {
            &&& pre.store.online
            &&& cur.store.pairs == pre.store.pairs
            &&& stale_head(pre, now)
        },
        MatchmakerState::ValidateCandidates { active_id, passive_id, active_valid, .. } => {
            &&& pre.store.online
            &&& cur.store.pairs == pre.store.pairs
            &&& stale_head(pre, now)
            &&& cur.store.spec_user_ids().contains(active_id)
            &&& cur.store.spec_user_ids().contains(passive_id)
            &&& active_valid matches Some(b) ==> pre.oracle.spec_answers(active_id) && (b
                <==> pre.oracle.spec_response(active_id) == OracleResponse::Member)
        },
        MatchmakerState::EvictAndRetry { invalid } => {
            &&& pre.store.online
            &&& cur.store.pairs == pre.store.pairs
            &&& stale_head(pre, now)
            &&& forall|i: int|
                0 <= i < invalid@.len() ==> cur.store.spec_user_ids().contains(
                    #[trigger] invalid@[i],
                ) && pre.oracle.spec_response(invalid@[i]) == OracleResponse::NotMember
        },
        MatchmakerState::LoadMemberData { active_id, passive_id } => {
            &&& pre.store.online
            &&& cur.store.pairs == pre.store.pairs
            &&& stale_head(pre, now)
            &&& cur.store.spec_user_ids().contains(active_id)
            &&& cur.store.spec_user_ids().contains(passive_id)
            &&& pre.oracle.spec_response(active_id) == OracleResponse::Member
            &&& pre.oracle.spec_response(passive_id) == OracleResponse::Member
        },
        MatchmakerState::PersistPair { pair } => {
            &&& pre.store.online
            &&& cur.store.pairs == pre.store.pairs
            &&& stale_head(pre, now)
            &&& pair.timestamp == now
            &&& cur.store.users@.contains(pair.active_user)
            &&& cur.store.users@.contains(pair.passive_user)
            &&& pre.oracle.spec_response(pair.active_user.id) == OracleResponse::Member
            &&& pre.oracle.spec_response(pair.passive_user.id) == OracleResponse::Member
        },
        MatchmakerState::Done { pair } => match pair {
            None => {
                &&& pre.store.online
                &&& cur.store.pairs == pre.store.pairs
                &&& stale_head(pre, now)
                &&& cur.store.users@.len() < 2
            },
            Some(p) => if p.is_old {
                &&& pre.store.online
                &&& cur == pre
                &&& pre.store.pairs@.len() > 0
                &&& pre.store.pairs@[0].spec_alive(now, pre.pair_timeout)
                &&& p == pre.store.pairs@[0].spec_marked_old()
            } else {
                &&& pre.store.online
                &&& stale_head(pre, now)
                &&& p.wf()
                &&& p.timestamp == now
                &&& cur.store.pairs@ == seq![p] + pre.store.pairs@
                &&& cur.store.users@.contains(p.active_user)
                &&& cur.store.users@.contains(p.passive_user)
                &&& pre.oracle.spec_response(p.active_user.id) == OracleResponse::Member
                &&& pre.oracle.spec_response(p.passive_user.id) == OracleResponse::Member
            },
        },
        MatchmakerState::Failed { error } => {
            &&& cur.store.pairs == pre.store.pairs
            &&& error == MatchmakingError::StoreFailure ==> !pre.store.online
            &&& error == MatchmakingError::OracleRetryExceeded ==> {
                &&& pre.store.online
                &&& stale_head(pre, now)
                &&& pre.store.users@.len() >= 2
                &&& exists|i: int|
                    0 <= i < pre.store.users@.len() && !pre.oracle.spec_answers(
                        (#[trigger] pre.store.users@[i]).id,
                    )
            }
        },
    }
}

/// Whether the pair history the run started from offers nothing to
/// reuse at `now`: no pair, or a most recent pair past the window.
pub open spec fn stale_head(pre: Matchmaker, now: u64) -> bool {
    pre.store.pairs@.len() == 0 || !pre.store.pairs@[0].spec_alive(now, pre.pair_timeout)
}

impl Matchmaker {
    pub fn new(store: Store, oracle: MembershipOracle, pair_timeout: u64) -> (r: Self)
        ensures
            r == (Matchmaker { store, oracle, pair_timeout }),
    {
        Self { store, oracle, pair_timeout }
    }

    pub fn store(&self) -> (r: &Store)
        ensures
            *r == self.store,
    {
        &self.store
    }

    /// One matchmaking run, at `now` seconds since the epoch.
    ///
    /// Returns the most recent stored pair, marked as reused, when it
    /// is still within the freshness window; otherwise samples two
    /// distinct candidates from the pool, validates both against the
    /// oracle, evicts the candidates that are no longer members and
    /// resamples, and, once two valid candidates are found, persists
    /// and returns the newly formed pair.  `Ok(None)` means the pool
    /// cannot pair (fewer than two candidates); a failure reports
    /// which collaborator failed, and no pair is persisted by a failed
    /// run.
    pub fn resolve_pair(&mut self, now: u64) -> (r: Result<Option<Pair>, MatchmakingError>)
        requires
            old(self).store.wf(),
        ensures
            final(self).oracle == old(self).oracle,
            final(self).pair_timeout == old(self).pair_timeout,
            final(self).store.wf(),
            final(self).store.online == old(self).store.online,
            forall|i: int|
                0 <= i < final(self).store.users@.len() ==> old(self).store.users@.contains(
                    #[trigger] final(self).store.users@[i],
                ),
            forall|i: int|
                0 <= i < old(self).store.users@.len() ==> final(self).store.users@.contains(
                    #[trigger] old(self).store.users@[i],
                ) || old(self).oracle.spec_response(old(self).store.users@[i].id)
                    == OracleResponse::NotMember,
            r is Err ==> final(self).store.pairs == old(self).store.pairs,
            r == Err::<Option<Pair>, MatchmakingError>(MatchmakingError::StoreFailure) <==> !old(
                self,
            ).store.online,
            r == Err::<Option<Pair>, MatchmakingError>(MatchmakingError::OracleRetryExceeded)
                ==> exists|i: int|
                0 <= i < old(self).store.users@.len() && !old(self).oracle.spec_answers(
                    (#[trigger] old(self).store.users@[i]).id,
                ),
            r matches Ok(Some(p)) ==> if p.is_old {
                &&& old(self).store.pairs@.len() > 0
                &&& old(self).store.pairs@[0].spec_alive(now, old(self).pair_timeout)
                &&& p == old(self).store.pairs@[0].spec_marked_old()
                &&& *final(self) == *old(self)
            } else {
                &&& old(self).store.pairs@.len() == 0 || !old(self).store.pairs@[0].spec_alive(
                    now,
                    old(self).pair_timeout,
                )
                &&& p.wf()
                &&& p.timestamp == now
                &&& final(self).store.pairs@ == seq![p] + old(self).store.pairs@
                &&& final(self).store.users@.contains(p.active_user)
                &&& final(self).store.users@.contains(p.passive_user)
                &&& old(self).oracle.spec_response(p.active_user.id) == OracleResponse::Member
                &&& old(self).oracle.spec_response(p.passive_user.id) == OracleResponse::Member
            },
            r matches Ok(None) ==> {
                &&& final(self).store.pairs == old(self).store.pairs
                &&& old(self).store.pairs@.len() == 0 || !old(self).store.pairs@[0].spec_alive(
                    now,
                    old(self).pair_timeout,
                )
                &&& final(self).store.users@.len() < 2
            },
            old(self).store.online && (forall|i: int|
                0 <= i < old(self).store.users@.len() ==> old(self).oracle.spec_answers(
                    (#[trigger] old(self).store.users@[i]).id,
                )) ==> r is Ok,
            old(self).store.online && old(self).store.pairs@.len() > 0 && old(
                self,
            ).store.pairs@[0].spec_alive(now, old(self).pair_timeout) ==> r is Ok,
            old(self).store.online && old(self).store.users@.len() < 2 ==> r is Ok,
    {
        let mut state = MatchmakerState::FindExistingPair;
        loop
            invariant
                old(self).store.wf(),
                run_inv(*old(self), *self, now),
                state_inv(*old(self), *self, state, now),
            decreases
                    self.store.users@.len(),
                    state.spec_rank(),
                    state.spec_subphase(),
                    state.spec_retries(),
        {
            state = match state {
                MatchmakerState::FindExistingPair => {
                    match self.store.find_last_pair(now, self.pair_timeout) {
                        Ok(found) => MatchmakerState::on_existing_pair(found),
                        Err(_) => MatchmakerState::on_store_error(),
                    }
                },
                MatchmakerState::SampleCandidates => {
                    match self.store.get_user_ids() {
                        Ok(ids) => {
                            let drawn = crate::rng::draw_pair(&ids);
                            proof {
                                if drawn is Some {
                                    let d = drawn->0;
                                    let (i, j) = choose|i: int, j: int|
                                        0 <= i < ids@.len() && 0 <= j < ids@.len() && i != j
                                            && ids@[i] == d.0 && ids@[j] == d.1;
                                    assert(self.store.users@[i].id == d.0);
                                    assert(self.store.users@[j].id == d.1);
                                }
                            }
                            MatchmakerState::on_candidates(drawn)
                        },
                        Err(_) => MatchmakerState::on_store_error(),
                    }
                },
                MatchmakerState::ValidateCandidates {
                    active_id,
                    passive_id,
                    active_valid,
                    retries_left,
                } => {
                    let st = MatchmakerState::ValidateCandidates {
                        active_id,
                        passive_id,
                        active_valid,
                        retries_left,
                    };
                    let checking = st.current_candidate();
                    let response = self.oracle.check_membership(checking);
                    let next = st.on_membership(response);
                    proof {
                        if next matches MatchmakerState::Failed { error } {
                            lemma_two_ids_mean_two_members(
                                self.store.users@,
                                old(self).store.users@,
                                active_id,
                                passive_id,
                            );
                        }
                    }
                    next
                },
                MatchmakerState::EvictAndRetry { invalid } => {
                    let ghost pre_evict = self.store;
                    match self.store.del_users(&invalid) {
                        Ok(_) => {
                            proof {
                                lemma_pool_after_eviction(
                                    *old(self),
                                    pre_evict,
                                    self.store,
                                    invalid@,
                                );
                                crate::store::lemma_eviction_shrinks(
                                    pre_evict.users@,
                                    invalid@,
                                    choose|k: int|
                                        0 <= k < pre_evict.users@.len()
                                            && pre_evict.users@[k].id == invalid@[0],
                                );
                            }
                            (MatchmakerState::EvictAndRetry { invalid }).on_evicted()
                        },
                        Err(_) => MatchmakerState::on_store_error(),
                    }
                },
                MatchmakerState::LoadMemberData { active_id, passive_id } => {
                    match self.store.get_user(active_id) {
                        Ok(active) => {
                            match self.store.get_user(passive_id) {
                                Ok(passive) => {
                                    proof {
                                        lemma_pool_id_has_record(self.store, active_id);
                                        lemma_pool_id_has_record(self.store, passive_id);
                                    }
                                    (MatchmakerState::LoadMemberData {
                                        active_id,
                                        passive_id,
                                    }).on_member_data(active, passive, now)
                                },
                                Err(_) => MatchmakerState::on_store_error(),
                            }
                        },
                        Err(_) => MatchmakerState::on_store_error(),
                    }
                },
                MatchmakerState::PersistPair { pair } => {
                    let to_save = pair.clone();
                    match self.store.save_pair(to_save) {
                        Ok(_) => (MatchmakerState::PersistPair { pair }).on_persisted(),
                        Err(_) => MatchmakerState::on_store_error(),
                    }
                },
                MatchmakerState::Done { pair } => {
                    return Ok(pair);
                },
                MatchmakerState::Failed { error } => {
                    return Err(error);
                },
            };
        }
    }
}

/// A pool whose current members include two distinct candidate ids
/// descends from a starting pool of at least two members.
proof fn lemma_two_ids_mean_two_members(
    users: Seq<UserData>,
    pre_users: Seq<UserData>,
    a: i64,
    p: i64,
)
    requires
        a != p,
        users.map_values(|u: UserData| u.id).contains(a),
        users.map_values(|u: UserData| u.id).contains(p),
        forall|i: int| 0 <= i < users.len() ==> pre_users.contains(#[trigger] users[i]),
    ensures
        pre_users.len() >= 2,
{
    let ids = users.map_values(|u: UserData| u.id);
    let ka = choose|k: int| 0 <= k < ids.len() && ids[k] == a;
    let kp = choose|k: int| 0 <= k < ids.len() && ids[k] == p;
    let ua = users[ka];
    let up = users[kp];
    assert(pre_users.contains(ua));
    assert(pre_users.contains(up));
    let ia = choose|i: int| 0 <= i < pre_users.len() && pre_users[i] == ua;
    let ip = choose|i: int| 0 <= i < pre_users.len() && pre_users[i] == up;
    assert(ua.id == a && up.id == p);
    assert(ia != ip);
}

/// After an eviction the run invariant still holds: the surviving pool
/// is a subset of the one the run started from, and everything gone
/// from it was either evicted now (and reported a non-member) or
/// earlier.
proof fn lemma_pool_after_eviction(
    pre: Matchmaker,
    before: Store,
    after: Store,
    invalid: Seq<i64>,
)
    requires
        after.users@ == before.spec_evicted_users(invalid),
        forall|i: int|
            0 <= i < before.users@.len() ==> pre.store.users@.contains(
                #[trigger] before.users@[i],
            ),
        forall|i: int|
            0 <= i < pre.store.users@.len() ==> before.users@.contains(
                #[trigger] pre.store.users@[i],
            ) || pre.oracle.spec_response(pre.store.users@[i].id) == OracleResponse::NotMember,
        forall|i: int|
            0 <= i < invalid.len() ==> pre.oracle.spec_response(#[trigger] invalid[i])
                == OracleResponse::NotMember,
    ensures
        forall|i: int|
            0 <= i < after.users@.len() ==> pre.store.users@.contains(#[trigger] after.users@[i]),
        forall|i: int|
            0 <= i < pre.store.users@.len() ==> after.users@.contains(
                #[trigger] pre.store.users@[i],
            ) || pre.oracle.spec_response(pre.store.users@[i].id) == OracleResponse::NotMember,
{
    let pred = crate::store::survives(invalid);
    let kept = before.users@.filter(pred);
    assert forall|i: int| 0 <= i < kept.len() implies pre.store.users@.contains(
        #[trigger] kept[i],
    ) by {
        assert(kept.contains(kept[i]));
        before.users@.lemma_filter_contains_rev(pred, kept[i]);
        let k = choose|k: int| 0 <= k < before.users@.len() && before.users@[k] == kept[i];
    }
    assert forall|i: int| 0 <= i < pre.store.users@.len() implies after.users@.contains(
        #[trigger] pre.store.users@[i],
    ) || pre.oracle.spec_response(pre.store.users@[i].id) == OracleResponse::NotMember by {
        let u = pre.store.users@[i];
        if before.users@.contains(u) {
            let k = choose|k: int| 0 <= k < before.users@.len() && before.users@[k] == u;
            if pred(u) {
                before.users@.lemma_filter_contains(pred, k);
            } else {
                let m = choose|m: int| 0 <= m < invalid.len() && invalid[m] == u.id;
                assert(pre.oracle.spec_response(invalid[m]) == OracleResponse::NotMember);
            }
        }
    }
}

/// In a well-formed store, every id the pool offers has a member
/// record, so a record lookup for it cannot come back empty.
proof fn lemma_pool_id_has_record(s: Store, id: i64)
    requires
        s.spec_user_ids().contains(id),
    ensures
        exists|i: int| 0 <= i < s.users@.len() && (#[trigger] s.users@[i]).id == id,
{
    let k = choose|k: int| 0 <= k < s.spec_user_ids().len() && s.spec_user_ids()[k] == id;
    assert(s.users@[k].id == id);
}

} // verus!
