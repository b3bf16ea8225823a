use rustjerkbot::entities::{Pair, UserData};
use rustjerkbot::matchmaker::{Matchmaker, MatchmakerState, MatchmakingError};
use rustjerkbot::oracle::{MembershipOracle, OracleResponse};
use rustjerkbot::store::Store;

fn member(id: i64, name: &str) -> UserData {
    UserData {
        id,
        first_name: String::from(name),
        last_name: None,
        username: None,
    }
}

fn store_with(users: Vec<UserData>) -> Store {
    let mut store = Store::new();
    for user in users {
        store.set_user(user).unwrap();
    }
    store
}

/// Pool of two valid members and no existing pair: a new pair of the
/// two is formed and the store holds exactly one more pair than
/// before.
#[test]
fn two_valid_members_form_new_pair() {
    let store = store_with(vec![member(1, "a"), member(2, "b")]);
    let oracle = MembershipOracle::new(vec![1, 2]);
    let mut mm = Matchmaker::new(store, oracle, 3600);
    let pair = mm.resolve_pair(1000).unwrap().unwrap();
    assert!(!pair.is_old());
    assert_ne!(pair.active_user().id, pair.passive_user().id);
    let mut ids = vec![pair.active_user().id, pair.passive_user().id];
    ids.sort();
    assert_eq!(ids, vec![1, 2]);
    assert_eq!(pair.timestamp, 1000);
    assert_eq!(mm.store().pairs.len(), 1);
}

/// Pool of three where one member is no longer valid: the returned
/// pair always holds exactly the two valid members, and whenever the
/// invalid one was drawn it has been evicted from the pool.
#[test]
fn invalid_member_never_paired() {
    let store = store_with(vec![member(1, "a"), member(2, "b"), member(3, "c")]);
    let oracle = MembershipOracle::new(vec![1, 3]);
    let mut mm = Matchmaker::new(store, oracle, 3600);
    let pair = mm.resolve_pair(1000).unwrap().unwrap();
    let mut ids = vec![pair.active_user().id, pair.passive_user().id];
    ids.sort();
    assert_eq!(ids, vec![1, 3]);
    let pool: Vec<i64> = mm.store().get_user_ids().unwrap();
    assert!(pool.contains(&1));
    assert!(pool.contains(&3));
    assert_eq!(mm.store().pairs.len(), 1);
}

/// A recent pair within the window is reused: it comes back marked as
/// reused and the store sees no write at all.
#[test]
fn fresh_pair_is_reused() {
    let mut store = store_with(vec![member(1, "a"), member(2, "b")]);
    let existing = Pair::new(member(1, "a"), member(2, "b"), 990);
    store.save_pair(existing).unwrap();
    let oracle = MembershipOracle::new(vec![1, 2]);
    let mut mm = Matchmaker::new(store, oracle, 3600);
    let pair = mm.resolve_pair(1000).unwrap().unwrap();
    assert!(pair.is_old());
    assert_eq!(pair.timestamp, 990);
    assert_eq!(pair.active_user().id, 1);
    assert_eq!(pair.passive_user().id, 2);
    assert_eq!(mm.store().pairs.len(), 1);
    assert_eq!(mm.store().users.len(), 2);
}

/// A pair past the window is not reused: sampling forms a new pair
/// and pushes it in front of the stale one.
#[test]
fn stale_pair_is_replaced() {
    let mut store = store_with(vec![member(1, "a"), member(2, "b")]);
    let existing = Pair::new(member(1, "a"), member(2, "b"), 100);
    store.save_pair(existing).unwrap();
    let oracle = MembershipOracle::new(vec![1, 2]);
    let mut mm = Matchmaker::new(store, oracle, 60);
    let pair = mm.resolve_pair(5000).unwrap().unwrap();
    assert!(!pair.is_old());
    assert_eq!(pair.timestamp, 5000);
    assert_eq!(mm.store().pairs.len(), 2);
}

/// A pool of one cannot pair.
#[test]
fn pool_of_one_yields_none() {
    let store = store_with(vec![member(1, "a")]);
    let oracle = MembershipOracle::new(vec![1]);
    let mut mm = Matchmaker::new(store, oracle, 3600);
    assert!(mm.resolve_pair(1000).unwrap().is_none());
}

/// A pool whose members are all gone empties itself and ends with no
/// pair: each eviction strictly shrinks the pool until sampling gives
/// up.
#[test]
fn all_invalid_pool_drains() {
    let store = store_with(vec![member(1, "a"), member(2, "b")]);
    let oracle = MembershipOracle::new(vec![]);
    let mut mm = Matchmaker::new(store, oracle, 3600);
    let r = mm.resolve_pair(1000).unwrap();
    assert!(r.is_none());
    assert_eq!(mm.store().users.len(), 0);
    assert_eq!(mm.store().pairs.len(), 0);
}

/// An oracle that keeps rate-limiting a candidate exhausts the retry
/// bound; the run fails and no pair is persisted.
#[test]
fn flaky_oracle_exceeds_retries() {
    let store = store_with(vec![member(1, "a"), member(2, "b")]);
    let oracle = MembershipOracle::with_failures(vec![1, 2], vec![1, 2], vec![]);
    let mut mm = Matchmaker::new(store, oracle, 3600);
    let err = mm.resolve_pair(1000).unwrap_err();
    assert_eq!(err, MatchmakingError::OracleRetryExceeded);
    assert_eq!(mm.store().pairs.len(), 0);
}

/// An oracle that fails fatally fails the run at once; no pair is
/// persisted.
#[test]
fn fatal_oracle_fails_run() {
    let store = store_with(vec![member(1, "a"), member(2, "b")]);
    let oracle = MembershipOracle::with_failures(vec![1, 2], vec![], vec![1, 2]);
    let mut mm = Matchmaker::new(store, oracle, 3600);
    let err = mm.resolve_pair(1000).unwrap_err();
    assert_eq!(err, MatchmakingError::OracleRetryExceeded);
    assert_eq!(mm.store().pairs.len(), 0);
}

/// A store that is offline fails the run with a store failure and
/// keeps the pair history untouched.
#[test]
fn offline_store_fails_run() {
    let mut store = store_with(vec![member(1, "a"), member(2, "b")]);
    store.take_offline();
    let oracle = MembershipOracle::new(vec![1, 2]);
    let mut mm = Matchmaker::new(store, oracle, 3600);
    let err = mm.resolve_pair(1000).unwrap_err();
    assert_eq!(err, MatchmakingError::StoreFailure);
    assert_eq!(mm.store().pairs.len(), 0);
}

/// Self-healing at the store: after an eviction the evicted id is
/// absent from the next pool read; evicting an absent id is a no-op.
#[test]
fn eviction_heals_pool() {
    let mut store = store_with(vec![member(1, "a"), member(2, "b"), member(3, "c")]);
    store.del_users(&vec![2]).unwrap();
    assert_eq!(store.get_user_ids().unwrap(), vec![1, 3]);
    store.del_users(&vec![2]).unwrap();
    assert_eq!(store.get_user_ids().unwrap(), vec![1, 3]);
}

/// The oracle answers from its fixed tables.
#[test]
fn oracle_answers() {
    let oracle = MembershipOracle::with_failures(vec![1], vec![2], vec![3]);
    assert_eq!(oracle.check_membership(1), OracleResponse::Member);
    assert_eq!(oracle.check_membership(4), OracleResponse::NotMember);
    assert_eq!(oracle.check_membership(2), OracleResponse::RetryableError);
    assert_eq!(oracle.check_membership(3), OracleResponse::FatalError);
}

/// The machine's transitions under a forced draw: the pool offered {1, 2},
/// the draw picked them, the passive candidate is no longer a member,
/// so exactly that id is marked for eviction and sampling starts
/// over.
#[test]
fn machine_evicts_drawn_invalid_candidate() {
    let state = MatchmakerState::on_candidates(Some((1, 2)));
    let state = state.on_membership(OracleResponse::Member);
    let state = state.on_membership(OracleResponse::NotMember);
    match &state {
        MatchmakerState::EvictAndRetry { invalid } => assert_eq!(invalid, &vec![2]),
        other => panic!("unexpected state: {:?}", other),
    }
    let state = state.on_evicted();
    assert!(matches!(state, MatchmakerState::SampleCandidates));
}

/// A retryable answer consumes one retry and leaves the candidates in
/// place.
#[test]
fn machine_retries_transient_failures() {
    let state = MatchmakerState::on_candidates(Some((1, 2)));
    let state = state.on_membership(OracleResponse::RetryableError);
    match state {
        MatchmakerState::ValidateCandidates {
            active_id,
            passive_id,
            active_valid,
            retries_left,
        } => {
            assert_eq!((active_id, passive_id), (1, 2));
            assert_eq!(active_valid, None);
            assert_eq!(retries_left, rustjerkbot::matchmaker::MAX_MEMBERSHIP_RETRIES - 1);
        }
        other => panic!("unexpected state: {:?}", other),
    }
}

/// Two near-simultaneous runs can both find no live pair and both
/// persist one: the design accepts that benign race, the history
/// keeps both, and later reads see the most recent write.  This is a
/// known, accepted non-determinism, not a bug.
#[test]
fn benign_race_appends_both_pairs() {
    let store = store_with(vec![member(1, "a"), member(2, "b")]);
    let oracle = MembershipOracle::new(vec![1, 2]);
    let mut mm = Matchmaker::new(store, oracle, 0);
    let first = mm.resolve_pair(1000).unwrap().unwrap();
    let second = mm.resolve_pair(2000).unwrap().unwrap();
    assert!(!first.is_old() && !second.is_old());
    assert_eq!(mm.store().pairs.len(), 2);
    assert_eq!(mm.store().pairs[0].timestamp, 2000);
}

/// A pair within the window counts as alive, one past it does not.
#[test]
fn pair_freshness_window() {
    let pair = Pair::new(member(1, "a"), member(2, "b"), 990);
    assert!(pair.is_alive(1000, 3600));
    assert!(pair.is_alive(1000, 10));
    assert!(!pair.is_alive(1001, 10));
    assert!(pair.is_alive(0, 0));
}

/// Two distinct candidates are drawn from any pool of two or more;
/// smaller pools yield nothing.
#[test]
fn draw_pair_draws_distinct() {
    assert_eq!(rustjerkbot::rng::draw_pair(&vec![7]), None);
    let (a, b) = rustjerkbot::rng::draw_pair(&vec![7, 8]).unwrap();
    assert_ne!(a, b);
    assert!(a == 7 || a == 8);
    assert!(b == 7 || b == 8);
}
