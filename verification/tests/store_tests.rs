use rustjerkbot::entities::{Pair, UserData};
use rustjerkbot::store::{Store, StoreError};

fn member(id: i64, name: &str) -> UserData {
    UserData {
        id,
        first_name: String::from(name),
        last_name: None,
        username: None,
    }
}

#[test]
fn set_user_replaces_by_id() {
    let mut store = Store::new();
    store.set_user(member(1, "a")).unwrap();
    store.set_user(member(2, "b")).unwrap();
    store.set_user(member(1, "renamed")).unwrap();
    assert_eq!(store.get_user_ids().unwrap(), vec![1, 2]);
    let record = store.get_user(1).unwrap().unwrap();
    assert_eq!(record.first_name, "renamed");
    assert!(store.get_user(3).unwrap().is_none());
}

#[test]
fn pair_history_is_most_recent_first() {
    let mut store = Store::new();
    store.save_pair(Pair::new(member(1, "a"), member(2, "b"), 100)).unwrap();
    store.save_pair(Pair::new(member(1, "a"), member(2, "b"), 200)).unwrap();
    assert_eq!(store.pairs.len(), 2);
    assert_eq!(store.pairs[0].timestamp, 200);
    assert_eq!(store.pairs[1].timestamp, 100);
}

#[test]
fn find_last_pair_applies_the_window() {
    let mut store = Store::new();
    assert!(store.find_last_pair(1000, 60).unwrap().is_none());
    store.save_pair(Pair::new(member(1, "a"), member(2, "b"), 900)).unwrap();
    assert!(store.find_last_pair(1000, 60).unwrap().is_none());
    let found = store.find_last_pair(950, 60).unwrap().unwrap();
    assert!(found.is_old());
    assert_eq!(found.timestamp, 900);
    assert!(!store.pairs[0].is_old());
}

#[test]
fn offline_store_refuses_everything() {
    let mut store = Store::new();
    store.set_user(member(1, "a")).unwrap();
    store.take_offline();
    assert_eq!(store.get_user_ids(), Err(StoreError));
    assert_eq!(store.get_user(1).map(|o| o.is_some()), Err(StoreError));
    assert_eq!(store.set_user(member(2, "b")), Err(StoreError));
    assert_eq!(store.del_users(&vec![1]), Err(StoreError));
    assert!(store.find_last_pair(0, 0).is_err());
    assert_eq!(store.users.len(), 1);
}
