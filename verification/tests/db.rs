use otp_session::db::{DataStore, SessionItem};
use otp_session::otp::Otp;
use std::time::{SystemTime, UNIX_EPOCH};

fn create_otp() -> Otp {
    Otp::new()
}

#[test]
fn db_create() {
    let store = DataStore::create();
    assert_eq!(store.dbsize(), 0);
}

#[test]
fn otp_item() {
    let otp = create_otp();
    let code = otp.generate_code();
    let user = "jack";

    let item = SessionItem::new(&code, user, 60u64);

    assert_eq!(item.code.len(), 6);
    assert_eq!(item.user, user);
}

#[test]
fn remove_item() {
    let otp = create_otp();
    let code = otp.generate_code();
    let user = "jack";

    let item = SessionItem::new(&code, user, 60u64);
    let mut store = DataStore::create();
    let resp = store.put(item);
    assert!(resp.is_ok());
    assert_eq!(store.dbsize(), 1);
    let resp = store.remove(&code, user);
    assert!(resp);
    let resp = store.remove(&code, user);
    assert!(!resp);
}

#[test]
fn put_get() {
    let otp = create_otp();
    let code = otp.generate_code();
    let user = "jack";
    let keep_alive = 60u64;

    let item = SessionItem::new(&code, user, keep_alive);
    let mut store = DataStore::create();
    assert_eq!(store.dbsize(), 0);

    let _resp = store.put(item).unwrap();
    assert_eq!(store.dbsize(), 1);

    let copy_item = store.get(&code, user);
    assert!(copy_item.is_some());

    let non_item = store.get(&code, "john");
    assert!(non_item.is_none());

    let code = otp.generate_code();
    let user = "sammy";
    let item = SessionItem::new(&code, user, 0u64);
    let _resp = store.put(item).unwrap();
    assert_eq!(store.dbsize(), 2);

    let non_item = store.get(&code, user);
    assert!(non_item.is_none());
}

#[test]
fn has_expired() {
    let otp = create_otp();
    let code = otp.generate_code();
    let user = "jack";
    let now = SystemTime::now()
        .duration_since(UNIX_EPOCH)
        .unwrap()
        .as_secs();
    let expires = now + 60;

    let item = SessionItem {
        code: code.to_string(),
        user: user.to_string(),
        expires,
    };
    assert!(!item.has_expired());

    let item = SessionItem {
        code: code.to_string(),
        user: user.to_string(),
        expires: now - 10,
    };
    assert!(item.has_expired());
}

#[test]
fn create_key() {
    let store = DataStore::create();
    let code = "100000";
    let user = "jack";

    let key = store.create_key(code, user);
    assert_eq!(key, "100000:jack");
}

#[test]
fn expired_entry_counts_in_size() {
    // An entry that expired reads as absent but still counts toward the
    // size, until an overwrite or a remove touches its key.
    let mut store = DataStore::create();
    let item = SessionItem::new("123456", "jack", 0u64);
    store.put(item).unwrap();
    assert!(store.get("123456", "jack").is_none());
    assert_eq!(store.dbsize(), 1);

    // Overwriting the same (code, user) pair does not change the size.
    let item = SessionItem::new("123456", "jack", 60u64);
    store.put(item).unwrap();
    assert_eq!(store.dbsize(), 1);
    assert!(store.get("123456", "jack").is_some());

    // Removing an expired-but-unread entry still reports a removal.
    let item = SessionItem::new("654321", "jack", 0u64);
    store.put(item).unwrap();
    assert_eq!(store.dbsize(), 2);
    assert!(store.remove("654321", "jack"));
    assert_eq!(store.dbsize(), 1);
}
