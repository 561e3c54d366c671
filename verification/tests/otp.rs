use otp_session::db::SessionItem;
use otp_session::otp::Otp;
use otp_session::digits::dec_string;

fn create_otp() -> Otp {
    Otp::new()
}

#[test]
fn create_user_otp() {
    let mut otp = create_otp();
    let user = "sally";
    assert_eq!(otp.dbsize(), 0);
    let resp = otp.create_user_otp(user);
    assert!(resp.is_ok());
    let code = resp.unwrap();
    assert_eq!(code.len(), 6);
    assert_eq!(otp.dbsize(), 1);

    assert!(otp.is_valid(&code, user));
}

#[test]
fn remove_user_otp() {
    let mut otp = create_otp();
    let user = "sally";
    let resp = otp.create_user_otp(user);
    assert!(resp.is_ok());
    let code = resp.unwrap();
    assert_eq!(code.len(), 6);

    assert!(otp.is_valid(&code, user));

    let resp = otp.remove(&code, user);
    assert!(resp.is_some());
    assert_eq!(resp.unwrap(), code);

    assert!(!otp.is_valid(&code, user));
    let resp = otp.remove(&code, user);
    assert!(resp.is_none());
}

#[test]
fn otp_generate_code() {
    let otp = create_otp();
    let code = otp.generate_code();

    assert_eq!(code.len(), 6);
}

#[test]
fn otp_create() {
    let otp = create_otp();
    assert_eq!(otp.dbsize(), 0);
}

#[test]
fn otp_code_is_ascii_digits() {
    let otp = create_otp();
    for _ in 0..32 {
        let code = otp.generate_code();
        assert_eq!(code.len(), 6);
        assert!(code.chars().all(|c| c.is_ascii_digit()));
        assert_ne!(code.chars().next().unwrap(), '0');
    }
}

#[test]
fn otp_users_scenario() {
    // Issue a passcode for one user: it is valid for that user alone.
    let mut otp = create_otp();
    let code = otp.create_user_otp("jack").unwrap();
    assert_eq!(code.len(), 6);
    assert_eq!(otp.dbsize(), 1);
    assert!(otp.is_valid(&code, "jack"));
    assert!(!otp.is_valid(&code, "john"));
}

#[test]
fn otp_zero_lifetime_invalid() {
    // A record issued with lifetime zero is already expired when read.
    let mut store = otp_session::db::DataStore::create();
    let otp = create_otp();
    let code = otp.generate_code();
    let item = SessionItem::new(&code, "jack", 0u64);
    store.put(item).unwrap();
    assert!(store.get(&code, "jack").is_none());
}

#[test]
fn dec_rendering() {
    assert_eq!(dec_string(0), "0");
    assert_eq!(dec_string(7), "7");
    assert_eq!(dec_string(100000), "100000");
    assert_eq!(dec_string(123456), "123456");
    assert_eq!(dec_string(999999), "999999");
}
