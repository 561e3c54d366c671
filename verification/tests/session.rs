use otp_session::digits::hex_string;
use otp_session::session::Session;

fn create_session() -> Session {
    Session::new()
}

#[test]
fn create_user_session() {
    let mut session = create_session();
    assert_eq!(session.dbsize(), 0);
    let user = "sally";
    let resp = session.create_user_session(user);
    assert!(resp.is_ok());
    let code = resp.unwrap();
    assert!(code.len() > 20);
    assert_eq!(session.dbsize(), 1);

    assert!(session.is_valid(&code, user));
}

#[test]
fn remove_user_session() {
    let mut session = create_session();
    let user = "sally";
    let resp = session.create_user_session(user);
    assert!(resp.is_ok());
    let code = resp.unwrap();
    assert!(code.len() > 20);

    assert!(session.is_valid(&code, user));

    let resp = session.remove(&code, user);
    assert!(resp.is_some());
    assert_eq!(resp.unwrap(), code);

    assert!(!session.is_valid(&code, user));
    let resp = session.remove(&code, user);
    assert!(resp.is_none());
}

#[test]
fn session_generate_code() {
    let session = create_session();
    let code = session.generate_code();
    println!("{}", code);
    assert!(code.len() == 22);
}

#[test]
fn session_create() {
    let session = create_session();
    assert_eq!(session.dbsize(), 0);
}

#[test]
fn session_code_is_hex() {
    let session = create_session();
    for _ in 0..32 {
        let code = session.generate_code();
        assert!(code.len() >= 20 && code.len() <= 22);
        assert!(code.chars().all(|c| c.is_ascii_hexdigit() && !c.is_ascii_uppercase()));
    }
}

#[test]
fn two_sessions_one_user() {
    // Two issuances for the same user coexist as two independent entries,
    // each independently removable.
    let mut session = create_session();
    let user = "sally";
    let first = session.create_user_session(user).unwrap();
    let second = session.create_user_session(user).unwrap();
    assert_ne!(first, second);
    assert_eq!(session.dbsize(), 2);
    assert!(session.is_valid(&first, user));
    assert!(session.is_valid(&second, user));

    assert_eq!(session.remove(&first, user), Some(first.clone()));
    assert!(!session.is_valid(&first, user));
    assert!(session.is_valid(&second, user));
    assert_eq!(session.dbsize(), 1);

    assert_eq!(session.remove(&second, user), Some(second.clone()));
    assert!(!session.is_valid(&second, user));
    assert_eq!(session.dbsize(), 0);
}

#[test]
fn hex_rendering() {
    assert_eq!(hex_string(0), "0");
    assert_eq!(hex_string(10), "a");
    assert_eq!(hex_string(255), "ff");
    assert_eq!(hex_string(1_000_000_000_000), "e8d4a51000");
    assert_eq!(hex_string(9_999_999_999_999), "9184e729fff");
}
