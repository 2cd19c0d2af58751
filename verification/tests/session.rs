use blog_web::config::{session_user_id, UserSession, AUTH_COOKIE};
use blog_web::models::users::User;

#[test]
fn new_session_is_anonymous_without_cookies() {
    let s = UserSession::new();
    assert_eq!(s.user_id(), None);
    assert!(!s.is_signedin());
    assert!(!s.has_cookies());
}

#[test]
fn built_session_is_signed_in_exactly_with_a_user() {
    let s = UserSession::build(Some(3));
    assert_eq!(s.user_id(), Some(3));
    assert!(s.is_signedin());
    assert!(s.has_cookies());
    let t = UserSession::build(None);
    assert_eq!(t.user_id(), None);
    assert!(!t.is_signedin());
    assert!(t.has_cookies());
}

#[test]
fn cookie_name_is_blog_auth() {
    assert_eq!(AUTH_COOKIE, "blog_auth");
}

#[test]
fn signin_writes_the_user_id_as_json() {
    let s = UserSession::build(None);
    let u = User { id: 42, first_name: None, last_name: None, email: "a@b.c".to_string(), encrypted_password: None, password_salt: None };
    assert_eq!(s.signin(&u), "42");
    let zero = User { id: 0, first_name: None, last_name: None, email: "a@b.c".to_string(), encrypted_password: None, password_salt: None };
    assert_eq!(s.signin(&zero), "0");
    let max = User { id: u64::MAX, first_name: None, last_name: None, email: "a@b.c".to_string(), encrypted_password: None, password_salt: None };
    assert_eq!(s.signin(&max), "18446744073709551615");
}

#[test]
fn cookie_written_by_signin_reads_back() {
    let s = UserSession::build(None);
    let u = User { id: 1234, first_name: None, last_name: None, email: "a@b.c".to_string(), encrypted_password: None, password_salt: None };
    let value = s.signin(&u);
    let restored = UserSession::build_from(Some(value.as_str()));
    assert_eq!(restored.user_id(), Some(1234));
    assert!(restored.is_signedin());
}

#[test]
fn build_from_without_cookie_or_with_null() {
    let s = UserSession::build_from(None);
    assert_eq!(s.user_id(), None);
    assert!(!s.is_signedin());
    let t = UserSession::build_from(Some("null"));
    assert_eq!(t.user_id(), None);
    assert!(!t.is_signedin());
    assert_eq!(session_user_id(Some(" 9 ")), Some(9));
}

#[test]
fn unreadable_cookie_gives_no_session() {
    assert!(UserSession::try_build_from(Some("abc")).is_none());
    assert!(UserSession::try_build_from(Some("-1")).is_none());
    assert!(UserSession::try_build_from(Some("")).is_none());
    let s = UserSession::try_build_from(Some("17")).unwrap();
    assert_eq!(s.user_id(), Some(17));
    let n = UserSession::try_build_from(Some("null")).unwrap();
    assert_eq!(n.user_id(), None);
    assert!(!n.is_signedin());
    assert_eq!(session_user_id(Some("null")), None);
    let t = UserSession::try_build_from(None).unwrap();
    assert_eq!(t.user_id(), None);
}

#[test]
fn signout_of_own_session_succeeds() {
    let u = User { id: 5, first_name: None, last_name: None, email: "a@b.c".to_string(), encrypted_password: None, password_salt: None };
    let s = UserSession::build(Some(5));
    assert_eq!(s.signout(&u), Ok(true));
}
