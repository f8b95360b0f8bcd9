use session_server::directory::{
    add, auth, del, get_token, list, logout, UserDatabase,
};

fn is_alphanumeric_ascii(c: char) -> bool {
    c.is_ascii_alphanumeric()
}

#[test]
fn new_directory_is_empty() {
    let db = UserDatabase::new();
    assert!(list(&db).is_none());
}

#[test]
fn unknown_user_never_authenticates() {
    let mut db = UserDatabase::new();
    assert_eq!(auth(&mut db, "ghost".to_string(), "pw".to_string()), None);
    assert_eq!(get_token(&db, "ghost".to_string()), None);
    assert!(list(&db).is_none());
}

#[test]
fn add_then_list() {
    let mut db = UserDatabase::new();
    assert_eq!(add(&mut db, "a".to_string(), "x".to_string()), Some("a".to_string()));
    assert_eq!(add(&mut db, "b".to_string(), "y".to_string()), Some("b".to_string()));
    let names = list(&db).unwrap();
    assert_eq!(names, vec!["a".to_string(), "b".to_string()]);
}

#[test]
fn add_same_user_same_password_is_noop() {
    let mut db = UserDatabase::new();
    assert_eq!(add(&mut db, "a".to_string(), "x".to_string()), Some("a".to_string()));
    assert_eq!(add(&mut db, "a".to_string(), "x".to_string()), None);
    assert_eq!(list(&db).unwrap(), vec!["a".to_string()]);
}

#[test]
fn add_same_user_different_password_fails_and_keeps_record() {
    let mut db = UserDatabase::new();
    assert_eq!(add(&mut db, "a".to_string(), "x".to_string()), Some("a".to_string()));
    assert_eq!(add(&mut db, "a".to_string(), "other".to_string()), None);
    // The original password still authenticates; the new one does not.
    assert_eq!(auth(&mut db, "a".to_string(), "other".to_string()), None);
    assert!(auth(&mut db, "a".to_string(), "x".to_string()).is_some());
}

#[test]
fn auth_token_is_sixteen_alphanumeric_characters() {
    let mut db = UserDatabase::new();
    add(&mut db, "a".to_string(), "x".to_string());
    let token = auth(&mut db, "a".to_string(), "x".to_string()).unwrap();
    assert_eq!(token.chars().count(), 16);
    assert!(token.chars().all(is_alphanumeric_ascii));
}

#[test]
fn auth_wrong_password_fails_without_token() {
    let mut db = UserDatabase::new();
    add(&mut db, "a".to_string(), "x".to_string());
    assert_eq!(auth(&mut db, "a".to_string(), "wrong".to_string()), None);
    assert_eq!(get_token(&db, "a".to_string()), None);
}

#[test]
fn reauth_returns_identical_token() {
    let mut db = UserDatabase::new();
    add(&mut db, "a".to_string(), "x".to_string());
    let t1 = auth(&mut db, "a".to_string(), "x".to_string()).unwrap();
    let t2 = auth(&mut db, "a".to_string(), "x".to_string()).unwrap();
    assert_eq!(t1, t2);
    assert_eq!(get_token(&db, "a".to_string()), Some(t1));
}

#[test]
fn auth_after_logout_returns_fresh_token() {
    let mut db = UserDatabase::new();
    add(&mut db, "a".to_string(), "x".to_string());
    let t1 = auth(&mut db, "a".to_string(), "x".to_string()).unwrap();
    assert_eq!(logout(&mut db, "a".to_string()), Some("a".to_string()));
    assert_eq!(get_token(&db, "a".to_string()), None);
    let t2 = auth(&mut db, "a".to_string(), "x".to_string()).unwrap();
    assert_ne!(t1, t2);
}

#[test]
fn token_resolves_back_to_user() {
    let mut db = UserDatabase::new();
    add(&mut db, "a".to_string(), "x".to_string());
    add(&mut db, "b".to_string(), "y".to_string());
    let ta = auth(&mut db, "a".to_string(), "x".to_string()).unwrap();
    let tb = auth(&mut db, "b".to_string(), "y".to_string()).unwrap();
    assert_eq!(db.find_user_by_token(&ta), Some("a".to_string()));
    assert_eq!(db.find_user_by_token(&tb), Some("b".to_string()));
}

#[test]
fn logout_by_token_clears_that_user() {
    let mut db = UserDatabase::new();
    add(&mut db, "a".to_string(), "x".to_string());
    let t = auth(&mut db, "a".to_string(), "x".to_string()).unwrap();
    assert_eq!(logout(&mut db, t.clone()), Some("a".to_string()));
    assert_eq!(get_token(&db, "a".to_string()), None);
    assert_eq!(db.find_user_by_token(&t), None);
}

#[test]
fn logout_unknown_identifier_fails_without_change() {
    let mut db = UserDatabase::new();
    add(&mut db, "a".to_string(), "x".to_string());
    let t = auth(&mut db, "a".to_string(), "x".to_string()).unwrap();
    assert_eq!(logout(&mut db, "no-such-user-or-token".to_string()), None);
    // Nothing was mutated.
    assert_eq!(get_token(&db, "a".to_string()), Some(t));
    assert_eq!(list(&db).unwrap(), vec!["a".to_string()]);
}

#[test]
fn delete_then_get_token_is_none() {
    let mut db = UserDatabase::new();
    add(&mut db, "a".to_string(), "x".to_string());
    auth(&mut db, "a".to_string(), "x".to_string()).unwrap();
    assert_eq!(del(&mut db, "a".to_string()), Some("a".to_string()));
    assert_eq!(get_token(&db, "a".to_string()), None);
    assert!(list(&db).is_none());
}

#[test]
fn delete_absent_user_fails() {
    let mut db = UserDatabase::new();
    assert_eq!(del(&mut db, "a".to_string()), None);
}
