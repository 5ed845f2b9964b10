use realworld_auth::auth::password::{
    hash_password, verify_password, HashingError, PASSWORD_COST,
};

#[test]
fn hash_then_verify_accepts_same_password() {
    let hash = hash_password("password1234").unwrap();
    assert_eq!(hash.len(), 60);
    assert!(hash.starts_with("$2b$14$"));
    assert_eq!(verify_password("password1234", &hash), Ok(true));
    assert_eq!(verify_password("password12345", &hash), Ok(false));
}

#[test]
fn hashes_of_one_password_differ_by_their_salt() {
    let a = hash_password("password1234").unwrap();
    let b = hash_password("password1234").unwrap();
    assert_ne!(a, b);
    assert_ne!(a, "password1234");
    assert_eq!(PASSWORD_COST, 14);
    // the work factor is written into the hash
    assert!(a.starts_with("$2b$14$"));
    assert!(b.starts_with("$2b$14$"));
    assert_eq!((a.len(), b.len()), (60, 60));
}

#[test]
fn known_hash_verifies() {
    let hash = "$2b$04$EGdrhbKUv8Oc9vGiXX0HQOxSg445d458Muh7DAHskb6QbtCvdxcie";
    assert_eq!(verify_password("correctbatteryhorsestapler", hash), Ok(true));
    assert_eq!(verify_password("correctbatteryhorsestaple", hash), Ok(false));
}

#[test]
fn text_that_is_no_hash_is_an_error() {
    assert_eq!(verify_password("password1234", ""), Err(HashingError::MalformedHash));
    assert_eq!(verify_password("password1234", "password1234"), Err(HashingError::MalformedHash));
    // a work factor that bcrypt does not accept
    let weak = "$2b$03$EGdrhbKUv8Oc9vGiXX0HQOxSg445d458Muh7DAHskb6QbtCvdxcie";
    assert_eq!(verify_password("correctbatteryhorsestapler", weak), Err(HashingError::MalformedHash));
    let cut = "$2b$04$EGdrhbKUv8Oc9vGiXX0HQOxSg445d458Muh7DAHskb6QbtCvdxci";
    assert_eq!(verify_password("correctbatteryhorsestapler", cut), Err(HashingError::MalformedHash));
}
