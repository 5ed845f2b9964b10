use realworld_auth::errors::{AuthError, Lang};
use realworld_auth::models::User;
use realworld_auth::schemas::{
    CreateUserRequest, ForgotPasswordRequest, LoginUserData, RegisterUserData,
    ResetPasswordRequest, UpdateUserRequest, UserData, UserResponse,
};
use realworld_auth::validation::{
    has_length_at_least, has_length_at_most, has_length_within, FieldError,
};

fn alice() -> User {
    User {
        id: 7,
        username: "alice".to_string(),
        email: "alice@example.com".to_string(),
        password_hash: "h".to_string(),
        email_verified: false,
        bio: None,
        image: Some("http://x/a.png".to_string()),
        created_at: 1,
        updated_at: 2,
    }
}

fn registration(username: &str, email: &str, password: &str) -> RegisterUserData {
    RegisterUserData { username: username.to_string(), email: email.to_string(), password: password.to_string() }
}

#[test]
fn public_view_hides_id_and_hash_and_fills_the_bio() {
    assert_eq!(
        UserData::from_user(alice()),
        UserData {
            email: "alice@example.com".to_string(),
            username: "alice".to_string(),
            bio: String::new(),
            image: Some("http://x/a.png".to_string()),
            email_verified: false,
        }
    );
    let mut with_bio = alice();
    with_bio.bio = Some("hello".to_string());
    with_bio.email_verified = true;
    let shown = UserData::from_user(with_bio);
    assert_eq!(shown.bio, "hello");
    assert!(shown.email_verified);
}

#[test]
fn owner_view_keeps_everything_but_the_hash() {
    assert_eq!(
        UserResponse::from(alice()),
        UserResponse {
            id: 7,
            username: "alice".to_string(),
            email: "alice@example.com".to_string(),
            bio: None,
            image: Some("http://x/a.png".to_string()),
            created_at: 1,
            updated_at: 2,
        }
    );
}

#[test]
fn registration_rules() {
    assert_eq!(registration("alice", "alice@example.com", "password1234").validate(), Ok(()));
    assert_eq!(registration("abc", "a@b.co", "12345678").validate(), Ok(()));
    assert_eq!(registration(&"x".repeat(50), "a@b.co", "12345678").validate(), Ok(()));
    assert_eq!(
        registration("ab", "a@b.co", "12345678").validate(),
        Err(vec![FieldError::UsernameLength])
    );
    assert_eq!(
        registration(&"x".repeat(51), "a@b.co", "12345678").validate(),
        Err(vec![FieldError::UsernameLength])
    );
    assert_eq!(registration("alice", "alice", "12345678").validate(), Err(vec![FieldError::EmailFormat]));
    assert_eq!(registration("alice", "", "12345678").validate(), Err(vec![FieldError::EmailFormat]));
    assert_eq!(
        registration("alice", "a@b.co", "1234567").validate(),
        Err(vec![FieldError::PasswordTooShort])
    );
    assert_eq!(
        registration("", "@", "").validate(),
        Err(vec![FieldError::UsernameLength, FieldError::EmailFormat, FieldError::PasswordTooShort])
    );
    // length counts characters, not bytes
    assert_eq!(registration("äöü", "a@b.co", "пароль12").validate(), Ok(()));
    let same = CreateUserRequest { username: "ab".to_string(), email: "x".to_string(), password: "12345678".to_string() };
    assert_eq!(same.validate(), Err(vec![FieldError::UsernameLength, FieldError::EmailFormat]));
}

#[test]
fn login_and_reset_rules() {
    let login = |e: &str, p: &str| LoginUserData { email: e.to_string(), password: p.to_string() };
    assert_eq!(login("a@b.co", "x").validate(), Ok(()));
    assert_eq!(login("a@b.co", "").validate(), Err(vec![FieldError::PasswordRequired]));
    assert_eq!(login("nope", "").validate(), Err(vec![FieldError::EmailFormat, FieldError::PasswordRequired]));
    assert_eq!(ForgotPasswordRequest { email: "a@b.co".to_string() }.validate(), Ok(()));
    assert_eq!(
        ForgotPasswordRequest { email: "a b@c".to_string() }.validate(),
        Err(vec![FieldError::EmailFormat])
    );
    let reset = |p: &str| ResetPasswordRequest { token: String::new(), new_password: p.to_string() };
    assert_eq!(reset("12345678").validate(), Ok(()));
    assert_eq!(reset("1234567").validate(), Err(vec![FieldError::PasswordTooShort]));
}

#[test]
fn update_rules_apply_to_what_is_present() {
    let none = UpdateUserRequest { username: None, email: None, bio: None, image: None };
    assert_eq!(none.validate(), Ok(()));
    let good = UpdateUserRequest {
        username: Some("alice".to_string()),
        email: Some("a@b.co".to_string()),
        bio: Some("b".repeat(500)),
        image: Some("https://example.com/a.png".to_string()),
    };
    assert_eq!(good.validate(), Ok(()));
    let bad = UpdateUserRequest {
        username: Some("al".to_string()),
        email: Some("nope".to_string()),
        bio: Some("b".repeat(501)),
        image: Some("not a url".to_string()),
    };
    assert_eq!(
        bad.validate(),
        Err(vec![
            FieldError::UsernameLength,
            FieldError::EmailFormat,
            FieldError::BioTooLong,
            FieldError::ImageUrl
        ])
    );
    let only_image = UpdateUserRequest { username: None, email: None, bio: None, image: Some("/a.png".to_string()) };
    assert_eq!(only_image.validate(), Err(vec![FieldError::ImageUrl]));
}

#[test]
fn length_helpers_count_characters() {
    assert!(has_length_within("abc", 3, 3));
    assert!(!has_length_within("ab", 3, 50));
    assert!(has_length_within("日本語", 3, 3));
    assert!(has_length_at_least("12345678", 8));
    assert!(!has_length_at_least("", 1));
    assert!(has_length_at_most("", 0));
    assert!(!has_length_at_most("a", 0));
}

#[test]
fn messages_and_statuses() {
    assert_eq!(FieldError::UsernameLength.message(), "Username must be between 3 and 50 characters");
    assert_eq!(FieldError::EmailFormat.message(), "Invalid email format");
    assert_eq!(FieldError::PasswordTooShort.message(), "Password must be at least 8 characters");
    assert_eq!(FieldError::PasswordRequired.message(), "Password is required");
    assert_eq!(FieldError::BioTooLong.message(), "Bio cannot exceed 500 characters");
    assert_eq!(FieldError::ImageUrl.message(), "Image must be a valid URL");
    let statuses: Vec<u16> = [
        AuthError::Validation,
        AuthError::Unauthorized,
        AuthError::Conflict,
        AuthError::NotFound,
        AuthError::Gone,
        AuthError::Internal,
    ]
    .iter()
    .map(|e| e.status_code())
    .collect();
    assert_eq!(statuses, vec![400, 401, 409, 404, 410, 500]);
}

#[test]
fn languages() {
    assert_eq!(Lang::default(), Lang::en);
    assert_eq!((Lang::en.as_str(), Lang::de.as_str(), Lang::fr.as_str()), ("en", "de", "fr"));
}
