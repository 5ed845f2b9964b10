use realworld_auth::auth::tokens::generate_refresh_token;
use realworld_auth::utils::generate_verification_token;

fn is_lower_hex(c: char) -> bool {
    c.is_ascii_digit() || ('a'..='f').contains(&c)
}

#[test]
fn refresh_token_is_a_hyphenated_random_uuid() {
    let t = generate_refresh_token();
    assert_eq!(t.len(), 36);
    for (i, c) in t.chars().enumerate() {
        if i == 8 || i == 13 || i == 18 || i == 23 {
            assert_eq!(c, '-');
        } else {
            assert!(is_lower_hex(c));
        }
    }
    assert_eq!(t.chars().nth(14), Some('4'));
    assert!(matches!(t.chars().nth(19), Some('8') | Some('9') | Some('a') | Some('b')));
}

#[test]
fn verification_token_is_32_hex_digits() {
    let t = generate_verification_token();
    assert_eq!(t.len(), 32);
    assert!(t.chars().all(is_lower_hex));
    assert_eq!(t.chars().nth(12), Some('4'));
}

#[test]
fn generated_tokens_differ() {
    assert_ne!(generate_refresh_token(), generate_refresh_token());
    assert_ne!(generate_verification_token(), generate_verification_token());
}
