use realworld_auth::services::{
    reset_link, verification_link, DeliveryError, NotificationGateway, Outbox, OutboxEntry,
};

#[test]
fn outbox_keeps_messages_while_online() {
    let mut o = Outbox::new();
    assert_eq!(o.send_security_alert("a@example.com", "alice"), Ok(()));
    o.online = false;
    assert_eq!(o.send_verification_email("a@example.com", "alice", "tok"), Err(DeliveryError));
    assert_eq!(
        o.entries,
        vec![OutboxEntry::SecurityAlert { to: "a@example.com".to_string(), username: "alice".to_string() }]
    );
}

#[test]
fn links_carry_the_token_as_it_is() {
    assert_eq!(
        verification_link("http://localhost:3000", "550e8400e29b41d4a716446655440000"),
        "http://localhost:3000/api/auth/verify-email?token=550e8400e29b41d4a716446655440000"
    );
    assert_eq!(
        reset_link("https://example.com", "abc"),
        "https://example.com/api/auth/reset-password?token=abc"
    );
    assert_eq!(verification_link("", ""), "/api/auth/verify-email?token=");
}

#[test]
fn outbox_keeps_the_order_of_messages() {
    let mut o = Outbox::new();
    o.send_verification_email("a@example.com", "alice", "v").unwrap();
    o.send_password_reset_email("a@example.com", "alice", "p").unwrap();
    o.send_security_alert("b@example.com", "bob").unwrap();
    assert_eq!(
        o.entries,
        vec![
            OutboxEntry::VerifyEmail {
                to: "a@example.com".to_string(),
                username: "alice".to_string(),
                token: "v".to_string()
            },
            OutboxEntry::PasswordReset {
                to: "a@example.com".to_string(),
                username: "alice".to_string(),
                token: "p".to_string()
            },
            OutboxEntry::SecurityAlert { to: "b@example.com".to_string(), username: "bob".to_string() },
        ]
    );
}
