//! Out-of-band delivery of tokens and alerts to a user's email address.
//!
//! The endpoints only decide what is delivered to whom; how a message is
//! rendered and transported is left to the gateway.

use vstd::prelude::*;
use vstd::string::*;

verus! {

/// A message for a user.
pub enum Notification {
    /// The link that proves ownership of the address.
    VerifyEmail { to: Seq<char>, username: Seq<char>, token: Seq<char> },
    /// The link that allows a new password to be set.
    PasswordReset { to: Seq<char>, username: Seq<char>, token: Seq<char> },
    /// Notice that a consumed refresh token was presented again.
    SecurityAlert { to: Seq<char>, username: Seq<char> },
}

/// The gateway could not deliver a message.
#[derive(Clone, Copy, Debug, PartialEq, Eq, Structural)]
pub struct DeliveryError;

/// Delivers messages. `delivered` is the sequence of messages accepted so
/// far: a delivery that succeeds appends to it, one that fails leaves it.
pub trait NotificationGateway {
    /// The messages accepted so far, oldest first.
    spec fn delivered(&self) -> Seq<Notification>;

    /// The gateway accepts every message. Sending does not change that.
    spec fn dependable(&self) -> bool;

    /// Sends the email verification link for `verification_token`.
    fn send_verification_email(
        &mut self,
        to_email: &str,
        username: &str,
        verification_token: &str,
    ) -> (r: Result<(), DeliveryError>)
        ensures
            final(self).dependable() == old(self).dependable(),
            old(self).dependable() ==> r is Ok,
            final(self).delivered() == if r is Ok {
                old(self).delivered().push(
                    Notification::VerifyEmail {
                        to: to_email@,
                        username: username@,
                        token: verification_token@,
                    },
                )
            } else {
                old(self).delivered()
            },
    ;

    /// Sends the password reset link for `reset_token`.
    fn send_password_reset_email(
        &mut self,
        to_email: &str,
        username: &str,
        reset_token: &str,
    ) -> (r: Result<(), DeliveryError>)
        ensures
            final(self).dependable() == old(self).dependable(),
            old(self).dependable() ==> r is Ok,
            final(self).delivered() == if r is Ok {
                old(self).delivered().push(
                    Notification::PasswordReset {
                        to: to_email@,
                        username: username@,
                        token: reset_token@,
                    },
                )
            } else {
                old(self).delivered()
            },
    ;

    /// Tells the user that their sessions were ended after a refresh token
    /// was presented a second time.
    fn send_security_alert(&mut self, to_email: &str, username: &str) -> (r: Result<
        (),
        DeliveryError,
    >)
        ensures
            final(self).dependable() == old(self).dependable(),
            old(self).dependable() ==> r is Ok,
            final(self).delivered() == if r is Ok {
                old(self).delivered().push(
                    Notification::SecurityAlert { to: to_email@, username: username@ },
                )
            } else {
                old(self).delivered()
            },
    ;
}

/// Path and query that lead to the email verification endpoint.
pub const VERIFY_EMAIL_PATH: &'static str = "/api/auth/verify-email?token=";

/// Path and query that lead to the password reset endpoint.
pub const RESET_PASSWORD_PATH: &'static str = "/api/auth/reset-password?token=";

/// The link that a verification message carries: the base address of the
/// service, the path of the endpoint, and the token as it is.
pub fn verification_link(base_url: &str, verification_token: &str) -> (link: String)
    ensures
        link@ == base_url@ + VERIFY_EMAIL_PATH@ + verification_token@,
{
    base_url.to_owned().concat(VERIFY_EMAIL_PATH).concat(verification_token)
}

/// The link that a password reset message carries: the base address of the
/// service, the path of the endpoint, and the token as it is.
pub fn reset_link(base_url: &str, reset_token: &str) -> (link: String)
    ensures
        link@ == base_url@ + RESET_PASSWORD_PATH@ + reset_token@,
{
    base_url.to_owned().concat(RESET_PASSWORD_PATH).concat(reset_token)
}

/// A message kept by an [`Outbox`].
#[derive(Debug, PartialEq, Eq)]
pub enum OutboxEntry {
    VerifyEmail { to: String, username: String, token: String },
    PasswordReset { to: String, username: String, token: String },
    SecurityAlert { to: String, username: String },
}

impl View for OutboxEntry {
    type V = Notification;

    open spec fn view(&self) -> Notification {
        match self {
            OutboxEntry::VerifyEmail { to, username, token } => Notification::VerifyEmail {
                to: to@,
                username: username@,
                token: token@,
            },
            OutboxEntry::PasswordReset { to, username, token } => Notification::PasswordReset {
                to: to@,
                username: username@,
                token: token@,
            },
            OutboxEntry::SecurityAlert { to, username } => Notification::SecurityAlert {
                to: to@,
                username: username@,
            },
        }
    }
}

/// A gateway that keeps every message in memory. While `online` is false it
/// refuses every message.
#[derive(Debug, PartialEq, Eq)]
pub struct Outbox {
    pub entries: Vec<OutboxEntry>,
    pub online: bool,
}

impl Outbox {
    /// An empty outbox that accepts messages.
    pub fn new() -> (r: Self)
        ensures
            r.delivered() == Seq::<Notification>::empty(),
            r.online,
    {
        Outbox { entries: Vec::new(), online: true }
    }

    fn accept(&mut self, entry: OutboxEntry) -> (r: Result<(), DeliveryError>)
        ensures
            r is Ok <==> old(self).online,
            final(self).online == old(self).online,
            final(self).delivered() == if r is Ok {
                old(self).delivered().push(entry@)
            } else {
                old(self).delivered()
            },
    {
        if self.online {
            self.entries.push(entry);
            assert(self.entries@.map_values(|e: OutboxEntry| e@) == old(self).entries@.map_values(
                |e: OutboxEntry| e@,
            ).push(entry@));
            Ok(())
        } else {
            Err(DeliveryError)
        }
    }
}

impl NotificationGateway for Outbox {
    open spec fn delivered(&self) -> Seq<Notification> {
        self.entries@.map_values(|e: OutboxEntry| e@)
    }

    open spec fn dependable(&self) -> bool {
        self.online
    }

    fn send_verification_email(
        &mut self,
        to_email: &str,
        username: &str,
        verification_token: &str,
    ) -> (r: Result<(), DeliveryError>)
        ensures
            r is Ok <==> old(self).online,
            final(self).online == old(self).online,
    {
        self.accept(
            OutboxEntry::VerifyEmail {
                to: to_email.to_owned(),
                username: username.to_owned(),
                token: verification_token.to_owned(),
            },
        )
    }

    fn send_password_reset_email(
        &mut self,
        to_email: &str,
        username: &str,
        reset_token: &str,
    ) -> (r: Result<(), DeliveryError>)
        ensures
            r is Ok <==> old(self).online,
            final(self).online == old(self).online,
    {
        self.accept(
            OutboxEntry::PasswordReset {
                to: to_email.to_owned(),
                username: username.to_owned(),
                token: reset_token.to_owned(),
            },
        )
    }

    fn send_security_alert(&mut self, to_email: &str, username: &str) -> (r: Result<
        (),
        DeliveryError,
    >)
        ensures
            r is Ok <==> old(self).online,
            final(self).online == old(self).online,
    {
        self.accept(
            OutboxEntry::SecurityAlert { to: to_email.to_owned(), username: username.to_owned() },
        )
    }
}

} // verus!
