//! Collaborators that the credential endpoints call.

pub mod email_service;

pub use email_service::{
    reset_link, verification_link, DeliveryError, Notification, NotificationGateway, Outbox,
    OutboxEntry,
};
