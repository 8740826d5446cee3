//! The three operations of the service: registration, confirmation and
//! delivery, each as a sequence of steps against the store, the event
//! channel and the mailer.

pub mod confirm_subscription;
pub mod protocol;
pub mod reply;
pub mod save_new_subscriber;
