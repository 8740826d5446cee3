//! The two requests that the service answers.

pub mod response;
pub mod subscriptions;
pub mod subscriptions_confirm;
