//! Value objects and the subscription status.

pub mod new_subscriber;
pub mod subscriber_email;
pub mod subscriber_name;
pub mod subscription_status;
