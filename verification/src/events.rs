//! The events that the write path hands to the delivery worker.

pub mod channel;
pub mod subscription_created;
