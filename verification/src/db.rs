//! The subscription store.

pub mod model;
pub mod subscription_queries;
pub mod transaction;
pub mod types;
