use crate::domain::subscription_status::SubscriptionStatus;
use vstd::prelude::*;

verus! {

/// What the outside answers to one step of a handler: the store, the event
/// channel or the mailer did what the step asked, or failed to.
#[derive(Debug, Clone, Copy)]
pub enum Reply {
    /// A lookup by address found the subscription with this identifier and
    /// status, or none.
    Subscription(Option<(u128, SubscriptionStatus)>),
    /// A lookup by token found the subscription that owns it, or none.
    Owner(Option<u128>),
    /// The step was carried out.
    Completed,
    /// The step failed.
    Failed,
}

} // verus!
