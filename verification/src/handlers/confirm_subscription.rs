use crate::db::model::StoreState;
use crate::db::subscription_queries::SubscriptionQueries;
use crate::db::transaction::{begin_transaction, commit_transaction};
use crate::db::types::Store;
use crate::domain::subscription_status::SubscriptionStatus;
use crate::handlers::reply::Reply;
use vstd::prelude::*;

verus! {

/// How a confirmation ended.
#[derive(Debug, PartialEq, Eq, Clone, Copy, Structural)]
pub enum ConfirmSubscriptionOutput {
    /// The token was outstanding: its subscription is confirmed now and the
    /// token is gone.
    Success,
    /// The token is not outstanding: it was never issued, or it was used or
    /// withdrawn. Nothing tells the cases apart.
    TokenNotFound,
}

/// The step of a confirmation that failed.
#[derive(Debug, PartialEq, Eq, Clone, Copy, Structural)]
pub enum ConfirmationFault {
    /// No transaction could be opened.
    AcquireTransaction,
    /// The lookup of the token failed.
    FetchSubscriptionId,
    /// The subscription could not be set to confirmed.
    UpdateStatus,
    /// The token could not be deleted.
    DeleteToken,
    /// The transaction could not be committed.
    CommitTransaction,
}

/// A confirmation that failed, with the step that failed.
#[derive(Debug, PartialEq, Eq, Clone, Copy, Structural)]
pub struct ConfirmSubscriptionError(pub ConfirmationFault);

impl ConfirmationFault {
    /// What went wrong, in words.
    pub open spec fn description(self) -> Seq<char> {
        match self {
            ConfirmationFault::AcquireTransaction => "Failed to acquire a transaction"@,
            ConfirmationFault::FetchSubscriptionId => "Failed to fetch a subscription ID by the subscription token"@,
            ConfirmationFault::UpdateStatus => "Failed to update a subscription status to Confirmed"@,
            ConfirmationFault::DeleteToken => "Failed to delete the subscription token"@,
            ConfirmationFault::CommitTransaction => "Failed to commit the transaction"@,
        }
    }
}

impl ConfirmSubscriptionError {
    /// What went wrong, in words.
    pub fn to_string(&self) -> (text: String)
        ensures
            text@ == self.0.description(),
    {
        match self.0 {
            ConfirmationFault::AcquireTransaction => String::from_str(
                "Failed to acquire a transaction",
            ),
            ConfirmationFault::FetchSubscriptionId => String::from_str(
                "Failed to fetch a subscription ID by the subscription token",
            ),
            ConfirmationFault::UpdateStatus => String::from_str(
                "Failed to update a subscription status to Confirmed",
            ),
            ConfirmationFault::DeleteToken => String::from_str(
                "Failed to delete the subscription token",
            ),
            ConfirmationFault::CommitTransaction => String::from_str(
                "Failed to commit the transaction",
            ),
        }
    }
}

/// Where a confirmation stands: the step that is to be taken next, or how
/// the confirmation ended.
#[derive(Debug, PartialEq, Eq, Clone, Copy, Structural)]
pub enum ConfirmationStep {
    /// Open a transaction.
    BeginTransaction,
    /// Look up the subscription that owns the token.
    FetchOwner,
    /// Set the status of this subscription to confirmed.
    UpdateStatus(u128),
    /// Delete the token.
    DeleteToken,
    /// Commit the transaction.
    CommitTransaction,
    /// The confirmation ended with this output.
    Done(ConfirmSubscriptionOutput),
    /// The confirmation failed at this step.
    Failed(ConfirmationFault),
}

impl ConfirmationStep {
    /// Where every confirmation starts.
    pub open spec fn start() -> ConfirmationStep {
        ConfirmationStep::BeginTransaction
    }

    /// Whether the confirmation has ended.
    pub open spec fn is_final(self) -> bool {
        self is Done || self is Failed
    }

    /// The step that follows `self` once the outside has answered it with
    /// `reply`. An answer that does not fit the step counts as its failure.
    pub open spec fn next(self, reply: Reply) -> ConfirmationStep {
        match self {
            ConfirmationStep::BeginTransaction => match reply {
                Reply::Completed => ConfirmationStep::FetchOwner,
                _ => ConfirmationStep::Failed(ConfirmationFault::AcquireTransaction),
            },
            ConfirmationStep::FetchOwner => match reply {
                Reply::Owner(Some(id)) => ConfirmationStep::UpdateStatus(id),
                Reply::Owner(None) => ConfirmationStep::Done(
                    ConfirmSubscriptionOutput::TokenNotFound,
                ),
                _ => ConfirmationStep::Failed(ConfirmationFault::FetchSubscriptionId),
            },
            ConfirmationStep::UpdateStatus(_) => match reply {
                Reply::Completed => ConfirmationStep::DeleteToken,
                _ => ConfirmationStep::Failed(ConfirmationFault::UpdateStatus),
            },
            ConfirmationStep::DeleteToken => match reply {
                Reply::Completed => ConfirmationStep::CommitTransaction,
                _ => ConfirmationStep::Failed(ConfirmationFault::DeleteToken),
            },
            ConfirmationStep::CommitTransaction => match reply {
                Reply::Completed => ConfirmationStep::Done(ConfirmSubscriptionOutput::Success),
                _ => ConfirmationStep::Failed(ConfirmationFault::CommitTransaction),
            },
            ConfirmationStep::Done(output) => ConfirmationStep::Done(output),
            ConfirmationStep::Failed(fault) => ConfirmationStep::Failed(fault),
        }
    }

    /// How a confirmation that stands at `self` ends when nothing more is
    /// done: with its output where it is done, and as a failure of the step it
    /// stands at otherwise.
    pub open spec fn settled(self) -> Result<ConfirmSubscriptionOutput, ConfirmSubscriptionError> {
        match self {
            ConfirmationStep::Done(output) => Ok(output),
            ConfirmationStep::Failed(fault) => Err(ConfirmSubscriptionError(fault)),
            ConfirmationStep::BeginTransaction => Err(
                ConfirmSubscriptionError(ConfirmationFault::AcquireTransaction),
            ),
            ConfirmationStep::FetchOwner => Err(
                ConfirmSubscriptionError(ConfirmationFault::FetchSubscriptionId),
            ),
            ConfirmationStep::UpdateStatus(_) => Err(
                ConfirmSubscriptionError(ConfirmationFault::UpdateStatus),
            ),
            ConfirmationStep::DeleteToken => Err(
                ConfirmSubscriptionError(ConfirmationFault::DeleteToken),
            ),
            ConfirmationStep::CommitTransaction => Err(
                ConfirmSubscriptionError(ConfirmationFault::CommitTransaction),
            ),
        }
    }

    /// The first step of a confirmation.
    pub fn begin() -> (step: ConfirmationStep)
        ensures
            step == Self::start(),
    {
        ConfirmationStep::BeginTransaction
    }

    /// Takes the answer to the step `self` and gives the step that follows.
    pub fn advance(self, reply: Reply) -> (following: ConfirmationStep)
        ensures
            following == self.next(reply),
    {
        match self {
            ConfirmationStep::BeginTransaction => match reply {
                Reply::Completed => ConfirmationStep::FetchOwner,
                _ => ConfirmationStep::Failed(ConfirmationFault::AcquireTransaction),
            },
            ConfirmationStep::FetchOwner => match reply {
                Reply::Owner(Some(id)) => ConfirmationStep::UpdateStatus(id),
                Reply::Owner(None) => ConfirmationStep::Done(
                    ConfirmSubscriptionOutput::TokenNotFound,
                ),
                _ => ConfirmationStep::Failed(ConfirmationFault::FetchSubscriptionId),
            },
            ConfirmationStep::UpdateStatus(_) => match reply {
                Reply::Completed => ConfirmationStep::DeleteToken,
                _ => ConfirmationStep::Failed(ConfirmationFault::UpdateStatus),
            },
            ConfirmationStep::DeleteToken => match reply {
                Reply::Completed => ConfirmationStep::CommitTransaction,
                _ => ConfirmationStep::Failed(ConfirmationFault::DeleteToken),
            },
            ConfirmationStep::CommitTransaction => match reply {
                Reply::Completed => ConfirmationStep::Done(ConfirmSubscriptionOutput::Success),
                _ => ConfirmationStep::Failed(ConfirmationFault::CommitTransaction),
            },
            ConfirmationStep::Done(output) => ConfirmationStep::Done(output),
            ConfirmationStep::Failed(fault) => ConfirmationStep::Failed(fault),
        }
    }

    /// Ends the confirmation where it stands.
    pub fn settle(self) -> (result: Result<ConfirmSubscriptionOutput, ConfirmSubscriptionError>)
        ensures
            result == self.settled(),
    {
        match self {
            ConfirmationStep::Done(output) => Ok(output),
            ConfirmationStep::Failed(fault) => Err(ConfirmSubscriptionError(fault)),
            ConfirmationStep::BeginTransaction => Err(
                ConfirmSubscriptionError(ConfirmationFault::AcquireTransaction),
            ),
            ConfirmationStep::FetchOwner => Err(
                ConfirmSubscriptionError(ConfirmationFault::FetchSubscriptionId),
            ),
            ConfirmationStep::UpdateStatus(_) => Err(
                ConfirmSubscriptionError(ConfirmationFault::UpdateStatus),
            ),
            ConfirmationStep::DeleteToken => Err(
                ConfirmSubscriptionError(ConfirmationFault::DeleteToken),
            ),
            ConfirmationStep::CommitTransaction => Err(
                ConfirmSubscriptionError(ConfirmationFault::CommitTransaction),
            ),
        }
    }
}

/// The store after the confirmation of `token`: where the token is
/// outstanding, its subscription is confirmed and the token is gone;
/// otherwise the store is as it was.
pub open spec fn confirmed_store(store: StoreState, token: Seq<char>) -> StoreState {
    match store.owner_of(token) {
        Some(id) => store.with_status(id, SubscriptionStatus::Confirmed).without_token(token),
        None => store,
    }
}

/// The output of the confirmation of `token`.
pub open spec fn confirmation_output(store: StoreState, token: Seq<char>) -> ConfirmSubscriptionOutput {
    match store.owner_of(token) {
        Some(_) => ConfirmSubscriptionOutput::Success,
        None => ConfirmSubscriptionOutput::TokenNotFound,
    }
}

/// Confirms the subscription that `subscription_token` belongs to: in one
/// transaction, looks the token up, sets the subscription to confirmed and
/// deletes the token. A token can thus be used once.
pub fn confirm_subscription(subscription_token: &str, store: &mut Store) -> (result: Result<
    ConfirmSubscriptionOutput,
    ConfirmSubscriptionError,
>)
    ensures
        final(store)@ == confirmed_store(old(store)@, subscription_token@),
        result == Ok::<ConfirmSubscriptionOutput, ConfirmSubscriptionError>(
            confirmation_output(old(store)@, subscription_token@),
        ),
{
    let step = ConfirmationStep::begin();
    let mut tx = begin_transaction(store);
    let step = step.advance(Reply::Completed);
    let owner = SubscriptionQueries::fetch_subscription_id_by_token(
        tx.executor(),
        subscription_token,
    );
    let step = step.advance(Reply::Owner(owner));
    let id = match step {
        ConfirmationStep::UpdateStatus(id) => id,
        ended => {
            return ended.settle();
        },
    };
    SubscriptionQueries::update_subscription_status(&mut tx, &id, SubscriptionStatus::Confirmed);
    let step = step.advance(Reply::Completed);
    SubscriptionQueries::delete_token(&mut tx, subscription_token);
    let step = step.advance(Reply::Completed);
    commit_transaction(tx, store);
    let step = step.advance(Reply::Completed);
    step.settle()
}

} // verus!
