use crate::clock::current_time_millis;
use crate::db::model::StoreState;
use crate::db::subscription_queries::{new_row, SubscriptionQueries};
use crate::db::transaction::{begin_transaction, commit_transaction};
use crate::db::types::{Store, SubscriptionRecord};
use crate::domain::new_subscriber::NewSubscriber;
use crate::domain::subscription_status::SubscriptionStatus;
use crate::events::channel::EventChannel;
use crate::events::subscription_created::{payload_for, EventPayload, SubscriptionCreated};
use crate::handlers::reply::Reply;
use crate::identifiers::{hyphenated, is_random_identifier, random_identifier};
use vstd::prelude::*;

verus! {

/// How a registration ended.
#[derive(Debug, PartialEq, Eq, Clone, Copy, Structural)]
pub enum SaveNewSubscriberOutput {
    /// A new subscription was created and awaits confirmation.
    Success,
    /// The address had an unconfirmed subscription; a new token was issued.
    ResendConfirmation,
    /// The address is confirmed already; nothing was done.
    AlreadySubscribed,
}

/// The step of a registration that failed.
#[derive(Debug, PartialEq, Eq, Clone, Copy, Structural)]
pub enum RegistrationFault {
    /// The lookup of the address failed.
    FetchSubscription,
    /// No transaction could be opened.
    AcquireTransaction,
    /// The failed subscription could not be set to pending.
    UpdateStatus,
    /// The subscription could not be inserted, or the address had none
    /// after the insert.
    InsertSubscription,
    /// The token could not be stored.
    StoreToken,
    /// The transaction could not be committed.
    CommitTransaction,
    /// The event could not be published.
    PublishEvent,
}

/// A registration that failed, with the step that failed.
#[derive(Debug, PartialEq, Eq, Clone, Copy, Structural)]
pub struct SaveNewSubscriberError(pub RegistrationFault);

impl RegistrationFault {
    /// What went wrong, in words.
    pub open spec fn description(self) -> Seq<char> {
        match self {
            RegistrationFault::FetchSubscription => "Failed to fetch a subscription by the email"@,
            RegistrationFault::AcquireTransaction => "Failed to acquire a transaction"@,
            RegistrationFault::UpdateStatus => "Failed to update the subscription status to Pending"@,
            RegistrationFault::InsertSubscription => "Failed to insert a new subscription"@,
            RegistrationFault::StoreToken => "Failed to store the subscription token"@,
            RegistrationFault::CommitTransaction => "Failed to commit the transaction"@,
            RegistrationFault::PublishEvent => "Failed to publish SubscriptionCreated event"@,
        }
    }

    /// Whether the fault strikes while the transaction is open, so that what
    /// the transaction wrote has to be rolled back.
    pub open spec fn inside_transaction(self) -> bool {
        self == RegistrationFault::UpdateStatus || self == RegistrationFault::InsertSubscription
            || self == RegistrationFault::StoreToken
    }

    /// Whether what the transaction wrote has to be rolled back.
    pub fn needs_rollback(&self) -> (rollback: bool)
        ensures
            rollback == self.inside_transaction(),
    {
        match self {
            RegistrationFault::UpdateStatus => true,
            RegistrationFault::InsertSubscription => true,
            RegistrationFault::StoreToken => true,
            _ => false,
        }
    }
}

impl SaveNewSubscriberError {
    /// What went wrong, in words.
    pub fn to_string(&self) -> (text: String)
        ensures
            text@ == self.0.description(),
    {
        match self.0 {
            RegistrationFault::FetchSubscription => String::from_str(
                "Failed to fetch a subscription by the email",
            ),
            RegistrationFault::AcquireTransaction => String::from_str(
                "Failed to acquire a transaction",
            ),
            RegistrationFault::UpdateStatus => String::from_str(
                "Failed to update the subscription status to Pending",
            ),
            RegistrationFault::InsertSubscription => String::from_str(
                "Failed to insert a new subscription",
            ),
            RegistrationFault::StoreToken => String::from_str(
                "Failed to store the subscription token",
            ),
            RegistrationFault::CommitTransaction => String::from_str(
                "Failed to commit the transaction",
            ),
            RegistrationFault::PublishEvent => String::from_str(
                "Failed to publish SubscriptionCreated event",
            ),
        }
    }
}

/// What a registration does about the subscription that the address has.
#[derive(Debug, PartialEq, Eq, Clone, Copy, Structural)]
pub enum RegistrationPlan {
    /// The address is confirmed: refuse, and write nothing.
    Refuse,
    /// The subscription failed: make it pending again.
    Reactivate(u128),
    /// The subscription is pending: leave it as it is.
    Reuse(u128),
    /// The address has no subscription: create one.
    Create,
}

impl RegistrationPlan {
    /// The plan for an address whose lookup gave `found`.
    pub open spec fn of(found: Option<(u128, SubscriptionStatus)>) -> RegistrationPlan {
        match found {
            Some((_, SubscriptionStatus::Confirmed)) => RegistrationPlan::Refuse,
            Some((id, SubscriptionStatus::Failed)) => RegistrationPlan::Reactivate(id),
            Some((id, SubscriptionStatus::Pending)) => RegistrationPlan::Reuse(id),
            None => RegistrationPlan::Create,
        }
    }

    /// Decides what to do about the subscription that the address has.
    pub fn decide(found: Option<(u128, SubscriptionStatus)>) -> (plan: RegistrationPlan)
        ensures
            plan == Self::of(found),
    {
        match found {
            Some((_, SubscriptionStatus::Confirmed)) => RegistrationPlan::Refuse,
            Some((id, SubscriptionStatus::Failed)) => RegistrationPlan::Reactivate(id),
            Some((id, SubscriptionStatus::Pending)) => RegistrationPlan::Reuse(id),
            None => RegistrationPlan::Create,
        }
    }
}

/// Where a registration stands: the step that is to be taken next, or how
/// the registration ended.
#[derive(Debug, PartialEq, Eq, Clone, Copy, Structural)]
pub enum RegistrationStep {
    /// Look up the subscription of the address.
    FetchSubscription,
    /// Open a transaction, to carry out the plan in it.
    BeginTransaction(RegistrationPlan),
    /// Set the status of this subscription to pending.
    UpdateStatus(u128),
    /// Insert a pending subscription for the subscriber.
    InsertSubscription,
    /// Look the address up again, to learn which subscription it has now.
    ResolveSubscription,
    /// Store the fresh token for this subscription.
    StoreToken(u128, SaveNewSubscriberOutput),
    /// Commit the transaction.
    CommitTransaction(u128, SaveNewSubscriberOutput),
    /// Publish the event for this subscription.
    PublishEvent(u128, SaveNewSubscriberOutput),
    /// The registration ended with this output.
    Done(SaveNewSubscriberOutput),
    /// The registration failed at this step.
    Failed(RegistrationFault),
}

impl RegistrationStep {
    /// Where every registration starts.
    pub open spec fn start() -> RegistrationStep {
        RegistrationStep::FetchSubscription
    }

    /// Whether the registration has ended.
    pub open spec fn is_final(self) -> bool {
        self is Done || self is Failed
    }

    /// The step that follows `self` once the outside has answered it with
    /// `reply`. An answer that does not fit the step counts as its failure.
    pub open spec fn next(self, reply: Reply) -> RegistrationStep {
        match self {
            RegistrationStep::FetchSubscription => match reply {
                Reply::Subscription(found) => match RegistrationPlan::of(found) {
                    RegistrationPlan::Refuse => RegistrationStep::Done(
                        SaveNewSubscriberOutput::AlreadySubscribed,
                    ),
                    plan => RegistrationStep::BeginTransaction(plan),
                },
                _ => RegistrationStep::Failed(RegistrationFault::FetchSubscription),
            },
            RegistrationStep::BeginTransaction(plan) => match reply {
                Reply::Completed => match plan {
                    RegistrationPlan::Reactivate(id) => RegistrationStep::UpdateStatus(id),
                    RegistrationPlan::Reuse(id) => RegistrationStep::StoreToken(
                        id,
                        SaveNewSubscriberOutput::ResendConfirmation,
                    ),
                    RegistrationPlan::Create => RegistrationStep::InsertSubscription,
                    RegistrationPlan::Refuse => RegistrationStep::Done(
                        SaveNewSubscriberOutput::AlreadySubscribed,
                    ),
                },
                _ => RegistrationStep::Failed(RegistrationFault::AcquireTransaction),
            },
            RegistrationStep::UpdateStatus(id) => match reply {
                Reply::Completed => RegistrationStep::StoreToken(
                    id,
                    SaveNewSubscriberOutput::ResendConfirmation,
                ),
                _ => RegistrationStep::Failed(RegistrationFault::UpdateStatus),
            },
            RegistrationStep::InsertSubscription => match reply {
                Reply::Completed => RegistrationStep::ResolveSubscription,
                _ => RegistrationStep::Failed(RegistrationFault::InsertSubscription),
            },
            RegistrationStep::ResolveSubscription => match reply {
                Reply::Subscription(Some((id, _))) => RegistrationStep::StoreToken(
                    id,
                    SaveNewSubscriberOutput::Success,
                ),
                _ => RegistrationStep::Failed(RegistrationFault::InsertSubscription),
            },
            RegistrationStep::StoreToken(id, output) => match reply {
                Reply::Completed => RegistrationStep::CommitTransaction(id, output),
                _ => RegistrationStep::Failed(RegistrationFault::StoreToken),
            },
            RegistrationStep::CommitTransaction(id, output) => match reply {
                Reply::Completed => RegistrationStep::PublishEvent(id, output),
                _ => RegistrationStep::Failed(RegistrationFault::CommitTransaction),
            },
            RegistrationStep::PublishEvent(_, output) => match reply {
                Reply::Completed => RegistrationStep::Done(output),
                _ => RegistrationStep::Failed(RegistrationFault::PublishEvent),
            },
            RegistrationStep::Done(output) => RegistrationStep::Done(output),
            RegistrationStep::Failed(fault) => RegistrationStep::Failed(fault),
        }
    }

    /// The first step of a registration.
    pub fn begin() -> (step: RegistrationStep)
        ensures
            step == Self::start(),
    {
        RegistrationStep::FetchSubscription
    }

    /// Takes the answer to the step `self` and gives the step that follows.
    pub fn advance(self, reply: Reply) -> (following: RegistrationStep)
        ensures
            following == self.next(reply),
    {
        match self {
            RegistrationStep::FetchSubscription => match reply {
                Reply::Subscription(found) => match RegistrationPlan::decide(found) {
                    RegistrationPlan::Refuse => RegistrationStep::Done(
                        SaveNewSubscriberOutput::AlreadySubscribed,
                    ),
                    plan => RegistrationStep::BeginTransaction(plan),
                },
                _ => RegistrationStep::Failed(RegistrationFault::FetchSubscription),
            },
            RegistrationStep::BeginTransaction(plan) => match reply {
                Reply::Completed => match plan {
                    RegistrationPlan::Reactivate(id) => RegistrationStep::UpdateStatus(id),
                    RegistrationPlan::Reuse(id) => RegistrationStep::StoreToken(
                        id,
                        SaveNewSubscriberOutput::ResendConfirmation,
                    ),
                    RegistrationPlan::Create => RegistrationStep::InsertSubscription,
                    RegistrationPlan::Refuse => RegistrationStep::Done(
                        SaveNewSubscriberOutput::AlreadySubscribed,
                    ),
                },
                _ => RegistrationStep::Failed(RegistrationFault::AcquireTransaction),
            },
            RegistrationStep::UpdateStatus(id) => match reply {
                Reply::Completed => RegistrationStep::StoreToken(
                    id,
                    SaveNewSubscriberOutput::ResendConfirmation,
                ),
                _ => RegistrationStep::Failed(RegistrationFault::UpdateStatus),
            },
            RegistrationStep::InsertSubscription => match reply {
                Reply::Completed => RegistrationStep::ResolveSubscription,
                _ => RegistrationStep::Failed(RegistrationFault::InsertSubscription),
            },
            RegistrationStep::ResolveSubscription => match reply {
                Reply::Subscription(Some((id, _))) => RegistrationStep::StoreToken(
                    id,
                    SaveNewSubscriberOutput::Success,
                ),
                _ => RegistrationStep::Failed(RegistrationFault::InsertSubscription),
            },
            RegistrationStep::StoreToken(id, output) => match reply {
                Reply::Completed => RegistrationStep::CommitTransaction(id, output),
                _ => RegistrationStep::Failed(RegistrationFault::StoreToken),
            },
            RegistrationStep::CommitTransaction(id, output) => match reply {
                Reply::Completed => RegistrationStep::PublishEvent(id, output),
                _ => RegistrationStep::Failed(RegistrationFault::CommitTransaction),
            },
            RegistrationStep::PublishEvent(_, output) => match reply {
                Reply::Completed => RegistrationStep::Done(output),
                _ => RegistrationStep::Failed(RegistrationFault::PublishEvent),
            },
            RegistrationStep::Done(output) => RegistrationStep::Done(output),
            RegistrationStep::Failed(fault) => RegistrationStep::Failed(fault),
        }
    }

    /// How a registration that stands at `self` ends when nothing more is
    /// done: with its output where it is done, and as a failure of the step it
    /// stands at otherwise.
    pub open spec fn settled(self) -> Result<SaveNewSubscriberOutput, SaveNewSubscriberError> {
        match self {
            RegistrationStep::Done(output) => Ok(output),
            RegistrationStep::Failed(fault) => Err(SaveNewSubscriberError(fault)),
            RegistrationStep::FetchSubscription => Err(
                SaveNewSubscriberError(RegistrationFault::FetchSubscription),
            ),
            RegistrationStep::BeginTransaction(_) => Err(
                SaveNewSubscriberError(RegistrationFault::AcquireTransaction),
            ),
            RegistrationStep::UpdateStatus(_) => Err(
                SaveNewSubscriberError(RegistrationFault::UpdateStatus),
            ),
            RegistrationStep::InsertSubscription => Err(
                SaveNewSubscriberError(RegistrationFault::InsertSubscription),
            ),
            RegistrationStep::ResolveSubscription => Err(
                SaveNewSubscriberError(RegistrationFault::InsertSubscription),
            ),
            RegistrationStep::StoreToken(_, _) => Err(
                SaveNewSubscriberError(RegistrationFault::StoreToken),
            ),
            RegistrationStep::CommitTransaction(_, _) => Err(
                SaveNewSubscriberError(RegistrationFault::CommitTransaction),
            ),
            RegistrationStep::PublishEvent(_, _) => Err(
                SaveNewSubscriberError(RegistrationFault::PublishEvent),
            ),
        }
    }

    /// Ends the registration where it stands.
    pub fn settle(self) -> (result: Result<SaveNewSubscriberOutput, SaveNewSubscriberError>)
        ensures
            result == self.settled(),
    {
        match self {
            RegistrationStep::Done(output) => Ok(output),
            RegistrationStep::Failed(fault) => Err(SaveNewSubscriberError(fault)),
            RegistrationStep::FetchSubscription => Err(
                SaveNewSubscriberError(RegistrationFault::FetchSubscription),
            ),
            RegistrationStep::BeginTransaction(_) => Err(
                SaveNewSubscriberError(RegistrationFault::AcquireTransaction),
            ),
            RegistrationStep::UpdateStatus(_) => Err(
                SaveNewSubscriberError(RegistrationFault::UpdateStatus),
            ),
            RegistrationStep::InsertSubscription => Err(
                SaveNewSubscriberError(RegistrationFault::InsertSubscription),
            ),
            RegistrationStep::ResolveSubscription => Err(
                SaveNewSubscriberError(RegistrationFault::InsertSubscription),
            ),
            RegistrationStep::StoreToken(_, _) => Err(
                SaveNewSubscriberError(RegistrationFault::StoreToken),
            ),
            RegistrationStep::CommitTransaction(_, _) => Err(
                SaveNewSubscriberError(RegistrationFault::CommitTransaction),
            ),
            RegistrationStep::PublishEvent(_, _) => Err(
                SaveNewSubscriberError(RegistrationFault::PublishEvent),
            ),
        }
    }
}

/// What a registration does: the store it leaves, the event it publishes,
/// if any, and its result.
pub struct RegistrationEffect {
    pub store: StoreState,
    pub published: Option<EventPayload>,
    pub result: Result<SaveNewSubscriberOutput, SaveNewSubscriberError>,
}

/// The effect of storing `token` for the subscription `id` in the
/// transaction that has turned `committed` into `prepared`, and of
/// committing it: where the store refuses the token, the transaction is
/// rolled back and nothing is published.
pub open spec fn token_effect(
    committed: StoreState,
    prepared: StoreState,
    subscriber: NewSubscriber,
    id: u128,
    token: u128,
    output: SaveNewSubscriberOutput,
) -> RegistrationEffect {
    if prepared.token_verdict(hyphenated(token), id) is Ok {
        RegistrationEffect {
            store: prepared.with_token(hyphenated(token), id),
            published: Some(payload_for(subscriber, id, token)),
            result: Ok(output),
        }
    } else {
        RegistrationEffect {
            store: committed,
            published: None,
            result: Err(SaveNewSubscriberError(RegistrationFault::StoreToken)),
        }
    }
}

/// The effect of the registration of `subscriber` on `store`, where
/// `candidate_id` and `subscribed_at` are at hand for a new subscription and
/// `token` is the fresh token.
///
/// A confirmed address is refused and nothing is written. A failed
/// subscription becomes pending again and a pending one stays as it is;
/// an address without a subscription gets a pending one. Then the token is
/// stored for the subscription that the address has, and the event is
/// published.
pub open spec fn registration_effect(
    store: StoreState,
    subscriber: NewSubscriber,
    candidate_id: u128,
    subscribed_at: i64,
    token: u128,
) -> RegistrationEffect {
    match store.record_for(subscriber.email@) {
        Some(row) => match row.status {
            SubscriptionStatus::Confirmed => RegistrationEffect {
                store,
                published: None,
                result: Ok(SaveNewSubscriberOutput::AlreadySubscribed),
            },
            SubscriptionStatus::Failed => token_effect(
                store,
                store.with_status(row.id, SubscriptionStatus::Pending),
                subscriber,
                row.id,
                token,
                SaveNewSubscriberOutput::ResendConfirmation,
            ),
            SubscriptionStatus::Pending => token_effect(
                store,
                store,
                subscriber,
                row.id,
                token,
                SaveNewSubscriberOutput::ResendConfirmation,
            ),
        },
        None => {
            let prepared = store.inserted(
                new_row(candidate_id, subscriber, SubscriptionStatus::Pending, subscribed_at),
            );
            match prepared.record_for(subscriber.email@) {
                Some(row) => token_effect(
                    store,
                    prepared,
                    subscriber,
                    row.id,
                    token,
                    SaveNewSubscriberOutput::Success,
                ),
                None => RegistrationEffect {
                    store,
                    published: None,
                    result: Err(SaveNewSubscriberError(RegistrationFault::InsertSubscription)),
                },
            }
        },
    }
}

/// The events that wait after a registration with the effect `effect`.
pub open spec fn after_publication(waiting: Seq<EventPayload>, effect: RegistrationEffect) -> Seq<
    EventPayload,
> {
    match effect.published {
        Some(payload) => waiting.push(payload),
        None => waiting,
    }
}

/// What a lookup tells the registration: the identifier and the status.
fn glance(found: &Option<SubscriptionRecord>) -> (seen: Option<(u128, SubscriptionStatus)>)
    ensures
        seen == match *found {
            Some(record) => Some((record.id, record.status)),
            None => None,
        },
{
    match found {
        Some(record) => Some((record.id, record.status)),
        None => None,
    }
}

/// Registers `new_subscriber` with the identifier, time and token that the
/// caller has drawn: looks the address up, carries out the plan for it in
/// one transaction together with the token, commits, and only then
/// publishes the event. Where a step fails the transaction is dropped, so
/// that the store stays as it was, and nothing is published.
pub fn register_as(
    store: &mut Store,
    channel: &mut EventChannel,
    new_subscriber: NewSubscriber,
    candidate_id: u128,
    subscribed_at: i64,
    subscription_token: u128,
) -> (result: Result<SaveNewSubscriberOutput, SaveNewSubscriberError>)
    ensures
        final(store)@ == registration_effect(
            old(store)@,
            new_subscriber,
            candidate_id,
            subscribed_at,
            subscription_token,
        ).store,
        result == registration_effect(
            old(store)@,
            new_subscriber,
            candidate_id,
            subscribed_at,
            subscription_token,
        ).result,
        final(channel)@ == after_publication(
            old(channel)@,
            registration_effect(
                old(store)@,
                new_subscriber,
                candidate_id,
                subscribed_at,
                subscription_token,
            ),
        ),
{
    let step = RegistrationStep::begin();
    let found = SubscriptionQueries::fetch_subscription_by_email(
        store.executor(),
        new_subscriber.email.as_ref(),
    );
    let step = step.advance(Reply::Subscription(glance(&found)));
    match step {
        RegistrationStep::BeginTransaction(_) => {},
        ended => {
            return ended.settle();
        },
    }
    let mut tx = begin_transaction(store);
    let step = step.advance(Reply::Completed);
    let step = match step {
        RegistrationStep::UpdateStatus(id) => {
            SubscriptionQueries::update_subscription_status(
                &mut tx,
                &id,
                SubscriptionStatus::Pending,
            );
            step.advance(Reply::Completed)
        },
        RegistrationStep::InsertSubscription => {
            let _ = SubscriptionQueries::insert_subscriber_as(
                &mut tx,
                candidate_id,
                subscribed_at,
                &new_subscriber,
                SubscriptionStatus::Pending,
            );
            let step = step.advance(Reply::Completed);
            let resolved = SubscriptionQueries::fetch_subscription_by_email(
                tx.executor(),
                new_subscriber.email.as_ref(),
            );
            step.advance(Reply::Subscription(glance(&resolved)))
        },
        other => other,
    };
    let id = match step {
        RegistrationStep::StoreToken(id, _) => id,
        ended => {
            return ended.settle();
        },
    };
    let stored = SubscriptionQueries::store_token(&mut tx, &id, &subscription_token);
    let step = step.advance(
        match stored {
            Ok(_) => Reply::Completed,
            Err(_) => Reply::Failed,
        },
    );
    match step {
        RegistrationStep::CommitTransaction(_, _) => {},
        ended => {
            return ended.settle();
        },
    }
    commit_transaction(tx, store);
    let step = step.advance(Reply::Completed);
    channel.publish(SubscriptionCreated::new(new_subscriber, id, subscription_token));
    let step = step.advance(Reply::Completed);
    step.settle()
}

/// Registers `new_subscriber`: draws a fresh token, and an identifier and
/// the time for the case that the address has no subscription yet, and
/// registers with them.
pub fn save_new_subscriber(
    store: &mut Store,
    channel: &mut EventChannel,
    new_subscriber: NewSubscriber,
) -> (result: Result<SaveNewSubscriberOutput, SaveNewSubscriberError>)
    ensures
        exists|candidate_id: u128, subscribed_at: i64, token: u128|
            {
                let effect = #[trigger] registration_effect(
                    old(store)@,
                    new_subscriber,
                    candidate_id,
                    subscribed_at,
                    token,
                );
                &&& is_random_identifier(candidate_id)
                &&& is_random_identifier(token)
                &&& final(store)@ == effect.store
                &&& result == effect.result
                &&& final(channel)@ == after_publication(old(channel)@, effect)
            },
{
    let subscription_token = random_identifier();
    let candidate_id = random_identifier();
    let subscribed_at = current_time_millis();
    let ghost effect = registration_effect(
        store@,
        new_subscriber,
        candidate_id,
        subscribed_at,
        subscription_token,
    );
    let result = register_as(
        store,
        channel,
        new_subscriber,
        candidate_id,
        subscribed_at,
        subscription_token,
    );
    proof {
        assert(store@ == effect.store && result == effect.result && channel@ == after_publication(
            old(channel)@,
            effect,
        ));
    }
    result
}

} // verus!
