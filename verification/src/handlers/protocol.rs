//! The order in which the handlers take their steps: what a caller who
//! carries the steps out, one answer at a time, can rely on.

use crate::domain::subscription_status::SubscriptionStatus;
use crate::events::subscription_created::{DeliveryOutput, DeliveryStep};
use crate::handlers::confirm_subscription::{ConfirmSubscriptionOutput, ConfirmationStep};
use crate::handlers::reply::Reply;
use crate::handlers::save_new_subscriber::{
    RegistrationPlan,
    RegistrationStep,
    SaveNewSubscriberOutput,
};
use vstd::prelude::*;

verus! {

/// Where a registration stands after the answers `replies`, given in order.
pub open spec fn registration_after(replies: Seq<Reply>) -> RegistrationStep
    decreases replies.len(),
{
    if replies.len() == 0 {
        RegistrationStep::start()
    } else {
        registration_after(replies.drop_last()).next(replies.last())
    }
}

/// The most answers that a registration which stands at `step` still takes.
pub open spec fn registration_steps_left(step: RegistrationStep) -> nat {
    match step {
        RegistrationStep::FetchSubscription => 7,
        RegistrationStep::BeginTransaction(_) => 6,
        RegistrationStep::InsertSubscription => 5,
        RegistrationStep::UpdateStatus(_) => 4,
        RegistrationStep::ResolveSubscription => 4,
        RegistrationStep::StoreToken(_, _) => 3,
        RegistrationStep::CommitTransaction(_, _) => 2,
        RegistrationStep::PublishEvent(_, _) => 1,
        RegistrationStep::Done(_) => 0,
        RegistrationStep::Failed(_) => 0,
    }
}

/// Every answer brings a registration nearer to its end, and a registration
/// that has ended stays as it ended.
pub proof fn lemma_registration_progress(step: RegistrationStep, reply: Reply)
    ensures
        !step.is_final() ==> registration_steps_left(step.next(reply)) < registration_steps_left(
            step,
        ),
        step.is_final() ==> step.next(reply) == step,
        step.is_final() <==> registration_steps_left(step) == 0,
{
}

/// A registration has ended after seven answers at the latest.
pub proof fn lemma_registration_ends(replies: Seq<Reply>)
    ensures
        registration_steps_left(registration_after(replies)) + replies.len() <= 7
            || registration_after(replies).is_final(),
        replies.len() >= 7 ==> registration_after(replies).is_final(),
    decreases replies.len(),
{
    if replies.len() > 0 {
        lemma_registration_ends(replies.drop_last());
        lemma_registration_progress(registration_after(replies.drop_last()), replies.last());
    }
}

/// The steps of a registration come in order. The transaction is committed
/// only once the token is stored, the event is published only once the
/// transaction is committed, and the registration reports a success or a
/// resent confirmation only once the event is published. An answer other
/// than `Completed` to any of these steps ends the registration as a
/// failure.
pub proof fn lemma_registration_order(step: RegistrationStep, reply: Reply)
    ensures
        step.next(reply) is CommitTransaction ==> step is StoreToken && reply is Completed,
        step.next(reply) is PublishEvent ==> step is CommitTransaction && reply is Completed,
        step.next(reply) is Done && !step.is_final() && step.next(reply) != RegistrationStep::Done(
            SaveNewSubscriberOutput::AlreadySubscribed,
        ) ==> step is PublishEvent && reply is Completed,
        step.next(reply) is StoreToken ==> step is BeginTransaction || step is UpdateStatus
            || step is ResolveSubscription,
        !step.is_final() && reply is Failed ==> step.next(reply) is Failed,
        step.next(reply) is Failed && !step.is_final() ==> !(reply is Completed) || step
            is FetchSubscription || step is ResolveSubscription,
{
}

/// Whether a registration that stands at `step` has a transaction open
/// that it has not asked to commit yet.
pub open spec fn registration_writes(step: RegistrationStep) -> bool {
    step is UpdateStatus || step is InsertSubscription || step is ResolveSubscription || step
        is StoreToken
}

/// A registration that fails says whether there is something to roll
/// back: its fault lies inside the transaction exactly where the step that
/// failed stood between the opening of the transaction and its commit.
pub proof fn lemma_registration_rollback(step: RegistrationStep, reply: Reply)
    requires
        !step.is_final(),
        step.next(reply) is Failed,
    ensures
        step.next(reply)->Failed_0.inside_transaction() == registration_writes(step),
{
}

/// Whether a registration can come to stand at `step`: it does not open a
/// transaction for an address that it refuses, and it carries no refusal
/// through the steps that issue a token.
pub open spec fn registration_in_shape(step: RegistrationStep) -> bool {
    match step {
        RegistrationStep::BeginTransaction(plan) => plan != RegistrationPlan::Refuse,
        RegistrationStep::StoreToken(_, output) => output
            != SaveNewSubscriberOutput::AlreadySubscribed,
        RegistrationStep::CommitTransaction(_, output) => output
            != SaveNewSubscriberOutput::AlreadySubscribed,
        RegistrationStep::PublishEvent(_, output) => output
            != SaveNewSubscriberOutput::AlreadySubscribed,
        _ => true,
    }
}

/// A confirmed address ends the registration at the lookup, before any
/// step that writes: a registration is answered with `AlreadySubscribed`
/// only where the first answer, to the lookup, showed a confirmed
/// subscription, and no registration opens a transaction for such an
/// address.
pub proof fn lemma_registration_refuses_at_once(replies: Seq<Reply>)
    ensures
        registration_in_shape(registration_after(replies)),
        registration_after(replies) is FetchSubscription ==> replies.len() == 0,
        registration_after(replies) == RegistrationStep::Done(
            SaveNewSubscriberOutput::AlreadySubscribed,
        ) ==> replies.len() >= 1 && registration_after(replies.take(1)) == registration_after(
            replies,
        ) && replies[0] is Subscription && replies[0]->Subscription_0 is Some
            && replies[0]->Subscription_0->Some_0.1 == SubscriptionStatus::Confirmed,
    decreases replies.len(),
{
    if replies.len() > 0 {
        let earlier = replies.drop_last();
        lemma_registration_refuses_at_once(earlier);
        if earlier.len() == 0 {
            assert(replies[0] == replies.last());
            assert(replies.take(1) == replies);
        } else {
            assert(replies[0] == earlier[0]);
            assert(replies.take(1) == earlier.take(1));
        }
    }
}

/// Where a confirmation stands after the answers `replies`, given in order.
pub open spec fn confirmation_after(replies: Seq<Reply>) -> ConfirmationStep
    decreases replies.len(),
{
    if replies.len() == 0 {
        ConfirmationStep::start()
    } else {
        confirmation_after(replies.drop_last()).next(replies.last())
    }
}

/// The most answers that a confirmation which stands at `step` still takes.
pub open spec fn confirmation_steps_left(step: ConfirmationStep) -> nat {
    match step {
        ConfirmationStep::BeginTransaction => 5,
        ConfirmationStep::FetchOwner => 4,
        ConfirmationStep::UpdateStatus(_) => 3,
        ConfirmationStep::DeleteToken => 2,
        ConfirmationStep::CommitTransaction => 1,
        ConfirmationStep::Done(_) => 0,
        ConfirmationStep::Failed(_) => 0,
    }
}

/// Every answer brings a confirmation nearer to its end, and a confirmation
/// that has ended stays as it ended.
pub proof fn lemma_confirmation_progress(step: ConfirmationStep, reply: Reply)
    ensures
        !step.is_final() ==> confirmation_steps_left(step.next(reply)) < confirmation_steps_left(
            step,
        ),
        step.is_final() ==> step.next(reply) == step,
        step.is_final() <==> confirmation_steps_left(step) == 0,
{
}

/// A confirmation has ended after five answers at the latest.
pub proof fn lemma_confirmation_ends(replies: Seq<Reply>)
    ensures
        confirmation_steps_left(confirmation_after(replies)) + replies.len() <= 5
            || confirmation_after(replies).is_final(),
        replies.len() >= 5 ==> confirmation_after(replies).is_final(),
    decreases replies.len(),
{
    if replies.len() > 0 {
        lemma_confirmation_ends(replies.drop_last());
        lemma_confirmation_progress(confirmation_after(replies.drop_last()), replies.last());
    }
}

/// The steps of a confirmation come in order. A token that is not found
/// ends the confirmation before anything is written; a confirmation
/// succeeds only once the commit is done, which comes only after the token
/// is deleted, which comes only after the status is set.
pub proof fn lemma_confirmation_order(step: ConfirmationStep, reply: Reply)
    ensures
        step.next(reply) == ConfirmationStep::Done(ConfirmSubscriptionOutput::TokenNotFound)
            && !step.is_final() ==> step is FetchOwner && reply == Reply::Owner(None),
        step.next(reply) == ConfirmationStep::Done(ConfirmSubscriptionOutput::Success)
            && !step.is_final() ==> step is CommitTransaction && reply is Completed,
        step.next(reply) is CommitTransaction ==> step is DeleteToken && reply is Completed,
        step.next(reply) is DeleteToken ==> step is UpdateStatus && reply is Completed,
        step.next(reply) is UpdateStatus ==> step is FetchOwner && reply is Owner,
        !step.is_final() && reply is Failed ==> step.next(reply) is Failed,
{
}

/// Where a delivery stands after the answers `replies`, given in order, to
/// a message that could be read as an event or could not.
pub open spec fn delivery_after(readable: bool, replies: Seq<Reply>) -> DeliveryStep
    decreases replies.len(),
{
    if replies.len() == 0 {
        DeliveryStep::start(readable)
    } else {
        delivery_after(readable, replies.drop_last()).next(replies.last())
    }
}

/// The most answers that a delivery which stands at `step` still takes.
pub open spec fn delivery_steps_left(step: DeliveryStep) -> nat {
    match step {
        DeliveryStep::SendEmail => 5,
        DeliveryStep::BeginTransaction => 4,
        DeliveryStep::MarkFailed => 3,
        DeliveryStep::DeleteToken { .. } => 2,
        DeliveryStep::CommitTransaction { .. } => 1,
        DeliveryStep::Done(_) => 0,
        DeliveryStep::Failed(_) => 0,
    }
}

/// Every answer brings a delivery nearer to its end, and a delivery that
/// has ended stays as it ended.
pub proof fn lemma_delivery_progress(step: DeliveryStep, reply: Reply)
    ensures
        !step.is_final() ==> delivery_steps_left(step.next(reply)) < delivery_steps_left(step),
        step.is_final() ==> step.next(reply) == step,
        step.is_final() <==> delivery_steps_left(step) == 0,
{
}

/// A delivery has ended after five answers at the latest.
pub proof fn lemma_delivery_ends(readable: bool, replies: Seq<Reply>)
    ensures
        delivery_steps_left(delivery_after(readable, replies)) + replies.len() <= 5
            || delivery_after(readable, replies).is_final(),
        replies.len() >= 5 ==> delivery_after(readable, replies).is_final(),
    decreases replies.len(),
{
    if replies.len() > 0 {
        lemma_delivery_ends(readable, replies.drop_last());
        lemma_delivery_progress(delivery_after(readable, replies.drop_last()), replies.last());
    }
}

/// A delivery sends once and never again. A message that could not be read
/// is dropped with no step at all; an email that was sent ends the
/// delivery; and the compensation is entered only from a send that failed.
pub proof fn lemma_delivery_order(step: DeliveryStep, reply: Reply)
    ensures
        DeliveryStep::start(false) == DeliveryStep::Done(DeliveryOutput::Dropped),
        !(step.next(reply) is SendEmail),
        step.next(reply) == DeliveryStep::Done(DeliveryOutput::Sent) && !step.is_final() ==> step
            is SendEmail && reply is Completed,
        step.next(reply) is BeginTransaction ==> step is SendEmail && !(reply is Completed),
        step.next(reply) is MarkFailed ==> step is BeginTransaction && reply is Completed,
        step.next(reply) is CommitTransaction ==> step is DeleteToken,
        step is DeleteToken ==> step.next(reply) is CommitTransaction,
{
}

} // verus!
