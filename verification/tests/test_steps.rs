use zero2prod::domain::subscription_status::SubscriptionStatus;
use zero2prod::events::subscription_created::{
    DeliveryFault, DeliveryOutput, DeliveryStep, ProcessError,
};
use zero2prod::handlers::confirm_subscription::{
    ConfirmSubscriptionError, ConfirmSubscriptionOutput, ConfirmationFault, ConfirmationStep,
};
use zero2prod::handlers::reply::Reply;
use zero2prod::handlers::save_new_subscriber::{
    RegistrationFault, RegistrationPlan, RegistrationStep, SaveNewSubscriberError,
    SaveNewSubscriberOutput,
};

fn run_registration(replies: &[Reply]) -> Vec<RegistrationStep> {
    let mut steps = vec![RegistrationStep::begin()];
    for reply in replies {
        let next = steps.last().unwrap().advance(*reply);
        steps.push(next);
    }
    steps
}

#[test]
fn the_plan_follows_the_status_that_the_lookup_found() {
    assert_eq!(RegistrationPlan::decide(None), RegistrationPlan::Create);
    assert_eq!(
        RegistrationPlan::decide(Some((5, SubscriptionStatus::Pending))),
        RegistrationPlan::Reuse(5)
    );
    assert_eq!(
        RegistrationPlan::decide(Some((5, SubscriptionStatus::Failed))),
        RegistrationPlan::Reactivate(5)
    );
    assert_eq!(
        RegistrationPlan::decide(Some((5, SubscriptionStatus::Confirmed))),
        RegistrationPlan::Refuse
    );
}

#[test]
fn a_new_address_is_inserted_resolved_and_given_a_token() {
    let steps = run_registration(&[
        Reply::Subscription(None),
        Reply::Completed,
        Reply::Completed,
        Reply::Subscription(Some((9, SubscriptionStatus::Pending))),
        Reply::Completed,
        Reply::Completed,
        Reply::Completed,
    ]);
    assert_eq!(
        steps,
        vec![
            RegistrationStep::FetchSubscription,
            RegistrationStep::BeginTransaction(RegistrationPlan::Create),
            RegistrationStep::InsertSubscription,
            RegistrationStep::ResolveSubscription,
            RegistrationStep::StoreToken(9, SaveNewSubscriberOutput::Success),
            RegistrationStep::CommitTransaction(9, SaveNewSubscriberOutput::Success),
            RegistrationStep::PublishEvent(9, SaveNewSubscriberOutput::Success),
            RegistrationStep::Done(SaveNewSubscriberOutput::Success),
        ]
    );
    assert_eq!(steps.last().unwrap().settle(), Ok(SaveNewSubscriberOutput::Success));
}

#[test]
fn a_failed_subscription_is_set_to_pending_before_the_token_is_stored() {
    let steps = run_registration(&[
        Reply::Subscription(Some((9, SubscriptionStatus::Failed))),
        Reply::Completed,
        Reply::Completed,
        Reply::Completed,
        Reply::Completed,
        Reply::Completed,
    ]);
    assert_eq!(
        steps,
        vec![
            RegistrationStep::FetchSubscription,
            RegistrationStep::BeginTransaction(RegistrationPlan::Reactivate(9)),
            RegistrationStep::UpdateStatus(9),
            RegistrationStep::StoreToken(9, SaveNewSubscriberOutput::ResendConfirmation),
            RegistrationStep::CommitTransaction(9, SaveNewSubscriberOutput::ResendConfirmation),
            RegistrationStep::PublishEvent(9, SaveNewSubscriberOutput::ResendConfirmation),
            RegistrationStep::Done(SaveNewSubscriberOutput::ResendConfirmation),
        ]
    );
}

#[test]
fn a_pending_subscription_goes_straight_to_the_token() {
    let steps = run_registration(&[
        Reply::Subscription(Some((9, SubscriptionStatus::Pending))),
        Reply::Completed,
    ]);
    assert_eq!(
        steps,
        vec![
            RegistrationStep::FetchSubscription,
            RegistrationStep::BeginTransaction(RegistrationPlan::Reuse(9)),
            RegistrationStep::StoreToken(9, SaveNewSubscriberOutput::ResendConfirmation),
        ]
    );
}

#[test]
fn a_confirmed_subscription_ends_the_registration_at_the_lookup() {
    let steps = run_registration(&[
        Reply::Subscription(Some((9, SubscriptionStatus::Confirmed))),
        Reply::Completed,
        Reply::Failed,
    ]);
    assert_eq!(
        steps,
        vec![
            RegistrationStep::FetchSubscription,
            RegistrationStep::Done(SaveNewSubscriberOutput::AlreadySubscribed),
            RegistrationStep::Done(SaveNewSubscriberOutput::AlreadySubscribed),
            RegistrationStep::Done(SaveNewSubscriberOutput::AlreadySubscribed),
        ]
    );
}

#[test]
fn each_step_of_a_registration_fails_with_its_own_fault() {
    let cases = vec![
        (RegistrationStep::FetchSubscription, RegistrationFault::FetchSubscription, false),
        (
            RegistrationStep::BeginTransaction(RegistrationPlan::Create),
            RegistrationFault::AcquireTransaction,
            false,
        ),
        (RegistrationStep::UpdateStatus(1), RegistrationFault::UpdateStatus, true),
        (RegistrationStep::InsertSubscription, RegistrationFault::InsertSubscription, true),
        (RegistrationStep::ResolveSubscription, RegistrationFault::InsertSubscription, true),
        (
            RegistrationStep::StoreToken(1, SaveNewSubscriberOutput::Success),
            RegistrationFault::StoreToken,
            true,
        ),
        (
            RegistrationStep::CommitTransaction(1, SaveNewSubscriberOutput::Success),
            RegistrationFault::CommitTransaction,
            false,
        ),
        (
            RegistrationStep::PublishEvent(1, SaveNewSubscriberOutput::Success),
            RegistrationFault::PublishEvent,
            false,
        ),
    ];
    for (step, fault, rollback) in cases {
        assert_eq!(step.advance(Reply::Failed), RegistrationStep::Failed(fault));
        assert_eq!(step.advance(Reply::Failed).settle(), Err(SaveNewSubscriberError(fault)));
        // A registration given up at a step fails at that step.
        assert_eq!(step.settle(), Err(SaveNewSubscriberError(fault)));
        assert_eq!(fault.needs_rollback(), rollback);
        // A failure stays a failure.
        assert_eq!(
            RegistrationStep::Failed(fault).advance(Reply::Completed),
            RegistrationStep::Failed(fault)
        );
    }
}

#[test]
fn an_answer_that_does_not_fit_the_step_counts_as_its_failure() {
    assert_eq!(
        RegistrationStep::FetchSubscription.advance(Reply::Completed),
        RegistrationStep::Failed(RegistrationFault::FetchSubscription)
    );
    assert_eq!(
        RegistrationStep::InsertSubscription.advance(Reply::Owner(Some(1))),
        RegistrationStep::Failed(RegistrationFault::InsertSubscription)
    );
    assert_eq!(
        RegistrationStep::ResolveSubscription.advance(Reply::Subscription(None)),
        RegistrationStep::Failed(RegistrationFault::InsertSubscription)
    );
    assert_eq!(
        ConfirmationStep::FetchOwner.advance(Reply::Completed),
        ConfirmationStep::Failed(ConfirmationFault::FetchSubscriptionId)
    );
}

#[test]
fn the_faults_of_a_registration_say_what_went_wrong() {
    let texts = vec![
        (RegistrationFault::FetchSubscription, "Failed to fetch a subscription by the email"),
        (RegistrationFault::AcquireTransaction, "Failed to acquire a transaction"),
        (RegistrationFault::UpdateStatus, "Failed to update the subscription status to Pending"),
        (RegistrationFault::InsertSubscription, "Failed to insert a new subscription"),
        (RegistrationFault::StoreToken, "Failed to store the subscription token"),
        (RegistrationFault::CommitTransaction, "Failed to commit the transaction"),
        (RegistrationFault::PublishEvent, "Failed to publish SubscriptionCreated event"),
    ];
    for (fault, text) in texts {
        assert_eq!(SaveNewSubscriberError(fault).to_string(), text);
    }
}

#[test]
fn a_confirmation_sets_the_status_deletes_the_token_and_commits() {
    let mut step = ConfirmationStep::begin();
    let mut steps = vec![step];
    for reply in [
        Reply::Completed,
        Reply::Owner(Some(4)),
        Reply::Completed,
        Reply::Completed,
        Reply::Completed,
    ] {
        step = step.advance(reply);
        steps.push(step);
    }
    assert_eq!(
        steps,
        vec![
            ConfirmationStep::BeginTransaction,
            ConfirmationStep::FetchOwner,
            ConfirmationStep::UpdateStatus(4),
            ConfirmationStep::DeleteToken,
            ConfirmationStep::CommitTransaction,
            ConfirmationStep::Done(ConfirmSubscriptionOutput::Success),
        ]
    );
    assert_eq!(step.settle(), Ok(ConfirmSubscriptionOutput::Success));
}

#[test]
fn a_token_that_is_not_found_ends_the_confirmation_before_any_write() {
    let step = ConfirmationStep::begin().advance(Reply::Completed).advance(Reply::Owner(None));
    assert_eq!(step, ConfirmationStep::Done(ConfirmSubscriptionOutput::TokenNotFound));
    assert_eq!(step.settle(), Ok(ConfirmSubscriptionOutput::TokenNotFound));
}

#[test]
fn each_step_of_a_confirmation_fails_with_its_own_fault() {
    let cases = vec![
        (
            ConfirmationStep::BeginTransaction,
            ConfirmationFault::AcquireTransaction,
            "Failed to acquire a transaction",
        ),
        (
            ConfirmationStep::FetchOwner,
            ConfirmationFault::FetchSubscriptionId,
            "Failed to fetch a subscription ID by the subscription token",
        ),
        (
            ConfirmationStep::UpdateStatus(1),
            ConfirmationFault::UpdateStatus,
            "Failed to update a subscription status to Confirmed",
        ),
        (
            ConfirmationStep::DeleteToken,
            ConfirmationFault::DeleteToken,
            "Failed to delete the subscription token",
        ),
        (
            ConfirmationStep::CommitTransaction,
            ConfirmationFault::CommitTransaction,
            "Failed to commit the transaction",
        ),
    ];
    for (step, fault, text) in cases {
        assert_eq!(step.advance(Reply::Failed), ConfirmationStep::Failed(fault));
        assert_eq!(step.advance(Reply::Failed).settle(), Err(ConfirmSubscriptionError(fault)));
        assert_eq!(step.settle(), Err(ConfirmSubscriptionError(fault)));
        assert_eq!(ConfirmSubscriptionError(fault).to_string(), text);
    }
}

#[test]
fn a_delivery_that_is_sent_ends_at_once() {
    assert_eq!(DeliveryStep::begin(true), DeliveryStep::SendEmail);
    assert_eq!(
        DeliveryStep::begin(true).advance(Reply::Completed),
        DeliveryStep::Done(DeliveryOutput::Sent)
    );
    assert_eq!(DeliveryStep::begin(false), DeliveryStep::Done(DeliveryOutput::Dropped));
    assert_eq!(DeliveryStep::begin(false).settle(), Ok(DeliveryOutput::Dropped));
}

#[test]
fn a_delivery_that_fails_is_compensated_in_one_transaction() {
    let mut step = DeliveryStep::begin(true);
    let mut steps = vec![step];
    for reply in [Reply::Failed, Reply::Completed, Reply::Completed, Reply::Completed, Reply::Completed]
    {
        step = step.advance(reply);
        steps.push(step);
    }
    assert_eq!(
        steps,
        vec![
            DeliveryStep::SendEmail,
            DeliveryStep::BeginTransaction,
            DeliveryStep::MarkFailed,
            DeliveryStep::DeleteToken { marked: true },
            DeliveryStep::CommitTransaction { marked: true },
            DeliveryStep::Done(DeliveryOutput::Compensated { marked: true }),
        ]
    );
}

#[test]
fn a_compensation_goes_on_where_the_status_or_the_token_cannot_be_written() {
    let step = DeliveryStep::MarkFailed.advance(Reply::Failed);
    assert_eq!(step, DeliveryStep::DeleteToken { marked: false });
    let step = step.advance(Reply::Failed);
    assert_eq!(step, DeliveryStep::CommitTransaction { marked: false });
    let step = step.advance(Reply::Completed);
    assert_eq!(step, DeliveryStep::Done(DeliveryOutput::Compensated { marked: false }));
    assert_eq!(step.settle(), Ok(DeliveryOutput::Compensated { marked: false }));
}

#[test]
fn a_compensation_fails_where_the_transaction_cannot_be_opened_or_committed() {
    let step = DeliveryStep::BeginTransaction.advance(Reply::Failed);
    assert_eq!(step, DeliveryStep::Failed(DeliveryFault::AcquireTransaction));
    assert_eq!(step.settle(), Err(ProcessError(DeliveryFault::AcquireTransaction)));
    assert_eq!(
        ProcessError(DeliveryFault::AcquireTransaction).to_string(),
        "Failed to acquire a transaction"
    );
    let step = DeliveryStep::CommitTransaction { marked: true }.advance(Reply::Failed);
    assert_eq!(step, DeliveryStep::Failed(DeliveryFault::CommitTransaction));
    assert_eq!(
        ProcessError(DeliveryFault::CommitTransaction).to_string(),
        "Failed to commit the transaction"
    );
}
