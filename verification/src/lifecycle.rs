//! What holds of the subscription lifecycle, whatever the store holds and
//! whoever subscribes: stated over the effects of registration, confirmation
//! and delivery on the store.

use crate::db::model::StoreState;
use crate::db::subscription_queries::new_row;
use crate::domain::new_subscriber::NewSubscriber;
use crate::domain::subscription_status::SubscriptionStatus;
use crate::email_client::delivery_error;
use crate::events::subscription_created::{
    compensated_store,
    delivered_store,
    payload_for,
    EventPayload,
};
use crate::handlers::confirm_subscription::{
    confirmation_output,
    confirmed_store,
    ConfirmSubscriptionOutput,
};
use crate::handlers::save_new_subscriber::{
    registration_effect,
    SaveNewSubscriberError,
    SaveNewSubscriberOutput,
};
use crate::identifiers::{hyphenated, lemma_hyphenated_is_injective};
use vstd::prelude::*;

verus! {

/// Whether a registration issued a token: it ended as a success or as a
/// resent confirmation.
pub open spec fn issued(result: Result<SaveNewSubscriberOutput, SaveNewSubscriberError>) -> bool {
    result == Ok::<SaveNewSubscriberOutput, SaveNewSubscriberError>(
        SaveNewSubscriberOutput::Success,
    ) || result == Ok::<SaveNewSubscriberOutput, SaveNewSubscriberError>(
        SaveNewSubscriberOutput::ResendConfirmation,
    )
}

/// Registration keeps the store well formed.
pub proof fn lemma_registration_keeps_integrity(
    store: StoreState,
    subscriber: NewSubscriber,
    candidate_id: u128,
    subscribed_at: i64,
    token: u128,
)
    requires
        store.wf(),
    ensures
        registration_effect(store, subscriber, candidate_id, subscribed_at, token).store.wf(),
{
    let email = subscriber.email@;
    let text = hyphenated(token);
    match store.record_for(email) {
        Some(row) => {
            assert(store.id_in_use(row.id));
            crate::db::model::lemma_with_status_wf(store, row.id, SubscriptionStatus::Pending);
            let prepared = store.with_status(row.id, SubscriptionStatus::Pending);
            assert(prepared.id_in_use(row.id));
            crate::db::model::lemma_with_token_wf(prepared, text, row.id);
            crate::db::model::lemma_with_token_wf(store, text, row.id);
        },
        None => {
            let fresh = new_row(candidate_id, subscriber, SubscriptionStatus::Pending, subscribed_at);
            crate::db::model::lemma_inserted_wf(store, fresh);
            let prepared = store.inserted(fresh);
            match prepared.record_for(email) {
                Some(row) => {
                    assert(prepared.id_in_use(row.id));
                    crate::db::model::lemma_with_token_wf(prepared, text, row.id);
                },
                None => {},
            }
        },
    }
}

/// A first registration leaves one pending subscription with one token.
///
/// Where the address has no subscription, the identifier at hand is unused
/// and the token is not outstanding, the registration is a success; after
/// it the address has a pending subscription under that identifier, whose
/// only outstanding token is the fresh one, and the event for it is
/// published.
pub proof fn lemma_first_registration(
    store: StoreState,
    subscriber: NewSubscriber,
    candidate_id: u128,
    subscribed_at: i64,
    token: u128,
)
    requires
        store.wf(),
        store.record_for(subscriber.email@) is None,
        !store.id_in_use(candidate_id),
        !store.tokens.contains_key(hyphenated(token)),
    ensures
        ({
            let effect = registration_effect(store, subscriber, candidate_id, subscribed_at, token);
            &&& effect.result == Ok::<SaveNewSubscriberOutput, SaveNewSubscriberError>(
                SaveNewSubscriberOutput::Success,
            )
            &&& effect.store.record_for(subscriber.email@) == Some(
                new_row(candidate_id, subscriber, SubscriptionStatus::Pending, subscribed_at),
            )
            &&& effect.store.tokens_of(candidate_id) == set![hyphenated(token)]
            &&& effect.store.tokens_of(candidate_id).len() == 1
            &&& effect.store.owner_of(hyphenated(token)) == Some(candidate_id)
            &&& effect.published == Some(payload_for(subscriber, candidate_id, token))
            &&& effect.store.subscriptions.dom().len() == store.subscriptions.dom().len() + 1
        }),
{
    let effect = registration_effect(store, subscriber, candidate_id, subscribed_at, token);
    let fresh = new_row(candidate_id, subscriber, SubscriptionStatus::Pending, subscribed_at);
    let prepared = store.inserted(fresh);
    assert(store.admits(fresh));
    assert(prepared.subscriptions.contains_key(subscriber.email@));
    assert(prepared.subscriptions[subscriber.email@].id == candidate_id);
    assert(prepared.id_in_use(candidate_id));
    assert(effect.store.tokens_of(candidate_id) =~= set![hyphenated(token)]) by {
        assert forall|text: Seq<char>| effect.store.tokens_of(candidate_id).contains(text) implies text
            == hyphenated(token) by {
            if text != hyphenated(token) {
                assert(store.tokens.contains_key(text));
                assert(store.id_in_use(store.tokens[text]));
            }
        }
    }
}

/// A registration that issues a token leaves the subscription pending and
/// adds exactly that token to its outstanding ones.
pub proof fn lemma_registration_leaves_pending(
    store: StoreState,
    subscriber: NewSubscriber,
    candidate_id: u128,
    subscribed_at: i64,
    token: u128,
)
    requires
        store.wf(),
        issued(registration_effect(store, subscriber, candidate_id, subscribed_at, token).result),
    ensures
        ({
            let effect = registration_effect(store, subscriber, candidate_id, subscribed_at, token);
            let row = effect.store.record_for(subscriber.email@);
            &&& row is Some
            &&& row->Some_0.status == SubscriptionStatus::Pending
            &&& effect.published == Some(payload_for(subscriber, row->Some_0.id, token))
            &&& !store.tokens.contains_key(hyphenated(token))
            &&& effect.store.owner_of(hyphenated(token)) == Some(row->Some_0.id)
            &&& effect.store.tokens_of(row->Some_0.id) == store.tokens_of(row->Some_0.id).insert(
                hyphenated(token),
            )
            &&& effect.store.tokens_of(row->Some_0.id).len() == store.tokens_of(row->Some_0.id).len()
                + 1
        }),
{
    let effect = registration_effect(store, subscriber, candidate_id, subscribed_at, token);
    let email = subscriber.email@;
    let text = hyphenated(token);
    let row = effect.store.record_for(email);
    match store.record_for(email) {
        Some(old_row) => {
            assert(row is Some);
            assert(row->Some_0.id == old_row.id);
        },
        None => {
            let fresh = new_row(candidate_id, subscriber, SubscriptionStatus::Pending, subscribed_at);
            let prepared = store.inserted(fresh);
            assert(prepared.record_for(email) is Some);
            assert(store.admits(fresh));
        },
    }
    let id = row->Some_0.id;
    assert(effect.store.tokens_of(id) =~= store.tokens_of(id).insert(text));
    lemma_tokens_of_finite(store, id);
}

/// The outstanding tokens of a subscription are finitely many.
pub proof fn lemma_tokens_of_finite(store: StoreState, id: u128)
    requires
        store.wf(),
    ensures
        store.tokens_of(id).finite(),
{
    assert(store.tokens_of(id).subset_of(store.tokens.dom()));
    vstd::set_lib::lemma_len_subset(store.tokens_of(id), store.tokens.dom());
}

/// Registering an address twice before it is confirmed is a success and
/// then a resent confirmation, and the second registration neither adds a
/// subscription nor changes one.
pub proof fn lemma_second_registration_resends(
    store: StoreState,
    subscriber: NewSubscriber,
    first_id: u128,
    first_at: i64,
    first_token: u128,
    second_id: u128,
    second_at: i64,
    second_token: u128,
)
    requires
        store.wf(),
        store.record_for(subscriber.email@) is None,
        !store.id_in_use(first_id),
        !store.tokens.contains_key(hyphenated(first_token)),
        !store.tokens.contains_key(hyphenated(second_token)),
        first_token != second_token,
    ensures
        ({
            let first = registration_effect(store, subscriber, first_id, first_at, first_token);
            let second = registration_effect(
                first.store,
                subscriber,
                second_id,
                second_at,
                second_token,
            );
            &&& first.result == Ok::<SaveNewSubscriberOutput, SaveNewSubscriberError>(
                SaveNewSubscriberOutput::Success,
            )
            &&& second.result == Ok::<SaveNewSubscriberOutput, SaveNewSubscriberError>(
                SaveNewSubscriberOutput::ResendConfirmation,
            )
            &&& second.store.subscriptions == first.store.subscriptions
            &&& second.store.subscriptions.dom().len() == store.subscriptions.dom().len() + 1
            &&& second.store.tokens_of(first_id) == set![
                hyphenated(first_token),
                hyphenated(second_token),
            ]
        }),
{
    if hyphenated(first_token) == hyphenated(second_token) {
        lemma_hyphenated_is_injective(first_token, second_token);
    }
    lemma_first_registration(store, subscriber, first_id, first_at, first_token);
    let first = registration_effect(store, subscriber, first_id, first_at, first_token);
    let second = registration_effect(first.store, subscriber, second_id, second_at, second_token);
    assert(first.store.id_in_use(first_id));
    assert(second.store.tokens_of(first_id) =~= set![
        hyphenated(first_token),
        hyphenated(second_token),
    ]) by {
        assert(first.store.tokens_of(first_id) == set![hyphenated(first_token)]);
    }
}

/// Registration never adds a second subscription for an address, never
/// removes one, and never changes one of another address.
pub proof fn lemma_registration_touches_one_address(
    store: StoreState,
    subscriber: NewSubscriber,
    candidate_id: u128,
    subscribed_at: i64,
    token: u128,
    other: Seq<char>,
)
    requires
        store.wf(),
        other != subscriber.email@,
    ensures
        registration_effect(store, subscriber, candidate_id, subscribed_at, token).store.record_for(
            other,
        ) == store.record_for(other),
        store.record_for(subscriber.email@) is Some ==> registration_effect(
            store,
            subscriber,
            candidate_id,
            subscribed_at,
            token,
        ).store.record_for(subscriber.email@) is Some,
{
    match store.record_for(subscriber.email@) {
        Some(row) => {
            if store.subscriptions.contains_key(other) {
                assert(store.subscriptions[other].id != row.id);
            }
        },
        None => {},
    }
}

/// A confirmed subscription is immune to registration: the result is
/// `AlreadySubscribed`, the store stays as it is, and nothing is published.
pub proof fn lemma_confirmed_is_immune_to_registration(
    store: StoreState,
    subscriber: NewSubscriber,
    candidate_id: u128,
    subscribed_at: i64,
    token: u128,
)
    requires
        store.record_for(subscriber.email@) is Some,
        store.record_for(subscriber.email@)->Some_0.status == SubscriptionStatus::Confirmed,
    ensures
        ({
            let effect = registration_effect(store, subscriber, candidate_id, subscribed_at, token);
            &&& effect.result == Ok::<SaveNewSubscriberOutput, SaveNewSubscriberError>(
                SaveNewSubscriberOutput::AlreadySubscribed,
            )
            &&& effect.store == store
            &&& effect.published is None
        }),
{
}

/// Only a confirmed address is answered with `AlreadySubscribed`.
pub proof fn lemma_already_subscribed_means_confirmed(
    store: StoreState,
    subscriber: NewSubscriber,
    candidate_id: u128,
    subscribed_at: i64,
    token: u128,
)
    requires
        registration_effect(store, subscriber, candidate_id, subscribed_at, token).result == Ok::<
            SaveNewSubscriberOutput,
            SaveNewSubscriberError,
        >(SaveNewSubscriberOutput::AlreadySubscribed),
    ensures
        store.record_for(subscriber.email@) is Some,
        store.record_for(subscriber.email@)->Some_0.status == SubscriptionStatus::Confirmed,
{
}

/// A confirmed subscription is immune to another confirmation: a token of
/// it that is still outstanding is consumed, and no subscription changes.
pub proof fn lemma_confirmed_is_immune_to_confirmation(
    store: StoreState,
    token: Seq<char>,
    email: Seq<char>,
)
    requires
        store.wf(),
        store.record_for(email) is Some,
        store.record_for(email)->Some_0.status == SubscriptionStatus::Confirmed,
        store.owner_of(token) == Some(store.record_for(email)->Some_0.id),
    ensures
        confirmed_store(store, token).subscriptions == store.subscriptions,
        confirmed_store(store, token).owner_of(token) is None,
{
    let id = store.record_for(email)->Some_0.id;
    assert forall|a: Seq<char>| store.subscriptions.contains_key(a) implies (
    #[trigger] store.with_status(id, SubscriptionStatus::Confirmed).subscriptions[a])
        == store.subscriptions[a] by {
        if store.subscriptions[a].id == id {
            assert(a == email);
        }
    }
    assert(confirmed_store(store, token).subscriptions =~= store.subscriptions);
}

/// Every change of status that a registration makes is a legal move of the
/// state machine: it revives a failed subscription, or changes no status.
pub proof fn lemma_registration_moves_legally(
    store: StoreState,
    subscriber: NewSubscriber,
    candidate_id: u128,
    subscribed_at: i64,
    token: u128,
    email: Seq<char>,
)
    requires
        store.wf(),
        store.record_for(email) is Some,
    ensures
        ({
            let before = store.record_for(email)->Some_0;
            let after = registration_effect(
                store,
                subscriber,
                candidate_id,
                subscribed_at,
                token,
            ).store.record_for(email);
            &&& after is Some
            &&& after->Some_0.status == before.status || before.status.may_become(
                after->Some_0.status,
            )
            &&& after->Some_0 == before.with_status(after->Some_0.status)
        }),
{
    match store.record_for(subscriber.email@) {
        Some(row) => {
            if store.subscriptions[email].id == row.id {
                assert(email == subscriber.email@);
            }
        },
        None => {},
    }
}

/// Confirmation keeps the store well formed.
pub proof fn lemma_confirmation_keeps_integrity(store: StoreState, token: Seq<char>)
    requires
        store.wf(),
    ensures
        confirmed_store(store, token).wf(),
{
    match store.owner_of(token) {
        Some(id) => {
            crate::db::model::lemma_with_status_wf(store, id, SubscriptionStatus::Confirmed);
            crate::db::model::lemma_without_token_wf(
                store.with_status(id, SubscriptionStatus::Confirmed),
                token,
            );
        },
        None => {},
    }
}

/// A token confirms once: the first confirmation with an outstanding token
/// succeeds and confirms its subscription, and the second finds no token and
/// changes nothing.
pub proof fn lemma_token_is_single_use(store: StoreState, token: Seq<char>)
    requires
        store.wf(),
        store.owner_of(token) is Some,
    ensures
        confirmation_output(store, token) == ConfirmSubscriptionOutput::Success,
        confirmation_output(confirmed_store(store, token), token)
            == ConfirmSubscriptionOutput::TokenNotFound,
        confirmed_store(confirmed_store(store, token), token) == confirmed_store(store, token),
        forall|email: Seq<char>|
            store.subscriptions.contains_key(email) && (#[trigger] store.subscriptions[email]).id
                == store.owner_of(token)->Some_0 ==> confirmed_store(store, token).record_for(email)
                == Some(store.subscriptions[email].with_status(SubscriptionStatus::Confirmed)),
{
}

/// A token that is not outstanding confirms nothing.
pub proof fn lemma_unknown_token_changes_nothing(store: StoreState, token: Seq<char>)
    requires
        store.owner_of(token) is None,
    ensures
        confirmation_output(store, token) == ConfirmSubscriptionOutput::TokenNotFound,
        confirmed_store(store, token) == store,
{
}

/// A confirmation changes nothing of a subscription but its status, and
/// it moves the status legally unless it confirms a failed subscription
/// through a token that outlived the failure.
pub proof fn lemma_confirmation_moves_legally(store: StoreState, token: Seq<char>, email: Seq<char>)
    requires
        store.wf(),
        store.record_for(email) is Some,
    ensures
        ({
            let before = store.record_for(email)->Some_0;
            let after = confirmed_store(store, token).record_for(email);
            &&& after is Some
            &&& after->Some_0 == before.with_status(after->Some_0.status)
            &&& after->Some_0.status == before.status || after->Some_0.status
                == SubscriptionStatus::Confirmed
            &&& before.status != SubscriptionStatus::Failed ==> after->Some_0.status
                == before.status || before.status.may_become(after->Some_0.status)
        }),
{
}

/// A compensation changes nothing of a subscription but its status, and it
/// moves the status legally unless the subscription was confirmed, through
/// another token, before the email failed.
pub proof fn lemma_compensation_moves_legally(
    store: StoreState,
    event: EventPayload,
    email: Seq<char>,
)
    requires
        store.wf(),
        store.record_for(email) is Some,
    ensures
        ({
            let before = store.record_for(email)->Some_0;
            let after = compensated_store(store, event).record_for(email);
            &&& after is Some
            &&& after->Some_0 == before.with_status(after->Some_0.status)
            &&& after->Some_0.status == before.status || after->Some_0.status
                == SubscriptionStatus::Failed
            &&& before.status != SubscriptionStatus::Confirmed ==> after->Some_0.status
                == before.status || before.status.may_become(after->Some_0.status)
        }),
{
}

/// Compensation keeps the store well formed.
pub proof fn lemma_delivery_keeps_integrity(
    store: StoreState,
    message: Option<EventPayload>,
    answer: Option<u16>,
)
    requires
        store.wf(),
    ensures
        delivered_store(store, message, answer).wf(),
{
    match message {
        Some(event) => {
            crate::db::model::lemma_with_status_wf(
                store,
                event.subscription_id,
                SubscriptionStatus::Failed,
            );
            crate::db::model::lemma_without_token_wf(
                store.with_status(event.subscription_id, SubscriptionStatus::Failed),
                hyphenated(event.subscription_token),
            );
        },
        None => {},
    }
}

/// Where the email of a registration cannot be sent, the subscription is
/// failed afterwards and the token of that email no longer resolves.
pub proof fn lemma_failed_send_is_compensated(
    store: StoreState,
    subscriber: NewSubscriber,
    candidate_id: u128,
    subscribed_at: i64,
    token: u128,
    answer: Option<u16>,
)
    requires
        store.wf(),
        issued(registration_effect(store, subscriber, candidate_id, subscribed_at, token).result),
        delivery_error(answer) is Some,
    ensures
        ({
            let effect = registration_effect(store, subscriber, candidate_id, subscribed_at, token);
            let after = delivered_store(effect.store, effect.published, answer);
            &&& effect.published is Some
            &&& after.record_for(subscriber.email@) is Some
            &&& after.record_for(subscriber.email@)->Some_0.status == SubscriptionStatus::Failed
            &&& after.owner_of(hyphenated(token)) is None
            &&& confirmation_output(after, hyphenated(token))
                == ConfirmSubscriptionOutput::TokenNotFound
        }),
{
    lemma_registration_leaves_pending(store, subscriber, candidate_id, subscribed_at, token);
}

/// Where the email is sent, delivery leaves the store as it is.
pub proof fn lemma_sent_email_changes_nothing(
    store: StoreState,
    message: Option<EventPayload>,
    answer: Option<u16>,
)
    requires
        delivery_error(answer) is None,
    ensures
        delivered_store(store, message, answer) == store,
{
}

/// A registration revives a failed subscription: it is pending afterwards,
/// under the identifier it had, and the token issued for it is one that
/// was not outstanding before.
pub proof fn lemma_registration_revives_failed(
    store: StoreState,
    subscriber: NewSubscriber,
    candidate_id: u128,
    subscribed_at: i64,
    token: u128,
)
    requires
        store.wf(),
        store.record_for(subscriber.email@) is Some,
        store.record_for(subscriber.email@)->Some_0.status == SubscriptionStatus::Failed,
        !store.tokens.contains_key(hyphenated(token)),
    ensures
        ({
            let before = store.record_for(subscriber.email@)->Some_0;
            let effect = registration_effect(store, subscriber, candidate_id, subscribed_at, token);
            &&& effect.result == Ok::<SaveNewSubscriberOutput, SaveNewSubscriberError>(
                SaveNewSubscriberOutput::ResendConfirmation,
            )
            &&& effect.store.record_for(subscriber.email@) == Some(
                before.with_status(SubscriptionStatus::Pending),
            )
            &&& effect.store.owner_of(hyphenated(token)) == Some(before.id)
            &&& effect.published == Some(payload_for(subscriber, before.id, token))
        }),
{
    let before = store.record_for(subscriber.email@)->Some_0;
    assert(store.id_in_use(before.id));
    crate::db::model::lemma_with_status_wf(store, before.id, SubscriptionStatus::Pending);
}

/// After a failed send and a new registration, the subscription is pending
/// again, the new token resolves to it, and the token of the email that
/// could not be sent still resolves to nothing.
pub proof fn lemma_reactivation_issues_a_new_token(
    store: StoreState,
    subscriber: NewSubscriber,
    first_id: u128,
    first_at: i64,
    first_token: u128,
    answer: Option<u16>,
    second_id: u128,
    second_at: i64,
    second_token: u128,
)
    requires
        store.wf(),
        issued(registration_effect(store, subscriber, first_id, first_at, first_token).result),
        delivery_error(answer) is Some,
        second_token != first_token,
        !store.tokens.contains_key(hyphenated(second_token)),
    ensures
        ({
            let first = registration_effect(store, subscriber, first_id, first_at, first_token);
            let failed = delivered_store(first.store, first.published, answer);
            let second = registration_effect(failed, subscriber, second_id, second_at, second_token);
            let row = second.store.record_for(subscriber.email@);
            &&& second.result == Ok::<SaveNewSubscriberOutput, SaveNewSubscriberError>(
                SaveNewSubscriberOutput::ResendConfirmation,
            )
            &&& row is Some
            &&& row->Some_0.status == SubscriptionStatus::Pending
            &&& second.store.owner_of(hyphenated(second_token)) == Some(row->Some_0.id)
            &&& second.store.owner_of(hyphenated(first_token)) is None
        }),
{
    if hyphenated(first_token) == hyphenated(second_token) {
        lemma_hyphenated_is_injective(first_token, second_token);
    }
    lemma_registration_keeps_integrity(store, subscriber, first_id, first_at, first_token);
    lemma_registration_leaves_pending(store, subscriber, first_id, first_at, first_token);
    lemma_failed_send_is_compensated(store, subscriber, first_id, first_at, first_token, answer);
    let first = registration_effect(store, subscriber, first_id, first_at, first_token);
    lemma_delivery_keeps_integrity(first.store, first.published, answer);
    let failed = delivered_store(first.store, first.published, answer);
    assert(!failed.tokens.contains_key(hyphenated(second_token)));
    lemma_registration_revives_failed(failed, subscriber, second_id, second_at, second_token);
}

} // verus!
