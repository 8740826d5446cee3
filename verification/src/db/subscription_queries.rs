use crate::clock::current_time_millis;
use crate::db::model::SubscriptionRow;
use crate::db::types::{StorageError, SubscriptionRecord, Tables, Tx};
use crate::domain::new_subscriber::NewSubscriber;
use crate::domain::subscription_status::SubscriptionStatus;
use crate::identifiers::{hyphenated, identifier_text, is_random_identifier, random_identifier};
use vstd::prelude::*;

verus! {

/// The row that an insert writes for `subscriber`.
pub open spec fn new_row(
    id: u128,
    subscriber: NewSubscriber,
    status: SubscriptionStatus,
    subscribed_at: i64,
) -> SubscriptionRow {
    SubscriptionRow {
        id,
        email: subscriber.email@,
        name: subscriber.name@,
        status,
        subscribed_at,
    }
}

/// The operations of the subscription store.
pub struct SubscriptionQueries;

impl SubscriptionQueries {
    /// Inserts a subscription for `new_subscriber` under the identifier
    /// `id`, and returns `id`. Where the address or the identifier is taken,
    /// nothing is written: the caller fetches by the address to learn which
    /// subscription the address has.
    pub fn insert_subscriber_as(
        tx: &mut Tx,
        id: u128,
        subscribed_at: i64,
        new_subscriber: &NewSubscriber,
        status: SubscriptionStatus,
    ) -> (assigned: u128)
        ensures
            assigned == id,
            final(tx)@ == old(tx)@.inserted(new_row(id, *new_subscriber, status, subscribed_at)),
    {
        let record = SubscriptionRecord {
            id,
            email: new_subscriber.email.as_ref().to_owned(),
            name: new_subscriber.name.as_ref().to_owned(),
            status,
            subscribed_at,
        };
        tx.insert(record);
        id
    }

    /// Inserts a subscription for `new_subscriber` under a fresh random
    /// identifier and with the present time, and returns the identifier.
    pub fn insert_subscriber(
        tx: &mut Tx,
        new_subscriber: &NewSubscriber,
        status: SubscriptionStatus,
    ) -> (assigned: u128)
        ensures
            is_random_identifier(assigned),
            exists|subscribed_at: i64|
                final(tx)@ == old(tx)@.inserted(
                    #[trigger] new_row(assigned, *new_subscriber, status, subscribed_at),
                ),
    {
        let id = random_identifier();
        let subscribed_at = current_time_millis();
        let assigned = Self::insert_subscriber_as(tx, id, subscribed_at, new_subscriber, status);
        proof {
            assert(tx@ == old(tx)@.inserted(
                new_row(assigned, *new_subscriber, status, subscribed_at),
            ));
        }
        assigned
    }

    /// Overwrites the status of the subscription `subscription_id`. Whether
    /// the move is a legal one is the caller's matter.
    pub fn update_subscription_status(
        tx: &mut Tx,
        subscription_id: &u128,
        status: SubscriptionStatus,
    )
        ensures
            final(tx)@ == old(tx)@.with_status(*subscription_id, status),
    {
        tx.update_status(*subscription_id, status);
    }

    /// Makes the token `subscription_token`, written as hyphenated text,
    /// outstanding for the subscription `subscriber_id`. Earlier tokens of
    /// that subscription stay. The store refuses a token that is
    /// outstanding already and one for a subscription that does not exist.
    pub fn store_token(tx: &mut Tx, subscriber_id: &u128, subscription_token: &u128) -> (stored:
        Result<(), StorageError>)
        ensures
            stored == old(tx)@.token_verdict(hyphenated(*subscription_token), *subscriber_id),
            stored is Ok ==> final(tx)@ == old(tx)@.with_token(
                hyphenated(*subscription_token),
                *subscriber_id,
            ),
            stored is Err ==> final(tx)@ == old(tx)@,
    {
        tx.store_token(*subscriber_id, identifier_text(*subscription_token))
    }

    /// The subscription that the token `subscription_token` belongs to, if
    /// the token is outstanding.
    pub fn fetch_subscription_id_by_token(executor: &Tables, subscription_token: &str) -> (owner:
        Option<u128>)
        ensures
            owner == executor@.owner_of(subscription_token@),
    {
        executor.fetch_subscription_id_by_token(subscription_token)
    }

    /// Deletes the token `subscription_token`. A token that is not
    /// outstanding is no error: nothing happens.
    pub fn delete_token(tx: &mut Tx, subscription_token: &str)
        ensures
            final(tx)@ == old(tx)@.without_token(subscription_token@),
    {
        tx.delete_token(subscription_token);
    }

    /// The subscription filed under `email`, if there is one.
    pub fn fetch_subscription_by_email(executor: &Tables, email: &str) -> (found: Option<
        SubscriptionRecord,
    >)
        ensures
            match found {
                Some(record) => executor@.record_for(email@) == Some(record@),
                None => executor@.record_for(email@) is None,
            },
    {
        executor.fetch_subscription_by_email(email)
    }
}

} // verus!
