use zero2prod::db::subscription_queries::SubscriptionQueries;
use zero2prod::db::transaction::{begin_transaction, commit_transaction};
use zero2prod::db::types::{StorageError, Store};
use zero2prod::domain::new_subscriber::NewSubscriber;
use zero2prod::domain::subscriber_email::SubscriberEmail;
use zero2prod::domain::subscriber_name::SubscriberName;
use zero2prod::domain::subscription_status::SubscriptionStatus;

fn subscriber(name: &str, email: &str) -> NewSubscriber {
    NewSubscriber {
        email: SubscriberEmail::parse(email.to_string()).ok().unwrap(),
        name: SubscriberName::parse(name.to_string()).ok().unwrap(),
    }
}

const TOKEN: u128 = 0x936da01f_9abd_4d9d_80c7_02af85c822a8;
const TOKEN_TEXT: &str = "936da01f-9abd-4d9d-80c7-02af85c822a8";

#[test]
fn a_new_store_holds_nothing() {
    let store = Store::new();
    assert_eq!(store.executor().subscription_count(), 0);
    assert_eq!(store.executor().token_count(), 0);
    assert!(SubscriptionQueries::fetch_subscription_by_email(store.executor(), "a@b.com").is_none());
    assert_eq!(SubscriptionQueries::fetch_subscription_id_by_token(store.executor(), TOKEN_TEXT), None);
}

#[test]
fn an_inserted_subscription_is_fetched_by_its_email() {
    let mut store = Store::new();
    let mut tx = begin_transaction(&store);
    let id = SubscriptionQueries::insert_subscriber_as(
        &mut tx,
        7,
        1_700_000_000_000,
        &subscriber("le guin", "ursula_le_guin@gmail.com"),
        SubscriptionStatus::Pending,
    );
    assert_eq!(id, 7);
    commit_transaction(tx, &mut store);
    let found =
        SubscriptionQueries::fetch_subscription_by_email(store.executor(), "ursula_le_guin@gmail.com")
            .unwrap();
    assert_eq!(found.id, 7);
    assert_eq!(found.email, "ursula_le_guin@gmail.com");
    assert_eq!(found.name, "le guin");
    assert_eq!(found.status, SubscriptionStatus::Pending);
    assert_eq!(found.subscribed_at, 1_700_000_000_000);
    assert!(
        SubscriptionQueries::fetch_subscription_by_email(store.executor(), "someone@else.com")
            .is_none()
    );
}

#[test]
fn an_insert_for_a_taken_email_writes_nothing() {
    let mut store = Store::new();
    let mut tx = begin_transaction(&store);
    SubscriptionQueries::insert_subscriber_as(
        &mut tx,
        7,
        100,
        &subscriber("le guin", "ursula_le_guin@gmail.com"),
        SubscriptionStatus::Confirmed,
    );
    let id = SubscriptionQueries::insert_subscriber_as(
        &mut tx,
        8,
        200,
        &subscriber("Ursula", "ursula_le_guin@gmail.com"),
        SubscriptionStatus::Pending,
    );
    assert_eq!(id, 8);
    commit_transaction(tx, &mut store);
    assert_eq!(store.executor().subscription_count(), 1);
    let found =
        SubscriptionQueries::fetch_subscription_by_email(store.executor(), "ursula_le_guin@gmail.com")
            .unwrap();
    assert_eq!(found.id, 7);
    assert_eq!(found.name, "le guin");
    assert_eq!(found.status, SubscriptionStatus::Confirmed);
    assert_eq!(found.subscribed_at, 100);
}

#[test]
fn an_insert_under_a_taken_identifier_writes_nothing() {
    let mut store = Store::new();
    let mut tx = begin_transaction(&store);
    SubscriptionQueries::insert_subscriber_as(
        &mut tx,
        7,
        100,
        &subscriber("One", "one@example.com"),
        SubscriptionStatus::Pending,
    );
    SubscriptionQueries::insert_subscriber_as(
        &mut tx,
        7,
        200,
        &subscriber("Two", "two@example.com"),
        SubscriptionStatus::Pending,
    );
    commit_transaction(tx, &mut store);
    assert_eq!(store.executor().subscription_count(), 1);
    assert!(SubscriptionQueries::fetch_subscription_by_email(store.executor(), "two@example.com")
        .is_none());
}

#[test]
fn insert_subscriber_draws_an_identifier_and_reads_the_clock() {
    let mut store = Store::new();
    let mut tx = begin_transaction(&store);
    let first = SubscriptionQueries::insert_subscriber(
        &mut tx,
        &subscriber("One", "one@example.com"),
        SubscriptionStatus::Pending,
    );
    let second = SubscriptionQueries::insert_subscriber(
        &mut tx,
        &subscriber("Two", "two@example.com"),
        SubscriptionStatus::Failed,
    );
    commit_transaction(tx, &mut store);
    assert_ne!(first, second);
    for id in [first, second] {
        // A random identifier: version 4, variant 10.
        assert_eq!((id >> 76) & 0xf, 4);
        assert_eq!((id >> 62) & 0x3, 2);
    }
    let one =
        SubscriptionQueries::fetch_subscription_by_email(store.executor(), "one@example.com").unwrap();
    assert_eq!(one.id, first);
    // Later than the first of January 2020, in milliseconds.
    assert!(one.subscribed_at > 1_577_836_800_000);
    let two =
        SubscriptionQueries::fetch_subscription_by_email(store.executor(), "two@example.com").unwrap();
    assert_eq!(two.id, second);
    assert_eq!(two.status, SubscriptionStatus::Failed);
}

#[test]
fn update_subscription_status_overwrites_the_status_of_one_subscription() {
    let mut store = Store::new();
    let mut tx = begin_transaction(&store);
    SubscriptionQueries::insert_subscriber_as(
        &mut tx,
        1,
        100,
        &subscriber("One", "one@example.com"),
        SubscriptionStatus::Pending,
    );
    SubscriptionQueries::insert_subscriber_as(
        &mut tx,
        2,
        200,
        &subscriber("Two", "two@example.com"),
        SubscriptionStatus::Pending,
    );
    SubscriptionQueries::update_subscription_status(&mut tx, &2, SubscriptionStatus::Confirmed);
    // No subscription has this identifier: nothing happens.
    SubscriptionQueries::update_subscription_status(&mut tx, &3, SubscriptionStatus::Failed);
    commit_transaction(tx, &mut store);
    let one =
        SubscriptionQueries::fetch_subscription_by_email(store.executor(), "one@example.com").unwrap();
    let two =
        SubscriptionQueries::fetch_subscription_by_email(store.executor(), "two@example.com").unwrap();
    assert_eq!(one.status, SubscriptionStatus::Pending);
    assert_eq!(two.status, SubscriptionStatus::Confirmed);
    assert_eq!(two.id, 2);
    assert_eq!(two.name, "Two");
    assert_eq!(two.subscribed_at, 200);
}

#[test]
fn a_stored_token_is_found_under_its_hyphenated_text() {
    let mut store = Store::new();
    let mut tx = begin_transaction(&store);
    SubscriptionQueries::insert_subscriber_as(
        &mut tx,
        1,
        100,
        &subscriber("One", "one@example.com"),
        SubscriptionStatus::Pending,
    );
    assert_eq!(SubscriptionQueries::store_token(&mut tx, &1, &TOKEN), Ok(()));
    commit_transaction(tx, &mut store);
    assert_eq!(
        SubscriptionQueries::fetch_subscription_id_by_token(store.executor(), TOKEN_TEXT),
        Some(1)
    );
    // The store looks the text up as it is: another way to write the same token finds nothing.
    assert_eq!(
        SubscriptionQueries::fetch_subscription_id_by_token(
            store.executor(),
            "936DA01F-9ABD-4D9D-80C7-02AF85C822A8"
        ),
        None
    );
    assert_eq!(
        SubscriptionQueries::fetch_subscription_id_by_token(
            store.executor(),
            "936da01f9abd4d9d80c702af85c822a8"
        ),
        None
    );
}

#[test]
fn a_small_token_is_written_with_leading_zeros() {
    let mut store = Store::new();
    let mut tx = begin_transaction(&store);
    SubscriptionQueries::insert_subscriber_as(
        &mut tx,
        1,
        100,
        &subscriber("One", "one@example.com"),
        SubscriptionStatus::Pending,
    );
    assert_eq!(SubscriptionQueries::store_token(&mut tx, &1, &0xabc), Ok(()));
    commit_transaction(tx, &mut store);
    assert_eq!(
        SubscriptionQueries::fetch_subscription_id_by_token(
            store.executor(),
            "00000000-0000-0000-0000-000000000abc"
        ),
        Some(1)
    );
}

#[test]
fn a_token_that_is_outstanding_is_refused() {
    let mut store = Store::new();
    let mut tx = begin_transaction(&store);
    SubscriptionQueries::insert_subscriber_as(
        &mut tx,
        1,
        100,
        &subscriber("One", "one@example.com"),
        SubscriptionStatus::Pending,
    );
    assert_eq!(SubscriptionQueries::store_token(&mut tx, &1, &TOKEN), Ok(()));
    assert_eq!(SubscriptionQueries::store_token(&mut tx, &1, &TOKEN), Err(StorageError::TokenTaken));
    commit_transaction(tx, &mut store);
    assert_eq!(store.executor().token_count(), 1);
}

#[test]
fn a_token_for_an_unknown_subscription_is_refused() {
    let mut store = Store::new();
    let mut tx = begin_transaction(&store);
    assert_eq!(
        SubscriptionQueries::store_token(&mut tx, &1, &TOKEN),
        Err(StorageError::UnknownSubscriber)
    );
    commit_transaction(tx, &mut store);
    assert_eq!(store.executor().token_count(), 0);
}

#[test]
fn several_tokens_of_one_subscription_stay_side_by_side() {
    let mut store = Store::new();
    let mut tx = begin_transaction(&store);
    SubscriptionQueries::insert_subscriber_as(
        &mut tx,
        1,
        100,
        &subscriber("One", "one@example.com"),
        SubscriptionStatus::Pending,
    );
    assert_eq!(SubscriptionQueries::store_token(&mut tx, &1, &10), Ok(()));
    assert_eq!(SubscriptionQueries::store_token(&mut tx, &1, &11), Ok(()));
    assert_eq!(SubscriptionQueries::store_token(&mut tx, &1, &12), Ok(()));
    SubscriptionQueries::delete_token(&mut tx, "00000000-0000-0000-0000-00000000000b");
    commit_transaction(tx, &mut store);
    assert_eq!(store.executor().token_count(), 2);
    assert_eq!(
        SubscriptionQueries::fetch_subscription_id_by_token(
            store.executor(),
            "00000000-0000-0000-0000-00000000000a"
        ),
        Some(1)
    );
    assert_eq!(
        SubscriptionQueries::fetch_subscription_id_by_token(
            store.executor(),
            "00000000-0000-0000-0000-00000000000b"
        ),
        None
    );
    assert_eq!(
        SubscriptionQueries::fetch_subscription_id_by_token(
            store.executor(),
            "00000000-0000-0000-0000-00000000000c"
        ),
        Some(1)
    );
}

#[test]
fn deleting_a_token_that_is_not_outstanding_is_no_error() {
    let mut store = Store::new();
    let mut tx = begin_transaction(&store);
    SubscriptionQueries::delete_token(&mut tx, TOKEN_TEXT);
    SubscriptionQueries::delete_token(&mut tx, "");
    commit_transaction(tx, &mut store);
    assert_eq!(store.executor().token_count(), 0);
}

#[test]
fn a_transaction_that_is_dropped_leaves_the_store_as_it_was() {
    let mut store = Store::new();
    let mut tx = begin_transaction(&store);
    SubscriptionQueries::insert_subscriber_as(
        &mut tx,
        1,
        100,
        &subscriber("One", "one@example.com"),
        SubscriptionStatus::Pending,
    );
    commit_transaction(tx, &mut store);
    {
        let mut tx = begin_transaction(&store);
        SubscriptionQueries::update_subscription_status(&mut tx, &1, SubscriptionStatus::Failed);
        SubscriptionQueries::insert_subscriber_as(
            &mut tx,
            2,
            200,
            &subscriber("Two", "two@example.com"),
            SubscriptionStatus::Pending,
        );
        assert_eq!(SubscriptionQueries::store_token(&mut tx, &1, &TOKEN), Ok(()));
        // What the transaction wrote is seen inside it.
        assert_eq!(tx.executor().subscription_count(), 2);
        assert_eq!(tx.executor().token_count(), 1);
    }
    assert_eq!(store.executor().subscription_count(), 1);
    assert_eq!(store.executor().token_count(), 0);
    let one =
        SubscriptionQueries::fetch_subscription_by_email(store.executor(), "one@example.com").unwrap();
    assert_eq!(one.status, SubscriptionStatus::Pending);
}
