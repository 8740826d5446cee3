use zero2prod::config::Config;
use zero2prod::db::subscription_queries::SubscriptionQueries;
use zero2prod::db::transaction::{begin_transaction, commit_transaction};
use zero2prod::db::types::Store;
use zero2prod::domain::new_subscriber::NewSubscriber;
use zero2prod::domain::subscriber_email::SubscriberEmail;
use zero2prod::domain::subscriber_name::SubscriberName;
use zero2prod::domain::subscription_status::SubscriptionStatus;
use zero2prod::email_client::{EmailClient, MailProvider};
use zero2prod::events::channel::EventChannel;
use zero2prod::events::subscription_created::SubscriptionCreated;
use zero2prod::routes::response::Response;
use zero2prod::routes::subscriptions::{subscribe, FormData};
use zero2prod::routes::subscriptions_confirm::{subscriptions_confirm, Parameters};

struct TestApp {
    config: Config,
    email_client: EmailClient,
    mail_provider: MailProvider,
    store: Store,
    channel: EventChannel,
}

fn spawn_app() -> TestApp {
    let config = Config {
        application_id: "test_subscriptions".to_string(),
        application_host: "127.0.0.1".to_string(),
        application_port: 8000,
        application_protocol: "http".to_string(),
        nats_host: "127.0.0.1".to_string(),
        nats_port: 4222,
        nats_subscription_created_subject: "subscription-created".to_string(),
        nats_subscription_created_group: "subscription-created-workers".to_string(),
        email_client_sender_email: "test@example.com".to_string(),
        email_client_base_url: "http://127.0.0.1:9000".to_string(),
        email_client_timeout_seconds: 1,
    };
    let email_client = EmailClient::new(&config);
    TestApp {
        config,
        email_client,
        mail_provider: MailProvider::new(200, 0),
        store: Store::new(),
        channel: EventChannel::new(),
    }
}

fn post_subscriptions(app: &mut TestApp, name: Option<&str>, email: Option<&str>) -> Response {
    let form = match (name, email) {
        (Some(name), Some(email)) => {
            Some(FormData { email: email.to_string(), name: name.to_string() })
        }
        _ => None,
    };
    subscribe(form, &mut app.store, &mut app.channel)
}

fn deliver(app: &mut TestApp) -> usize {
    SubscriptionCreated::subscribe(
        &app.config,
        &app.email_client,
        &mut app.mail_provider,
        &mut app.store,
        &mut app.channel,
    )
}

fn extract_confirmation_link(app: &TestApp, index: usize) -> String {
    let body = &app.mail_provider.received[index];
    let text = &body.content.first().unwrap().value;
    let links: Vec<&str> = text.split_whitespace().filter(|word| word.starts_with("http")).collect();
    assert_eq!(links.len(), 1);
    let link = links[0].to_string();
    assert!(link.starts_with("http://127.0.0.1:8000/"));
    link
}

fn follow_link_and_expect_status(app: &mut TestApp, link: &str, expected_status: u16) {
    let prefix = "http://127.0.0.1:8000/subscriptions/confirm?subscription_token=";
    assert!(link.starts_with(prefix));
    let token = link[prefix.len()..].to_string();
    let response =
        subscriptions_confirm(Some(Parameters { subscription_token: token }), &mut app.store);
    assert_eq!(response.status_code(), expected_status, "link is {}", link);
}

fn assert_confirmed_subscription_in_db(app: &TestApp, email: &str, name: &str) {
    assert_eq!(app.store.executor().subscription_count(), 1);
    let saved = SubscriptionQueries::fetch_subscription_by_email(app.store.executor(), email)
        .expect("Failed to fetch saved subscription.");
    assert_eq!(saved.email, email);
    assert_eq!(saved.name, name);
    assert_eq!(saved.status.as_column_text(), "confirmed");
}

fn insert_new_subscription(app: &mut TestApp, email: &str, name: &str, status: SubscriptionStatus) {
    let mut tx = begin_transaction(&app.store);
    let sub = NewSubscriber {
        email: SubscriberEmail::parse(email.to_string()).ok().unwrap(),
        name: SubscriberName::parse(name.to_string()).ok().unwrap(),
    };
    SubscriptionQueries::insert_subscriber(&mut tx, &sub, status);
    commit_transaction(tx, &mut app.store);
}

#[test]
fn subscribe_returns_a_200_for_valid_form_data() {
    let mut test_app = spawn_app();
    let response =
        post_subscriptions(&mut test_app, Some("le guin"), Some("ursula_le_guin@gmail.com"));
    assert_eq!(200, response.status_code());
}

#[test]
fn subscribe_persists_the_new_subscriber() {
    let mut test_app = spawn_app();
    post_subscriptions(&mut test_app, Some("le guin"), Some("ursula_le_guin@gmail.com"));
    assert_eq!(test_app.store.executor().subscription_count(), 1);
    let saved = SubscriptionQueries::fetch_subscription_by_email(
        test_app.store.executor(),
        "ursula_le_guin@gmail.com",
    )
    .expect("Failed to fetch saved subscription");
    assert_eq!(saved.email, "ursula_le_guin@gmail.com");
    assert_eq!(saved.name, "le guin");
    assert_eq!(saved.status.as_column_text(), "pending".to_owned());
}

#[test]
fn subscribe_returns_a_400_when_data_is_missing() {
    let mut test_app = spawn_app();
    let test_cases = vec![
        (Some("le guin"), None, "missing the email"),
        (None, Some("ursula_le_guin@gmail.com"), "missing the name"),
        (None, None, "missing both name and email"),
    ];
    for (name, email, error_message) in test_cases {
        let response = post_subscriptions(&mut test_app, name, email);
        assert_eq!(
            400,
            response.status_code(),
            "The API did not fail with 400 Bad Request when the payload was {}.",
            error_message
        );
        assert_eq!(
            test_app.store.executor().subscription_count(),
            0,
            "There should be no saved subscriptions in case of failure"
        );
    }
}

#[test]
fn subscribe_returns_a_400_when_fields_are_present_but_empty() {
    let mut test_app = spawn_app();
    let test_cases = vec![
        ("", "ursula_le_guin@gmail.com", "empty name"),
        ("Ursula", "", "empty email"),
        ("Ursula", "definitely-not-an-email", "invalid email"),
    ];
    for (name, email, description) in test_cases {
        let response = post_subscriptions(&mut test_app, Some(name), Some(email));
        assert_eq!(
            400,
            response.status_code(),
            "The API did not return a 400 Bad request when the payload was {}.",
            description
        );
        assert_eq!(
            test_app.store.executor().subscription_count(),
            0,
            "There should be no saved subscriptions in case of failure"
        );
        assert_eq!(test_app.store.executor().token_count(), 0);
        assert_eq!(test_app.channel.len(), 0);
    }
}

#[test]
fn subscribe_sends_a_confirmation_email_for_valid_data() {
    let mut test_app = spawn_app();

    let email = "to_confirm@gmail.com";
    let name = "To Confirm";

    post_subscriptions(&mut test_app, Some(name), Some(email));
    assert_eq!(deliver(&mut test_app), 1);
    assert_eq!(test_app.mail_provider.received.len(), 1);

    let confirmation_link = extract_confirmation_link(&test_app, 0);

    // Click the link for the first time: subscription is now confirmed
    follow_link_and_expect_status(&mut test_app, &confirmation_link, 200);
    assert_confirmed_subscription_in_db(&test_app, email, name);

    // If we click the link twice, it is expired
    follow_link_and_expect_status(&mut test_app, &confirmation_link, 401);
    // DB entry has not changed
    assert_confirmed_subscription_in_db(&test_app, email, name);
}

#[test]
fn subscribe_sends_a_confirmation_email_for_a_failed_subscription() {
    let mut test_app = spawn_app();

    let email = "failed_sub@gmail.com";
    let name = "Failed Sub";

    insert_new_subscription(&mut test_app, email, name, SubscriptionStatus::Failed);
    post_subscriptions(&mut test_app, Some(name), Some(email));
    assert_eq!(deliver(&mut test_app), 1);
    assert_eq!(test_app.mail_provider.received.len(), 1);

    let confirmation_link = extract_confirmation_link(&test_app, 0);

    // Click the link: failed subscription is now confirmed
    follow_link_and_expect_status(&mut test_app, &confirmation_link, 200);
    assert_confirmed_subscription_in_db(&test_app, email, name);
}

#[test]
fn subscribe_sends_a_confirmation_email_for_a_pending_subscription() {
    let mut test_app = spawn_app();

    let email = "pending_sub@gmail.com";
    let name = "Pending Sub";

    insert_new_subscription(&mut test_app, email, name, SubscriptionStatus::Pending);
    post_subscriptions(&mut test_app, Some(name), Some(email));
    assert_eq!(deliver(&mut test_app), 1);
    assert_eq!(test_app.mail_provider.received.len(), 1);

    let confirmation_link = extract_confirmation_link(&test_app, 0);

    // Click the link: pending subscription is now confirmed
    follow_link_and_expect_status(&mut test_app, &confirmation_link, 200);
    assert_confirmed_subscription_in_db(&test_app, email, name);
}

#[test]
fn subscribe_returns_conflict_for_an_already_confirmed_subscription() {
    let mut test_app = spawn_app();

    let email = "already_confirmed@gmail.com";
    let name = "AlreadyConfirmed";

    insert_new_subscription(&mut test_app, email, name, SubscriptionStatus::Confirmed);
    let response = post_subscriptions(&mut test_app, Some(name), Some(email));
    assert_eq!(response.status_code(), 409);
    assert_eq!(test_app.store.executor().token_count(), 0);
    assert_eq!(test_app.channel.len(), 0);
}

#[test]
fn the_confirmation_email_goes_from_the_sender_to_the_subscriber() {
    let mut test_app = spawn_app();
    post_subscriptions(&mut test_app, Some("le guin"), Some("ursula_le_guin@gmail.com"));
    deliver(&mut test_app);
    let request = &test_app.mail_provider.received[0];
    assert_eq!(request.from.email, "test@example.com");
    assert_eq!(request.personalizations.len(), 1);
    assert_eq!(request.personalizations[0].to.len(), 1);
    assert_eq!(request.personalizations[0].to[0].email, "ursula_le_guin@gmail.com");
    assert_eq!(request.subject, "Subscription confirmation");
    assert_eq!(request.content.len(), 1);
    assert_eq!(request.content[0].content_type, "text/plain");
    assert!(request.content[0].value.starts_with(
        "Welcome to our newsletter!\nVisit http://127.0.0.1:8000/subscriptions/confirm?subscription_token="
    ));
    assert!(request.content[0].value.ends_with(" to confirm your subscription"));
}
