use zero2prod::config::Config;
use zero2prod::db::subscription_queries::SubscriptionQueries;
use zero2prod::db::transaction::{begin_transaction, commit_transaction};
use zero2prod::db::types::Store;
use zero2prod::domain::new_subscriber::NewSubscriber;
use zero2prod::domain::subscriber_email::SubscriberEmail;
use zero2prod::domain::subscriber_name::SubscriberName;
use zero2prod::domain::subscription_status::SubscriptionStatus;
use zero2prod::email_client::{EmailClient, MailProvider};
use zero2prod::events::channel::EventChannel;
use zero2prod::events::subscription_created::SubscriptionCreated;
use zero2prod::routes::response::Response;
use zero2prod::routes::subscriptions::{subscribe, FormData};
use zero2prod::routes::subscriptions_confirm::{subscriptions_confirm, Parameters};

struct FlowApp {
    config: Config,
    email_client: EmailClient,
    mail_provider: MailProvider,
    store: Store,
    channel: EventChannel,
}

fn spawn_flow_app(status: u16, delay_millis: u64) -> FlowApp {
    let config = Config {
        application_id: "test_complete_flows".to_string(),
        application_host: "127.0.0.1".to_string(),
        application_port: 8000,
        application_protocol: "http".to_string(),
        nats_host: "127.0.0.1".to_string(),
        nats_port: 4222,
        nats_subscription_created_subject: "subscription-created".to_string(),
        nats_subscription_created_group: "subscription-created-workers".to_string(),
        email_client_sender_email: "test@example.com".to_string(),
        email_client_base_url: "http://127.0.0.1:9000".to_string(),
        email_client_timeout_seconds: 1,
    };
    let email_client = EmailClient::new(&config);
    FlowApp {
        config,
        email_client,
        mail_provider: MailProvider::new(status, delay_millis),
        store: Store::new(),
        channel: EventChannel::new(),
    }
}

fn post(app: &mut FlowApp, name: &str, email: &str) -> Response {
    let form = FormData { email: email.to_string(), name: name.to_string() };
    subscribe(Some(form), &mut app.store, &mut app.channel)
}

fn work_off(app: &mut FlowApp) -> usize {
    SubscriptionCreated::subscribe(
        &app.config,
        &app.email_client,
        &mut app.mail_provider,
        &mut app.store,
        &mut app.channel,
    )
}

fn token_of_mail(app: &FlowApp, index: usize) -> String {
    let text = &app.mail_provider.received[index].content.first().unwrap().value;
    let links: Vec<&str> = text.split_whitespace().filter(|word| word.starts_with("http")).collect();
    assert_eq!(links.len(), 1);
    let prefix = "http://127.0.0.1:8000/subscriptions/confirm?subscription_token=";
    assert!(links[0].starts_with(prefix));
    links[0][prefix.len()..].to_string()
}

fn follow(app: &mut FlowApp, token: &str, expected_status: u16) {
    let response = subscriptions_confirm(
        Some(Parameters { subscription_token: token.to_string() }),
        &mut app.store,
    );
    assert_eq!(response.status_code(), expected_status, "token is {}", token);
}

fn status_in_db(app: &FlowApp, email: &str) -> Option<String> {
    SubscriptionQueries::fetch_subscription_by_email(app.store.executor(), email)
        .map(|saved| saved.status.as_column_text())
}

fn assert_confirmed_in_db(app: &FlowApp, email: &str, name: &str) {
    assert_eq!(app.store.executor().subscription_count(), 1);
    let saved = SubscriptionQueries::fetch_subscription_by_email(app.store.executor(), email)
        .expect("Failed to fetch saved subscription.");
    assert_eq!(saved.email, email);
    assert_eq!(saved.name, name);
    assert_eq!(saved.status.as_column_text(), "confirmed");
}

fn insert_with_status(app: &mut FlowApp, email: &str, name: &str, status: SubscriptionStatus) {
    let mut tx = begin_transaction(&app.store);
    let sub = NewSubscriber {
        email: SubscriberEmail::parse(email.to_string()).ok().unwrap(),
        name: SubscriberName::parse(name.to_string()).ok().unwrap(),
    };
    SubscriptionQueries::insert_subscriber(&mut tx, &sub, status);
    commit_transaction(tx, &mut app.store);
}

#[test]
fn sends_an_email_and_confirms_subscription_for_a_new_subscriber() {
    let mut test_app = spawn_flow_app(200, 0);

    let email = "to_confirm@gmail.com";
    let name = "To Confirm";

    post(&mut test_app, name, email);
    assert_eq!(work_off(&mut test_app), 1);
    assert_eq!(test_app.mail_provider.received.len(), 1);

    let token = token_of_mail(&test_app, 0);

    // Click the link for the first time: subscription is now confirmed
    follow(&mut test_app, &token, 200);
    assert_confirmed_in_db(&test_app, email, name);

    // If we click the link twice, it is expired
    follow(&mut test_app, &token, 401);
    // DB entry has not changed
    assert_confirmed_in_db(&test_app, email, name);

    // We cannot subscribe with the same email one more time - it is already confirmed
    // the status Conflict should represent exactly that
    let response = post(&mut test_app, name, email);
    assert_eq!(response.status_code(), 409)
}

#[test]
fn sends_an_email_and_confirms_subscription_for_a_previously_failed_one() {
    let mut test_app = spawn_flow_app(200, 0);

    let email = "failed_sub@gmail.com";
    let name = "Failed Sub";

    insert_with_status(&mut test_app, email, name, SubscriptionStatus::Failed);
    post(&mut test_app, name, email);
    assert_eq!(work_off(&mut test_app), 1);

    let token = token_of_mail(&test_app, 0);

    // Click the link: failed subscription is now confirmed
    follow(&mut test_app, &token, 200);
    assert_confirmed_in_db(&test_app, email, name);
}

#[test]
fn sends_an_email_and_confirms_subscription_for_a_pending_one() {
    let mut test_app = spawn_flow_app(200, 0);

    let email = "pending_sub@gmail.com";
    let name = "Pending Sub";

    insert_with_status(&mut test_app, email, name, SubscriptionStatus::Pending);
    post(&mut test_app, name, email);
    assert_eq!(work_off(&mut test_app), 1);

    let token = token_of_mail(&test_app, 0);

    // Click the link: pending subscription is now confirmed
    follow(&mut test_app, &token, 200);
    assert_confirmed_in_db(&test_app, email, name);
}

#[test]
fn register_confirm_confirm_again_register_again() {
    let mut test_app = spawn_flow_app(200, 0);
    let response = post(&mut test_app, "le guin", "ursula_le_guin@gmail.com");
    assert_eq!(response.status_code(), 200);
    assert_eq!(test_app.store.executor().subscription_count(), 1);
    assert_eq!(status_in_db(&test_app, "ursula_le_guin@gmail.com"), Some("pending".to_string()));
    assert_eq!(test_app.channel.len(), 1);

    assert_eq!(work_off(&mut test_app), 1);
    assert_eq!(test_app.channel.len(), 0);
    let token = token_of_mail(&test_app, 0);

    follow(&mut test_app, &token, 200);
    assert_eq!(status_in_db(&test_app, "ursula_le_guin@gmail.com"), Some("confirmed".to_string()));

    follow(&mut test_app, &token, 401);

    let response = post(&mut test_app, "le guin", "ursula_le_guin@gmail.com");
    assert_eq!(response.status_code(), 409);
    assert_eq!(test_app.store.executor().subscription_count(), 1);
    assert_eq!(test_app.channel.len(), 0);
}

#[test]
fn registering_with_an_empty_name_persists_and_publishes_nothing() {
    let mut test_app = spawn_flow_app(200, 0);
    let response = post(&mut test_app, "", "ursula_le_guin@gmail.com");
    assert_eq!(response.status_code(), 400);
    assert_eq!(test_app.store.executor().subscription_count(), 0);
    assert_eq!(test_app.store.executor().token_count(), 0);
    assert_eq!(test_app.channel.len(), 0);
}

#[test]
fn a_registration_leaves_a_pending_row_and_one_token() {
    let mut test_app = spawn_flow_app(200, 0);
    post(&mut test_app, "le guin", "ursula_le_guin@gmail.com");
    assert_eq!(status_in_db(&test_app, "ursula_le_guin@gmail.com"), Some("pending".to_string()));
    assert_eq!(test_app.store.executor().subscription_count(), 1);
    assert_eq!(test_app.store.executor().token_count(), 1);
}

#[test]
fn registering_twice_resends_and_adds_no_row() {
    let mut test_app = spawn_flow_app(200, 0);
    assert_eq!(post(&mut test_app, "le guin", "ursula_le_guin@gmail.com").status_code(), 200);
    assert_eq!(post(&mut test_app, "le guin", "ursula_le_guin@gmail.com").status_code(), 200);
    assert_eq!(test_app.store.executor().subscription_count(), 1);
    assert_eq!(test_app.store.executor().token_count(), 2);
    assert_eq!(test_app.channel.len(), 2);
    assert_eq!(status_in_db(&test_app, "ursula_le_guin@gmail.com"), Some("pending".to_string()));

    // Both tokens are valid; each confirms once.
    assert_eq!(work_off(&mut test_app), 2);
    let first = token_of_mail(&test_app, 0);
    let second = token_of_mail(&test_app, 1);
    assert_ne!(first, second);
    follow(&mut test_app, &first, 200);
    follow(&mut test_app, &first, 401);
    follow(&mut test_app, &second, 200);
    follow(&mut test_app, &second, 401);
    assert_eq!(test_app.store.executor().token_count(), 0);
    assert_eq!(status_in_db(&test_app, "ursula_le_guin@gmail.com"), Some("confirmed".to_string()));
}

#[test]
fn a_failed_send_marks_the_subscription_failed_and_withdraws_the_token() {
    let mut test_app = spawn_flow_app(500, 0);
    post(&mut test_app, "le guin", "ursula_le_guin@gmail.com");
    assert_eq!(test_app.store.executor().token_count(), 1);
    assert_eq!(work_off(&mut test_app), 1);
    // The provider received the request, and refused it.
    assert_eq!(test_app.mail_provider.received.len(), 1);
    assert_eq!(status_in_db(&test_app, "ursula_le_guin@gmail.com"), Some("failed".to_string()));
    assert_eq!(test_app.store.executor().token_count(), 0);
    let token = token_of_mail(&test_app, 0);
    assert_eq!(
        SubscriptionQueries::fetch_subscription_id_by_token(test_app.store.executor(), &token),
        None
    );
    follow(&mut test_app, &token, 401);
    assert_eq!(status_in_db(&test_app, "ursula_le_guin@gmail.com"), Some("failed".to_string()));
}

#[test]
fn a_send_that_takes_too_long_is_compensated_like_a_refusal() {
    let mut test_app = spawn_flow_app(200, 180_000);
    post(&mut test_app, "le guin", "ursula_le_guin@gmail.com");
    assert_eq!(work_off(&mut test_app), 1);
    assert_eq!(status_in_db(&test_app, "ursula_le_guin@gmail.com"), Some("failed".to_string()));
    assert_eq!(test_app.store.executor().token_count(), 0);
}

#[test]
fn registering_again_after_a_failure_revives_the_subscription_with_a_new_token() {
    let mut test_app = spawn_flow_app(500, 0);
    post(&mut test_app, "le guin", "ursula_le_guin@gmail.com");
    work_off(&mut test_app);
    let old_token = token_of_mail(&test_app, 0);
    let id_before = SubscriptionQueries::fetch_subscription_by_email(
        test_app.store.executor(),
        "ursula_le_guin@gmail.com",
    )
    .unwrap()
    .id;

    // The provider is back.
    test_app.mail_provider.status = 200;
    let response = post(&mut test_app, "le guin", "ursula_le_guin@gmail.com");
    assert_eq!(response.status_code(), 200);
    assert_eq!(status_in_db(&test_app, "ursula_le_guin@gmail.com"), Some("pending".to_string()));
    assert_eq!(test_app.store.executor().subscription_count(), 1);
    assert_eq!(test_app.store.executor().token_count(), 1);
    work_off(&mut test_app);
    let new_token = token_of_mail(&test_app, 1);
    assert_ne!(old_token, new_token);
    assert_eq!(
        SubscriptionQueries::fetch_subscription_id_by_token(test_app.store.executor(), &new_token),
        Some(id_before)
    );

    follow(&mut test_app, &old_token, 401);
    assert_eq!(status_in_db(&test_app, "ursula_le_guin@gmail.com"), Some("pending".to_string()));
    follow(&mut test_app, &new_token, 200);
    assert_eq!(status_in_db(&test_app, "ursula_le_guin@gmail.com"), Some("confirmed".to_string()));
}

#[test]
fn the_worker_handles_the_events_of_several_subscribers_in_order() {
    let mut test_app = spawn_flow_app(200, 0);
    post(&mut test_app, "One", "one@example.com");
    post(&mut test_app, "Two", "two@example.com");
    post(&mut test_app, "Three", "three@example.com");
    assert_eq!(test_app.channel.len(), 3);
    assert_eq!(work_off(&mut test_app), 3);
    assert_eq!(work_off(&mut test_app), 0);
    let recipients: Vec<String> = test_app
        .mail_provider
        .received
        .iter()
        .map(|request| request.personalizations[0].to[0].email.clone())
        .collect();
    assert_eq!(recipients, vec!["one@example.com", "two@example.com", "three@example.com"]);
    assert_eq!(test_app.store.executor().subscription_count(), 3);
    assert_eq!(test_app.store.executor().token_count(), 3);
}
