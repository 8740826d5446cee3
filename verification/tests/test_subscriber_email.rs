use zero2prod::domain::subscriber_email::{reject_email, SubscriberEmail};

#[test]
fn test_subscriber_email_empty_string_is_rejected() {
    let email = "".to_string();
    assert!(SubscriberEmail::parse(email).is_err());
}

#[test]
fn email_missing_at_symbol_is_rejected() {
    let email = "ursuladomain.com".to_string();
    assert!(SubscriberEmail::parse(email).is_err());
}

#[test]
fn email_missing_subject_is_rejected() {
    let email = "@domain.com".to_string();
    assert!(SubscriberEmail::parse(email).is_err());
}

#[test]
fn a_valid_email_is_parsed_and_kept_as_it_is() {
    let email = SubscriberEmail::parse("ursula_le_guin@gmail.com".to_string());
    assert!(email.is_ok());
    assert_eq!(email.ok().unwrap().as_ref(), "ursula_le_guin@gmail.com");
}

#[test]
fn a_rejected_email_is_named_in_the_reason() {
    let reason = SubscriberEmail::parse("definitely-not-an-email".to_string()).err().unwrap();
    assert_eq!(reason, "definitely-not-an-email is not a valid subscriber email.");
}

#[test]
fn an_email_with_a_local_part_of_65_characters_is_rejected() {
    let at_the_limit = format!("{}@domain.com", "a".repeat(64));
    let over_the_limit = format!("{}@domain.com", "a".repeat(65));
    assert!(SubscriberEmail::parse(at_the_limit).is_ok());
    assert!(SubscriberEmail::parse(over_the_limit).is_err());
}

#[test]
fn a_cloned_email_holds_the_same_address() {
    let email = SubscriberEmail::parse("le_guin@example.com".to_string()).ok().unwrap();
    assert_eq!(email.clone().as_ref(), email.as_ref());
}

#[test]
fn the_reason_names_the_text_that_was_refused() {
    assert_eq!(reject_email("a@b".to_string()), "a@b is not a valid subscriber email.");
    assert_eq!(reject_email(String::new()), " is not a valid subscriber email.");
}
