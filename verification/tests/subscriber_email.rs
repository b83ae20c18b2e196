use ztp_r::domain::subscriber_email::SubscriberEmail;

#[test]
fn subscriber_email_empty_string_is_rejected() {
    let email = "".to_string();
    assert!(SubscriberEmail::parse(email).is_err());
}

#[test]
fn email_missing_at_symbol_is_rejected() {
    let email = "ardnysdomain.com".to_string();
    assert!(SubscriberEmail::parse(email).is_err());
}

#[test]
fn email_missing_subject_is_rejected() {
    let email = "@domain.com".to_string();
    assert!(SubscriberEmail::parse(email).is_err());
}

#[test]
fn realistic_emails_are_parsed_successfully() {
    for email in [
        "ardnys@gmail.com",
        "ursula_le_guin@gmail.com",
        "first.last@sub.example.org",
        "user+tag@example.co",
        "UPPER.CASE@EXAMPLE.COM",
    ] {
        assert!(SubscriberEmail::parse(email.to_string()).is_ok());
    }
}

#[test]
fn the_email_rejection_message_names_the_raw_input() {
    let message = SubscriberEmail::parse("not-an-email".to_string()).unwrap_err();
    assert_eq!(message, "not-an-email is not a valid email.");
}

#[test]
fn a_parsed_email_reads_back_unchanged() {
    let email = SubscriberEmail::parse("ardnys@gmail.com".to_string()).unwrap();
    assert_eq!(email.as_ref(), "ardnys@gmail.com");
}

#[test]
fn email_validation_is_idempotent() {
    for raw in ["ardnys@gmail.com", "", "ardnysdomain.com", "@domain.com"] {
        let first = SubscriberEmail::parse(raw.to_string()).is_ok();
        let second = SubscriberEmail::parse(raw.to_string()).is_ok();
        assert_eq!(first, second);
    }
}
