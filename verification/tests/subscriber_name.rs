use ztp_r::domain::subscriber_name::SubscriberName;

#[test]
fn a_256_grapheme_long_name_is_valid() {
    let name = "ё".repeat(256);
    assert!(SubscriberName::parse(name).is_ok());
}

#[test]
fn a_name_longer_than_256_grapheme_is_rejected() {
    let name = "a".repeat(257);
    assert!(SubscriberName::parse(name).is_err());
}

#[test]
fn whitespace_only_names_are_rejected() {
    let name = " ".to_string();
    assert!(SubscriberName::parse(name).is_err());
}

#[test]
fn subscriber_name_empty_string_is_rejected() {
    let name = "".to_string();
    assert!(SubscriberName::parse(name).is_err());
}

#[test]
fn names_containing_an_invalid_character_are_rejected() {
    for name in &['/', '(', ')', '"', '<', '>', '\\', '{', '}'] {
        let name = name.to_string();
        assert!(SubscriberName::parse(name).is_err());
    }
}

#[test]
fn a_valid_name_is_parsed_successfully() {
    let name = "Charl Leglerg".to_string();
    assert!(SubscriberName::parse(name).is_ok());
}

#[test]
fn a_forbidden_character_inside_a_name_rejects_it() {
    let name = "Charl/Leglerg".to_string();
    assert!(SubscriberName::parse(name).is_err());
}

#[test]
fn mixed_whitespace_only_name_is_rejected() {
    let name = " \t\n".to_string();
    assert!(SubscriberName::parse(name).is_err());
}

#[test]
fn grapheme_clusters_are_counted_not_code_points() {
    // 256 copies of "e" followed by a combining acute accent: 512 code
    // points, but 256 user-perceived characters, so the name is valid.
    let name = "e\u{301}".repeat(256);
    assert_eq!(name.chars().count(), 512);
    assert!(SubscriberName::parse(name).is_ok());
}

#[test]
fn a_257_grapheme_multi_byte_name_is_rejected() {
    let name = "ё".repeat(257);
    assert!(SubscriberName::parse(name).is_err());
}

#[test]
fn the_name_rejection_message_names_the_raw_input() {
    let message = SubscriberName::parse("{bad}".to_string()).unwrap_err();
    assert_eq!(message, "{bad} is not a valid subscriber name.");
}

#[test]
fn a_parsed_name_reads_back_unchanged() {
    let name = SubscriberName::parse("Charl Leglerg".to_string()).unwrap();
    assert_eq!(name.as_ref(), "Charl Leglerg");
}

#[test]
fn name_validation_is_idempotent() {
    for raw in ["Charl Leglerg", "", "   ", "Charl/Leglerg", "ё"] {
        let first = SubscriberName::parse(raw.to_string()).is_ok();
        let second = SubscriberName::parse(raw.to_string()).is_ok();
        assert_eq!(first, second);
    }
}
