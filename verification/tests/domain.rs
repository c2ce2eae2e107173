use zero2prod::domain::subscriber_name::{acceptable, forbidden};
use zero2prod::domain::subscription_token::subscription_token;
use zero2prod::domain::{SubscriberEmail, SubscriberName, SubscriptionStatus};

#[test]
fn a_256_grapheme_long_name_is_valid() {
    let name = "a".repeat(256);
    assert!(SubscriberName::parse(name).is_ok());
}

#[test]
fn a_name_longer_than_256_graphemes_is_rejected() {
    let name = "a".repeat(257);
    assert!(SubscriberName::parse(name).is_err());
}

#[test]
fn whitespace_only_names_are_rejected() {
    let name = "  \t".to_string();
    assert!(SubscriberName::parse(name).is_err());
}

#[test]
fn names_containing_an_invalid_character_are_rejected() {
    for c in ['/', '(', ')', '"', '<', '>', '\\', '{', '}'] {
        let name = c.to_string();
        assert!(SubscriberName::parse(name).is_err());
    }
}

#[test]
fn valid_name_is_parsed_successfully() {
    let name = "Ursula Le Guin".to_string();
    assert!(SubscriberName::parse(name).is_ok());
}

#[test]
fn basic_valid_email_is_accepted() {
    let email = "valid@domain.com".to_string();
    assert!(SubscriberEmail::parse(email).is_ok());
}

#[test]
fn empty_string_is_rejected() {
    let email = "".to_string();
    assert!(SubscriberEmail::parse(email).is_err());
}

#[test]
fn email_missing_at_symbol_is_rejected() {
    let email = "domain.com".to_string();
    assert!(SubscriberEmail::parse(email).is_err());
}

#[test]
fn email_missing_subject_is_rejected() {
    let email = "@domain.com".to_string();
    assert!(SubscriberEmail::parse(email).is_err());
}

#[test]
fn a_name_is_measured_in_graphemes_not_in_characters() {
    // "e" followed by a combining acute accent: two characters, one grapheme.
    let name = "e\u{301}".repeat(256);
    assert_eq!(name.chars().count(), 512);
    assert!(SubscriberName::parse(name).is_ok());
    let name = "e\u{301}".repeat(257);
    assert!(SubscriberName::parse(name).is_err());
}

#[test]
fn an_empty_name_is_rejected() {
    assert!(SubscriberName::parse(String::new()).is_err());
}

#[test]
fn a_name_is_kept_as_it_was_written() {
    let name = SubscriberName::parse(" Ursula Le Guin ".to_string()).unwrap();
    assert_eq!(name.as_ref(), " Ursula Le Guin ");
    assert_eq!(name.clone().as_ref(), " Ursula Le Guin ");
}

#[test]
fn a_forbidden_character_anywhere_in_a_name_rejects_it() {
    assert!(SubscriberName::parse("Ursula {Le} Guin".to_string()).is_err());
    assert!(SubscriberName::parse("Ursula <".to_string()).is_err());
    assert!(SubscriberName::parse("\\Ursula".to_string()).is_err());
}

#[test]
fn unicode_whitespace_counts_as_whitespace() {
    assert!(SubscriberName::parse("\u{2003}\u{a0}\n".to_string()).is_err());
    assert!(SubscriberName::parse("\u{2003}a\u{a0}".to_string()).is_ok());
}

#[test]
fn a_rejected_name_is_reported_with_its_value_and_the_reason() {
    let error = match SubscriberName::parse("a/b".to_string()) {
        Ok(_) => panic!("the name was accepted"),
        Err(error) => error,
    };
    assert_eq!(error.value, "a/b");
    assert_eq!(error.reason, "is not a valid subscriber name.");
    assert_eq!(error.message(), "a/b is not a valid subscriber name.");
}

#[test]
fn the_check_of_a_name_goes_by_the_count_it_is_given() {
    assert!(acceptable("Ursula", 6));
    assert!(acceptable("Ursula", 256));
    assert!(!acceptable("Ursula", 257));
    assert!(!acceptable("   ", 3));
    assert!(!acceptable("", 0));
    assert!(!acceptable("a(b", 3));
    assert!(forbidden('"'));
    assert!(!forbidden('a'));
}

#[test]
fn a_short_valid_email_is_accepted() {
    let email = SubscriberEmail::parse("a@b.com".to_string()).unwrap();
    assert_eq!(email.as_ref(), "a@b.com");
    assert_eq!(email.clone().as_ref(), "a@b.com");
}

#[test]
fn email_missing_domain_is_rejected() {
    assert!(SubscriberEmail::parse("ursula@".to_string()).is_err());
}

#[test]
fn a_rejected_email_is_reported_with_its_value_and_the_reason() {
    let error = match SubscriberEmail::parse("b.com".to_string()) {
        Ok(_) => panic!("the address was accepted"),
        Err(error) => error,
    };
    assert_eq!(error.value, "b.com");
    assert_eq!(error.reason, "is not a valid subscriber email.");
    assert_eq!(error.message(), "b.com is not a valid subscriber email.");
}

#[test]
fn a_token_is_the_seed_in_hexadecimal() {
    assert_eq!(
        subscription_token(0x0123456789abcdef0123456789abcdef),
        "0123456789abcdef0123456789abcdef"
    );
    assert_eq!(subscription_token(0), "0".repeat(32));
    assert_eq!(subscription_token(u128::MAX), "f".repeat(32));
    assert_eq!(subscription_token(0x1f), format!("{}1f", "0".repeat(30)));
}

#[test]
fn a_status_is_written_as_the_store_has_it() {
    assert_eq!(SubscriptionStatus::PendingConfirmation.as_str(), "pending_confirmation");
    assert_eq!(SubscriptionStatus::Confirmed.as_str(), "confirmed");
}

#[test]
fn confirming_leads_to_confirmed_and_stays_there() {
    let once = SubscriptionStatus::PendingConfirmation.confirm();
    assert_eq!(once, SubscriptionStatus::Confirmed);
    assert_eq!(once.confirm(), SubscriptionStatus::Confirmed);
}
