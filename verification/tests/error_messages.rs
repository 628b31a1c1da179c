use tx_vault::error::{no_main_party_message, DomainError, UserKey};

#[test]
fn store_fault_shows_the_stores_report() {
    assert_eq!(DomainError::Store("disk I/O error".to_string()).message(), "disk I/O error");
    assert_eq!(DomainError::Store(String::new()).message(), "");
}

#[test]
fn empty_lookups_name_the_key_kind() {
    assert_eq!(
        DomainError::RecordNotFound(UserKey::Id(4)).message(),
        "Requested user_id not found"
    );
    assert_eq!(
        DomainError::RecordNotFound(UserKey::Name("bob".to_string())).message(),
        "Requested username not found"
    );
    assert_eq!(DomainError::AccountNotFound(4).message(), "Requested account_id not found");
}

#[test]
fn rule_violations_show_the_offending_value() {
    assert_eq!(
        DomainError::MainUserConflict("bob".to_string()).message(),
        "Main User already exists, cannot create another one: bob"
    );
    assert_eq!(
        DomainError::ImmutableFieldViolation(true).message(),
        "Invalid is_main property: true"
    );
    assert_eq!(
        DomainError::ImmutableFieldViolation(false).message(),
        "Invalid is_main property: false"
    );
    assert_eq!(
        DomainError::MainUserProtected("alice".to_string()).message(),
        "Cannot delete main user: alice"
    );
    assert_eq!(
        DomainError::InvalidCurrencyCode("usd".to_string()).message(),
        "Invalid Currency String: usd"
    );
}

#[test]
fn missing_main_party_shows_both_names_quoted() {
    assert_eq!(
        DomainError::NoMainParty("bob".to_string(), "bob2".to_string()).message(),
        "Neither user is main: \"bob\", \"bob2\""
    );
}

#[test]
fn quoted_names_have_their_special_characters_escaped() {
    assert_eq!(
        DomainError::NoMainParty("a\"b".to_string(), "c\nd".to_string()).message(),
        "Neither user is main: \"a\\\"b\", \"c\\nd\""
    );
    assert_eq!(
        DomainError::NoMainParty(String::new(), "back\\slash".to_string()).message(),
        "Neither user is main: \"\", \"back\\\\slash\""
    );
}

#[test]
fn missing_main_party_text_joins_what_it_is_given() {
    assert_eq!(no_main_party_message("x", "y"), "Neither user is main: x, y");
    assert_eq!(no_main_party_message("", ""), "Neither user is main: , ");
}

#[test]
fn only_broken_rules_count_as_rule_violations() {
    assert!(!DomainError::Store("boom".to_string()).is_rule_violation());
    assert!(!DomainError::RecordNotFound(UserKey::Id(1)).is_rule_violation());
    assert!(!DomainError::RecordNotFound(UserKey::Name("a".to_string())).is_rule_violation());
    assert!(!DomainError::AccountNotFound(1).is_rule_violation());
    assert!(DomainError::MainUserConflict("a".to_string()).is_rule_violation());
    assert!(DomainError::ImmutableFieldViolation(true).is_rule_violation());
    assert!(DomainError::MainUserProtected("a".to_string()).is_rule_violation());
    assert!(DomainError::InvalidCurrencyCode("a".to_string()).is_rule_violation());
    assert!(DomainError::NoMainParty("a".to_string(), "b".to_string()).is_rule_violation());
}
