use tx_vault::account::{
    account_owner, can_add_account, can_delete_account, can_update_account, contains_lowercase,
    currency_decision, is_main_account, validate_currency, Account, CreateAccount,
};
use tx_vault::error::{DomainError, UserKey};
use tx_vault::user::User;

fn invalid(code: &str) -> Result<(), DomainError> {
    Err(DomainError::InvalidCurrencyCode(code.to_string()))
}

fn candidate(currency: &str) -> CreateAccount {
    CreateAccount {
        user_id: 1,
        name: "Checking".to_string(),
        currency: currency.to_string(),
        principle_bits: 100.0f32.to_bits(),
        value_bits: 100.0f32.to_bits(),
    }
}

fn stored(account_id: i64, user_id: i64) -> Account {
    Account {
        account_id,
        user_id,
        name: "Checking".to_string(),
        currency: "USD".to_string(),
        principle_bits: 100.0f32.to_bits(),
        value_bits: 100.0f32.to_bits(),
    }
}

#[test]
fn uppercase_code_of_three_letters_is_accepted() {
    assert_eq!(validate_currency("USD"), Ok(()));
    assert_eq!(validate_currency("EUR"), Ok(()));
}

#[test]
fn lowercase_code_is_rejected() {
    assert_eq!(validate_currency("usd"), invalid("usd"));
    assert_eq!(validate_currency("UsD"), invalid("UsD"));
    assert_eq!(validate_currency("USd"), invalid("USd"));
    assert_eq!(validate_currency("uSD"), invalid("uSD"));
}

#[test]
fn code_of_another_length_is_rejected() {
    assert_eq!(validate_currency("US"), invalid("US"));
    assert_eq!(validate_currency(""), invalid(""));
    assert_eq!(validate_currency("USDT"), invalid("USDT"));
    assert_eq!(validate_currency("U"), invalid("U"));
}

#[test]
fn digits_and_symbols_are_let_through() {
    assert_eq!(validate_currency("US1"), Ok(()));
    assert_eq!(validate_currency("123"), Ok(()));
    assert_eq!(validate_currency("$$$"), Ok(()));
    assert_eq!(validate_currency("U S"), Ok(()));
}

#[test]
fn letters_beyond_ascii_are_judged_by_their_case() {
    assert_eq!(validate_currency("ÉUR"), Ok(()));
    assert_eq!(validate_currency("éUR"), invalid("éUR"));
    assert_eq!(validate_currency("ΔΔΔ"), Ok(()));
    assert_eq!(validate_currency("δΔΔ"), invalid("δΔΔ"));
    assert_eq!(validate_currency("中中中"), Ok(()));
}

#[test]
fn lowercase_letters_are_found_anywhere() {
    assert!(!contains_lowercase(""));
    assert!(!contains_lowercase("USD 123"));
    assert!(contains_lowercase("a"));
    assert!(contains_lowercase("USDx"));
    assert!(contains_lowercase("xUSD"));
    assert!(contains_lowercase("ÜBEr"));
}

#[test]
fn decision_follows_length_and_case() {
    assert_eq!(currency_decision("USD", 3, false), Ok(()));
    assert_eq!(currency_decision("usd", 3, true), invalid("usd"));
    assert_eq!(currency_decision("US", 2, false), invalid("US"));
    assert_eq!(currency_decision("usdt", 4, true), invalid("usdt"));
    assert_eq!(currency_decision("", 0, false), invalid(""));
}

#[test]
fn account_is_admitted_by_its_currency() {
    assert_eq!(can_add_account(&candidate("USD")), Ok(()));
    assert_eq!(can_add_account(&candidate("US1")), Ok(()));
    assert_eq!(can_add_account(&candidate("usd")), invalid("usd"));
    assert_eq!(can_add_account(&candidate("US")), invalid("US"));
}

#[test]
fn account_update_is_admitted_by_its_currency() {
    assert_eq!(can_update_account(1, &candidate("GBP")), Ok(()));
    assert_eq!(can_update_account(99, &candidate("GBP")), Ok(()));
    assert_eq!(can_update_account(1, &candidate("gbp")), invalid("gbp"));
    assert_eq!(can_update_account(1, &candidate("GBPX")), invalid("GBPX"));
}

#[test]
fn any_account_may_be_deleted() {
    for id in [i64::MIN, -1, 0, 1, 42, i64::MAX] {
        assert_eq!(can_delete_account(id), Ok(()));
    }
}

#[test]
fn owner_of_an_account() {
    assert_eq!(account_owner(Some(&stored(4, 17)), 4), Ok(17));
    assert_eq!(account_owner(None, 4), Err(DomainError::AccountNotFound(4)));
}

#[test]
fn main_account_is_the_main_users() {
    let alice = User {
        user_id: 1,
        username: "alice".to_string(),
        email: "a@x.com".to_string(),
        is_main: true,
    };
    let bob = User {
        user_id: 2,
        username: "bob".to_string(),
        email: "b@x.com".to_string(),
        is_main: false,
    };
    assert_eq!(is_main_account(Some(&stored(1, 1)), 1, Some(&alice)), Ok(true));
    assert_eq!(is_main_account(Some(&stored(2, 2)), 2, Some(&bob)), Ok(false));
    assert_eq!(
        is_main_account(Some(&stored(3, 8)), 3, None),
        Err(DomainError::RecordNotFound(UserKey::Id(8)))
    );
    assert_eq!(is_main_account(None, 5, None), Err(DomainError::AccountNotFound(5)));
    assert_eq!(is_main_account(None, 5, Some(&alice)), Err(DomainError::AccountNotFound(5)));
}
