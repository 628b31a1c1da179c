//! Accounts, and the rules on creating, changing and deleting them.
//!
//! The one rule of substance is the shape of the currency code. Amounts are
//! carried as the bit patterns of their floating-point values and are never
//! read here.

use vstd::prelude::*;
use vstd::string::*;
use crate::error::{DomainError, DomainErrorView, UserKeyView, verdict_view};
use crate::user::{User, UserView, found_view, flag_view, main_flag, is_main_user};

verus! {

/// A stored account. `principle_bits` and `value_bits` are the IEEE 754
/// bit patterns of two single-precision amounts.
#[derive(Debug, Clone, PartialEq, Eq)]
pub struct Account {
    pub account_id: i64,
    pub user_id: i64,
    pub name: String,
    pub currency: String,
    pub principle_bits: u32,
    pub value_bits: u32,
}

/// An account as asked for, before the store has given it an id.
#[derive(Debug, Clone, PartialEq, Eq)]
pub struct CreateAccount {
    pub user_id: i64,
    pub name: String,
    pub currency: String,
    pub principle_bits: u32,
    pub value_bits: u32,
}

/// Mathematical model of an [`Account`].
pub ghost struct AccountView {
    pub account_id: int,
    pub user_id: int,
    pub name: Seq<char>,
    pub currency: Seq<char>,
    pub principle_bits: int,
    pub value_bits: int,
}

/// Mathematical model of a [`CreateAccount`].
pub ghost struct CreateAccountView {
    pub user_id: int,
    pub name: Seq<char>,
    pub currency: Seq<char>,
    pub principle_bits: int,
    pub value_bits: int,
}

impl View for Account {
    type V = AccountView;

    open spec fn view(&self) -> AccountView {
        AccountView {
            account_id: self.account_id as int,
            user_id: self.user_id as int,
            name: self.name@,
            currency: self.currency@,
            principle_bits: self.principle_bits as int,
            value_bits: self.value_bits as int,
        }
    }
}

impl View for CreateAccount {
    type V = CreateAccountView;

    open spec fn view(&self) -> CreateAccountView {
        CreateAccountView {
            user_id: self.user_id as int,
            name: self.name@,
            currency: self.currency@,
            principle_bits: self.principle_bits as int,
            value_bits: self.value_bits as int,
        }
    }
}

/// Whether a character has Unicode's `Lowercase` property, as
/// `char::is_lowercase` reports it.
pub uninterp spec fn is_lowercase_letter(c: char) -> bool;

/// `char::is_lowercase` depends on the character alone. Which characters
/// it holds of is left to std's Unicode tables and only given the name
/// [`is_lowercase_letter`].
pub assume_specification[ char::is_lowercase ](c: char) -> (lower: bool)
    ensures
        lower == is_lowercase_letter(c),
;

/// Whether some character of the text is a lowercase letter.
pub open spec fn has_lowercase_letter(text: Seq<char>) -> bool {
    exists|i: int| 0 <= i < text.len() && is_lowercase_letter(#[trigger] text[i])
}

/// The length that a currency code must have, in characters.
pub const CURRENCY_CODE_LENGTH: usize = 3;

/// Whether a currency code is accepted: exactly three characters, none of
/// them a lowercase letter. Digits and symbols are let through.
pub open spec fn currency_accepted(code: Seq<char>) -> bool {
    code.len() == CURRENCY_CODE_LENGTH && !has_lowercase_letter(code)
}

/// The outcome of the currency check: a code that is not accepted is
/// reported together with the code itself.
pub open spec fn currency_verdict(code: Seq<char>) -> Result<(), DomainErrorView> {
    if currency_accepted(code) {
        Ok(())
    } else {
        Err(DomainErrorView::InvalidCurrencyCode(code))
    }
}

/// Tells whether some character of the text is a lowercase letter.
pub fn contains_lowercase(text: &str) -> (found: bool)
    ensures
        found == has_lowercase_letter(text@),
{
    let length = text.unicode_len();
    let mut i: usize = 0;
    while i < length
        invariant
            length == text@.len(),
            i <= length,
            forall|j: int| 0 <= j < i ==> !is_lowercase_letter(#[trigger] text@[j]),
        decreases length - i,
    {
        if text.get_char(i).is_lowercase() {
            return true;
        }
        i += 1;
    }
    false
}

/// Decides on a currency code from its length in characters and from
/// whether it holds a lowercase letter.
pub fn currency_decision(currency: &str, length: usize, lowercase_found: bool) -> (verdict: Result<
    (),
    DomainError,
>)
    ensures
        verdict_view(verdict) == if length == CURRENCY_CODE_LENGTH && !lowercase_found {
            Ok::<(), DomainErrorView>(())
        } else {
            Err::<(), DomainErrorView>(DomainErrorView::InvalidCurrencyCode(currency@))
        },
{
    if length != CURRENCY_CODE_LENGTH || lowercase_found {
        Err(DomainError::InvalidCurrencyCode(String::from_str(currency)))
    } else {
        Ok(())
    }
}

/// Checks the shape of a currency code.
pub fn validate_currency(currency: &str) -> (verdict: Result<(), DomainError>)
    ensures
        verdict_view(verdict) == currency_verdict(currency@),
{
    let length = currency.unicode_len();
    let lowercase_found = length == CURRENCY_CODE_LENGTH && contains_lowercase(currency);
    currency_decision(currency, length, lowercase_found)
}

/// Decides whether an account may be created: its currency code must be
/// accepted.
pub fn can_add_account(potential_account: &CreateAccount) -> (verdict: Result<(), DomainError>)
    ensures
        verdict_view(verdict) == currency_verdict(potential_account@.currency),
{
    validate_currency(potential_account.currency.as_str())
}

/// Decides whether the account stored under `account_id` may be replaced
/// by the candidate: the candidate's currency code must be accepted. The
/// id plays no part.
pub fn can_update_account(account_id: i64, potential_account: &CreateAccount) -> (verdict: Result<
    (),
    DomainError,
>)
    ensures
        verdict_view(verdict) == currency_verdict(potential_account@.currency),
{
    validate_currency(potential_account.currency.as_str())
}

/// Decides whether the account stored under `account_id` may be deleted.
/// No rule stands against it: every account may.
pub fn can_delete_account(account_id: i64) -> (verdict: Result<(), DomainError>)
    ensures
        verdict == Ok::<(), DomainError>(()),
{
    Ok(())
}

/// What a lookup of one account gave, as a value of the model.
pub open spec fn account_found_view(found: Option<&Account>) -> Option<AccountView> {
    match found {
        Some(account) => Some(account@),
        None => None,
    }
}

/// The id of the user who owns the account that a lookup under
/// `account_id` gave.
pub open spec fn owner_of(found: Option<AccountView>, account_id: int) -> Result<
    int,
    DomainErrorView,
> {
    match found {
        None => Err(DomainErrorView::AccountNotFound(account_id)),
        Some(account) => Ok(account.user_id),
    }
}

/// Whether the account that a lookup under `account_id` gave belongs to the
/// main user, `owner` being what a lookup of the account's user gave.
pub open spec fn main_account_flag(
    found: Option<AccountView>,
    account_id: int,
    owner: Option<UserView>,
) -> Result<bool, DomainErrorView> {
    match owner_of(found, account_id) {
        Err(e) => Err(e),
        Ok(user_id) => main_flag(owner, UserKeyView::Id(user_id)),
    }
}

/// Names the user who owns the account stored under `account_id`, which is
/// the user to look up next. `found` is what the store holds under that id.
pub fn account_owner(found: Option<&Account>, account_id: i64) -> (owner: Result<i64, DomainError>)
    ensures
        match owner {
            Ok(user_id) => owner_of(account_found_view(found), account_id as int) == Ok::<
                int,
                DomainErrorView,
            >(user_id as int),
            Err(e) => owner_of(account_found_view(found), account_id as int) == Err::<
                int,
                DomainErrorView,
            >(e@),
        },
{
    match found {
        Some(account) => Ok(account.user_id),
        None => Err(DomainError::AccountNotFound(account_id)),
    }
}

/// Tells whether the account stored under `account_id` belongs to the main
/// user. `found` is what the store holds under that id and `owner` what it
/// holds under the account's user id; `owner` is not read where no account
/// was found.
pub fn is_main_account(found: Option<&Account>, account_id: i64, owner: Option<&User>) -> (answer:
    Result<bool, DomainError>)
    ensures
        flag_view(answer) == main_account_flag(
            account_found_view(found),
            account_id as int,
            found_view(owner),
        ),
{
    match found {
        Some(main_account) => is_main_user(owner, main_account.user_id),
        None => Err(DomainError::AccountNotFound(account_id)),
    }
}

} // verus!
