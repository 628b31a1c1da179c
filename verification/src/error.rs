//! The failures that the ledger's rules report, and the text shown for each.

use vstd::prelude::*;
use vstd::string::*;

verus! {

/// The key by which a user record was looked up.
#[derive(Debug, Clone, PartialEq, Eq)]
pub enum UserKey {
    Id(i64),
    Name(String),
}

/// Mathematical model of a [`UserKey`].
pub ghost enum UserKeyView {
    Id(int),
    Name(Seq<char>),
}

impl View for UserKey {
    type V = UserKeyView;

    open spec fn view(&self) -> UserKeyView {
        match self {
            UserKey::Id(id) => UserKeyView::Id(*id as int),
            UserKey::Name(name) => UserKeyView::Name(name@),
        }
    }
}

/// Why a requested change or lookup was turned down.
///
/// `Store` is a fault of the backing store, `RecordNotFound` and
/// `AccountNotFound` are lookups that came back empty, and the remaining
/// variants are violations of a business rule, each holding the value that
/// broke the rule.
#[derive(Debug, Clone, PartialEq, Eq)]
pub enum DomainError {
    /// The store failed; the text is the store's own report.
    Store(String),
    /// No user is stored under the key.
    RecordNotFound(UserKey),
    /// No account is stored under the id.
    AccountNotFound(i64),
    /// A main user was to be created in a store that already holds users;
    /// the name is that of the rejected candidate.
    MainUserConflict(String),
    /// An update asked for the given `is_main`, which differs from the stored one.
    ImmutableFieldViolation(bool),
    /// The named user is the main user and cannot be deleted.
    MainUserProtected(String),
    /// The currency code is not three characters free of lowercase letters.
    InvalidCurrencyCode(String),
    /// Neither the source nor the destination user of a transfer is main.
    NoMainParty(String, String),
}

/// Mathematical model of a [`DomainError`].
pub ghost enum DomainErrorView {
    Store(Seq<char>),
    RecordNotFound(UserKeyView),
    AccountNotFound(int),
    MainUserConflict(Seq<char>),
    ImmutableFieldViolation(bool),
    MainUserProtected(Seq<char>),
    InvalidCurrencyCode(Seq<char>),
    NoMainParty(Seq<char>, Seq<char>),
}

impl View for DomainError {
    type V = DomainErrorView;

    open spec fn view(&self) -> DomainErrorView {
        match self {
            DomainError::Store(text) => DomainErrorView::Store(text@),
            DomainError::RecordNotFound(key) => DomainErrorView::RecordNotFound(key@),
            DomainError::AccountNotFound(id) => DomainErrorView::AccountNotFound(*id as int),
            DomainError::MainUserConflict(name) => DomainErrorView::MainUserConflict(name@),
            DomainError::ImmutableFieldViolation(asked) => DomainErrorView::ImmutableFieldViolation(
                *asked,
            ),
            DomainError::MainUserProtected(name) => DomainErrorView::MainUserProtected(name@),
            DomainError::InvalidCurrencyCode(code) => DomainErrorView::InvalidCurrencyCode(code@),
            DomainError::NoMainParty(src, dst) => DomainErrorView::NoMainParty(src@, dst@),
        }
    }
}

/// The outcome of a rule check, as a value of the model.
pub open spec fn verdict_view(verdict: Result<(), DomainError>) -> Result<(), DomainErrorView> {
    match verdict {
        Ok(()) => Ok(()),
        Err(e) => Err(e@),
    }
}

/// What std's `Debug` formatting of a string slice produces: the text in
/// double quotes, with the characters that need it escaped.
pub uninterp spec fn debug_text(s: Seq<char>) -> Seq<char>;

/// The text of a missing-main-party failure, given the two user names as
/// they are to be shown.
pub open spec fn no_main_party_text(src_shown: Seq<char>, dst_shown: Seq<char>) -> Seq<char> {
    "Neither user is main: "@ + src_shown + ", "@ + dst_shown
}

impl DomainErrorView {
    /// Whether the failure is a broken business rule, as opposed to a
    /// store fault or an empty lookup.
    pub open spec fn is_rule_violation(self) -> bool {
        match self {
            DomainErrorView::Store(_) => false,
            DomainErrorView::RecordNotFound(_) => false,
            DomainErrorView::AccountNotFound(_) => false,
            _ => true,
        }
    }

    /// The message shown to the caller for this failure.
    pub open spec fn message(self) -> Seq<char> {
        match self {
            DomainErrorView::Store(text) => text,
            DomainErrorView::RecordNotFound(UserKeyView::Id(_)) => "Requested user_id not found"@,
            DomainErrorView::RecordNotFound(UserKeyView::Name(_)) => "Requested username not found"@,
            DomainErrorView::AccountNotFound(_) => "Requested account_id not found"@,
            DomainErrorView::MainUserConflict(name) => "Main User already exists, cannot create another one: "@
                + name,
            DomainErrorView::ImmutableFieldViolation(asked) => "Invalid is_main property: "@ + (if asked {
                "true"@
            } else {
                "false"@
            }),
            DomainErrorView::MainUserProtected(name) => "Cannot delete main user: "@ + name,
            DomainErrorView::InvalidCurrencyCode(code) => "Invalid Currency String: "@ + code,
            DomainErrorView::NoMainParty(src, dst) => no_main_party_text(
                debug_text(src),
                debug_text(dst),
            ),
        }
    }
}

/// Renders a string slice with `format!("{:?}", ..)`, std's `Debug`
/// formatting. The rendering is a function of the characters alone; what
/// it is, is left to std and only given the name [`debug_text`].
#[verifier::external_body]
fn debug_quote(s: &str) -> (shown: String)
    ensures
        shown@ == debug_text(s@),
{
    format!("{:?}", s)
}

/// Joins a fixed prefix and a value into one message.
fn prefixed(prefix: &str, value: &str) -> (text: String)
    ensures
        text@ == prefix@ + value@,
{
    let mut text = String::from_str(prefix);
    text.append(value);
    text
}

/// Builds the text of a missing-main-party failure from the two user names
/// as they are to be shown.
pub fn no_main_party_message(src_shown: &str, dst_shown: &str) -> (text: String)
    ensures
        text@ == no_main_party_text(src_shown@, dst_shown@),
{
    let mut text = String::from_str("Neither user is main: ");
    text.append(src_shown);
    text.append(", ");
    text.append(dst_shown);
    text
}

impl DomainError {
    /// Whether the failure is a broken business rule.
    pub fn is_rule_violation(&self) -> (b: bool)
        ensures
            b == self@.is_rule_violation(),
    {
        match self {
            DomainError::Store(_) => false,
            DomainError::RecordNotFound(_) => false,
            DomainError::AccountNotFound(_) => false,
            _ => true,
        }
    }

    /// The message shown to the caller for this failure. A rule violation
    /// names the value that broke the rule.
    pub fn message(&self) -> (text: String)
        ensures
            text@ == self@.message(),
    {
        match self {
            DomainError::Store(report) => report.clone(),
            DomainError::RecordNotFound(UserKey::Id(_)) => String::from_str(
                "Requested user_id not found",
            ),
            DomainError::RecordNotFound(UserKey::Name(_)) => String::from_str(
                "Requested username not found",
            ),
            DomainError::AccountNotFound(_) => String::from_str("Requested account_id not found"),
            DomainError::MainUserConflict(name) => prefixed(
                "Main User already exists, cannot create another one: ",
                name.as_str(),
            ),
            DomainError::ImmutableFieldViolation(asked) => {
                if *asked {
                    prefixed("Invalid is_main property: ", "true")
                } else {
                    prefixed("Invalid is_main property: ", "false")
                }
            },
            DomainError::MainUserProtected(name) => prefixed(
                "Cannot delete main user: ",
                name.as_str(),
            ),
            DomainError::InvalidCurrencyCode(code) => prefixed(
                "Invalid Currency String: ",
                code.as_str(),
            ),
            DomainError::NoMainParty(src, dst) => {
                let src_shown = debug_quote(src.as_str());
                let dst_shown = debug_quote(dst.as_str());
                no_main_party_message(src_shown.as_str(), dst_shown.as_str())
            },
        }
    }
}

} // verus!
