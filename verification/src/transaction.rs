//! Transfers between accounts, and the rule on recording one.
//!
//! A transfer must touch the ledger from its owner's side: the source user
//! or the destination user has to be the main user. Timestamps and amounts
//! are carried as the bit patterns of their floating-point values and are
//! never read here.

use vstd::prelude::*;
use vstd::string::*;
use crate::error::{DomainError, DomainErrorView, UserKeyView, verdict_view};
use crate::user::{User, UserView, found_view, main_flag, is_main_username};

verus! {

/// A stored transfer. The timestamps are the IEEE 754 bit patterns of two
/// double-precision values, the amounts those of two single-precision ones.
#[derive(Debug, Clone, PartialEq, Eq)]
pub struct Transaction {
    pub tx_id: i64,
    pub created_timestamp_bits: u64,
    pub updated_timestamp_bits: u64,
    pub src_username: String,
    pub dst_username: String,
    pub src_account_id: i64,
    pub dst_account_id: i64,
    pub tags: String,
    pub description: String,
    pub src_currency: String,
    pub dst_currency: String,
    pub src_debit_bits: u32,
    pub dst_credit_bits: u32,
}

/// A transfer as asked for, before the store has given it an id. Either
/// account may be left open.
#[derive(Debug, Clone, PartialEq, Eq)]
pub struct CreateTransaction {
    pub created_timestamp_bits: u64,
    pub updated_timestamp_bits: u64,
    pub src_username: String,
    pub dst_username: String,
    pub src_account_id: Option<i64>,
    pub dst_account_id: Option<i64>,
    pub tags: String,
    pub description: String,
    pub src_currency: String,
    pub dst_currency: String,
    pub src_debit_bits: u32,
    pub dst_credit_bits: u32,
}

/// Mathematical model of a [`Transaction`].
pub ghost struct TransactionView {
    pub tx_id: int,
    pub created_timestamp_bits: int,
    pub updated_timestamp_bits: int,
    pub src_username: Seq<char>,
    pub dst_username: Seq<char>,
    pub src_account_id: int,
    pub dst_account_id: int,
    pub tags: Seq<char>,
    pub description: Seq<char>,
    pub src_currency: Seq<char>,
    pub dst_currency: Seq<char>,
    pub src_debit_bits: int,
    pub dst_credit_bits: int,
}

/// Mathematical model of a [`CreateTransaction`].
pub ghost struct CreateTransactionView {
    pub created_timestamp_bits: int,
    pub updated_timestamp_bits: int,
    pub src_username: Seq<char>,
    pub dst_username: Seq<char>,
    pub src_account_id: Option<int>,
    pub dst_account_id: Option<int>,
    pub tags: Seq<char>,
    pub description: Seq<char>,
    pub src_currency: Seq<char>,
    pub dst_currency: Seq<char>,
    pub src_debit_bits: int,
    pub dst_credit_bits: int,
}

/// An optional account id as a value of the model.
pub open spec fn account_id_view(id: Option<i64>) -> Option<int> {
    match id {
        Some(id) => Some(id as int),
        None => None,
    }
}

impl View for Transaction {
    type V = TransactionView;

    open spec fn view(&self) -> TransactionView {
        TransactionView {
            tx_id: self.tx_id as int,
            created_timestamp_bits: self.created_timestamp_bits as int,
            updated_timestamp_bits: self.updated_timestamp_bits as int,
            src_username: self.src_username@,
            dst_username: self.dst_username@,
            src_account_id: self.src_account_id as int,
            dst_account_id: self.dst_account_id as int,
            tags: self.tags@,
            description: self.description@,
            src_currency: self.src_currency@,
            dst_currency: self.dst_currency@,
            src_debit_bits: self.src_debit_bits as int,
            dst_credit_bits: self.dst_credit_bits as int,
        }
    }
}

impl View for CreateTransaction {
    type V = CreateTransactionView;

    open spec fn view(&self) -> CreateTransactionView {
        CreateTransactionView {
            created_timestamp_bits: self.created_timestamp_bits as int,
            updated_timestamp_bits: self.updated_timestamp_bits as int,
            src_username: self.src_username@,
            dst_username: self.dst_username@,
            src_account_id: account_id_view(self.src_account_id),
            dst_account_id: account_id_view(self.dst_account_id),
            tags: self.tags@,
            description: self.description@,
            src_currency: self.src_currency@,
            dst_currency: self.dst_currency@,
            src_debit_bits: self.src_debit_bits as int,
            dst_credit_bits: self.dst_credit_bits as int,
        }
    }
}

/// Whether the outcome depends on the destination user, which it does
/// only where the source user exists and is not main.
pub open spec fn destination_decides(src: Option<UserView>) -> bool {
    src matches Some(user) && !user.is_main
}

/// Whether a transfer may be recorded, `src` and `dst` being what lookups
/// of its two user names gave. The source is asked first: if it is missing
/// the transfer fails on it, and if it is main the transfer is admitted
/// whatever the destination is. Otherwise the destination must exist and
/// be main.
pub open spec fn add_transaction_verdict(
    candidate: CreateTransactionView,
    src: Option<UserView>,
    dst: Option<UserView>,
) -> Result<(), DomainErrorView> {
    match main_flag(src, UserKeyView::Name(candidate.src_username)) {
        Err(e) => Err(e),
        Ok(true) => Ok(()),
        Ok(false) => match main_flag(dst, UserKeyView::Name(candidate.dst_username)) {
            Err(e) => Err(e),
            Ok(true) => Ok(()),
            Ok(false) => Err(
                DomainErrorView::NoMainParty(candidate.src_username, candidate.dst_username),
            ),
        },
    }
}

/// Tells whether the destination user must be looked up before
/// [`can_add_transaction`] is asked. `src` is what the store holds under
/// the transfer's source user name. Where the answer is no, the verdict is
/// the same for every destination.
pub fn destination_lookup_needed(src: Option<&User>) -> (needed: bool)
    ensures
        needed == destination_decides(found_view(src)),
        !needed ==> forall|candidate: CreateTransactionView, dst: Option<UserView>|
            #[trigger] add_transaction_verdict(candidate, found_view(src), dst)
                == add_transaction_verdict(candidate, found_view(src), None),
{
    match src {
        Some(user) => !user.is_main,
        None => false,
    }
}

/// Decides whether a transfer may be recorded. `src` and `dst` are what the
/// store holds under the transfer's source and destination user names;
/// `dst` is not read where [`destination_lookup_needed`] says no.
pub fn can_add_transaction(
    potential_tx: &CreateTransaction,
    src: Option<&User>,
    dst: Option<&User>,
) -> (verdict: Result<(), DomainError>)
    ensures
        verdict_view(verdict) == add_transaction_verdict(
            potential_tx@,
            found_view(src),
            found_view(dst),
        ),
{
    let src_is_main = match is_main_username(src, potential_tx.src_username.as_str()) {
        Ok(flag) => flag,
        Err(e) => { return Err(e); },
    };
    if src_is_main {
        return Ok(());
    }
    let dst_is_main = match is_main_username(dst, potential_tx.dst_username.as_str()) {
        Ok(flag) => flag,
        Err(e) => { return Err(e); },
    };
    if dst_is_main {
        Ok(())
    } else {
        Err(
            DomainError::NoMainParty(
                potential_tx.src_username.clone(),
                potential_tx.dst_username.clone(),
            ),
        )
    }
}

/// Whether a lookup gave a user, and that user is main.
pub open spec fn found_main(found: Option<UserView>) -> bool {
    found matches Some(user) && user.is_main
}

/// Whether a lookup gave a user, and that user is not main.
pub open spec fn found_ordinary(found: Option<UserView>) -> bool {
    found matches Some(user) && !user.is_main
}

/// A transfer is admitted exactly if its source user is main, or its
/// source user exists without being main and its destination user is main.
/// It is refused for want of a main party exactly if both users exist and
/// neither is main. Every other refusal is a user that was not found.
pub proof fn lemma_main_party_rule(
    candidate: CreateTransactionView,
    src: Option<UserView>,
    dst: Option<UserView>,
)
    ensures
        add_transaction_verdict(candidate, src, dst) is Ok <==> found_main(src) || (found_ordinary(
            src,
        ) && found_main(dst)),
        add_transaction_verdict(candidate, src, dst) == Err::<(), DomainErrorView>(
            DomainErrorView::NoMainParty(candidate.src_username, candidate.dst_username),
        ) <==> found_ordinary(src) && found_ordinary(dst),
        src is None ==> add_transaction_verdict(candidate, src, dst) == Err::<(), DomainErrorView>(
            DomainErrorView::RecordNotFound(UserKeyView::Name(candidate.src_username)),
        ),
        found_ordinary(src) && dst is None ==> add_transaction_verdict(candidate, src, dst) == Err::<
            (),
            DomainErrorView,
        >(DomainErrorView::RecordNotFound(UserKeyView::Name(candidate.dst_username))),
{
}

} // verus!
