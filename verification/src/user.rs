//! Users, and the rules on creating, changing and deleting them.
//!
//! One user may be the main user, the owner of the ledger. The rules here
//! keep it to one: a main user can only be created in an empty store, the
//! flag cannot be changed afterwards, and the main user cannot be deleted.
//! Each rule is a function of what the store answered, so the caller does
//! the lookup and hands the answer in.

use vstd::prelude::*;
use vstd::string::*;
use crate::error::{DomainError, DomainErrorView, UserKey, UserKeyView, verdict_view};

verus! {

/// A stored user.
#[derive(Debug, Clone, PartialEq, Eq)]
pub struct User {
    pub user_id: i64,
    pub username: String,
    pub email: String,
    pub is_main: bool,
}

/// A user as asked for, before the store has given it an id.
#[derive(Debug, Clone, PartialEq, Eq)]
pub struct CreateUser {
    pub username: String,
    pub email: String,
    pub is_main: bool,
}

/// Mathematical model of a [`User`].
pub ghost struct UserView {
    pub user_id: int,
    pub username: Seq<char>,
    pub email: Seq<char>,
    pub is_main: bool,
}

/// Mathematical model of a [`CreateUser`].
pub ghost struct CreateUserView {
    pub username: Seq<char>,
    pub email: Seq<char>,
    pub is_main: bool,
}

impl View for User {
    type V = UserView;

    open spec fn view(&self) -> UserView {
        UserView {
            user_id: self.user_id as int,
            username: self.username@,
            email: self.email@,
            is_main: self.is_main,
        }
    }
}

impl View for CreateUser {
    type V = CreateUserView;

    open spec fn view(&self) -> CreateUserView {
        CreateUserView { username: self.username@, email: self.email@, is_main: self.is_main }
    }
}

impl CreateUserView {
    /// The record that the store holds once it has admitted this candidate
    /// under `user_id`.
    pub open spec fn stored_as(self, user_id: int) -> UserView {
        UserView { user_id, username: self.username, email: self.email, is_main: self.is_main }
    }
}

/// What a lookup of one user gave, as a value of the model.
pub open spec fn found_view(found: Option<&User>) -> Option<UserView> {
    match found {
        Some(user) => Some(user@),
        None => None,
    }
}

/// Whether a candidate may be added to a store that holds `user_count`
/// users. A candidate that is not main always may; a main one only while
/// the store holds no user at all, main or not.
pub open spec fn add_user_verdict(user_count: int, candidate: CreateUserView) -> Result<
    (),
    DomainErrorView,
> {
    if candidate.is_main && user_count != 0 {
        Err(DomainErrorView::MainUserConflict(candidate.username))
    } else {
        Ok(())
    }
}

/// Whether the user stored under `user_id`, if any, may be replaced by the
/// candidate: the record must exist and `is_main` must stay as it is.
pub open spec fn update_user_verdict(
    current: Option<UserView>,
    user_id: int,
    candidate: CreateUserView,
) -> Result<(), DomainErrorView> {
    match current {
        None => Err(DomainErrorView::RecordNotFound(UserKeyView::Id(user_id))),
        Some(user) => if user.is_main != candidate.is_main {
            Err(DomainErrorView::ImmutableFieldViolation(candidate.is_main))
        } else {
            Ok(())
        },
    }
}

/// Whether the user stored under `user_id`, if any, may be deleted: the
/// record must exist and must not be the main user.
pub open spec fn delete_user_verdict(current: Option<UserView>, user_id: int) -> Result<
    (),
    DomainErrorView,
> {
    match current {
        None => Err(DomainErrorView::RecordNotFound(UserKeyView::Id(user_id))),
        Some(user) => if user.is_main {
            Err(DomainErrorView::MainUserProtected(user.username))
        } else {
            Ok(())
        },
    }
}

/// Whether the user that a lookup under `key` gave is the main user.
pub open spec fn main_flag(found: Option<UserView>, key: UserKeyView) -> Result<
    bool,
    DomainErrorView,
> {
    match found {
        None => Err(DomainErrorView::RecordNotFound(key)),
        Some(user) => Ok(user.is_main),
    }
}

/// The outcome of a main-user query, as a value of the model.
pub open spec fn flag_view(answer: Result<bool, DomainError>) -> Result<bool, DomainErrorView> {
    match answer {
        Ok(flag) => Ok(flag),
        Err(e) => Err(e@),
    }
}

/// Whether [`can_add_user`] depends on the number of stored users. It does
/// for a main candidate only, so the count need not be fetched otherwise.
pub fn add_user_needs_count(potential_user: &CreateUser) -> (needed: bool)
    ensures
        needed == potential_user.is_main,
        !needed ==> forall|user_count: int|
            add_user_verdict(user_count, potential_user@) == Ok::<(), DomainErrorView>(()),
{
    potential_user.is_main
}

/// Decides whether a candidate may be created in a store that holds
/// `user_count` users.
pub fn can_add_user(user_count: i64, potential_user: &CreateUser) -> (verdict: Result<
    (),
    DomainError,
>)
    ensures
        verdict_view(verdict) == add_user_verdict(user_count as int, potential_user@),
{
    if !potential_user.is_main {
        Ok(())
    } else if user_count != 0 {
        Err(DomainError::MainUserConflict(potential_user.username.clone()))
    } else {
        Ok(())
    }
}

/// Decides whether the user stored under `user_id` may be replaced by the
/// candidate. `current` is what the store holds under that id.
pub fn can_update_user(current: Option<&User>, user_id: i64, potential_user: &CreateUser) -> (verdict:
    Result<(), DomainError>)
    ensures
        verdict_view(verdict) == update_user_verdict(
            found_view(current),
            user_id as int,
            potential_user@,
        ),
{
    match current {
        None => Err(DomainError::RecordNotFound(UserKey::Id(user_id))),
        Some(current_user) => {
            if current_user.is_main != potential_user.is_main {
                Err(DomainError::ImmutableFieldViolation(potential_user.is_main))
            } else {
                Ok(())
            }
        },
    }
}

/// Decides whether the user stored under `user_id` may be deleted.
/// `current` is what the store holds under that id.
pub fn can_delete_user(current: Option<&User>, user_id: i64) -> (verdict: Result<(), DomainError>)
    ensures
        verdict_view(verdict) == delete_user_verdict(found_view(current), user_id as int),
{
    match current {
        None => Err(DomainError::RecordNotFound(UserKey::Id(user_id))),
        Some(current_user) => {
            if current_user.is_main {
                Err(DomainError::MainUserProtected(current_user.username.clone()))
            } else {
                Ok(())
            }
        },
    }
}

/// Tells whether the user stored under `user_id` is the main user.
/// `found` is what the store holds under that id.
pub fn is_main_user(found: Option<&User>, user_id: i64) -> (answer: Result<bool, DomainError>)
    ensures
        flag_view(answer) == main_flag(found_view(found), UserKeyView::Id(user_id as int)),
{
    match found {
        Some(main_user) => Ok(main_user.is_main),
        None => Err(DomainError::RecordNotFound(UserKey::Id(user_id))),
    }
}

/// Tells whether the user stored under `username` is the main user.
/// `found` is what the store holds under that name.
pub fn is_main_username(found: Option<&User>, username: &str) -> (answer: Result<
    bool,
    DomainError,
>)
    ensures
        flag_view(answer) == main_flag(found_view(found), UserKeyView::Name(username@)),
{
    match found {
        Some(main_user) => Ok(main_user.is_main),
        None => Err(DomainError::RecordNotFound(UserKey::Name(String::from_str(username)))),
    }
}

/// One create-user call as the store sees it: the candidate, and the id
/// that the store gives the record if the candidate is admitted.
pub ghost struct CreateCall {
    pub candidate: CreateUserView,
    pub user_id: int,
}

/// The number of main users among the stored records.
pub open spec fn main_count(stored: Seq<UserView>) -> nat
    decreases stored.len(),
{
    if stored.len() == 0 {
        0
    } else {
        main_count(stored.drop_last()) + if stored.last().is_main {
            1nat
        } else {
            0nat
        }
    }
}

/// The stored users after one create-user call: the candidate is checked
/// against the number of stored users and, if admitted, stored last.
pub open spec fn after_create(stored: Seq<UserView>, call: CreateCall) -> Seq<UserView> {
    if add_user_verdict(stored.len() as int, call.candidate) is Ok {
        stored.push(call.candidate.stored_as(call.user_id))
    } else {
        stored
    }
}

/// The stored users after a run of create-user calls, made one after
/// another, each checked against what the calls before it left.
pub open spec fn after_creates(stored: Seq<UserView>, calls: Seq<CreateCall>) -> Seq<UserView>
    decreases calls.len(),
{
    if calls.len() == 0 {
        stored
    } else {
        after_create(after_creates(stored, calls.drop_last()), calls.last())
    }
}

/// Storing one more record raises the number of main users by one if the
/// record is main, and leaves it otherwise.
pub proof fn lemma_main_count_push(stored: Seq<UserView>, user: UserView)
    ensures
        main_count(stored.push(user)) == main_count(stored) + if user.is_main {
            1nat
        } else {
            0nat
        },
{
    assert(stored.push(user).drop_last() =~= stored);
}

/// There are no more main users than users.
pub proof fn lemma_main_count_bounded(stored: Seq<UserView>)
    ensures
        main_count(stored) <= stored.len(),
    decreases stored.len(),
{
    if stored.len() > 0 {
        lemma_main_count_bounded(stored.drop_last());
    }
}

/// One create-user call keeps a store with at most one main user in that
/// state.
pub proof fn lemma_create_keeps_single_main(stored: Seq<UserView>, call: CreateCall)
    requires
        main_count(stored) <= 1,
    ensures
        main_count(after_create(stored, call)) <= 1,
{
    if add_user_verdict(stored.len() as int, call.candidate) is Ok {
        lemma_main_count_push(stored, call.candidate.stored_as(call.user_id));
        if call.candidate.is_main {
            lemma_main_count_bounded(stored);
        }
    }
}

/// Whatever create-user calls are made one after another on a store with
/// at most one main user, the store holds at most one main user afterwards.
/// An empty store is such a store, so of all users ever created from
/// nothing at most one is main.
pub proof fn lemma_creates_keep_single_main(stored: Seq<UserView>, calls: Seq<CreateCall>)
    requires
        main_count(stored) <= 1,
    ensures
        main_count(after_creates(stored, calls)) <= 1,
    decreases calls.len(),
{
    if calls.len() > 0 {
        lemma_creates_keep_single_main(stored, calls.drop_last());
        lemma_create_keeps_single_main(after_creates(stored, calls.drop_last()), calls.last());
    }
}

/// While the store holds a main user, a call that would create another one
/// is refused as a conflict and leaves the store as it is.
pub proof fn lemma_second_main_refused(stored: Seq<UserView>, call: CreateCall)
    requires
        main_count(stored) >= 1,
        call.candidate.is_main,
    ensures
        add_user_verdict(stored.len() as int, call.candidate) == Err::<(), DomainErrorView>(
            DomainErrorView::MainUserConflict(call.candidate.username),
        ),
        after_create(stored, call) == stored,
{
    lemma_main_count_bounded(stored);
}

/// The stored users after an update of the record at position `at`: the
/// candidate is checked against that record and, if admitted, takes its
/// place under the same id.
pub open spec fn after_update(stored: Seq<UserView>, at: int, candidate: CreateUserView) -> Seq<
    UserView,
> {
    if 0 <= at < stored.len() && update_user_verdict(
        Some(stored[at]),
        stored[at].user_id,
        candidate,
    ) is Ok {
        stored.update(at, candidate.stored_as(stored[at].user_id))
    } else {
        stored
    }
}

/// The stored users after a delete of the record at position `at`: the
/// record is checked and, if the delete is admitted, removed.
pub open spec fn after_delete(stored: Seq<UserView>, at: int) -> Seq<UserView> {
    if 0 <= at < stored.len() && delete_user_verdict(Some(stored[at]), stored[at].user_id) is Ok {
        stored.remove(at)
    } else {
        stored
    }
}

/// An update of a stored user fails as a change of an immutable field
/// exactly if the candidate's `is_main` differs from the stored one, and
/// is admitted otherwise, whatever else the candidate changes.
pub proof fn lemma_is_main_immutable(current: UserView, user_id: int, candidate: CreateUserView)
    ensures
        candidate.is_main != current.is_main ==> update_user_verdict(
            Some(current),
            user_id,
            candidate,
        ) == Err::<(), DomainErrorView>(
            DomainErrorView::ImmutableFieldViolation(candidate.is_main),
        ),
        candidate.is_main == current.is_main ==> update_user_verdict(
            Some(current),
            user_id,
            candidate,
        ) == Ok::<(), DomainErrorView>(()),
{
}

/// A delete of a stored user fails as a delete of the protected main user
/// exactly if the user is main, and is admitted otherwise.
pub proof fn lemma_main_user_protected(current: UserView, user_id: int)
    ensures
        current.is_main ==> delete_user_verdict(Some(current), user_id) == Err::<
            (),
            DomainErrorView,
        >(DomainErrorView::MainUserProtected(current.username)),
        !current.is_main ==> delete_user_verdict(Some(current), user_id) == Ok::<
            (),
            DomainErrorView,
        >(()),
{
}

/// Replacing a record by one with the same `is_main` leaves the number of
/// main users as it is.
pub proof fn lemma_main_count_update(stored: Seq<UserView>, at: int, user: UserView)
    requires
        0 <= at < stored.len(),
        user.is_main == stored[at].is_main,
    ensures
        main_count(stored.update(at, user)) == main_count(stored),
    decreases stored.len(),
{
    let changed = stored.update(at, user);
    if at == stored.len() - 1 {
        assert(changed.drop_last() =~= stored.drop_last());
    } else {
        assert(changed.drop_last() =~= stored.drop_last().update(at, user));
        lemma_main_count_update(stored.drop_last(), at, user);
    }
}

/// Removing a record that is not main leaves the number of main users as
/// it is.
pub proof fn lemma_main_count_remove(stored: Seq<UserView>, at: int)
    requires
        0 <= at < stored.len(),
        !stored[at].is_main,
    ensures
        main_count(stored.remove(at)) == main_count(stored),
    decreases stored.len(),
{
    let rest = stored.remove(at);
    if at == stored.len() - 1 {
        assert(rest =~= stored.drop_last());
    } else {
        assert(rest.drop_last() =~= stored.drop_last().remove(at));
        assert(rest.last() == stored.last());
        lemma_main_count_remove(stored.drop_last(), at);
    }
}

/// Neither an update nor a delete changes the number of main users: the
/// one cannot touch `is_main`, the other cannot remove the main user.
pub proof fn lemma_update_and_delete_keep_main_count(
    stored: Seq<UserView>,
    at: int,
    candidate: CreateUserView,
)
    ensures
        main_count(after_update(stored, at, candidate)) == main_count(stored),
        main_count(after_delete(stored, at)) == main_count(stored),
{
    if 0 <= at < stored.len() {
        if update_user_verdict(Some(stored[at]), stored[at].user_id, candidate) is Ok {
            lemma_main_count_update(stored, at, candidate.stored_as(stored[at].user_id));
        }
        if delete_user_verdict(Some(stored[at]), stored[at].user_id) is Ok {
            lemma_main_count_remove(stored, at);
        }
    }
}

} // verus!
