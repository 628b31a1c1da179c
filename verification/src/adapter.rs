//! How the outcome of a request is reported: the one place where a failure
//! becomes a status code and a message.
//!
//! A request that changes the ledger passes two stages. First its rule is
//! checked; then, if the rule admits it, the store carries it out. A read
//! has the second stage only. Every failure is reported as a server fault,
//! but for a record that a read or a delete of a user did not find.

use vstd::prelude::*;
use crate::error::{DomainError, DomainErrorView, verdict_view};

verus! {

/// The status of a request that was carried out.
pub const STATUS_OK: u16 = 200;

/// The status of a request for a record that is not there.
pub const STATUS_NOT_FOUND: u16 = 404;

/// The status of a request that failed otherwise.
pub const STATUS_INTERNAL_SERVER_ERROR: u16 = 500;

/// What a request asks for.
#[derive(Debug, Clone, Copy, PartialEq, Eq, Structural)]
pub enum Operation {
    CreateUser,
    GetUser,
    UpdateUser,
    DeleteUser,
    CreateAccount,
    GetAccount,
    UpdateAccount,
    DeleteAccount,
    CreateTransaction,
    GetTransaction,
}

/// Where in the handling of a request a failure arose.
#[derive(Debug, Clone, Copy, PartialEq, Eq, Structural)]
pub enum Stage {
    /// While the rule on the request was checked.
    Validation,
    /// While the store carried the request out.
    Persistence,
}

/// The answer to a request.
#[derive(Debug, Clone, PartialEq, Eq)]
pub enum Reply {
    /// The request was carried out; the body is the record it touched.
    Record,
    /// The request failed; the body is the message.
    Failure { status: u16, message: String },
}

/// Mathematical model of a [`Reply`].
pub ghost enum ReplyView {
    Record,
    Failure { status: int, message: Seq<char> },
}

impl View for Reply {
    type V = ReplyView;

    open spec fn view(&self) -> ReplyView {
        match self {
            Reply::Record => ReplyView::Record,
            Reply::Failure { status, message } => ReplyView::Failure {
                status: *status as int,
                message: message@,
            },
        }
    }
}

impl ReplyView {
    /// The status code sent with the reply.
    pub open spec fn status(self) -> int {
        match self {
            ReplyView::Record => STATUS_OK as int,
            ReplyView::Failure { status, message } => status,
        }
    }
}

/// What follows the check of a request's rule.
#[derive(Debug, Clone, PartialEq, Eq)]
pub enum Step {
    /// The rule admits the request: the store is to carry it out.
    Persist,
    /// The request ends here with this reply.
    Respond(Reply),
}

/// Mathematical model of a [`Step`].
pub ghost enum StepView {
    Persist,
    Respond(ReplyView),
}

impl View for Step {
    type V = StepView;

    open spec fn view(&self) -> StepView {
        match self {
            Step::Persist => StepView::Persist,
            Step::Respond(reply) => StepView::Respond(reply@),
        }
    }
}

impl Operation {
    /// Whether a rule is checked before the store is asked. Reads have no
    /// rule.
    pub open spec fn spec_has_rule(self) -> bool {
        match self {
            Operation::GetUser => false,
            Operation::GetAccount => false,
            Operation::GetTransaction => false,
            _ => true,
        }
    }

    /// Whether the operation reports a record that the store did not find
    /// as not found: reading and deleting a user do.
    pub open spec fn spec_reports_missing_record(self) -> bool {
        match self {
            Operation::GetUser => true,
            Operation::DeleteUser => true,
            _ => false,
        }
    }

    /// Tells whether a rule is checked before the store is asked.
    #[verifier::when_used_as_spec(spec_has_rule)]
    pub fn has_rule(self) -> (b: bool)
        ensures
            b == self.spec_has_rule(),
    {
        match self {
            Operation::GetUser => false,
            Operation::GetAccount => false,
            Operation::GetTransaction => false,
            _ => true,
        }
    }

    /// Tells whether the operation reports a record that the store did not
    /// find as not found.
    #[verifier::when_used_as_spec(spec_reports_missing_record)]
    pub fn reports_missing_record(self) -> (b: bool)
        ensures
            b == self.spec_reports_missing_record(),
    {
        match self {
            Operation::GetUser => true,
            Operation::DeleteUser => true,
            _ => false,
        }
    }
}

/// The status code for a failure of `operation` that arose at `stage`.
/// A failed rule is a server fault like any other; only a record that the
/// store itself did not find, for an operation that reports it, is not.
pub open spec fn failure_status(operation: Operation, stage: Stage, error: DomainErrorView) -> int {
    if stage == Stage::Persistence && operation.spec_reports_missing_record()
        && error is RecordNotFound {
        STATUS_NOT_FOUND as int
    } else {
        STATUS_INTERNAL_SERVER_ERROR as int
    }
}

/// The reply to a failure of `operation` that arose at `stage`.
pub open spec fn failure(operation: Operation, stage: Stage, error: DomainErrorView) -> ReplyView {
    ReplyView::Failure {
        status: failure_status(operation, stage, error),
        message: error.message(),
    }
}

/// The reply to a request whose rule gave `verdict` and which the store,
/// where it was asked, answered with `outcome`. The store is asked only
/// where the rule admits the request.
pub open spec fn request_reply(
    operation: Operation,
    verdict: Result<(), DomainErrorView>,
    outcome: Result<(), DomainErrorView>,
) -> ReplyView {
    match verdict {
        Err(e) => failure(operation, Stage::Validation, e),
        Ok(()) => match outcome {
            Err(e) => failure(operation, Stage::Persistence, e),
            Ok(()) => ReplyView::Record,
        },
    }
}

impl Reply {
    /// The status code sent with the reply.
    pub fn status(&self) -> (code: u16)
        ensures
            code as int == self@.status(),
    {
        match self {
            Reply::Record => STATUS_OK,
            Reply::Failure { status, message } => *status,
        }
    }
}

/// Maps a failure to its status code.
pub fn status_of(operation: Operation, stage: Stage, error: &DomainError) -> (code: u16)
    ensures
        code as int == failure_status(operation, stage, error@),
        code == STATUS_NOT_FOUND || code == STATUS_INTERNAL_SERVER_ERROR,
{
    let missing = match error {
        DomainError::RecordNotFound(_) => true,
        _ => false,
    };
    let at_store = match stage {
        Stage::Persistence => true,
        Stage::Validation => false,
    };
    if at_store && operation.reports_missing_record() && missing {
        STATUS_NOT_FOUND
    } else {
        STATUS_INTERNAL_SERVER_ERROR
    }
}

/// Builds the reply to a failure: its status code and its message.
pub fn failure_reply(operation: Operation, stage: Stage, error: &DomainError) -> (reply: Reply)
    ensures
        reply@ == failure(operation, stage, error@),
{
    Reply::Failure { status: status_of(operation, stage, error), message: error.message() }
}

/// Decides what follows the check of a request's rule: the store is asked
/// if the rule admits the request, and the request fails otherwise.
pub fn after_validation(operation: Operation, verdict: &Result<(), DomainError>) -> (step: Step)
    ensures
        step@ == match verdict_view(*verdict) {
            Ok(()) => StepView::Persist,
            Err(e) => StepView::Respond(failure(operation, Stage::Validation, e)),
        },
        step@ is Respond ==> step@->Respond_0.status() == STATUS_INTERNAL_SERVER_ERROR,
{
    match verdict {
        Ok(()) => Step::Persist,
        Err(e) => Step::Respond(failure_reply(operation, Stage::Validation, e)),
    }
}

/// Decides the reply once the store has answered.
pub fn after_persistence(operation: Operation, outcome: &Result<(), DomainError>) -> (reply: Reply)
    ensures
        reply@ == request_reply(operation, Ok(()), verdict_view(*outcome)),
        reply@.status() == STATUS_OK <==> *outcome is Ok,
{
    match outcome {
        Ok(()) => Reply::Record,
        Err(e) => failure_reply(operation, Stage::Persistence, e),
    }
}

/// A request is answered with success exactly if its rule admitted it and
/// the store carried it out; a request that its rule refuses is answered
/// as a server fault, whatever the store would have said.
pub proof fn lemma_reply_status(
    operation: Operation,
    verdict: Result<(), DomainErrorView>,
    outcome: Result<(), DomainErrorView>,
)
    ensures
        request_reply(operation, verdict, outcome).status() == STATUS_OK <==> verdict is Ok
            && outcome is Ok,
        verdict is Err ==> request_reply(operation, verdict, outcome).status()
            == STATUS_INTERNAL_SERVER_ERROR,
        request_reply(operation, verdict, outcome).status() == STATUS_NOT_FOUND ==> verdict is Ok
            && outcome is Err && operation.spec_reports_missing_record(),
{
}

} // verus!
