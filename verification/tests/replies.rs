use tx_vault::adapter::{
    after_persistence, after_validation, failure_reply, status_of, Operation, Reply, Stage, Step,
    STATUS_INTERNAL_SERVER_ERROR, STATUS_NOT_FOUND, STATUS_OK,
};
use tx_vault::error::{DomainError, UserKey};

const OPERATIONS: [Operation; 10] = [
    Operation::CreateUser,
    Operation::GetUser,
    Operation::UpdateUser,
    Operation::DeleteUser,
    Operation::CreateAccount,
    Operation::GetAccount,
    Operation::UpdateAccount,
    Operation::DeleteAccount,
    Operation::CreateTransaction,
    Operation::GetTransaction,
];

fn missing_user() -> DomainError {
    DomainError::RecordNotFound(UserKey::Id(3))
}

#[test]
fn status_codes_have_their_usual_values() {
    assert_eq!(STATUS_OK, 200);
    assert_eq!(STATUS_NOT_FOUND, 404);
    assert_eq!(STATUS_INTERNAL_SERVER_ERROR, 500);
}

#[test]
fn reads_have_no_rule() {
    for operation in OPERATIONS {
        let read = matches!(
            operation,
            Operation::GetUser | Operation::GetAccount | Operation::GetTransaction
        );
        assert_eq!(operation.has_rule(), !read);
    }
}

#[test]
fn only_reading_and_deleting_a_user_report_a_missing_record() {
    for operation in OPERATIONS {
        let reports = matches!(operation, Operation::GetUser | Operation::DeleteUser);
        assert_eq!(operation.reports_missing_record(), reports);
    }
}

#[test]
fn missing_user_is_not_found_where_the_store_was_asked_directly() {
    assert_eq!(status_of(Operation::GetUser, Stage::Persistence, &missing_user()), 404);
    assert_eq!(status_of(Operation::DeleteUser, Stage::Persistence, &missing_user()), 404);
}

#[test]
fn missing_user_inside_a_rule_is_a_server_fault() {
    for operation in OPERATIONS {
        assert_eq!(status_of(operation, Stage::Validation, &missing_user()), 500);
    }
}

#[test]
fn missing_user_is_a_server_fault_for_the_other_operations() {
    for operation in OPERATIONS {
        if !operation.reports_missing_record() {
            assert_eq!(status_of(operation, Stage::Persistence, &missing_user()), 500);
        }
    }
}

#[test]
fn every_other_failure_is_a_server_fault() {
    let failures = [
        DomainError::Store("boom".to_string()),
        DomainError::AccountNotFound(1),
        DomainError::MainUserConflict("bob".to_string()),
        DomainError::ImmutableFieldViolation(true),
        DomainError::MainUserProtected("alice".to_string()),
        DomainError::InvalidCurrencyCode("usd".to_string()),
        DomainError::NoMainParty("bob".to_string(), "bob2".to_string()),
    ];
    for operation in OPERATIONS {
        for stage in [Stage::Validation, Stage::Persistence] {
            for failure in failures.iter() {
                assert_eq!(status_of(operation, stage, failure), 500);
            }
        }
    }
}

#[test]
fn failure_reply_carries_status_and_message() {
    assert_eq!(
        failure_reply(Operation::GetUser, Stage::Persistence, &missing_user()),
        Reply::Failure { status: 404, message: "Requested user_id not found".to_string() }
    );
    assert_eq!(
        failure_reply(
            Operation::CreateAccount,
            Stage::Validation,
            &DomainError::InvalidCurrencyCode("usd".to_string())
        ),
        Reply::Failure { status: 500, message: "Invalid Currency String: usd".to_string() }
    );
}

#[test]
fn admitted_request_goes_on_to_the_store() {
    for operation in OPERATIONS {
        assert_eq!(after_validation(operation, &Ok(())), Step::Persist);
    }
}

#[test]
fn refused_request_ends_as_a_server_fault() {
    let verdict = Err(DomainError::MainUserConflict("bob".to_string()));
    assert_eq!(
        after_validation(Operation::CreateUser, &verdict),
        Step::Respond(Reply::Failure {
            status: 500,
            message: "Main User already exists, cannot create another one: bob".to_string(),
        })
    );
    let verdict = Err(missing_user());
    assert_eq!(
        after_validation(Operation::DeleteUser, &verdict),
        Step::Respond(Reply::Failure {
            status: 500,
            message: "Requested user_id not found".to_string(),
        })
    );
}

#[test]
fn stored_request_is_answered_with_the_record() {
    for operation in OPERATIONS {
        let reply = after_persistence(operation, &Ok(()));
        assert_eq!(reply, Reply::Record);
        assert_eq!(reply.status(), 200);
    }
}

#[test]
fn store_failure_is_answered_with_its_message() {
    let outcome = Err(DomainError::Store("UNIQUE constraint failed".to_string()));
    let reply = after_persistence(Operation::CreateUser, &outcome);
    assert_eq!(
        reply,
        Reply::Failure { status: 500, message: "UNIQUE constraint failed".to_string() }
    );
    assert_eq!(reply.status(), 500);
    let reply = after_persistence(Operation::DeleteUser, &Err(missing_user()));
    assert_eq!(reply.status(), 404);
    let reply = after_persistence(Operation::UpdateUser, &Err(missing_user()));
    assert_eq!(reply.status(), 500);
}
