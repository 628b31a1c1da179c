use tx_vault::account::{can_add_account, Account, CreateAccount};
use tx_vault::adapter::{after_persistence, after_validation, Operation, Reply, Step};
use tx_vault::error::DomainError;
use tx_vault::transaction::{can_add_transaction, destination_lookup_needed, CreateTransaction};
use tx_vault::user::{add_user_needs_count, can_add_user, CreateUser, User};

/// The store of the scenario: rows are kept in the order they came and get
/// the next id.
struct Store {
    users: Vec<User>,
    accounts: Vec<Account>,
}

impl Store {
    fn user_named(&self, username: &str) -> Option<&User> {
        self.users.iter().find(|u| u.username == username)
    }
}

fn create_user(store: &mut Store, request: CreateUser) -> (Reply, Option<User>) {
    let count = if add_user_needs_count(&request) { store.users.len() as i64 } else { 0 };
    match after_validation(Operation::CreateUser, &can_add_user(count, &request)) {
        Step::Respond(reply) => (reply, None),
        Step::Persist => {
            let user = User {
                user_id: store.users.len() as i64 + 1,
                username: request.username,
                email: request.email,
                is_main: request.is_main,
            };
            store.users.push(user.clone());
            (after_persistence(Operation::CreateUser, &Ok(())), Some(user))
        }
    }
}

fn create_account(store: &mut Store, request: CreateAccount) -> (Reply, Option<Account>) {
    match after_validation(Operation::CreateAccount, &can_add_account(&request)) {
        Step::Respond(reply) => (reply, None),
        Step::Persist => {
            let account = Account {
                account_id: store.accounts.len() as i64 + 1,
                user_id: request.user_id,
                name: request.name,
                currency: request.currency,
                principle_bits: request.principle_bits,
                value_bits: request.value_bits,
            };
            store.accounts.push(account.clone());
            (after_persistence(Operation::CreateAccount, &Ok(())), Some(account))
        }
    }
}

fn create_transaction(store: &Store, request: &CreateTransaction) -> Reply {
    let src = store.user_named(&request.src_username);
    let dst = if destination_lookup_needed(src) {
        store.user_named(&request.dst_username)
    } else {
        None
    };
    match after_validation(
        Operation::CreateTransaction,
        &can_add_transaction(request, src, dst),
    ) {
        Step::Respond(reply) => reply,
        Step::Persist => after_persistence(Operation::CreateTransaction, &Ok(())),
    }
}

#[test]
fn ledger_from_first_user_to_first_transfer() {
    let mut store = Store { users: Vec::new(), accounts: Vec::new() };

    let (reply, alice) = create_user(
        &mut store,
        CreateUser {
            username: "alice".to_string(),
            email: "a@x.com".to_string(),
            is_main: true,
        },
    );
    assert_eq!(reply.status(), 200);
    assert_eq!(alice.map(|u| u.user_id), Some(1));

    let (reply, bob) = create_user(
        &mut store,
        CreateUser { username: "bob".to_string(), email: "b@x.com".to_string(), is_main: true },
    );
    assert_eq!(bob, None);
    assert_eq!(reply.status(), 500);
    assert_eq!(
        reply,
        Reply::Failure {
            status: 500,
            message: DomainError::MainUserConflict("bob".to_string()).message(),
        }
    );
    assert_eq!(store.users.len(), 1);

    let (reply, account) = create_account(
        &mut store,
        CreateAccount {
            user_id: 1,
            name: "Checking".to_string(),
            currency: "USD".to_string(),
            principle_bits: 100.0f32.to_bits(),
            value_bits: 100.0f32.to_bits(),
        },
    );
    assert_eq!(reply.status(), 200);
    assert_eq!(account.map(|a| a.account_id), Some(1));

    let reply = create_transaction(
        &store,
        &CreateTransaction {
            created_timestamp_bits: 0.0f64.to_bits(),
            updated_timestamp_bits: 0.0f64.to_bits(),
            src_username: "alice".to_string(),
            dst_username: "bob".to_string(),
            src_account_id: Some(1),
            dst_account_id: None,
            tags: String::new(),
            description: "gift".to_string(),
            src_currency: "USD".to_string(),
            dst_currency: "USD".to_string(),
            src_debit_bits: 10.0f32.to_bits(),
            dst_credit_bits: 10.0f32.to_bits(),
        },
    );
    assert_eq!(reply, Reply::Record);
    assert_eq!(reply.status(), 200);
}

#[test]
fn transfer_between_strangers_is_refused_in_the_same_ledger() {
    let mut store = Store { users: Vec::new(), accounts: Vec::new() };
    for (name, is_main) in [("alice", true), ("bob", false), ("bob2", false)] {
        let (reply, _) = create_user(
            &mut store,
            CreateUser {
                username: name.to_string(),
                email: format!("{}@x.com", name),
                is_main,
            },
        );
        assert_eq!(reply.status(), 200);
    }
    let request = CreateTransaction {
        created_timestamp_bits: 0.0f64.to_bits(),
        updated_timestamp_bits: 0.0f64.to_bits(),
        src_username: "bob".to_string(),
        dst_username: "bob2".to_string(),
        src_account_id: None,
        dst_account_id: None,
        tags: String::new(),
        description: String::new(),
        src_currency: "USD".to_string(),
        dst_currency: "USD".to_string(),
        src_debit_bits: 1.0f32.to_bits(),
        dst_credit_bits: 1.0f32.to_bits(),
    };
    assert_eq!(
        create_transaction(&store, &request),
        Reply::Failure {
            status: 500,
            message: "Neither user is main: \"bob\", \"bob2\"".to_string(),
        }
    );
}
