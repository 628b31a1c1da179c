//! The tables that the ledger is kept in, and the steps that make a store
//! ready for it.
//!
//! Each table is described by its columns and by the columns that refer to
//! another table. The statements that create the tables are written from
//! these descriptions.

use vstd::prelude::*;
use vstd::string::*;
use crate::error::{DomainError, DomainErrorView, verdict_view};

verus! {

/// A table of the ledger.
#[derive(Debug, Clone, Copy, PartialEq, Eq, Structural)]
pub enum Table {
    Users,
    Accounts,
    Transactions,
}

/// What a column holds.
#[derive(Debug, Clone, Copy, PartialEq, Eq, Structural)]
pub enum ColumnKind {
    Integer,
    Text,
    Real,
    Boolean,
}

/// What the store demands of the values in a column.
#[derive(Debug, Clone, Copy, PartialEq, Eq, Structural)]
pub enum ColumnRule {
    /// The table's key: an integer that the store counts up by itself.
    Key,
    /// Present, and different in every row.
    Unique,
    /// Present.
    Required,
    /// May be left empty.
    Optional,
}

/// A column of a table.
#[derive(Debug, Clone, Copy, PartialEq, Eq)]
pub struct Column {
    pub name: &'static str,
    pub kind: ColumnKind,
    pub rule: ColumnRule,
}

/// A column whose values are keys of rows in another table.
#[derive(Debug, Clone, Copy, PartialEq, Eq)]
pub struct ForeignKey {
    pub column: &'static str,
    pub parent: Table,
}

/// Mathematical model of a [`Column`].
pub ghost struct ColumnView {
    pub name: Seq<char>,
    pub kind: ColumnKind,
    pub rule: ColumnRule,
}

/// Mathematical model of a [`ForeignKey`].
pub ghost struct ForeignKeyView {
    pub column: Seq<char>,
    pub parent: Table,
}

impl View for Column {
    type V = ColumnView;

    open spec fn view(&self) -> ColumnView {
        ColumnView { name: self.name@, kind: self.kind, rule: self.rule }
    }
}

impl View for ForeignKey {
    type V = ForeignKeyView;

    open spec fn view(&self) -> ForeignKeyView {
        ForeignKeyView { column: self.column@, parent: self.parent }
    }
}

/// The models of a list of columns.
pub open spec fn column_views(columns: Seq<Column>) -> Seq<ColumnView> {
    columns.map_values(|c: Column| c@)
}

/// The models of a list of foreign keys.
pub open spec fn foreign_key_views(keys: Seq<ForeignKey>) -> Seq<ForeignKeyView> {
    keys.map_values(|k: ForeignKey| k@)
}

/// Shorthand for the model of a column.
pub open spec fn column(name: Seq<char>, kind: ColumnKind, rule: ColumnRule) -> ColumnView {
    ColumnView { name, kind, rule }
}

impl Table {
    /// The table's name in the store.
    pub open spec fn spec_name(self) -> Seq<char> {
        match self {
            Table::Users => "users"@,
            Table::Accounts => "accounts"@,
            Table::Transactions => "transactions"@,
        }
    }

    /// The name of the table's key column.
    pub open spec fn spec_key_name(self) -> Seq<char> {
        match self {
            Table::Users => "user_id"@,
            Table::Accounts => "account_id"@,
            Table::Transactions => "tx_id"@,
        }
    }

    /// The table's place in the order in which the tables are created.
    pub open spec fn position(self) -> int {
        match self {
            Table::Users => 0,
            Table::Accounts => 1,
            Table::Transactions => 2,
        }
    }

    /// The table that is created after this one, if any.
    pub open spec fn spec_successor(self) -> Option<Table> {
        match self {
            Table::Users => Some(Table::Accounts),
            Table::Accounts => Some(Table::Transactions),
            Table::Transactions => None,
        }
    }

    /// The table's columns, the key first.
    pub open spec fn spec_columns(self) -> Seq<ColumnView> {
        match self {
            Table::Users => seq![
                column("user_id"@, ColumnKind::Integer, ColumnRule::Key),
                column("username"@, ColumnKind::Text, ColumnRule::Unique),
                column("email"@, ColumnKind::Text, ColumnRule::Required),
                column("is_main"@, ColumnKind::Boolean, ColumnRule::Required),
            ],
            Table::Accounts => seq![
                column("account_id"@, ColumnKind::Integer, ColumnRule::Key),
                column("user_id"@, ColumnKind::Integer, ColumnRule::Optional),
                column("name"@, ColumnKind::Text, ColumnRule::Required),
                column("currency"@, ColumnKind::Text, ColumnRule::Required),
                column("principle"@, ColumnKind::Real, ColumnRule::Required),
                column("value"@, ColumnKind::Real, ColumnRule::Required),
            ],
            Table::Transactions => seq![
                column("tx_id"@, ColumnKind::Integer, ColumnRule::Key),
                column("created_timestamp"@, ColumnKind::Real, ColumnRule::Required),
                column("updated_timestamp"@, ColumnKind::Real, ColumnRule::Required),
                column("src_username"@, ColumnKind::Text, ColumnRule::Required),
                column("dst_username"@, ColumnKind::Text, ColumnRule::Required),
                column("src_account_id"@, ColumnKind::Integer, ColumnRule::Required),
                column("dst_account_id"@, ColumnKind::Integer, ColumnRule::Required),
                column("tags"@, ColumnKind::Text, ColumnRule::Required),
                column("description"@, ColumnKind::Text, ColumnRule::Required),
                column("src_currency"@, ColumnKind::Text, ColumnRule::Required),
                column("dst_currency"@, ColumnKind::Text, ColumnRule::Required),
                column("src_debit"@, ColumnKind::Real, ColumnRule::Required),
                column("dst_credit"@, ColumnKind::Real, ColumnRule::Required),
            ],
        }
    }

    /// The table's columns that refer to another table.
    pub open spec fn spec_foreign_keys(self) -> Seq<ForeignKeyView> {
        match self {
            Table::Users => seq![],
            Table::Accounts => seq![ForeignKeyView { column: "user_id"@, parent: Table::Users }],
            Table::Transactions => seq![
                ForeignKeyView { column: "src_account_id"@, parent: Table::Accounts },
                ForeignKeyView { column: "dst_account_id"@, parent: Table::Accounts },
            ],
        }
    }

    /// The table's name in the store.
    pub fn name(self) -> (name: &'static str)
        ensures
            name@ == self.spec_name(),
    {
        match self {
            Table::Users => "users",
            Table::Accounts => "accounts",
            Table::Transactions => "transactions",
        }
    }

    /// The name of the table's key column.
    pub fn key_name(self) -> (name: &'static str)
        ensures
            name@ == self.spec_key_name(),
    {
        match self {
            Table::Users => "user_id",
            Table::Accounts => "account_id",
            Table::Transactions => "tx_id",
        }
    }

    /// The table that is created after this one, if any.
    pub fn successor(self) -> (next: Option<Table>)
        ensures
            next == self.spec_successor(),
    {
        match self {
            Table::Users => Some(Table::Accounts),
            Table::Accounts => Some(Table::Transactions),
            Table::Transactions => None,
        }
    }

    /// The table's columns, the key first.
    pub fn columns(self) -> (columns: Vec<Column>)
        ensures
            column_views(columns@) == self.spec_columns(),
    {
        let columns = match self {
            Table::Users => vec![
                Column { name: "user_id", kind: ColumnKind::Integer, rule: ColumnRule::Key },
                Column { name: "username", kind: ColumnKind::Text, rule: ColumnRule::Unique },
                Column { name: "email", kind: ColumnKind::Text, rule: ColumnRule::Required },
                Column { name: "is_main", kind: ColumnKind::Boolean, rule: ColumnRule::Required },
            ],
            Table::Accounts => vec![
                Column { name: "account_id", kind: ColumnKind::Integer, rule: ColumnRule::Key },
                Column { name: "user_id", kind: ColumnKind::Integer, rule: ColumnRule::Optional },
                Column { name: "name", kind: ColumnKind::Text, rule: ColumnRule::Required },
                Column { name: "currency", kind: ColumnKind::Text, rule: ColumnRule::Required },
                Column { name: "principle", kind: ColumnKind::Real, rule: ColumnRule::Required },
                Column { name: "value", kind: ColumnKind::Real, rule: ColumnRule::Required },
            ],
            Table::Transactions => vec![
                Column { name: "tx_id", kind: ColumnKind::Integer, rule: ColumnRule::Key },
                Column {
                    name: "created_timestamp",
                    kind: ColumnKind::Real,
                    rule: ColumnRule::Required,
                },
                Column {
                    name: "updated_timestamp",
                    kind: ColumnKind::Real,
                    rule: ColumnRule::Required,
                },
                Column { name: "src_username", kind: ColumnKind::Text, rule: ColumnRule::Required },
                Column { name: "dst_username", kind: ColumnKind::Text, rule: ColumnRule::Required },
                Column {
                    name: "src_account_id",
                    kind: ColumnKind::Integer,
                    rule: ColumnRule::Required,
                },
                Column {
                    name: "dst_account_id",
                    kind: ColumnKind::Integer,
                    rule: ColumnRule::Required,
                },
                Column { name: "tags", kind: ColumnKind::Text, rule: ColumnRule::Required },
                Column { name: "description", kind: ColumnKind::Text, rule: ColumnRule::Required },
                Column { name: "src_currency", kind: ColumnKind::Text, rule: ColumnRule::Required },
                Column { name: "dst_currency", kind: ColumnKind::Text, rule: ColumnRule::Required },
                Column { name: "src_debit", kind: ColumnKind::Real, rule: ColumnRule::Required },
                Column { name: "dst_credit", kind: ColumnKind::Real, rule: ColumnRule::Required },
            ],
        };
        assert(column_views(columns@) =~= self.spec_columns());
        columns
    }

    /// The table's columns that refer to another table.
    pub fn foreign_keys(self) -> (keys: Vec<ForeignKey>)
        ensures
            foreign_key_views(keys@) == self.spec_foreign_keys(),
    {
        let keys = match self {
            Table::Users => Vec::new(),
            Table::Accounts => vec![ForeignKey { column: "user_id", parent: Table::Users }],
            Table::Transactions => vec![
                ForeignKey { column: "src_account_id", parent: Table::Accounts },
                ForeignKey { column: "dst_account_id", parent: Table::Accounts },
            ],
        };
        assert(foreign_key_views(keys@) =~= self.spec_foreign_keys());
        keys
    }
}

impl ColumnKind {
    /// The kind as the store's language writes it.
    pub open spec fn spec_text(self) -> Seq<char> {
        match self {
            ColumnKind::Integer => "INTEGER"@,
            ColumnKind::Text => "TEXT"@,
            ColumnKind::Real => "REAL"@,
            ColumnKind::Boolean => "BOOLEAN"@,
        }
    }

    /// The kind as the store's language writes it.
    pub fn text(self) -> (text: &'static str)
        ensures
            text@ == self.spec_text(),
    {
        match self {
            ColumnKind::Integer => "INTEGER",
            ColumnKind::Text => "TEXT",
            ColumnKind::Real => "REAL",
            ColumnKind::Boolean => "BOOLEAN",
        }
    }
}

impl ColumnRule {
    /// The rule as the store's language writes it after the column's kind.
    pub open spec fn spec_text(self) -> Seq<char> {
        match self {
            ColumnRule::Key => " PRIMARY KEY AUTOINCREMENT"@,
            ColumnRule::Unique => " UNIQUE NOT NULL"@,
            ColumnRule::Required => " NOT NULL"@,
            ColumnRule::Optional => ""@,
        }
    }

    /// The rule as the store's language writes it after the column's kind.
    pub fn text(self) -> (text: &'static str)
        ensures
            text@ == self.spec_text(),
    {
        match self {
            ColumnRule::Key => " PRIMARY KEY AUTOINCREMENT",
            ColumnRule::Unique => " UNIQUE NOT NULL",
            ColumnRule::Required => " NOT NULL",
            ColumnRule::Optional => "",
        }
    }
}

/// The definition of a column: its name, its kind and its rule.
pub open spec fn column_text(column: ColumnView) -> Seq<char> {
    column.name + " "@ + column.kind.spec_text() + column.rule.spec_text()
}

/// The definition of a foreign key: the column, and the parent table with
/// its key column.
pub open spec fn foreign_key_text(key: ForeignKeyView) -> Seq<char> {
    "FOREIGN KEY ("@ + key.column + ") REFERENCES "@ + key.parent.spec_name() + " ("@
        + key.parent.spec_key_name() + ")"@
}

/// The items written one after another, with a comma and a space between
/// each two.
pub open spec fn joined(items: Seq<Seq<char>>) -> Seq<char>
    decreases items.len(),
{
    if items.len() == 0 {
        Seq::empty()
    } else if items.len() == 1 {
        items[0]
    } else {
        joined(items.drop_last()) + ", "@ + items.last()
    }
}

/// The definitions that make up a table: those of its columns, then those
/// of its foreign keys.
pub open spec fn definitions(table: Table) -> Seq<Seq<char>> {
    table.spec_columns().map_values(|c: ColumnView| column_text(c))
        + table.spec_foreign_keys().map_values(|k: ForeignKeyView| foreign_key_text(k))
}

/// The statement that creates a table unless the store has it already.
pub open spec fn create_table_text(table: Table) -> Seq<char> {
    "CREATE TABLE IF NOT EXISTS "@ + table.spec_name() + " ("@ + joined(definitions(table)) + ")"@
}

/// Writes the definition of a column.
pub fn column_definition(column: &Column) -> (text: String)
    ensures
        text@ == column_text(column@),
{
    let mut text = String::from_str(column.name);
    text.append(" ");
    text.append(column.kind.text());
    text.append(column.rule.text());
    text
}

/// Writes the definition of a foreign key.
pub fn foreign_key_definition(key: &ForeignKey) -> (text: String)
    ensures
        text@ == foreign_key_text(key@),
{
    let mut text = String::from_str("FOREIGN KEY (");
    text.append(key.column);
    text.append(") REFERENCES ");
    text.append(key.parent.name());
    text.append(" (");
    text.append(key.parent.key_name());
    text.append(")");
    text
}

/// Adds one more item to a joined list.
fn append_item(list: &mut String, first: bool, item: &str, Ghost(items): Ghost<Seq<Seq<char>>>)
    requires
        old(list)@ == joined(items),
        first == (items.len() == 0),
    ensures
        final(list)@ == joined(items.push(item@)),
{
    if !first {
        list.append(", ");
    }
    list.append(item);
    proof {
        let longer = items.push(item@);
        assert(longer.drop_last() =~= items);
        assert(longer.last() == item@);
        if first {
            assert(list@ =~= item@);
        }
    }
}

/// Writes the statement that creates a table unless the store has it
/// already: the table's name, then in brackets its columns and its
/// foreign keys.
pub fn create_table_statement(table: Table) -> (statement: String)
    ensures
        statement@ == create_table_text(table),
{
    let columns = table.columns();
    let keys = table.foreign_keys();
    let ghost column_texts = table.spec_columns().map_values(|c: ColumnView| column_text(c));
    let ghost key_texts = table.spec_foreign_keys().map_values(
        |k: ForeignKeyView| foreign_key_text(k),
    );
    let mut list = String::new();
    let mut first = true;
    assert(list@ =~= joined(column_texts.take(0)));
    let mut i: usize = 0;
    while i < columns.len()
        invariant
            i <= columns.len(),
            column_views(columns@) == table.spec_columns(),
            column_texts == table.spec_columns().map_values(|c: ColumnView| column_text(c)),
            list@ == joined(column_texts.take(i as int)),
            first == (i == 0),
        decreases columns.len() - i,
    {
        let definition = column_definition(&columns[i]);
        proof {
            assert(column_views(columns@)[i as int] == columns@[i as int]@);
            assert(column_texts.take(i as int).push(definition@) =~= column_texts.take(i + 1));
        }
        append_item(&mut list, first, definition.as_str(), Ghost(column_texts.take(i as int)));
        first = false;
        i += 1;
    }
    assert(column_texts.take(i as int) =~= column_texts + key_texts.take(0));
    let mut j: usize = 0;
    while j < keys.len()
        invariant
            j <= keys.len(),
            column_texts.len() == columns.len(),
            foreign_key_views(keys@) == table.spec_foreign_keys(),
            key_texts == table.spec_foreign_keys().map_values(
                |k: ForeignKeyView| foreign_key_text(k),
            ),
            list@ == joined(column_texts + key_texts.take(j as int)),
            first == (columns.len() == 0 && j == 0),
        decreases keys.len() - j,
    {
        let definition = foreign_key_definition(&keys[j]);
        proof {
            assert(foreign_key_views(keys@)[j as int] == keys@[j as int]@);
            assert((column_texts + key_texts.take(j as int)).push(definition@) =~= column_texts
                + key_texts.take(j + 1));
        }
        append_item(
            &mut list,
            first,
            definition.as_str(),
            Ghost(column_texts + key_texts.take(j as int)),
        );
        first = false;
        j += 1;
    }
    assert(column_texts + key_texts.take(j as int) =~= definitions(table));
    let mut statement = String::from_str("CREATE TABLE IF NOT EXISTS ");
    statement.append(table.name());
    statement.append(" (");
    statement.append(list.as_str());
    statement.append(")");
    statement
}

/// One piece of work in making a store ready.
#[derive(Debug, Clone, Copy, PartialEq, Eq, Structural)]
pub enum SetupStep {
    /// Create the store itself.
    CreateStore,
    /// Create a table unless the store has it already.
    CreateTable(Table),
}

/// Where the setup of a store stands after a step.
#[derive(Debug, Clone, PartialEq, Eq)]
pub enum Setup {
    /// The step is to be done next.
    Run(SetupStep),
    /// The store is ready: requests can be served.
    Ready,
    /// A step failed: the store cannot be used and the service must stop.
    Failed(DomainError),
}

/// Mathematical model of a [`Setup`].
pub ghost enum SetupView {
    Run(SetupStep),
    Ready,
    Failed(DomainErrorView),
}

impl View for Setup {
    type V = SetupView;

    open spec fn view(&self) -> SetupView {
        match self {
            Setup::Run(step) => SetupView::Run(*step),
            Setup::Ready => SetupView::Ready,
            Setup::Failed(e) => SetupView::Failed(e@),
        }
    }
}

/// Whether the store has to be created, given what a probe for it said.
/// Only a probe that found the store spares the creation; a probe that
/// failed counts as a store that is not there.
pub open spec fn store_missing(probe: Option<bool>) -> bool {
    probe != Some(true)
}

/// The step that the setup begins with.
pub open spec fn first_step(probe: Option<bool>) -> SetupStep {
    if store_missing(probe) {
        SetupStep::CreateStore
    } else {
        SetupStep::CreateTable(Table::Users)
    }
}

/// The step that follows a step that went well, if any is left.
pub open spec fn step_after(step: SetupStep) -> Option<SetupStep> {
    match step {
        SetupStep::CreateStore => Some(SetupStep::CreateTable(Table::Users)),
        SetupStep::CreateTable(table) => match table.spec_successor() {
            Some(next) => Some(SetupStep::CreateTable(next)),
            None => None,
        },
    }
}

/// Where the setup stands once `completed` has ended with `outcome`. The
/// first failure ends the setup; nothing is tried again.
pub open spec fn setup_after(completed: SetupStep, outcome: Result<(), DomainErrorView>) -> SetupView {
    match outcome {
        Err(e) => SetupView::Failed(e),
        Ok(()) => match step_after(completed) {
            Some(next) => SetupView::Run(next),
            None => SetupView::Ready,
        },
    }
}

/// The number of steps that follow a step if all go well.
pub open spec fn steps_left(step: SetupStep) -> nat {
    match step {
        SetupStep::CreateStore => 3,
        SetupStep::CreateTable(table) => (2 - table.position()) as nat,
    }
}

/// The steps that are done from `step` on if all go well.
pub open spec fn steps_from(step: SetupStep) -> Seq<SetupStep>
    decreases steps_left(step),
{
    match step_after(step) {
        Some(next) => seq![step] + steps_from(next),
        None => seq![step],
    }
}

/// Decides the step that the setup begins with, from what a probe for the
/// store said: `None` where the probe itself failed.
pub fn first_setup_step(probe: Option<bool>) -> (step: SetupStep)
    ensures
        step == first_step(probe),
{
    match probe {
        Some(true) => SetupStep::CreateTable(Table::Users),
        _ => SetupStep::CreateStore,
    }
}

/// Decides where the setup stands once `completed` has ended with
/// `outcome`.
pub fn next_setup(completed: SetupStep, outcome: Result<(), DomainError>) -> (setup: Setup)
    ensures
        setup@ == setup_after(completed, verdict_view(outcome)),
{
    match outcome {
        Err(e) => Setup::Failed(e),
        Ok(()) => match completed {
            SetupStep::CreateStore => Setup::Run(SetupStep::CreateTable(Table::Users)),
            SetupStep::CreateTable(table) => match table.successor() {
                Some(next) => Setup::Run(SetupStep::CreateTable(next)),
                None => Setup::Ready,
            },
        },
    }
}

/// A setup in which every step goes well creates the store if the probe
/// did not find it, and then the three tables: users, accounts,
/// transactions, in this order.
pub proof fn lemma_setup_order(probe: Option<bool>)
    ensures
        steps_from(first_step(probe)) == if store_missing(probe) {
            seq![
                SetupStep::CreateStore,
                SetupStep::CreateTable(Table::Users),
                SetupStep::CreateTable(Table::Accounts),
                SetupStep::CreateTable(Table::Transactions),
            ]
        } else {
            seq![
                SetupStep::CreateTable(Table::Users),
                SetupStep::CreateTable(Table::Accounts),
                SetupStep::CreateTable(Table::Transactions),
            ]
        },
{
    let users = SetupStep::CreateTable(Table::Users);
    let accounts = SetupStep::CreateTable(Table::Accounts);
    let transactions = SetupStep::CreateTable(Table::Transactions);
    assert(steps_from(transactions) =~= seq![transactions]);
    assert(steps_from(accounts) =~= seq![accounts, transactions]);
    assert(steps_from(users) =~= seq![users, accounts, transactions]);
    assert(steps_from(SetupStep::CreateStore) =~= seq![
        SetupStep::CreateStore,
        users,
        accounts,
        transactions,
    ]);
}

/// Every foreign key of a table refers to a table that is created before
/// it, and is an integer column of its own table.
pub proof fn lemma_foreign_keys_sound(table: Table, i: int)
    requires
        0 <= i < table.spec_foreign_keys().len(),
    ensures
        table.spec_foreign_keys()[i].parent.position() < table.position(),
        exists|j: int|
            0 <= j < table.spec_columns().len() && #[trigger] table.spec_columns()[j].name
                == table.spec_foreign_keys()[i].column && table.spec_columns()[j].kind
                == ColumnKind::Integer,
{
    match table {
        Table::Users => {},
        Table::Accounts => {
            assert(table.spec_columns()[1].name == table.spec_foreign_keys()[i].column);
        },
        Table::Transactions => {
            if i == 0 {
                assert(table.spec_columns()[5].name == table.spec_foreign_keys()[i].column);
            } else {
                assert(table.spec_columns()[6].name == table.spec_foreign_keys()[i].column);
            }
        },
    }
}

/// The first column of every table is its key, an integer that the store
/// counts up by itself, and no other column of the table is a key.
pub proof fn lemma_one_key_column(table: Table)
    ensures
        table.spec_columns().len() > 0,
        table.spec_columns()[0] == column(
            table.spec_key_name(),
            ColumnKind::Integer,
            ColumnRule::Key,
        ),
        forall|j: int|
            0 < j < table.spec_columns().len() ==> (#[trigger] table.spec_columns()[j]).rule
                != ColumnRule::Key,
{
}

} // verus!
