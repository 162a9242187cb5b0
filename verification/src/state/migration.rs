//! Bringing the schema up to date.
//!
//! The ledger is a list of scripts that are applied in order every time
//! the inventory is opened.  A script that only adds columns may find
//! them there already; that, and nothing else, is passed over.

use vstd::prelude::*;
use vstd::string::*;
use crate::argv::{argv0, argv1, argv3};
use crate::error::{Failure, FailureKind, FailureView};
use crate::text::{contains, join2, matches_at, occurs_in};

verus! {

/// One script of the ledger.
#[derive(Clone, Debug, PartialEq, Eq)]
pub struct Migration {
    /// The script's name, its timestamp first.
    pub name: String,
    /// The columns that the script adds, in the order in which it adds
    /// them; empty for a script that does anything else.
    pub additive: Vec<String>,
}

pub struct MigrationView {
    pub name: Seq<char>,
    pub additive: Seq<Seq<char>>,
}

impl View for Migration {
    type V = MigrationView;

    open spec fn view(&self) -> MigrationView {
        MigrationView { name: self.name@, additive: self.additive.deep_view() }
    }
}

impl DeepView for Migration {
    type V = MigrationView;

    open spec fn deep_view(&self) -> MigrationView {
        self@
    }
}

/// The ledger, oldest script first.
pub open spec fn ledger_of() -> Seq<MigrationView> {
    seq![
        MigrationView { name: "20250804092946_init"@, additive: Seq::empty() },
        MigrationView { name: "20250910164344_ip_address"@, additive: seq!["ip_address"@] },
        MigrationView {
            name: "20250910202353_add_vmlinux_rootfs_bootargs"@,
            additive: seq!["vmlinux"@, "rootfs"@, "bootargs"@],
        },
        MigrationView { name: "20250911084132_ensure_unique_columns"@, additive: Seq::empty() },
        MigrationView { name: "20250917153615_add_ssh_keys"@, additive: seq!["ssh_keys"@] },
        MigrationView { name: "20250919184944_add_drives"@, additive: Seq::empty() },
    ]
}

/// What the database says when a column is added that is there already.
pub open spec fn duplicate_column(column: Seq<char>) -> Seq<char> {
    "duplicate column name: "@ + column
}

/// The script's failure `message` is passed over: it says of one of the
/// columns that the script adds that the column is there already.
pub open spec fn tolerated(migration: MigrationView, message: Seq<char>) -> bool {
    exists|i: int|
        0 <= i < migration.additive.len() && occurs_in(
            duplicate_column(#[trigger] migration.additive[i]),
            message,
        )
}

/// What the outcome of a script means for the run: it goes on after
/// success and after a failure that is passed over; any other failure
/// ends it with `MigrationFailed`.
pub open spec fn migration_result(migration: MigrationView, outcome: Result<(), Seq<char>>) -> Result<
    (),
    FailureView,
> {
    match outcome {
        Ok(()) => Ok(()),
        Err(message) => if tolerated(migration, message) {
            Ok(())
        } else {
            Err(
                FailureView {
                    kind: FailureKind::MigrationFailed,
                    subject: migration.name,
                    code: None,
                    detail: message,
                },
            )
        },
    }
}

/// The inventory's file in the state directory.
pub open spec fn database_path_of(config_dir: Seq<char>) -> Seq<char> {
    config_dir + "/firecracker_state.db"@
}

fn script(name: &str, additive: Vec<String>) -> (m: Migration)
    ensures
        m@ == (MigrationView { name: name@, additive: additive.deep_view() }),
{
    Migration { name: String::from_str(name), additive }
}

/// The ledger, oldest script first.
pub fn ledger() -> (r: Vec<Migration>)
    ensures
        r.deep_view() == ledger_of(),
{
    let mut v: Vec<Migration> = Vec::new();
    v.push(script("20250804092946_init", argv0()));
    v.push(script("20250910164344_ip_address", argv1("ip_address")));
    v.push(
        script(
            "20250910202353_add_vmlinux_rootfs_bootargs",
            argv3("vmlinux", "rootfs", "bootargs"),
        ),
    );
    v.push(script("20250911084132_ensure_unique_columns", argv0()));
    v.push(script("20250917153615_add_ssh_keys", argv1("ssh_keys")));
    v.push(script("20250919184944_add_drives", argv0()));
    v
}

/// Whether a script's failure is passed over.
pub fn tolerates(migration: &Migration, message: &str) -> (r: bool)
    ensures
        r == tolerated(migration@, message@),
{
    let mut i: usize = 0;
    while i < migration.additive.len()
        invariant
            i <= migration.additive.len(),
            forall|j: int|
                0 <= j < i ==> !occurs_in(
                    duplicate_column(#[trigger] migration@.additive[j]),
                    message@,
                ),
        decreases migration.additive.len() - i,
    {
        assert(migration@.additive[i as int] == migration.additive[i as int]@);
        let wanted = join2("duplicate column name: ", migration.additive[i].as_str());
        if contains(message, wanted.as_str()) {
            return true;
        }
        i += 1;
    }
    false
}

/// Judges the outcome of one script: `Ok` lets the run go on.
pub fn after_migration(migration: &Migration, outcome: &Result<(), String>) -> (r: Result<
    (),
    Failure,
>)
    ensures
        match r {
            Ok(()) => migration_result(
                migration@,
                match *outcome {
                    Ok(()) => Ok(()),
                    Err(m) => Err(m@),
                },
            ) is Ok,
            Err(e) => migration_result(
                migration@,
                match *outcome {
                    Ok(()) => Ok(()),
                    Err(m) => Err(m@),
                },
            ) == Err::<(), FailureView>(e@),
        },
{
    match outcome {
        Ok(()) => Ok(()),
        Err(message) => {
            if tolerates(migration, message.as_str()) {
                Ok(())
            } else {
                Err(
                    Failure::with_detail(
                        FailureKind::MigrationFailed,
                        migration.name.as_str(),
                        None,
                        message.as_str(),
                    ),
                )
            }
        },
    }
}

/// The inventory's file in the state directory.
pub fn database_path(config_dir: &str) -> (r: String)
    ensures
        r@ == database_path_of(config_dir@),
{
    join2(config_dir, "/firecracker_state.db")
}

/// A schema, as far as the ledger is concerned: which tables there are,
/// and which columns they have.
pub struct Schema {
    pub tables: Set<Seq<char>>,
    pub columns: Set<(Seq<char>, Seq<char>)>,
}

/// One statement of a script.
pub enum Statement {
    /// Creates the table with its columns unless the table exists.
    CreateTable { table: Seq<char>, columns: Set<Seq<char>> },
    /// Adds the column; fails where the table is missing or has it.
    AddColumn { table: Seq<char>, column: Seq<char> },
    /// Changes neither tables nor columns and never fails.
    Other,
}

/// What a statement makes of a schema, or what the database says when
/// the statement fails.
pub open spec fn executed(schema: Schema, statement: Statement) -> Result<Schema, Seq<char>> {
    match statement {
        Statement::CreateTable { table, columns } => if schema.tables.contains(table) {
            Ok(schema)
        } else {
            Ok(
                Schema {
                    tables: schema.tables.insert(table),
                    columns: schema.columns.union(
                        Set::new(
                            |c: (Seq<char>, Seq<char>)| c.0 == table && columns.contains(c.1),
                        ),
                    ),
                },
            )
        },
        Statement::AddColumn { table, column } => if !schema.tables.contains(table) {
            Err(missing_table(table))
        } else if schema.columns.contains((table, column)) {
            Err(duplicate_column(column))
        } else {
            Ok(Schema { tables: schema.tables, columns: schema.columns.insert((table, column)) })
        },
        Statement::Other => Ok(schema),
    }
}

/// A script as the database sees it: its statements one after another,
/// up to the first that fails.  Yields the schema that is left and the
/// failure, if there was one.
pub open spec fn applied(schema: Schema, statements: Seq<Statement>, from: int) -> (
    Schema,
    Option<Seq<char>>,
)
    decreases statements.len() - from,
{
    if from < 0 || from >= statements.len() {
        (schema, None)
    } else {
        match executed(schema, statements[from]) {
            Ok(next) => applied(next, statements, from + 1),
            Err(message) => (schema, Some(message)),
        }
    }
}

/// A script of the ledger together with its statements.
pub struct Script {
    pub migration: MigrationView,
    pub statements: Seq<Statement>,
}

/// What the database says when a table is missing.
pub open spec fn missing_table(table: Seq<char>) -> Seq<char> {
    "no such table: "@ + table
}

/// A script is what the ledger says of it: one that adds columns adds
/// exactly the columns it names, in order, to tables whose absence is
/// not mistaken for a column that is there already, and does nothing
/// else; any other adds no column.
pub open spec fn faithful(script: Script) -> bool {
    if script.migration.additive.len() > 0 {
        &&& script.statements.len() == script.migration.additive.len()
        &&& forall|i: int|
            0 <= i < script.statements.len() ==> (#[trigger] script.statements[i] matches Statement::AddColumn {
                table,
                column,
            } && column == script.migration.additive[i] && !tolerated(
                script.migration,
                missing_table(table),
            ))
    } else {
        forall|i: int|
            0 <= i < script.statements.len() ==> !(#[trigger] script.statements[i] is AddColumn)
    }
}

/// One script run against a schema: the schema it leaves, unless it
/// fails with something that is not passed over.
pub open spec fn migrated(schema: Schema, script: Script) -> Option<Schema> {
    let (left, failure) = applied(schema, script.statements, 0);
    match failure {
        None => Some(left),
        Some(message) => if tolerated(script.migration, message) {
            Some(left)
        } else {
            None
        },
    }
}

/// The ledger run against a schema from script `from` on.
pub open spec fn migrated_all(schema: Schema, scripts: Seq<Script>, from: int) -> Option<Schema>
    decreases scripts.len() - from,
{
    if from < 0 || from >= scripts.len() {
        Some(schema)
    } else {
        match migrated(schema, scripts[from]) {
            Some(next) => migrated_all(next, scripts, from + 1),
            None => None,
        }
    }
}

/// Everything in `a` is in `b`.
pub open spec fn within(a: Schema, b: Schema) -> bool {
    &&& forall|t: Seq<char>| a.tables.contains(t) ==> b.tables.contains(t)
    &&& forall|c: (Seq<char>, Seq<char>)| a.columns.contains(c) ==> b.columns.contains(c)
}

proof fn lemma_applied_grows(schema: Schema, statements: Seq<Statement>, from: int)
    ensures
        within(schema, applied(schema, statements, from).0),
    decreases statements.len() - from,
{
    if 0 <= from < statements.len() {
        match executed(schema, statements[from]) {
            Ok(next) => {
                lemma_applied_grows(next, statements, from + 1);
            },
            Err(_) => {},
        }
    }
}

/// After a script has run, the table of its first statement exists, and
/// so does the column, if the statement adds one.
proof fn lemma_first_statement_holds(schema: Schema, script: Script)
    requires
        faithful(script),
        migrated(schema, script) is Some,
        script.statements.len() > 0,
    ensures
        script.statements[0] matches Statement::AddColumn { table, column } ==> migrated(
            schema,
            script,
        )->0.tables.contains(table) && migrated(schema, script)->0.columns.contains(
            (table, column),
        ),
        script.statements[0] matches Statement::CreateTable { table, columns } ==> migrated(
            schema,
            script,
        )->0.tables.contains(table),
{
    match executed(schema, script.statements[0]) {
        Ok(next) => {
            lemma_applied_grows(next, script.statements, 1);
        },
        Err(message) => {},
    }
}

/// A script that has run changes nothing when it runs again, whatever
/// else has been added to the schema since.
proof fn lemma_script_settles(schema: Schema, script: Script, later: Schema)
    requires
        faithful(script),
        migrated(schema, script) is Some,
        within(migrated(schema, script)->0, later),
    ensures
        migrated(later, script) == Some(later),
{
    if script.statements.len() > 0 {
        lemma_first_statement_holds(schema, script);
    }
    if script.migration.additive.len() > 0 {
        match script.statements[0] {
            Statement::AddColumn { table, column } => {
                let message = duplicate_column(column);
                assert(executed(later, script.statements[0]) == Err::<Schema, Seq<char>>(message));
                assert(matches_at(message, 0, message)) by {
                    assert(message.subrange(0, message.len() as int) =~= message);
                }
                assert(occurs_in(duplicate_column(script.migration.additive[0]), message));
            },
            _ => {},
        }
    } else {
        lemma_idle_statements(schema, script, later, 0);
    }
}

/// Statements that create tables which exist, or touch nothing, leave a
/// schema as it is.
proof fn lemma_idle_statements(schema: Schema, script: Script, later: Schema, from: int)
    requires
        faithful(script),
        script.migration.additive.len() == 0,
        migrated(schema, script) is Some,
        within(migrated(schema, script)->0, later),
        0 <= from <= script.statements.len(),
    ensures
        applied(later, script.statements, from) == (later, None::<Seq<char>>),
    decreases script.statements.len() - from,
{
    if from < script.statements.len() {
        match script.statements[from] {
            Statement::CreateTable { table, columns } => {
                lemma_created_table_exists(schema, script.statements, 0, from);
            },
            Statement::AddColumn { .. } => {},
            Statement::Other => {},
        }
        lemma_idle_statements(schema, script, later, from + 1);
    }
}

/// A table that a script without failing statements creates exists once
/// the script has run.
proof fn lemma_created_table_exists(
    schema: Schema,
    statements: Seq<Statement>,
    from: int,
    at: int,
)
    requires
        0 <= from <= at < statements.len(),
        forall|i: int| 0 <= i < statements.len() ==> !(#[trigger] statements[i] is AddColumn),
        statements[at] is CreateTable,
    ensures
        applied(schema, statements, from).1 is None,
        applied(schema, statements, from).0.tables.contains(statements[at]->CreateTable_table),
    decreases statements.len() - from,
{
    assert(!(statements[from] is AddColumn));
    let next = executed(schema, statements[from])->Ok_0;
    if from == at {
        lemma_never_fails(next, statements, from + 1);
        lemma_applied_grows(next, statements, from + 1);
    } else {
        lemma_created_table_exists(next, statements, from + 1, at);
    }
}

proof fn lemma_never_fails(schema: Schema, statements: Seq<Statement>, from: int)
    requires
        0 <= from <= statements.len(),
        forall|i: int| 0 <= i < statements.len() ==> !(#[trigger] statements[i] is AddColumn),
    ensures
        applied(schema, statements, from).1 is None,
    decreases statements.len() - from,
{
    if from < statements.len() {
        assert(!(statements[from] is AddColumn));
        lemma_never_fails(executed(schema, statements[from])->Ok_0, statements, from + 1);
    }
}

proof fn lemma_migrated_grows(schema: Schema, script: Script)
    requires
        migrated(schema, script) is Some,
    ensures
        within(schema, migrated(schema, script)->0),
{
    lemma_applied_grows(schema, script.statements, 0);
}

/// A run of scripts takes nothing away from a schema.
pub proof fn lemma_migrated_all_grows(schema: Schema, scripts: Seq<Script>, from: int)
    requires
        migrated_all(schema, scripts, from) is Some,
    ensures
        within(schema, migrated_all(schema, scripts, from)->0),
    decreases scripts.len() - from,
{
    if 0 <= from < scripts.len() {
        lemma_migrated_grows(schema, scripts[from]);
        lemma_migrated_all_grows(migrated(schema, scripts[from])->0, scripts, from + 1);
    }
}

proof fn lemma_ledger_settles(schema: Schema, scripts: Seq<Script>, from: int, later: Schema)
    requires
        0 <= from <= scripts.len(),
        forall|i: int| 0 <= i < scripts.len() ==> faithful(#[trigger] scripts[i]),
        migrated_all(schema, scripts, from) is Some,
        within(migrated_all(schema, scripts, from)->0, later),
    ensures
        migrated_all(later, scripts, from) == Some(later),
    decreases scripts.len() - from,
{
    if from < scripts.len() {
        let next = migrated(schema, scripts[from])->0;
        lemma_migrated_all_grows(next, scripts, from + 1);
        lemma_script_settles(schema, scripts[from], later);
        lemma_ledger_settles(next, scripts, from + 1, later);
    }
}

/// Running the ledger is idempotent: against the schema that a run has
/// left, a second run succeeds and leaves that same schema.
pub proof fn lemma_migrations_are_idempotent(schema: Schema, scripts: Seq<Script>)
    requires
        forall|i: int| 0 <= i < scripts.len() ==> faithful(#[trigger] scripts[i]),
        migrated_all(schema, scripts, 0) is Some,
    ensures
        migrated_all(migrated_all(schema, scripts, 0)->0, scripts, 0) == migrated_all(
            schema,
            scripts,
            0,
        ),
{
    lemma_ledger_settles(schema, scripts, 0, migrated_all(schema, scripts, 0)->0);
}

} // verus!
