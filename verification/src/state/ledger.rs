//! The scripts of the ledger, statement by statement.
//!
//! Each script is written down once, as the alterations it makes.  The
//! SQL that is handed to the database is the text of those alterations,
//! and what the alterations do to a schema is what the schema model says
//! of them; so the ledger that is proved to settle is the ledger that is
//! run.

use vstd::prelude::*;
use vstd::string::*;
use crate::state::migration::{
    applied, duplicate_column, executed, faithful, ledger_of, lemma_migrated_all_grows,
    lemma_migrations_are_idempotent, migrated, migrated_all, missing_table, tolerated, Schema,
    Script, Statement,
};
use crate::text::{join, join2, join3, join5, joined, matches_at, occurs_in};

verus! {

/// A column: its name, and its type with whatever constrains it.
#[derive(Clone, Debug, PartialEq, Eq)]
pub struct Column {
    pub name: String,
    pub definition: String,
}

pub struct ColumnView {
    pub name: Seq<char>,
    pub definition: Seq<char>,
}

impl View for Column {
    type V = ColumnView;

    open spec fn view(&self) -> ColumnView {
        ColumnView { name: self.name@, definition: self.definition@ }
    }
}

impl DeepView for Column {
    type V = ColumnView;

    open spec fn deep_view(&self) -> ColumnView {
        self@
    }
}

/// One statement of a script.
#[derive(Clone, Debug, PartialEq, Eq)]
pub enum Alteration {
    /// Creates the table unless it exists; `constraint` is what the
    /// table's definition holds after its columns, if anything.
    CreateTable { table: String, columns: Vec<Column>, constraint: Option<String> },
    /// Adds a column to a table.
    AddColumn { table: String, column: Column },
    /// A statement that changes neither tables nor columns, as it is
    /// written.
    Other { sql: String },
}

pub enum AlterationView {
    CreateTable { table: Seq<char>, columns: Seq<ColumnView>, constraint: Option<Seq<char>> },
    AddColumn { table: Seq<char>, column: ColumnView },
    Other { sql: Seq<char> },
}

impl View for Alteration {
    type V = AlterationView;

    open spec fn view(&self) -> AlterationView {
        match *self {
            Alteration::CreateTable { table, columns, constraint } => AlterationView::CreateTable {
                table: table@,
                columns: columns.deep_view(),
                constraint: constraint.deep_view(),
            },
            Alteration::AddColumn { table, column } => AlterationView::AddColumn {
                table: table@,
                column: column@,
            },
            Alteration::Other { sql } => AlterationView::Other { sql: sql@ },
        }
    }
}

impl DeepView for Alteration {
    type V = AlterationView;

    open spec fn deep_view(&self) -> AlterationView {
        self@
    }
}

/// A column as SQL: its name, a space, its definition.
pub open spec fn column_text(column: ColumnView) -> Seq<char> {
    column.name + " "@ + column.definition
}

/// The first `n` columns as SQL.
pub open spec fn column_texts(columns: Seq<ColumnView>, n: int) -> Seq<Seq<char>>
    decreases n,
{
    if n <= 0 {
        Seq::empty()
    } else {
        column_texts(columns, n - 1).push(column_text(columns[n - 1]))
    }
}

/// An alteration as SQL.
pub open spec fn sql_of(alteration: AlterationView) -> Seq<char> {
    match alteration {
        AlterationView::CreateTable { table, columns, constraint } => "CREATE TABLE IF NOT EXISTS "@
            + table + " ("@ + joined(column_texts(columns, columns.len() as int), ", "@) + (
        match constraint {
            Some(text) => ", "@ + text,
            None => ""@,
        }) + ");"@,
        AlterationView::AddColumn { table, column } => "ALTER TABLE "@ + table + " ADD COLUMN "@
            + column_text(column) + ";"@,
        AlterationView::Other { sql } => sql,
    }
}

/// The first `n` alterations as SQL.
pub open spec fn sql_texts(alterations: Seq<AlterationView>, n: int) -> Seq<Seq<char>>
    decreases n,
{
    if n <= 0 {
        Seq::empty()
    } else {
        sql_texts(alterations, n - 1).push(sql_of(alterations[n - 1]))
    }
}

/// A script as SQL: its statements, one to a line.
pub open spec fn script_text(alterations: Seq<AlterationView>) -> Seq<char> {
    joined(sql_texts(alterations, alterations.len() as int), "\n"@)
}

/// The names of columns.
pub open spec fn names_of(columns: Seq<ColumnView>) -> Set<Seq<char>> {
    Set::new(|name: Seq<char>| exists|i: int| 0 <= i < columns.len() && columns[i].name == name)
}

/// What an alteration does, as the schema model sees it.
pub open spec fn statement_of(alteration: AlterationView) -> Statement {
    match alteration {
        AlterationView::CreateTable { table, columns, constraint } => Statement::CreateTable {
            table,
            columns: names_of(columns),
        },
        AlterationView::AddColumn { table, column } => Statement::AddColumn {
            table,
            column: column.name,
        },
        AlterationView::Other { sql } => Statement::Other,
    }
}

pub open spec fn col(name: Seq<char>, definition: Seq<char>) -> ColumnView {
    ColumnView { name, definition }
}

/// The table of microVMs.
pub open spec fn machines() -> Seq<char> {
    "virtual_machines"@
}

/// Adds a column to the table of microVMs.
pub open spec fn added(name: Seq<char>, definition: Seq<char>) -> AlterationView {
    AlterationView::AddColumn { table: machines(), column: col(name, definition) }
}

/// The first script: the table of microVMs.
pub open spec fn init_alterations() -> Seq<AlterationView> {
    seq![
        AlterationView::CreateTable {
            table: machines(),
            columns: seq![
                col("id"@, "VARCHAR(255) PRIMARY KEY"@),
                col("name"@, "VARCHAR(255) UNIQUE NOT NULL"@),
                col("status"@, "VARCHAR(255) NOT NULL"@),
                col("vcpu"@, "INT NOT NULL"@),
                col("memory"@, "INT NOT NULL"@),
                col("distro"@, "VARCHAR(255) NOT NULL"@),
                col("pid"@, "INT"@),
                col("mac_address"@, "VARCHAR(255) NOT NULL"@),
                col("bridge"@, "VARCHAR(255) NOT NULL"@),
                col("tap"@, "VARCHAR(255) NOT NULL"@),
                col("api_socket"@, "VARCHAR(255) UNIQUE NOT NULL"@),
                col("project_dir"@, "VARCHAR(255) UNIQUE"@),
                col("created_at"@, "TIMESTAMP DEFAULT CURRENT_TIMESTAMP"@),
                col("updated_at"@, "TIMESTAMP DEFAULT CURRENT_TIMESTAMP"@),
            ],
            constraint: None,
        },
    ]
}

/// The script that makes tap devices and MAC addresses unique.
pub open spec fn unique_alterations() -> Seq<AlterationView> {
    seq![
        AlterationView::Other {
            sql: "CREATE UNIQUE INDEX IF NOT EXISTS unique_mac_address ON virtual_machines (mac_address);"@,
        },
        AlterationView::Other {
            sql: "CREATE UNIQUE INDEX IF NOT EXISTS unique_tap ON virtual_machines (tap);"@,
        },
    ]
}

/// The last script: the table of drives.
pub open spec fn drives_alterations() -> Seq<AlterationView> {
    seq![
        AlterationView::CreateTable {
            table: "drives"@,
            columns: seq![
                col("id"@, "VARCHAR(255) PRIMARY KEY"@),
                col("name"@, "VARCHAR(255) UNIQUE NOT NULL"@),
                col("vm_id"@, "VARCHAR(255)"@),
                col("path_on_host"@, "VARCHAR(255) NOT NULL"@),
                col("is_root_device"@, "BOOLEAN NOT NULL DEFAULT 0"@),
                col("is_read_only"@, "BOOLEAN NOT NULL DEFAULT 0"@),
                col("size_in_gb"@, "INT"@),
                col("created_at"@, "TIMESTAMP DEFAULT CURRENT_TIMESTAMP"@),
                col("updated_at"@, "TIMESTAMP DEFAULT CURRENT_TIMESTAMP"@),
            ],
            constraint: Some(
                "FOREIGN KEY (vm_id) REFERENCES virtual_machines (id) ON DELETE SET NULL"@,
            ),
        },
    ]
}

/// The alterations of the script at position `k` of the ledger.
pub open spec fn alterations_at(k: int) -> Seq<AlterationView> {
    if k == 0 {
        init_alterations()
    } else if k == 1 {
        seq![added("ip_address"@, "VARCHAR(255)"@)]
    } else if k == 2 {
        seq![
            added("vmlinux"@, "VARCHAR(255)"@),
            added("rootfs"@, "VARCHAR(255)"@),
            added("bootargs"@, "VARCHAR(255)"@),
        ]
    } else if k == 3 {
        unique_alterations()
    } else if k == 4 {
        seq![added("ssh_keys"@, "TEXT"@)]
    } else if k == 5 {
        drives_alterations()
    } else {
        Seq::empty()
    }
}

/// The script at position `k` of the ledger, as the schema model sees it.
pub open spec fn script_at(k: int) -> Script {
    Script {
        migration: ledger_of()[k],
        statements: Seq::new(
            alterations_at(k).len(),
            |i: int| statement_of(alterations_at(k)[i]),
        ),
    }
}

/// The ledger's scripts, oldest first, as the schema model sees them.
pub open spec fn ledger_scripts() -> Seq<Script> {
    Seq::new(ledger_of().len(), |k: int| script_at(k))
}

fn column(name: &str, definition: &str) -> (r: Column)
    ensures
        r@ == col(name@, definition@),
{
    Column { name: String::from_str(name), definition: String::from_str(definition) }
}

fn addition(name: &str, definition: &str) -> (r: Alteration)
    ensures
        r@ == added(name@, definition@),
{
    Alteration::AddColumn {
        table: String::from_str("virtual_machines"),
        column: column(name, definition),
    }
}

fn other(sql: &str) -> (r: Alteration)
    ensures
        r@ == (AlterationView::Other { sql: sql@ }),
{
    Alteration::Other { sql: String::from_str(sql) }
}

fn init() -> (r: Vec<Alteration>)
    ensures
        r.deep_view() == init_alterations(),
{
    let mut columns: Vec<Column> = Vec::new();
    columns.push(column("id", "VARCHAR(255) PRIMARY KEY"));
    columns.push(column("name", "VARCHAR(255) UNIQUE NOT NULL"));
    columns.push(column("status", "VARCHAR(255) NOT NULL"));
    columns.push(column("vcpu", "INT NOT NULL"));
    columns.push(column("memory", "INT NOT NULL"));
    columns.push(column("distro", "VARCHAR(255) NOT NULL"));
    columns.push(column("pid", "INT"));
    columns.push(column("mac_address", "VARCHAR(255) NOT NULL"));
    columns.push(column("bridge", "VARCHAR(255) NOT NULL"));
    columns.push(column("tap", "VARCHAR(255) NOT NULL"));
    columns.push(column("api_socket", "VARCHAR(255) UNIQUE NOT NULL"));
    columns.push(column("project_dir", "VARCHAR(255) UNIQUE"));
    columns.push(column("created_at", "TIMESTAMP DEFAULT CURRENT_TIMESTAMP"));
    columns.push(column("updated_at", "TIMESTAMP DEFAULT CURRENT_TIMESTAMP"));
    assert(columns.deep_view() =~= init_alterations()[0]->CreateTable_columns);
    let mut script: Vec<Alteration> = Vec::new();
    script.push(
        Alteration::CreateTable {
            table: String::from_str("virtual_machines"),
            columns,
            constraint: None,
        },
    );
    assert(script.deep_view() =~= init_alterations());
    script
}

fn drives() -> (r: Vec<Alteration>)
    ensures
        r.deep_view() == drives_alterations(),
{
    let mut columns: Vec<Column> = Vec::new();
    columns.push(column("id", "VARCHAR(255) PRIMARY KEY"));
    columns.push(column("name", "VARCHAR(255) UNIQUE NOT NULL"));
    columns.push(column("vm_id", "VARCHAR(255)"));
    columns.push(column("path_on_host", "VARCHAR(255) NOT NULL"));
    columns.push(column("is_root_device", "BOOLEAN NOT NULL DEFAULT 0"));
    columns.push(column("is_read_only", "BOOLEAN NOT NULL DEFAULT 0"));
    columns.push(column("size_in_gb", "INT"));
    columns.push(column("created_at", "TIMESTAMP DEFAULT CURRENT_TIMESTAMP"));
    columns.push(column("updated_at", "TIMESTAMP DEFAULT CURRENT_TIMESTAMP"));
    assert(columns.deep_view() =~= drives_alterations()[0]->CreateTable_columns);
    let mut script: Vec<Alteration> = Vec::new();
    script.push(
        Alteration::CreateTable {
            table: String::from_str("drives"),
            columns,
            constraint: Some(
                String::from_str(
                    "FOREIGN KEY (vm_id) REFERENCES virtual_machines (id) ON DELETE SET NULL",
                ),
            ),
        },
    );
    assert(script.deep_view() =~= drives_alterations());
    script
}

/// The alterations of the script at position `k` of the ledger; none
/// past its end.
pub fn alterations(k: usize) -> (r: Vec<Alteration>)
    ensures
        r.deep_view() == alterations_at(k as int),
{
    let mut script: Vec<Alteration> = Vec::new();
    if k == 0 {
        return init();
    } else if k == 1 {
        script.push(addition("ip_address", "VARCHAR(255)"));
    } else if k == 2 {
        script.push(addition("vmlinux", "VARCHAR(255)"));
        script.push(addition("rootfs", "VARCHAR(255)"));
        script.push(addition("bootargs", "VARCHAR(255)"));
    } else if k == 3 {
        script.push(
            other(
                "CREATE UNIQUE INDEX IF NOT EXISTS unique_mac_address ON virtual_machines (mac_address);",
            ),
        );
        script.push(
            other("CREATE UNIQUE INDEX IF NOT EXISTS unique_tap ON virtual_machines (tap);"),
        );
    } else if k == 4 {
        script.push(addition("ssh_keys", "TEXT"));
    } else if k == 5 {
        return drives();
    }
    assert(script.deep_view() =~= alterations_at(k as int));
    script
}

/// An alteration as SQL.
pub fn statement_sql(alteration: &Alteration) -> (r: String)
    ensures
        r@ == sql_of(alteration@),
{
    match alteration {
        Alteration::CreateTable { table, columns, constraint } => {
            let mut texts: Vec<String> = Vec::new();
            let mut i: usize = 0;
            assert(texts.deep_view() =~= column_texts(columns.deep_view(), 0));
            while i < columns.len()
                invariant
                    i <= columns.len(),
                    texts.deep_view() == column_texts(columns.deep_view(), i as int),
                decreases columns.len() - i,
            {
                assert(columns.deep_view()[i as int] == columns[i as int]@);
                let ghost before = texts.deep_view();
                let text = join3(columns[i].name.as_str(), " ", columns[i].definition.as_str());
                texts.push(text);
                assert(texts.deep_view() =~= before.push(column_text(columns[i as int]@)));
                i += 1;
            }
            let body = join(&texts, ", ");
            let tail = match constraint {
                Some(text) => join2(", ", text.as_str()),
                None => String::from_str(""),
            };
            let head = join5(
                "CREATE TABLE IF NOT EXISTS ",
                table.as_str(),
                " (",
                body.as_str(),
                tail.as_str(),
            );
            join2(head.as_str(), ");")
        },
        Alteration::AddColumn { table, column } => {
            let text = join3(column.name.as_str(), " ", column.definition.as_str());
            join5("ALTER TABLE ", table.as_str(), " ADD COLUMN ", text.as_str(), ";")
        },
        Alteration::Other { sql } => sql.clone(),
    }
}

/// The SQL of the script at position `k` of the ledger: its statements,
/// one to a line.
pub fn script_sql(k: usize) -> (r: String)
    ensures
        r@ == script_text(alterations_at(k as int)),
{
    let script = alterations(k);
    let mut texts: Vec<String> = Vec::new();
    let mut i: usize = 0;
    assert(texts.deep_view() =~= sql_texts(script.deep_view(), 0));
    while i < script.len()
        invariant
            i <= script.len(),
            texts.deep_view() == sql_texts(script.deep_view(), i as int),
        decreases script.len() - i,
    {
        assert(script.deep_view()[i as int] == script[i as int]@);
        let ghost before = texts.deep_view();
        let text = statement_sql(&script[i]);
        texts.push(text);
        assert(texts.deep_view() =~= before.push(sql_of(script[i as int]@)));
        i += 1;
    }
    join(&texts, "\n")
}

/// A text occurs in itself.
proof fn lemma_occurs_in_itself(text: Seq<char>)
    ensures
        occurs_in(text, text),
{
    assert(text.subrange(0, text.len() as int) =~= text);
    assert(matches_at(text, 0, text));
}

/// That the table of microVMs is missing is never mistaken for a column
/// that is there already.
proof fn lemma_missing_table_is_no_duplicate(column: Seq<char>)
    ensures
        !occurs_in(duplicate_column(column), missing_table(machines())),
{
    reveal_strlit("no such table: ");
    reveal_strlit("virtual_machines");
    reveal_strlit("duplicate column name: ");
    let hay = missing_table(machines());
    let needle = duplicate_column(column);
    assert(needle[0] == 'd');
    assert(hay.len() == 31);
    assert forall|i: int| !matches_at(hay, i, needle) by {
        if 0 <= i && i + needle.len() <= hay.len() {
            assert(hay.subrange(i, i + needle.len())[0] == hay[i]);
            assert(hay[i] != 'd');
        }
    }
}

/// Every script of the ledger is what the ledger says of it.
pub proof fn lemma_ledger_is_faithful(k: int)
    requires
        0 <= k < ledger_of().len(),
    ensures
        faithful(script_at(k)),
{
    let script = script_at(k);
    if k == 1 || k == 2 || k == 4 {
        assert forall|i: int| 0 <= i < script.statements.len() implies (
        #[trigger] script.statements[i] matches Statement::AddColumn { table, column } && column
            == script.migration.additive[i] && !tolerated(script.migration, missing_table(table))) by {
            assert forall|j: int| 0 <= j < script.migration.additive.len() implies !occurs_in(
                duplicate_column(#[trigger] script.migration.additive[j]),
                missing_table(machines()),
            ) by {
                lemma_missing_table_is_no_duplicate(script.migration.additive[j]);
            }
        }
    }
}

/// A script that adds columns to tables that exist runs: each column is
/// added, or is there already, which is passed over.
proof fn lemma_additions_run(schema: Schema, script: Script, from: int)
    requires
        faithful(script),
        script.migration.additive.len() > 0,
        0 <= from <= script.statements.len(),
        forall|i: int|
            0 <= i < script.statements.len() ==> schema.tables.contains(
                (#[trigger] script.statements[i])->AddColumn_table,
            ),
    ensures
        applied(schema, script.statements, from).1 matches Some(message) ==> tolerated(
            script.migration,
            message,
        ),
    decreases script.statements.len() - from,
{
    if from < script.statements.len() {
        let statement = script.statements[from];
        assert(statement is AddColumn);
        assert(schema.tables.contains(statement->AddColumn_table));
        match executed(schema, statement) {
            Ok(next) => {
                lemma_additions_run(next, script, from + 1);
            },
            Err(message) => {
                assert(message == duplicate_column(script.migration.additive[from]));
                lemma_occurs_in_itself(message);
            },
        }
    }
}

/// Statements that add no column never fail.
proof fn lemma_others_run(schema: Schema, statements: Seq<Statement>, from: int)
    requires
        0 <= from <= statements.len(),
        forall|i: int| 0 <= i < statements.len() ==> !(#[trigger] statements[i] is AddColumn),
    ensures
        applied(schema, statements, from).1 is None,
        forall|t: Seq<char>|
            schema.tables.contains(t) ==> applied(schema, statements, from).0.tables.contains(t),
        forall|i: int|
            from <= i < statements.len() && (#[trigger] statements[i]) is CreateTable ==> applied(
                schema,
                statements,
                from,
            ).0.tables.contains(statements[i]->CreateTable_table),
    decreases statements.len() - from,
{
    if from < statements.len() {
        assert(!(statements[from] is AddColumn));
        let next = executed(schema, statements[from])->Ok_0;
        lemma_others_run(next, statements, from + 1);
        let left = applied(schema, statements, from).0;
        assert(left == applied(next, statements, from + 1).0);
        assert forall|t: Seq<char>| schema.tables.contains(t) implies left.tables.contains(t) by {
            assert(next.tables.contains(t));
        }
        assert forall|i: int|
            from <= i < statements.len() && (#[trigger] statements[i]) is CreateTable implies left.tables.contains(
            statements[i]->CreateTable_table,
        ) by {
            if i == from {
                assert(next.tables.contains(statements[i]->CreateTable_table));
            }
        }
    }
}

/// Adding columns leaves the tables as they are.
proof fn lemma_additions_keep_tables(schema: Schema, statements: Seq<Statement>, from: int)
    requires
        0 <= from <= statements.len(),
        forall|i: int| 0 <= i < statements.len() ==> (#[trigger] statements[i]) is AddColumn,
    ensures
        applied(schema, statements, from).0.tables == schema.tables,
    decreases statements.len() - from,
{
    if from < statements.len() {
        assert(statements[from] is AddColumn);
        match executed(schema, statements[from]) {
            Ok(next) => {
                lemma_additions_keep_tables(next, statements, from + 1);
            },
            Err(_) => {},
        }
    }
}

/// From script `from` on, the ledger runs against every schema that has
/// the table of microVMs.
proof fn lemma_ledger_runs_from(schema: Schema, from: int)
    requires
        1 <= from <= ledger_of().len(),
        schema.tables.contains(machines()),
    ensures
        migrated_all(schema, ledger_scripts(), from) is Some,
        from <= 5 ==> migrated_all(schema, ledger_scripts(), from)->0.tables.contains("drives"@),
    decreases ledger_of().len() - from,
{
    if from < ledger_of().len() {
        let script = ledger_scripts()[from];
        assert(script == script_at(from));
        lemma_ledger_is_faithful(from);
        if from == 1 || from == 2 || from == 4 {
            lemma_additions_run(schema, script, 0);
            lemma_additions_keep_tables(schema, script.statements, 0);
        } else {
            lemma_others_run(schema, script.statements, 0);
        }
        let next = migrated(schema, script)->0;
        lemma_ledger_runs_from(next, from + 1);
        if from == 5 {
            assert(script.statements[0] is CreateTable);
            assert(next.tables.contains("drives"@));
            lemma_migrated_all_grows(next, ledger_scripts(), from + 1);
        }
    }
}

/// The ledger runs against every schema, and running it is idempotent:
/// whatever the database holds when the inventory is opened, every
/// script is applied or passed over, the tables of microVMs and of
/// drives are there afterwards, and opening the inventory a second time
/// leaves the schema exactly as the first time left it.
pub proof fn lemma_ledger_is_idempotent(schema: Schema)
    ensures
        migrated_all(schema, ledger_scripts(), 0) is Some,
        migrated_all(migrated_all(schema, ledger_scripts(), 0)->0, ledger_scripts(), 0)
            == migrated_all(schema, ledger_scripts(), 0),
        migrated_all(schema, ledger_scripts(), 0)->0.tables.contains(machines()),
        migrated_all(schema, ledger_scripts(), 0)->0.tables.contains("drives"@),
{
    let first = ledger_scripts()[0];
    assert(first == script_at(0));
    lemma_others_run(schema, first.statements, 0);
    assert(first.statements[0] is CreateTable);
    lemma_ledger_runs_from(migrated(schema, first)->0, 1);
    lemma_migrated_all_grows(migrated(schema, first)->0, ledger_scripts(), 1);
    assert forall|k: int| 0 <= k < ledger_scripts().len() implies faithful(
        #[trigger] ledger_scripts()[k],
    ) by {
        lemma_ledger_is_faithful(k);
    }
    lemma_migrations_are_idempotent(schema, ledger_scripts());
}

/// The table of microVMs has the column.
pub open spec fn has(schema: Schema, column: Seq<char>) -> bool {
    schema.columns.contains((machines(), column))
}

/// The columns that the ledger adds in one script are there together or
/// not at all.
pub open spec fn whole(schema: Schema) -> bool {
    has(schema, "vmlinux"@) == has(schema, "rootfs"@) && has(schema, "rootfs"@) == has(
        schema,
        "bootargs"@,
    )
}

/// None of the columns that are added later is among those that the
/// table of microVMs is created with.
proof fn lemma_created_without_later_columns()
    ensures
        !names_of(init_alterations()[0]->CreateTable_columns).contains("vmlinux"@),
        !names_of(init_alterations()[0]->CreateTable_columns).contains("rootfs"@),
        !names_of(init_alterations()[0]->CreateTable_columns).contains("bootargs"@),
{
    reveal_strlit("vmlinux");
    reveal_strlit("rootfs");
    reveal_strlit("bootargs");
    reveal_strlit("id");
    reveal_strlit("name");
    reveal_strlit("status");
    reveal_strlit("vcpu");
    reveal_strlit("memory");
    reveal_strlit("distro");
    reveal_strlit("pid");
    reveal_strlit("mac_address");
    reveal_strlit("bridge");
    reveal_strlit("tap");
    reveal_strlit("api_socket");
    reveal_strlit("project_dir");
    reveal_strlit("created_at");
    reveal_strlit("updated_at");
    let columns = init_alterations()[0]->CreateTable_columns;
    assert forall|i: int| 0 <= i < columns.len() implies {
        let name = (#[trigger] columns[i]).name;
        name.len() != 7 && name.len() != 8 && (name.len() == 6 ==> name[0] != 'r')
    } by {
        if i == 0 {
        } else if i == 1 {
        } else if i == 2 {
        } else if i == 3 {
        } else if i == 4 {
        } else if i == 5 {
        } else if i == 6 {
        } else if i == 7 {
        } else if i == 8 {
        } else if i == 9 {
        } else if i == 10 {
        } else if i == 11 {
        } else if i == 12 {
        } else {
        }
    }
    assert("vmlinux"@.len() == 7);
    assert("bootargs"@.len() == 8);
    assert("rootfs"@.len() == 6 && "rootfs"@[0] == 'r');
}

/// The later columns have names of their own.
proof fn lemma_later_columns_differ()
    ensures
        "ip_address"@ != "vmlinux"@,
        "ip_address"@ != "rootfs"@,
        "ip_address"@ != "bootargs"@,
        "vmlinux"@ != "rootfs"@,
        "vmlinux"@ != "bootargs"@,
        "rootfs"@ != "bootargs"@,
{
    reveal_strlit("ip_address");
    reveal_strlit("vmlinux");
    reveal_strlit("rootfs");
    reveal_strlit("bootargs");
    assert("ip_address"@.len() == 10);
    assert("vmlinux"@.len() == 7);
    assert("rootfs"@.len() == 6);
    assert("bootargs"@.len() == 8);
}

/// The first two scripts leave a schema whole, and the third makes the
/// columns it adds be there, all three.
proof fn lemma_first_scripts(schema: Schema)
    requires
        whole(schema),
    ensures
        migrated(schema, script_at(0)) matches Some(a) && migrated(a, script_at(1)) matches Some(b)
            && migrated(b, script_at(2)) matches Some(c) && has(b, "ip_address"@) && has(
            c,
            "ip_address"@,
        ) && has(c, "vmlinux"@) && has(c, "rootfs"@) && has(c, "bootargs"@) && c.tables.contains(
            machines(),
        ),
{
    reveal_with_fuel(applied, 5);
    lemma_created_without_later_columns();
    lemma_later_columns_differ();
    let s0 = script_at(0);
    let s1 = script_at(1);
    let s2 = script_at(2);
    assert(s0.statements.len() == 1);
    assert(s0.statements[0] == statement_of(init_alterations()[0]));
    let a = migrated(schema, s0)->0;
    assert(a.tables.contains(machines()));
    assert(whole(a));
    assert(s1.statements.len() == 1);
    assert(s1.statements[0] == (Statement::AddColumn {
        table: machines(),
        column: "ip_address"@,
    }));
    lemma_occurs_in_itself(duplicate_column("ip_address"@));
    assert(s1.migration.additive[0] == "ip_address"@);
    let b = migrated(a, s1)->0;
    assert(has(b, "ip_address"@));
    assert(whole(b));
    assert(b.tables.contains(machines()));
    assert(s2.statements.len() == 3);
    assert(s2.statements[0] == (Statement::AddColumn { table: machines(), column: "vmlinux"@ }));
    assert(s2.statements[1] == (Statement::AddColumn { table: machines(), column: "rootfs"@ }));
    assert(s2.statements[2] == (Statement::AddColumn { table: machines(), column: "bootargs"@ }));
    lemma_occurs_in_itself(duplicate_column("vmlinux"@));
    assert(s2.migration.additive[0] == "vmlinux"@);
}

/// Brought up to date, the schema has everything that the inventory
/// reads and writes: started from a database whose later columns are
/// there together or not at all, as every database is that the ledger
/// alone has altered, the run leaves the tables of microVMs and of
/// drives, and the columns `ip_address`, `vmlinux`, `rootfs`, `bootargs`
/// and `ssh_keys`.
pub proof fn lemma_ledger_brings_the_schema_up(schema: Schema)
    requires
        whole(schema),
    ensures
        migrated_all(schema, ledger_scripts(), 0) matches Some(after) && after.tables.contains(
            machines(),
        ) && after.tables.contains("drives"@) && has(after, "ip_address"@) && has(
            after,
            "vmlinux"@,
        ) && has(after, "rootfs"@) && has(after, "bootargs"@) && has(after, "ssh_keys"@),
{
    lemma_ledger_is_idempotent(schema);
    lemma_first_scripts(schema);
    let scripts = ledger_scripts();
    assert(scripts[0] == script_at(0));
    assert(scripts[1] == script_at(1));
    assert(scripts[2] == script_at(2));
    assert(scripts[3] == script_at(3));
    assert(scripts[4] == script_at(4));
    let a = migrated(schema, script_at(0))->0;
    let b = migrated(a, script_at(1))->0;
    let c = migrated(b, script_at(2))->0;
    assert(migrated_all(schema, scripts, 0) == migrated_all(c, scripts, 3)) by {
        reveal_with_fuel(migrated_all, 4);
    }
    lemma_ledger_runs_from(c, 3);
    let d = migrated(c, script_at(3))->0;
    assert(migrated_all(c, scripts, 3) == migrated_all(d, scripts, 4)) by {
        reveal_with_fuel(migrated_all, 2);
    }
    lemma_migrated_all_grows(c, scripts, 3);
    lemma_others_run(c, script_at(3).statements, 0);
    lemma_ledger_runs_from(d, 4);
    let e = migrated(d, script_at(4))->0;
    assert(has(e, "ssh_keys"@)) by {
        reveal_with_fuel(applied, 3);
        assert(script_at(4).statements.len() == 1);
        assert(script_at(4).statements[0] == (Statement::AddColumn {
            table: machines(),
            column: "ssh_keys"@,
        }));
    }
    assert(migrated_all(d, scripts, 4) == migrated_all(e, scripts, 5)) by {
        reveal_with_fuel(migrated_all, 2);
    }
    lemma_migrated_all_grows(e, scripts, 5);
}

} // verus!
