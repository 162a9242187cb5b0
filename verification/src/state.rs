//! The persistent inventory: what it holds, how it is read and written,
//! and how its schema is brought up to date.

pub mod entity;
pub mod ledger;
pub mod migration;
pub mod repo;

use vstd::prelude::*;
use vstd::string::*;
use crate::state::ledger::{alterations_at, script_sql, script_text};
use crate::state::migration::{
    database_path, database_path_of, ledger, ledger_of, Migration, MigrationView,
};

verus! {

/// How the inventory is opened.
#[derive(Clone, Debug, PartialEq, Eq)]
pub struct PoolOptions {
    /// The database file.
    pub filename: String,
    /// The file is created where it is missing.
    pub create_if_missing: bool,
    /// The scripts to apply, in order, before anything else is done.
    pub migrations: Vec<Migration>,
    /// The SQL of each script, in the same order.
    pub scripts: Vec<String>,
    /// The journal mode to switch to once the schema is up to date.
    pub journal_mode: String,
}

pub struct PoolOptionsView {
    pub filename: Seq<char>,
    pub create_if_missing: bool,
    pub migrations: Seq<MigrationView>,
    pub scripts: Seq<Seq<char>>,
    pub journal_mode: Seq<char>,
}

impl View for PoolOptions {
    type V = PoolOptionsView;

    open spec fn view(&self) -> PoolOptionsView {
        PoolOptionsView {
            filename: self.filename@,
            create_if_missing: self.create_if_missing,
            migrations: self.migrations.deep_view(),
            scripts: self.scripts.deep_view(),
            journal_mode: self.journal_mode@,
        }
    }
}

/// The SQL of the first `n` scripts of the ledger.
pub open spec fn ledger_sql(n: int) -> Seq<Seq<char>>
    decreases n,
{
    if n <= 0 {
        Seq::empty()
    } else {
        ledger_sql(n - 1).push(script_text(alterations_at(n - 1)))
    }
}

/// The inventory lives in `firecracker_state.db` in the state directory,
/// is created where it is missing, has the whole ledger applied, each
/// script as the SQL of its alterations, and is journalled write-ahead.
pub open spec fn pool_options_of(config_dir: Seq<char>) -> PoolOptionsView {
    PoolOptionsView {
        filename: database_path_of(config_dir),
        create_if_missing: true,
        migrations: ledger_of(),
        scripts: ledger_sql(ledger_of().len() as int),
        journal_mode: "WAL"@,
    }
}

/// How the inventory in the state directory `config_dir` is opened.
pub fn create_connection_pool(config_dir: &str) -> (r: PoolOptions)
    ensures
        r@ == pool_options_of(config_dir@),
{
    let migrations = ledger();
    let mut scripts: Vec<String> = Vec::new();
    let mut k: usize = 0;
    assert(scripts.deep_view() =~= ledger_sql(0));
    while k < migrations.len()
        invariant
            k <= migrations.len(),
            migrations.deep_view() == ledger_of(),
            scripts.deep_view() == ledger_sql(k as int),
        decreases migrations.len() - k,
    {
        let ghost before = scripts.deep_view();
        scripts.push(script_sql(k));
        assert(scripts.deep_view() =~= before.push(script_text(alterations_at(k as int))));
        k += 1;
    }
    PoolOptions {
        filename: database_path(config_dir),
        create_if_missing: true,
        migrations,
        scripts,
        journal_mode: String::from_str("WAL"),
    }
}

} // verus!
