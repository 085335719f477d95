//! Setting up the store: the tables, the index on creation dates, and the
//! checkpoint column that later versions added to the records.

use vstd::prelude::*;

use crate::statement::{params_view, plain_statement, statements_view, stmt, SqlParam, SqlValue, Statement, StatementView};

verus! {

pub const RECORD_TABLE_SQL: &'static str = "CREATE TABLE IF NOT EXISTS records (\n  id INTEGER PRIMARY KEY,\n  content TEXT,\n  create_date DATE\n)";

pub const IDX_RECORD_DATE: &'static str = "CREATE INDEX IF NOT EXISTS idx_record_create_date ON records (create_date)";

pub const COLUMN_COUNT_SQL: &'static str = "SELECT COUNT(*) FROM pragma_table_info(?) WHERE name = ?";

pub const CHECKED_TABLE: &'static str = "records";

pub const CHECKED_FIELD: &'static str = "checkpoint_date";

pub const ADD_CHECKPOINT_SQL: &'static str = "ALTER TABLE records ADD COLUMN checkpoint_date DE";

pub const FILL_CHECKPOINT_SQL: &'static str = "UPDATE records set checkpoint_date = create_date WHERE checkpoint_date is NULL";

pub const TASK_TABLE_SQL: &'static str = "CREATE TABLE IF NOT EXISTS tasks (\n          id INTEGER NOT NULL,\n          create_date DATE NOT NULL,\n          finished BOOLEAN NOT NULL,\n          PRIMARY KEY (id, create_date)\n        )";

/// The statements that add the checkpoint column, where it is missing.
pub open spec fn migration(exists: bool) -> Seq<StatementView> {
    if exists {
        seq![]
    } else {
        seq![stmt(ADD_CHECKPOINT_SQL@, seq![]), stmt(FILL_CHECKPOINT_SQL@, seq![])]
    }
}

/// Sets up the store; the steps run in this order: `create_check_db`,
/// `checkpoint_column_query`, `checkpoint_migration` on the answer that
/// `checkpoint_column_exists` reads from it, and `task_table`.
pub struct DbChecker;

impl DbChecker {
    /// The statements that create the records table and its index where missing.
    pub fn create_check_db() -> (res: Vec<Statement>)
        ensures
            statements_view(res@) == seq![
                stmt(RECORD_TABLE_SQL@, seq![]),
                stmt(IDX_RECORD_DATE@, seq![]),
            ],
    {
        let mut res: Vec<Statement> = Vec::new();
        res.push(plain_statement(RECORD_TABLE_SQL));
        res.push(plain_statement(IDX_RECORD_DATE));
        assert(statements_view(res@) =~= seq![
            stmt(RECORD_TABLE_SQL@, seq![]),
            stmt(IDX_RECORD_DATE@, seq![]),
        ]);
        res
    }

    /// The query that counts the checkpoint columns of the records table.
    pub fn checkpoint_column_query() -> (res: Statement)
        ensures
            res@ == stmt(
                COLUMN_COUNT_SQL@,
                seq![SqlParam::Text(CHECKED_TABLE@), SqlParam::Text(CHECKED_FIELD@)],
            ),
    {
        let mut params: Vec<SqlValue> = Vec::new();
        params.push(SqlValue::Text(String::from_str(CHECKED_TABLE)));
        params.push(SqlValue::Text(String::from_str(CHECKED_FIELD)));
        let res = Statement { sql: String::from_str(COLUMN_COUNT_SQL), params };
        assert(params_view(res.params@) =~= seq![
            SqlParam::Text(CHECKED_TABLE@),
            SqlParam::Text(CHECKED_FIELD@),
        ]);
        res
    }

    /// Whether the checkpoint column exists, from the count the query found;
    /// a failed query counts as a missing column.
    pub fn checkpoint_column_exists(count: Result<i64, String>) -> (res: bool)
        ensures
            res == (count matches Ok(v) && v > 0),
    {
        match count {
            Ok(v) => v > 0,
            Err(_) => false,
        }
    }

    /// The statements that add the checkpoint column and fill it with the
    /// creation dates; none where the column exists.
    pub fn checkpoint_migration(exists: bool) -> (res: Vec<Statement>)
        ensures
            statements_view(res@) == migration(exists),
    {
        let mut res: Vec<Statement> = Vec::new();
        if !exists {
            res.push(plain_statement(ADD_CHECKPOINT_SQL));
            res.push(plain_statement(FILL_CHECKPOINT_SQL));
        }
        assert(statements_view(res@) =~= migration(exists));
        res
    }

    /// The statement that creates the table of review tasks where missing.
    pub fn task_table() -> (res: Statement)
        ensures
            res@ == stmt(TASK_TABLE_SQL@, seq![]),
    {
        plain_statement(TASK_TABLE_SQL)
    }
}

} // verus!
