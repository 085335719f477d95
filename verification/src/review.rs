//! The review panel: the notes up for review today, to tick off, change,
//! delete or open.

use vstd::prelude::*;

use crate::data_management::{
    clock_reading, delete_record_stmts, review_queried, toggled, update_record_stmt,
    DataManagementType, DateError, General,
};
use crate::dates::CalDate;
use crate::links::{first_address_link, link_of, link_to_open, option_view};
use crate::replies::{empty_text_msg, empty_text_reply, RecordRes};
use crate::statement::{plain_statement, statements_view, stmt, Statement};

verus! {

/// The table of review tasks: whether the review of a note on a day is done.
pub const TASK_TABLE_SQL: &'static str = "CREATE TABLE IF NOT EXISTS tasks (\n  id INTEGER NOT NULL,\n  create_date DATE NOT NULL,\n  finished BOOLEAN NOT NULL,\n  PRIMARY KEY (id, create_date)\n)";

/// The review panel.
pub struct ReviewTracker {
    management: DataManagementType,
}

impl ReviewTracker {
    pub fn new() -> (res: Self) {
        ReviewTracker { management: DataManagementType::Simple(General::new()) }
    }

    /// The statement that creates the table of review tasks where it is missing;
    /// it runs before the panel is used.
    pub fn task_table() -> (res: Statement)
        ensures
            res@ == stmt(TASK_TABLE_SQL@, seq![]),
    {
        plain_statement(TASK_TABLE_SQL)
    }

    /// The query for the notes up for review today.
    pub fn review_today(&self) -> (res: Result<Statement, DateError>)
        ensures
            exists|date: CalDate, secs: int, current: CalDate|
                clock_reading(date, secs) && current.valid() && #[trigger] review_queried(
                    res,
                    date,
                    secs,
                    current,
                ),
            res is Ok,
    {
        match self.management {
            DataManagementType::Simple(general) => general.query_today_review(),
        }
    }

    /// The statement that marks the review of note `id` today as done or not.
    pub fn toggle_task(&self, id: i32, finished: bool) -> (res: Result<Statement, DateError>)
        ensures
            exists|date: CalDate, secs: int|
                clock_reading(date, secs) && #[trigger] toggled(res, id as int, finished, date, secs),
            res is Ok,
    {
        match self.management {
            DataManagementType::Simple(general) => general.toggle_task(id, finished),
        }
    }

    /// The statements that delete note `id` and its review tasks, in one transaction.
    pub fn del_task(&self, id: i32) -> (res: Vec<Statement>)
        ensures
            statements_view(res@) == delete_record_stmts(id as int),
    {
        match self.management {
            DataManagementType::Simple(general) => general.del_record_and_task(id),
        }
    }

    /// The statement that gives note `id` the text `content`; an empty text is
    /// refused with its reply instead.
    pub fn update_task(&self, id: i32, content: &str) -> (res: Result<Statement, RecordRes>)
        ensures
            content@.len() == 0 ==> (res matches Err(r) && !r.success && r.msg@ == empty_text_msg()),
            content@.len() != 0 ==> (res matches Ok(s) && s@ == update_record_stmt(
                id as int,
                content@,
            )),
    {
        if content.is_empty() {
            return Err(empty_text_reply());
        }
        match self.management {
            DataManagementType::Simple(general) => Ok(general.update_record(id, content)),
        }
    }

    /// The address to open for a note, if its text holds one.
    pub fn open_link(&self, content: &str) -> (res: Option<String>)
        ensures
            option_view(res) == link_of(content@),
            option_view(res) == first_address_link(content@),
    {
        link_to_open(content)
    }
}

} // verus!
