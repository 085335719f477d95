//! The list panel: all notes, newest first, to change, delete or open.

use vstd::prelude::*;

use crate::data_management::{
    clock_reading, delete_record_stmts, has_review_day, refresh_checkpoint_stmt, refreshed,
    review_day_of, update_record_stmt, DataManagementType, General, ALL_RECORDS_SQL,
};
use crate::dates::CalDate;
use crate::links::{first_address_link, link_of, link_to_open, option_view};
use crate::replies::{empty_text_msg, empty_text_reply, save_failed_msg, RecordRes};
use crate::statement::{statements_view, stmt, Statement};

verus! {

/// What the list panel gives for moving a checkpoint on one clock reading:
/// the statement on the review day, or a reply where there is no review day.
pub open spec fn checkpoint_moved(
    res: Result<Statement, RecordRes>,
    id: int,
    date: CalDate,
    secs: int,
) -> bool {
    &&& res is Ok <==> has_review_day(date, secs)
    &&& res matches Ok(s) ==> s@ == refresh_checkpoint_stmt(id, review_day_of(date, secs))
}

/// The list panel.
pub struct ListTracker {
    management: DataManagementType,
}

impl ListTracker {
    pub fn new() -> (res: Self) {
        ListTracker { management: DataManagementType::Simple(General::new()) }
    }

    /// The query for all notes, newest first.
    pub fn query_all_records(&self) -> (res: Statement)
        ensures
            res@ == stmt(ALL_RECORDS_SQL@, seq![]),
    {
        match self.management {
            DataManagementType::Simple(general) => general.query_all_records(),
        }
    }

    /// The statements that delete note `id` and its review tasks, in one transaction.
    pub fn del_record(&self, id: i32) -> (res: Vec<Statement>)
        ensures
            statements_view(res@) == delete_record_stmts(id as int),
    {
        match self.management {
            DataManagementType::Simple(general) => general.del_record_and_task(id),
        }
    }

    /// The statement that gives note `id` the text `content`; an empty text is
    /// refused with its reply instead.
    pub fn update_record(&self, id: i32, content: &str) -> (res: Result<Statement, RecordRes>)
        ensures
            content@.len() == 0 ==> (res matches Err(r) && !r.success && r.msg@ == empty_text_msg()),
            content@.len() != 0 ==> (res matches Ok(s) && s@ == update_record_stmt(
                id as int,
                content@,
            )),
    {
        if content.is_empty() {
            return Err(empty_text_reply());
        }
        match self.management {
            DataManagementType::Simple(general) => Ok(general.update_record(id, content)),
        }
    }

    /// The statement that moves the checkpoint of note `id` to today's review
    /// day, from the clock; where the clock gives no review day, the reply of
    /// a failed write.
    pub fn refresh_checkpoint(&self, id: i32) -> (res: Result<Statement, RecordRes>)
        ensures
            exists|date: CalDate, secs: int|
                clock_reading(date, secs) && #[trigger] checkpoint_moved(res, id as int, date, secs),
            res matches Err(r) ==> !r.success && r.msg@ == save_failed_msg(),
            res is Ok,
    {
        match self.management {
            DataManagementType::Simple(general) => {
                let out = general.refresh_checkpoint(id);
                let ghost (date, secs) = choose|date: CalDate, secs: int|
                    clock_reading(date, secs) && #[trigger] refreshed(out, id as int, date, secs);
                let res = match out {
                    Ok(s) => Ok(s),
                    Err(_) => Err(RecordRes { success: false, msg: String::from_str("save failed") }),
                };
                assert(clock_reading(date, secs) && checkpoint_moved(res, id as int, date, secs));
                res
            },
        }
    }

    /// The address to open for a note, if its text holds one.
    pub fn open_link(&self, content: &str) -> (res: Option<String>)
        ensures
            option_view(res) == link_of(content@),
            option_view(res) == first_address_link(content@),
    {
        link_to_open(content)
    }
}

} // verus!
