//! What the notebook hands back to its user interface: the outcome of a write,
//! the records of the list and the tasks of the day.

use vstd::prelude::*;

verus! {

/// The outcome of saving or changing a note, as the user sees it.
#[derive(Debug, PartialEq, Eq)]
pub struct RecordRes {
    pub success: bool,
    pub msg: String,
}

/// A stored note.
#[derive(Debug, PartialEq, Eq)]
pub struct Record {
    pub id: i32,
    pub content: String,
    pub create_date: String,
}

/// A note that is up for review, and whether its review is done.
#[derive(Debug, PartialEq, Eq)]
pub struct Task {
    pub id: i32,
    pub content: String,
    pub create_date: String,
    pub finished: bool,
}

/// The message of a refused empty note.
pub open spec fn empty_text_msg() -> Seq<char> {
    "text can't be empty"@
}

/// The message of a failed write.
pub open spec fn save_failed_msg() -> Seq<char> {
    "save failed"@
}

/// The reply to a note without text, which is never written.
pub fn empty_text_reply() -> (res: RecordRes)
    ensures
        !res.success,
        res.msg@ == empty_text_msg(),
{
    RecordRes { success: false, msg: String::from_str("text can't be empty") }
}

/// The reply to a write: its message where it succeeded, `save failed` where not.
pub fn save_reply(outcome: Result<String, String>) -> (res: RecordRes)
    ensures
        res.success == outcome is Ok,
        outcome matches Ok(m) ==> res.msg@ == m@,
        outcome is Err ==> res.msg@ == save_failed_msg(),
{
    match outcome {
        Ok(msg) => RecordRes { success: true, msg },
        Err(_) => RecordRes { success: false, msg: String::from_str("save failed") },
    }
}

/// The rows that a query found; none where the query failed.
pub fn shown_rows<T>(rows: Result<Vec<T>, String>) -> (res: Vec<T>)
    ensures
        rows matches Ok(v) ==> res@ == v@,
        rows is Err ==> res@.len() == 0,
{
    match rows {
        Ok(v) => v,
        Err(_) => Vec::new(),
    }
}

} // verus!
