//! The record panel: writing down a new note.

use vstd::prelude::*;

use crate::calendar::DATE_FORMAT;
use crate::data_management::{insert_record, DataManagementType, General};
use crate::dates::{chrono_parse, chrono_parsed, clock_epoch_eve, CalDate};
use crate::replies::{empty_text_msg, empty_text_reply, RecordRes};
use crate::statement::Statement;

verus! {

/// The creation date of a new note: the date its date field shows in the
/// calendar's form, else `today`.
pub open spec fn creation_date(date: Seq<char>, today: CalDate) -> CalDate {
    match chrono_parsed(date, DATE_FORMAT@) {
        Some((y, m, d)) => CalDate { year: y as i32, month: m as u32, day: d as u32 },
        None => today,
    }
}

/// The record panel.
pub struct RecordTracker {
    management: DataManagementType,
}

impl RecordTracker {
    pub fn new() -> (res: Self) {
        RecordTracker { management: DataManagementType::Simple(General::new()) }
    }

    /// The statement that stores the note `record`, created on the date that
    /// `date` shows, or on the clock's current date where it shows none; an
    /// empty note is refused with its reply instead.
    pub fn save_record_msg(&self, record: &str, date: &str) -> (res: Result<Statement, RecordRes>)
        ensures
            record@.len() == 0 ==> (res matches Err(r) && !r.success && r.msg@ == empty_text_msg()),
            record@.len() != 0 ==> (res matches Ok(s) && exists|today: CalDate|
                today.valid() && today.number() >= clock_epoch_eve().number() && s@ == insert_record(record@, creation_date(date@, today))),
    {
        if record.is_empty() {
            return Err(empty_text_reply());
        }
        let parsed = chrono_parse(date, DATE_FORMAT);
        match self.management {
            DataManagementType::Simple(general) => {
                let s = general.save_records(record, parsed);
                proof {
                    if let Some(d) = parsed {
                        let eve = clock_epoch_eve();
                        assert(eve.valid());
                        assert(creation_date(date@, eve) == d);
                        assert(s@ == insert_record(record@, creation_date(date@, eve)));
                    }
                }
                Ok(s)
            },
        }
    }

    /// As `save_record_msg`, when the clock's current date is `today`.
    pub fn save_record_on(&self, record: &str, date: &str, today: CalDate) -> (res: Result<
        Statement,
        RecordRes,
    >)
        requires
            today.valid(),
        ensures
            record@.len() == 0 ==> (res matches Err(r) && !r.success && r.msg@ == empty_text_msg()),
            record@.len() != 0 ==> (res matches Ok(s) && s@ == insert_record(
                record@,
                creation_date(date@, today),
            )),
    {
        if record.is_empty() {
            return Err(empty_text_reply());
        }
        let parsed = chrono_parse(date, DATE_FORMAT);
        match self.management {
            DataManagementType::Simple(general) => Ok(general.save_records_on(record, parsed, today)),
        }
    }
}

} // verus!
