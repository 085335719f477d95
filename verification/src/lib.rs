//! MemToy: a spaced-repetition notebook.
//!
//! The library decides what the notebook does: which calendar day counts as
//! "today" for reviewing, which records come up for review on that day, which
//! SQL statements store, change and delete records and review tasks, how the
//! answers of the store become replies, how dates are shown, and which link a
//! note points to. Running the statements and showing the replies is left to
//! the caller.

pub mod calendar;
pub mod dates;
pub mod data_management;
pub mod db_checker;
pub mod links;
pub mod list;
pub mod record;
pub mod replies;
pub mod review;
pub mod statement;
