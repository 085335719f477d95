//! The notebook's store: the statements that write and read records and
//! review tasks, the day that counts as "today" for reviewing, and the days on
//! which a note comes up for review.

use vstd::prelude::*;

use crate::dates::{
    chrono_date_text, chrono_local_now, clock_epoch_eve, date_before, days_before, iso_text, lemma_date_before,
    lemma_date_before_exists, min_date, CalDate,
};
use crate::statement::{
    plain_statement, statements_view, stmt, SqlParam, SqlValue, Statement,
    StatementView,
};

verus! {

/// A day that lies too close to the start of the calendar for the
/// notebook's date arithmetic.
#[derive(Debug, PartialEq, Eq, Clone, Copy)]
pub enum DateError {
    OutOfRange,
}

/// Before this many seconds after local midnight, the review day is still
/// the previous day.
pub const REVIEW_DAY_START_SECS: u32 = 7200;

pub const INSERT_RECORD_SQL: &'static str = "INSERT INTO records (content, create_date) VALUES (?1, ?2)";

pub const UPDATE_RECORD_SQL: &'static str = "UPDATE records set content = ?1 where id = ?2";

pub const DELETE_RECORD_SQL: &'static str = "delete from records where id = ?";

pub const DELETE_TASK_SQL: &'static str = "delete from tasks where id = ?";

pub const UPSERT_TASK_SQL: &'static str =
    "INSERT OR REPLACE INTO tasks (id, create_date, finished) VALUES (?1, ?2, ?3)";

pub const REFRESH_CHECKPOINT_SQL: &'static str = "UPDATE records set checkpoint_date = ?1 where id = ?2";

pub const ALL_RECORDS_SQL: &'static str = "SELECT id, content, create_date from records order by id desc";

pub const REVIEW_SQL_HEAD: &'static str = "SELECT r.id, r.content, r.create_date, COALESCE(t.finished, false) AS finished \n            FROM records as r \n            LEFT JOIN tasks t \n            ON t.id = r.id AND t.create_date = '";

pub const REVIEW_SQL_MIDDLE: &'static str = "'\n            where r.create_date in (";

pub const REVIEW_SQL_TAIL: &'static str = ")\n            order by r.create_date, r.id asc";

/// The reply of the store to a successful write.
pub open spec fn save_success_msg() -> Seq<char> {
    "save success"@
}

/// The days after its creation on which a note comes up for review.
pub open spec fn review_offsets() -> Seq<int> {
    seq![0, 1, 3, 7, 14, 30, 60]
}

/// The creation dates of the notes that come up for review on `day`, in order.
pub open spec fn review_dates(day: CalDate) -> Seq<CalDate> {
    review_offsets().map_values(|k: int| date_before(day, k))
}

/// `n` question marks separated by commas: the parameters of an `in (...)` list.
pub open spec fn placeholders(n: nat) -> Seq<char>
    decreases n,
{
    if n <= 1 {
        "?"@
    } else {
        placeholders((n - 1) as nat) + ",?"@
    }
}

/// The query for the notes of a review day; tasks are matched on `current`.
pub open spec fn review_sql(current: CalDate) -> Seq<char> {
    REVIEW_SQL_HEAD@ + review_task_date(current) + REVIEW_SQL_MIDDLE@ + placeholders(
        review_offsets().len(),
    ) + REVIEW_SQL_TAIL@
}

/// The statement that reads the notes up for review on `day`.
pub open spec fn review_query(day: CalDate, current: CalDate) -> StatementView {
    stmt(review_sql(current), review_dates(day).map_values(|d: CalDate| SqlParam::Text(iso_text(d))))
}

/// The review day for a clock that shows `date` and `secs` seconds past midnight.
pub open spec fn review_day_of(date: CalDate, secs: int) -> CalDate {
    if secs < REVIEW_DAY_START_SECS {
        date_before(date, 1)
    } else {
        date
    }
}

/// `date` is far enough from the start of the calendar to go back `k` days.
pub open spec fn can_go_back(date: CalDate, k: int) -> bool {
    date.number() - k >= min_date().number()
}

/// A reading of the local clock: a valid date and the seconds since its midnight.
pub open spec fn clock_reading(date: CalDate, secs: int) -> bool {
    date.valid() && 0 <= secs < 86400
}

/// A clock reading gives a review day: from 2 a.m. on, or on any day but
/// chrono's earliest one.
pub open spec fn has_review_day(date: CalDate, secs: int) -> bool {
    secs >= REVIEW_DAY_START_SECS || can_go_back(date, 1)
}

/// The date on which the review query matches the done marks of tasks.
pub open spec fn review_task_date(current: CalDate) -> Seq<char> {
    iso_text(current)
}

/// What marking a task gives for one clock reading.
pub open spec fn toggled(
    res: Result<Statement, DateError>,
    id: int,
    finished: bool,
    date: CalDate,
    secs: int,
) -> bool {
    &&& res is Ok <==> has_review_day(date, secs)
    &&& res matches Ok(s) ==> s@ == upsert_task(id, iso_text(review_day_of(date, secs)), finished)
}

/// What moving a checkpoint gives for one clock reading.
pub open spec fn refreshed(res: Result<Statement, DateError>, id: int, date: CalDate, secs: int) -> bool {
    &&& res is Ok <==> has_review_day(date, secs)
    &&& res matches Ok(s) ==> s@ == refresh_checkpoint_stmt(id, review_day_of(date, secs))
}

/// What the review query gives for a clock reading (`date`, `secs`) and the
/// current date `current`.
pub open spec fn review_queried(
    res: Result<Statement, DateError>,
    date: CalDate,
    secs: int,
    current: CalDate,
) -> bool {
    &&& res is Ok <==> has_review_day(date, secs) && can_go_back(review_day_of(date, secs), 60)
    &&& res matches Ok(s) ==> s@ == review_query(review_day_of(date, secs), current)
}

pub open spec fn insert_record(data: Seq<char>, create_date: CalDate) -> StatementView {
    stmt(INSERT_RECORD_SQL@, seq![SqlParam::Text(data), SqlParam::Text(iso_text(create_date))])
}

pub open spec fn update_record_stmt(id: int, content: Seq<char>) -> StatementView {
    stmt(UPDATE_RECORD_SQL@, seq![SqlParam::Text(content), SqlParam::Integer(id)])
}

pub open spec fn delete_record_stmts(id: int) -> Seq<StatementView> {
    seq![
        stmt(DELETE_RECORD_SQL@, seq![SqlParam::Integer(id)]),
        stmt(DELETE_TASK_SQL@, seq![SqlParam::Integer(id)]),
    ]
}

pub open spec fn upsert_task(id: int, day_text: Seq<char>, finished: bool) -> StatementView {
    stmt(
        UPSERT_TASK_SQL@,
        seq![SqlParam::Integer(id), SqlParam::Text(day_text), SqlParam::Bool(finished)],
    )
}

pub open spec fn refresh_checkpoint_stmt(id: int, day: CalDate) -> StatementView {
    stmt(REFRESH_CHECKPOINT_SQL@, seq![SqlParam::Text(iso_text(day)), SqlParam::Integer(id)])
}

/// How often `c` occurs in `s`.
pub open spec fn count_char(s: Seq<char>, c: char) -> nat
    decreases s.len(),
{
    if s.len() == 0 {
        0
    } else {
        count_char(s.drop_last(), c) + if s.last() == c {
            1nat
        } else {
            0
        }
    }
}

/// The days of the review schedule are the valid dates that lie the
/// scheduled numbers of days before the review day.
proof fn lemma_review_dates(day: CalDate)
    requires
        day.valid(),
        can_go_back(day, 60),
    ensures
        review_dates(day).len() == 7,
        forall|i: int|
            0 <= i < 7 ==> (#[trigger] review_dates(day)[i]).valid() && review_dates(day)[i].number()
                == day.number() - review_offsets()[i],
{
    assert forall|i: int| 0 <= i < 7 implies (#[trigger] review_dates(day)[i]).valid()
        && review_dates(day)[i].number() == day.number() - review_offsets()[i] by {
        lemma_date_before_exists(day, review_offsets()[i] as nat);
    }
}

/// A note created on `created` comes up for review on `day` exactly when it
/// was created 0, 1, 3, 7, 14, 30 or 60 days before `day`.
pub proof fn law_review_schedule(day: CalDate, created: CalDate)
    requires
        day.valid(),
        created.valid(),
        can_go_back(day, 60),
    ensures
        review_dates(day).contains(created) <==> review_offsets().contains(
            day.number() - created.number(),
        ),
{
    lemma_review_dates(day);
    if review_dates(day).contains(created) {
        let i = choose|i: int| 0 <= i < review_dates(day).len() && review_dates(day)[i] == created;
        assert(review_offsets()[i] == day.number() - created.number());
    }
    if review_offsets().contains(day.number() - created.number()) {
        let i = choose|i: int|
            0 <= i < review_offsets().len() && review_offsets()[i] == day.number()
                - created.number();
        lemma_date_before(day, review_offsets()[i], created);
        assert(review_dates(day)[i] == created);
    }
}

/// The notes of a review day are listed from the newest creation date to the
/// oldest, each date once, starting with the review day itself.
pub proof fn law_review_dates_ordered(day: CalDate)
    requires
        day.valid(),
        can_go_back(day, 60),
    ensures
        review_dates(day)[0] == day,
        forall|i: int, j: int|
            0 <= i < j < review_dates(day).len() ==> #[trigger] review_dates(day)[i].number()
                > #[trigger] review_dates(day)[j].number(),
{
    lemma_review_dates(day);
    lemma_date_before(day, 0, day);
}

/// `n` placeholders hold `n` question marks.
pub proof fn law_placeholder_count(n: nat)
    requires
        n >= 1,
    ensures
        count_char(placeholders(n), '?') == n,
    decreases n,
{
    reveal_strlit("?");
    reveal_strlit(",?");
    assert("?"@ =~= seq!['?']);
    assert(",?"@ =~= seq![',', '?']);
    if n > 1 {
        law_placeholder_count((n - 1) as nat);
        let p = placeholders((n - 1) as nat);
        let q = p + ",?"@;
        assert(q.drop_last() =~= p + seq![',']);
        assert(q.last() == '?');
        assert((p + seq![',']).drop_last() =~= p);
        assert((p + seq![',']).last() == ',');
        assert(count_char(p + seq![','], '?') == count_char(p, '?'));
        assert(count_char(q, '?') == count_char(p + seq![','], '?') + 1);
    } else {
        assert(seq!['?'].drop_last() =~= Seq::<char>::empty());
        assert(count_char(seq!['?'], '?') == count_char(Seq::<char>::empty(), '?') + 1);
    }
}

/// The review query binds one value to each of its placeholders.
pub proof fn law_review_query_arity(day: CalDate, current: CalDate)
    ensures
        count_char(placeholders(review_offsets().len()), '?') == review_query(
            day,
            current,
        ).params.len(),
{
    law_placeholder_count(review_offsets().len());
}

/// The review day of a clock reading: from 2 a.m. on it is the clock's date,
/// before 2 a.m. the day before.
pub proof fn law_review_day_rule(date: CalDate, secs: int)
    requires
        clock_reading(date, secs),
        has_review_day(date, secs),
    ensures
        review_day_of(date, secs).valid(),
        secs >= REVIEW_DAY_START_SECS ==> review_day_of(date, secs) == date,
        secs < REVIEW_DAY_START_SECS ==> review_day_of(date, secs).number() == date.number() - 1,
{
    if secs < REVIEW_DAY_START_SECS {
        lemma_date_before_exists(date, 1);
    }
}

/// From 2 a.m. on, a task marked on a clock reading is filed under the date
/// on which the review query of the same reading, with the same current
/// date, matches done marks; that query lists the notes due on that date.
pub proof fn law_marked_task_found_by_review(
    marked: Result<Statement, DateError>,
    query: Result<Statement, DateError>,
    id: int,
    finished: bool,
    date: CalDate,
    secs: int,
)
    requires
        clock_reading(date, secs),
        secs >= REVIEW_DAY_START_SECS,
        toggled(marked, id, finished, date, secs),
        review_queried(query, date, secs, date),
    ensures
        marked is Ok,
        query is Ok <==> can_go_back(date, 60),
        marked matches Ok(m) ==> m@.params[1] == SqlParam::Text(review_task_date(date)),
        query matches Ok(q) ==> q@ == review_query(date, date),
{
}

/// Every date a clock can show gives a review day, and that review day lies
/// far enough from the start of the calendar for the review schedule.
pub proof fn lemma_clock_dates_have_schedule(date: CalDate, secs: int)
    requires
        clock_reading(date, secs),
        date.number() >= clock_epoch_eve().number(),
    ensures
        has_review_day(date, secs),
        can_go_back(review_day_of(date, secs), 60),
{
    assert(clock_epoch_eve().number() == 719162);
    assert(min_date().number() == -95746129);
    law_review_day_rule(date, secs);
}

/// For a clock reading from 1969-12-31 on, the review query lists first the
/// notes of the clock's date from 2 a.m. on, and those of the day before
/// until then; a task is marked on that same day. Any reading gives a result.
pub proof fn law_clock_reading_decides_day(
    query: Result<Statement, DateError>,
    marked: Result<Statement, DateError>,
    id: int,
    finished: bool,
    date: CalDate,
    secs: int,
    current: CalDate,
)
    requires
        clock_reading(date, secs),
        date.number() >= clock_epoch_eve().number(),
        review_queried(query, date, secs, current),
        toggled(marked, id, finished, date, secs),
    ensures
        query is Ok,
        marked is Ok,
        secs >= REVIEW_DAY_START_SECS ==> (query matches Ok(q) && q@.params[0] == SqlParam::Text(
            iso_text(date),
        )) && (marked matches Ok(m) && m@.params[1] == SqlParam::Text(iso_text(date))),
        secs < REVIEW_DAY_START_SECS ==> (query matches Ok(q) && q@.params[0] == SqlParam::Text(
            iso_text(date_before(date, 1)),
        )) && (marked matches Ok(m) && m@.params[1] == SqlParam::Text(
            iso_text(date_before(date, 1)),
        )),
        secs < REVIEW_DAY_START_SECS ==> date_before(date, 1).valid() && date_before(date, 1).number()
            == date.number() - 1,
{
    lemma_clock_dates_have_schedule(date, secs);
    law_review_day_rule(date, secs);
    let day = review_day_of(date, secs);
    lemma_review_dates(day);
    lemma_date_before(day, 0, day);
}

/// The statements of the store, one for each kind of write.
pub struct DataBacken;

impl DataBacken {
    /// The statement that stores a new note created on `create_date`.
    pub fn save_record(data: &str, create_date: CalDate) -> (res: Statement)
        requires
            create_date.valid(),
        ensures
            res@ == insert_record(data@, create_date),
    {
        let mut params: Vec<SqlValue> = Vec::new();
        params.push(SqlValue::Text(String::from_str(data)));
        params.push(SqlValue::Text(chrono_date_text(create_date)));
        let res = Statement { sql: String::from_str(INSERT_RECORD_SQL), params };
        assert(res@.params =~= insert_record(data@, create_date).params);
        res
    }

    /// The statement that replaces the text of note `id`.
    pub fn update_record(id: i32, record: &str) -> (res: Statement)
        ensures
            res@ == update_record_stmt(id as int, record@),
    {
        let mut params: Vec<SqlValue> = Vec::new();
        params.push(SqlValue::Text(String::from_str(record)));
        params.push(SqlValue::Integer(id as i64));
        let res = Statement { sql: String::from_str(UPDATE_RECORD_SQL), params };
        assert(res@.params =~= update_record_stmt(id as int, record@).params);
        res
    }

    /// The statements that delete note `id` and its review tasks; they are
    /// to run together in one transaction.
    pub fn del_record_and_task(id: i32) -> (res: Vec<Statement>)
        ensures
            statements_view(res@) == delete_record_stmts(id as int),
    {
        let mut first: Vec<SqlValue> = Vec::new();
        first.push(SqlValue::Integer(id as i64));
        let mut second: Vec<SqlValue> = Vec::new();
        second.push(SqlValue::Integer(id as i64));
        let a = Statement { sql: String::from_str(DELETE_RECORD_SQL), params: first };
        let b = Statement { sql: String::from_str(DELETE_TASK_SQL), params: second };
        assert(a@.params =~= seq![SqlParam::Integer(id as int)]);
        assert(b@.params =~= seq![SqlParam::Integer(id as int)]);
        let mut res: Vec<Statement> = Vec::new();
        res.push(a);
        res.push(b);
        assert(statements_view(res@) =~= delete_record_stmts(id as int));
        res
    }

    /// The statement that records whether the review of note `id` on the day
    /// written `create_date` is done, replacing an earlier answer for that day.
    pub fn toggle_task(id: i32, create_date: &str, finished: bool) -> (res: Statement)
        ensures
            res@ == upsert_task(id as int, create_date@, finished),
    {
        let mut params: Vec<SqlValue> = Vec::new();
        params.push(SqlValue::Integer(id as i64));
        params.push(SqlValue::Text(String::from_str(create_date)));
        params.push(SqlValue::Bool(finished));
        let res = Statement { sql: String::from_str(UPSERT_TASK_SQL), params };
        assert(res@.params =~= upsert_task(id as int, create_date@, finished).params);
        res
    }

    /// The answer of the store to a write: `save success`, or the error.
    pub fn saved(outcome: Result<(), String>) -> (res: Result<String, String>)
        ensures
            res is Ok <==> outcome is Ok,
            res matches Ok(m) ==> m@ == save_success_msg(),
            outcome matches Err(e) ==> (res matches Err(f) && f@ == e@),
    {
        match outcome {
            Ok(()) => Ok(String::from_str("save success")),
            Err(e) => Err(e),
        }
    }
}

/// The question marks of an `in (...)` list with `n` entries.
fn placeholder_list(n: usize) -> (res: String)
    requires
        n >= 1,
    ensures
        res@ == placeholders(n as nat),
{
    let mut s = String::from_str("?");
    let mut i: usize = 1;
    while i < n
        invariant
            1 <= i <= n,
            s@ == placeholders(i as nat),
        decreases n - i,
    {
        s.append(",?");
        i = i + 1;
    }
    s
}

/// The kinds of store the notebook can use.
#[derive(Clone, Copy)]
pub enum DataManagementType {
    Simple(General),
}

/// The notebook's one kind of store: a single SQLite file.
#[derive(Clone, Copy)]
pub struct General;

impl General {
    pub fn new() -> (res: Self) {
        General {  }
    }

    /// The statement that stores a new note; without a date the note is
    /// created on the clock's current date.
    pub fn save_records(&self, data: &str, create_date: Option<CalDate>) -> (res: Statement)
        requires
            create_date matches Some(d) ==> d.valid(),
        ensures
            create_date matches Some(d) ==> res@ == insert_record(data@, d),
            create_date is None ==> exists|today: CalDate|
                today.valid() && today.number() >= clock_epoch_eve().number() && res@ == insert_record(data@, today),
    {
        let (today, _) = chrono_local_now();
        self.save_records_on(data, create_date, today)
    }

    /// As `save_records`, for a clock whose current date is `today`.
    pub fn save_records_on(&self, data: &str, create_date: Option<CalDate>, today: CalDate) -> (res:
        Statement)
        requires
            create_date matches Some(d) ==> d.valid(),
            today.valid(),
        ensures
            res@ == insert_record(
                data@,
                match create_date {
                    Some(d) => d,
                    None => today,
                },
            ),
    {
        let day = match create_date {
            Some(d) => d,
            None => today,
        };
        DataBacken::save_record(data, day)
    }

    /// The statement that replaces the text of note `id`.
    pub fn update_record(&self, id: i32, record: &str) -> (res: Statement)
        ensures
            res@ == update_record_stmt(id as int, record@),
    {
        DataBacken::update_record(id, record)
    }

    /// The statement that marks the review of note `id` on today's review day
    /// as done or not done, from the clock.
    pub fn toggle_task(&self, id: i32, finished: bool) -> (res: Result<Statement, DateError>)
        ensures
            exists|date: CalDate, secs: int|
                clock_reading(date, secs) && #[trigger] toggled(res, id as int, finished, date, secs),
            res is Ok,
    {
        let (date, secs) = Self::read_clock();
        proof {
            lemma_clock_dates_have_schedule(date, secs as int);
        }
        let res = self.toggle_task_at(id, finished, date, secs);
        assert(clock_reading(date, secs as int) && toggled(res, id as int, finished, date, secs as int));
        res
    }

    /// As `toggle_task`, for a clock that shows `date` and `secs` seconds past
    /// local midnight: before 2 a.m. the task is filed under the previous day.
    pub fn toggle_task_at(&self, id: i32, finished: bool, date: CalDate, secs: u32) -> (res: Result<
        Statement,
        DateError,
    >)
        requires
            date.valid(),
        ensures
            toggled(res, id as int, finished, date, secs as int),
    {
        let day = Self::review_day(date, secs)?;
        Ok(self.toggle_task_on(id, finished, day))
    }

    /// As `toggle_task`, on review day `day`.
    pub fn toggle_task_on(&self, id: i32, finished: bool, day: CalDate) -> (res: Statement)
        requires
            day.valid(),
        ensures
            res@ == upsert_task(id as int, iso_text(day), finished),
    {
        let text = chrono_date_text(day);
        DataBacken::toggle_task(id, text.as_str(), finished)
    }

    /// The statements that delete note `id` and its review tasks, in one transaction.
    pub fn del_record_and_task(&self, id: i32) -> (res: Vec<Statement>)
        ensures
            statements_view(res@) == delete_record_stmts(id as int),
    {
        DataBacken::del_record_and_task(id)
    }

    /// The statement that moves the checkpoint of note `id` to today's review
    /// day, from the clock. The panels ask the store to refresh a note's
    /// checkpoint without fixing how; setting the record's `checkpoint_date`
    /// to the review day is this crate's reading of that request.
    pub fn refresh_checkpoint(&self, id: i32) -> (res: Result<Statement, DateError>)
        ensures
            exists|date: CalDate, secs: int|
                clock_reading(date, secs) && #[trigger] refreshed(res, id as int, date, secs),
            res is Ok,
    {
        let (date, secs) = Self::read_clock();
        proof {
            lemma_clock_dates_have_schedule(date, secs as int);
        }
        let res = self.refresh_checkpoint_at(id, date, secs);
        assert(clock_reading(date, secs as int) && refreshed(res, id as int, date, secs as int));
        res
    }

    /// As `refresh_checkpoint`, for a clock that shows `date` and `secs`
    /// seconds past local midnight.
    pub fn refresh_checkpoint_at(&self, id: i32, date: CalDate, secs: u32) -> (res: Result<
        Statement,
        DateError,
    >)
        requires
            date.valid(),
        ensures
            refreshed(res, id as int, date, secs as int),
    {
        let day = Self::review_day(date, secs)?;
        Ok(self.refresh_checkpoint_on(id, day))
    }

    /// As `refresh_checkpoint`, on review day `day`.
    pub fn refresh_checkpoint_on(&self, id: i32, day: CalDate) -> (res: Statement)
        requires
            day.valid(),
        ensures
            res@ == refresh_checkpoint_stmt(id as int, day),
    {
        let mut params: Vec<SqlValue> = Vec::new();
        params.push(SqlValue::Text(chrono_date_text(day)));
        params.push(SqlValue::Integer(id as i64));
        let res = Statement { sql: String::from_str(REFRESH_CHECKPOINT_SQL), params };
        assert(res@.params =~= refresh_checkpoint_stmt(id as int, day).params);
        res
    }

    /// The query for the notes up for review today, from the clock. The review
    /// day comes from one reading of the clock, the date on which done marks
    /// are matched from a later one.
    pub fn query_today_review(&self) -> (res: Result<Statement, DateError>)
        ensures
            exists|date: CalDate, secs: int, current: CalDate|
                clock_reading(date, secs) && current.valid() && #[trigger] review_queried(
                    res,
                    date,
                    secs,
                    current,
                ),
            res is Ok,
    {
        let (date, secs) = Self::read_clock();
        proof {
            lemma_clock_dates_have_schedule(date, secs as int);
        }
        let (current, _) = chrono_local_now();
        let res = Self::review_query_at(date, secs, current);
        assert(clock_reading(date, secs as int) && current.valid() && review_queried(
            res,
            date,
            secs as int,
            current,
        ));
        res
    }

    /// As `query_today_review`, for a clock that shows `date` and `secs`
    /// seconds past local midnight, with done marks matched on `current`.
    pub fn review_query_at(date: CalDate, secs: u32, current: CalDate) -> (res: Result<
        Statement,
        DateError,
    >)
        requires
            date.valid(),
            current.valid(),
        ensures
            review_queried(res, date, secs as int, current),
    {
        let day = Self::review_day(date, secs)?;
        Self::today_review_query(day, current)
    }

    /// The query for the notes up for review on `day`: those created on that
    /// day, or 1, 3, 7, 14, 30 or 60 days before it. Review tasks are matched
    /// on the date `current`.
    pub fn today_review_query(day: CalDate, current: CalDate) -> (res: Result<
        Statement,
        DateError,
    >)
        requires
            day.valid(),
            current.valid(),
        ensures
            res is Ok <==> can_go_back(day, 60),
            res matches Ok(s) ==> s@ == review_query(day, current),
    {
        let offsets: [u32; 7] = [0, 1, 3, 7, 14, 30, 60];
        let mut params: Vec<SqlValue> = Vec::new();
        let mut i: usize = 0;
        while i < 7
            invariant
                0 <= i <= 7,
                day.valid(),
                offsets@ == seq![0u32, 1, 3, 7, 14, 30, 60],
                params@.len() == i,
                i == 7 ==> can_go_back(day, 60),
                forall|j: int|
                    0 <= j < i ==> #[trigger] params@[j]@ == SqlParam::Text(
                        iso_text(date_before(day, review_offsets()[j])),
                    ),
            decreases 7 - i,
        {
            let k: u32 = offsets[i];
            match days_before(day, k) {
                Some(d) => {
                    params.push(SqlValue::Text(chrono_date_text(d)));
                },
                None => {
                    assert(!can_go_back(day, 60));
                    return Err(DateError::OutOfRange);
                },
            }
            i = i + 1;
        }
        assert(can_go_back(day, 60));
        let mut sql = String::from_str(REVIEW_SQL_HEAD);
        let current_text = chrono_date_text(current);
        sql.append(current_text.as_str());
        sql.append(REVIEW_SQL_MIDDLE);
        let list = placeholder_list(7);
        sql.append(list.as_str());
        sql.append(REVIEW_SQL_TAIL);
        let res = Statement { sql, params };
        assert(res@.params =~= review_query(day, current).params);
        Ok(res)
    }

    /// The query for all notes, newest first.
    pub fn query_all_records(&self) -> (res: Statement)
        ensures
            res@ == stmt(ALL_RECORDS_SQL@, seq![]),
    {
        plain_statement(ALL_RECORDS_SQL)
    }

    /// The review day for a clock that shows `date` and `secs` seconds past
    /// local midnight: until 2 a.m. it is still the previous day.
    pub fn review_day(date: CalDate, secs: u32) -> (res: Result<CalDate, DateError>)
        requires
            date.valid(),
        ensures
            res is Ok <==> (secs >= REVIEW_DAY_START_SECS || can_go_back(date, 1)),
            res matches Ok(d) ==> d.valid() && d == review_day_of(date, secs as int),
            res matches Ok(d) ==> d.number() == date.number() - (if secs < REVIEW_DAY_START_SECS {
                1int
            } else {
                0
            }),
    {
        if secs < REVIEW_DAY_START_SECS {
            match days_before(date, 1) {
                Some(d) => Ok(d),
                None => Err(DateError::OutOfRange),
            }
        } else {
            Ok(date)
        }
    }

    /// One reading of the clock for the review day: the seconds past local
    /// midnight from a first look at the clock, the date from a second.
    fn read_clock() -> (res: (CalDate, u32))
        ensures
            clock_reading(res.0, res.1 as int),
            res.0.number() >= clock_epoch_eve().number(),
    {
        let (_, secs) = chrono_local_now();
        let (date, _) = chrono_local_now();
        (date, secs)
    }
}

} // verus!
