use memtoy::data_management::{DataBacken, DateError, General, REVIEW_DAY_START_SECS};
use memtoy::dates::{CalDate, MIN_YEAR};
use memtoy::db_checker::DbChecker;
use memtoy::statement::{SqlValue, Statement};

fn date(year: i32, month: u32, day: u32) -> CalDate {
    CalDate { year, month, day }
}

fn text(s: &str) -> SqlValue {
    SqlValue::Text(s.to_string())
}

#[test]
fn save_record_statement() {
    let s = DataBacken::save_record("learn verus", date(2024, 3, 1));
    assert_eq!(s.sql, "INSERT INTO records (content, create_date) VALUES (?1, ?2)");
    assert_eq!(s.params, vec![text("learn verus"), text("2024-03-01")]);
}

#[test]
fn save_records_uses_given_date_or_today() {
    let g = General::new();
    let s = g.save_records_on("a", Some(date(2020, 1, 2)), date(2024, 5, 6));
    assert_eq!(s.params, vec![text("a"), text("2020-01-02")]);
    let s = g.save_records_on("a", None, date(2024, 5, 6));
    assert_eq!(s.params, vec![text("a"), text("2024-05-06")]);
    let s = g.save_records("b", Some(date(1999, 12, 31)));
    assert_eq!(s.params, vec![text("b"), text("1999-12-31")]);
}

#[test]
fn update_record_statement() {
    let s = General::new().update_record(7, "new text");
    assert_eq!(s.sql, "UPDATE records set content = ?1 where id = ?2");
    assert_eq!(s.params, vec![text("new text"), SqlValue::Integer(7)]);
}

#[test]
fn delete_removes_record_and_tasks() {
    let v = General::new().del_record_and_task(3);
    assert_eq!(
        v,
        vec![
            Statement { sql: "delete from records where id = ?".to_string(), params: vec![SqlValue::Integer(3)] },
            Statement { sql: "delete from tasks where id = ?".to_string(), params: vec![SqlValue::Integer(3)] },
        ]
    );
}

#[test]
fn toggle_task_on_review_day() {
    let s = General::new().toggle_task_on(5, true, date(2024, 2, 29));
    assert_eq!(s.sql, "INSERT OR REPLACE INTO tasks (id, create_date, finished) VALUES (?1, ?2, ?3)");
    assert_eq!(s.params, vec![SqlValue::Integer(5), text("2024-02-29"), SqlValue::Bool(true)]);
    let s = General::new().toggle_task(5, false).unwrap();
    assert_eq!(s.params[2], SqlValue::Bool(false));
}

#[test]
fn refresh_checkpoint_statement() {
    let s = General::new().refresh_checkpoint_on(9, date(2024, 1, 31));
    assert_eq!(s.sql, "UPDATE records set checkpoint_date = ?1 where id = ?2");
    assert_eq!(s.params, vec![text("2024-01-31"), SqlValue::Integer(9)]);
}

#[test]
fn review_day_starts_at_two() {
    assert_eq!(General::review_day(date(2024, 3, 1), 0), Ok(date(2024, 2, 29)));
    assert_eq!(General::review_day(date(2024, 3, 1), REVIEW_DAY_START_SECS - 1), Ok(date(2024, 2, 29)));
    assert_eq!(General::review_day(date(2024, 3, 1), REVIEW_DAY_START_SECS), Ok(date(2024, 3, 1)));
    assert_eq!(General::review_day(date(2024, 3, 1), 86399), Ok(date(2024, 3, 1)));
    assert_eq!(General::review_day(date(MIN_YEAR, 1, 1), 60), Err(DateError::OutOfRange));
    assert_eq!(General::review_day(date(MIN_YEAR, 1, 1), 9000), Ok(date(MIN_YEAR, 1, 1)));
}

#[test]
fn review_query_lists_schedule_days() {
    let s = General::today_review_query(date(2024, 3, 1), date(2024, 3, 2)).unwrap();
    assert_eq!(
        s.params,
        vec![
            text("2024-03-01"),
            text("2024-02-29"),
            text("2024-02-27"),
            text("2024-02-23"),
            text("2024-02-16"),
            text("2024-01-31"),
            text("2024-01-01"),
        ]
    );
    let expected = format!(
        "SELECT r.id, r.content, r.create_date, COALESCE(t.finished, false) AS finished 
            FROM records as r 
            LEFT JOIN tasks t 
            ON t.id = r.id AND t.create_date = '{}'
            where r.create_date in ({})
            order by r.create_date, r.id asc",
        "2024-03-02", "?,?,?,?,?,?,?"
    );
    assert_eq!(s.sql, expected);
}

#[test]
fn review_query_near_start_of_calendar() {
    assert_eq!(
        General::today_review_query(date(MIN_YEAR, 2, 1), date(2024, 1, 1)),
        Err(DateError::OutOfRange)
    );
    assert_eq!(
        General::today_review_query(date(MIN_YEAR, 3, 1), date(2024, 1, 1)),
        Err(DateError::OutOfRange)
    );
    let s = General::today_review_query(date(MIN_YEAR, 3, 2), date(2024, 1, 1)).unwrap();
    assert_eq!(s.params[6], text("-262143-01-01"));
}

#[test]
fn review_query_from_clock() {
    let s = General::new().query_today_review().unwrap();
    assert_eq!(s.params.len(), 7);
    assert_eq!(s.sql.matches('?').count(), 7);
}

#[test]
fn all_records_query() {
    let s = General::new().query_all_records();
    assert_eq!(s.sql, "SELECT id, content, create_date from records order by id desc");
    assert!(s.params.is_empty());
}

#[test]
fn saved_message() {
    assert_eq!(DataBacken::saved(Ok(())), Ok("save success".to_string()));
    assert_eq!(DataBacken::saved(Err("locked".to_string())), Err("locked".to_string()));
}

#[test]
fn schema_statements() {
    let v = DbChecker::create_check_db();
    assert_eq!(v.len(), 2);
    assert_eq!(
        v[0].sql,
        "CREATE TABLE IF NOT EXISTS records (\n  id INTEGER PRIMARY KEY,\n  content TEXT,\n  create_date DATE\n)"
    );
    assert_eq!(v[1].sql, "CREATE INDEX IF NOT EXISTS idx_record_create_date ON records (create_date)");
    let q = DbChecker::checkpoint_column_query();
    assert_eq!(q.sql, "SELECT COUNT(*) FROM pragma_table_info(?) WHERE name = ?");
    assert_eq!(q.params, vec![text("records"), text("checkpoint_date")]);
    assert!(DbChecker::task_table().sql.starts_with("CREATE TABLE IF NOT EXISTS tasks ("));
}

#[test]
fn checkpoint_migration_runs_once() {
    assert!(DbChecker::checkpoint_column_exists(Ok(1)));
    assert!(!DbChecker::checkpoint_column_exists(Ok(0)));
    assert!(!DbChecker::checkpoint_column_exists(Err("no such table".to_string())));
    assert!(DbChecker::checkpoint_migration(true).is_empty());
    let m = DbChecker::checkpoint_migration(false);
    assert_eq!(m.len(), 2);
    assert_eq!(m[0].sql, "ALTER TABLE records ADD COLUMN checkpoint_date DE");
    assert_eq!(m[1].sql, "UPDATE records set checkpoint_date = create_date WHERE checkpoint_date is NULL");
}

#[test]
fn schedule_on_concrete_days() {
    let s = General::today_review_query(date(2024, 3, 1), date(2024, 3, 1)).unwrap();
    // created one day before: due; two days before: not due
    assert!(s.params.contains(&text("2024-02-29")));
    assert!(!s.params.contains(&text("2024-02-28")));
    // created on the review day itself: due, and listed first
    assert_eq!(s.params[0], text("2024-03-01"));
    // sixty days before: due; sixty-one: not
    assert!(s.params.contains(&text("2024-01-01")));
    assert!(!s.params.contains(&text("2023-12-31")));
    // one placeholder for each bound value
    assert_eq!(s.sql.matches('?').count(), s.params.len());
}

#[test]
fn task_filed_under_review_day_of_clock() {
    let g = General::new();
    // 01:30 on 2024-03-01: the task goes to 2024-02-29
    let s = g.toggle_task_at(5, true, date(2024, 3, 1), 5400).unwrap();
    assert_eq!(s.params, vec![SqlValue::Integer(5), text("2024-02-29"), SqlValue::Bool(true)]);
    // 02:00 on 2024-03-01: the task goes to 2024-03-01
    let s = g.toggle_task_at(5, false, date(2024, 3, 1), 7200).unwrap();
    assert_eq!(s.params, vec![SqlValue::Integer(5), text("2024-03-01"), SqlValue::Bool(false)]);
    assert_eq!(g.toggle_task_at(5, true, date(MIN_YEAR, 1, 1), 3600), Err(DateError::OutOfRange));
}

#[test]
fn checkpoint_moved_to_review_day_of_clock() {
    let g = General::new();
    let s = g.refresh_checkpoint_at(9, date(2024, 1, 1), 60).unwrap();
    assert_eq!(s.params, vec![text("2023-12-31"), SqlValue::Integer(9)]);
    let s = g.refresh_checkpoint_at(9, date(2024, 1, 1), 80000).unwrap();
    assert_eq!(s.params, vec![text("2024-01-01"), SqlValue::Integer(9)]);
    assert_eq!(g.refresh_checkpoint_at(9, date(MIN_YEAR, 1, 1), 0), Err(DateError::OutOfRange));
}

#[test]
fn review_query_of_clock_reading() {
    // 01:00 on 2024-03-02: the review day is 2024-03-01, done marks are matched on 2024-03-02
    let s = General::review_query_at(date(2024, 3, 2), 3600, date(2024, 3, 2)).unwrap();
    assert_eq!(s.params[0], text("2024-03-01"));
    assert!(s.sql.contains("t.create_date = '2024-03-02'"));
    let s = General::review_query_at(date(2024, 3, 2), 7200, date(2024, 3, 2)).unwrap();
    assert_eq!(s.params[0], text("2024-03-02"));
    assert_eq!(
        General::review_query_at(date(MIN_YEAR, 1, 1), 0, date(2024, 1, 1)),
        Err(DateError::OutOfRange)
    );
}

#[test]
fn marked_task_matches_review_after_two() {
    let g = General::new();
    let reading = date(2024, 3, 1);
    let marked = g.toggle_task_at(3, true, reading, 36000).unwrap();
    let query = General::review_query_at(reading, 36000, reading).unwrap();
    let SqlValue::Text(day) = &marked.params[1] else { panic!("date expected") };
    assert!(query.sql.contains(&format!("t.create_date = '{}'", day)));
}
