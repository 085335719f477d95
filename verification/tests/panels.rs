use memtoy::dates::CalDate;
use memtoy::links::{link_from_match, link_to_open};
use memtoy::list::ListTracker;
use memtoy::record::RecordTracker;
use memtoy::replies::{empty_text_reply, save_reply, shown_rows, Record, RecordRes};
use memtoy::review::ReviewTracker;
use memtoy::statement::SqlValue;

fn reply(success: bool, msg: &str) -> RecordRes {
    RecordRes { success, msg: msg.to_string() }
}

#[test]
fn empty_notes_are_refused() {
    let r = RecordTracker::new().save_record_msg("", "Sat, 2015-09-05");
    assert_eq!(r, Err(reply(false, "text can't be empty")));
    assert_eq!(ListTracker::new().update_record(1, ""), Err(reply(false, "text can't be empty")));
    assert_eq!(ReviewTracker::new().update_task(1, ""), Err(reply(false, "text can't be empty")));
    assert_eq!(empty_text_reply(), reply(false, "text can't be empty"));
}

#[test]
fn new_note_takes_date_of_date_field() {
    let today = CalDate { year: 2024, month: 5, day: 6 };
    let s = RecordTracker::new().save_record_on("note", "Sat, 2015-09-05", today).unwrap();
    assert_eq!(s.params[1], SqlValue::Text("2015-09-05".to_string()));
    let s = RecordTracker::new().save_record_on("note", "", today).unwrap();
    assert_eq!(s.params[1], SqlValue::Text("2024-05-06".to_string()));
    let s = RecordTracker::new().save_record_on("note", "Mon, 2015-09-05", today).unwrap();
    assert_eq!(s.params[1], SqlValue::Text("2024-05-06".to_string()));
    let s = RecordTracker::new().save_record_msg("note", "Sat, 2015-09-05").unwrap();
    assert_eq!(s.params, vec![SqlValue::Text("note".to_string()), SqlValue::Text("2015-09-05".to_string())]);
}

#[test]
fn changed_note_statement() {
    let s = ListTracker::new().update_record(4, "x").unwrap();
    assert_eq!(s.params, vec![SqlValue::Text("x".to_string()), SqlValue::Integer(4)]);
    let s = ReviewTracker::new().update_task(4, "x").unwrap();
    assert_eq!(s.params, vec![SqlValue::Text("x".to_string()), SqlValue::Integer(4)]);
}

#[test]
fn replies_to_writes() {
    assert_eq!(save_reply(Ok("save success".to_string())), reply(true, "save success"));
    assert_eq!(save_reply(Err("disk full".to_string())), reply(false, "save failed"));
}

#[test]
fn failed_queries_show_nothing() {
    let rows = vec![Record { id: 1, content: "a".to_string(), create_date: "2024-01-01".to_string() }];
    assert_eq!(shown_rows(Ok(rows)).len(), 1);
    assert!(shown_rows::<Record>(Err("gone".to_string())).is_empty());
}

#[test]
fn panels_delete_and_list() {
    assert_eq!(ListTracker::new().del_record(2), ReviewTracker::new().del_task(2));
    assert_eq!(ListTracker::new().del_record(2).len(), 2);
    assert!(ListTracker::new().query_all_records().params.is_empty());
    assert!(ListTracker::new().refresh_checkpoint(2).is_ok());
    assert!(ReviewTracker::new().toggle_task(2, true).is_ok());
    assert!(ReviewTracker::new().review_today().is_ok());
    assert!(ReviewTracker::task_table().sql.contains("PRIMARY KEY (id, create_date)"));
}

#[test]
fn links_in_notes() {
    assert_eq!(link_to_open("read https://example.com now"), Some("https://example.com/".to_string()));
    assert_eq!(link_to_open("see http://a.org/x?y=1\tand https://b.org"), Some("http://a.org/x?y=1".to_string()));
    assert_eq!(link_to_open("HTTP://EXAMPLE.COM"), None);
    assert_eq!(link_to_open("no link here"), None);
    assert_eq!(link_to_open("https://"), None);
    assert_eq!(ListTracker::new().open_link("go https://Example.COM/A"), Some("https://example.com/A".to_string()));
    assert_eq!(ReviewTracker::new().open_link("x"), None);
}

#[test]
fn links_from_matches() {
    assert_eq!(link_from_match(Some(Some("https://example.com".to_string()))), Some("https://example.com/".to_string()));
    assert_eq!(link_from_match(Some(Some("http//x".to_string()))), None);
    assert_eq!(link_from_match(Some(None)), None);
    assert_eq!(link_from_match(None), None);
}
