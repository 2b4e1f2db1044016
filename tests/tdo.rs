use tdo::input::{confirms_reset, is_yes, parse_due, parse_id, InputError};
use tdo::listing::listing;
use tdo::ops::{add_task, complete_task, delete_task, reset_tasks};
use tdo::task::{Stamp, Task};

fn sample() -> Vec<Task> {
    let mut tasks: Vec<Task> = Vec::new();
    add_task(&mut tasks, "first".to_string(), None, None);
    add_task(&mut tasks, "second".to_string(), None, Some("daily".to_string()));
    add_task(&mut tasks, "third".to_string(), None, None);
    tasks
}

fn titles(tasks: &Vec<Task>) -> Vec<String> {
    tasks.iter().map(|t| t.title.clone()).collect()
}

#[test]
fn buy_milk_scenario() {
    let mut tasks: Vec<Task> = Vec::new();
    let due = parse_due("2025-03-01").unwrap();
    let id = add_task(&mut tasks, "Buy milk".to_string(), Some(due), None);

    let rows = listing(&tasks);
    assert_eq!(rows.len(), 1);
    assert_eq!(rows[0].number, 1);
    assert_eq!(rows[0].title, "Buy milk");
    assert!(!rows[0].done);
    assert_eq!(rows[0].due.as_deref(), Some("2025-03-01"));
    assert_eq!(rows[0].id, id);

    assert!(complete_task(&mut tasks, id));
    let rows = listing(&tasks);
    assert_eq!(rows.len(), 1);
    assert!(rows[0].done);
    assert_eq!(rows[0].title, "Buy milk");

    assert!(delete_task(&mut tasks, id));
    assert!(listing(&tasks).is_empty());
    assert!(tasks.is_empty());
}

#[test]
fn add_appends_one_new_task() {
    let mut tasks = sample();
    let due = Stamp { secs: 86400, nanos: 0 };
    let id = add_task(&mut tasks, "fourth".to_string(), Some(due), Some("weekly".to_string()));
    assert_eq!(titles(&tasks), vec!["first", "second", "third", "fourth"]);
    let last = &tasks[3];
    assert_eq!(last.id, id);
    assert!(!last.done);
    assert_eq!(last.due, Some(due));
    assert_eq!(last.repeat.as_deref(), Some("weekly"));
    let rows = listing(&tasks);
    assert_eq!(rows.len(), 4);
    assert_eq!(rows[3].number, 4);
    assert_eq!(rows[3].title, "fourth");
    assert_eq!(rows[3].due.as_deref(), Some("1970-01-02"));
    assert!(!rows[3].done);
}

#[test]
fn add_accepts_empty_title() {
    let mut tasks: Vec<Task> = Vec::new();
    add_task(&mut tasks, String::new(), None, None);
    assert_eq!(tasks.len(), 1);
    assert_eq!(tasks[0].title, "");
}

#[test]
fn new_task_is_not_done_and_ids_differ() {
    let a = Task::new("a".to_string(), None, None);
    let b = Task::new("b".to_string(), None, None);
    assert!(!a.done);
    assert_eq!(a.title, "a");
    assert_eq!(a.due, None);
    assert_eq!(a.repeat, None);
    assert_ne!(a.id, b.id);
    assert!(a.created_at.secs > 1_600_000_000);
}

#[test]
fn complete_marks_only_the_matching_task() {
    let mut tasks = sample();
    let id = tasks[1].id;
    assert!(complete_task(&mut tasks, id));
    assert_eq!(titles(&tasks), vec!["first", "second", "third"]);
    assert!(!tasks[0].done);
    assert!(tasks[1].done);
    assert!(!tasks[2].done);
    assert_eq!(tasks[1].repeat.as_deref(), Some("daily"));
    assert_eq!(tasks[1].id, id);
}

#[test]
fn complete_twice_keeps_task_done() {
    let mut tasks = sample();
    let id = tasks[0].id;
    assert!(complete_task(&mut tasks, id));
    assert!(complete_task(&mut tasks, id));
    assert!(tasks[0].done);
    assert_eq!(tasks.len(), 3);
}

#[test]
fn complete_absent_id_changes_nothing() {
    let mut tasks = sample();
    let ids: Vec<u128> = tasks.iter().map(|t| t.id).collect();
    let absent = ids[0] ^ ids[1] ^ ids[2] ^ 1;
    assert!(!ids.contains(&absent));
    assert!(!complete_task(&mut tasks, absent));
    assert_eq!(titles(&tasks), vec!["first", "second", "third"]);
    assert!(tasks.iter().all(|t| !t.done));
}

#[test]
fn delete_present_removes_exactly_one() {
    let mut tasks = sample();
    let id = tasks[1].id;
    assert!(delete_task(&mut tasks, id));
    assert_eq!(titles(&tasks), vec!["first", "third"]);
    assert!(tasks.iter().all(|t| t.id != id));
}

#[test]
fn delete_absent_changes_nothing() {
    let mut tasks = sample();
    let ids: Vec<u128> = tasks.iter().map(|t| t.id).collect();
    let absent = ids[0] ^ ids[1] ^ ids[2] ^ 1;
    assert!(!ids.contains(&absent));
    assert!(!delete_task(&mut tasks, absent));
    assert_eq!(titles(&tasks), vec!["first", "second", "third"]);
}

#[test]
fn delete_on_empty_collection() {
    let mut tasks: Vec<Task> = Vec::new();
    assert!(!delete_task(&mut tasks, 7));
    assert!(tasks.is_empty());
}

#[test]
fn reset_declined_keeps_tasks() {
    for answer in ["n", "", "\n", "yes", "no", " n \n", "yy"] {
        let mut tasks = sample();
        assert!(!reset_tasks(&mut tasks, answer));
        assert_eq!(titles(&tasks), vec!["first", "second", "third"]);
    }
}

#[test]
fn reset_confirmed_empties() {
    for answer in ["y", "Y", "y\n", "  Y \r\n"] {
        let mut tasks = sample();
        assert!(reset_tasks(&mut tasks, answer));
        assert!(tasks.is_empty());
    }
}

#[test]
fn confirmation_answers() {
    assert!(confirms_reset("y\n"));
    assert!(confirms_reset(" Y "));
    assert!(!confirms_reset("n"));
    assert!(!confirms_reset(""));
    assert!(!confirms_reset("ye"));
}

#[test]
fn yes_after_folding() {
    assert!(is_yes("y"));
    assert!(!is_yes("Y"));
    assert!(!is_yes(" y"));
    assert!(!is_yes("yy"));
    assert!(!is_yes(""));
}

#[test]
fn due_date_is_midnight_utc() {
    assert_eq!(parse_due("1970-01-01"), Ok(Stamp { secs: 0, nanos: 0 }));
    assert_eq!(parse_due("1970-01-02"), Ok(Stamp { secs: 86400, nanos: 0 }));
    assert_eq!(parse_due("2025-03-01"), Ok(Stamp { secs: 1740787200, nanos: 0 }));
}

#[test]
fn malformed_due_dates() {
    assert_eq!(parse_due("2025-13-01"), Err(InputError::MalformedDate));
    assert_eq!(parse_due("2025-02-30"), Err(InputError::MalformedDate));
    assert_eq!(parse_due("tomorrow"), Err(InputError::MalformedDate));
    assert_eq!(parse_due(""), Err(InputError::MalformedDate));
}

#[test]
fn ids_parse_from_uuid_text() {
    assert_eq!(
        parse_id("67e55044-10b1-426f-9247-bb680e5fe0c8"),
        Ok(0x67e55044_10b1_426f_9247_bb680e5fe0c8u128)
    );
    assert_eq!(
        parse_id("67e5504410b1426f9247bb680e5fe0c8"),
        Ok(0x67e55044_10b1_426f_9247_bb680e5fe0c8u128)
    );
}

#[test]
fn malformed_ids() {
    assert_eq!(parse_id("not-a-uuid"), Err(InputError::MalformedId));
    assert_eq!(parse_id(""), Err(InputError::MalformedId));
    assert_eq!(parse_id("67e55044-10b1-426f-9247-bb680e5fe0c"), Err(InputError::MalformedId));
}

#[test]
fn listing_numbers_from_one() {
    let tasks = sample();
    let rows = listing(&tasks);
    let numbers: Vec<usize> = rows.iter().map(|r| r.number).collect();
    assert_eq!(numbers, vec![1, 2, 3]);
    assert!(rows.iter().all(|r| r.due.is_none()));
    assert_eq!(rows[2].title, "third");
    assert_eq!(rows[2].id, tasks[2].id);
}

#[test]
fn listing_of_empty_collection() {
    let tasks: Vec<Task> = Vec::new();
    assert!(listing(&tasks).is_empty());
}

#[test]
fn listing_of_unwritable_due_date() {
    let mut tasks: Vec<Task> = Vec::new();
    add_task(&mut tasks, "far".to_string(), Some(Stamp { secs: i64::MAX, nanos: 0 }), None);
    let rows = listing(&tasks);
    assert_eq!(rows[0].due, None);
}
