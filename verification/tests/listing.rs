use chrono::Utc;
use todo_list::date::CalendarDate;
use todo_list::date::{MAX_TIMESTAMP, MIN_TIMESTAMP};
use todo_list::listing::{can_list, list_items, list_items_on, ITALIC};
use todo_list::todos::Todo;

const TODAY: i32 = 738_950;
const MIDNIGHT: i64 = 1_709_596_800;
const DAY: i64 = 86_400;

fn today() -> CalendarDate {
    CalendarDate::from_days(TODAY).unwrap()
}

fn todo(timestamp: i64, text: &str, completed: bool) -> Todo {
    Todo {
        id: timestamp as usize,
        timestamp,
        date: String::from("unused"),
        text: String::from(text),
        completed,
    }
}

fn open(position: usize, text: &str) -> String {
    format!("\x1B[3m{}.\x1B[0m \x1B[91m{}\x1B[0m", position, text)
}

fn done(position: usize, text: &str) -> String {
    format!("\x1B[3m{}.\x1B[0m \x1B[32;9m{}\x1B[0m", position, text)
}

#[test]
fn empty_list_has_no_lines() {
    assert!(list_items_on(&[], today()).is_empty());
}

#[test]
fn listing_groups_other_days_first_and_numbers_each_group_from_zero() {
    let items = vec![
        todo(MIDNIGHT + 60, "today", false),
        todo(MIDNIGHT - 60, "yesterday", true),
        todo(MIDNIGHT - 3 * DAY + 60, "three days ago", false),
    ];
    let lines = list_items_on(&items, today());
    assert_eq!(
        lines,
        vec![
            String::from("02/03/2024"),
            open(0, "three days ago"),
            String::from("Today"),
            open(0, "today"),
            done(1, "yesterday"),
        ]
    );
}

#[test]
fn recent_header_is_that_of_the_first_recent_task() {
    let items = vec![
        todo(MIDNIGHT - 60, "yesterday", false),
        todo(MIDNIGHT - 3 * DAY, "three days ago", true),
        todo(MIDNIGHT + 60, "today", false),
    ];
    let lines = list_items_on(&items, today());
    assert_eq!(
        lines,
        vec![
            String::from("02/03/2024"),
            done(0, "three days ago"),
            String::from("Yesterday"),
            open(0, "yesterday"),
            open(1, "today"),
        ]
    );
}

#[test]
fn other_header_is_that_of_the_first_other_task() {
    let items = vec![
        todo(MIDNIGHT - 10 * DAY, "ten days ago", false),
        todo(MIDNIGHT - 3 * DAY, "three days ago", false),
        todo(MIDNIGHT + DAY, "tomorrow", true),
        todo(0, "the epoch", false),
    ];
    let lines = list_items_on(&items, today());
    assert_eq!(
        lines,
        vec![
            String::from("24/02/2024"),
            open(0, "ten days ago"),
            open(1, "three days ago"),
            done(2, "tomorrow"),
            open(3, "the epoch"),
        ]
    );
}

#[test]
fn only_recent_tasks_give_one_group() {
    let items = vec![todo(MIDNIGHT, "a", true), todo(MIDNIGHT + DAY - 1, "b", false)];
    assert_eq!(
        list_items_on(&items, today()),
        vec![String::from("Today"), done(0, "a"), open(1, "b")]
    );
}

#[test]
fn positions_go_on_past_nine() {
    let mut items = Vec::new();
    for i in 0..12 {
        items.push(todo(MIDNIGHT + i, "x", false));
    }
    let lines = list_items_on(&items, today());
    assert_eq!(lines.len(), 13);
    assert_eq!(lines[0], "Today");
    assert_eq!(lines[10], open(9, "x"));
    assert_eq!(lines[11], open(10, "x"));
    assert_eq!(lines[12], open(11, "x"));
}

#[test]
fn italic_is_the_escape_sequence() {
    assert_eq!(ITALIC, "\x1B[3m");
}

#[test]
fn listing_by_the_clock_puts_the_current_second_under_today() {
    let before = Utc::now();
    let items = vec![
        todo(before.timestamp(), "now", false),
        todo(before.timestamp() - 3 * DAY, "three days ago", true),
    ];
    let lines = list_items(&items);
    let after = Utc::now();
    if before.date_naive() == after.date_naive() {
        let then = (before - chrono::Duration::days(3)).format("%d/%m/%Y").to_string();
        assert_eq!(
            lines,
            vec![then, done(0, "three days ago"), String::from("Today"), open(0, "now")]
        );
    }
}

#[test]
fn tasks_within_the_calendar_can_be_listed() {
    assert!(can_list(&[]));
    assert!(can_list(&[todo(0, "a", false), todo(MIDNIGHT, "b", true)]));
    assert!(can_list(&[todo(MIN_TIMESTAMP, "a", false), todo(MAX_TIMESTAMP, "b", false)]));
    assert!(!can_list(&[todo(MAX_TIMESTAMP + 1, "a", false)]));
    assert!(!can_list(&[todo(0, "a", false), todo(MIN_TIMESTAMP - 1, "b", false)]));
    assert!(!can_list(&[todo(i64::MAX, "a", false), todo(0, "b", false)]));
}

#[test]
fn listing_at_the_ends_of_the_calendar() {
    let items = vec![todo(MIN_TIMESTAMP, "first", false), todo(MAX_TIMESTAMP, "last", true)];
    assert_eq!(
        list_items_on(&items, today()),
        vec![String::from("01/01/-262143"), open(0, "first"), done(1, "last")]
    );
}
