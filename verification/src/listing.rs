//! The listing of the tasks in two groups: those of other days first, then
//! those of today and yesterday.

use crate::date::{
    categorize, day_of_timestamp, label_text, timestamp_in_calendar, utc_today, CalendarDate,
    TimestampAnalyzer, TimestampCategory, MAX_DAY, MAX_TIMESTAMP, MIN_DAY, MIN_TIMESTAMP,
};
use crate::text::{decimal, decimal_string};
use crate::todos::{lemma_filter_step, records, styled, Todo, TodoView, RESET};
use vstd::prelude::*;

verus! {

/// Escape sequence that starts the position of a task in its group.
pub const ITALIC: &'static str = "\x1B[3m";

/// Whether every task of `todos` was created on a day that the calendar holds.
pub open spec fn datable(todos: Seq<TodoView>) -> bool {
    forall|i: int| 0 <= i < todos.len() ==> timestamp_in_calendar((#[trigger] todos[i]).timestamp)
}

/// Whether the task was created today or yesterday, when today is the day `today`.
pub open spec fn is_recent(todo: TodoView, today: int) -> bool {
    !(categorize(day_of_timestamp(todo.timestamp), today) is Other)
}

/// The tasks of today and yesterday, in their order.
pub open spec fn recent_tasks(todos: Seq<TodoView>, today: int) -> Seq<TodoView> {
    todos.filter(|todo: TodoView| is_recent(todo, today))
}

/// The tasks of all other days, in their order.
pub open spec fn other_tasks(todos: Seq<TodoView>, today: int) -> Seq<TodoView> {
    todos.filter(|todo: TodoView| !is_recent(todo, today))
}

/// The line of a task: its position in its group, in italics and followed by a
/// full stop, then a space and the styled text of the task.
pub open spec fn entry_line(position: nat, todo: TodoView) -> Seq<char> {
    ITALIC@ + decimal(position) + "."@ + RESET@ + " "@ + styled(todo)
}

/// The lines of a group: none for an empty group; else the label of the first
/// task's day, then one line for each task, numbered from 0.
pub open spec fn group_lines(group: Seq<TodoView>, today: int) -> Seq<Seq<char>> {
    if group.len() == 0 {
        Seq::empty()
    } else {
        seq![label_text(categorize(day_of_timestamp(group[0].timestamp), today))] + Seq::new(
            group.len(),
            |i: int| entry_line(i as nat, group[i]),
        )
    }
}

/// The lines of the listing: the group of the other days, then the group of
/// today and yesterday.
pub open spec fn listing(todos: Seq<TodoView>, today: int) -> Seq<Seq<char>> {
    group_lines(other_tasks(todos, today), today) + group_lines(recent_tasks(todos, today), today)
}

/// The lines as sequences of characters.
pub open spec fn texts(lines: Seq<String>) -> Seq<Seq<char>> {
    lines.map_values(|line: String| line@)
}

/// The models of the tasks that `group` refers to.
pub open spec fn referred(group: Seq<&Todo>) -> Seq<TodoView> {
    group.map_values(|todo: &Todo| todo@)
}

/// The line of the task `todo` at the place `position` of its group.
fn entry(position: usize, todo: &Todo) -> (line: String)
    ensures
        line@ == entry_line(position as nat, todo@),
{
    let mut line: String = String::from_str(ITALIC);
    let number: String = decimal_string(position);
    line.append(number.as_str());
    line.append(".");
    line.append(RESET);
    line.append(" ");
    let text: String = todo.styled_text();
    line.append(text.as_str());
    line
}

/// Puts the lines of `group` behind those that `lines` holds.
fn push_group(lines: &mut Vec<String>, group: &Vec<&Todo>, today: CalendarDate)
    requires
        datable(referred(group@)),
    ensures
        texts(final(lines)@) == texts(old(lines)@) + group_lines(referred(group@), today@),
{
    if group.len() == 0 {
        return ;
    }
    assert(timestamp_in_calendar(referred(group@)[0].timestamp));
    let first: TimestampAnalyzer = TimestampAnalyzer { timestamp: group[0].timestamp };
    let header: String = first.label_on(today);
    let ghost head: Seq<Seq<char>> = texts(lines@).push(header@);
    lines.push(header);
    let mut i: usize = 0;
    while i < group.len()
        invariant
            i <= group@.len(),
            texts(lines@) == head + Seq::new(
                i as nat,
                |k: int| entry_line(k as nat, referred(group@)[k]),
            ),
        decreases group@.len() - i,
    {
        let line: String = entry(i, group[i]);
        let ghost so_far: Seq<Seq<char>> = texts(lines@);
        lines.push(line);
        i = i + 1;
        assert(texts(lines@) =~= so_far.push(line@));
        assert(texts(lines@) =~= head + Seq::new(
            i as nat,
            |k: int| entry_line(k as nat, referred(group@)[k]),
        ));
    }
}

/// Whether every task of `items` was created on a day that the calendar holds,
/// so that the tasks can be listed.
pub fn can_list(items: &[Todo]) -> (ok: bool)
    ensures
        ok == datable(records(items@)),
{
    let mut i: usize = 0;
    while i < items.len()
        invariant
            i <= items@.len(),
            datable(records(items@).take(i as int)),
        decreases items@.len() - i,
    {
        if items[i].timestamp < MIN_TIMESTAMP || items[i].timestamp > MAX_TIMESTAMP {
            assert(!timestamp_in_calendar(records(items@)[i as int].timestamp));
            return false;
        }
        assert(datable(records(items@).take(i + 1))) by {
            assert(forall|k: int|
                0 <= k < i ==> records(items@).take(i + 1)[k] == records(items@).take(i as int)[k]);
        }
        i = i + 1;
    }
    assert(records(items@).take(i as int) =~= records(items@));
    true
}

/// The lines of the listing of `items` when today is `today`.
pub fn list_items_on(items: &[Todo], today: CalendarDate) -> (lines: Vec<String>)
    requires
        datable(records(items@)),
    ensures
        texts(lines@) == listing(records(items@), today@),
{
    let mut recent: Vec<&Todo> = Vec::new();
    let mut other: Vec<&Todo> = Vec::new();
    let mut i: usize = 0;
    proof {
        reveal(Seq::filter);
    }
    while i < items.len()
        invariant
            i <= items@.len(),
            datable(records(items@)),
            datable(referred(recent@)),
            datable(referred(other@)),
            referred(recent@) == recent_tasks(records(items@).take(i as int), today@),
            referred(other@) == other_tasks(records(items@).take(i as int), today@),
        decreases items@.len() - i,
    {
        let item: &Todo = &items[i];
        assert(timestamp_in_calendar(records(items@)[i as int].timestamp));
        let analyzer: TimestampAnalyzer = TimestampAnalyzer { timestamp: item.timestamp };
        let category: TimestampCategory = analyzer.categorize_on(today);
        proof {
            lemma_filter_step(records(items@), |todo: TodoView| is_recent(todo, today@), i as int);
            lemma_filter_step(records(items@), |todo: TodoView| !is_recent(todo, today@), i as int);
        }
        let ghost recent_before: Seq<TodoView> = referred(recent@);
        let ghost other_before: Seq<TodoView> = referred(other@);
        if category.is_recent() {
            recent.push(item);
            assert(referred(recent@) =~= recent_before.push(item@));
        } else {
            other.push(item);
            assert(referred(other@) =~= other_before.push(item@));
        }
        i = i + 1;
    }
    assert(records(items@).take(i as int) =~= records(items@));
    let mut lines: Vec<String> = Vec::new();
    push_group(&mut lines, &other, today);
    push_group(&mut lines, &recent, today);
    lines
}

/// The lines of the listing of `items` relative to the current day in UTC,
/// which is read from the clock.
pub fn list_items(items: &[Todo]) -> (lines: Vec<String>)
    requires
        datable(records(items@)),
    ensures
        exists|today: int|
            MIN_DAY <= today <= MAX_DAY && texts(lines@) == #[trigger] listing(
                records(items@),
                today,
            ),
{
    let today: CalendarDate = utc_today();
    list_items_on(items, today)
}

/// Every task stands in exactly one of the two groups.
pub proof fn lemma_groups_hold_every_task(todos: Seq<TodoView>, today: int)
    ensures
        other_tasks(todos, today).len() + recent_tasks(todos, today).len() == todos.len(),
    decreases todos.len(),
{
    reveal(Seq::filter);
    if todos.len() > 0 {
        lemma_groups_hold_every_task(todos.drop_last(), today);
    }
}

} // verus!
