//! The task records and the store that keeps them in the order in which they came.

use crate::date::{
    date_text, local_now, timestamp_in_calendar, CalendarDate, MAX_DAY, MIN_DAY,
};
use vstd::prelude::*;

verus! {

/// Escape sequence that starts the text of an open task.
pub const RED: &'static str = "\x1B[91m";

/// Escape sequence that starts the text of a completed task.
pub const GREEN_STRIKETHROUGH: &'static str = "\x1B[32;9m";

/// Escape sequence that ends a styled text.
pub const RESET: &'static str = "\x1B[0m";

/// One task.
#[derive(Clone, Debug, PartialEq, Eq)]
pub struct Todo {
    pub id: usize,
    pub timestamp: i64,
    pub date: String,
    pub text: String,
    pub completed: bool,
}

/// The model of a task: its numbers as integers, its texts as sequences of characters.
pub struct TodoView {
    pub id: nat,
    pub timestamp: int,
    pub date: Seq<char>,
    pub text: Seq<char>,
    pub completed: bool,
}

impl View for Todo {
    type V = TodoView;

    open spec fn view(&self) -> TodoView {
        TodoView {
            id: self.id as nat,
            timestamp: self.timestamp as int,
            date: self.date@,
            text: self.text@,
            completed: self.completed,
        }
    }
}

/// The models of the tasks of `todos`, in their order.
pub open spec fn records(todos: Seq<Todo>) -> Seq<TodoView> {
    todos.map_values(|todo: Todo| todo@)
}

/// The open task with the text `text` that was created at the second `seconds`
/// since the epoch, on the day that is written `date`: the second is both its
/// id and its timestamp.
pub open spec fn fresh(seconds: int, date: Seq<char>, text: Seq<char>) -> TodoView {
    TodoView { id: seconds as nat, timestamp: seconds, date, text, completed: false }
}

/// `todo` with its completion set to `status` and nothing else changed.
pub open spec fn with_completed(todo: TodoView, status: bool) -> TodoView {
    TodoView { completed: status, ..todo }
}

/// The text of a task between the escape sequence of its state and the one that
/// ends the style.
pub open spec fn styled(todo: TodoView) -> Seq<char> {
    (if todo.completed {
        GREEN_STRIKETHROUGH@
    } else {
        RED@
    }) + todo.text + RESET@
}

/// The id that a count of seconds gives, if it is one: the count itself.
pub fn id_from_seconds(seconds: i64) -> (id: Option<usize>)
    ensures
        id.is_some() == (0 <= seconds <= usize::MAX),
        id matches Some(n) ==> n == seconds,
{
    match usize::try_from(seconds) {
        Ok(n) => Some(n),
        Err(_) => None,
    }
}

/// What makes a task and sets its state.
pub trait TraidTodo: Sized + View<V = TodoView> {
    /// A new open task with the given text, stamped from the clock: its id and
    /// its timestamp are the seconds since the epoch, its date is the current
    /// day in the machine's time zone. There is no task where the seconds are
    /// no id.
    fn new(text: String) -> (todo: Option<Self>)
        ensures
            todo matches Some(t) ==> exists|seconds: int, day: int|
                0 <= seconds <= usize::MAX && timestamp_in_calendar(seconds) && MIN_DAY <= day
                    <= MAX_DAY && t@ == #[trigger] fresh(seconds, date_text(day), text@),
    ;

    /// Sets the completion of the task to `status`.
    fn toggle_status(&mut self, status: bool)
        ensures
            final(self)@ == with_completed(old(self)@, status),
    ;
}

impl TraidTodo for Todo {
    fn new(text: String) -> (todo: Option<Self>) {
        let (seconds, today): (i64, CalendarDate) = local_now();
        let date: String = today.text();
        Todo::created_at(text, seconds, date)
    }

    fn toggle_status(&mut self, status: bool) {
        self.completed = status;
    }
}

impl Todo {
    /// The open task with the given text that was created at the second
    /// `seconds` since the epoch, on the day that is written `date`. There is
    /// none where `seconds` is no id.
    pub fn created_at(text: String, seconds: i64, date: String) -> (todo: Option<Todo>)
        ensures
            todo.is_some() == (0 <= seconds <= usize::MAX),
            todo matches Some(t) ==> t@ == fresh(seconds as int, date@, text@),
    {
        match id_from_seconds(seconds) {
            Some(id) => Some(Todo { id, text, completed: false, timestamp: seconds, date }),
            None => None,
        }
    }

    /// The text of the task, styled by its state: struck through in green when
    /// it is completed, red when it is open.
    pub fn styled_text(&self) -> (text: String)
        ensures
            text@ == styled(self@),
    {
        let mut text: String = String::from_str(
            if self.completed {
                GREEN_STRIKETHROUGH
            } else {
                RED
            },
        );
        text.append(self.text.as_str());
        text.append(RESET);
        text
    }

    /// A second task that is equal to this one.
    pub fn duplicate(&self) -> (todo: Todo)
        ensures
            todo@ == self@,
    {
        Todo {
            id: self.id,
            timestamp: self.timestamp,
            date: self.date.clone(),
            text: self.text.clone(),
            completed: self.completed,
        }
    }
}

/// The tasks, in the order in which they were added.
#[derive(Clone, Debug, PartialEq, Eq)]
pub struct Todos {
    pub todos: Vec<Todo>,
}

impl View for Todos {
    type V = Seq<TodoView>;

    open spec fn view(&self) -> Seq<TodoView> {
        records(self.todos@)
    }
}

/// The tasks of `todos` whose id is not `id`, in their order.
pub open spec fn without_id(todos: Seq<TodoView>, id: nat) -> Seq<TodoView> {
    todos.filter(|todo: TodoView| todo.id != id)
}

/// Whether `k` is the place of the first task of `todos` whose id is `id`.
pub open spec fn is_first_with_id(todos: Seq<TodoView>, id: nat, k: int) -> bool {
    &&& 0 <= k < todos.len()
    &&& todos[k].id == id
    &&& forall|j: int| 0 <= j < k ==> (#[trigger] todos[j]).id != id
}

/// Whether a task of `todos` has the id `id`.
pub open spec fn has_id(todos: Seq<TodoView>, id: nat) -> bool {
    exists|k: int| is_first_with_id(todos, id, k)
}

/// The place of the first task of `todos` whose id is `id`, where there is one.
pub open spec fn first_with_id(todos: Seq<TodoView>, id: nat) -> int {
    choose|k: int| is_first_with_id(todos, id, k)
}

/// `todos` after the first task whose id is `id` has had its completion set to
/// `status`; `todos` itself where no task has that id.
pub open spec fn with_status(todos: Seq<TodoView>, id: nat, status: bool) -> Seq<TodoView> {
    if has_id(todos, id) {
        let k: int = first_with_id(todos, id);
        todos.update(k, with_completed(todos[k], status))
    } else {
        todos
    }
}

/// Whether `c` is white space: a tab, a line feed, a vertical tab, a form feed,
/// a carriage return, a space, the next-line control, or one of the spaces and
/// separators beyond ASCII.
pub open spec fn whitespace(c: char) -> bool {
    ||| ('\u{9}' <= c && c <= '\u{d}')
    ||| c == ' '
    ||| c == '\u{85}'
    ||| c == '\u{a0}'
    ||| c == '\u{1680}'
    ||| ('\u{2000}' <= c && c <= '\u{200a}')
    ||| c == '\u{2028}'
    ||| c == '\u{2029}'
    ||| c == '\u{202f}'
    ||| c == '\u{205f}'
    ||| c == '\u{3000}'
}

/// Whether `content` holds nothing but white space; the empty text does.
pub open spec fn blank(content: Seq<char>) -> bool {
    forall|i: int| 0 <= i < content.len() ==> whitespace(#[trigger] content[i])
}

/// The tasks that the store holds after it has read `content`, which was parsed
/// into `parsed` or could not be parsed: the parsed tasks where there are any;
/// else none where the content is blank, and the `prior` ones where it is not.
pub open spec fn loaded(
    prior: Seq<TodoView>,
    content: Seq<char>,
    parsed: Option<Seq<TodoView>>,
) -> Seq<TodoView> {
    match parsed {
        Some(found) => found,
        None => if blank(content) {
            Seq::empty()
        } else {
            prior
        },
    }
}

/// The models of the parsed tasks, where the content could be parsed.
pub open spec fn parsed_records(parsed: Result<Vec<Todo>, String>) -> Option<Seq<TodoView>> {
    match parsed {
        Ok(found) => Some(records(found@)),
        Err(_) => None,
    }
}

/// Whether `c` is white space.
pub fn is_whitespace(c: char) -> (white: bool)
    ensures
        white == whitespace(c),
{
    let control: bool = ('\u{9}' <= c && c <= '\u{d}') || c == ' ' || c == '\u{85}';
    let space: bool = c == '\u{a0}' || c == '\u{1680}' || ('\u{2000}' <= c && c <= '\u{200a}');
    let separator: bool = c == '\u{2028}' || c == '\u{2029}' || c == '\u{202f}';
    control || space || separator || c == '\u{205f}' || c == '\u{3000}'
}

/// Whether `content` holds nothing but white space.
pub fn is_blank(content: &str) -> (empty: bool)
    ensures
        empty == blank(content@),
{
    let mut empty: bool = true;
    for c in chars: content.chars()
        invariant
            chars.seq() == content@,
            empty == (forall|i: int| 0 <= i < chars.index() ==> whitespace(#[trigger] content@[i])),
    {
        if !is_whitespace(c) {
            empty = false;
        }
    }
    empty
}

/// What takes its tasks from the text of a backing file.
pub trait Readable: Sized + View<V = Seq<TodoView>> {
    /// Takes over what the backing file held: `content` is its text and `parsed`
    /// what parsing that text gave, the tasks or the parser's message. The
    /// message, where there is one, comes back to be shown.
    fn read(&mut self, content: &str, parsed: Result<Vec<Todo>, String>) -> (diagnostic: Option<
        String,
    >)
        ensures
            final(self)@ == loaded(old(self)@, content@, parsed_records(parsed)),
            match parsed {
                Ok(_) => diagnostic is None,
                Err(message) => diagnostic matches Some(shown) && shown@ == message@,
            },
    ;
}

/// What keeps tasks in order and changes them by their id.
pub trait TraitTodos: Sized + View<V = Seq<TodoView>> {
    /// A store without tasks.
    fn new() -> (store: Self)
        ensures
            store@ == Seq::<TodoView>::empty(),
    ;

    /// Puts `todo` at the end.
    fn add(&mut self, todo: Todo)
        ensures
            final(self)@ == old(self)@.push(todo@),
    ;

    /// Takes out every task whose id is `id`.
    fn remove(&mut self, id: usize)
        ensures
            final(self)@ == without_id(old(self)@, id as nat),
    ;

    /// Marks the first task whose id is `id` as completed.
    fn mark_completed(&mut self, id: usize)
        ensures
            final(self)@ == with_status(old(self)@, id as nat, true),
    ;

    /// Marks the first task whose id is `id` as open.
    fn unmark_completed(&mut self, id: usize)
        ensures
            final(self)@ == with_status(old(self)@, id as nat, false),
    ;
}

/// The place that `is_first_with_id` describes is the only one.
pub proof fn lemma_first_with_id_is_unique(todos: Seq<TodoView>, id: nat, k: int)
    requires
        is_first_with_id(todos, id, k),
    ensures
        has_id(todos, id),
        first_with_id(todos, id) == k,
{
    let found: int = first_with_id(todos, id);
    assert(is_first_with_id(todos, id, found));
}

/// Filtering one more item of a sequence either appends that item to what the
/// filter kept so far or leaves it as it was.
pub(crate) proof fn lemma_filter_step<A>(items: Seq<A>, keep: spec_fn(A) -> bool, j: int)
    requires
        0 <= j < items.len(),
    ensures
        items.take(j + 1).filter(keep) == if keep(items[j]) {
            items.take(j).filter(keep).push(items[j])
        } else {
            items.take(j).filter(keep)
        },
{
    reveal(Seq::filter);
    assert(items.take(j + 1).drop_last() =~= items.take(j));
}

impl Todos {
    /// Creates an open task with the given text from the clock, puts it at the
    /// end and returns it: its id and its timestamp are the seconds since the
    /// epoch, its date is the current day in the machine's time zone. Where
    /// the clock gives no id, nothing is added.
    pub fn add_text(&mut self, text: String) -> (added: Option<Todo>)
        ensures
            match added {
                Some(todo) => {
                    &&& final(self)@ == old(self)@.push(todo@)
                    &&& todo@.text == text@
                    &&& !todo@.completed
                    &&& exists|seconds: int, day: int|
                        0 <= seconds <= usize::MAX && timestamp_in_calendar(seconds) && MIN_DAY
                            <= day <= MAX_DAY && todo@ == #[trigger] fresh(
                            seconds,
                            date_text(day),
                            text@,
                        )
                },
                None => final(self)@ == old(self)@,
            },
    {
        match Todo::new(text) {
            Some(todo) => {
                let added: Todo = todo.duplicate();
                self.add(todo);
                Some(added)
            },
            None => None,
        }
    }

    /// Marks as completed the first task that has the id of the task at the
    /// place `number`.
    pub fn check(&mut self, number: usize)
        requires
            number < old(self)@.len(),
        ensures
            final(self)@ == with_status(old(self)@, old(self)@[number as int].id, true),
    {
        let id: usize = self.todos[number].id;
        self.mark_completed(id);
    }

    /// Marks as open the first task that has the id of the task at the place
    /// `number`.
    pub fn uncheck(&mut self, number: usize)
        requires
            number < old(self)@.len(),
        ensures
            final(self)@ == with_status(old(self)@, old(self)@[number as int].id, false),
    {
        let id: usize = self.todos[number].id;
        self.unmark_completed(id);
    }

    /// Takes out every task that has the id of the task at the place `number`.
    pub fn delete(&mut self, number: usize)
        requires
            number < old(self)@.len(),
        ensures
            final(self)@ == without_id(old(self)@, old(self)@[number as int].id),
    {
        let id: usize = self.todos[number].id;
        self.remove(id);
    }

    /// Sets the completion of the first task whose id is `id` to `status`.
    fn set_status(&mut self, id: usize, status: bool)
        ensures
            final(self)@ == with_status(old(self)@, id as nat, status),
    {
        let mut i: usize = 0;
        while i < self.todos.len()
            invariant
                i <= self.todos@.len(),
                self.todos@ == old(self).todos@,
                forall|j: int| 0 <= j < i ==> (#[trigger] self@[j]).id != id as nat,
            decreases self.todos@.len() - i,
        {
            if self.todos[i].id == id {
                proof {
                    lemma_first_with_id_is_unique(self@, id as nat, i as int);
                }
                self.todos[i].toggle_status(status);
                return ;
            }
            i = i + 1;
        }
        assert(!has_id(self@, id as nat));
    }
}

impl Readable for Todos {
    fn read(&mut self, content: &str, parsed: Result<Vec<Todo>, String>) -> (diagnostic: Option<
        String,
    >) {
        if is_blank(content) {
            self.todos = Vec::new();
        }
        match parsed {
            Ok(found) => {
                self.todos = found;
                None
            },
            Err(message) => Some(message),
        }
    }
}

impl TraitTodos for Todos {
    fn new() -> (store: Self) {
        Todos { todos: Vec::new() }
    }

    fn add(&mut self, todo: Todo) {
        self.todos.push(todo);
    }

    fn remove(&mut self, id: usize) {
        let ghost before: Seq<TodoView> = self@;
        let mut i: usize = 0;
        proof {
            reveal(Seq::filter);
        }
        while i < self.todos.len()
            invariant
                i <= self.todos@.len() <= before.len(),
                self@.skip(i as int) == before.skip(i + before.len() - self.todos@.len()),
                self@.take(i as int) == without_id(
                    before.take(i + before.len() - self.todos@.len()),
                    id as nat,
                ),
            decreases self.todos@.len() - i,
        {
            let ghost current: Seq<TodoView> = self@;
            let ghost j: int = i + before.len() - self.todos@.len();
            proof {
                assert(current.skip(i as int)[0] == before.skip(j)[0]);
                assert(before.skip(j + 1) =~= before.skip(j).skip(1));
                lemma_filter_step(before, |todo: TodoView| todo.id != id as nat, j);
            }
            if self.todos[i].id == id {
                self.todos.remove(i);
            } else {
                i = i + 1;
            }
        }
        assert(before.take(before.len() as int) =~= before);
    }

    fn mark_completed(&mut self, id: usize) {
        self.set_status(id, true);
    }

    fn unmark_completed(&mut self, id: usize) {
        self.set_status(id, false);
    }
}

/// Content that is blank and does not parse leaves the store empty, whatever
/// it held.
pub proof fn lemma_blank_content_empties(prior: Seq<TodoView>, content: Seq<char>)
    requires
        blank(content),
    ensures
        loaded(prior, content, None) == Seq::<TodoView>::empty(),
{
}

/// The empty text is blank, so an empty file that does not parse leaves the
/// store empty.
pub proof fn lemma_empty_content_empties(prior: Seq<TodoView>)
    ensures
        blank(Seq::<char>::empty()),
        loaded(prior, Seq::<char>::empty(), None) == Seq::<TodoView>::empty(),
{
}

/// Content that is not blank and does not parse leaves the store as it was.
pub proof fn lemma_invalid_content_keeps(prior: Seq<TodoView>, content: Seq<char>)
    requires
        !blank(content),
    ensures
        loaded(prior, content, None) == prior,
{
}

/// Content that parses replaces what the store held by the parsed tasks, in
/// their order.
pub proof fn lemma_parsed_content_replaces(
    prior: Seq<TodoView>,
    content: Seq<char>,
    found: Seq<TodoView>,
)
    ensures
        loaded(prior, content, Some(found)) == found,
{
}

/// Adding a task makes the store one longer, puts the task last and leaves the
/// tasks before it as they were.
pub proof fn lemma_add_appends_one(todos: Seq<TodoView>, todo: TodoView)
    ensures
        todos.push(todo).len() == todos.len() + 1,
        todos.push(todo).last() == todo,
        todos.push(todo).drop_last() == todos,
{
}

/// Setting the completion of a task changes neither the ids nor the order, so
/// the task that a later setting finds is the same one.
pub proof fn lemma_status_keeps_ids(todos: Seq<TodoView>, id: nat, status: bool, other: nat)
    ensures
        with_status(todos, id, status).len() == todos.len(),
        forall|k: int|
            0 <= k < todos.len() ==> (#[trigger] with_status(todos, id, status)[k]).id == todos[k].id,
        has_id(with_status(todos, id, status), other) == has_id(todos, other),
        has_id(todos, other) ==> first_with_id(with_status(todos, id, status), other)
            == first_with_id(todos, other),
{
    let after: Seq<TodoView> = with_status(todos, id, status);
    if has_id(todos, other) {
        let k: int = first_with_id(todos, other);
        assert(is_first_with_id(after, other, k));
        lemma_first_with_id_is_unique(after, other, k);
    }
    if has_id(after, other) {
        let k: int = first_with_id(after, other);
        assert(is_first_with_id(todos, other, k)) by {
            assert forall|j: int| 0 <= j < k implies (#[trigger] todos[j]).id != other by {
                assert(after[j].id != other);
            }
        }
    }
}

/// After marking and unmarking the task with one id, in any order and any
/// number of times, its completion is what the last call set: a setting wipes
/// out the one before it, and the task that it finds has the status that it
/// set.
pub proof fn lemma_last_status_wins(todos: Seq<TodoView>, id: nat, earlier: bool, last: bool)
    ensures
        with_status(with_status(todos, id, earlier), id, last) == with_status(todos, id, last),
        has_id(todos, id) ==> with_status(todos, id, last)[first_with_id(todos, id)].completed
            == last,
{
    lemma_status_keeps_ids(todos, id, earlier, id);
    if has_id(todos, id) {
        let k: int = first_with_id(todos, id);
        assert(with_status(with_status(todos, id, earlier), id, last) =~= with_status(
            todos,
            id,
            last,
        ));
    }
}

} // verus!
