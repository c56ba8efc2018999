//! The interactive view: a list with one selected row, the keys that move the
//! selection, toggle a task or end the session, and the rows that are shown.

use crate::text::{decimal, decimal_string};
use crate::todos::{records, with_completed, Todo, TodoView, TraidTodo};
use vstd::prelude::*;

verus! {

/// Title of the list on the screen.
pub const TITLE: &'static str = "Todos";

/// Width of the part of the screen that the list takes, in columns.
pub const VIEW_WIDTH: u16 = 106;

/// Height of the part of the screen that the list takes, in rows.
pub const VIEW_HEIGHT: u16 = 16;

/// How long the view waits for a key before it draws again, in milliseconds.
pub const POLL_MILLIS: u64 = 250;

/// A key press, as far as the view tells keys apart.
#[derive(Clone, Copy, Debug, PartialEq, Eq)]
pub enum Key {
    Left,
    Down,
    Up,
    Char(char),
    Other,
}

/// What a key press asks of the view.
#[derive(Clone, Copy, Debug, PartialEq, Eq)]
pub enum Action {
    Unselect,
    Next,
    Previous,
    Toggle,
    Quit,
    Ignore,
}

/// The action of a key: the arrows and `h`, `j`, `k` move or clear the
/// selection, `t` toggles, `q` quits, and every other key does nothing.
pub open spec fn action_of(key: Key) -> Action {
    match key {
        Key::Left => Action::Unselect,
        Key::Down => Action::Next,
        Key::Up => Action::Previous,
        Key::Char(c) => if c == 'h' {
            Action::Unselect
        } else if c == 'j' {
            Action::Next
        } else if c == 'k' {
            Action::Previous
        } else if c == 't' {
            Action::Toggle
        } else if c == 'q' {
            Action::Quit
        } else {
            Action::Ignore
        },
        Key::Other => Action::Ignore,
    }
}

impl Action {
    /// The action of a key.
    pub fn of_key(key: Key) -> (action: Action)
        ensures
            action == action_of(key),
    {
        match key {
            Key::Left => Action::Unselect,
            Key::Down => Action::Next,
            Key::Up => Action::Previous,
            Key::Char(c) => if c == 'h' {
                Action::Unselect
            } else if c == 'j' {
                Action::Next
            } else if c == 'k' {
                Action::Previous
            } else if c == 't' {
                Action::Toggle
            } else if c == 'q' {
                Action::Quit
            } else {
                Action::Ignore
            },
            Key::Other => Action::Ignore,
        }
    }
}

/// The selection after a step down in a list of `len` rows: the first row
/// where nothing was selected, the row below the selected one, and from the
/// last row the first one again. An empty list has no selection.
pub open spec fn next_selection(selected: Option<int>, len: int) -> Option<int> {
    if len <= 0 {
        None
    } else {
        match selected {
            Some(i) => if i >= len - 1 {
                Some(0)
            } else {
                Some(i + 1)
            },
            None => Some(0),
        }
    }
}

/// The selection after a step up in a list of `len` rows: the first row where
/// nothing was selected, the row above the selected one, and from the first
/// row the last one. An empty list has no selection.
pub open spec fn previous_selection(selected: Option<int>, len: int) -> Option<int> {
    if len <= 0 {
        None
    } else {
        match selected {
            Some(i) => if i == 0 {
                Some(len - 1)
            } else {
                Some(i - 1)
            },
            None => Some(0),
        }
    }
}

/// A list of which at most one row is selected. The selected row is always a
/// row of the list.
pub struct StatefulList<T> {
    selected: Option<usize>,
    items: Vec<T>,
}

impl<T> StatefulList<T> {
    #[verifier::type_invariant]
    spec fn selection_in_list(self) -> bool {
        self.selected matches Some(i) ==> i < self.items@.len()
    }

    /// The place of the selected row, where a row is selected.
    pub closed spec fn selection(&self) -> Option<int> {
        match self.selected {
            Some(i) => Some(i as int),
            None => None,
        }
    }

    /// The rows of the list.
    pub closed spec fn contents(&self) -> Seq<T> {
        self.items@
    }

    /// A list of the given rows with none selected.
    pub fn with_items(items: Vec<T>) -> (list: Self)
        ensures
            list.selection() is None,
            list.contents() == items@,
    {
        StatefulList { selected: None, items }
    }

    /// Moves the selection one row down, and from the last row to the first.
    pub fn next(&mut self)
        ensures
            final(self).contents() == old(self).contents(),
            final(self).selection() == next_selection(
                old(self).selection(),
                old(self).contents().len() as int,
            ),
    {
        proof {
            use_type_invariant(&*self);
        }
        if self.items.len() == 0 {
            return ;
        }
        let i: usize = match self.selected {
            Some(i) => if i >= self.items.len() - 1 {
                0
            } else {
                i + 1
            },
            None => 0,
        };
        self.selected = Some(i);
    }

    /// Moves the selection one row up, and from the first row to the last.
    pub fn previous(&mut self)
        ensures
            final(self).contents() == old(self).contents(),
            final(self).selection() == previous_selection(
                old(self).selection(),
                old(self).contents().len() as int,
            ),
    {
        proof {
            use_type_invariant(&*self);
        }
        if self.items.len() == 0 {
            return ;
        }
        let i: usize = match self.selected {
            Some(i) => if i == 0 {
                self.items.len() - 1
            } else {
                i - 1
            },
            None => 0,
        };
        self.selected = Some(i);
    }

    /// Clears the selection.
    pub fn unselect(&mut self)
        ensures
            final(self).contents() == old(self).contents(),
            final(self).selection() is None,
    {
        self.selected = None;
    }

    /// The place of the selected row, where a row is selected.
    pub fn selected(&self) -> (selected: Option<usize>)
        ensures
            selected matches Some(i) ==> i < self.contents().len(),
            match selected {
                Some(i) => self.selection() == Some(i as int),
                None => self.selection() is None,
            },
    {
        proof {
            use_type_invariant(self);
        }
        self.selected
    }

    /// The rows of the list.
    pub fn items(&self) -> (items: &Vec<T>)
        ensures
            items@ == self.contents(),
    {
        &self.items
    }

    /// Gives the rows back and ends the list.
    pub fn into_items(self) -> (items: Vec<T>)
        ensures
            items@ == self.contents(),
    {
        self.items
    }
}

/// The interactive view of the tasks.
pub struct App {
    items: StatefulList<Todo>,
    should_quit: bool,
}

/// The model of the view: the place of the selected row, the tasks, and
/// whether the session is to end.
pub struct AppView {
    pub selected: Option<int>,
    pub items: Seq<TodoView>,
    pub should_quit: bool,
}

impl View for App {
    type V = AppView;

    closed spec fn view(&self) -> AppView {
        AppView {
            selected: self.items.selection(),
            items: records(self.items.contents()),
            should_quit: self.should_quit,
        }
    }
}

/// The view at the start of a session on `items`: nothing is selected.
pub open spec fn start(items: Seq<TodoView>) -> AppView {
    AppView { selected: None, items, should_quit: false }
}

/// `items` with the completion of the task at `index` turned over.
pub open spec fn toggled(items: Seq<TodoView>, index: int) -> Seq<TodoView> {
    items.update(index, with_completed(items[index], !items[index].completed))
}

/// The view after one action.
pub open spec fn step(state: AppView, action: Action) -> AppView {
    match action {
        Action::Unselect => AppView { selected: None, ..state },
        Action::Next => AppView {
            selected: next_selection(state.selected, state.items.len() as int),
            ..state
        },
        Action::Previous => AppView {
            selected: previous_selection(state.selected, state.items.len() as int),
            ..state
        },
        Action::Toggle => match state.selected {
            Some(i) => if 0 <= i < state.items.len() {
                AppView { items: toggled(state.items, i), ..state }
            } else {
                state
            },
            None => state,
        },
        Action::Quit => AppView { should_quit: true, ..state },
        Action::Ignore => state,
    }
}

/// The view after the keys of `keys` were pressed in order, up to and
/// including the first that asks to quit.
pub open spec fn run(state: AppView, keys: Seq<Key>) -> AppView
    decreases keys.len(),
{
    if state.should_quit || keys.len() == 0 {
        state
    } else {
        run(step(state, action_of(keys[0])), keys.drop_first())
    }
}

/// One row of the view.
#[derive(Clone, Debug, PartialEq, Eq)]
pub struct Row {
    pub label: String,
    pub completed: bool,
}

/// The label of a task's row: the word `Item` and the task's id.
pub open spec fn row_label(todo: TodoView) -> Seq<char> {
    "Item "@ + decimal(todo.id)
}

impl App {
    /// The view of the given tasks at the start of a session.
    pub fn new(items: Vec<Todo>) -> (app: App)
        ensures
            app@ == start(records(items@)),
    {
        App { items: StatefulList::with_items(items), should_quit: false }
    }

    /// Turns over the completion of the task at `index`.
    pub fn toggle(&mut self, index: usize)
        requires
            index < old(self)@.items.len(),
        ensures
            final(self)@ == (AppView { items: toggled(old(self)@.items, index as int), ..old(self)@ }),
    {
        proof {
            use_type_invariant(&self.items);
        }
        let completed: bool = self.items.items[index].completed;
        self.items.items[index].toggle_status(!completed);
        assert(self@.items =~= toggled(old(self)@.items, index as int));
    }

    /// Applies one action to the view.
    pub fn apply(&mut self, action: Action)
        ensures
            final(self)@ == step(old(self)@, action),
    {
        match action {
            Action::Unselect => self.items.unselect(),
            Action::Next => self.items.next(),
            Action::Previous => self.items.previous(),
            Action::Toggle => {
                if let Some(index) = self.items.selected() {
                    self.toggle(index);
                }
            },
            Action::Quit => {
                self.should_quit = true;
            },
            Action::Ignore => {},
        }
    }

    /// Applies the action of one key press to the view.
    pub fn update(&mut self, key: Key)
        ensures
            final(self)@ == step(old(self)@, action_of(key)),
    {
        self.apply(Action::of_key(key));
    }

    /// Whether the session is to end.
    pub fn should_quit(&self) -> (quit: bool)
        ensures
            quit == self@.should_quit,
    {
        self.should_quit
    }

    /// The place of the selected row, where a row is selected.
    pub fn selected(&self) -> (selected: Option<usize>)
        ensures
            selected matches Some(i) ==> i < self@.items.len(),
            match selected {
                Some(i) => self@.selected == Some(i as int),
                None => self@.selected is None,
            },
    {
        self.items.selected()
    }

    /// The rows to show, one for each task in order.
    pub fn rows(&self) -> (rows: Vec<Row>)
        ensures
            rows@.len() == self@.items.len(),
            forall|i: int|
                0 <= i < rows@.len() ==> (#[trigger] rows@[i]).label@ == row_label(self@.items[i])
                    && rows@[i].completed == self@.items[i].completed,
    {
        let items: &Vec<Todo> = self.items.items();
        let mut rows: Vec<Row> = Vec::new();
        let mut i: usize = 0;
        while i < items.len()
            invariant
                i <= items@.len(),
                rows@.len() == i,
                items@ == self.items.contents(),
                forall|k: int|
                    0 <= k < i ==> (#[trigger] rows@[k]).label@ == row_label(items@[k]@)
                        && rows@[k].completed == items@[k].completed,
            decreases items@.len() - i,
        {
            let mut label: String = String::from_str("Item ");
            let id: String = decimal_string(items[i].id);
            label.append(id.as_str());
            rows.push(Row { label, completed: items[i].completed });
            i = i + 1;
        }
        rows
    }

    /// Gives the tasks back and ends the view.
    pub fn into_items(self) -> (items: Vec<Todo>)
        ensures
            records(items@) == self@.items,
    {
        self.items.into_items()
    }
}

/// Feeds the key presses of `keys` to the view in order, up to and including
/// the first that asks to quit.
pub fn run_ui(app: &mut App, keys: &[Key])
    ensures
        final(app)@ == run(old(app)@, keys@),
{
    let mut i: usize = 0;
    proof {
        assert(keys@.skip(0) =~= keys@);
    }
    while i < keys.len() && !app.should_quit()
        invariant
            i <= keys@.len(),
            run(app@, keys@.skip(i as int)) == run(old(app)@, keys@),
        decreases keys@.len() - i,
    {
        proof {
            assert(keys@.skip(i as int).drop_first() =~= keys@.skip(i + 1));
        }
        app.update(keys[i]);
        i = i + 1;
    }
}

/// Runs a session of the interactive view on `items` with the key presses of
/// `keys`, and tells whether the session was ended by a key.
pub fn run_app(items: &mut Vec<Todo>, keys: &[Key]) -> (quit: bool)
    ensures
        records(final(items)@) == run(start(records(old(items)@)), keys@).items,
        quit == run(start(records(old(items)@)), keys@).should_quit,
{
    let mut owned: Vec<Todo> = Vec::new();
    std::mem::swap(items, &mut owned);
    let mut app: App = App::new(owned);
    run_ui(&mut app, keys);
    let quit: bool = app.should_quit();
    *items = app.into_items();
    quit
}

} // verus!
