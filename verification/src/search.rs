//! The interactive search: a query field over the visible tasks, a selection
//! in the results, and the signals that the keys give.

use crate::filters::{matches_query, Query};
use crate::input::{Input, InputView};
use crate::keys::{Event, KeyCode};
use crate::priority::Priority;
use crate::seqs::{lemma_filter_same, lemma_filter_take_next, lemma_first_index_is};
use crate::status::Status;
use crate::text::{char_count, lowercase, to_lowercase};
use crate::time::{Timestamp, NANOS_PER_SEC};
use crate::todo::{Todo, TodoView};
use crate::todo_list::{
    has_id, lemma_todo_views_push, position_of, todo_views, TodoList, TodoListView,
};
use vstd::prelude::*;

verus! {

/// For how many seconds a finished task is still shown.
pub const DONE_GRACE_SECONDS: u32 = 3;

/// Whether the search shows a task at all at time `now`. An archived task is
/// never shown. A task that is done is hidden once more than
/// [`DONE_GRACE_SECONDS`] seconds have passed since it was finished.
pub open spec fn visible(todo: TodoView, now: Timestamp) -> bool {
    &&& todo.status != Status::Archived
    &&& !(todo.status == Status::Done && todo.finished_date is Some && now.nanos_since(
        todo.finished_date->0,
    ) > DONE_GRACE_SECONDS * NANOS_PER_SEC)
}

/// What the search shows at all, as a test on tasks.
pub open spec fn visible_filter(now: Timestamp) -> spec_fn(TodoView) -> bool {
    |todo: TodoView| visible(todo, now)
}

/// Whether the search shows a task for the text in the query field: the task
/// is visible and, unless the text or its lowercase form is empty, the
/// lowercased text finds it as a query of the compact syntax.
pub open spec fn shown(todo: TodoView, input: Seq<char>, now: Timestamp) -> bool {
    visible(todo, now) && (input.len() == 0 || lowercase(input).len() == 0 || matches_query(
        todo,
        lowercase(input),
    ))
}

/// Who is shown and who is hidden, whatever the query: an archived task is
/// hidden; so is a task that is done and was finished more than
/// [`DONE_GRACE_SECONDS`] seconds before `now`; a task that is still to do or
/// in progress is visible at any time.
pub proof fn lemma_visibility(todo: TodoView, input: Seq<char>, now: Timestamp)
    ensures
        todo.status == Status::Archived ==> !shown(todo, input, now),
        todo.status == Status::Done && todo.finished_date is Some && now.nanos_since(
            todo.finished_date->0,
        ) > DONE_GRACE_SECONDS * NANOS_PER_SEC ==> !shown(todo, input, now),
        todo.status.active() ==> visible(todo, now),
        input.len() == 0 ==> shown(todo, input, now) == visible(todo, now),
{
}

/// Of a task that is still to do or in progress and a task that was finished
/// more than [`DONE_GRACE_SECONDS`] seconds before `now`, the search shows
/// the first alone.
pub proof fn lemma_long_finished_task_is_not_among_the_results(
    open: TodoView,
    finished: TodoView,
    now: Timestamp,
)
    requires
        open.status.active(),
        finished.status == Status::Done,
        finished.finished_date is Some,
        now.nanos_since(finished.finished_date->0) > DONE_GRACE_SECONDS * NANOS_PER_SEC,
    ensures
        seq![open, finished].filter(visible_filter(now)) == seq![open],
        seq![finished, open].filter(visible_filter(now)) == seq![open],
{
    let keep = visible_filter(now);
    let none = Seq::<TodoView>::empty();
    assert(none.filter(keep) == none) by {
        reveal(Seq::filter);
    }
    none.lemma_filter_push(open, keep);
    none.lemma_filter_push(finished, keep);
    none.push(open).lemma_filter_push(finished, keep);
    none.push(finished).lemma_filter_push(open, keep);
    assert(none.push(open).push(finished) == seq![open, finished]);
    assert(none.push(finished).push(open) == seq![finished, open]);
    assert(none.push(open) == seq![open]);
}

/// With nothing in the query field the results are the visible tasks.
pub proof fn lemma_no_query_shows_the_visible(all: Seq<TodoView>, now: Timestamp)
    ensures
        all.filter(shown_filter(Seq::<char>::empty(), now)) == all.filter(visible_filter(now)),
{
    lemma_filter_same(all, shown_filter(Seq::<char>::empty(), now), visible_filter(now));
}

/// What the search shows, as a test on tasks.
pub open spec fn shown_filter(input: Seq<char>, now: Timestamp) -> spec_fn(TodoView) -> bool {
    |todo: TodoView| shown(todo, input, now)
}

/// What the caller of the search is to do after an event.
#[derive(Clone, Copy, Debug, PartialEq, Eq, Structural)]
pub enum SearchSignal {
    /// Go on with the search.
    Continue,
    /// Leave the search.
    Exit,
    /// Run the form that adds a task, then come back.
    AddTask,
    /// Run the form that edits the task with this id, then come back.
    Edit(u32),
    /// Make the task with this id one step more urgent.
    IncreasePriority(u32),
    /// Make the task with this id one step less urgent.
    DecreasePriority(u32),
    /// Archive the task with this id.
    Archive(u32),
    /// Mark the task with this id as done.
    MarkDone(u32),
}

impl SearchSignal {
    /// Whether the selection stays on the task after what the signal asks
    /// for was done. It does after a change of priority and after marking
    /// the task done; an archived task is no longer shown, so the selection
    /// goes back to the first result.
    pub open spec fn follows_task(self) -> bool {
        self is IncreasePriority || self is DecreasePriority || self is MarkDone
    }

    /// Whether the selection stays on the task after what the signal asks
    /// for was done.
    pub fn keeps_selection(&self) -> (b: bool)
        ensures
            b == self.follows_task(),
    {
        match self {
            SearchSignal::IncreasePriority(_)
            | SearchSignal::DecreasePriority(_)
            | SearchSignal::MarkDone(_) => true,
            _ => false,
        }
    }

    /// The id of the task that the signal is about, where it is about one.
    pub fn task_id(&self) -> (id: Option<u32>)
        ensures
            id == match *self {
                SearchSignal::Edit(i)
                | SearchSignal::IncreasePriority(i)
                | SearchSignal::DecreasePriority(i)
                | SearchSignal::Archive(i)
                | SearchSignal::MarkDone(i) => Some(i),
                _ => None::<u32>,
            },
    {
        match self {
            SearchSignal::Edit(i)
            | SearchSignal::IncreasePriority(i)
            | SearchSignal::DecreasePriority(i)
            | SearchSignal::Archive(i)
            | SearchSignal::MarkDone(i) => Some(*i),
            _ => None,
        }
    }
}

/// The priority one step up or down, held at `P0` and `P5`.
pub open spec fn stepped_priority(priority: Priority, increase: bool) -> Priority {
    if increase {
        Priority::of_rank(priority.rank() - 1)
    } else {
        Priority::of_rank(priority.rank() + 1)
    }
}

/// The collection with the first task that has the id `id` one step more
/// urgent, or one step less; the collection as it is where no task has it.
pub open spec fn with_priority_stepped(list: TodoListView, id: u32, increase: bool) -> TodoListView {
    let i = position_of(list.todos, id);
    if i < list.todos.len() {
        let todo = list.todos[i];
        TodoListView {
            todos: list.todos.update(
                i,
                TodoView { priority: stepped_priority(todo.priority, increase), ..todo },
            ),
            ..list
        }
    } else {
        list
    }
}

/// The collection with the first task that has the id `id` brought to
/// `status` at time `now`; the collection as it is where no task has it.
pub open spec fn with_status_set(list: TodoListView, id: u32, status: Status, now: Timestamp) -> TodoListView {
    let i = position_of(list.todos, id);
    if i < list.todos.len() {
        TodoListView { todos: list.todos.update(i, list.todos[i].with_status(status, now)), ..list }
    } else {
        list
    }
}

/// The collection after what a signal asks of it was done at time `now`: a
/// priority one step up or down, or a status set, on the first task with the
/// signal's id. The other signals ask nothing of the collection.
pub open spec fn after_signal(list: TodoListView, signal: SearchSignal, now: Timestamp) -> TodoListView {
    match signal {
        SearchSignal::IncreasePriority(id) => with_priority_stepped(list, id, true),
        SearchSignal::DecreasePriority(id) => with_priority_stepped(list, id, false),
        SearchSignal::Archive(id) => with_status_set(list, id, Status::Archived, now),
        SearchSignal::MarkDone(id) => with_status_set(list, id, Status::Done, now),
        _ => list,
    }
}

/// The signal asks for a change of a task, and the collection has a task
/// with its id.
pub open spec fn finds_task(list: TodoListView, signal: SearchSignal) -> bool {
    match signal {
        SearchSignal::IncreasePriority(id)
        | SearchSignal::DecreasePriority(id)
        | SearchSignal::Archive(id)
        | SearchSignal::MarkDone(id) => position_of(list.todos, id) < list.todos.len(),
        _ => false,
    }
}

/// The interactive search.
pub struct TodoSearcher {
    search_input: Input,
    filtered_todos: Vec<Todo>,
    all_todos: Vec<Todo>,
    selected_index: usize,
    highlighted: Option<usize>,
    show_help: bool,
    focus_on_search: bool,
}

/// The search as a mathematical value.
#[verifier::ext_equal]
pub struct SearcherView {
    pub input: InputView,
    pub filtered: Seq<TodoView>,
    pub all: Seq<TodoView>,
    pub selected_index: int,
    /// The row that the results list highlights, if any.
    pub highlighted: Option<int>,
    pub show_help: bool,
    pub focus_on_search: bool,
}

impl View for TodoSearcher {
    type V = SearcherView;

    closed spec fn view(&self) -> SearcherView {
        SearcherView {
            input: self.search_input@,
            filtered: todo_views(self.filtered_todos@),
            all: todo_views(self.all_todos@),
            selected_index: self.selected_index as int,
            highlighted: match self.highlighted {
                Some(i) => Some(i as int),
                None => None,
            },
            show_help: self.show_help,
            focus_on_search: self.focus_on_search,
        }
    }
}

/// The event is `code` pressed without a modifier.
pub open spec fn is_plain(event: Event, code: KeyCode) -> bool {
    event matches Event::Key(key) && key.code == code && key.modifiers.none()
}

/// The event is the character `c` with control alone.
pub open spec fn is_ctrl(event: Event, c: char) -> bool {
    event matches Event::Key(key) && key.code == KeyCode::Char(c) && key.modifiers.control_only()
}

impl SearcherView {
    /// The query field has its cursor within its text.
    pub open spec fn well_formed(self) -> bool {
        self.input.well_formed() && self.selected_index >= 0
    }

    /// The search with its selection put in order: nothing is highlighted
    /// while there are no results or the query field has the focus; else the
    /// selection is held within the results and highlighted.
    pub open spec fn settled(self) -> SearcherView {
        if self.filtered.len() == 0 || self.focus_on_search {
            SearcherView { highlighted: None, ..self }
        } else {
            let index = if self.selected_index < self.filtered.len() - 1 {
                self.selected_index
            } else {
                self.filtered.len() - 1
            };
            SearcherView { selected_index: index, highlighted: Some(index), ..self }
        }
    }

    /// The search with its results worked out anew at time `now`, and the
    /// selection back on the first result.
    pub open spec fn refiltered(self, now: Timestamp) -> SearcherView {
        SearcherView {
            filtered: self.all.filter(shown_filter(self.input.value, now)),
            selected_index: 0,
            ..self
        }.settled()
    }

    /// The search over another set of tasks, at time `now`.
    pub open spec fn reloaded(self, all: Seq<TodoView>, now: Timestamp) -> SearcherView {
        SearcherView { all, ..self }.refiltered(now)
    }

    /// The search over another set of tasks, at time `now`, with the
    /// selection on the first result that has the id `id`, where there is one.
    pub open spec fn reloaded_on(self, all: Seq<TodoView>, id: u32, now: Timestamp) -> SearcherView {
        let fresh = self.reloaded(all, now);
        let at = position_of(fresh.filtered, id);
        if at < fresh.filtered.len() {
            SearcherView { selected_index: at, ..fresh }.settled()
        } else {
            fresh
        }
    }

    /// The id of the selected result, where the selection points at one.
    pub open spec fn selected_id(self) -> Option<u32> {
        if 0 <= self.selected_index < self.filtered.len() {
            Some(self.filtered[self.selected_index].id)
        } else {
            None
        }
    }

    /// The search with the focus in the query field.
    pub open spec fn focused_on_query(self) -> SearcherView {
        SearcherView {
            focus_on_search: true,
            input: InputView { focused: true, ..self.input },
            ..self
        }
    }

    /// The search with the focus on the first result, where there are
    /// results; the search as it is where there are none.
    pub open spec fn entering_results(self) -> SearcherView {
        if self.filtered.len() > 0 {
            SearcherView {
                focus_on_search: false,
                input: InputView { focused: false, ..self.input },
                selected_index: 0,
                ..self
            }.settled()
        } else {
            self
        }
    }

    /// The selection one result up, where there is one above.
    pub open spec fn moved_up(self) -> SearcherView {
        if self.filtered.len() > 0 && self.selected_index > 0 {
            SearcherView { selected_index: self.selected_index - 1, ..self }.settled()
        } else {
            self
        }
    }

    /// The selection one result down, where there is one below.
    pub open spec fn moved_down(self) -> SearcherView {
        if self.filtered.len() > 0 && self.selected_index < self.filtered.len() - 1 {
            SearcherView { selected_index: self.selected_index + 1, ..self }.settled()
        } else {
            self
        }
    }

    /// The signal `make` for the selected result, or to go on where nothing is
    /// selected.
    pub open spec fn signal_for_selected(self, make: spec_fn(u32) -> SearchSignal) -> SearchSignal {
        match self.selected_id() {
            Some(id) => make(id),
            None => SearchSignal::Continue,
        }
    }

    /// What an event does while the query field has the focus. Down or Enter
    /// without a modifier go to the first result. Any other event goes to the
    /// query field, and where the field took it the results are worked out
    /// anew.
    pub open spec fn query_step(self, event: Event, now: Timestamp) -> SearcherView {
        if is_plain(event, KeyCode::Down) || is_plain(event, KeyCode::Enter) {
            self.entering_results()
        } else if self.input.step(event).1 {
            SearcherView { input: self.input.step(event).0, ..self }.refiltered(now)
        } else {
            self
        }
    }

    /// What an event does while the results have the focus, and the signal it
    /// gives. Up on the first result goes back to the query field, else one
    /// result up; Down goes one result down. For the selected result, Enter
    /// asks to edit it, `=` or `+` to raise its priority, `-` to lower it,
    /// control-r to archive it and control-d to mark it done.
    pub open spec fn results_step(self, event: Event) -> (SearcherView, SearchSignal) {
        if is_plain(event, KeyCode::Up) {
            if self.selected_index == 0 {
                (
                    SearcherView { highlighted: None, ..self.focused_on_query() },
                    SearchSignal::Continue,
                )
            } else {
                (self.moved_up(), SearchSignal::Continue)
            }
        } else if is_plain(event, KeyCode::Down) {
            (self.moved_down(), SearchSignal::Continue)
        } else if is_plain(event, KeyCode::Enter) {
            (self, self.signal_for_selected(|id: u32| SearchSignal::Edit(id)))
        } else if is_plain(event, KeyCode::Char('=')) || is_plain(event, KeyCode::Char('+')) {
            (self, self.signal_for_selected(|id: u32| SearchSignal::IncreasePriority(id)))
        } else if is_plain(event, KeyCode::Char('-')) {
            (self, self.signal_for_selected(|id: u32| SearchSignal::DecreasePriority(id)))
        } else if is_ctrl(event, 'r') {
            (self, self.signal_for_selected(|id: u32| SearchSignal::Archive(id)))
        } else if is_ctrl(event, 'd') {
            (self, self.signal_for_selected(|id: u32| SearchSignal::MarkDone(id)))
        } else {
            (self, SearchSignal::Continue)
        }
    }

    /// What an event does to the search at time `now`, and the signal it
    /// gives. Wherever the focus is: control-x and Esc ask to leave,
    /// control-a asks to add a task, F1 shows or hides the help, and `/` puts
    /// the focus in the query field. Any other event goes by where the focus
    /// is: see [`SearcherView::query_step`] and [`SearcherView::results_step`].
    pub open spec fn step(self, event: Event, now: Timestamp) -> (SearcherView, SearchSignal) {
        if is_ctrl(event, 'x') || is_plain(event, KeyCode::Esc) {
            (self, SearchSignal::Exit)
        } else if is_ctrl(event, 'a') {
            (self, SearchSignal::AddTask)
        } else if is_plain(event, KeyCode::F(1)) {
            (SearcherView { show_help: !self.show_help, ..self }, SearchSignal::Continue)
        } else if is_plain(event, KeyCode::Char('/')) {
            (self.focused_on_query(), SearchSignal::Continue)
        } else if self.focus_on_search {
            (self.query_step(event, now), SearchSignal::Continue)
        } else {
            self.results_step(event)
        }
    }
}

/// Whether the search shows a task at all at time `now`: see [`visible`].
pub fn should_include_todo(todo: &Todo, now: Timestamp) -> (b: bool)
    ensures
        b == visible(todo@, now),
{
    if todo.status == Status::Archived {
        return false;
    }
    if todo.status == Status::Done {
        if let Some(finished_date) = todo.finished_date {
            if now.is_more_than_seconds_after(&finished_date, DONE_GRACE_SECONDS) {
                return false;
            }
        }
    }
    true
}

/// Whether the event is `code` pressed without a modifier.
fn plain_key(event: &Event, code: KeyCode) -> (b: bool)
    ensures
        b == is_plain(*event, code),
{
    match event {
        Event::Key(key) => key.code == code && key.modifiers.is_none(),
        Event::Other => false,
    }
}

/// Whether the event is the character `c` with control alone.
fn ctrl_key(event: &Event, c: char) -> (b: bool)
    ensures
        b == is_ctrl(*event, c),
{
    match event {
        Event::Key(key) => key.code == KeyCode::Char(c) && key.modifiers.is_control_only(),
        Event::Other => false,
    }
}

impl TodoSearcher {
    /// A search over `all_todos` at time `now`, with the focus in the query
    /// field, which holds `query` where one is given.
    pub fn new(all_todos: Vec<Todo>, query: Option<String>, now: Timestamp) -> (searcher: Self)
        ensures
            searcher@.well_formed(),
            searcher@.all == todo_views(all_todos@),
            searcher@.input.value == match query {
                Some(q) => q@,
                None => Seq::<char>::empty(),
            },
            searcher@.input.focused,
            searcher@.focus_on_search,
            !searcher@.show_help,
            searcher@.filtered == searcher@.all.filter(shown_filter(searcher@.input.value, now)),
            query is None ==> searcher@.filtered == searcher@.all.filter(visible_filter(now)),
            searcher@.selected_index == 0,
            searcher@.highlighted is None,
    {
        proof {
            lemma_no_query_shows_the_visible(todo_views(all_todos@), now);
        }
        let mut input = Input::new("Search");
        if let Some(query) = query {
            input = input.with_value(query);
        }
        input.set_focused(true);
        let mut searcher = Self {
            search_input: input,
            filtered_todos: Vec::new(),
            all_todos,
            selected_index: 0,
            highlighted: None,
            show_help: false,
            focus_on_search: true,
        };
        searcher.filter_todos(now);
        searcher
    }

    /// Works the results out anew at time `now` and puts the selection back
    /// on the first result.
    pub fn filter_todos(&mut self, now: Timestamp)
        ensures
            final(self)@ == old(self)@.refiltered(now),
    {
        let ghost keep = shown_filter(self.search_input.value@, now);
        let ghost all = todo_views(self.all_todos@);
        let nothing_typed = char_count(self.search_input.value.as_str()) == 0;
        let query = to_lowercase(self.search_input.value.as_str());
        let parsed: Option<Query> = if nothing_typed || char_count(query.as_str()) == 0 {
            None
        } else {
            Some(Query::read(query.as_str()))
        };
        let mut found: Vec<Todo> = Vec::new();
        let mut i: usize = 0;
        proof {
            assert(todo_views(found@) =~= Seq::<TodoView>::empty());
            assert(all.take(0) =~= Seq::<TodoView>::empty());
            reveal(Seq::filter);
        }
        while i < self.all_todos.len()
            invariant
                i <= self.all_todos.len(),
                *self == *old(self),
                keep == shown_filter(self.search_input.value@, now),
                all == todo_views(self.all_todos@),
                query@ == lowercase(self.search_input.value@),
                parsed is None <==> self.search_input.value@.len() == 0 || query@.len() == 0,
                parsed is Some ==> forall|todo: TodoView| #[trigger]
                    parsed->0.accepts(todo) == matches_query(todo, query@),
                todo_views(found@) == all.take(i as int).filter(keep),
            decreases self.all_todos.len() - i,
        {
            let todo = &self.all_todos[i];
            proof {
                lemma_filter_take_next(all, keep, i as int);
                assert(all[i as int] == todo@);
            }
            let wanted = match &parsed {
                Some(q) => q.test(todo),
                None => true,
            };
            if should_include_todo(todo, now) && wanted {
                let copy = todo.clone();
                proof {
                    lemma_todo_views_push(found@, copy);
                }
                found.push(copy);
            }
            i += 1;
        }
        proof {
            assert(all.take(self.all_todos.len() as int) == all);
        }
        self.filtered_todos = found;
        self.selected_index = 0;
        self.update_selection();
    }

    /// Puts the selection in order: see [`SearcherView::settled`].
    fn update_selection(&mut self)
        ensures
            final(self)@ == old(self)@.settled(),
    {
        if self.filtered_todos.len() == 0 || self.focus_on_search {
            self.highlighted = None;
        } else {
            let last = self.filtered_todos.len() - 1;
            if self.selected_index > last {
                self.selected_index = last;
            }
            self.highlighted = Some(self.selected_index);
        }
    }

    /// Moves the selection one result up, where there is one above.
    fn move_selection_up(&mut self)
        ensures
            final(self)@ == old(self)@.moved_up(),
    {
        if self.filtered_todos.len() > 0 && self.selected_index > 0 {
            self.selected_index = self.selected_index - 1;
            self.update_selection();
        }
    }

    /// Moves the selection one result down, where there is one below.
    fn move_selection_down(&mut self)
        ensures
            final(self)@ == old(self)@.moved_down(),
    {
        if self.filtered_todos.len() > 0 && self.selected_index < self.filtered_todos.len() - 1 {
            self.selected_index = self.selected_index + 1;
            self.update_selection();
        }
    }

    /// The selected result, where the selection points at one.
    pub fn get_selected_todo(&self) -> (r: Option<&Todo>)
        ensures
            match r {
                Some(todo) => 0 <= self@.selected_index < self@.filtered.len() && todo@
                    == self@.filtered[self@.selected_index],
                None => self@.selected_index >= self@.filtered.len(),
            },
            match r {
                Some(todo) => self@.selected_id() == Some(todo.id),
                None => self@.selected_id() is None,
            },
    {
        if self.selected_index < self.filtered_todos.len() {
            Some(&self.filtered_todos[self.selected_index])
        } else {
            None
        }
    }

    /// The results, in the order of the collection.
    pub fn filtered_todos(&self) -> (todos: &Vec<Todo>)
        ensures
            todo_views(todos@) == self@.filtered,
    {
        &self.filtered_todos
    }

    /// The query field.
    pub fn search_input(&self) -> (input: &Input)
        ensures
            input@ == self@.input,
    {
        &self.search_input
    }

    /// The index of the selected result.
    pub fn selected_index(&self) -> (index: usize)
        ensures
            index == self@.selected_index,
    {
        self.selected_index
    }

    /// The row that the results list highlights, if any.
    pub fn highlighted(&self) -> (row: Option<usize>)
        ensures
            match row {
                Some(i) => self@.highlighted == Some(i as int),
                None => self@.highlighted is None,
            },
    {
        self.highlighted
    }

    /// Whether the help is shown.
    pub fn show_help(&self) -> (b: bool)
        ensures
            b == self@.show_help,
    {
        self.show_help
    }

    /// Whether the query field has the focus; else the results have it.
    pub fn focus_on_search(&self) -> (b: bool)
        ensures
            b == self@.focus_on_search,
    {
        self.focus_on_search
    }

    /// Lets the search answer an event at time `now`, as
    /// [`SearcherView::step`] defines it, and gives the signal for the caller.
    pub fn handle_event(&mut self, event: &Event, now: Timestamp) -> (signal: SearchSignal)
        requires
            old(self)@.well_formed(),
        ensures
            final(self)@.well_formed(),
            (final(self)@, signal) == old(self)@.step(*event, now),
    {
        if ctrl_key(event, 'x') || plain_key(event, KeyCode::Esc) {
            return SearchSignal::Exit;
        }
        if ctrl_key(event, 'a') {
            return SearchSignal::AddTask;
        }
        if plain_key(event, KeyCode::F(1)) {
            self.show_help = !self.show_help;
            return SearchSignal::Continue;
        }
        if plain_key(event, KeyCode::Char('/')) {
            self.focus_on_search = true;
            self.search_input.set_focused(true);
            return SearchSignal::Continue;
        }
        if self.focus_on_search {
            if plain_key(event, KeyCode::Down) || plain_key(event, KeyCode::Enter) {
                if self.filtered_todos.len() > 0 {
                    self.focus_on_search = false;
                    self.search_input.set_focused(false);
                    self.selected_index = 0;
                    self.update_selection();
                }
            } else if self.search_input.handle_event(event) {
                self.filter_todos(now);
            }
            return SearchSignal::Continue;
        }
        if plain_key(event, KeyCode::Up) {
            if self.selected_index == 0 {
                self.focus_on_search = true;
                self.search_input.set_focused(true);
                self.highlighted = None;
            } else {
                self.move_selection_up();
            }
            return SearchSignal::Continue;
        }
        if plain_key(event, KeyCode::Down) {
            self.move_selection_down();
            return SearchSignal::Continue;
        }
        let selected: Option<u32> = match self.get_selected_todo() {
            Some(todo) => Some(todo.id),
            None => None,
        };
        match selected {
            Some(id) => {
                if plain_key(event, KeyCode::Enter) {
                    SearchSignal::Edit(id)
                } else if plain_key(event, KeyCode::Char('=')) || plain_key(
                    event,
                    KeyCode::Char('+'),
                ) {
                    SearchSignal::IncreasePriority(id)
                } else if plain_key(event, KeyCode::Char('-')) {
                    SearchSignal::DecreasePriority(id)
                } else if ctrl_key(event, 'r') {
                    SearchSignal::Archive(id)
                } else if ctrl_key(event, 'd') {
                    SearchSignal::MarkDone(id)
                } else {
                    SearchSignal::Continue
                }
            },
            None => SearchSignal::Continue,
        }
    }

    /// Takes another set of tasks and works the results out anew at time
    /// `now`.
    pub fn reload_todos(&mut self, all_todos: Vec<Todo>, now: Timestamp)
        ensures
            final(self)@ == old(self)@.reloaded(todo_views(all_todos@), now),
    {
        self.all_todos = all_todos;
        self.filter_todos(now);
    }

    /// Takes another set of tasks, works the results out anew at time `now`,
    /// and puts the selection on the first result with the id
    /// `preserve_todo_id`, where there is one.
    pub fn reload_todos_preserving_selection(
        &mut self,
        all_todos: Vec<Todo>,
        preserve_todo_id: u32,
        now: Timestamp,
    )
        ensures
            final(self)@ == old(self)@.reloaded_on(todo_views(all_todos@), preserve_todo_id, now),
    {
        self.all_todos = all_todos;
        self.filter_todos(now);
        let mut i: usize = 0;
        while i < self.filtered_todos.len()
            invariant
                i <= self.filtered_todos.len(),
                self@ == old(self)@.reloaded(todo_views(all_todos@), now),
                forall|j: int| 0 <= j < i ==> !has_id(preserve_todo_id)(#[trigger] self@.filtered[j]),
            decreases self.filtered_todos.len() - i,
        {
            if self.filtered_todos[i].id == preserve_todo_id {
                proof {
                    lemma_first_index_is(self@.filtered, has_id(preserve_todo_id), i as int);
                }
                self.selected_index = i;
                self.update_selection();
                return ;
            }
            i += 1;
        }
        proof {
            lemma_first_index_is(self@.filtered, has_id(preserve_todo_id), i as int);
        }
    }
    /// Makes the first task with the id `todo_id` one step more urgent, or
    /// one step less, and says whether there was such a task. The priority
    /// stays within `P0` and `P5`.
    pub fn change_todo_priority(list: &mut TodoList, todo_id: u32, increase: bool) -> (found: bool)
        ensures
            found == (position_of(old(list)@.todos, todo_id) < old(list)@.todos.len()),
            final(list)@ == with_priority_stepped(old(list)@, todo_id, increase),
            old(list)@.well_formed() ==> final(list)@.well_formed(),
    {
        match list.position(todo_id) {
            Some(i) => {
                let ghost before = list.todos@;
                let priority = list.todos[i].priority;
                list.todos[i].priority = if increase {
                    priority.raised()
                } else {
                    priority.lowered()
                };
                proof {
                    assert(todo_views(list.todos@) =~= todo_views(before).update(
                        i as int,
                        list.todos@[i as int]@,
                    ));
                }
                true
            },
            None => false,
        }
    }

    /// Archives the first task with the id `todo_id`, and says whether there
    /// was such a task. The finish time stays as it was.
    pub fn archive_todo(list: &mut TodoList, todo_id: u32, now: Timestamp) -> (found: bool)
        ensures
            found == (position_of(old(list)@.todos, todo_id) < old(list)@.todos.len()),
            final(list)@ == with_status_set(old(list)@, todo_id, Status::Archived, now),
            old(list)@.well_formed() ==> final(list)@.well_formed(),
    {
        TodoSearcher::set_todo_status(list, todo_id, Status::Archived, now)
    }

    /// Marks the first task with the id `todo_id` as done at time `now`, and
    /// says whether there was such a task. The finish time is stamped where
    /// the task was still to do or in progress.
    pub fn mark_todo_done(list: &mut TodoList, todo_id: u32, now: Timestamp) -> (found: bool)
        ensures
            found == (position_of(old(list)@.todos, todo_id) < old(list)@.todos.len()),
            final(list)@ == with_status_set(old(list)@, todo_id, Status::Done, now),
            old(list)@.well_formed() ==> final(list)@.well_formed(),
    {
        TodoSearcher::set_todo_status(list, todo_id, Status::Done, now)
    }

    /// Sets the status of the first task with the id `todo_id` at time `now`.
    fn set_todo_status(list: &mut TodoList, todo_id: u32, status: Status, now: Timestamp) -> (found:
        bool)
        ensures
            found == (position_of(old(list)@.todos, todo_id) < old(list)@.todos.len()),
            final(list)@ == with_status_set(old(list)@, todo_id, status, now),
            old(list)@.well_formed() ==> final(list)@.well_formed(),
    {
        match list.position(todo_id) {
            Some(i) => {
                let ghost before = list.todos@;
                list.todos[i].set_status(status, now);
                proof {
                    assert(todo_views(list.todos@) =~= todo_views(before).update(
                        i as int,
                        list.todos@[i as int]@,
                    ));
                }
                true
            },
            None => false,
        }
    }
    /// Does to the collection what the signal asks of it, at time `now`, as
    /// [`after_signal`] defines it, and says whether there was a task to
    /// change.
    pub fn apply_signal(list: &mut TodoList, signal: SearchSignal, now: Timestamp) -> (changed:
        bool)
        ensures
            final(list)@ == after_signal(old(list)@, signal, now),
            changed == finds_task(old(list)@, signal),
            old(list)@.well_formed() ==> final(list)@.well_formed(),
    {
        match signal {
            SearchSignal::IncreasePriority(id) => TodoSearcher::change_todo_priority(
                list,
                id,
                true,
            ),
            SearchSignal::DecreasePriority(id) => TodoSearcher::change_todo_priority(
                list,
                id,
                false,
            ),
            SearchSignal::Archive(id) => TodoSearcher::archive_todo(list, id, now),
            SearchSignal::MarkDone(id) => TodoSearcher::mark_todo_done(list, id, now),
            _ => false,
        }
    }
}

} // verus!
