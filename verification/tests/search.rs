use guidebook_todo::search::should_include_todo;
use guidebook_todo::{
    Event, KeyCode, Priority, SearchSignal, Status, Timestamp, Todo, TodoList, TodoSearcher,
};

fn key(code: KeyCode) -> Event {
    Event::plain(code)
}

fn at(secs: i64) -> Timestamp {
    Timestamp::new(secs, 0)
}

fn task(id: u32, title: &str) -> Todo {
    let mut todo = Todo::created_at(title.to_string(), at(id as i64));
    todo.id = id;
    todo
}

fn sample() -> Vec<Todo> {
    let mut a = task(1, "Alpha");
    a.tags = vec!["bug".to_string()];
    a.priority = Priority::P0;
    let mut b = task(2, "Beta bug");
    b.category = Some("Work".to_string());
    let mut c = task(3, "Gamma");
    c.status = Status::Archived;
    let mut d = task(4, "Delta");
    d.set_status(Status::Done, at(990));
    let mut e = task(5, "Epsilon");
    e.set_status(Status::Done, at(998));
    vec![a, b, c, d, e]
}

fn shown(searcher: &TodoSearcher) -> Vec<u32> {
    searcher.filtered_todos().iter().map(|t| t.id).collect()
}

fn type_text(searcher: &mut TodoSearcher, text: &str, now: Timestamp) {
    for c in text.chars() {
        assert_eq!(searcher.handle_event(&key(KeyCode::Char(c)), now), SearchSignal::Continue);
    }
}

#[test]
fn archived_and_long_finished_tasks_are_hidden() {
    let todos = sample();
    let now = at(1000);
    assert!(should_include_todo(&todos[0], now));
    assert!(!should_include_todo(&todos[2], now));
    assert!(!should_include_todo(&todos[3], now));
    assert!(should_include_todo(&todos[4], now));
}

#[test]
fn a_done_task_is_shown_for_three_seconds() {
    let mut todo = task(1, "t");
    todo.set_status(Status::Done, at(100));
    assert!(should_include_todo(&todo, at(100)));
    assert!(should_include_todo(&todo, at(103)));
    assert!(!should_include_todo(&todo, Timestamp::new(103, 1)));
    assert!(!should_include_todo(&todo, at(104)));
    assert!(should_include_todo(&todo, at(50)));
    todo.finished_date = None;
    assert!(should_include_todo(&todo, at(10_000)));
}

#[test]
fn a_task_finished_ten_seconds_ago_is_not_among_the_results() {
    let a = {
        let mut t = task(1, "A");
        t.priority = Priority::P0;
        t
    };
    let b = {
        let mut t = task(2, "B");
        t.set_status(Status::Done, at(990));
        t
    };
    let searcher = TodoSearcher::new(vec![a, b], None, at(1000));
    assert_eq!(shown(&searcher), vec![1]);
}

#[test]
fn a_new_search_shows_the_visible_tasks_and_focuses_the_query() {
    let searcher = TodoSearcher::new(sample(), None, at(1000));
    assert_eq!(shown(&searcher), vec![1, 2, 5]);
    assert!(searcher.focus_on_search());
    assert!(searcher.search_input().focused);
    assert!(!searcher.show_help());
    assert_eq!(searcher.selected_index(), 0);
    assert_eq!(searcher.highlighted(), None);
    assert_eq!(searcher.search_input().value, "");
}

#[test]
fn a_given_query_filters_at_once() {
    let searcher = TodoSearcher::new(sample(), Some("BUG".to_string()), at(1000));
    assert_eq!(searcher.search_input().value, "BUG");
    assert_eq!(shown(&searcher), vec![1, 2]);
    let tagged = TodoSearcher::new(sample(), Some("#bug".to_string()), at(1000));
    assert_eq!(shown(&tagged), vec![1]);
    let by_category = TodoSearcher::new(sample(), Some("@WORK".to_string()), at(1000));
    assert_eq!(shown(&by_category), vec![2]);
    let by_priority = TodoSearcher::new(sample(), Some("P0".to_string()), at(1000));
    assert_eq!(shown(&by_priority), vec![1]);
    let by_status = TodoSearcher::new(sample(), Some("!Done".to_string()), at(1000));
    assert_eq!(shown(&by_status), vec![5]);
    let archived = TodoSearcher::new(sample(), Some("!archived".to_string()), at(1000));
    assert_eq!(shown(&archived), Vec::<u32>::new());
}

#[test]
fn typing_filters_and_resets_the_selection() {
    let mut searcher = TodoSearcher::new(sample(), None, at(1000));
    type_text(&mut searcher, "bet", at(1000));
    assert_eq!(searcher.search_input().value, "bet");
    assert_eq!(shown(&searcher), vec![2]);
    assert_eq!(searcher.selected_index(), 0);
    assert_eq!(searcher.handle_event(&key(KeyCode::Backspace), at(1000)), SearchSignal::Continue);
    assert_eq!(searcher.handle_event(&key(KeyCode::Backspace), at(1000)), SearchSignal::Continue);
    assert_eq!(searcher.handle_event(&key(KeyCode::Backspace), at(1002)), SearchSignal::Continue);
    assert_eq!(shown(&searcher), vec![1, 2]);
}

#[test]
fn signs_are_typed_while_the_query_has_the_focus() {
    let mut searcher = TodoSearcher::new(sample(), None, at(1000));
    type_text(&mut searcher, "+-=", at(1000));
    assert_eq!(searcher.search_input().value, "+-=");
    assert_eq!(shown(&searcher), Vec::<u32>::new());
    assert_eq!(searcher.handle_event(&key(KeyCode::Down), at(1000)), SearchSignal::Continue);
    assert!(searcher.focus_on_search());
    assert_eq!(searcher.handle_event(&key(KeyCode::Char('/')), at(1000)), SearchSignal::Continue);
    assert_eq!(searcher.search_input().value, "+-=");
}

#[test]
fn down_or_enter_go_to_the_first_result() {
    let mut searcher = TodoSearcher::new(sample(), None, at(1000));
    assert_eq!(searcher.handle_event(&key(KeyCode::Down), at(1000)), SearchSignal::Continue);
    assert!(!searcher.focus_on_search());
    assert!(!searcher.search_input().focused);
    assert_eq!(searcher.selected_index(), 0);
    assert_eq!(searcher.highlighted(), Some(0));
    assert_eq!(searcher.get_selected_todo().map(|t| t.id), Some(1));

    let mut other = TodoSearcher::new(sample(), None, at(1000));
    assert_eq!(other.handle_event(&key(KeyCode::Enter), at(1000)), SearchSignal::Continue);
    assert!(!other.focus_on_search());
    assert_eq!(other.highlighted(), Some(0));
}

#[test]
fn the_selection_moves_within_the_results() {
    let mut searcher = TodoSearcher::new(sample(), None, at(1000));
    searcher.handle_event(&key(KeyCode::Down), at(1000));
    searcher.handle_event(&key(KeyCode::Down), at(1000));
    assert_eq!(searcher.selected_index(), 1);
    searcher.handle_event(&key(KeyCode::Down), at(1000));
    searcher.handle_event(&key(KeyCode::Down), at(1000));
    assert_eq!(searcher.selected_index(), 2);
    assert_eq!(searcher.highlighted(), Some(2));
    searcher.handle_event(&key(KeyCode::Up), at(1000));
    assert_eq!(searcher.selected_index(), 1);
    searcher.handle_event(&key(KeyCode::Up), at(1000));
    assert_eq!(searcher.selected_index(), 0);
    assert!(!searcher.focus_on_search());
    searcher.handle_event(&key(KeyCode::Up), at(1000));
    assert!(searcher.focus_on_search());
    assert!(searcher.search_input().focused);
    assert_eq!(searcher.highlighted(), None);
}

#[test]
fn the_result_keys_give_their_signals() {
    let mut searcher = TodoSearcher::new(sample(), None, at(1000));
    searcher.handle_event(&key(KeyCode::Down), at(1000));
    searcher.handle_event(&key(KeyCode::Down), at(1000));
    let now = at(1000);
    assert_eq!(searcher.handle_event(&key(KeyCode::Enter), now), SearchSignal::Edit(2));
    assert_eq!(searcher.handle_event(&key(KeyCode::Char('=')), now), SearchSignal::IncreasePriority(2));
    assert_eq!(searcher.handle_event(&key(KeyCode::Char('+')), now), SearchSignal::IncreasePriority(2));
    assert_eq!(searcher.handle_event(&key(KeyCode::Char('-')), now), SearchSignal::DecreasePriority(2));
    assert_eq!(searcher.handle_event(&Event::control('r'), now), SearchSignal::Archive(2));
    assert_eq!(searcher.handle_event(&Event::control('d'), now), SearchSignal::MarkDone(2));
    assert_eq!(searcher.handle_event(&key(KeyCode::Char('z')), now), SearchSignal::Continue);
    assert_eq!(searcher.handle_event(&Event::Other, now), SearchSignal::Continue);
    assert_eq!(searcher.search_input().value, "");
    assert_eq!(searcher.selected_index(), 1);
}

#[test]
fn the_global_keys_work_wherever_the_focus_is() {
    let mut searcher = TodoSearcher::new(sample(), None, at(1000));
    let now = at(1000);
    assert_eq!(searcher.handle_event(&Event::control('x'), now), SearchSignal::Exit);
    assert_eq!(searcher.handle_event(&key(KeyCode::Esc), now), SearchSignal::Exit);
    assert_eq!(searcher.handle_event(&Event::control('a'), now), SearchSignal::AddTask);
    assert_eq!(searcher.handle_event(&key(KeyCode::F(1)), now), SearchSignal::Continue);
    assert!(searcher.show_help());
    assert_eq!(searcher.handle_event(&key(KeyCode::F(1)), now), SearchSignal::Continue);
    assert!(!searcher.show_help());
    assert_eq!(searcher.handle_event(&key(KeyCode::F(2)), now), SearchSignal::Continue);
    assert!(!searcher.show_help());
    searcher.handle_event(&key(KeyCode::Down), now);
    assert_eq!(searcher.handle_event(&Event::control('x'), now), SearchSignal::Exit);
    assert_eq!(searcher.handle_event(&Event::control('a'), now), SearchSignal::AddTask);
    assert_eq!(searcher.handle_event(&key(KeyCode::Char('/')), now), SearchSignal::Continue);
    assert!(searcher.focus_on_search());
    assert!(searcher.search_input().focused);
    assert_eq!(searcher.search_input().value, "");
}

#[test]
fn reload_takes_the_new_tasks() {
    let mut searcher = TodoSearcher::new(sample(), Some("a".to_string()), at(1000));
    searcher.reload_todos(vec![task(9, "Zeta"), task(10, "other")], at(1000));
    assert_eq!(shown(&searcher), vec![9]);
    assert_eq!(searcher.selected_index(), 0);
}

#[test]
fn reload_preserving_selection_follows_the_task() {
    let mut searcher = TodoSearcher::new(sample(), None, at(1000));
    searcher.handle_event(&key(KeyCode::Down), at(1000));
    let mut todos = sample();
    todos[1].priority = Priority::P1;
    searcher.reload_todos_preserving_selection(todos, 2, at(1000));
    assert_eq!(shown(&searcher), vec![1, 2, 5]);
    assert_eq!(searcher.selected_index(), 1);
    assert_eq!(searcher.highlighted(), Some(1));
    assert_eq!(searcher.get_selected_todo().map(|t| t.priority), Some(Priority::P1));

    let mut archived = sample();
    archived[1].status = Status::Archived;
    searcher.reload_todos_preserving_selection(archived, 2, at(1000));
    assert_eq!(shown(&searcher), vec![1, 5]);
    assert_eq!(searcher.selected_index(), 0);
}

fn list_of(todos: Vec<Todo>) -> TodoList {
    let mut list = TodoList::new();
    list.next_id = 100;
    list.todos = todos;
    list
}

#[test]
fn priority_changes_are_held_within_the_scale() {
    let mut list = list_of(sample());
    assert!(TodoSearcher::change_todo_priority(&mut list, 2, true));
    assert_eq!(list.todos[1].priority, Priority::P1);
    assert!(TodoSearcher::change_todo_priority(&mut list, 1, true));
    assert_eq!(list.todos[0].priority, Priority::P0);
    assert!(TodoSearcher::change_todo_priority(&mut list, 2, false));
    assert!(TodoSearcher::change_todo_priority(&mut list, 2, false));
    assert_eq!(list.todos[1].priority, Priority::P3);
    list.todos[2].priority = Priority::P5;
    assert!(TodoSearcher::change_todo_priority(&mut list, 3, false));
    assert_eq!(list.todos[2].priority, Priority::P5);
    assert!(!TodoSearcher::change_todo_priority(&mut list, 42, true));
}

#[test]
fn archiving_and_marking_done_follow_the_status_rule() {
    let mut list = list_of(sample());
    assert!(TodoSearcher::mark_todo_done(&mut list, 1, at(500)));
    assert_eq!(list.todos[0].status, Status::Done);
    assert_eq!(list.todos[0].finished_date, Some(at(500)));
    assert!(TodoSearcher::mark_todo_done(&mut list, 1, at(600)));
    assert_eq!(list.todos[0].finished_date, Some(at(500)));
    assert!(TodoSearcher::archive_todo(&mut list, 1, at(700)));
    assert_eq!(list.todos[0].status, Status::Archived);
    assert_eq!(list.todos[0].finished_date, Some(at(500)));
    assert!(TodoSearcher::archive_todo(&mut list, 2, at(700)));
    assert_eq!(list.todos[1].finished_date, None);
    assert!(!TodoSearcher::archive_todo(&mut list, 42, at(700)));
    assert!(!TodoSearcher::mark_todo_done(&mut list, 42, at(700)));
    assert_eq!(list.next_id, 100);
}
