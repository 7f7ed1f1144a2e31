use guidebook_todo::commands::Deleted;
use guidebook_todo::init::{decide_poll, parse_choice, PollDecision, SetupChoice};
use guidebook_todo::list::TodoList as ItemList;
use guidebook_todo::overview::{get_status_icon, status_letter};
use guidebook_todo::push::{commit_message, commit_message_now, PushState, PushStep};
use guidebook_todo::text::{shorten, to_decimal};
use guidebook_todo::{
    Event, GitStatus, KeyCode, Priority, SearchSignal, Status, Timestamp, Todo, TodoError,
    TodoList,
};

fn at(secs: i64) -> Timestamp {
    Timestamp::new(secs, 0)
}

fn list_with(count: u32) -> TodoList {
    let mut list = TodoList::new();
    for i in 0..count {
        let todo = list.create_todo_at(format!("task {}", i + 1), at(i as i64));
        list.add_todo(todo);
    }
    list
}

fn ids(todos: &[&Todo]) -> Vec<u32> {
    todos.iter().map(|t| t.id).collect()
}

#[test]
fn decimal_numerals() {
    assert_eq!(to_decimal(0), "0");
    assert_eq!(to_decimal(7), "7");
    assert_eq!(to_decimal(10), "10");
    assert_eq!(to_decimal(201), "201");
    assert_eq!(to_decimal(9_876_543_210), "9876543210");
    assert_eq!(to_decimal(u64::MAX), u64::MAX.to_string());
}

#[test]
fn shorten_cuts_long_texts_and_adds_dots() {
    assert_eq!(shorten("short", 30, 27), "short");
    assert_eq!(shorten(&"a".repeat(30), 30, 27), "a".repeat(30));
    assert_eq!(shorten(&"a".repeat(31), 30, 27), format!("{}...", "a".repeat(27)));
    assert_eq!(shorten("héllo wörld", 5, 2), "hé...");
    assert_eq!(shorten("abc", 0, 0), "...");
}

#[test]
fn messages_say_what_went_wrong() {
    assert_eq!(TodoError::EmptyTitle.message(), "Title cannot be empty");
    assert_eq!(
        TodoError::TitleTooLong { len: 201 }.message(),
        "Title cannot exceed 200 characters (current: 201)"
    );
    assert_eq!(
        TodoError::CategoryTooLong { len: 51 }.message(),
        "Category cannot exceed 50 characters (current: 51)"
    );
    assert_eq!(
        TodoError::ProjectTooLong { len: 101 }.message(),
        "Project cannot exceed 100 characters (current: 101)"
    );
    assert_eq!(
        TodoError::NotesTooLong { len: 2001 }.message(),
        "Notes cannot exceed 2000 characters (current: 2001)"
    );
    assert_eq!(
        TodoError::TagTooLong { index: 2, len: 31 }.message(),
        "Tag number 2 cannot exceed 30 characters (current: 31)"
    );
    assert_eq!(
        TodoError::TagHasSpace { index: 0 }.message(),
        "Tag number 0 cannot contain spaces (use underscores)"
    );
    assert_eq!(TodoError::NotFound { id: 42 }.message(), "TODO with ID 42 not found");
    assert_eq!(
        TodoError::InvalidStatus.message(),
        "Invalid status. Valid values: todo, inprogress, done, archived"
    );
    assert_eq!(
        TodoError::InvalidPriority.message(),
        "Invalid priority. Valid values: p0, p1, p2, p3, p4, p5"
    );
    assert_eq!(TodoError::NoPrioritySelected.message(), "No priority selected");
    assert_eq!(TodoError::NoStatusSelected.message(), "No status selected");
    assert_eq!(
        TodoError::NoDeleteTarget.message(),
        "Must specify either ID, category, or status"
    );
}

#[test]
fn quick_add_takes_the_title_as_given() {
    let mut list = TodoList::new();
    assert_eq!(list.quick_add("  spaced  ".to_string(), at(3)), Ok(1));
    assert_eq!(list.quick_add("next".to_string(), at(4)), Ok(2));
    assert_eq!(list.todos.len(), 2);
    assert_eq!(list.todos[0].title, "  spaced  ");
    assert_eq!(list.todos[0].created_date, at(3));
    assert_eq!(list.todos[1].id, 2);
    assert_eq!(list.next_id, 3);
    assert_eq!(list.quick_add("".to_string(), at(5)), Err(TodoError::EmptyTitle));
    assert_eq!(list.todos.len(), 2);
    assert_eq!(list.next_id, 3);
}

#[test]
fn delete_selected_goes_by_id_then_category_then_status() {
    let mut list = list_with(5);
    list.todos[1].category = Some("c".to_string());
    list.todos[2].category = Some("c".to_string());
    list.todos[3].status = Status::Done;
    assert_eq!(
        list.delete_selected(Some(1), Some("c".to_string()), Some("done".to_string())),
        Ok(Deleted::One)
    );
    assert_eq!(list.todos.len(), 4);
    assert_eq!(
        list.delete_selected(None, Some("c".to_string()), Some("done".to_string())),
        Ok(Deleted::InCategory(2))
    );
    assert_eq!(list.delete_selected(None, None, Some("done".to_string())), Ok(Deleted::WithStatus(1)));
    assert_eq!(list.todos.len(), 1);
    assert_eq!(list.delete_selected(None, None, None), Err(TodoError::NoDeleteTarget));
    assert_eq!(list.delete_selected(Some(99), None, None), Err(TodoError::NotFound { id: 99 }));
    assert_eq!(
        list.delete_selected(None, None, Some("x".to_string())),
        Err(TodoError::InvalidStatus)
    );
    assert_eq!(list.todos.len(), 1);
    assert_eq!(list.todos[0].id, 5);
}

#[test]
fn the_overview_shows_the_four_most_urgent_and_three_others() {
    let mut list = list_with(12);
    list.todos[0].status = Status::Done;
    list.todos[1].status = Status::Archived;
    list.todos[2].status = Status::InProgress;
    list.todos[5].priority = Priority::P0;
    list.todos[8].priority = Priority::P1;
    let overview = list.overview();
    assert_eq!(overview.total_active, 10);
    assert_eq!(overview.total_done, 1);
    assert_eq!(overview.total_in_progress, 1);
    assert_eq!(ids(&overview.priority_todos), vec![6, 9, 12, 11]);
    assert_eq!(ids(&overview.other_todos), vec![3, 5, 8]);
}

#[test]
fn the_overview_of_few_tasks_shows_them_all_once() {
    let list = list_with(6);
    let overview = list.overview();
    assert_eq!(ids(&overview.priority_todos), vec![6, 5, 4, 3]);
    assert_eq!(ids(&overview.other_todos), vec![1, 2]);
    let small = list_with(2);
    let overview = small.overview();
    assert_eq!(ids(&overview.priority_todos), vec![2, 1]);
    assert!(overview.other_todos.is_empty());
    let empty = TodoList::new();
    let overview = empty.overview();
    assert!(overview.priority_todos.is_empty());
    assert!(overview.other_todos.is_empty());
    assert_eq!(overview.total_active, 0);
}

#[test]
fn marks_and_letters_of_a_task() {
    let mut todo = Todo::created_at("t".to_string(), at(0));
    assert_eq!(get_status_icon(&todo), ' ');
    todo.notes = Some("n".to_string());
    assert_eq!(get_status_icon(&todo), 'N');
    todo.status = Status::InProgress;
    assert_eq!(get_status_icon(&todo), '>');
    todo.priority = Priority::P1;
    assert_eq!(get_status_icon(&todo), '*');
    todo.priority = Priority::P0;
    assert_eq!(get_status_icon(&todo), '!');
    assert_eq!(status_letter(&Status::Todo), 'T');
    assert_eq!(status_letter(&Status::InProgress), 'W');
    assert_eq!(status_letter(&Status::Done), 'D');
    assert_eq!(status_letter(&Status::Archived), 'A');
}

#[test]
fn a_push_with_changes_stages_commits_and_pushes() {
    let state = PushState::CheckingStatus;
    let step = state.advance(true, true, false, "");
    assert_eq!(step, PushStep::Stage);
    let state = step.state().unwrap();
    assert_eq!(state, PushState::Staging);
    let step = state.advance(true, true, false, "");
    assert_eq!(step, PushStep::Commit);
    let step = step.state().unwrap().advance(true, true, false, "");
    assert_eq!(step, PushStep::Push);
    let step = step.state().unwrap().advance(true, true, false, "");
    assert_eq!(step, PushStep::Finished);
    assert_eq!(step.state(), None);
}

#[test]
fn a_push_without_changes_needs_force() {
    assert_eq!(PushState::CheckingStatus.advance(true, false, false, ""), PushStep::NothingToPush);
    assert_eq!(PushState::CheckingStatus.advance(true, false, true, ""), PushStep::Push);
    assert_eq!(PushState::CheckingStatus.advance(false, true, true, "boom"), PushStep::Failed);
    assert_eq!(PushStep::NothingToPush.state(), None);
    assert_eq!(PushStep::Failed.state(), None);
}

#[test]
fn a_push_without_upstream_is_tried_once_more() {
    let error = "fatal: The current branch main has no upstream branch.";
    assert_eq!(PushState::Pushing.advance(false, true, false, error), PushStep::PushSettingUpstream);
    assert_eq!(PushState::Pushing.advance(false, true, false, "rejected"), PushStep::Failed);
    assert_eq!(
        PushStep::PushSettingUpstream.state(),
        Some(PushState::SettingUpstream)
    );
    assert_eq!(PushState::SettingUpstream.advance(false, true, false, error), PushStep::Failed);
    assert_eq!(PushState::SettingUpstream.advance(true, true, false, ""), PushStep::Finished);
    assert_eq!(PushState::Staging.advance(false, true, false, ""), PushStep::Failed);
    assert_eq!(PushState::Committing.advance(false, true, false, ""), PushStep::Failed);
}

#[test]
fn commit_messages() {
    assert_eq!(commit_message(Some("mine".to_string()), "ignored"), "mine");
    assert_eq!(commit_message(None, "2024-05-06 07:08"), "Update TODOs - 2024-05-06 07:08");
    assert_eq!(commit_message_now(Some("given".to_string())), "given");
    let now = commit_message_now(None);
    assert!(now.starts_with("Update TODOs - "));
    let time: Vec<char> = now["Update TODOs - ".len()..].chars().collect();
    assert!(time.len() >= 16);
    let tail = &time[time.len() - 12..];
    for (i, c) in tail.iter().enumerate() {
        match i {
            0 | 3 => assert_eq!(*c, '-'),
            6 => assert_eq!(*c, ' '),
            9 => assert_eq!(*c, ':'),
            _ => assert!(c.is_ascii_digit()),
        }
    }
    assert!(time[..time.len() - 12].iter().all(|c| c.is_ascii_digit() || *c == '+'));
}

#[test]
fn signals_say_whether_the_selection_follows_the_task() {
    assert!(SearchSignal::IncreasePriority(3).keeps_selection());
    assert!(SearchSignal::DecreasePriority(3).keeps_selection());
    assert!(SearchSignal::MarkDone(3).keeps_selection());
    assert!(!SearchSignal::Archive(3).keeps_selection());
    assert!(!SearchSignal::Edit(3).keeps_selection());
    assert!(!SearchSignal::AddTask.keeps_selection());
    assert!(!SearchSignal::Exit.keeps_selection());
    assert!(!SearchSignal::Continue.keeps_selection());
    assert_eq!(SearchSignal::Archive(7).task_id(), Some(7));
    assert_eq!(SearchSignal::Edit(8).task_id(), Some(8));
    assert_eq!(SearchSignal::MarkDone(9).task_id(), Some(9));
    assert_eq!(SearchSignal::IncreasePriority(1).task_id(), Some(1));
    assert_eq!(SearchSignal::DecreasePriority(2).task_id(), Some(2));
    assert_eq!(SearchSignal::Exit.task_id(), None);
    assert_eq!(SearchSignal::Continue.task_id(), None);
}

#[test]
fn git_status_values() {
    let dirty = GitStatus::from_porcelain("~/data".to_string(), " M todo.yaml\n");
    assert!(dirty.has_changes);
    assert_eq!(dirty.status_message, "modified");
    assert_eq!(dirty.pretty_path, "~/data");
    let clean = GitStatus::from_porcelain("p".to_string(), " \n");
    assert!(!clean.has_changes);
    assert_eq!(clean.status_message, "up to date");
    let none = GitStatus::not_a_repository("p".to_string());
    assert!(!none.has_changes);
    assert_eq!(none.status_message, "not a git repository");
    assert_eq!(GitStatus::git_error("p".to_string()).status_message, "git error");
    let unknown = GitStatus::unavailable();
    assert_eq!(unknown.pretty_path, "unknown");
    assert_eq!(unknown.status_message, "unavailable");
    assert!(!unknown.has_changes);
}

#[test]
fn setup_choices_and_poll_decisions() {
    assert_eq!(parse_choice("1"), Some(SetupChoice::WithGithub));
    assert_eq!(parse_choice(" 2\n"), Some(SetupChoice::LocalOnly));
    assert_eq!(parse_choice("3"), Some(SetupChoice::Cancel));
    assert_eq!(parse_choice("4"), None);
    assert_eq!(parse_choice(""), None);
    assert_eq!(decide_poll(true, None), PollDecision::Granted);
    assert_eq!(decide_poll(true, Some("slow_down")), PollDecision::Granted);
    assert_eq!(decide_poll(false, Some("authorization_pending")), PollDecision::KeepWaiting);
    assert_eq!(decide_poll(false, Some("slow_down")), PollDecision::SlowDown);
    assert_eq!(decide_poll(false, Some("access_denied")), PollDecision::Refused);
    assert_eq!(decide_poll(false, None), PollDecision::KeepWaiting);
}

#[test]
fn an_item_list_moves_its_selection() {
    let mut list = ItemList::new(
        "items".to_string(),
        vec![("a".to_string(), 10u32), ("b".to_string(), 20), ("c".to_string(), 30)],
    );
    assert_eq!(list.selected_value(), Some(10));
    assert_eq!(list.selected_index(), Some(0));
    assert!(!list.is_focused());
    assert!(!list.handle_event(&Event::plain(KeyCode::Down)));
    list.set_focused(true);
    assert!(list.handle_event(&Event::plain(KeyCode::Up)));
    assert_eq!(list.selected_value(), Some(10));
    assert!(list.handle_event(&Event::plain(KeyCode::Down)));
    assert!(list.handle_event(&Event::plain(KeyCode::Down)));
    assert!(list.handle_event(&Event::plain(KeyCode::Down)));
    assert_eq!(list.selected_value(), Some(30));
    assert!(!list.handle_event(&Event::plain(KeyCode::Enter)));
    let mut empty: ItemList<u8> = ItemList::new("none".to_string(), Vec::new());
    assert_eq!(empty.selected_value(), None);
    assert_eq!(empty.selected_index(), None);
    empty.set_focused(true);
    assert!(empty.handle_event(&Event::plain(KeyCode::Down)));
    assert_eq!(empty.selected_index(), None);
}
