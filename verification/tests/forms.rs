use guidebook_todo::{
    Event, FormAction, KeyCode, KeyEvent, Modifiers, Priority, Select, Status, Timestamp, Todo,
    TodoCreator, TodoEditor, TodoError, TodoFormData, TodoFormFields, TodoList,
};

fn key(code: KeyCode) -> Event {
    Event::plain(code)
}

fn at(secs: i64) -> Timestamp {
    Timestamp::new(secs, 0)
}

fn type_text(creator: &mut TodoCreator, text: &str) {
    for c in text.chars() {
        assert_eq!(creator.handle_event(&key(KeyCode::Char(c))), FormAction::Continue);
    }
}

fn filled_fields() -> TodoFormFields {
    let mut fields = TodoFormFields::new().with_title("  Ship it ".to_string());
    fields.priority_select.set_selected(&Priority::P1);
    fields.status_select.set_selected(&Status::InProgress);
    fields.category_input = fields.category_input.clone().with_value(" work ".to_string());
    fields.project_input = fields.project_input.clone().with_value("".to_string());
    fields.tags_input = fields.tags_input.clone().with_value("Alpha, beta gamma,alpha".to_string());
    fields.notes_textarea.set_content("  line one\nline two \n".to_string());
    fields
}

#[test]
fn an_empty_form_has_the_defaults() {
    let fields = TodoFormFields::new();
    assert_eq!(fields.title_input.value, "");
    assert_eq!(fields.title_input.placeholder, "Title");
    assert_eq!(fields.priority_select.selected_value(), Some(Priority::P2));
    assert_eq!(fields.priority_select.get_selected_label(), Some("P2 - Should do".to_string()));
    assert_eq!(fields.priority_select.len(), 6);
    assert_eq!(fields.status_select.selected_value(), Some(Status::Todo));
    assert_eq!(fields.status_select.len(), 4);
    assert_eq!(fields.status_select.label(1), Some("In Progress".to_string()));
    assert_eq!(fields.category_input.placeholder, "Category");
    assert_eq!(fields.project_input.placeholder, "Project");
    assert_eq!(fields.tags_input.placeholder, "Tags (comma-separated)");
    assert_eq!(fields.notes_textarea.content(), "");
    assert_eq!(fields.notes_textarea.title(), "Notes");
    assert!(!fields.title_input.focused);
    assert!(!fields.notes_textarea.is_focused());
}

#[test]
fn set_field_focus_focuses_one_field() {
    let mut fields = TodoFormFields::new();
    fields.set_field_focus(3);
    assert!(fields.category_input.focused);
    assert!(!fields.title_input.focused);
    fields.set_field_focus(6);
    assert!(fields.notes_textarea.is_focused());
    assert!(!fields.category_input.focused);
    fields.set_field_focus(1);
    assert!(fields.priority_select.is_focused());
    fields.set_field_focus(7);
    assert!(!fields.priority_select.is_focused());
    assert!(!fields.title_input.focused);
    fields.set_field_focus(0);
    fields.clear_focus();
    assert!(!fields.title_input.focused);
}

#[test]
fn handle_field_event_goes_to_the_field_at_the_index() {
    let mut fields = TodoFormFields::new();
    fields.set_field_focus(5);
    assert!(fields.handle_field_event(5, &key(KeyCode::Char('x'))));
    assert_eq!(fields.tags_input.value, "x");
    assert!(!fields.handle_field_event(0, &key(KeyCode::Char('y'))));
    assert!(!fields.handle_field_event(9, &key(KeyCode::Char('y'))));
    assert_eq!(fields.title_input.value, "");
    fields.set_field_focus(2);
    assert!(fields.handle_field_event(2, &key(KeyCode::Down)));
    assert_eq!(fields.status_select.selected_value(), Some(Status::InProgress));
}

#[test]
fn from_fields_reads_and_normalizes_the_form() {
    let data = TodoFormData::from_fields(&filled_fields()).unwrap();
    assert_eq!(data.title, "Ship it");
    assert_eq!(data.priority, Priority::P1);
    assert_eq!(data.status, Status::InProgress);
    assert_eq!(data.category, Some("work".to_string()));
    assert_eq!(data.project, None);
    assert_eq!(data.tags, vec!["alpha".to_string(), "beta_gamma".to_string()]);
    assert_eq!(data.notes, Some("line one\nline two".to_string()));
}

#[test]
fn from_fields_of_a_bare_title_has_nothing_else() {
    let data = TodoFormData::from_fields(&TodoFormFields::new().with_title("t".to_string())).unwrap();
    assert_eq!(data.title, "t");
    assert_eq!(data.priority, Priority::P2);
    assert_eq!(data.status, Status::Todo);
    assert_eq!(data.category, None);
    assert_eq!(data.project, None);
    assert!(data.tags.is_empty());
    assert_eq!(data.notes, None);
}

#[test]
fn from_fields_reports_the_first_fault() {
    assert_eq!(
        TodoFormData::from_fields(&TodoFormFields::new()).err(),
        Some(TodoError::EmptyTitle)
    );
    let mut fields = filled_fields();
    fields.category_input = fields.category_input.clone().with_value("c".repeat(51));
    fields.project_input = fields.project_input.clone().with_value("p".repeat(101));
    assert_eq!(
        TodoFormData::from_fields(&fields).err(),
        Some(TodoError::CategoryTooLong { len: 51 })
    );
    fields.category_input = fields.category_input.clone().with_value(format!("  {}  ", "c".repeat(50)));
    assert_eq!(
        TodoFormData::from_fields(&fields).err(),
        Some(TodoError::ProjectTooLong { len: 101 })
    );
    fields.project_input = fields.project_input.clone().with_value("p".to_string());
    fields.tags_input = fields.tags_input.clone().with_value(format!("ok,{}", "t".repeat(31)));
    fields.notes_textarea.set_content("n".repeat(2001));
    assert_eq!(
        TodoFormData::from_fields(&fields).err(),
        Some(TodoError::TagTooLong { index: 1, len: 31 })
    );
    fields.tags_input = fields.tags_input.clone().with_value("ok".to_string());
    assert_eq!(
        TodoFormData::from_fields(&fields).err(),
        Some(TodoError::NotesTooLong { len: 2001 })
    );
    let long_title = TodoFormFields::new().with_title("x".repeat(201));
    assert_eq!(
        TodoFormData::from_fields(&long_title).err(),
        Some(TodoError::TitleTooLong { len: 201 })
    );
}

#[test]
fn load_from_todo_fills_the_form() {
    let mut todo = Todo::created_at("Title".to_string(), at(1));
    todo.priority = Priority::P4;
    todo.status = Status::Done;
    todo.category = Some("cat".to_string());
    todo.tags = vec!["a".to_string(), "b".to_string()];
    todo.notes = Some("n".to_string());
    let mut fields = TodoFormFields::new();
    fields.project_input = fields.project_input.clone().with_value("kept".to_string());
    fields.load_from_todo(&todo);
    assert_eq!(fields.title_input.value, "Title");
    assert_eq!(fields.title_input.cursor_position, 5);
    assert_eq!(fields.priority_select.selected_value(), Some(Priority::P4));
    assert_eq!(fields.status_select.selected_value(), Some(Status::Done));
    assert_eq!(fields.category_input.value, "cat");
    assert_eq!(fields.project_input.value, "kept");
    assert_eq!(fields.tags_input.value, "a,b");
    assert_eq!(fields.notes_textarea.content(), "n");
}

#[test]
fn form_actions_say_when_to_leave() {
    assert!(!FormAction::Continue.asks_save());
    assert!(FormAction::SaveAndExit.asks_save());
    assert!(FormAction::SaveThenExitIfSaved.asks_save());
    assert!(!FormAction::Continue.should_quit(true));
    assert!(FormAction::SaveAndExit.should_quit(false));
    assert!(FormAction::SaveAndExit.should_quit(true));
    assert!(FormAction::SaveThenExitIfSaved.should_quit(true));
    assert!(!FormAction::SaveThenExitIfSaved.should_quit(false));
}

#[test]
fn a_creator_starts_on_the_title() {
    let creator = TodoCreator::new(Some("given".to_string()));
    assert_eq!(creator.focused_field(), 0);
    assert!(creator.fields().title_input.focused);
    assert_eq!(creator.fields().title_input.value, "given");
    let empty = TodoCreator::new(None);
    assert_eq!(empty.fields().title_input.value, "");
}

#[test]
fn enter_in_the_title_asks_to_save() {
    let mut creator = TodoCreator::new(None);
    type_text(&mut creator, "abc");
    assert_eq!(creator.handle_event(&key(KeyCode::Enter)), FormAction::SaveThenExitIfSaved);
    assert_eq!(creator.fields().title_input.value, "abc");
    assert_eq!(creator.handle_event(&key(KeyCode::Tab)), FormAction::Continue);
    assert_eq!(creator.focused_field(), 1);
    assert_eq!(creator.handle_event(&key(KeyCode::Enter)), FormAction::Continue);
}

#[test]
fn enter_in_the_notes_is_a_line_break() {
    let mut creator = TodoCreator::new(Some("t".to_string()));
    for _ in 0..6 {
        creator.handle_event(&key(KeyCode::Tab));
    }
    assert_eq!(creator.focused_field(), 6);
    assert!(creator.fields().notes_textarea.is_focused());
    type_text(&mut creator, "a");
    assert_eq!(creator.handle_event(&key(KeyCode::Enter)), FormAction::Continue);
    type_text(&mut creator, "b");
    assert_eq!(creator.fields().notes_textarea.content(), "a\nb");
    assert_eq!(creator.handle_event(&key(KeyCode::Tab)), FormAction::Continue);
    assert_eq!(creator.focused_field(), 0);
    assert!(creator.fields().title_input.focused);
}

#[test]
fn shift_backtab_goes_back_and_selects_take_arrows() {
    let mut creator = TodoCreator::new(None);
    let back = Event::Key(KeyEvent { code: KeyCode::BackTab, modifiers: Modifiers::shifted() });
    assert_eq!(creator.handle_event(&back), FormAction::Continue);
    assert_eq!(creator.focused_field(), 6);
    creator.handle_event(&key(KeyCode::Tab));
    creator.handle_event(&key(KeyCode::Tab));
    assert_eq!(creator.focused_field(), 1);
    assert_eq!(creator.handle_event(&key(KeyCode::Up)), FormAction::Continue);
    assert_eq!(creator.handle_event(&key(KeyCode::Up)), FormAction::Continue);
    assert_eq!(creator.fields().priority_select.selected_value(), Some(Priority::P0));
    assert_eq!(creator.handle_event(&key(KeyCode::Up)), FormAction::Continue);
    assert_eq!(creator.fields().priority_select.selected_value(), Some(Priority::P0));
}

#[test]
fn the_exit_and_save_keys_give_their_actions() {
    let mut creator = TodoCreator::new(Some("t".to_string()));
    assert_eq!(creator.handle_event(&Event::control('x')), FormAction::SaveAndExit);
    assert_eq!(creator.handle_event(&key(KeyCode::Esc)), FormAction::SaveAndExit);
    assert_eq!(creator.handle_event(&Event::control('s')), FormAction::SaveThenExitIfSaved);
    assert_eq!(creator.handle_event(&Event::control('r')), FormAction::Continue);
    assert_eq!(creator.fields().status_select.selected_value(), Some(Status::Todo));
    assert_eq!(creator.handle_event(&Event::control('q')), FormAction::Continue);
    assert_eq!(creator.handle_event(&Event::Other), FormAction::Continue);
    assert_eq!(creator.fields().title_input.value, "t");
    assert_eq!(creator.handle_event(&Event::control('a')), FormAction::Continue);
    assert_eq!(creator.fields().title_input.cursor_position, 0);
}

#[test]
fn saving_a_creator_adds_the_task() {
    let mut creator = TodoCreator::new(Some(" New task ".to_string()));
    creator.handle_event(&key(KeyCode::Tab));
    creator.handle_event(&key(KeyCode::Up));
    for _ in 0..4 {
        creator.handle_event(&key(KeyCode::Tab));
    }
    type_text(&mut creator, "Red, blue");
    let mut list = TodoList::new();
    list.next_id = 5;
    assert_eq!(creator.save_todo(&mut list, at(77)), Ok(()));
    assert_eq!(list.next_id, 6);
    assert_eq!(list.todos.len(), 1);
    let todo = &list.todos[0];
    assert_eq!(todo.id, 5);
    assert_eq!(todo.title, "New task");
    assert_eq!(todo.priority, Priority::P1);
    assert_eq!(todo.status, Status::Todo);
    assert_eq!(todo.tags, vec!["red".to_string(), "blue".to_string()]);
    assert_eq!(todo.created_date, at(77));
    assert_eq!(todo.finished_date, None);
    assert_eq!(todo.category, None);
}

#[test]
fn a_task_created_as_done_has_its_finish_time() {
    let mut creator = TodoCreator::new(Some("t".to_string()));
    creator.handle_event(&key(KeyCode::Tab));
    creator.handle_event(&key(KeyCode::Tab));
    creator.handle_event(&key(KeyCode::Down));
    creator.handle_event(&key(KeyCode::Down));
    assert_eq!(creator.fields().status_select.selected_value(), Some(Status::Done));
    let mut list = TodoList::new();
    assert_eq!(creator.save_todo(&mut list, at(8)), Ok(()));
    assert_eq!(list.todos[0].status, Status::Done);
    assert_eq!(list.todos[0].finished_date, Some(at(8)));
}

#[test]
fn saving_a_creator_with_a_fault_changes_nothing() {
    let creator = TodoCreator::new(Some("   ".to_string()));
    let mut list = TodoList::new();
    assert_eq!(creator.save_todo(&mut list, at(1)), Err(TodoError::EmptyTitle));
    assert_eq!(list.next_id, 1);
    assert!(list.todos.is_empty());
}

fn one_task_list() -> TodoList {
    let mut list = TodoList::new();
    let mut todo = list.create_todo_at("Old title".to_string(), at(1));
    todo.category = Some("cat".to_string());
    todo.tags = vec!["a".to_string()];
    list.add_todo(todo);
    list
}

#[test]
fn an_editor_loads_the_task_or_reports_not_found() {
    let list = one_task_list();
    let editor = TodoEditor::new(1, &list).unwrap();
    assert_eq!(editor.todo_id(), 1);
    assert_eq!(editor.focused_field(), 0);
    assert_eq!(editor.fields().title_input.value, "Old title");
    assert!(editor.fields().title_input.focused);
    assert_eq!(editor.fields().category_input.value, "cat");
    assert_eq!(editor.fields().tags_input.value, "a");
    assert_eq!(TodoEditor::new(9, &list).err(), Some(TodoError::NotFound { id: 9 }));
}

#[test]
fn control_r_in_the_editor_selects_archived() {
    let list = one_task_list();
    let mut editor = TodoEditor::new(1, &list).unwrap();
    assert_eq!(editor.handle_event(&Event::control('r')), FormAction::Continue);
    assert_eq!(editor.fields().status_select.selected_value(), Some(Status::Archived));
    assert_eq!(editor.handle_event(&Event::control('x')), FormAction::SaveAndExit);
    assert_eq!(editor.handle_event(&Event::control('s')), FormAction::SaveThenExitIfSaved);
    assert_eq!(editor.handle_event(&key(KeyCode::Enter)), FormAction::SaveThenExitIfSaved);
}

#[test]
fn saving_an_editor_updates_the_task() {
    let mut list = one_task_list();
    let mut editor = TodoEditor::new(1, &list).unwrap();
    for c in " v2".chars() {
        editor.handle_event(&key(KeyCode::Char(c)));
    }
    editor.handle_event(&key(KeyCode::Tab));
    editor.handle_event(&key(KeyCode::Down));
    editor.handle_event(&key(KeyCode::Tab));
    editor.handle_event(&key(KeyCode::Down));
    editor.handle_event(&key(KeyCode::Down));
    for _ in 0..4 {
        editor.handle_event(&key(KeyCode::Tab));
    }
    for c in "note".chars() {
        editor.handle_event(&key(KeyCode::Char(c)));
    }
    assert_eq!(editor.save_todo(&mut list, at(30)), Ok(()));
    let todo = &list.todos[0];
    assert_eq!(todo.title, "Old title v2");
    assert_eq!(todo.priority, Priority::P3);
    assert_eq!(todo.status, Status::Done);
    assert_eq!(todo.finished_date, Some(at(30)));
    assert_eq!(todo.notes, Some("note".to_string()));
    assert_eq!(todo.category, Some("cat".to_string()));
    assert_eq!(todo.tags, vec!["a".to_string()]);
    assert_eq!(list.next_id, 2);
}

#[test]
fn tags_in_the_editor_go_through_the_delta_syntax() {
    let mut list = one_task_list();
    let mut editor = TodoEditor::new(1, &list).unwrap();
    for _ in 0..5 {
        editor.handle_event(&key(KeyCode::Tab));
    }
    for c in ",+b,-a,c".chars() {
        editor.handle_event(&key(KeyCode::Char(c)));
    }
    assert_eq!(editor.fields().tags_input.value, "a,+b,-a,c");
    assert_eq!(editor.save_todo(&mut list, at(2)), Ok(()));
    assert_eq!(list.todos[0].tags, vec!["b".to_string()]);
}

#[test]
fn saving_an_editor_with_a_fault_or_a_missing_task_changes_nothing() {
    let mut list = one_task_list();
    let mut editor = TodoEditor::new(1, &list).unwrap();
    editor.handle_event(&Event::control('a'));
    for _ in 0..9 {
        editor.handle_event(&key(KeyCode::Delete));
    }
    assert_eq!(editor.fields().title_input.value, "");
    assert_eq!(editor.save_todo(&mut list, at(2)), Err(TodoError::EmptyTitle));
    assert_eq!(list.todos[0].title, "Old title");

    let editor = TodoEditor::new(1, &list).unwrap();
    let mut other = TodoList::new();
    assert_eq!(editor.save_todo(&mut other, at(2)), Err(TodoError::NotFound { id: 1 }));
    assert!(other.todos.is_empty());
}

#[test]
fn from_fields_reports_a_list_with_nothing_selected() {
    let mut fields = filled_fields();
    fields.status_select = Select::new("Status".to_string(), Vec::new());
    assert_eq!(
        TodoFormData::from_fields(&fields).err(),
        Some(TodoError::NoStatusSelected)
    );
    fields.priority_select = Select::new("Priority".to_string(), Vec::new());
    assert_eq!(
        TodoFormData::from_fields(&fields).err(),
        Some(TodoError::NoPrioritySelected)
    );
}

#[test]
fn data_read_from_a_form_passes_the_task_rules() {
    let data = TodoFormData::from_fields(&filled_fields()).unwrap();
    assert_eq!(Todo::validate_title(&data.title), Ok(()));
    assert_eq!(data.title.trim(), data.title);
    assert_eq!(Todo::validate_category(data.category.as_deref().unwrap()), Ok(()));
    assert_eq!(Todo::validate_notes(data.notes.as_deref().unwrap()), Ok(()));
    assert_eq!(guidebook_todo::tags::check_tags(&data.tags), Ok(()));
    let mut unique = data.tags.clone();
    unique.dedup();
    assert_eq!(unique, data.tags);
}
