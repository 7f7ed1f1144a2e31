use guidebook_todo::{Priority, Status, Timestamp, Todo, TodoError};

fn at(secs: i64) -> Timestamp {
    Timestamp::new(secs, 0)
}

#[test]
fn a_new_task_has_the_defaults() {
    let todo = Todo::created_at("Write report".to_string(), at(100));
    assert_eq!(todo.id, 0);
    assert_eq!(todo.title, "Write report");
    assert_eq!(todo.priority, Priority::P2);
    assert_eq!(todo.status, Status::Todo);
    assert!(todo.tags.is_empty());
    assert_eq!(todo.category, None);
    assert_eq!(todo.project, None);
    assert_eq!(todo.notes, None);
    assert_eq!(todo.created_date, at(100));
    assert_eq!(todo.finished_date, None);
}

#[test]
fn new_reads_the_clock() {
    let todo = Todo::new("x".to_string());
    assert!(todo.created_date.secs > 1_600_000_000);
    assert!(todo.created_date.nanos < 1_000_000_000);
    assert_eq!(todo.title, "x");
    assert_eq!(todo.status, Status::Todo);
}

#[test]
fn new_validated_accepts_a_valid_title_and_trims_it() {
    let todo = Todo::new_validated("  Buy milk  ".to_string()).unwrap();
    assert_eq!(todo.title, "Buy milk");
    assert_eq!(todo.id, 0);
    assert_eq!(todo.priority, Priority::P2);
    assert_eq!(todo.status, Status::Todo);
    assert!(todo.tags.is_empty());
    assert_eq!(todo.category, None);
    assert_eq!(todo.project, None);
    assert_eq!(todo.notes, None);
    assert_eq!(todo.finished_date, None);
}

#[test]
fn new_validated_refuses_an_empty_or_long_title() {
    assert_eq!(Todo::new_validated("".to_string()).err(), Some(TodoError::EmptyTitle));
    assert_eq!(Todo::new_validated("   \t ".to_string()).err(), Some(TodoError::EmptyTitle));
    assert_eq!(
        Todo::new_validated("x".repeat(201)).err(),
        Some(TodoError::TitleTooLong { len: 201 })
    );
    assert!(Todo::new_validated("x".repeat(200)).is_ok());
}

#[test]
fn validated_at_uses_the_given_time() {
    let todo = Todo::validated_at(" a ".to_string(), at(7)).unwrap();
    assert_eq!(todo.created_date, at(7));
    assert_eq!(todo.title, "a");
    assert_eq!(Todo::validated_at(" ".to_string(), at(7)).err(), Some(TodoError::EmptyTitle));
}

#[test]
fn validate_title_judges_the_trimmed_title() {
    assert_eq!(Todo::validate_title("ok"), Ok(()));
    assert_eq!(Todo::validate_title(""), Err(TodoError::EmptyTitle));
    assert_eq!(Todo::validate_title(" \n"), Err(TodoError::EmptyTitle));
    let padded = format!("  {}  ", "t".repeat(200));
    assert_eq!(Todo::validate_title(&padded), Ok(()));
    let long = format!(" {} ", "t".repeat(250));
    assert_eq!(Todo::validate_title(&long), Err(TodoError::TitleTooLong { len: 250 }));
}

#[test]
fn validate_title_counts_characters() {
    assert_eq!(Todo::validate_title(&"é".repeat(200)), Ok(()));
    assert_eq!(
        Todo::validate_title(&"é".repeat(201)),
        Err(TodoError::TitleTooLong { len: 201 })
    );
}

#[test]
fn validate_category_project_and_notes_have_their_limits() {
    assert_eq!(Todo::validate_category(""), Ok(()));
    assert_eq!(Todo::validate_category(&"c".repeat(50)), Ok(()));
    assert_eq!(
        Todo::validate_category(&"c".repeat(51)),
        Err(TodoError::CategoryTooLong { len: 51 })
    );
    assert_eq!(Todo::validate_project(&"p".repeat(100)), Ok(()));
    assert_eq!(
        Todo::validate_project(&"p".repeat(101)),
        Err(TodoError::ProjectTooLong { len: 101 })
    );
    assert_eq!(Todo::validate_notes(&"n".repeat(2000)), Ok(()));
    assert_eq!(
        Todo::validate_notes(&"n".repeat(2001)),
        Err(TodoError::NotesTooLong { len: 2001 })
    );
}

#[test]
fn todo_validate_and_normalize_tags_matches_the_tag_rules() {
    assert_eq!(
        Todo::validate_and_normalize_tags("Bug Fix, urgent, urgent"),
        Ok(vec!["bug_fix".to_string(), "urgent".to_string()])
    );
    assert_eq!(
        Todo::validate_and_normalize_tags(&"z".repeat(31)),
        Err(TodoError::TagTooLong { index: 0, len: 31 })
    );
}

#[test]
fn is_active_and_priority_value() {
    let mut todo = Todo::created_at("t".to_string(), at(0));
    assert!(todo.is_active());
    assert_eq!(todo.priority_value(), 2);
    todo.status = Status::InProgress;
    assert!(todo.is_active());
    todo.status = Status::Done;
    assert!(!todo.is_active());
    todo.status = Status::Archived;
    assert!(!todo.is_active());
    todo.priority = Priority::P5;
    assert_eq!(todo.priority_value(), 5);
    todo.priority = Priority::P0;
    assert_eq!(todo.priority_value(), 0);
}

#[test]
fn entering_done_stamps_the_finish_time() {
    let mut todo = Todo::created_at("t".to_string(), at(0));
    todo.set_status(Status::Done, at(50));
    assert_eq!(todo.status, Status::Done);
    assert_eq!(todo.finished_date, Some(at(50)));

    let mut doing = Todo::created_at("t".to_string(), at(0));
    doing.set_status(Status::InProgress, at(10));
    assert_eq!(doing.finished_date, None);
    doing.set_status(Status::Done, at(20));
    assert_eq!(doing.finished_date, Some(at(20)));
}

#[test]
fn leaving_done_clears_the_finish_time() {
    let mut todo = Todo::created_at("t".to_string(), at(0));
    todo.set_status(Status::Done, at(50));
    todo.set_status(Status::InProgress, at(60));
    assert_eq!(todo.status, Status::InProgress);
    assert_eq!(todo.finished_date, None);
    todo.set_status(Status::Done, at(70));
    todo.set_status(Status::Todo, at(80));
    assert_eq!(todo.finished_date, None);
}

#[test]
fn archiving_leaves_the_finish_time_alone() {
    let mut done = Todo::created_at("t".to_string(), at(0));
    done.set_status(Status::Done, at(50));
    done.set_status(Status::Archived, at(60));
    assert_eq!(done.finished_date, Some(at(50)));
    done.set_status(Status::Todo, at(70));
    assert_eq!(done.finished_date, Some(at(50)));

    let mut open = Todo::created_at("t".to_string(), at(0));
    open.set_status(Status::Archived, at(10));
    assert_eq!(open.finished_date, None);
    open.set_status(Status::Done, at(20));
    assert_eq!(open.finished_date, None);
}

#[test]
fn staying_done_keeps_the_first_finish_time() {
    let mut todo = Todo::created_at("t".to_string(), at(0));
    todo.set_status(Status::Done, at(50));
    todo.set_status(Status::Done, at(90));
    assert_eq!(todo.finished_date, Some(at(50)));
}

#[test]
fn update_with_validation_stores_what_is_given() {
    let mut todo = Todo::created_at("old".to_string(), at(0));
    let r = todo.update_with_validation(
        Some("  new title ".to_string()),
        Some(" work ".to_string()),
        Some("apollo".to_string()),
        Some(" some notes\n".to_string()),
        Some(vec!["a".to_string()]),
    );
    assert_eq!(r, Ok(()));
    assert_eq!(todo.title, "new title");
    assert_eq!(todo.category, Some("work".to_string()));
    assert_eq!(todo.project, Some("apollo".to_string()));
    assert_eq!(todo.notes, Some("some notes".to_string()));
    assert_eq!(todo.tags, vec!["a".to_string()]);
}

#[test]
fn update_with_validation_clears_blank_optional_fields() {
    let mut todo = Todo::created_at("t".to_string(), at(0));
    todo.category = Some("c".to_string());
    todo.project = Some("p".to_string());
    todo.notes = Some("n".to_string());
    let r = todo.update_with_validation(
        None,
        Some("  ".to_string()),
        Some("".to_string()),
        Some("\n".to_string()),
        None,
    );
    assert_eq!(r, Ok(()));
    assert_eq!(todo.category, None);
    assert_eq!(todo.project, None);
    assert_eq!(todo.notes, None);
    assert_eq!(todo.title, "t");
}

#[test]
fn update_with_validation_stops_at_the_first_fault() {
    let mut todo = Todo::created_at("t".to_string(), at(0));
    let r = todo.update_with_validation(
        Some("fine".to_string()),
        Some("c".repeat(51)),
        Some("never stored".to_string()),
        None,
        Some(vec!["x".to_string()]),
    );
    assert_eq!(r, Err(TodoError::CategoryTooLong { len: 51 }));
    assert_eq!(todo.title, "fine");
    assert_eq!(todo.category, None);
    assert_eq!(todo.project, None);
    assert!(todo.tags.is_empty());

    let mut other = Todo::created_at("t".to_string(), at(0));
    let r = other.update_with_validation(Some(" ".to_string()), Some("c".to_string()), None, None, None);
    assert_eq!(r, Err(TodoError::EmptyTitle));
    assert_eq!(other.title, "t");
    assert_eq!(other.category, None);
}

#[test]
fn update_with_validation_with_nothing_given_changes_nothing() {
    let mut todo = Todo::created_at("t".to_string(), at(0));
    todo.category = Some("c".to_string());
    assert_eq!(todo.update_with_validation(None, None, None, None, None), Ok(()));
    assert_eq!(todo.title, "t");
    assert_eq!(todo.category, Some("c".to_string()));
}

#[test]
fn apply_update_reads_names_and_applies_in_order() {
    let mut todo = Todo::created_at("t".to_string(), at(0));
    let r = todo.apply_update(
        Some("Done".to_string()),
        Some("P0".to_string()),
        Some("+a,+b,-a".to_string()),
        Some("home".to_string()),
        Some("".to_string()),
        Some("note".to_string()),
        at(9),
    );
    assert_eq!(r, Ok(()));
    assert_eq!(todo.status, Status::Done);
    assert_eq!(todo.finished_date, Some(at(9)));
    assert_eq!(todo.priority, Priority::P0);
    assert_eq!(todo.tags, vec!["b".to_string()]);
    assert_eq!(todo.category, Some("home".to_string()));
    assert_eq!(todo.project, None);
    assert_eq!(todo.notes, Some("note".to_string()));
}

#[test]
fn apply_update_keeps_the_status_when_the_priority_is_refused() {
    let mut todo = Todo::created_at("t".to_string(), at(0));
    let r = todo.apply_update(
        Some("done".to_string()),
        Some("urgent".to_string()),
        Some("+a".to_string()),
        None,
        None,
        None,
        at(9),
    );
    assert_eq!(r, Err(TodoError::InvalidPriority));
    assert_eq!(todo.status, Status::Done);
    assert_eq!(todo.finished_date, Some(at(9)));
    assert_eq!(todo.priority, Priority::P2);
    assert!(todo.tags.is_empty());
}

#[test]
fn apply_update_changes_nothing_when_the_status_is_refused() {
    let mut todo = Todo::created_at("t".to_string(), at(0));
    let r = todo.apply_update(
        Some("finished".to_string()),
        Some("p0".to_string()),
        None,
        Some("c".to_string()),
        None,
        None,
        at(9),
    );
    assert_eq!(r, Err(TodoError::InvalidStatus));
    assert_eq!(todo.status, Status::Todo);
    assert_eq!(todo.priority, Priority::P2);
    assert_eq!(todo.category, None);
}

#[test]
fn clone_copies_every_field() {
    let mut todo = Todo::created_at("t".to_string(), at(3));
    todo.id = 9;
    todo.tags = vec!["a".to_string(), "b".to_string()];
    todo.category = Some("c".to_string());
    todo.notes = Some("n".to_string());
    todo.set_status(Status::Done, at(4));
    let copy = todo.clone();
    assert_eq!(copy.id, 9);
    assert_eq!(copy.title, "t");
    assert_eq!(copy.tags, todo.tags);
    assert_eq!(copy.category, todo.category);
    assert_eq!(copy.project, None);
    assert_eq!(copy.notes, todo.notes);
    assert_eq!(copy.status, Status::Done);
    assert_eq!(copy.created_date, at(3));
    assert_eq!(copy.finished_date, Some(at(4)));
}
