use guidebook_todo::{
    Event, FieldManager, Input, KeyCode, KeyEvent, Modifiers, Priority, Select, Status, TextArea,
};

fn key(code: KeyCode) -> Event {
    Event::plain(code)
}

fn with_shift(code: KeyCode) -> Event {
    Event::Key(KeyEvent { code, modifiers: Modifiers::shifted() })
}

fn focused_input(text: &str) -> Input {
    let mut input = Input::new("hint").with_value(text.to_string());
    input.set_focused(true);
    input
}

#[test]
fn modifiers_tell_their_combinations_apart() {
    assert!(Modifiers::empty().is_none());
    assert!(Modifiers::ctrl().is_control_only());
    assert!(Modifiers::shifted().is_shift_only());
    assert!(!Modifiers::ctrl().is_none());
    let both = Modifiers { shift: true, control: true, alt: false, other: false };
    assert!(!both.is_control_only());
    assert!(!both.is_shift_only());
    assert_eq!(
        Event::control('x'),
        Event::Key(KeyEvent { code: KeyCode::Char('x'), modifiers: Modifiers::ctrl() })
    );
    assert_eq!(
        Event::plain(KeyCode::Tab),
        Event::Key(KeyEvent { code: KeyCode::Tab, modifiers: Modifiers::empty() })
    );
}

#[test]
fn a_new_input_is_empty_and_unfocused() {
    let input = Input::new("Title");
    assert_eq!(input.value, "");
    assert_eq!(input.cursor_position, 0);
    assert!(!input.focused);
    assert_eq!(input.placeholder, "Title");
    let filled = input.with_value("héllo".to_string());
    assert_eq!(filled.value, "héllo");
    assert_eq!(filled.cursor_position, 5);
    assert_eq!(filled.placeholder, "Title");
}

#[test]
fn an_unfocused_input_takes_nothing() {
    let mut input = Input::new("x").with_value("ab".to_string());
    assert!(!input.handle_event(&key(KeyCode::Char('c'))));
    assert!(!input.handle_event(&key(KeyCode::Backspace)));
    assert_eq!(input.value, "ab");
    assert_eq!(input.cursor_position, 2);
}

#[test]
fn typing_inserts_at_the_cursor() {
    let mut input = focused_input("ac");
    assert!(input.handle_event(&key(KeyCode::Left)));
    assert!(input.handle_event(&key(KeyCode::Char('b'))));
    assert_eq!(input.value, "abc");
    assert_eq!(input.cursor_position, 2);
    assert!(input.handle_event(&with_shift(KeyCode::Char('B'))));
    assert_eq!(input.value, "abBc");
    assert_eq!(input.cursor_position, 3);
}

#[test]
fn typing_works_with_characters_of_several_bytes() {
    let mut input = focused_input("");
    for c in ['é', 'ü', '!'] {
        assert!(input.handle_event(&key(KeyCode::Char(c))));
    }
    assert_eq!(input.value, "éü!");
    assert_eq!(input.cursor_position, 3);
    assert!(input.handle_event(&key(KeyCode::Backspace)));
    assert!(input.handle_event(&key(KeyCode::Backspace)));
    assert_eq!(input.value, "é");
}

#[test]
fn control_a_and_e_jump_and_other_control_keys_are_left() {
    let mut input = focused_input("hello");
    assert!(input.handle_event(&Event::control('a')));
    assert_eq!(input.cursor_position, 0);
    assert!(input.handle_event(&Event::control('e')));
    assert_eq!(input.cursor_position, 5);
    assert!(!input.handle_event(&Event::control('x')));
    assert_eq!(input.value, "hello");
}

#[test]
fn backspace_and_delete_remove_one_character() {
    let mut input = focused_input("abc");
    assert!(input.handle_event(&key(KeyCode::Backspace)));
    assert_eq!(input.value, "ab");
    assert_eq!(input.cursor_position, 2);
    assert!(input.handle_event(&key(KeyCode::Delete)));
    assert_eq!(input.value, "ab");
    assert!(input.handle_event(&key(KeyCode::Home)));
    assert!(input.handle_event(&key(KeyCode::Backspace)));
    assert_eq!(input.value, "ab");
    assert_eq!(input.cursor_position, 0);
    assert!(input.handle_event(&key(KeyCode::Delete)));
    assert_eq!(input.value, "b");
    assert_eq!(input.cursor_position, 0);
}

#[test]
fn cursor_keys_stop_at_the_ends() {
    let mut input = focused_input("ab");
    assert!(input.handle_event(&key(KeyCode::Right)));
    assert_eq!(input.cursor_position, 2);
    assert!(input.handle_event(&key(KeyCode::Left)));
    assert!(input.handle_event(&key(KeyCode::Left)));
    assert!(input.handle_event(&key(KeyCode::Left)));
    assert_eq!(input.cursor_position, 0);
    assert!(input.handle_event(&key(KeyCode::End)));
    assert_eq!(input.cursor_position, 2);
}

#[test]
fn editing_keys_with_a_modifier_are_left() {
    let mut input = focused_input("ab");
    assert!(!input.handle_event(&with_shift(KeyCode::Backspace)));
    assert!(!input.handle_event(&with_shift(KeyCode::Left)));
    assert!(!input.handle_event(&key(KeyCode::Enter)));
    assert!(!input.handle_event(&key(KeyCode::Tab)));
    assert!(!input.handle_event(&Event::Other));
    assert_eq!(input.value, "ab");
    assert_eq!(input.cursor_position, 2);
}

#[test]
fn input_clone_copies_the_field() {
    let input = focused_input("abc");
    let copy = input.clone();
    assert_eq!(copy.value, "abc");
    assert_eq!(copy.cursor_position, 3);
    assert!(copy.focused);
    assert_eq!(copy.placeholder, "hint");
}

#[test]
fn a_textarea_takes_text_and_line_breaks() {
    let mut area = TextArea::new("Notes".to_string());
    assert_eq!(area.content(), "");
    assert_eq!(area.title(), "Notes");
    assert!(!area.is_focused());
    assert!(!area.handle_event(&key(KeyCode::Char('a'))));
    area.set_focused(true);
    assert!(area.is_focused());
    assert!(area.handle_event(&key(KeyCode::Char('a'))));
    assert!(area.handle_event(&key(KeyCode::Enter)));
    assert!(area.handle_event(&key(KeyCode::Char('b'))));
    assert_eq!(area.content(), "a\nb");
    assert_eq!(area.cursor_position(), 3);
    assert!(area.handle_event(&key(KeyCode::Backspace)));
    assert_eq!(area.content(), "a\n");
    assert_eq!(area.scroll(), 0);
}

#[test]
fn a_textarea_leaves_control_characters_and_modified_enter() {
    let mut area = TextArea::with_content("t".to_string(), "xy".to_string());
    assert_eq!(area.cursor_position(), 2);
    area.set_focused(true);
    assert!(!area.handle_event(&Event::control('a')));
    assert!(!area.handle_event(&with_shift(KeyCode::Enter)));
    assert!(area.handle_event(&with_shift(KeyCode::Char('Z'))));
    assert_eq!(area.content(), "xyZ");
    area.set_content("new".to_string());
    assert_eq!(area.content(), "new");
    assert_eq!(area.cursor_position(), 3);
    assert!(area.handle_event(&key(KeyCode::Home)));
    assert!(area.handle_event(&key(KeyCode::Delete)));
    assert_eq!(area.content(), "ew");
}

fn priorities() -> Select<Priority> {
    Select::new(
        "Priority".to_string(),
        vec![
            ("low".to_string(), Priority::P4),
            ("mid".to_string(), Priority::P2),
            ("high".to_string(), Priority::P0),
        ],
    )
}

#[test]
fn a_select_starts_on_its_first_option() {
    let select = priorities();
    assert_eq!(select.selected_value(), Some(Priority::P4));
    assert_eq!(select.get_selected_label(), Some("low".to_string()));
    assert_eq!(select.selected_index(), 0);
    assert_eq!(select.len(), 3);
    assert_eq!(select.title(), "Priority");
    assert_eq!(select.label(2), Some("high".to_string()));
    assert_eq!(select.label(3), None);
    assert!(!select.is_focused());
}

#[test]
fn an_empty_select_has_nothing_selected() {
    let mut select: Select<Status> = Select::new("s".to_string(), Vec::new());
    assert_eq!(select.selected_value(), None);
    assert_eq!(select.get_selected_label(), None);
    select.set_focused(true);
    assert!(select.handle_event(&key(KeyCode::Down)));
    assert!(select.handle_event(&key(KeyCode::Up)));
    assert_eq!(select.selected_index(), 0);
    select.set_selected(&Status::Done);
    assert_eq!(select.selected_value(), None);
}

#[test]
fn set_selected_picks_the_first_option_with_the_value() {
    let mut select = priorities();
    select.set_selected(&Priority::P0);
    assert_eq!(select.selected_index(), 2);
    assert_eq!(select.selected_value(), Some(Priority::P0));
    select.set_selected(&Priority::P5);
    assert_eq!(select.selected_index(), 2);
    let mut twice = Select::new(
        "s".to_string(),
        vec![
            ("a".to_string(), Status::Todo),
            ("b".to_string(), Status::Done),
            ("c".to_string(), Status::Done),
        ],
    );
    twice.set_selected(&Status::Done);
    assert_eq!(twice.selected_index(), 1);
}

#[test]
fn up_and_down_move_the_selection_of_a_focused_select() {
    let mut select = priorities();
    assert!(!select.handle_event(&key(KeyCode::Down)));
    assert_eq!(select.selected_index(), 0);
    select.set_focused(true);
    assert!(select.handle_event(&key(KeyCode::Up)));
    assert_eq!(select.selected_index(), 0);
    assert!(select.handle_event(&key(KeyCode::Down)));
    assert!(select.handle_event(&with_shift(KeyCode::Down)));
    assert!(select.handle_event(&key(KeyCode::Down)));
    assert_eq!(select.selected_index(), 2);
    assert!(select.handle_event(&key(KeyCode::Up)));
    assert_eq!(select.selected_index(), 1);
    assert!(!select.handle_event(&key(KeyCode::Enter)));
    assert!(!select.handle_event(&Event::Other));
}

#[test]
fn the_focus_goes_round_in_a_circle() {
    let mut manager = FieldManager::new(3);
    assert_eq!(manager.focused_field(), 0);
    assert_eq!(manager.field_count(), 3);
    manager.focus_next_field();
    assert_eq!(manager.focused_field(), 1);
    manager.focus_next_field();
    manager.focus_next_field();
    assert_eq!(manager.focused_field(), 0);
    manager.focus_previous_field();
    assert_eq!(manager.focused_field(), 2);
    manager.focus_previous_field();
    assert_eq!(manager.focused_field(), 1);
}

#[test]
fn set_focused_field_takes_only_an_index_of_a_field() {
    let mut manager = FieldManager::new(7);
    manager.set_focused_field(6);
    assert_eq!(manager.focused_field(), 6);
    manager.set_focused_field(7);
    assert_eq!(manager.focused_field(), 6);
    manager.set_focused_field(0);
    assert_eq!(manager.focused_field(), 0);
    let mut none = FieldManager::new(0);
    none.set_focused_field(0);
    assert_eq!(none.focused_field(), 0);
}

#[test]
fn tab_and_shift_backtab_are_the_navigation_keys() {
    let mut manager = FieldManager::new(7);
    assert!(manager.handle_navigation_event(&key(KeyCode::Tab)));
    assert_eq!(manager.focused_field(), 1);
    assert!(manager.handle_navigation_event(&with_shift(KeyCode::BackTab)));
    assert!(manager.handle_navigation_event(&with_shift(KeyCode::BackTab)));
    assert_eq!(manager.focused_field(), 6);
    assert!(!manager.handle_navigation_event(&with_shift(KeyCode::Tab)));
    assert!(!manager.handle_navigation_event(&key(KeyCode::BackTab)));
    assert!(!manager.handle_navigation_event(&key(KeyCode::Down)));
    assert!(!manager.handle_navigation_event(&Event::Other));
    assert_eq!(manager.focused_field(), 6);
}
