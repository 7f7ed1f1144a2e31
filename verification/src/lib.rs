//! A personal task tracker: the task record, the ordered task collection with
//! its id counter, the filter and search engine, and the state machines behind
//! the interactive search view and the task form.
//!
//! Text is modelled as `Seq<char>`, a task as its [`todo::TodoView`], and a
//! point in time as a [`time::Timestamp`]; every contract is stated over
//! those models.

pub mod add_todo;
pub mod commands;
pub mod edit_todo;
pub mod error;
pub mod field_manager;
pub mod filters;
pub mod form_flow;
pub mod init;
pub mod input;
pub mod keys;
pub mod list;
pub mod overview;
pub mod priority;
pub mod push;
pub mod search;
pub mod select;
pub mod seqs;
pub mod sorting;
pub mod stats;
pub mod status;
pub mod tags;
pub mod text;
pub mod textarea;
pub mod time;
pub mod todo;
pub mod todo_form;
pub mod todo_list;

pub use crate::add_todo::TodoCreator;
pub use crate::edit_todo::TodoEditor;
pub use crate::error::{ErrorKind, TodoError};
pub use crate::field_manager::FieldManager;
pub use crate::filters::{
    filter_by_special_syntax, get_active_todos, get_all_todos_including_archived, search_todos,
    sort_todos_by_date, sort_todos_by_priority,
};
pub use crate::form_flow::FormAction;
pub use crate::input::Input;
pub use crate::keys::{Event, KeyCode, KeyEvent, Modifiers};
pub use crate::priority::{parse_priority, parse_priority_for_filter, Priority};
pub use crate::push::GitStatus;
pub use crate::search::{SearchSignal, TodoSearcher};
pub use crate::select::Select;
pub use crate::stats::Stats;
pub use crate::status::{parse_status, parse_status_for_filter, Status};
pub use crate::tags::update_tags;
pub use crate::textarea::TextArea;
pub use crate::time::Timestamp;
pub use crate::todo::Todo;
pub use crate::todo_form::{TodoFormData, TodoFormFields};
pub use crate::todo_list::TodoList;
