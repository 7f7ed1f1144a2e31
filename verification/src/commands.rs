//! The operations of the command line on a collection, without their input
//! and output.

use crate::error::TodoError;
use crate::status::status_named;
use crate::text::{char_count, lowercase};
use crate::time::Timestamp;
use crate::todo::TodoView;
use crate::todo_list::{outside_category, position_of, status_is_not, TodoList, TodoListView};
use vstd::prelude::*;

verus! {

/// What a delete removed.
#[derive(Clone, Copy, Debug, PartialEq, Eq, Structural)]
pub enum Deleted {
    /// The task with the id that was given.
    One,
    /// This many tasks of the category that was given.
    InCategory(usize),
    /// This many tasks with the status that was given.
    WithStatus(usize),
}

/// The outcome of a delete: the tasks that are left, and what was removed.
/// An id goes before a category, and a category before a status; with none
/// of them nothing is deleted and that is the error.
pub open spec fn delete_outcome(
    list: TodoListView,
    id: Option<u32>,
    category: Option<Seq<char>>,
    status: Option<Seq<char>>,
) -> (Seq<TodoView>, Result<Deleted, TodoError>) {
    if id is Some {
        let i = position_of(list.todos, id->0);
        if i < list.todos.len() {
            (list.todos.remove(i), Ok(Deleted::One))
        } else {
            (list.todos, Err(TodoError::NotFound { id: id->0 }))
        }
    } else if category is Some {
        let left = list.todos.filter(outside_category(category->0));
        (left, Ok(Deleted::InCategory((list.todos.len() - left.len()) as usize)))
    } else if status is Some {
        match status_named(lowercase(status->0)) {
            Some(s) => {
                let left = list.todos.filter(status_is_not(s));
                (left, Ok(Deleted::WithStatus((list.todos.len() - left.len()) as usize)))
            },
            None => (list.todos, Err(TodoError::InvalidStatus)),
        }
    } else {
        (list.todos, Err(TodoError::NoDeleteTarget))
    }
}

impl TodoList {
    /// Adds a task with the title as it is given and every other field at
    /// its default, created at `now`, and returns its id. An empty title is
    /// refused and the collection stays as it is.
    pub fn quick_add(&mut self, title: String, now: Timestamp) -> (r: Result<u32, TodoError>)
        requires
            old(self).next_id < u32::MAX,
        ensures
            if title@.len() == 0 {
                r == Err::<u32, TodoError>(TodoError::EmptyTitle) && final(self)@ == old(self)@
            } else {
                r == Ok::<u32, TodoError>(old(self).next_id) && final(self)@ == (TodoListView {
                    next_id: (old(self).next_id + 1) as u32,
                    todos: old(self)@.todos.push(
                        TodoView::fresh(title@, now).with_id(old(self).next_id),
                    ),
                })
            },
            old(self)@.well_formed() ==> final(self)@.well_formed(),
    {
        if char_count(title.as_str()) == 0 {
            return Err(TodoError::EmptyTitle);
        }
        let todo = self.create_todo_at(title, now);
        let id = todo.id;
        self.add_todo(todo);
        Ok(id)
    }

    /// Deletes by id, else by category, else by status, as
    /// [`delete_outcome`] defines it.
    pub fn delete_selected(
        &mut self,
        id: Option<u32>,
        category: Option<String>,
        status: Option<String>,
    ) -> (r: Result<Deleted, TodoError>)
        ensures
            final(self)@.next_id == old(self)@.next_id,
            (final(self)@.todos, r) == delete_outcome(
                old(self)@,
                id,
                crate::todo::opt_text(category),
                crate::todo::opt_text(status),
            ),
            old(self)@.well_formed() ==> final(self)@.well_formed(),
    {
        if let Some(id) = id {
            match self.delete_todo(id) {
                Ok(_) => Ok(Deleted::One),
                Err(e) => Err(e),
            }
        } else if let Some(category) = category {
            Ok(Deleted::InCategory(self.delete_by_category(category.as_str())))
        } else if let Some(status) = status {
            match self.delete_by_status(status.as_str()) {
                Ok(count) => Ok(Deleted::WithStatus(count)),
                Err(e) => Err(e),
            }
        } else {
            Err(TodoError::NoDeleteTarget)
        }
    }
}

} // verus!
