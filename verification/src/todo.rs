//! The todo row and the three ways a write changes the table.

use vstd::prelude::*;

verus! {

/// One row of the todo table, as the store returned it.
#[derive(Debug, PartialEq, Eq)]
pub struct Todo {
    /// Assigned by the store when the row is inserted; never changes afterwards.
    pub id: i32,
    pub description: String,
    pub completed: bool,
}

/// The mathematical value of a [`Todo`].
pub struct TodoView {
    pub id: int,
    pub description: Seq<char>,
    pub completed: bool,
}

impl View for Todo {
    type V = TodoView;

    open spec fn view(&self) -> TodoView {
        TodoView { id: self.id as int, description: self.description@, completed: self.completed }
    }
}

impl Todo {
    /// Builds a row from its three columns.
    pub fn new(id: i32, description: String, completed: bool) -> (todo: Todo)
        ensures
            todo.id == id,
            todo.description == description,
            todo.completed == completed,
    {
        Todo { id, description, completed }
    }
}

impl Clone for Todo {
    fn clone(&self) -> (copy: Todo)
        ensures
            copy == *self,
    {
        Todo { id: self.id, description: self.description.clone(), completed: self.completed }
    }
}

/// A change of the table that the store has accepted.
#[derive(Debug, PartialEq, Eq)]
pub enum TodoMutation {
    /// A row was inserted; carries the whole row, with the id it was given.
    Create(Todo),
    /// A row was changed; carries the row as read back after the change.
    Update(Todo),
    /// A row was removed; only its id is left.
    Delete(i32),
}

/// The mathematical value of a [`TodoMutation`].
pub enum MutationView {
    Create(TodoView),
    Update(TodoView),
    Delete(int),
}

impl View for TodoMutation {
    type V = MutationView;

    open spec fn view(&self) -> MutationView {
        match *self {
            TodoMutation::Create(todo) => MutationView::Create(todo@),
            TodoMutation::Update(todo) => MutationView::Update(todo@),
            TodoMutation::Delete(id) => MutationView::Delete(id as int),
        }
    }
}

impl MutationView {
    /// The id of the row that the mutation is about.
    pub open spec fn affected_id(self) -> int {
        match self {
            MutationView::Create(todo) => todo.id,
            MutationView::Update(todo) => todo.id,
            MutationView::Delete(id) => id,
        }
    }
}

impl TodoMutation {
    /// The id of the row that the mutation is about.
    pub fn affected_id(&self) -> (id: i32)
        ensures
            id as int == self@.affected_id(),
    {
        match self {
            TodoMutation::Create(todo) => todo.id,
            TodoMutation::Update(todo) => todo.id,
            TodoMutation::Delete(id) => *id,
        }
    }
}

impl Clone for TodoMutation {
    fn clone(&self) -> (copy: TodoMutation)
        ensures
            copy == *self,
    {
        match self {
            TodoMutation::Create(todo) => TodoMutation::Create(todo.clone()),
            TodoMutation::Update(todo) => TodoMutation::Update(todo.clone()),
            TodoMutation::Delete(id) => TodoMutation::Delete(*id),
        }
    }
}

} // verus!
