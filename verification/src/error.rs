//! The error of a request that the store could not serve.

use vstd::prelude::*;
use vstd::string::*;

verus! {

/// Why a request failed, in words. Its value is the message.
#[derive(Debug, PartialEq, Eq)]
pub struct TodoError {
    message: String,
}

impl View for TodoError {
    type V = Seq<char>;

    closed spec fn view(&self) -> Seq<char> {
        self.message@
    }
}

/// The step of a request at which the store can fail.
#[derive(Clone, Copy, Debug, PartialEq, Eq, Structural)]
pub enum StoreStep {
    /// Taking a connection from the pool.
    Acquire,
    /// Reading the whole table.
    FetchAll,
    /// Reading one row back after a write.
    FetchOne,
    /// Inserting a row.
    Insert,
    /// Changing a row.
    Update,
    /// Removing a row.
    Delete,
}

/// How the message of a failure at `step` begins.
pub open spec fn failure_prefix(step: StoreStep) -> Seq<char> {
    match step {
        StoreStep::Acquire => "unable to acquire connection: "@,
        StoreStep::FetchAll => "unable to fetch todos: "@,
        StoreStep::FetchOne => "unable to fetch todo: "@,
        StoreStep::Insert => "unable to create todo: "@,
        StoreStep::Update => "unable to update todo: "@,
        StoreStep::Delete => "Failed to delete todo: "@,
    }
}

impl TodoError {
    /// An error with this message.
    pub fn new(message: &str) -> (error: TodoError)
        ensures
            error@ == message@,
    {
        TodoError { message: message.to_owned() }
    }

    /// The message, as it is shown to whoever made the request.
    pub fn message(&self) -> (message: &str)
        ensures
            message@ == self@,
    {
        self.message.as_str()
    }

    /// The error of a store that failed at `step`; `detail` is what the store said.
    pub fn store_failure(step: StoreStep, detail: &str) -> (error: TodoError)
        ensures
            error@ == failure_prefix(step) + detail@,
    {
        let prefix = match step {
            StoreStep::Acquire => "unable to acquire connection: ",
            StoreStep::FetchAll => "unable to fetch todos: ",
            StoreStep::FetchOne => "unable to fetch todo: ",
            StoreStep::Insert => "unable to create todo: ",
            StoreStep::Update => "unable to update todo: ",
            StoreStep::Delete => "Failed to delete todo: ",
        };
        TodoError { message: prefix.to_owned().concat(detail) }
    }
}

impl Clone for TodoError {
    fn clone(&self) -> (copy: TodoError)
        ensures
            copy == *self,
    {
        TodoError { message: self.message.clone() }
    }
}

} // verus!
