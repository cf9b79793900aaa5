//! The end of a write request: once the store has answered, what the client is
//! told and what the bus is told.
//!
//! The client is answered from what the store returned and from nothing else.
//! The bus hears of a write only after the store has accepted it, and however
//! the announcement ends, the answer to the client stays what it was.

use crate::bus::{is_outcome_of, MutationBus, PublishOutcome};
use crate::error::TodoError;
use crate::todo::{MutationView, Todo, TodoView};
use vstd::prelude::*;

verus! {

/// A write as the store answered it.
pub enum WriteView {
    /// An insert; `row` is the new row as read back, or nothing if the store failed.
    Create { row: Option<TodoView> },
    /// A change; `row` is the row as read back afterwards, or nothing if the store failed.
    Update { row: Option<TodoView> },
    /// A removal of the row `id`; `removed` says whether the store carried it out.
    Delete { id: int, removed: bool },
}

/// What the bus is told of a write: the matching mutation if the store
/// accepted the write, nothing if it failed.
pub open spec fn announced(write: WriteView) -> Option<MutationView> {
    match write {
        WriteView::Create { row: Some(row) } => Some(MutationView::Create(row)),
        WriteView::Update { row: Some(row) } => Some(MutationView::Update(row)),
        WriteView::Delete { id, removed: true } => Some(MutationView::Delete(id)),
        _ => None,
    }
}

/// The row that the store returned, if it returned one.
pub open spec fn returned_row(stored: Result<Todo, TodoError>) -> Option<TodoView> {
    match stored {
        Ok(row) => Some(row@),
        Err(_) => None,
    }
}

/// Whether `announcement` is a possible end of telling the bus what is `due`:
/// an outcome of announcing that mutation, or none at all where nothing is due.
pub open spec fn announcement_fits(
    announcement: Option<PublishOutcome>,
    due: Option<MutationView>,
) -> bool {
    match due {
        Some(mutation) => announcement matches Some(outcome) && is_outcome_of(outcome@, mutation),
        None => announcement is None,
    }
}

/// A write request that has run its course.
#[derive(Debug, PartialEq, Eq)]
pub struct Settled<R> {
    /// What the client is told.
    pub response: Result<R, TodoError>,
    /// How telling the bus ended, for the log; `None` if the bus was not told.
    pub announcement: Option<PublishOutcome>,
}

/// Ends a create request. `stored` is the new row as the store read it back,
/// or the store's failure.
pub fn create_todo(stored: Result<Todo, TodoError>, bus: &MutationBus) -> (settled: Settled<Todo>)
    ensures
        settled.response == stored,
        announcement_fits(
            settled.announcement,
            announced(WriteView::Create { row: returned_row(stored) }),
        ),
{
    match stored {
        Ok(row) => {
            let outcome = bus.publish_create(&row);
            Settled { response: Ok(row), announcement: Some(outcome) }
        },
        Err(error) => Settled { response: Err(error), announcement: None },
    }
}

/// Ends an update request. `stored` is the row as the store read it back after
/// the change, or the store's failure.
pub fn update_todo(stored: Result<Todo, TodoError>, bus: &MutationBus) -> (settled: Settled<Todo>)
    ensures
        settled.response == stored,
        announcement_fits(
            settled.announcement,
            announced(WriteView::Update { row: returned_row(stored) }),
        ),
{
    match stored {
        Ok(row) => {
            let outcome = bus.publish_update(&row);
            Settled { response: Ok(row), announcement: Some(outcome) }
        },
        Err(error) => Settled { response: Err(error), announcement: None },
    }
}

/// Ends a delete request for the row `id`. `removed` is the store's answer.
pub fn delete_todo(id: i32, removed: Result<(), TodoError>, bus: &MutationBus) -> (settled: Settled<
    (),
>)
    ensures
        settled.response == removed,
        announcement_fits(
            settled.announcement,
            announced(WriteView::Delete { id: id as int, removed: removed is Ok }),
        ),
{
    if removed.is_ok() {
        let outcome = bus.publish_delete(id);
        Settled { response: removed, announcement: Some(outcome) }
    } else {
        Settled { response: removed, announcement: None }
    }
}

} // verus!
