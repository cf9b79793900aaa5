//! The mutation bus: one broadcast channel that every write announces on and
//! every session listens to.
//!
//! The channel is tokio's. It is shared by all handles and changes under them,
//! so nothing here says what it holds at any moment; the contracts say what a
//! call is handed and what every possible answer is turned into.

use crate::config::{backlog_is_valid, LiveSettings, DEFAULT_BACKLOG};
use crate::todo::{MutationView, Todo, TodoMutation};
use tokio::sync::broadcast::{Receiver, Sender};
use vstd::prelude::*;

verus! {

/// `tokio::sync::broadcast::Sender`, the handle that announces. Opaque here.
#[verifier::external_type_specification]
#[verifier::external_body]
#[verifier::reject_recursive_types(T)]
pub struct ExSender<T>(Sender<T>);

/// `tokio::sync::broadcast::Receiver`, the handle that one listener reads from. Opaque here.
#[verifier::external_type_specification]
#[verifier::external_body]
#[verifier::reject_recursive_types(T)]
pub struct ExReceiver<T>(Receiver<T>);

/// `tokio::sync::broadcast::channel`, which makes a channel that keeps at
/// least `capacity` values for a listener that has fallen behind, and returns
/// its first two handles. It panics on a capacity of zero or above half of
/// `usize::MAX`, which `requires` leaves out; it allocates the whole backlog at
/// once, and fails as every allocation does if memory cannot hold it. Nothing
/// is claimed of the handles.
#[verifier::external_body]
fn open_channel(capacity: usize) -> (handles: (Sender<TodoMutation>, Receiver<TodoMutation>))
    requires
        backlog_is_valid(capacity),
{
    tokio::sync::broadcast::channel(capacity)
}

/// `tokio::sync::broadcast::Sender::send`, which hands a value to every live
/// receiver. With no receiver it fails and gives the value back untouched; else
/// it returns how many receivers there were, which is then at least one. It
/// never waits.
#[verifier::external_body]
fn channel_send(sender: &Sender<TodoMutation>, mutation: TodoMutation) -> (sent: Result<
    usize,
    TodoMutation,
>)
    ensures
        sent matches Ok(listeners) ==> listeners >= 1,
        sent matches Err(returned) ==> returned == mutation,
{
    match sender.send(mutation) {
        Ok(listeners) => Ok(listeners),
        Err(unsent) => Err(unsent.0),
    }
}

/// `tokio::sync::broadcast::Sender::subscribe`, which makes a receiver that
/// sees the values sent after this call. Nothing is claimed of the receiver.
/// (tokio panics at a quarter of `usize::MAX` live receivers, more than memory
/// can hold.)
#[verifier::external_body]
fn channel_subscribe(sender: &Sender<TodoMutation>) -> (receiver: Receiver<TodoMutation>) {
    sender.subscribe()
}

/// How an announcement ended.
#[derive(Debug, PartialEq, Eq)]
pub enum PublishOutcome {
    /// The bus took the mutation for this many listeners, at least one.
    Delivered(usize),
    /// Nobody was listening. The mutation was dropped; here it is.
    Unheard(TodoMutation),
}

/// The mathematical value of a [`PublishOutcome`].
pub enum OutcomeView {
    Delivered(nat),
    Unheard(MutationView),
}

impl View for PublishOutcome {
    type V = OutcomeView;

    open spec fn view(&self) -> OutcomeView {
        match *self {
            PublishOutcome::Delivered(listeners) => OutcomeView::Delivered(listeners as nat),
            PublishOutcome::Unheard(mutation) => OutcomeView::Unheard(mutation@),
        }
    }
}

/// What the channel's answer to a send means for the announcement.
pub open spec fn outcome_of(sent: Result<usize, TodoMutation>) -> OutcomeView {
    match sent {
        Ok(listeners) => OutcomeView::Delivered(listeners as nat),
        Err(returned) => OutcomeView::Unheard(returned@),
    }
}

/// Whether an outcome can be the one of announcing `mutation`: some positive
/// number of listeners took it, or nobody did and it came back.
pub open spec fn is_outcome_of(outcome: OutcomeView, mutation: MutationView) -> bool {
    match outcome {
        OutcomeView::Delivered(listeners) => listeners >= 1,
        OutcomeView::Unheard(returned) => returned == mutation,
    }
}

impl PublishOutcome {
    /// Reads the channel's answer to a send. Neither answer is an error of the
    /// write that is being announced.
    pub fn from_sent(sent: Result<usize, TodoMutation>) -> (outcome: PublishOutcome)
        ensures
            outcome@ == outcome_of(sent),
    {
        match sent {
            Ok(listeners) => PublishOutcome::Delivered(listeners),
            Err(returned) => PublishOutcome::Unheard(returned),
        }
    }

    /// Whether at least one listener was there to take the mutation.
    pub fn was_heard(&self) -> (heard: bool)
        ensures
            heard == (self@ is Delivered),
    {
        match self {
            PublishOutcome::Delivered(_) => true,
            PublishOutcome::Unheard(_) => false,
        }
    }
}

/// The bus itself. It is made once, when the process starts, and handed to
/// every write handler and every session.
pub struct MutationBus {
    sender: Sender<TodoMutation>,
    backlog: usize,
}

impl MutationBus {
    /// The backlog that was asked for: the bus keeps at least this many
    /// mutations for a listener that has fallen behind, before it reports lag
    /// to it.
    pub closed spec fn backlog(&self) -> usize {
        self.backlog
    }

    /// Makes a bus that nobody listens to yet. There is none for a backlog of
    /// zero or of more than half of what a `usize` can count.
    pub fn new(backlog_capacity: usize) -> (bus: Option<MutationBus>)
        ensures
            bus is Some <==> backlog_is_valid(backlog_capacity),
            bus matches Some(made) ==> made.backlog() == backlog_capacity,
    {
        if backlog_capacity == 0 || backlog_capacity > usize::MAX / 2 {
            return None;
        }
        let (sender, _first) = open_channel(backlog_capacity);
        Some(MutationBus { sender, backlog: backlog_capacity })
    }

    /// Makes a bus with the default backlog of 100.
    pub fn with_default_backlog() -> (bus: MutationBus)
        ensures
            bus.backlog() == DEFAULT_BACKLOG,
    {
        let (sender, _first) = open_channel(DEFAULT_BACKLOG);
        MutationBus { sender, backlog: DEFAULT_BACKLOG }
    }

    /// Makes the bus that checked settings describe.
    pub fn from_settings(settings: &LiveSettings) -> (bus: MutationBus)
        ensures
            bus.backlog() == settings.backlog(),
    {
        let capacity: usize = settings.backlog_capacity();
        let (sender, _first) = open_channel(capacity);
        MutationBus { sender, backlog: capacity }
    }

    /// The backlog that the bus was made with.
    pub fn backlog_capacity(&self) -> (capacity: usize)
        ensures
            capacity == self.backlog(),
    {
        self.backlog
    }

    /// Announces a mutation to every session that is listening now. It never
    /// waits and never fails: with no listener the mutation is dropped and
    /// comes back in the outcome.
    pub fn publish(&self, mutation: TodoMutation) -> (outcome: PublishOutcome)
        ensures
            is_outcome_of(outcome@, mutation@),
    {
        PublishOutcome::from_sent(channel_send(&self.sender, mutation))
    }

    /// Announces that the store has inserted `todo`.
    pub fn publish_create(&self, todo: &Todo) -> (outcome: PublishOutcome)
        ensures
            is_outcome_of(outcome@, MutationView::Create(todo@)),
    {
        self.publish(TodoMutation::Create(todo.clone()))
    }

    /// Announces that the store has changed a row, which now reads `todo`.
    pub fn publish_update(&self, todo: &Todo) -> (outcome: PublishOutcome)
        ensures
            is_outcome_of(outcome@, MutationView::Update(todo@)),
    {
        self.publish(TodoMutation::Update(todo.clone()))
    }

    /// Announces that the store has removed the row with this id.
    pub fn publish_delete(&self, id: i32) -> (outcome: PublishOutcome)
        ensures
            is_outcome_of(outcome@, MutationView::Delete(id as int)),
    {
        self.publish(TodoMutation::Delete(id))
    }

    /// Gives a new listener its own handle. It sees every mutation announced
    /// after this call and none announced before.
    pub fn subscribe(&self) -> (receiver: Receiver<TodoMutation>) {
        channel_subscribe(&self.sender)
    }
}

} // verus!
