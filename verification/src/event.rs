//! The events of the server-push stream, before they are put on the wire.

use crate::decimal::{decimal, decimal_text, is_digit_char, lemma_decimal_is_plain};
use crate::todo::{MutationView, Todo, TodoMutation, TodoView};
use vstd::prelude::*;
use vstd::string::*;

verus! {

/// What an event carries in its data field.
#[derive(Debug, PartialEq, Eq)]
pub enum Payload {
    /// The row to be rendered as a fragment of the page.
    Fragment(Todo),
    /// Text that goes out as it is.
    Text(String),
}

/// The mathematical value of a [`Payload`].
pub enum PayloadView {
    Fragment(TodoView),
    Text(Seq<char>),
}

impl View for Payload {
    type V = PayloadView;

    open spec fn view(&self) -> PayloadView {
        match *self {
            Payload::Fragment(todo) => PayloadView::Fragment(todo@),
            Payload::Text(text) => PayloadView::Text(text@),
        }
    }
}

/// One event of the stream: an optional id, the label that names its kind, and its data.
#[derive(Debug, PartialEq, Eq)]
pub struct WireEvent {
    pub id: Option<String>,
    pub event: String,
    pub data: Payload,
}

/// The mathematical value of a [`WireEvent`].
pub struct EventView {
    pub id: Option<Seq<char>>,
    pub event: Seq<char>,
    pub data: PayloadView,
}

impl View for WireEvent {
    type V = EventView;

    open spec fn view(&self) -> EventView {
        EventView {
            id: match self.id {
                Some(id) => Some(id@),
                None => None,
            },
            event: self.event@,
            data: self.data@,
        }
    }
}

/// The event that tells a client of a mutation.
///
/// Its id is the affected row's id in base ten. A created row goes out under the
/// label `create`, an updated one under `update-` followed by its id, both with
/// the row itself as the fragment to render. A removed row goes out under
/// `delete`, with nothing but its id as text.
pub open spec fn mutation_event(mutation: MutationView) -> EventView {
    match mutation {
        MutationView::Create(todo) => EventView {
            id: Some(decimal(todo.id)),
            event: "create"@,
            data: PayloadView::Fragment(todo),
        },
        MutationView::Update(todo) => EventView {
            id: Some(decimal(todo.id)),
            event: "update-"@ + decimal(todo.id),
            data: PayloadView::Fragment(todo),
        },
        MutationView::Delete(id) => EventView {
            id: Some(decimal(id)),
            event: "delete"@,
            data: PayloadView::Text(decimal(id)),
        },
    }
}

/// The keep-alive event: no id, the label `ping`, and the word `ping` as a JSON string.
pub open spec fn ping_event() -> EventView {
    EventView { id: None, event: "ping"@, data: PayloadView::Text("\"ping\""@) }
}

/// Whether a text can stand in one line of the stream as it is: it holds no
/// line feed and no carriage return, which the wire would replace by spaces.
pub open spec fn fits_one_line(text: Seq<char>) -> bool {
    forall|k: int| 0 <= k < text.len() ==> text[k] != '\n' && text[k] != '\r'
}

proof fn lemma_decimal_fits_one_line(i: int)
    ensures
        fits_one_line(decimal(i)),
{
    lemma_decimal_is_plain(i);
    assert forall|k: int| 0 <= k < decimal(i).len() implies decimal(i)[k] != '\n' && decimal(i)[k]
        != '\r' by {
        if k >= 1 {
            assert(is_digit_char(decimal(i)[k]));
        }
    }
}

/// The id and the label of every event reach the client as they were built:
/// neither holds a line break.
pub proof fn law_id_and_label_fit_one_line(mutation: MutationView)
    ensures
        fits_one_line(mutation_event(mutation).event),
        mutation_event(mutation).id matches Some(id) && fits_one_line(id),
        fits_one_line(ping_event().event),
        ping_event().id is None,
{
    reveal_strlit("create");
    reveal_strlit("update-");
    reveal_strlit("delete");
    reveal_strlit("ping");
    let id = mutation.affected_id();
    lemma_decimal_fits_one_line(id);
    let label = mutation_event(mutation).event;
    assert forall|k: int| 0 <= k < label.len() implies label[k] != '\n' && label[k] != '\r' by {
        if mutation is Update && k >= 7 {
            assert(label[k] == decimal(id)[k - 7]);
        }
    }
}

impl WireEvent {
    /// Builds the event that tells a client of `mutation`.
    pub fn for_mutation(mutation: TodoMutation) -> (event: WireEvent)
        ensures
            event@ == mutation_event(mutation@),
    {
        match mutation {
            TodoMutation::Create(todo) => WireEvent {
                id: Some(decimal_text(todo.id)),
                event: "create".to_owned(),
                data: Payload::Fragment(todo),
            },
            TodoMutation::Update(todo) => {
                let id = decimal_text(todo.id);
                let label = "update-".to_owned().concat(id.as_str());
                WireEvent { id: Some(id), event: label, data: Payload::Fragment(todo) }
            },
            TodoMutation::Delete(id) => WireEvent {
                id: Some(decimal_text(id)),
                event: "delete".to_owned(),
                data: Payload::Text(decimal_text(id)),
            },
        }
    }

    /// Builds the keep-alive event.
    pub fn ping() -> (event: WireEvent)
        ensures
            event@ == ping_event(),
    {
        WireEvent { id: None, event: "ping".to_owned(), data: Payload::Text("\"ping\"".to_owned()) }
    }
}

} // verus!
