//! From a write to the stream: what a client is sent because of a write that
//! some other client made.

use crate::decimal::{decimal, lemma_decimal_is_injective};
use crate::event::{mutation_event, EventView, PayloadView};
use crate::session::{transition, SessionView, WakeView};
use crate::todo::{MutationView, TodoView};
use crate::trace::{action_events, emitted};
use crate::write::{announced, WriteView};
use vstd::prelude::*;

verus! {

/// The events that a session sends because of a write, once the bus has
/// delivered to it what the bus was told: those of that one delivery, or none
/// if the bus was told nothing.
pub open spec fn told(write: WriteView, session: SessionView) -> Seq<EventView> {
    match announced(write) {
        Some(mutation) => emitted(session, seq![WakeView::Delivered(mutation)]),
        None => Seq::empty(),
    }
}

/// Whether the store found the row `id` in this write: an update that read it
/// back, or a removal that was carried out.
pub open spec fn finds_row(write: WriteView, id: int) -> bool {
    match write {
        WriteView::Update { row: Some(row) } => row.id == id,
        WriteView::Delete { id: target, removed: true } => target == id,
        _ => false,
    }
}

/// Whether an event tells of a change or of the removal of the row `id`: it is
/// labelled `update-` with that id, or it is labelled `delete` and carries that id.
pub open spec fn tells_change_of(event: EventView, id: int) -> bool {
    ||| event.event == "update-"@ + decimal(id)
    ||| (event.event == "delete"@ && event.data == PayloadView::Text(decimal(id)))
}

proof fn lemma_one_delivery(session: SessionView, mutation: MutationView)
    requires
        !(session.phase is Closed),
    ensures
        emitted(session, seq![WakeView::Delivered(mutation)]) == seq![mutation_event(mutation)],
{
    let wakes = seq![WakeView::Delivered(mutation)];
    let (next, action) = transition(session, wakes.first());
    assert(wakes.drop_first().len() == 0);
    assert(emitted(next, wakes.drop_first()) =~= Seq::<EventView>::empty());
    assert(emitted(session, wakes) =~= action_events(action));
}

/// A row that the store has inserted is told once. The bus is told of the new
/// row, and a session that it is delivered to sends exactly one event: it is
/// labelled `create`, its id is the id that the store assigned, and it carries
/// the row as the store returned it, description and all.
pub proof fn law_created_row_is_told_once(row: TodoView, session: SessionView)
    requires
        !(session.phase is Closed),
    ensures
        announced(WriteView::Create { row: Some(row) }) == Some(MutationView::Create(row)),
        told(WriteView::Create { row: Some(row) }, session) == seq![
            EventView {
                id: Some(decimal(row.id)),
                event: "create"@,
                data: PayloadView::Fragment(row),
            },
        ],
{
    lemma_one_delivery(session, MutationView::Create(row));
}

/// An update is told with the row as it reads after the change. The one event
/// that a session sends for it is labelled `update-` with the row's id, and the
/// fragment it carries is the row that the store read back, so it shows the
/// `completed` that a later read of the row returns.
pub proof fn law_update_tells_the_row_read_back(row: TodoView, session: SessionView)
    requires
        !(session.phase is Closed),
    ensures
        announced(WriteView::Update { row: Some(row) }) == Some(MutationView::Update(row)),
        told(WriteView::Update { row: Some(row) }, session) == seq![
            EventView {
                id: Some(decimal(row.id)),
                event: "update-"@ + decimal(row.id),
                data: PayloadView::Fragment(row),
            },
        ],
        told(WriteView::Update { row: Some(row) }, session)[0].data matches PayloadView::Fragment(
            shown,
        ) && shown.completed == row.completed,
{
    lemma_one_delivery(session, MutationView::Update(row));
}

/// A removal is told with the id alone. The one event that a session sends for
/// it is labelled `delete`, and both its id and its data are the removed id in
/// base ten.
pub proof fn law_delete_tells_the_id(id: int, session: SessionView)
    requires
        !(session.phase is Closed),
    ensures
        announced(WriteView::Delete { id, removed: true }) == Some(MutationView::Delete(id)),
        told(WriteView::Delete { id, removed: true }, session) == seq![
            EventView {
                id: Some(decimal(id)),
                event: "delete"@,
                data: PayloadView::Text(decimal(id)),
            },
        ],
{
    lemma_one_delivery(session, MutationView::Delete(id));
}

/// A write that the store refused is told to nobody: the bus hears nothing of
/// it, and no session sends anything because of it.
pub proof fn law_failed_write_is_not_told(id: int, session: SessionView)
    ensures
        announced(WriteView::Create { row: None }) is None,
        announced(WriteView::Update { row: None }) is None,
        announced(WriteView::Delete { id, removed: false }) is None,
        told(WriteView::Create { row: None }, session) == Seq::<EventView>::empty(),
        told(WriteView::Update { row: None }, session) == Seq::<EventView>::empty(),
        told(WriteView::Delete { id, removed: false }, session) == Seq::<EventView>::empty(),
{
}

proof fn lemma_other_mutation_is_no_change_of(mutation: MutationView, id: int)
    requires
        mutation is Create || mutation.affected_id() != id,
    ensures
        !tells_change_of(mutation_event(mutation), id),
{
    reveal_strlit("create");
    reveal_strlit("update-");
    reveal_strlit("delete");
    let event = mutation_event(mutation);
    let change = "update-"@ + decimal(id);
    assert(change[0] == 'u');
    match mutation {
        MutationView::Create(row) => {
            assert(event.event[0] == 'c');
        },
        MutationView::Update(row) => {
            assert(event.event[0] == 'u');
            if event.event == change {
                assert(decimal(row.id) =~= event.event.skip(7));
                assert(decimal(id) =~= change.skip(7));
                lemma_decimal_is_injective(row.id, id);
            }
        },
        MutationView::Delete(other) => {
            assert(event.event[0] == 'd');
            if event.data == PayloadView::Text(decimal(id)) {
                lemma_decimal_is_injective(other, id);
            }
        },
    }
}

/// A removed row is not told of again. Take the writes that come after a row
/// was removed. As long as the row stays gone, so that the store finds it in
/// none of them, no session sends an event for any of them that tells of a
/// change or a removal of that row.
pub proof fn law_removed_row_is_not_told_again(
    id: int,
    later: Seq<WriteView>,
    session: SessionView,
)
    requires
        forall|i: int| 0 <= i < later.len() ==> !finds_row(#[trigger] later[i], id),
    ensures
        forall|i: int, k: int|
            0 <= i < later.len() && 0 <= k < told(later[i], session).len() ==> !tells_change_of(
                #[trigger] told(later[i], session)[k],
                id,
            ),
{
    assert forall|i: int, k: int|
        0 <= i < later.len() && 0 <= k < told(later[i], session).len() implies !tells_change_of(
        #[trigger] told(later[i], session)[k],
        id,
    ) by {
        assert(!finds_row(later[i], id));
        let mutation = announced(later[i])->0;
        if session.phase is Closed {
            crate::trace::law_closed_session_is_silent(
                session,
                seq![WakeView::Delivered(mutation)],
            );
        } else {
            lemma_one_delivery(session, mutation);
            lemma_other_mutation_is_no_change_of(mutation, id);
        }
    }
}

} // verus!
