//! What a session sends over a whole run of wakes, and what always holds of it.

use crate::event::{mutation_event, ping_event, EventView};
use crate::session::{transition, ActionView, SessionView, WakeView};
use vstd::prelude::*;

verus! {

/// The events that an action puts on the stream: one for `Emit`, none otherwise.
pub open spec fn action_events(action: ActionView) -> Seq<EventView> {
    match action {
        ActionView::Emit(event) => seq![event],
        _ => Seq::empty(),
    }
}

/// The events that a session sends, in order, when it is woken by `wakes` one after another.
pub open spec fn emitted(session: SessionView, wakes: Seq<WakeView>) -> Seq<EventView>
    decreases wakes.len(),
{
    if wakes.len() == 0 {
        Seq::empty()
    } else {
        let (next, action) = transition(session, wakes.first());
        action_events(action) + emitted(next, wakes.drop_first())
    }
}

/// The state that a session is in after it was woken by `wakes` one after another.
pub open spec fn state_after(session: SessionView, wakes: Seq<WakeView>) -> SessionView
    decreases wakes.len(),
{
    if wakes.len() == 0 {
        session
    } else {
        state_after(transition(session, wakes.first()).0, wakes.drop_first())
    }
}

/// What a wake calls for on the stream of an open session: the event of a
/// delivered mutation, a ping for a tick, nothing for anything else.
pub open spec fn wake_events(wake: WakeView) -> Seq<EventView> {
    match wake {
        WakeView::Delivered(mutation) => seq![mutation_event(mutation)],
        WakeView::Tick => seq![ping_event()],
        _ => Seq::empty(),
    }
}

/// A run of wakes can be cut anywhere: the session sends what it sends for the
/// first part, then what the state it has reached sends for the rest.
pub proof fn lemma_emitted_splits(session: SessionView, first: Seq<WakeView>, rest: Seq<WakeView>)
    ensures
        emitted(session, first + rest) == emitted(session, first) + emitted(
            state_after(session, first),
            rest,
        ),
        state_after(session, first + rest) == state_after(state_after(session, first), rest),
    decreases first.len(),
{
    if first.len() == 0 {
        assert(first + rest =~= rest);
        assert(emitted(session, first) + emitted(session, rest) =~= emitted(session, rest));
    } else {
        let whole = first + rest;
        let (next, action) = transition(session, first.first());
        assert(whole.first() == first.first());
        assert(whole.drop_first() =~= first.drop_first() + rest);
        lemma_emitted_splits(next, first.drop_first(), rest);
        assert(emitted(session, whole) =~= emitted(session, first) + emitted(
            state_after(session, first),
            rest,
        ));
    }
}

/// A closed session sends nothing and stays as it is, whatever wakes it.
pub proof fn law_closed_session_is_silent(session: SessionView, wakes: Seq<WakeView>)
    requires
        session.phase is Closed,
    ensures
        emitted(session, wakes) == Seq::<EventView>::empty(),
        state_after(session, wakes) == session,
    decreases wakes.len(),
{
    if wakes.len() > 0 {
        law_closed_session_is_silent(session, wakes.drop_first());
        assert(emitted(session, wakes) =~= Seq::<EventView>::empty());
    }
}

/// Cancellation ends the stream at once. If the wake at position `at` is the
/// cancellation signal, the session sends exactly what it had sent before that
/// wake, nothing for the signal itself and nothing for any wake after it, and
/// it ends closed.
pub proof fn law_cancellation_ends_the_stream(
    session: SessionView,
    wakes: Seq<WakeView>,
    at: int,
)
    requires
        0 <= at < wakes.len(),
        wakes[at] is Cancelled,
    ensures
        emitted(session, wakes) == emitted(session, wakes.take(at)),
        state_after(session, wakes).phase is Closed,
{
    let before = wakes.take(at);
    let from = wakes.skip(at);
    assert(wakes =~= before + from);
    lemma_emitted_splits(session, before, from);
    let reached = state_after(session, before);
    let (closed, action) = transition(reached, from.first());
    assert(from.first() == wakes[at]);
    assert(closed.phase is Closed);
    assert(action_events(action) =~= Seq::<EventView>::empty());
    law_closed_session_is_silent(closed, from.drop_first());
    assert(emitted(reached, from) =~= Seq::<EventView>::empty());
    assert(emitted(session, wakes) =~= emitted(session, before));
}

/// Events leave in the order of the wakes that caused them. As long as no wake
/// is the cancellation signal, an open session sends, wake by wake and in that
/// order, exactly what each wake calls for: nothing is reordered, held back,
/// merged or sent twice, and lag or a closed bus costs no later event.
pub proof fn law_events_follow_wake_order(session: SessionView, wakes: Seq<WakeView>)
    requires
        !(session.phase is Closed),
        forall|i: int| 0 <= i < wakes.len() ==> !(#[trigger] wakes[i] is Cancelled),
    ensures
        emitted(session, wakes) == wakes.map_values(|wake: WakeView| wake_events(wake)).flatten(),
        !(state_after(session, wakes).phase is Closed),
    decreases wakes.len(),
{
    let called_for = wakes.map_values(|wake: WakeView| wake_events(wake));
    if wakes.len() > 0 {
        let (next, action) = transition(session, wakes.first());
        let rest = wakes.drop_first();
        assert(!(wakes[0] is Cancelled));
        assert(action_events(action) == wake_events(wakes.first()));
        assert forall|i: int| 0 <= i < rest.len() implies !(#[trigger] rest[i] is Cancelled) by {
            assert(rest[i] == wakes[i + 1]);
        }
        law_events_follow_wake_order(next, rest);
        assert(called_for.first() == wake_events(wakes.first()));
        assert(called_for.drop_first() =~= rest.map_values(|wake: WakeView| wake_events(wake)));
    }
}

/// An idle connection hears a ping first. If the timer fires at position `at`
/// and no mutation was delivered and no cancellation came before it, then the
/// first event that an open session sends is the ping.
pub proof fn law_idle_session_pings_first(session: SessionView, wakes: Seq<WakeView>, at: int)
    requires
        !(session.phase is Closed),
        0 <= at < wakes.len(),
        wakes[at] is Tick,
        forall|i: int|
            0 <= i < at ==> !(#[trigger] wakes[i] is Delivered) && !(wakes[i] is Cancelled),
    ensures
        emitted(session, wakes).len() >= 1,
        emitted(session, wakes)[0] == ping_event(),
    decreases at,
{
    let (next, action) = transition(session, wakes.first());
    if at > 0 {
        let rest = wakes.drop_first();
        assert(!(wakes[0] is Delivered) && !(wakes[0] is Cancelled));
        assert(rest[at - 1] == wakes[at]);
        assert forall|i: int| 0 <= i < at - 1 implies !(#[trigger] rest[i] is Delivered) && !(
        rest[i] is Cancelled) by {
            assert(rest[i] == wakes[i + 1]);
        }
        law_idle_session_pings_first(next, rest, at - 1);
    }
}

} // verus!
