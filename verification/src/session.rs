//! One client's live-update session: what it does each time it is woken.
//!
//! A session waits on three sources at once: the mutation bus, the keep-alive
//! timer and the cancellation signal. Whoever runs the wait hands the session
//! the [`Wake`] that ended it and carries out the [`Action`] it gets back.

use crate::event::{mutation_event, ping_event, EventView, WireEvent};
use crate::todo::{MutationView, TodoMutation};
use vstd::prelude::*;

verus! {

/// Where a session stands between two waits.
#[derive(Clone, Copy, Debug, PartialEq, Eq, Structural)]
pub enum Phase {
    /// Subscribed and waiting; nothing is being sent.
    Idle,
    /// The last wake produced an event, which is on its way to the client.
    Emitting,
    /// The client is gone or the process is shutting down. Nothing follows.
    Closed,
}

/// What ended a wait.
#[derive(Debug, PartialEq, Eq)]
pub enum Wake {
    /// The bus delivered the next mutation.
    Delivered(TodoMutation),
    /// The session fell behind and the bus dropped this many mutations for it.
    Lagged(u64),
    /// The bus is closed and has nothing left for this session.
    BusClosed,
    /// The keep-alive timer fired.
    Tick,
    /// The client disconnected or the process began to shut down.
    Cancelled,
}

/// The mathematical value of a [`Wake`].
pub enum WakeView {
    Delivered(MutationView),
    Lagged(nat),
    BusClosed,
    Tick,
    Cancelled,
}

impl View for Wake {
    type V = WakeView;

    open spec fn view(&self) -> WakeView {
        match *self {
            Wake::Delivered(mutation) => WakeView::Delivered(mutation@),
            Wake::Lagged(missed) => WakeView::Lagged(missed as nat),
            Wake::BusClosed => WakeView::BusClosed,
            Wake::Tick => WakeView::Tick,
            Wake::Cancelled => WakeView::Cancelled,
        }
    }
}

/// What the session asks for after a wake.
#[derive(Debug, PartialEq, Eq)]
pub enum Action {
    /// Send this event to the client, then wait again.
    Emit(WireEvent),
    /// Send nothing and wait again.
    Wait,
    /// Leave the loop; nothing more is sent.
    Stop,
}

/// The mathematical value of an [`Action`].
pub enum ActionView {
    Emit(EventView),
    Wait,
    Stop,
}

impl View for Action {
    type V = ActionView;

    open spec fn view(&self) -> ActionView {
        match *self {
            Action::Emit(event) => ActionView::Emit(event@),
            Action::Wait => ActionView::Wait,
            Action::Stop => ActionView::Stop,
        }
    }
}

/// The state of one client's session.
#[derive(Debug)]
pub struct StreamSession {
    phase: Phase,
    listening: bool,
    dropped: u64,
}

/// The mathematical value of a [`StreamSession`].
pub struct SessionView {
    pub phase: Phase,
    /// Whether the bus can still deliver anything, so that it is worth waiting on.
    pub listening: bool,
    /// How many mutations the bus has dropped for this session so far.
    pub dropped: nat,
}

impl View for StreamSession {
    type V = SessionView;

    closed spec fn view(&self) -> SessionView {
        SessionView { phase: self.phase, listening: self.listening, dropped: self.dropped as nat }
    }
}

/// A session as it starts: idle, listening, nothing dropped.
pub open spec fn fresh_session() -> SessionView {
    SessionView { phase: Phase::Idle, listening: true, dropped: 0 }
}

/// The count of dropped mutations after `missed` more, held at the largest `u64`.
pub open spec fn dropped_after(dropped: nat, missed: nat) -> nat {
    if dropped + missed > u64::MAX {
        u64::MAX as nat
    } else {
        dropped + missed
    }
}

/// The session's rule: the state it moves to and what it asks for, given what woke it.
///
/// A closed session stays closed and asks to stop. Cancellation closes the
/// session without an event. A delivered mutation goes out as its event and a
/// tick as a ping. Lag is counted and otherwise ignored. Once the bus has
/// closed the session stops listening to it, and goes on with the timer.
pub open spec fn transition(session: SessionView, wake: WakeView) -> (SessionView, ActionView) {
    if session.phase is Closed {
        (session, ActionView::Stop)
    } else {
        match wake {
            WakeView::Cancelled => (
                SessionView { phase: Phase::Closed, ..session },
                ActionView::Stop,
            ),
            WakeView::Delivered(mutation) => (
                SessionView { phase: Phase::Emitting, ..session },
                ActionView::Emit(mutation_event(mutation)),
            ),
            WakeView::Tick => (
                SessionView { phase: Phase::Emitting, ..session },
                ActionView::Emit(ping_event()),
            ),
            WakeView::Lagged(missed) => (
                SessionView {
                    phase: Phase::Idle,
                    dropped: dropped_after(session.dropped, missed),
                    ..session
                },
                ActionView::Wait,
            ),
            WakeView::BusClosed => (
                SessionView { phase: Phase::Idle, listening: false, ..session },
                ActionView::Wait,
            ),
        }
    }
}

impl StreamSession {
    /// Starts a session for a client that has just connected.
    pub fn new() -> (session: StreamSession)
        ensures
            session@ == fresh_session(),
    {
        StreamSession { phase: Phase::Idle, listening: true, dropped: 0 }
    }

    /// Where the session stands.
    pub fn phase(&self) -> (phase: Phase)
        ensures
            phase == self@.phase,
    {
        self.phase
    }

    /// Whether the session has left its loop for good.
    pub fn is_closed(&self) -> (closed: bool)
        ensures
            closed == (self@.phase is Closed),
    {
        match self.phase {
            Phase::Closed => true,
            _ => false,
        }
    }

    /// Whether the next wait should include the bus. It should not once the
    /// session is closed or the bus has reported that it is.
    pub fn is_listening(&self) -> (listening: bool)
        ensures
            listening == (self@.listening && !(self@.phase is Closed)),
    {
        self.listening && !self.is_closed()
    }

    /// How many mutations the bus has dropped for this session so far.
    pub fn dropped(&self) -> (dropped: u64)
        ensures
            dropped as nat == self@.dropped,
    {
        self.dropped
    }

    /// Takes what ended the wait, moves the session on and says what to do next.
    pub fn step(&mut self, wake: Wake) -> (action: Action)
        ensures
            (final(self)@, action@) == transition(old(self)@, wake@),
    {
        if self.is_closed() {
            return Action::Stop;
        }
        match wake {
            Wake::Cancelled => {
                self.phase = Phase::Closed;
                Action::Stop
            },
            Wake::Delivered(mutation) => {
                self.phase = Phase::Emitting;
                Action::Emit(WireEvent::for_mutation(mutation))
            },
            Wake::Tick => {
                self.phase = Phase::Emitting;
                Action::Emit(WireEvent::ping())
            },
            Wake::Lagged(missed) => {
                self.phase = Phase::Idle;
                self.dropped = self.dropped.saturating_add(missed);
                Action::Wait
            },
            Wake::BusClosed => {
                self.phase = Phase::Idle;
                self.listening = false;
                Action::Wait
            },
        }
    }
}

} // verus!
