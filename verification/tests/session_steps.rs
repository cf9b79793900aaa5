use todo_live::event::{Payload, WireEvent};
use todo_live::session::{Action, Phase, StreamSession, Wake};
use todo_live::todo::{Todo, TodoMutation};

fn row(id: i32, description: &str, completed: bool) -> Todo {
    Todo::new(id, String::from(description), completed)
}

#[test]
fn a_new_session_is_idle_and_listening() {
    let session = StreamSession::new();
    assert_eq!(session.phase(), Phase::Idle);
    assert!(session.is_listening());
    assert!(!session.is_closed());
    assert_eq!(session.dropped(), 0);
}

#[test]
fn a_delivered_create_is_emitted() {
    let mut session = StreamSession::new();
    let action = session.step(Wake::Delivered(TodoMutation::Create(row(1, "buy milk", false))));
    assert_eq!(
        action,
        Action::Emit(WireEvent {
            id: Some(String::from("1")),
            event: String::from("create"),
            data: Payload::Fragment(row(1, "buy milk", false)),
        })
    );
    assert_eq!(session.phase(), Phase::Emitting);
    assert!(session.is_listening());
}

#[test]
fn a_delivered_update_shows_the_new_completed() {
    let mut session = StreamSession::new();
    let action = session.step(Wake::Delivered(TodoMutation::Update(row(1, "buy milk", true))));
    match action {
        Action::Emit(event) => {
            assert_eq!(event.event, "update-1");
            assert_eq!(event.id, Some(String::from("1")));
            match event.data {
                Payload::Fragment(shown) => assert!(shown.completed),
                Payload::Text(_) => panic!("an update carries the row"),
            }
        }
        _ => panic!("an update is emitted"),
    }
}

#[test]
fn a_delivered_delete_is_emitted_with_the_id() {
    let mut session = StreamSession::new();
    let action = session.step(Wake::Delivered(TodoMutation::Delete(1)));
    assert_eq!(
        action,
        Action::Emit(WireEvent {
            id: Some(String::from("1")),
            event: String::from("delete"),
            data: Payload::Text(String::from("1")),
        })
    );
}

#[test]
fn a_tick_is_answered_with_a_ping() {
    let mut session = StreamSession::new();
    assert_eq!(session.step(Wake::Tick), Action::Emit(WireEvent::ping()));
    assert_eq!(session.phase(), Phase::Emitting);
}

#[test]
fn an_idle_session_pings_before_any_mutation() {
    let mut session = StreamSession::new();
    let mut sent = Vec::new();
    let wakes = vec![
        Wake::Lagged(1),
        Wake::Tick,
        Wake::Delivered(TodoMutation::Delete(2)),
    ];
    for wake in wakes {
        if let Action::Emit(event) = session.step(wake) {
            sent.push(event);
        }
    }
    assert_eq!(sent.len(), 2);
    assert_eq!(sent[0], WireEvent::ping());
    assert_eq!(sent[1].event, "delete");
}

#[test]
fn lag_is_counted_and_the_session_goes_on() {
    let mut session = StreamSession::new();
    assert_eq!(session.step(Wake::Lagged(3)), Action::Wait);
    assert_eq!(session.dropped(), 3);
    assert_eq!(session.phase(), Phase::Idle);
    assert!(session.is_listening());
    assert_eq!(session.step(Wake::Lagged(4)), Action::Wait);
    assert_eq!(session.dropped(), 7);
    let action = session.step(Wake::Delivered(TodoMutation::Delete(9)));
    assert_eq!(action, Action::Emit(WireEvent::for_mutation(TodoMutation::Delete(9))));
    assert_eq!(session.dropped(), 7);
}

#[test]
fn the_lag_count_stops_at_the_largest_value() {
    let mut session = StreamSession::new();
    assert_eq!(session.step(Wake::Lagged(u64::MAX - 1)), Action::Wait);
    assert_eq!(session.dropped(), u64::MAX - 1);
    assert_eq!(session.step(Wake::Lagged(5)), Action::Wait);
    assert_eq!(session.dropped(), u64::MAX);
    assert_eq!(session.step(Wake::Lagged(u64::MAX)), Action::Wait);
    assert_eq!(session.dropped(), u64::MAX);
}

#[test]
fn lag_after_an_event_brings_the_session_back_to_idle() {
    let mut session = StreamSession::new();
    session.step(Wake::Tick);
    assert_eq!(session.phase(), Phase::Emitting);
    assert_eq!(session.step(Wake::Lagged(0)), Action::Wait);
    assert_eq!(session.phase(), Phase::Idle);
    assert_eq!(session.dropped(), 0);
}

#[test]
fn a_closed_bus_stops_the_listening_but_not_the_pings() {
    let mut session = StreamSession::new();
    assert_eq!(session.step(Wake::BusClosed), Action::Wait);
    assert!(!session.is_listening());
    assert!(!session.is_closed());
    assert_eq!(session.phase(), Phase::Idle);
    assert_eq!(session.step(Wake::Tick), Action::Emit(WireEvent::ping()));
    assert!(!session.is_listening());
}

#[test]
fn cancellation_stops_without_an_event() {
    let mut session = StreamSession::new();
    assert_eq!(session.step(Wake::Cancelled), Action::Stop);
    assert_eq!(session.phase(), Phase::Closed);
    assert!(session.is_closed());
    assert!(!session.is_listening());
}

#[test]
fn cancellation_while_emitting_stops_too() {
    let mut session = StreamSession::new();
    session.step(Wake::Delivered(TodoMutation::Delete(1)));
    assert_eq!(session.phase(), Phase::Emitting);
    assert_eq!(session.step(Wake::Cancelled), Action::Stop);
    assert_eq!(session.phase(), Phase::Closed);
}

#[test]
fn a_closed_session_answers_everything_with_stop() {
    let mut session = StreamSession::new();
    session.step(Wake::Lagged(2));
    session.step(Wake::Cancelled);
    let wakes = vec![
        Wake::Tick,
        Wake::Delivered(TodoMutation::Create(row(4, "late", false))),
        Wake::Lagged(10),
        Wake::BusClosed,
        Wake::Cancelled,
    ];
    for wake in wakes {
        assert_eq!(session.step(wake), Action::Stop);
        assert_eq!(session.phase(), Phase::Closed);
        assert_eq!(session.dropped(), 2);
    }
}

#[test]
fn events_leave_in_the_order_of_the_wakes() {
    let mut session = StreamSession::new();
    let wakes = vec![
        Wake::Delivered(TodoMutation::Create(row(1, "a", false))),
        Wake::Delivered(TodoMutation::Create(row(2, "b", false))),
        Wake::Tick,
        Wake::Lagged(6),
        Wake::Delivered(TodoMutation::Update(row(1, "a", true))),
        Wake::BusClosed,
        Wake::Delivered(TodoMutation::Delete(2)),
        Wake::Tick,
    ];
    let mut labels = Vec::new();
    for wake in wakes {
        match session.step(wake) {
            Action::Emit(event) => labels.push(event.event),
            Action::Wait => {}
            Action::Stop => panic!("nothing cancelled the session"),
        }
    }
    assert_eq!(labels, vec!["create", "create", "ping", "update-1", "delete", "ping"]);
    assert_eq!(session.dropped(), 6);
}

#[test]
fn nothing_is_sent_after_the_cancellation() {
    let mut session = StreamSession::new();
    let wakes = vec![
        Wake::Tick,
        Wake::Delivered(TodoMutation::Delete(3)),
        Wake::Cancelled,
        Wake::Delivered(TodoMutation::Delete(4)),
        Wake::Tick,
    ];
    let mut sent = Vec::new();
    let mut stops: u32 = 0;
    for wake in wakes {
        match session.step(wake) {
            Action::Emit(event) => sent.push(event),
            Action::Wait => {}
            Action::Stop => stops += 1,
        }
    }
    assert_eq!(sent, vec![WireEvent::ping(), WireEvent::for_mutation(TodoMutation::Delete(3))]);
    assert_eq!(stops, 3);
    assert!(session.is_closed());
}
