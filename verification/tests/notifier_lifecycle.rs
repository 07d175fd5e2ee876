//! Tests of the notifier's connection lifecycle, backoff schedule, and of
//! message formatting.

use gh_relay::notifier::{Notifier, ReconnectDecision, SessionState, BASE_BACKOFF_MS};
use gh_relay::queue::{Event, RelayQueue};
use gh_relay::render::format_message;

#[test]
fn startup_lifecycle() {
    let mut n = Notifier::new(5);
    assert_eq!(n.state(), SessionState::Disconnected);
    n.begin_connect();
    assert_eq!(n.state(), SessionState::Connecting);
    n.on_session_ready();
    assert_eq!(n.state(), SessionState::Connected);
}

#[test]
fn backoff_grows_then_fatal() {
    let mut n = Notifier::new(3);
    n.begin_connect();
    n.on_session_ready();
    let d0 = n.on_session_lost();
    assert_eq!(d0, ReconnectDecision::Retry { delay_ms: BASE_BACKOFF_MS });
    let d1 = n.on_session_lost();
    assert_eq!(d1, ReconnectDecision::Retry { delay_ms: 2 * BASE_BACKOFF_MS });
    let d2 = n.on_session_lost();
    assert_eq!(d2, ReconnectDecision::Retry { delay_ms: 4 * BASE_BACKOFF_MS });
    let d3 = n.on_session_lost();
    assert_eq!(d3, ReconnectDecision::Fatal);
    assert_eq!(n.state(), SessionState::Disconnected);
}

#[test]
fn reconnect_restores_budget() {
    let mut n = Notifier::new(1);
    n.begin_connect();
    n.on_session_ready();
    assert_eq!(n.on_session_lost(), ReconnectDecision::Retry { delay_ms: BASE_BACKOFF_MS });
    n.on_session_ready();
    assert_eq!(n.state(), SessionState::Connected);
    // the budget was restored by the successful reconnect
    assert_eq!(n.on_session_lost(), ReconnectDecision::Retry { delay_ms: BASE_BACKOFF_MS });
}

#[test]
fn queue_survives_session_drop() {
    // events accepted before a session drop are delivered after the
    // reconnect, in order, and nothing already taken is seen again
    let mut q = RelayQueue::new(8);
    for i in 0..3 {
        let e = Event {
            id: format!("d-{}", i),
            kind: "issues".to_string(),
            payload: b"{}".to_vec(),
        };
        assert!(q.enqueue(e).is_ok());
    }
    let mut n = Notifier::new(2);
    n.begin_connect();
    n.on_session_ready();
    let first = q.dequeue().expect("queued");
    assert_eq!(first.id, "d-0");
    n.on_delivery(first, true);
    // the session drops and comes back
    assert!(matches!(n.on_session_lost(), ReconnectDecision::Retry { .. }));
    n.on_session_ready();
    // delivery resumes with the next event, not the one already taken
    let second = q.dequeue().expect("queued");
    assert_eq!(second.id, "d-1");
    n.on_delivery(second, false);
    let third = q.dequeue().expect("queued");
    assert_eq!(third.id, "d-2");
    n.on_delivery(third, true);
    assert!(q.dequeue().is_none());
}

#[test]
fn dequeued_event_not_redelivered() {
    let mut q = RelayQueue::new(2);
    let e = Event {
        id: "once".to_string(),
        kind: "issues".to_string(),
        payload: b"{}".to_vec(),
    };
    assert!(q.enqueue(e).is_ok());
    let taken = q.dequeue().expect("queued");
    assert_eq!(taken.id, "once");
    // a failed delivery is skipped, never requeued
    let mut n = Notifier::new(2);
    n.begin_connect();
    n.on_session_ready();
    n.on_delivery(taken, false);
    assert!(q.dequeue().is_none());
    assert_eq!(q.len(), 0);
}

#[test]
fn formatting_is_deterministic() {
    let body = b"{\"a\":[1,2,3]}";
    let one = format_message(body).expect("well-formed");
    let two = format_message(body).expect("well-formed");
    assert_eq!(one, two);
    assert!(one.starts_with("```json\n"));
    assert!(one.ends_with("\n```"));
}

#[test]
fn formatting_pretty_prints() {
    // the rendering is the pretty form, not the input echoed back
    let body = b"{\"a\":1}";
    let msg = format_message(body).expect("well-formed");
    assert_eq!(msg, "```json\n{\n  \"a\": 1\n}\n```");
}

#[test]
fn formatting_refuses_invalid_json() {
    assert!(format_message(b"{\"a\":").is_none());
    assert!(format_message(b"").is_none());
}
