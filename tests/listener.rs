use tcp_server::listener::{listener_step, ListenerAction, ListenerEvent, ListenerState};

#[test]
fn bind_success_starts_listening() {
    let (s, a) = listener_step(ListenerState::Starting, ListenerEvent::Bound);
    assert_eq!(s, ListenerState::Listening);
    assert_eq!(a, ListenerAction::ReportAddress);
}

#[test]
fn bind_failure_aborts() {
    let (s, a) = listener_step(ListenerState::Starting, ListenerEvent::BindFailed);
    assert_eq!(s, ListenerState::Aborted);
    assert_eq!(a, ListenerAction::Abort);
}

#[test]
fn accepted_connection_is_dispatched() {
    let (s, a) = listener_step(ListenerState::Listening, ListenerEvent::Accepted);
    assert_eq!(s, ListenerState::Listening);
    assert_eq!(a, ListenerAction::Dispatch);
}

#[test]
fn accept_error_keeps_listening() {
    let (s, a) = listener_step(ListenerState::Listening, ListenerEvent::AcceptFailed);
    assert_eq!(s, ListenerState::Listening);
    assert_eq!(a, ListenerAction::ReportAcceptError);
}

#[test]
fn mixed_accept_outcomes_dispatch_each_connection() {
    let events = [
        ListenerEvent::Accepted,
        ListenerEvent::AcceptFailed,
        ListenerEvent::Accepted,
        ListenerEvent::AcceptFailed,
        ListenerEvent::AcceptFailed,
        ListenerEvent::Accepted,
    ];
    let (mut state, _) = listener_step(ListenerState::Starting, ListenerEvent::Bound);
    let mut dispatched = 0;
    for e in events {
        let (s, a) = listener_step(state, e);
        assert_eq!(s, ListenerState::Listening);
        assert_eq!(a == ListenerAction::Dispatch, e == ListenerEvent::Accepted);
        if a == ListenerAction::Dispatch {
            dispatched += 1;
        }
        state = s;
    }
    assert_eq!(dispatched, 3);
}
