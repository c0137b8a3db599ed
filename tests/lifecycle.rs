use tokio_util::sync::CancellationToken;
use tunnel_events::{close_listener, listener_closing, ListenerAction, ListenerEvent, ListenerState};

#[test]
fn cancel_before_first_wait_never_accepts() {
    let token = CancellationToken::new();
    close_listener(&token);
    let (s, a) = ListenerState::Active.observe_cancellation(&token);
    assert_eq!((s, a), (ListenerState::Cancelled, ListenerAction::StopAccepting));
    let (s, a) = s.step(ListenerEvent::ConnectionArrived);
    assert_eq!((s, a), (ListenerState::Cancelled, ListenerAction::Refuse));
    let (s, a) = s.step(ListenerEvent::LoopStopped);
    assert_eq!((s, a), (ListenerState::Closed, ListenerAction::Release));
}

#[test]
fn uncancelled_listener_accepts() {
    let token = CancellationToken::new();
    assert!(!listener_closing(&token));
    let (s, a) = ListenerState::Active.observe_cancellation(&token);
    assert_eq!((s, a), (ListenerState::Active, ListenerAction::Nothing));
    assert_eq!(s.step(ListenerEvent::ConnectionArrived), (ListenerState::Active, ListenerAction::Accept));
}

#[test]
fn cancelling_many_times_is_cancelling_once() {
    let token = CancellationToken::new();
    for _ in 0..5 {
        close_listener(&token);
    }
    assert!(listener_closing(&token));
    let (once, first) = ListenerState::Active.step(ListenerEvent::CancelTriggered);
    assert_eq!(first, ListenerAction::StopAccepting);
    let mut s = once;
    for _ in 0..4 {
        let (t, a) = s.step(ListenerEvent::CancelTriggered);
        assert_eq!(a, ListenerAction::Nothing);
        s = t;
    }
    assert_eq!(s, once);
}

#[test]
fn cancel_after_close_is_a_no_op() {
    let token = CancellationToken::new();
    close_listener(&token);
    close_listener(&token);
    let (s, a) = ListenerState::Closed.observe_cancellation(&token);
    assert_eq!((s, a), (ListenerState::Closed, ListenerAction::Nothing));
}

#[test]
fn pending_listener_refuses_connections() {
    let s = ListenerState::Pending { committed: true };
    assert_eq!(s.step(ListenerEvent::ConnectionArrived), (s, ListenerAction::Refuse));
}

#[test]
fn accept_loop_failure_releases() {
    assert_eq!(
        ListenerState::Active.step(ListenerEvent::LoopStopped),
        (ListenerState::Closed, ListenerAction::Release)
    );
}
