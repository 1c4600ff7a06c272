use live_reload::session::{Frame, SendOutcome, Session, SessionState, Severity};
use live_reload::signal::ChangeSignal;

fn waiting_on(signal: &ChangeSignal) -> Session {
    Session { state: SessionState::Waiting, seen: signal.generation() }
}

#[test]
fn new_signal_starts_at_generation_zero() {
    assert_eq!(ChangeSignal::new().generation(), 0);
}

#[test]
fn notify_moves_to_the_next_generation() {
    let mut signal = ChangeSignal::new();
    signal.notify();
    assert_eq!(signal.generation(), 1);
    signal.notify();
    assert_eq!(signal.generation(), 2);
}

#[test]
fn notify_wraps_at_the_top_of_the_range() {
    let mut signal = ChangeSignal { generation: u64::MAX };
    signal.notify();
    assert_eq!(signal.generation(), 0);
}

#[test]
fn refresh_frame_carries_the_text_refresh() {
    assert_eq!(Frame::Refresh.payload(), "refresh");
}

#[test]
fn waiting_session_stays_blocked_without_a_notification() {
    let signal = ChangeSignal::new();
    let mut session = waiting_on(&signal);
    assert_eq!(session.wake(&signal), None);
    assert_eq!(session.state(), SessionState::Waiting);
    assert_eq!(session.seen, 0);
}

#[test]
fn one_notification_gives_exactly_one_refresh() {
    let mut signal = ChangeSignal::new();
    let mut session = waiting_on(&signal);
    signal.notify();
    assert_eq!(session.wake(&signal), Some(Frame::Refresh));
    assert_eq!(session.state(), SessionState::Sending);
    assert_eq!(session.sent(SendOutcome::Delivered), None);
    assert_eq!(session.state(), SessionState::Waiting);
    assert_eq!(session.wake(&signal), None);
    assert_eq!(session.state(), SessionState::Waiting);
}

#[test]
fn several_notifications_collapse_into_one_wakeup() {
    let mut signal = ChangeSignal::new();
    let mut session = waiting_on(&signal);
    signal.notify();
    signal.notify();
    signal.notify();
    assert_eq!(session.wake(&signal), Some(Frame::Refresh));
    assert_eq!(session.sent(SendOutcome::Delivered), None);
    assert_eq!(session.wake(&signal), None);
    assert_eq!(session.seen, 3);
}

#[test]
fn notification_during_a_send_is_seen_at_the_next_wait() {
    let mut signal = ChangeSignal::new();
    let mut session = waiting_on(&signal);
    signal.notify();
    assert_eq!(session.wake(&signal), Some(Frame::Refresh));
    signal.notify();
    assert_eq!(session.wake(&signal), None);
    assert_eq!(session.sent(SendOutcome::Delivered), None);
    assert_eq!(session.wake(&signal), Some(Frame::Refresh));
}

#[test]
fn single_notify_wakes_every_waiting_session() {
    let mut signal = ChangeSignal::new();
    let mut sessions = vec![waiting_on(&signal), waiting_on(&signal), waiting_on(&signal)];
    signal.notify();
    for session in sessions.iter_mut() {
        assert_eq!(session.wake(&signal), Some(Frame::Refresh));
        assert_eq!(session.state(), SessionState::Sending);
    }
    let mut late = waiting_on(&signal);
    assert_eq!(late.wake(&signal), None);
}

#[test]
fn single_notify_with_no_sessions_changes_only_the_signal() {
    let mut signal = ChangeSignal::new();
    let sessions: Vec<Session> = vec![];
    signal.notify();
    assert_eq!(signal.generation(), 1);
    assert!(sessions.is_empty());
}

#[test]
fn broken_pipe_is_tolerated_then_other_failure_terminates() {
    let mut signal = ChangeSignal::new();
    let mut session = waiting_on(&signal);
    signal.notify();
    assert_eq!(session.wake(&signal), Some(Frame::Refresh));
    assert_eq!(session.sent(SendOutcome::BrokenPipe), Some(Severity::Debug));
    assert_eq!(session.state(), SessionState::Waiting);
    assert!(!session.is_terminated());
    signal.notify();
    assert_eq!(session.wake(&signal), Some(Frame::Refresh));
    assert_eq!(session.sent(SendOutcome::Failed), Some(Severity::Error));
    assert_eq!(session.state(), SessionState::Terminated);
    assert!(session.is_terminated());
}

#[test]
fn terminated_session_is_never_woken_again() {
    let mut signal = ChangeSignal::new();
    let mut session = Session { state: SessionState::Terminated, seen: 0 };
    signal.notify();
    assert_eq!(session.wake(&signal), None);
    assert_eq!(session.sent(SendOutcome::Delivered), None);
    assert_eq!(session, Session { state: SessionState::Terminated, seen: 0 });
}

#[test]
fn outcome_without_a_send_outstanding_is_ignored() {
    let mut session = Session { state: SessionState::Waiting, seen: 7 };
    assert_eq!(session.sent(SendOutcome::Failed), None);
    assert_eq!(session, Session { state: SessionState::Waiting, seen: 7 });
}

#[test]
fn fatal_failure_in_one_session_leaves_the_other_and_the_signal_alone() {
    let mut signal = ChangeSignal::new();
    let mut a = waiting_on(&signal);
    let mut b = waiting_on(&signal);
    signal.notify();
    assert_eq!(a.wake(&signal), Some(Frame::Refresh));
    assert_eq!(b.wake(&signal), Some(Frame::Refresh));
    let signal_before = signal;
    let b_before = b;
    assert_eq!(a.sent(SendOutcome::Failed), Some(Severity::Error));
    assert!(a.is_terminated());
    assert_eq!(signal, signal_before);
    assert_eq!(b, b_before);
    assert_eq!(b.sent(SendOutcome::Delivered), None);
    signal.notify();
    assert_eq!(b.wake(&signal), Some(Frame::Refresh));
    assert_eq!(a.wake(&signal), None);
}
