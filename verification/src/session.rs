//! The notification session: one per open connection.
//!
//! A session is a small state machine. It waits on the change signal, and on
//! each wakeup owes its client one refresh frame. How the attempt to send that
//! frame ended decides whether the session goes back to waiting or ends. The
//! code that owns the connection performs the waiting and the sending; every
//! decision is taken here.

use vstd::prelude::*;
use crate::signal::ChangeSignal;

verus! {

/// Where a session stands in its loop.
#[derive(Clone, Copy, Debug, PartialEq, Eq, Structural)]
pub enum SessionState {
    /// Blocked until the signal moves past the generation last observed.
    Waiting,
    /// Woken; one frame is owed to the client and its outcome is awaited.
    Sending,
    /// Ended; the connection is to be dropped.
    Terminated,
}

/// A message pushed to the client.
#[derive(Clone, Copy, Debug, PartialEq, Eq, Structural)]
pub enum Frame {
    /// Tells the page to reload the document.
    Refresh,
}

/// How one attempt to send a frame ended.
#[derive(Clone, Copy, Debug, PartialEq, Eq, Structural)]
pub enum SendOutcome {
    /// The frame was written.
    Delivered,
    /// The transport reported a broken pipe: the peer went away without a
    /// closing handshake.
    BrokenPipe,
    /// Any other transport or protocol failure.
    Failed,
}

/// The level at which a send outcome is logged.
#[derive(Clone, Copy, Debug, PartialEq, Eq, Structural)]
pub enum Severity {
    Debug,
    Error,
}

/// The text that a frame carries on the wire.
pub open spec fn frame_text(frame: Frame) -> Seq<char> {
    match frame {
        Frame::Refresh => "refresh"@,
    }
}

impl Frame {
    /// The frame's payload, sent as a text message.
    pub fn payload(&self) -> (text: &'static str)
        ensures
            text@ == frame_text(*self),
    {
        match self {
            Frame::Refresh => "refresh",
        }
    }
}

impl SendOutcome {
    /// Whether this outcome ends the session. Only a failure other than a
    /// broken pipe does.
    pub open spec fn is_fatal(self) -> bool {
        self is Failed
    }

    /// The log record that this outcome calls for, if any.
    pub open spec fn severity(self) -> Option<Severity> {
        match self {
            SendOutcome::Delivered => None,
            SendOutcome::BrokenPipe => Some(Severity::Debug),
            SendOutcome::Failed => Some(Severity::Error),
        }
    }

    /// The state that a sending session moves to on this outcome.
    pub open spec fn next_state(self) -> SessionState {
        if self.is_fatal() {
            SessionState::Terminated
        } else {
            SessionState::Waiting
        }
    }
}

/// One client's session: its state, and the generation of the change signal
/// that it has last observed.
#[derive(Clone, Copy, Debug, PartialEq, Eq, Structural)]
pub struct Session {
    pub state: SessionState,
    pub seen: u64,
}

impl Session {
    /// A session that begins to wait on `signal` now.
    pub open spec fn listening(signal: ChangeSignal) -> Session {
        Session { state: SessionState::Waiting, seen: signal.generation }
    }

    /// The session is waiting and nothing has been notified since it last
    /// observed the signal: it stays blocked.
    pub open spec fn is_blocked(self, signal: ChangeSignal) -> bool {
        self.state is Waiting && self.seen == signal.generation
    }

    /// The session is waiting and a notification is outstanding: it is woken.
    pub open spec fn is_pending(self, signal: ChangeSignal) -> bool {
        self.state is Waiting && self.seen != signal.generation
    }

    /// The frame that a wakeup on `signal` makes the session send, if any.
    pub open spec fn wake_frame(self, signal: ChangeSignal) -> Option<Frame> {
        if self.is_pending(signal) {
            Some(Frame::Refresh)
        } else {
            None
        }
    }

    /// The session after it has looked at `signal`.
    pub open spec fn after_wake(self, signal: ChangeSignal) -> Session {
        if self.is_pending(signal) {
            Session { state: SessionState::Sending, seen: signal.generation }
        } else {
            self
        }
    }

    /// The log record owed when a send ends in `outcome`.
    pub open spec fn send_severity(self, outcome: SendOutcome) -> Option<Severity> {
        if self.state is Sending {
            outcome.severity()
        } else {
            None
        }
    }

    /// The session after a send has ended in `outcome`.
    pub open spec fn after_send(self, outcome: SendOutcome) -> Session {
        if self.state is Sending {
            Session { state: outcome.next_state(), seen: self.seen }
        } else {
            self
        }
    }

    /// The session's current state.
    pub fn state(&self) -> (state: SessionState)
        ensures
            state == self.state,
    {
        self.state
    }

    /// Whether the session has ended.
    pub fn is_terminated(&self) -> (ended: bool)
        ensures
            ended == (self.state is Terminated),
    {
        match self.state {
            SessionState::Terminated => true,
            _ => false,
        }
    }

    /// Looks at the signal. A waiting session for which a notification is
    /// outstanding takes note of the signal's generation, moves to `Sending`
    /// and returns the frame to push. In every other case the session is left
    /// as it was and nothing is to be sent: a waiting session then blocks
    /// until the next notification.
    pub fn wake(&mut self, signal: &ChangeSignal) -> (frame: Option<Frame>)
        ensures
            *final(self) == old(self).after_wake(*signal),
            frame == old(self).wake_frame(*signal),
    {
        match self.state {
            SessionState::Waiting => {
                if self.seen != signal.generation {
                    self.seen = signal.generation;
                    self.state = SessionState::Sending;
                    Some(Frame::Refresh)
                } else {
                    None
                }
            },
            _ => None,
        }
    }

    /// Takes the outcome of the send that a sending session was waiting for.
    /// A delivered frame and a broken pipe both lead back to `Waiting`; any
    /// other failure ends the session. Returns the level at which the outcome
    /// is to be logged. A session that is not sending has no send outstanding:
    /// it is left as it was and nothing is logged.
    pub fn sent(&mut self, outcome: SendOutcome) -> (log: Option<Severity>)
        ensures
            *final(self) == old(self).after_send(outcome),
            log == old(self).send_severity(outcome),
    {
        match self.state {
            SessionState::Sending => {
                match outcome {
                    SendOutcome::Delivered => {
                        self.state = SessionState::Waiting;
                        None
                    },
                    SendOutcome::BrokenPipe => {
                        self.state = SessionState::Waiting;
                        Some(Severity::Debug)
                    },
                    SendOutcome::Failed => {
                        self.state = SessionState::Terminated;
                        Some(Severity::Error)
                    },
                }
            },
            _ => None,
        }
    }
}

/// A group of sessions after the send of the session at `index` has ended in
/// `outcome`. Each session owns its connection and its state, so nothing but
/// that one entry is touched.
pub open spec fn group_after_send(sessions: Seq<Session>, index: int, outcome: SendOutcome) -> Seq<
    Session,
> {
    sessions.update(index, sessions[index].after_send(outcome))
}

/// A single notification wakes every session that was blocked on the signal,
/// however many there are: each of them is then pending, owes its client one
/// refresh frame, and moves to `Sending`.
pub proof fn notify_wakes_every_waiter(signal: ChangeSignal, sessions: Seq<Session>)
    requires
        forall|i: int| 0 <= i < sessions.len() ==> sessions[i].is_blocked(signal),
    ensures
        forall|i: int|
            0 <= i < sessions.len() ==> {
                &&& (#[trigger] sessions[i]).is_pending(signal.after_notify())
                &&& sessions[i].wake_frame(signal.after_notify()) == Some(Frame::Refresh)
                &&& sessions[i].after_wake(signal.after_notify()).state is Sending
                &&& sessions[i].after_wake(signal.after_notify()).seen
                    == signal.after_notify().generation
            },
{
}

/// A notification wakes nobody else. A session that is sending or has ended is
/// left as it was, and a session that begins to listen only after the
/// notification stays blocked: it gets no wakeup for a change that came before
/// it subscribed.
pub proof fn notify_wakes_only_waiters(signal: ChangeSignal, session: Session)
    ensures
        !(session.state is Waiting) ==> {
            &&& session.wake_frame(signal.after_notify()) is None
            &&& session.after_wake(signal.after_notify()) == session
        },
        Session::listening(signal.after_notify()).is_blocked(signal.after_notify()),
        Session::listening(signal.after_notify()).wake_frame(signal.after_notify()) is None,
{
}

/// No notification is lost to a session that is busy: whatever is notified
/// while a frame is being sent, fewer times than the counter has values, is
/// outstanding when the session is back in `Waiting`, and wakes it once.
pub proof fn notification_during_send_is_not_lost(
    session: Session,
    signal: ChangeSignal,
    count: nat,
    outcome: SendOutcome,
)
    requires
        session.state is Sending,
        session.seen == signal.generation,
        !outcome.is_fatal(),
        0 < count <= u64::MAX,
    ensures
        session.after_send(outcome).is_pending(signal.after_notifications(count)),
        session.after_send(outcome).after_wake(signal.after_notifications(count)).after_send(
            SendOutcome::Delivered,
        ).is_blocked(signal.after_notifications(count)),
{
    crate::signal::notifications_change_generation(signal, count);
}

/// Failure isolation. When a send fails fatally in one session of a group,
/// that session ends and every other session is exactly what it was. The
/// signal is no part of the step, so it is untouched, and a session that was
/// blocked on it is still woken by the next notification.
pub proof fn fatal_failure_is_isolated(
    signal: ChangeSignal,
    sessions: Seq<Session>,
    failing: int,
    other: int,
)
    requires
        0 <= failing < sessions.len(),
        0 <= other < sessions.len(),
        failing != other,
        sessions[failing].state is Sending,
    ensures
        group_after_send(sessions, failing, SendOutcome::Failed).len() == sessions.len(),
        group_after_send(sessions, failing, SendOutcome::Failed)[failing].state is Terminated,
        group_after_send(sessions, failing, SendOutcome::Failed)[other] == sessions[other],
        sessions[other].is_blocked(signal) ==> group_after_send(
            sessions,
            failing,
            SendOutcome::Failed,
        )[other].wake_frame(signal.after_notify()) == Some(Frame::Refresh),
{
}

/// Broken-pipe tolerance. A send that ends in a broken pipe takes the session
/// back to `Waiting` with a debug record, and the session is then woken as
/// before. A later send that fails in any other way ends it, with an error
/// record.
pub proof fn broken_pipe_is_tolerated(session: Session, signal: ChangeSignal)
    requires
        session.state is Sending,
    ensures
        session.after_send(SendOutcome::BrokenPipe).state is Waiting,
        session.after_send(SendOutcome::BrokenPipe).seen == session.seen,
        session.send_severity(SendOutcome::BrokenPipe) == Some(Severity::Debug),
        session.after_send(SendOutcome::BrokenPipe).is_pending(signal) ==> {
            let resumed = session.after_send(SendOutcome::BrokenPipe).after_wake(signal);
            &&& resumed.state is Sending
            &&& resumed.after_send(SendOutcome::Failed).state is Terminated
            &&& resumed.send_severity(SendOutcome::Failed) == Some(Severity::Error)
        },
{
}

/// Round trip. One notification while a session is blocked gives its client
/// exactly one refresh frame: the wakeup yields the frame, the delivered send
/// takes the session back to `Waiting`, and there it is blocked again, with
/// nothing more to send until the next notification.
pub proof fn single_notification_single_refresh(session: Session, signal: ChangeSignal)
    requires
        session.is_blocked(signal),
    ensures
        session.wake_frame(signal.after_notify()) == Some(Frame::Refresh),
        frame_text(Frame::Refresh) == "refresh"@,
        session.after_wake(signal.after_notify()).state is Sending,
        session.after_wake(signal.after_notify()).wake_frame(signal.after_notify()) is None,
        session.after_wake(signal.after_notify()).after_send(SendOutcome::Delivered).is_blocked(
            signal.after_notify(),
        ),
        session.after_wake(signal.after_notify()).after_send(SendOutcome::Delivered).wake_frame(
            signal.after_notify(),
        ) is None,
{
}

/// A session that has ended stays ended: no signal wakes it and no outcome
/// moves it.
pub proof fn terminated_is_final(session: Session, signal: ChangeSignal, outcome: SendOutcome)
    requires
        session.state is Terminated,
    ensures
        session.after_wake(signal) == session,
        session.wake_frame(signal) is None,
        session.after_send(outcome) == session,
        session.send_severity(outcome) is None,
{
}

} // verus!
