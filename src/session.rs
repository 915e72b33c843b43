//! The life cycle of one client session.
//!
//! A session runs two pumps: the outbound one writes broadcast events to the
//! socket, the inbound one reads commands from it. The first pump to end has
//! the other cancelled, and the session is released once both have stopped.
//! The decisions are made here, from the session's state and what happened;
//! the caller runs the pumps and carries out the actions.

use vstd::prelude::*;

verus! {

/// The phase of a session.
#[derive(Debug, Clone, Copy, PartialEq, Eq, Structural)]
pub enum Phase {
    /// Upgraded, before the pumps run.
    Connecting,
    /// Both pumps run.
    Active,
    /// One pump has ended; the other is being cancelled.
    Closing,
    /// Both pumps have stopped and the session's resources are released.
    Closed,
}

/// One of the two pumps of a session.
#[derive(Debug, Clone, Copy, PartialEq, Eq, Structural)]
pub enum Pump {
    /// Broadcast events to the socket.
    Outbound,
    /// Socket frames to the command translator.
    Inbound,
}

/// What happened to a session.
#[derive(Debug, Clone, Copy, PartialEq, Eq, Structural)]
pub enum SessionEvent {
    /// The session subscribed to the broadcast channel and tried to send the
    /// initial peer list.
    Started,
    /// A pump ended: on its own (a failed write, a close frame, a failed
    /// read) or because it was cancelled.
    PumpEnded(Pump),
}

/// What the caller does next.
#[derive(Debug, Clone, Copy, PartialEq, Eq, Structural)]
pub enum SessionAction {
    /// Start both pumps.
    StartPumps,
    /// Cancel the given pump.
    Cancel(Pump),
    /// Release the subscription and the socket halves.
    Release,
    /// Nothing.
    Wait,
}

/// A frame read from the socket.
#[derive(Debug, Clone, PartialEq)]
pub enum Frame {
    /// A text frame.
    Text(String),
    /// A close frame.
    Close,
    /// Any other frame (binary, ping, pong).
    Other,
    /// Reading failed.
    ReadError,
}

/// What the inbound pump does with a frame.
#[derive(Debug, Clone, PartialEq)]
pub enum InboundStep {
    /// Parse the text as a command and hand it to the translator.
    Dispatch(String),
    /// Skip the frame.
    Skip,
    /// End the inbound pump.
    Stop,
}

/// The state of one session.
#[derive(Debug, Clone, Copy, PartialEq, Eq, Structural)]
pub struct Session {
    pub phase: Phase,
    pub outbound_running: bool,
    pub inbound_running: bool,
}

/// The other pump.
pub open spec fn partner(p: Pump) -> Pump {
    match p {
        Pump::Outbound => Pump::Inbound,
        Pump::Inbound => Pump::Outbound,
    }
}

/// Whether the pump `p` runs in `s`.
pub open spec fn runs(s: Session, p: Pump) -> bool {
    match p {
        Pump::Outbound => s.outbound_running,
        Pump::Inbound => s.inbound_running,
    }
}

/// `s` with the pump `p` stopped.
pub open spec fn stopped(s: Session, p: Pump) -> Session {
    match p {
        Pump::Outbound => Session { outbound_running: false, ..s },
        Pump::Inbound => Session { inbound_running: false, ..s },
    }
}

/// The next state of a session and the action to take, after `e`.
pub open spec fn next(s: Session, e: SessionEvent) -> (Session, SessionAction) {
    match e {
        SessionEvent::Started => if s.phase == Phase::Connecting {
            (Session { phase: Phase::Active, outbound_running: true, inbound_running: true }, SessionAction::StartPumps)
        } else {
            (s, SessionAction::Wait)
        },
        SessionEvent::PumpEnded(p) => if s.phase == Phase::Active && runs(s, p) {
            (Session { phase: Phase::Closing, ..stopped(s, p) }, SessionAction::Cancel(partner(p)))
        } else if s.phase == Phase::Closing && runs(s, p) {
            (Session { phase: Phase::Closed, ..stopped(s, p) }, SessionAction::Release)
        } else {
            (s, SessionAction::Wait)
        },
    }
}

/// The state after the events `es`, one after the other.
pub open spec fn after(s: Session, es: Seq<SessionEvent>) -> Session
    decreases es.len(),
{
    if es.len() == 0 {
        s
    } else {
        after(next(s, es[0]).0, es.drop_first())
    }
}

/// Whether the inbound pump may still hand a command to the translator.
pub open spec fn dispatching(s: Session) -> bool {
    s.phase == Phase::Active && s.inbound_running
}

impl Session {
    /// Which pumps run in each phase: none before and after, both while
    /// active, exactly one while closing.
    pub open spec fn wf(&self) -> bool {
        match self.phase {
            Phase::Connecting | Phase::Closed => !self.outbound_running && !self.inbound_running,
            Phase::Active => self.outbound_running && self.inbound_running,
            Phase::Closing => self.outbound_running != self.inbound_running,
        }
    }

    /// A session that has just been upgraded.
    pub fn new() -> (r: Session)
        ensures
            r.wf(),
            r.phase == Phase::Connecting,
    {
        Session { phase: Phase::Connecting, outbound_running: false, inbound_running: false }
    }

    /// Takes in `e` and says what to do next.
    pub fn step(&mut self, e: SessionEvent) -> (r: SessionAction)
        requires
            old(self).wf(),
        ensures
            final(self).wf(),
            (*final(self), r) == next(*old(self), e),
    {
        match e {
            SessionEvent::Started => {
                if self.phase == Phase::Connecting {
                    *self = Session { phase: Phase::Active, outbound_running: true, inbound_running: true };
                    SessionAction::StartPumps
                } else {
                    SessionAction::Wait
                }
            },
            SessionEvent::PumpEnded(p) => {
                let running = match p {
                    Pump::Outbound => self.outbound_running,
                    Pump::Inbound => self.inbound_running,
                };
                if running && (self.phase == Phase::Active || self.phase == Phase::Closing) {
                    let closing = self.phase == Phase::Active;
                    match p {
                        Pump::Outbound => self.outbound_running = false,
                        Pump::Inbound => self.inbound_running = false,
                    }
                    if closing {
                        self.phase = Phase::Closing;
                        SessionAction::Cancel(match p {
                            Pump::Outbound => Pump::Inbound,
                            Pump::Inbound => Pump::Outbound,
                        })
                    } else {
                        self.phase = Phase::Closed;
                        SessionAction::Release
                    }
                } else {
                    SessionAction::Wait
                }
            },
        }
    }

    /// Whether the inbound pump may still hand a command to the translator.
    pub fn may_dispatch(&self) -> (r: bool)
        ensures
            r == dispatching(*self),
    {
        self.phase == Phase::Active && self.inbound_running
    }
}

/// What the inbound pump does with `frame`: text goes to the translator, a
/// close frame or a failed read ends the pump, anything else is skipped.
pub fn inbound_step(frame: Frame) -> (r: InboundStep)
    ensures
        match frame {
            Frame::Text(t) => r == InboundStep::Dispatch(t),
            Frame::Close | Frame::ReadError => r is Stop,
            Frame::Other => r is Skip,
        },
{
    match frame {
        Frame::Text(t) => InboundStep::Dispatch(t),
        Frame::Close | Frame::ReadError => InboundStep::Stop,
        Frame::Other => InboundStep::Skip,
    }
}

/// Once a session has left the active phase it never returns to it, whatever
/// happens next, so its inbound pump hands nothing more to the translator.
pub proof fn lemma_closed_stays_closed(s: Session, es: Seq<SessionEvent>)
    requires
        s.wf(),
        s.phase == Phase::Closing || s.phase == Phase::Closed,
    ensures
        after(s, es).wf(),
        after(s, es).phase == Phase::Closing || after(s, es).phase == Phase::Closed,
        !dispatching(after(s, es)),
    decreases es.len(),
{
    if es.len() > 0 {
        lemma_closed_stays_closed(next(s, es[0]).0, es.drop_first());
    }
}

/// When either pump of an active session ends, the other is cancelled at
/// once, no command is dispatched from then on, whatever happens next, and
/// the session is released as soon as the cancelled pump has stopped.
pub proof fn lemma_mutual_cancellation(s: Session, p: Pump, es: Seq<SessionEvent>)
    requires
        s.wf(),
        s.phase == Phase::Active,
    ensures
        next(s, SessionEvent::PumpEnded(p)).1 == SessionAction::Cancel(partner(p)),
        !dispatching(after(s, seq![SessionEvent::PumpEnded(p)] + es)),
        next(next(s, SessionEvent::PumpEnded(p)).0, SessionEvent::PumpEnded(partner(p))).0.phase == Phase::Closed,
        next(next(s, SessionEvent::PumpEnded(p)).0, SessionEvent::PumpEnded(partner(p))).1 == SessionAction::Release,
{
    let es2 = seq![SessionEvent::PumpEnded(p)] + es;
    assert(es2[0] == SessionEvent::PumpEnded(p));
    assert(es2.drop_first() =~= es);
    lemma_closed_stays_closed(next(s, SessionEvent::PumpEnded(p)).0, es);
}

} // verus!
