//! The connection's life cycle, and the rule that at most one outbound
//! frame is in flight at a time.

use vstd::prelude::*;
use crate::sync::Outbound;

verus! {

/// Where the connection stands. `Closed` and `Errored` are final.
#[derive(Clone, Copy, Debug, PartialEq, Eq, Structural)]
pub enum ConnState {
    Disconnected,
    Connecting,
    Open,
    Closed,
    Errored,
}

/// What the transport reported.
#[derive(Clone, Debug, PartialEq)]
pub enum ConnEvent {
    /// A connection attempt started.
    Dial,
    /// The connection is open.
    Opened,
    /// A text frame arrived.
    Text(String),
    /// A binary frame arrived.
    Binary,
    /// The connection failed.
    ConnectionError,
    /// The peer closed the connection.
    ConnectionClose,
    /// A write failed on an open connection.
    SendError,
    /// Any other read failure.
    ReadError,
}

/// What the reader should do next.
#[derive(Clone, Debug, PartialEq)]
pub enum ConnAction {
    /// Nothing to do; keep reading.
    Idle,
    /// Send the presence frame and resolve the local session's identity.
    Announce,
    /// Decode this frame and apply it.
    Deliver(String),
    /// Log the failure and keep reading.
    Report,
    /// Stop reading for good.
    Stop,
}

impl ConnState {
    /// A state that no event leaves.
    pub open spec fn is_final(self) -> bool {
        self == ConnState::Closed || self == ConnState::Errored
    }
}

/// Where the connection goes on `event` from `state`, and what the reader does.
pub fn step(state: ConnState, event: ConnEvent) -> (r: (ConnState, ConnAction))
    ensures
        state.is_final() ==> r == (state, ConnAction::Stop),
        state == ConnState::Disconnected ==> r == (if event == ConnEvent::Dial {
            (ConnState::Connecting, ConnAction::Idle)
        } else {
            (state, ConnAction::Idle)
        }),
        state == ConnState::Connecting ==> r == match event {
            ConnEvent::Opened => (ConnState::Open, ConnAction::Announce),
            ConnEvent::ConnectionError => (ConnState::Errored, ConnAction::Stop),
            ConnEvent::ConnectionClose => (ConnState::Closed, ConnAction::Stop),
            _ => (state, ConnAction::Idle),
        },
        state == ConnState::Open ==> r == match event {
            ConnEvent::Text(t) => (ConnState::Open, ConnAction::Deliver(t)),
            ConnEvent::ConnectionError => (ConnState::Errored, ConnAction::Stop),
            ConnEvent::ConnectionClose => (ConnState::Closed, ConnAction::Stop),
            ConnEvent::SendError => (ConnState::Open, ConnAction::Report),
            ConnEvent::ReadError => (ConnState::Open, ConnAction::Report),
            _ => (ConnState::Open, ConnAction::Idle),
        },
{
    match state {
        ConnState::Closed | ConnState::Errored => (state, ConnAction::Stop),
        ConnState::Disconnected => match event {
            ConnEvent::Dial => (ConnState::Connecting, ConnAction::Idle),
            _ => (state, ConnAction::Idle),
        },
        ConnState::Connecting => match event {
            ConnEvent::Opened => (ConnState::Open, ConnAction::Announce),
            ConnEvent::ConnectionError => (ConnState::Errored, ConnAction::Stop),
            ConnEvent::ConnectionClose => (ConnState::Closed, ConnAction::Stop),
            _ => (state, ConnAction::Idle),
        },
        ConnState::Open => match event {
            ConnEvent::Text(t) => (ConnState::Open, ConnAction::Deliver(t)),
            ConnEvent::ConnectionError => (ConnState::Errored, ConnAction::Stop),
            ConnEvent::ConnectionClose => (ConnState::Closed, ConnAction::Stop),
            ConnEvent::SendError => (ConnState::Open, ConnAction::Report),
            ConnEvent::ReadError => (ConnState::Open, ConnAction::Report),
            _ => (ConnState::Open, ConnAction::Idle),
        },
    }
}

/// Outbound frames waiting for the socket, first in first out, with at most
/// one frame in flight.
pub struct WriteQueue {
    waiting: Vec<Outbound>,
    busy: bool,
}

impl WriteQueue {
    /// Frames wait only behind a frame in flight.
    #[verifier::type_invariant]
    spec fn waits_only_when_busy(&self) -> bool {
        self.waiting@.len() > 0 ==> self.busy
    }

    /// Frames waiting, oldest first.
    pub closed spec fn spec_waiting(&self) -> Seq<Outbound> {
        self.waiting@
    }

    /// Whether a frame is in flight.
    pub closed spec fn spec_busy(&self) -> bool {
        self.busy
    }

    pub fn new() -> (r: Self)
        ensures
            r.spec_waiting() == Seq::<Outbound>::empty(),
            !r.spec_busy(),
    {
        WriteQueue { waiting: Vec::new(), busy: false }
    }

    /// Whether a frame is in flight.
    pub fn is_busy(&self) -> (r: bool)
        ensures
            r == self.spec_busy(),
    {
        self.busy
    }

    /// Number of frames waiting.
    pub fn waiting(&self) -> (r: usize)
        ensures
            r == self.spec_waiting().len(),
    {
        self.waiting.len()
    }

    /// Hands `frame` over: returned to be written now when nothing is in
    /// flight, else queued behind the others.
    pub fn submit(&mut self, frame: Outbound) -> (r: Option<Outbound>)
        ensures
            final(self).spec_busy(),
            !old(self).spec_busy() ==> r == Some(frame) && final(self).spec_waiting()
                == old(self).spec_waiting(),
            old(self).spec_busy() ==> r is None && final(self).spec_waiting()
                == old(self).spec_waiting().push(frame),
    {
        if self.busy {
            let mut w: Vec<Outbound> = Vec::new();
            std::mem::swap(&mut self.waiting, &mut w);
            w.push(frame);
            self.waiting = w;
            None
        } else {
            self.busy = true;
            Some(frame)
        }
    }

    /// The frame in flight finished: returns the next one to write, if any.
    pub fn complete(&mut self) -> (r: Option<Outbound>)
        ensures
            old(self).spec_waiting().len() == 0 ==> r is None && !final(self).spec_busy()
                && final(self).spec_waiting() == old(self).spec_waiting(),
            old(self).spec_waiting().len() > 0 ==> r == Some(old(self).spec_waiting()[0])
                && final(self).spec_busy() && final(self).spec_waiting()
                == old(self).spec_waiting().drop_first(),
    {
        proof {
            use_type_invariant(&*self);
        }
        if self.waiting.len() == 0 {
            self.busy = false;
            None
        } else {
            let mut w: Vec<Outbound> = Vec::new();
            std::mem::swap(&mut self.waiting, &mut w);
            let next = w.remove(0);
            self.waiting = w;
            assert(self.waiting@ =~= old(self).waiting@.drop_first());
            Some(next)
        }
    }
}

} // verus!
