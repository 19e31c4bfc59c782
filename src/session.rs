//! The decisions of one control connection on the server, as a state
//! machine: the caller performs each action and reports what came of it.
use crate::protocol::{ClientMessage, ServerMessage};
use vstd::prelude::*;

verus! {

/// Where a control session stands.
#[derive(PartialEq, Eq, Structural)]
pub enum Phase {
    /// Nothing read yet.
    AwaitHello,
    /// Binding the public listener on the requested port.
    Binding,
    /// A message was sent; waiting for whether the write succeeded.
    /// `probe` tells whether it was a heartbeat.
    Sending { port: u16, probe: bool },
    /// Waiting up to the poll interval for a public connection.
    Polling { port: u16 },
    /// A terminal `Error` was sent; the session closes next.
    Closing,
    /// The session is over.
    Closed,
}

/// What the caller reports back.
pub enum Event {
    /// The first message read, or `None` at end of stream.
    Received(Option<ClientMessage>),
    /// Binding failed.
    BindFailed,
    /// The listener is bound; the port that it reports.
    Bound(u16),
    /// The last message was written.
    SendOk,
    /// Writing the last message failed: the client is gone.
    SendFailed,
    /// No public connection arrived within the poll interval.
    PollTimeout,
    /// A public connection arrived and was filed under this id.
    Incoming(u128),
}

/// What the caller does next.
pub enum Action {
    /// Bind the public listener on this port (`0`: any).
    Bind(u16),
    /// Write this message on the control stream.
    Send(ServerMessage),
    /// Wait for a public connection, up to the poll interval.
    Poll,
    /// Take the pending connection with this id and splice it with the
    /// control stream; the session is then over.
    Forward(u128),
    /// Close the control stream (and the listener, if bound).
    Close,
}

/// The error text for a requested port below the minimum.
pub open spec fn out_of_range_text() -> Seq<char> {
    "port out of range"@
}

/// The error text for a port that could not be bound.
pub open spec fn in_use_text() -> Seq<char> {
    "port already in use"@
}

/// Whether a requested port is refused: nonzero and below the minimum.
pub open spec fn port_refused(min_port: u16, port: u16) -> bool {
    port != 0 && port < min_port
}

/// The shape that the server's messages on one session take: `Hello(p)`
/// with `p >= 1` (or a lone `Error`) first, then only heartbeats, offers
/// and errors, and nothing after an error.
pub open spec fn valid_stream(s: Seq<ServerMessage>) -> bool {
    (s.len() > 0 ==> (s[0] is Hello && s[0]->Hello_0 >= 1) || s[0] is Error)
    && (forall|i: int| 1 <= i < s.len() ==> (s[i] is HeartBeat || s[i] is Connection || s[i] is Error))
    && (forall|i: int| 0 <= i < s.len() - 1 ==> !(s[i] is Error))
}

/// The messages that an action writes.
pub open spec fn sent_by(a: Action) -> Seq<ServerMessage> {
    match a {
        Action::Send(m) => seq![m],
        _ => Seq::empty(),
    }
}

/// One control session.
pub struct ControlSession {
    pub min_port: u16,
    pub phase: Phase,
    /// Every message that the session has had written so far.
    pub sent: Ghost<Seq<ServerMessage>>,
    /// Whether the session has asked for a listener to be bound.
    pub bound: Ghost<bool>,
}

impl ControlSession {
    /// The invariant of a session.
    pub open spec fn wf(&self) -> bool {
        &&& valid_stream(self.sent@)
        &&& (self.phase is AwaitHello ==> self.sent@.len() == 0 && !self.bound@)
        &&& (self.phase is Binding ==> self.sent@.len() == 0 && self.bound@)
        &&& (self.phase is Sending || self.phase is Polling) ==> (
            self.sent@.len() > 0 && !(self.sent@.last() is Error) && self.bound@)
        &&& (self.phase is Closing ==> self.sent@.len() > 0 && self.sent@.last() is Error)
    }

    /// A session on a server that refuses requested ports below `min_port`.
    pub fn new(min_port: u16) -> (r: ControlSession)
        ensures
            r.wf(),
            r.min_port == min_port,
            r.phase == Phase::AwaitHello,
            r.sent@ == Seq::<ServerMessage>::empty(),
            !r.bound@,
    {
        ControlSession {
            min_port,
            phase: Phase::AwaitHello,
            sent: Ghost(Seq::empty()),
            bound: Ghost(false),
        }
    }

    /// Whether the session is over.
    pub fn is_closed(&self) -> (r: bool)
        ensures
            r == (self.phase == Phase::Closed),
    {
        self.phase == Phase::Closed
    }

    /// Moves the session on by one event and says what to do next.
    pub fn step(&mut self, ev: Event) -> (a: Action)
        requires
            old(self).wf(),
        ensures
            final(self).wf(),
            final(self).min_port == old(self).min_port,
            final(self).sent@ == old(self).sent@ + sent_by(a),
            final(self).bound@ == (old(self).bound@ || a is Bind),
            // the first message decides between binding, refusing and forwarding
            old(self).phase is AwaitHello ==> match ev {
                Event::Received(Some(ClientMessage::Hello(p))) =>
                    if port_refused(old(self).min_port, p) {
                        a matches Action::Send(ServerMessage::Error(t)) && t@ == out_of_range_text()
                            && final(self).phase == Phase::Closing
                    } else {
                        a == Action::Bind(p) && final(self).phase == Phase::Binding
                    },
                Event::Received(Some(ClientMessage::Accept(id))) =>
                    a == Action::Forward(id) && final(self).phase == Phase::Closed,
                _ => a is Close && final(self).phase == Phase::Closed,
            },
            // the port confirmed is the one the listener reports
            old(self).phase is Binding ==> match ev {
                Event::Bound(p) =>
                    if p >= 1 {
                        a == Action::Send(ServerMessage::Hello(p))
                            && final(self).phase == (Phase::Sending { port: p, probe: false })
                    } else {
                        a matches Action::Send(ServerMessage::Error(t)) && t@ == in_use_text()
                            && final(self).phase == Phase::Closing
                    },
                Event::BindFailed =>
                    a matches Action::Send(ServerMessage::Error(t)) && t@ == in_use_text()
                        && final(self).phase == Phase::Closing,
                _ => a is Close && final(self).phase == Phase::Closed,
            },
            // a running session sends a heartbeat after each write and each
            // quiet poll, offers each arrival, and ends when a write fails
            old(self).phase matches Phase::Sending { port, probe } ==> match ev {
                Event::SendOk =>
                    if probe {
                        a == Action::Poll && final(self).phase == (Phase::Polling { port })
                    } else {
                        a == Action::Send(ServerMessage::HeartBeat)
                            && final(self).phase == (Phase::Sending { port, probe: true })
                    },
                _ => a is Close && final(self).phase == Phase::Closed,
            },
            old(self).phase matches Phase::Polling { port } ==> match ev {
                Event::PollTimeout => a == Action::Send(ServerMessage::HeartBeat)
                    && final(self).phase == (Phase::Sending { port, probe: true }),
                Event::Incoming(id) => a == Action::Send(ServerMessage::Connection(id))
                    && final(self).phase == (Phase::Sending { port, probe: false }),
                _ => a is Close && final(self).phase == Phase::Closed,
            },
            // after an error, and once over, nothing more is done
            (old(self).phase is Closing || old(self).phase is Closed) ==> (
                a is Close && final(self).phase == Phase::Closed),
    {
        proof {
            reveal_strlit("port out of range");
            reveal_strlit("port already in use");
        }
        let ghost s0 = self.sent@;
        let a = match self.phase {
            Phase::AwaitHello => match ev {
                Event::Received(Some(ClientMessage::Hello(p))) => {
                    if p != 0 && p < self.min_port {
                        self.phase = Phase::Closing;
                        Action::Send(ServerMessage::Error("port out of range".to_owned()))
                    } else {
                        self.phase = Phase::Binding;
                        Action::Bind(p)
                    }
                },
                Event::Received(Some(ClientMessage::Accept(id))) => {
                    self.phase = Phase::Closed;
                    Action::Forward(id)
                },
                _ => {
                    self.phase = Phase::Closed;
                    Action::Close
                },
            },
            Phase::Binding => match ev {
                Event::Bound(p) => {
                    if p >= 1 {
                        self.phase = Phase::Sending { port: p, probe: false };
                        Action::Send(ServerMessage::Hello(p))
                    } else {
                        self.phase = Phase::Closing;
                        Action::Send(ServerMessage::Error("port already in use".to_owned()))
                    }
                },
                Event::BindFailed => {
                    self.phase = Phase::Closing;
                    Action::Send(ServerMessage::Error("port already in use".to_owned()))
                },
                _ => {
                    self.phase = Phase::Closed;
                    Action::Close
                },
            },
            Phase::Sending { port, probe } => match ev {
                Event::SendOk => {
                    if probe {
                        self.phase = Phase::Polling { port };
                        Action::Poll
                    } else {
                        self.phase = Phase::Sending { port, probe: true };
                        Action::Send(ServerMessage::HeartBeat)
                    }
                },
                _ => {
                    self.phase = Phase::Closed;
                    Action::Close
                },
            },
            Phase::Polling { port } => match ev {
                Event::PollTimeout => {
                    self.phase = Phase::Sending { port, probe: true };
                    Action::Send(ServerMessage::HeartBeat)
                },
                Event::Incoming(id) => {
                    self.phase = Phase::Sending { port, probe: false };
                    Action::Send(ServerMessage::Connection(id))
                },
                _ => {
                    self.phase = Phase::Closed;
                    Action::Close
                },
            },
            _ => {
                self.phase = Phase::Closed;
                Action::Close
            },
        };
        proof {
            self.sent@ = s0 + sent_by(a);
            self.bound@ = self.bound@ || a is Bind;
        }
        a
    }
}

/// Whatever events a session has been through, the messages it had
/// written begin with one `Hello(p)`, `p >= 1`, or with an `Error`; every
/// later one is a heartbeat, an offer or an error; an error is the last.
pub proof fn lemma_server_stream_shape(s: ControlSession)
    requires
        s.wf(),
    ensures
        s.sent@.len() > 0 ==> (s.sent@[0] is Hello && s.sent@[0]->Hello_0 >= 1) || s.sent@[0] is Error,
        forall|i: int| 1 <= i < s.sent@.len() ==> #[trigger] s.sent@[i] is HeartBeat || s.sent@[i] is Connection || s.sent@[i] is Error,
        forall|i: int| 0 <= i < s.sent@.len() ==> (#[trigger] s.sent@[i] is Error ==> i == s.sent@.len() - 1),
        s.sent@.len() > 0 && s.sent@.last() is Error ==> s.phase is Closing || s.phase is Closed,
{
}

} // verus!
