//! The decisions of one forwarding session, as a state machine: the driver
//! performs each action on the sockets and reports the outcome as an event.

use vstd::prelude::*;

verus! {

/// The most bytes relayed in each direction of a session.
pub const BUF_SIZE: usize = 1024;

/// Where a forwarding session stands. The backend connection is opened before
/// the client's request is read.
#[derive(Clone, Copy, PartialEq, Eq, Debug, Structural)]
pub enum Phase {
    Connecting,
    ReadingClient,
    WritingBackend,
    ReadingBackend,
    WritingClient,
    Closed,
}

/// What the driver of a session reports once it has performed an action.
#[derive(PartialEq, Eq, Debug)]
pub enum Event {
    /// The backend connection is open.
    Connected,
    /// A read returned these bytes; none at all means the peer closed.
    Received(Vec<u8>),
    /// A write went through in full.
    Sent,
    /// The connect, read or write failed.
    Failed,
}

/// How a session ended.
#[derive(Clone, Copy, PartialEq, Eq, Debug, Structural)]
pub enum Outcome {
    /// One request and its response were relayed.
    Relayed,
    /// The client closed before sending anything.
    ClientClosed,
    /// The backend closed without responding.
    BackendClosed,
    ConnectFailed,
    ClientReadFailed,
    BackendWriteFailed,
    BackendReadFailed,
    ClientWriteFailed,
    /// An event that does not fit the phase, or any event after the end.
    Unexpected,
}

/// What the driver of a session is to do next.
#[derive(PartialEq, Eq, Debug)]
pub enum Action {
    /// Open a connection to this backend address.
    Connect(String),
    /// Read at most this many bytes from the client.
    ReadClient(usize),
    /// Write these bytes to the backend.
    WriteBackend(Vec<u8>),
    /// Read at most this many bytes from the backend.
    ReadBackend(usize),
    /// Write these bytes to the client.
    WriteClient(Vec<u8>),
    /// Close both connections; the session is over.
    Close(Outcome),
}

/// The part of a chunk that is relayed: its first `BUF_SIZE` bytes.
pub open spec fn capped(d: Seq<u8>) -> Seq<u8> {
    if d.len() <= BUF_SIZE {
        d
    } else {
        d.subrange(0, BUF_SIZE as int)
    }
}

/// How a failure of the work of phase `p` ends the session.
pub open spec fn failure_outcome(p: Phase) -> Outcome {
    match p {
        Phase::Connecting => Outcome::ConnectFailed,
        Phase::ReadingClient => Outcome::ClientReadFailed,
        Phase::WritingBackend => Outcome::BackendWriteFailed,
        Phase::ReadingBackend => Outcome::BackendReadFailed,
        Phase::WritingClient => Outcome::ClientWriteFailed,
        Phase::Closed => Outcome::Unexpected,
    }
}

/// How many steps at most remain before a session in phase `p` is closed.
pub open spec fn steps_left(p: Phase) -> nat {
    match p {
        Phase::Connecting => 5,
        Phase::ReadingClient => 4,
        Phase::WritingBackend => 3,
        Phase::ReadingBackend => 2,
        Phase::WritingClient => 1,
        Phase::Closed => 0,
    }
}

/// The session ends at once, on an event that it did not ask for.
pub open spec fn ends_unexpectedly(q: Phase, a: Action) -> bool {
    q == Phase::Closed && a == Action::Close(Outcome::Unexpected)
}

/// In phase `p`, event `e` leads to phase `q` and action `a`.
pub open spec fn is_step(p: Phase, e: Event, q: Phase, a: Action) -> bool {
    match e {
        Event::Failed => q == Phase::Closed && a == Action::Close(failure_outcome(p)),
        Event::Connected => if p == Phase::Connecting {
            q == Phase::ReadingClient && a == Action::ReadClient(BUF_SIZE)
        } else {
            ends_unexpectedly(q, a)
        },
        Event::Received(d) => if p == Phase::ReadingClient {
            if d@.len() == 0 {
                q == Phase::Closed && a == Action::Close(Outcome::ClientClosed)
            } else {
                q == Phase::WritingBackend && match a {
                    Action::WriteBackend(c) => c@ == capped(d@),
                    _ => false,
                }
            }
        } else if p == Phase::ReadingBackend {
            if d@.len() == 0 {
                q == Phase::Closed && a == Action::Close(Outcome::BackendClosed)
            } else {
                q == Phase::WritingClient && match a {
                    Action::WriteClient(c) => c@ == capped(d@),
                    _ => false,
                }
            }
        } else {
            ends_unexpectedly(q, a)
        },
        Event::Sent => if p == Phase::WritingBackend {
            q == Phase::ReadingBackend && a == Action::ReadBackend(BUF_SIZE)
        } else if p == Phase::WritingClient {
            q == Phase::Closed && a == Action::Close(Outcome::Relayed)
        } else {
            ends_unexpectedly(q, a)
        },
    }
}

/// The first `BUF_SIZE` bytes of `d`.
fn cap(d: Vec<u8>) -> (r: Vec<u8>)
    ensures
        r@ == capped(d@),
{
    let mut d = d;
    d.truncate(BUF_SIZE);
    d
}

fn failure(p: Phase) -> (o: Outcome)
    ensures
        o == failure_outcome(p),
{
    match p {
        Phase::Connecting => Outcome::ConnectFailed,
        Phase::ReadingClient => Outcome::ClientReadFailed,
        Phase::WritingBackend => Outcome::BackendWriteFailed,
        Phase::ReadingBackend => Outcome::BackendReadFailed,
        Phase::WritingClient => Outcome::ClientWriteFailed,
        Phase::Closed => Outcome::Unexpected,
    }
}

/// One client connection relayed through one backend: a single request of at
/// most `BUF_SIZE` bytes and a single response of at most `BUF_SIZE` bytes.
pub struct Session {
    phase: Phase,
}

impl View for Session {
    type V = Phase;

    closed spec fn view(&self) -> Phase {
        self.phase
    }
}

impl Session {
    /// A session for a client routed to `backend`; its first action opens the
    /// backend connection.
    pub fn new(backend: String) -> (r: (Session, Action))
        ensures
            r.0@ == Phase::Connecting,
            r.1 == Action::Connect(backend),
    {
        (Session { phase: Phase::Connecting }, Action::Connect(backend))
    }

    /// The phase the session is in.
    pub fn phase(&self) -> (p: Phase)
        ensures
            p == self@,
    {
        self.phase
    }

    /// Takes the outcome of the last action and returns the next one. Every
    /// step of an open session brings it closer to its end.
    pub fn step(&mut self, e: Event) -> (a: Action)
        ensures
            is_step(old(self)@, e, final(self)@, a),
            old(self)@ != Phase::Closed ==> steps_left(final(self)@) < steps_left(old(self)@),
    {
        let p = self.phase;
        let (q, a) = match e {
            Event::Failed => (Phase::Closed, Action::Close(failure(p))),
            Event::Connected => match p {
                Phase::Connecting => (Phase::ReadingClient, Action::ReadClient(BUF_SIZE)),
                _ => (Phase::Closed, Action::Close(Outcome::Unexpected)),
            },
            Event::Received(d) => match p {
                Phase::ReadingClient => if d.len() == 0 {
                    (Phase::Closed, Action::Close(Outcome::ClientClosed))
                } else {
                    (Phase::WritingBackend, Action::WriteBackend(cap(d)))
                },
                Phase::ReadingBackend => if d.len() == 0 {
                    (Phase::Closed, Action::Close(Outcome::BackendClosed))
                } else {
                    (Phase::WritingClient, Action::WriteClient(cap(d)))
                },
                _ => (Phase::Closed, Action::Close(Outcome::Unexpected)),
            },
            Event::Sent => match p {
                Phase::WritingBackend => (Phase::ReadingBackend, Action::ReadBackend(BUF_SIZE)),
                Phase::WritingClient => (Phase::Closed, Action::Close(Outcome::Relayed)),
                _ => (Phase::Closed, Action::Close(Outcome::Unexpected)),
            },
        };
        self.phase = q;
        a
    }
}

} // verus!
