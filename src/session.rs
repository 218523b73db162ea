//! One connection's lifecycle, as a state machine: the connection loop feeds
//! it events and performs the actions it returns.
use vstd::prelude::*;

verus! {

/// Where a session stands in its lifecycle.
#[derive(Clone, Copy, Debug, PartialEq, Eq, Structural)]
pub enum SessionState {
    Connecting,
    Active,
    Closing,
    Closed,
}

/// What happened to a session.
pub enum SessionEvent {
    /// The hub registered the session under this id.
    Registered(usize),
    /// The hub could not be reached to register the session.
    RegistrationFailed,
    /// A liveness probe with its payload.
    Ping(Vec<u8>),
    /// A liveness acknowledgment.
    Pong,
    /// An application text frame (reserved: accepted and ignored).
    Text(String),
    /// A close frame from the peer.
    Close,
    /// A frame that broke the protocol, or a frame kind the session does not take.
    ProtocolError,
    /// A hub broadcast addressed to this session.
    Broadcast(String),
    /// The connection is being torn down, on any path.
    Stopped,
}

/// What the connection loop must do.
pub enum SessionAction {
    /// Answer a probe with this payload.
    SendPong(Vec<u8>),
    /// Write this text frame.
    SendText(String),
    /// Echo the peer's close frame.
    SendClose,
    /// Stop the connection.
    Stop,
    /// Ask the hub to forget this session id.
    Leave(usize),
}

/// A session: its state, the id the hub gave it, and the time of its last
/// sign of life.
pub struct MyWebSocket {
    state: SessionState,
    id: usize,
    last_beat: u64,
}

/// The abstract state of a session.
pub struct SessionView {
    pub state: SessionState,
    pub id: usize,
    pub last_beat: u64,
}

impl View for MyWebSocket {
    type V = SessionView;

    closed spec fn view(&self) -> SessionView {
        SessionView { state: self.state, id: self.id, last_beat: self.last_beat }
    }
}

/// Whether `acts` is exactly the one action `a`.
pub open spec fn only(acts: Seq<SessionAction>, a: SessionAction) -> bool {
    acts.len() == 1 && acts[0] == a
}

/// What the session does on `ev` from `pre` at time `now`: `post` is the new
/// state and `acts` the actions, in order.
pub open spec fn session_step(pre: SessionView, ev: SessionEvent, now: u64, post: SessionView, acts: Seq<SessionAction>) -> bool {
    match (pre.state, ev) {
        (SessionState::Connecting, SessionEvent::Registered(id)) =>
            post == (SessionView { state: SessionState::Active, id, last_beat: pre.last_beat }) && acts.len() == 0,
        (SessionState::Connecting, SessionEvent::RegistrationFailed) =>
            post == (SessionView { state: SessionState::Closed, ..pre }) && only(acts, SessionAction::Stop),
        (SessionState::Connecting, SessionEvent::Stopped) =>
            post == (SessionView { state: SessionState::Closed, ..pre }) && acts.len() == 0,
        (SessionState::Active, SessionEvent::Ping(p)) =>
            post == (SessionView { last_beat: now, ..pre }) && acts.len() == 1
                && (acts[0] matches SessionAction::SendPong(q) && q@ == p@),
        (SessionState::Active, SessionEvent::Pong) =>
            post == (SessionView { last_beat: now, ..pre }) && acts.len() == 0,
        (SessionState::Active, SessionEvent::Close) =>
            post == (SessionView { state: SessionState::Closing, ..pre }) && acts.len() == 2
                && acts[0] == SessionAction::SendClose && acts[1] == SessionAction::Stop,
        (SessionState::Active, SessionEvent::ProtocolError) =>
            post == (SessionView { state: SessionState::Closing, ..pre }) && only(acts, SessionAction::Stop),
        (SessionState::Active, SessionEvent::Broadcast(m)) =>
            post == pre && acts.len() == 1 && (acts[0] matches SessionAction::SendText(t) && t@ == m@),
        (SessionState::Active, SessionEvent::Stopped) | (SessionState::Closing, SessionEvent::Stopped) =>
            post == (SessionView { state: SessionState::Closed, ..pre }) && only(acts, SessionAction::Leave(pre.id)),
        _ => post == pre && acts.len() == 0,
    }
}

impl MyWebSocket {
    /// A session that waits for the hub, alive as of `now`.
    pub fn new(now: u64) -> (r: MyWebSocket)
        ensures
            r@ == (SessionView { state: SessionState::Connecting, id: 0, last_beat: now }),
    {
        MyWebSocket { state: SessionState::Connecting, id: 0, last_beat: now }
    }

    /// Where the session stands.
    pub fn state(&self) -> (r: SessionState)
        ensures
            r == self@.state,
    {
        self.state
    }

    /// The id the hub gave the session (0 before it is registered).
    pub fn id(&self) -> (r: usize)
        ensures
            r == self@.id,
    {
        self.id
    }

    /// The time of the last probe or acknowledgment.
    pub fn last_beat(&self) -> (r: u64)
        ensures
            r == self@.last_beat,
    {
        self.last_beat
    }

    /// Takes event `ev` at time `now` and returns the actions it calls for.
    pub fn step(&mut self, ev: SessionEvent, now: u64) -> (acts: Vec<SessionAction>)
        ensures
            session_step(old(self)@, ev, now, final(self)@, acts@),
    {
        let mut acts: Vec<SessionAction> = Vec::new();
        match (self.state, ev) {
            (SessionState::Connecting, SessionEvent::Registered(id)) => {
                self.id = id;
                self.state = SessionState::Active;
            },
            (SessionState::Connecting, SessionEvent::RegistrationFailed) => {
                self.state = SessionState::Closed;
                acts.push(SessionAction::Stop);
            },
            (SessionState::Connecting, SessionEvent::Stopped) => {
                self.state = SessionState::Closed;
            },
            (SessionState::Active, SessionEvent::Ping(p)) => {
                self.last_beat = now;
                acts.push(SessionAction::SendPong(p));
            },
            (SessionState::Active, SessionEvent::Pong) => {
                self.last_beat = now;
            },
            (SessionState::Active, SessionEvent::Close) => {
                self.state = SessionState::Closing;
                acts.push(SessionAction::SendClose);
                acts.push(SessionAction::Stop);
            },
            (SessionState::Active, SessionEvent::ProtocolError) => {
                self.state = SessionState::Closing;
                acts.push(SessionAction::Stop);
            },
            (SessionState::Active, SessionEvent::Broadcast(m)) => {
                acts.push(SessionAction::SendText(m));
            },
            (SessionState::Active, SessionEvent::Stopped) | (SessionState::Closing, SessionEvent::Stopped) => {
                self.state = SessionState::Closed;
                acts.push(SessionAction::Leave(self.id));
            },
            _ => {},
        }
        acts
    }
}

} // verus!
