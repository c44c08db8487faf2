use crate::error::AppError;
use crate::event::ClientEvent;
use vstd::prelude::*;

verus! {

/// How often a liveness probe is sent, in milliseconds.
pub const HEARTBEAT_INTERVAL_MS: u64 = 5000;

/// How long a connection may stay silent before it is closed, in milliseconds.
pub const CLIENT_TIMEOUT_MS: u64 = 10000;

/// The lifecycle of a connection session.
#[derive(PartialEq, Eq, Structural, Clone, Copy, Debug)]
pub enum Phase {
    Connecting,
    Authenticated,
    Active,
    Closing,
    Closed,
}

/// The kinds of inbound transport frame.
#[derive(PartialEq, Eq, Structural, Clone, Copy, Debug)]
pub enum FrameKind {
    Ping,
    Pong,
    Text,
    Close,
    Other,
}

/// What the session writes back for an inbound frame.
#[derive(PartialEq, Eq, Structural, Clone, Copy, Debug)]
pub enum FrameReply {
    /// Answer a probe.
    Pong,
    /// Echo the close and shut the transport.
    Close,
    Nothing,
}

/// What the heartbeat task does after one interval.
#[derive(PartialEq, Eq, Structural, Clone, Copy, Debug)]
pub enum HeartbeatAction {
    /// Send a liveness probe and wait another interval.
    Ping,
    /// Tell the registry that the connection is gone, close the transport
    /// and stop.
    Disconnect(usize),
    /// Stop: the session is no longer active.
    Stop,
}

/// A session as a value.
#[derive(PartialEq, Eq, Structural, Clone, Copy, Debug)]
pub struct SessionState {
    pub id: usize,
    /// Whether the registry has given the session its id.
    pub identified: bool,
    /// When liveness evidence was last seen, in milliseconds.
    pub hb: u64,
    pub phase: Phase,
    pub timeout_ms: u64,
}

/// Milliseconds from `since` to `now`; a clock that went back counts as none.
pub open spec fn elapsed(now: u64, since: u64) -> nat {
    if now >= since { (now - since) as nat } else { 0 }
}

/// One thing that happens to a session.
pub enum SessionInput {
    Authenticate(usize),
    Activate(u64),
    Frame(FrameKind, u64),
    Tick(u64),
    Cancel,
    Finish,
}

impl SessionState {
    pub open spec fn authenticate_spec(self, id: usize) -> SessionState {
        if self.phase == Phase::Connecting {
            SessionState { id, identified: true, phase: Phase::Authenticated, ..self }
        } else {
            self
        }
    }

    pub open spec fn activate_spec(self, now: u64) -> SessionState {
        if self.phase == Phase::Authenticated {
            SessionState { hb: now, phase: Phase::Active, ..self }
        } else {
            self
        }
    }

    /// Any inbound frame is liveness evidence; a close frame starts closing.
    pub open spec fn frame_spec(self, kind: FrameKind, now: u64) -> (SessionState, FrameReply) {
        if self.phase != Phase::Active {
            (self, FrameReply::Nothing)
        } else {
            let hb = if now > self.hb { now } else { self.hb };
            let seen = SessionState { hb, ..self };
            match kind {
                FrameKind::Ping => (seen, FrameReply::Pong),
                FrameKind::Close => (SessionState { phase: Phase::Closing, ..seen }, FrameReply::Close),
                _ => (seen, FrameReply::Nothing),
            }
        }
    }

    /// Whether a heartbeat at `now` finds the session timed out.
    pub open spec fn timed_out(self, now: u64) -> bool {
        self.phase == Phase::Active && elapsed(now, self.hb) > self.timeout_ms
    }

    pub open spec fn tick_spec(self, now: u64) -> (SessionState, HeartbeatAction) {
        if self.phase != Phase::Active {
            (self, HeartbeatAction::Stop)
        } else if self.timed_out(now) {
            (SessionState { phase: Phase::Closing, ..self }, HeartbeatAction::Disconnect(self.id))
        } else {
            (self, HeartbeatAction::Ping)
        }
    }

    /// The frame task ended: whatever the phase, the session starts closing.
    pub open spec fn cancel_spec(self) -> SessionState {
        if self.phase == Phase::Closed {
            self
        } else {
            SessionState { phase: Phase::Closing, ..self }
        }
    }

    /// Teardown ran: a closing session is closed. The id whose channel and
    /// directory entry are released is returned once, on that transition,
    /// if the session had an identity.
    pub open spec fn finish_spec(self) -> (SessionState, Option<usize>) {
        if self.phase == Phase::Closing {
            (SessionState { phase: Phase::Closed, ..self }, if self.identified { Some(self.id) } else { None })
        } else {
            (self, None)
        }
    }

    /// One step of the session.
    pub open spec fn next(self, input: SessionInput) -> SessionState {
        match input {
            SessionInput::Authenticate(id) => self.authenticate_spec(id),
            SessionInput::Activate(now) => self.activate_spec(now),
            SessionInput::Frame(kind, now) => self.frame_spec(kind, now).0,
            SessionInput::Tick(now) => self.tick_spec(now).0,
            SessionInput::Cancel => self.cancel_spec(),
            SessionInput::Finish => self.finish_spec().0,
        }
    }

    /// Whether a step notifies the registry of a disconnect.
    pub open spec fn notifies(self, input: SessionInput) -> bool {
        match input {
            SessionInput::Tick(now) => self.tick_spec(now).1 is Disconnect,
            _ => false,
        }
    }

    /// How many disconnect notifications a run of inputs produces.
    pub open spec fn disconnects(self, inputs: Seq<SessionInput>) -> nat
        decreases inputs.len(),
    {
        if inputs.len() == 0 {
            0
        } else {
            (if self.notifies(inputs[0]) { 1nat } else { 0nat }) + self.next(inputs[0]).disconnects(inputs.drop_first())
        }
    }
}

/// A session that is closing or closed never notifies a disconnect again,
/// whatever happens to it.
pub proof fn lemma_no_disconnect_after_closing(s: SessionState, inputs: Seq<SessionInput>)
    requires
        s.phase == Phase::Closing || s.phase == Phase::Closed,
    ensures
        s.disconnects(inputs) == 0,
    decreases inputs.len(),
{
    if inputs.len() > 0 {
        lemma_no_disconnect_after_closing(s.next(inputs[0]), inputs.drop_first());
    }
}

/// Over any run of events, from any state, the registry is notified of a
/// disconnect at most once.
pub proof fn lemma_disconnect_at_most_once(s: SessionState, inputs: Seq<SessionInput>)
    ensures
        s.disconnects(inputs) <= 1,
    decreases inputs.len(),
{
    if inputs.len() > 0 {
        if s.notifies(inputs[0]) {
            lemma_no_disconnect_after_closing(s.next(inputs[0]), inputs.drop_first());
        } else {
            lemma_disconnect_at_most_once(s.next(inputs[0]), inputs.drop_first());
        }
    }
}

/// When a heartbeat finds an active session silent for longer than its
/// timeout, the session moves to closing and, over any run of events that
/// starts with that heartbeat, the registry is notified exactly once.
pub proof fn lemma_timeout_disconnects_once(s: SessionState, now: u64, rest: Seq<SessionInput>)
    requires
        s.phase == Phase::Active,
        elapsed(now, s.hb) > s.timeout_ms,
    ensures
        s.tick_spec(now).0.phase == Phase::Closing,
        s.tick_spec(now).1 == HeartbeatAction::Disconnect(s.id),
        s.disconnects(seq![SessionInput::Tick(now)] + rest) == 1,
{
    let inputs = seq![SessionInput::Tick(now)] + rest;
    assert(inputs[0] == SessionInput::Tick(now));
    assert(inputs.drop_first() =~= rest);
    lemma_no_disconnect_after_closing(s.tick_spec(now).0, rest);
}

/// The state of one connection session: its phase, identity and the time
/// liveness evidence was last seen.
pub struct WsSession {
    state: SessionState,
}

impl View for WsSession {
    type V = SessionState;

    closed spec fn view(&self) -> SessionState {
        self.state
    }
}

impl WsSession {
    /// A connecting session that closes after `timeout_ms` of silence.
    pub fn new(timeout_ms: u64) -> (r: WsSession)
        ensures
            r@.phase == Phase::Connecting,
            !r@.identified,
            r@.timeout_ms == timeout_ms,
    {
        WsSession { state: SessionState { id: 0, identified: false, hb: 0, phase: Phase::Connecting, timeout_ms } }
    }

    /// The registry answered with connection id `id`.
    pub fn authenticate(&mut self, id: usize) -> (r: bool)
        ensures
            final(self)@ == old(self)@.authenticate_spec(id),
            r == (old(self)@.phase == Phase::Connecting),
    {
        if self.state.phase == Phase::Connecting {
            self.state = SessionState { id, identified: true, phase: Phase::Authenticated, ..self.state };
            true
        } else {
            false
        }
    }

    /// The outbound channel is registered and the heartbeat started at `now`.
    pub fn activate(&mut self, now: u64) -> (r: bool)
        ensures
            final(self)@ == old(self)@.activate_spec(now),
            r == (old(self)@.phase == Phase::Authenticated),
    {
        if self.state.phase == Phase::Authenticated {
            self.state = SessionState { hb: now, phase: Phase::Active, ..self.state };
            true
        } else {
            false
        }
    }

    /// Handles an inbound frame received at `now`.
    pub fn on_frame(&mut self, kind: FrameKind, now: u64) -> (r: FrameReply)
        ensures
            (final(self)@, r) == old(self)@.frame_spec(kind, now),
    {
        if self.state.phase != Phase::Active {
            return FrameReply::Nothing;
        }
        if now > self.state.hb {
            self.state.hb = now;
        }
        match kind {
            FrameKind::Ping => FrameReply::Pong,
            FrameKind::Close => {
                self.state.phase = Phase::Closing;
                FrameReply::Close
            },
            _ => FrameReply::Nothing,
        }
    }

    /// One heartbeat interval ended at `now`.
    pub fn tick(&mut self, now: u64) -> (r: HeartbeatAction)
        ensures
            (final(self)@, r) == old(self)@.tick_spec(now),
    {
        if self.state.phase != Phase::Active {
            return HeartbeatAction::Stop;
        }
        let silent = if now >= self.state.hb { now - self.state.hb } else { 0 };
        if silent > self.state.timeout_ms {
            self.state.phase = Phase::Closing;
            HeartbeatAction::Disconnect(self.state.id)
        } else {
            HeartbeatAction::Ping
        }
    }

    /// The connection's frame task ended.
    pub fn cancel(&mut self)
        ensures
            final(self)@ == old(self)@.cancel_spec(),
    {
        if self.state.phase != Phase::Closed {
            self.state.phase = Phase::Closing;
        }
    }

    /// Teardown ran; returns the id to release, once.
    pub fn finish(&mut self) -> (r: Option<usize>)
        ensures
            (final(self)@, r) == old(self)@.finish_spec(),
    {
        if self.state.phase == Phase::Closing {
            self.state.phase = Phase::Closed;
            if self.state.identified {
                Some(self.state.id)
            } else {
                None
            }
        } else {
            None
        }
    }

    pub fn id(&self) -> (r: usize)
        ensures
            r == self@.id,
    {
        self.state.id
    }

    pub fn phase(&self) -> (r: Phase)
        ensures
            r == self@.phase,
    {
        self.state.phase
    }

    /// When liveness evidence was last seen.
    pub fn last_seen(&self) -> (r: u64)
        ensures
            r == self@.hb,
    {
        self.state.hb
    }
}

/// The identity in the registry's answer to a connection. Any other
/// answer, or none, fails authentication, which closes the connection.
pub fn expect_identity(reply: Option<ClientEvent>) -> (r: Result<(usize, String), AppError>)
    ensures
        match reply {
            Some(ClientEvent::Id(id, token)) => r matches Ok((i, t)) && i == id && t == token,
            _ => r matches Err(e) && e is AuthenticationFailed,
        },
{
    match reply {
        Some(ClientEvent::Id(id, token)) => Ok((id, token)),
        _ => Err(AppError::AuthenticationFailed),
    }
}

} // verus!
