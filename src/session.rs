use vstd::prelude::*;

verus! {

/// How often a liveness probe goes to the client, in milliseconds.
pub const HEARTBEAT_INTERVAL_MS: u64 = 5000;

/// How long the client may stay silent before the channel closes, in
/// milliseconds.
pub const CLIENT_TIMEOUT_MS: u64 = 10000;

/// What happened on one live-update connection.
#[derive(PartialEq, Eq, Structural, Clone, Copy, Debug)]
pub enum SessionEvent {
    /// The probe timer fired.
    Tick,
    /// The client probed us.
    Ping,
    /// The client answered our probe.
    Pong,
    Text,
    Binary,
    /// The client asked to close.
    Close,
    /// The transport reported an error or an unexpected frame.
    Failure,
}

/// What the connection must do next.
#[derive(PartialEq, Eq, Structural, Clone, Copy, Debug)]
pub enum SessionAction {
    SendPing,
    /// Answer the client's probe with the same payload.
    SendPong,
    /// Push a fresh snapshot of the whole catalog.
    SendSnapshot,
    EchoText,
    EchoBinary,
    /// Close the connection and release it.
    Stop,
    /// Nothing: the channel is already closed.
    Ignore,
}

/// The liveness state of one connection; times are milliseconds on a
/// monotonic clock.
#[derive(PartialEq, Eq, Structural, Clone, Copy, Debug)]
pub struct LiveSession {
    pub last_heartbeat: u64,
    pub closed: bool,
}

/// Time from `since` to `now`, zero if the clock reads earlier.
pub open spec fn elapsed(now: u64, since: u64) -> int {
    if now >= since {
        now - since
    } else {
        0
    }
}

/// The transition table of a connection.
pub open spec fn step(s: LiveSession, e: SessionEvent, now: u64) -> (LiveSession, SessionAction) {
    if s.closed {
        (s, SessionAction::Ignore)
    } else {
        match e {
            SessionEvent::Tick => if elapsed(now, s.last_heartbeat) > CLIENT_TIMEOUT_MS {
                (LiveSession { closed: true, ..s }, SessionAction::Stop)
            } else {
                (s, SessionAction::SendPing)
            },
            SessionEvent::Ping => (LiveSession { last_heartbeat: now, ..s }, SessionAction::SendPong),
            SessionEvent::Pong => (
                LiveSession { last_heartbeat: now, ..s },
                SessionAction::SendSnapshot,
            ),
            SessionEvent::Text => (s, SessionAction::EchoText),
            SessionEvent::Binary => (s, SessionAction::EchoBinary),
            SessionEvent::Close => (LiveSession { closed: true, ..s }, SessionAction::Stop),
            SessionEvent::Failure => (LiveSession { closed: true, ..s }, SessionAction::Stop),
        }
    }
}

impl LiveSession {
    /// A connection that opened at `now`, active.
    pub fn new(now: u64) -> (r: LiveSession)
        ensures
            r == (LiveSession { last_heartbeat: now, closed: false }),
    {
        LiveSession { last_heartbeat: now, closed: false }
    }

    /// Takes one event at time `now` and says what to do.
    pub fn handle(&mut self, event: SessionEvent, now: u64) -> (r: SessionAction)
        ensures
            (*final(self), r) == step(*old(self), event, now),
    {
        if self.closed {
            return SessionAction::Ignore;
        }
        match event {
            SessionEvent::Tick => {
                let waited = if now >= self.last_heartbeat {
                    now - self.last_heartbeat
                } else {
                    0
                };
                if waited > CLIENT_TIMEOUT_MS {
                    self.closed = true;
                    SessionAction::Stop
                } else {
                    SessionAction::SendPing
                }
            },
            SessionEvent::Ping => {
                self.last_heartbeat = now;
                SessionAction::SendPong
            },
            SessionEvent::Pong => {
                self.last_heartbeat = now;
                SessionAction::SendSnapshot
            },
            SessionEvent::Text => SessionAction::EchoText,
            SessionEvent::Binary => SessionAction::EchoBinary,
            SessionEvent::Close | SessionEvent::Failure => {
                self.closed = true;
                SessionAction::Stop
            },
        }
    }
}

/// Once closed, a connection stays closed and does nothing, whatever comes.
pub proof fn lemma_closed_is_final(s: LiveSession, e: SessionEvent, now: u64)
    requires
        s.closed,
    ensures
        step(s, e, now).0 == s,
        step(s, e, now).1 == SessionAction::Ignore,
{
}

/// A probe that finds the client silent past the timeout closes the
/// connection; one within it sends a probe and keeps it open.
pub proof fn lemma_timeout_closes(s: LiveSession, now: u64)
    requires
        !s.closed,
    ensures
        elapsed(now, s.last_heartbeat) > CLIENT_TIMEOUT_MS ==> step(s, SessionEvent::Tick, now)
            == (LiveSession { closed: true, ..s }, SessionAction::Stop),
        elapsed(now, s.last_heartbeat) <= CLIENT_TIMEOUT_MS ==> step(s, SessionEvent::Tick, now)
            == (s, SessionAction::SendPing),
{
}

} // verus!
