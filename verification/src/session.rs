//! The per-connection session state machine.
//!
//! One session relays the fan-out bus to one network peer. The transport
//! work — handshaking, writing frames, reading peer frames, closing — runs
//! outside this crate; every completion or failure of that work comes back
//! here as a [`SessionInput`], and this machine decides the next state and
//! the next action, so the whole connection lifecycle is decided by
//! verified code.
use vstd::prelude::*;

use crate::bus::FanoutBus;
use crate::bus::SubscriberModel;

verus! {

/// The lifecycle of one inbound connection.
#[derive(Clone, Copy, Debug, PartialEq, Eq, Structural)]
pub enum SessionState {
    /// The raw transport is accepted; nothing has happened yet.
    Accepted,
    /// The protocol upgrade handshake is in flight.
    Handshaking,
    /// The session is live: relaying bus frames and answering the peer.
    Open,
    /// A best-effort clean close is in flight, bounded by a grace timeout.
    Closing,
    /// Terminal: the subscription and the transport are released.
    Closed,
}

/// One thing the outside world reports to a session.
#[derive(Clone, Debug, PartialEq)]
pub enum SessionInput {
    /// The session is being started.
    Start,
    /// The protocol upgrade handshake completed.
    HandshakeSucceeded,
    /// The protocol upgrade handshake failed: terminal for the connection,
    /// no retry.
    HandshakeFailed,
    /// The session's bus subscription handed over a frame to relay.
    BusFrame(String),
    /// Writing to the peer failed: the peer is likely gone.
    SendFailed,
    /// The peer sent a text or binary frame. This channel is output-only:
    /// peer data is ignored.
    PeerData,
    /// The peer sent a liveness ping with this payload.
    PeerPing(Vec<u8>),
    /// The peer sent an unsolicited pong.
    PeerPong,
    /// The peer sent a close frame.
    PeerClose,
    /// Reading from the peer failed.
    PeerReadError,
    /// The best-effort clean close completed.
    CloseFinished,
    /// The close grace period expired before the clean close completed.
    CloseTimedOut,
}

/// What a session asks the outside world to do next.
#[derive(Clone, Debug, PartialEq)]
pub enum SessionAction {
    /// Nothing to do.
    Idle,
    /// Perform the protocol upgrade handshake.
    BeginHandshake,
    /// Write this frame to the peer as text.
    SendText(String),
    /// Answer a ping with a pong carrying this payload.
    SendPong(Vec<u8>),
    /// Start the best-effort clean close of the transport.
    BeginClose,
    /// The session is over: release the subscription and the transport.
    Release,
}

/// The whole transition relation of a session, one case per state and
/// input. An input that cannot arise in a state leaves the state unchanged
/// and asks for nothing.
pub open spec fn spec_session_step(s: SessionState, i: SessionInput) -> (
    SessionState,
    SessionAction,
) {
    match s {
        SessionState::Accepted => match i {
            SessionInput::Start => (SessionState::Handshaking, SessionAction::BeginHandshake),
            _ => (s, SessionAction::Idle),
        },
        SessionState::Handshaking => match i {
            SessionInput::HandshakeSucceeded => (SessionState::Open, SessionAction::Idle),
            SessionInput::HandshakeFailed => (SessionState::Closed, SessionAction::Release),
            _ => (s, SessionAction::Idle),
        },
        SessionState::Open => match i {
            SessionInput::BusFrame(m) => (SessionState::Open, SessionAction::SendText(m)),
            SessionInput::SendFailed => (SessionState::Closing, SessionAction::BeginClose),
            SessionInput::PeerData => (SessionState::Open, SessionAction::Idle),
            SessionInput::PeerPing(d) => (SessionState::Open, SessionAction::SendPong(d)),
            SessionInput::PeerPong => (SessionState::Open, SessionAction::Idle),
            SessionInput::PeerClose => (SessionState::Closing, SessionAction::BeginClose),
            SessionInput::PeerReadError => (SessionState::Closing, SessionAction::BeginClose),
            _ => (s, SessionAction::Idle),
        },
        SessionState::Closing => match i {
            SessionInput::CloseFinished => (SessionState::Closed, SessionAction::Release),
            SessionInput::CloseTimedOut => (SessionState::Closed, SessionAction::Release),
            _ => (s, SessionAction::Idle),
        },
        SessionState::Closed => (s, SessionAction::Idle),
    }
}

/// Decides one session step: exactly the transition relation, nothing else.
pub fn session_step(s: SessionState, i: SessionInput) -> (r: (SessionState, SessionAction))
    ensures
        r == spec_session_step(s, i),
{
    match s {
        SessionState::Accepted => match i {
            SessionInput::Start => (SessionState::Handshaking, SessionAction::BeginHandshake),
            _ => (s, SessionAction::Idle),
        },
        SessionState::Handshaking => match i {
            SessionInput::HandshakeSucceeded => (SessionState::Open, SessionAction::Idle),
            SessionInput::HandshakeFailed => (SessionState::Closed, SessionAction::Release),
            _ => (s, SessionAction::Idle),
        },
        SessionState::Open => match i {
            SessionInput::BusFrame(m) => (SessionState::Open, SessionAction::SendText(m)),
            SessionInput::SendFailed => (SessionState::Closing, SessionAction::BeginClose),
            SessionInput::PeerData => (SessionState::Open, SessionAction::Idle),
            SessionInput::PeerPing(d) => (SessionState::Open, SessionAction::SendPong(d)),
            SessionInput::PeerPong => (SessionState::Open, SessionAction::Idle),
            SessionInput::PeerClose => (SessionState::Closing, SessionAction::BeginClose),
            SessionInput::PeerReadError => (SessionState::Closing, SessionAction::BeginClose),
            _ => (s, SessionAction::Idle),
        },
        SessionState::Closing => match i {
            SessionInput::CloseFinished => (SessionState::Closed, SessionAction::Release),
            SessionInput::CloseTimedOut => (SessionState::Closed, SessionAction::Release),
            _ => (s, SessionAction::Idle),
        },
        SessionState::Closed => (s, SessionAction::Idle),
    }
}

/// One live connection: its lifecycle state and its private bus
/// subscription. Sessions share nothing else.
pub struct Session {
    pub state: SessionState,
    pub subscription: usize,
}

impl Session {
    /// A freshly accepted connection holding the given subscription.
    pub fn accept(subscription: usize) -> (s: Session)
        ensures
            s.state == SessionState::Accepted,
            s.subscription == subscription,
    {
        Session { state: SessionState::Accepted, subscription }
    }

    /// Advances the session by one input and keeps the bus in step: the
    /// moment the session is over, its subscription is torn down, so no
    /// later publish can reach it.
    pub fn advance(&mut self, bus: &mut FanoutBus, input: SessionInput) -> (a: SessionAction)
        requires
            old(bus).well_formed(),
            old(self).subscription < old(bus)@.subs.len(),
        ensures
            final(self).state == spec_session_step(old(self).state, input).0,
            a == spec_session_step(old(self).state, input).1,
            final(self).subscription == old(self).subscription,
            final(bus).well_formed(),
            final(bus)@.cap == old(bus)@.cap,
            final(bus)@.subs.len() == old(bus)@.subs.len(),
            !(a is Release) ==> final(bus)@ == old(bus)@,
            a is Release ==> {
                &&& final(bus)@.subs[old(self).subscription as int] == (SubscriberModel {
                    active: false,
                    queue: Seq::<Seq<char>>::empty(),
                })
                &&& forall|j: int|
                    0 <= j < old(bus)@.subs.len() && j != old(self).subscription
                        ==> final(bus)@.subs[j] == old(bus)@.subs[j]
            },
            crate::bus::bus_model_wf(old(bus)@) ==> crate::bus::bus_model_wf(final(bus)@),
    {
        let (next, action) = session_step(self.state, input);
        self.state = next;
        let released = match &action {
            SessionAction::Release => true,
            _ => false,
        };
        if released {
            bus.unsubscribe(self.subscription);
        }
        action
    }
}

/// A close frame received mid-session tears the session down within the
/// grace period: `Open` leaves for `Closing` at once, asking for the clean
/// close, and whether that close completes or times out, the next step is
/// the terminal `Closed`, releasing the subscription.
pub proof fn lemma_peer_close_reaches_closed()
    ensures
        spec_session_step(SessionState::Open, SessionInput::PeerClose) == (
            SessionState::Closing,
            SessionAction::BeginClose,
        ),
        spec_session_step(SessionState::Closing, SessionInput::CloseFinished) == (
            SessionState::Closed,
            SessionAction::Release,
        ),
        spec_session_step(SessionState::Closing, SessionInput::CloseTimedOut) == (
            SessionState::Closed,
            SessionAction::Release,
        ),
{
}

/// `Closed` is terminal: no input moves a closed session, and nothing more
/// is ever asked of the outside world.
pub proof fn lemma_closed_is_terminal(i: SessionInput)
    ensures
        spec_session_step(SessionState::Closed, i) == (SessionState::Closed, SessionAction::Idle),
{
}

} // verus!
