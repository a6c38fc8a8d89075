//! The endpoint side of the handshake: a coordinator that takes the events of
//! the control connection and of the local transport one at a time and
//! answers each with the actions to perform.
//!
//! The coordinator owns no socket and no transport. Whoever does feeds it
//! every event and carries out what comes back, in order. Events from
//! different sources may arrive in any order; each is handled to completion
//! before the next.

use vstd::prelude::*;
use vstd::string::StringExecFns;
use crate::protocol::{decimal, to_decimal, SessionId, WS_PORT};
use crate::signal::{IceCandidate, SignalMessage};
use crate::transport::{ConnectionType, IceServer};

verus! {

/// Where the handshake stands.
#[derive(Debug, Clone, Copy, PartialEq, Eq, Structural)]
pub enum HandshakeState {
    /// Constructed; the control connection is not open yet.
    Idle,
    /// The control connection is open and the join was sent.
    AwaitingPeer,
    /// The peer is there; descriptions and candidates are being exchanged.
    Negotiating,
    /// The transport is ready and carries application data.
    Open,
    /// The transport failed or the control connection was lost.
    Closed,
    /// The negotiation failed or the relay reported an error.
    Error,
}

/// Which of the two channels of a handshake an event comes from.
#[derive(Debug, Clone, Copy, PartialEq, Eq, Structural)]
pub enum ChannelSide {
    /// The channel that this endpoint created.
    Local,
    /// The channel that the peer created and this endpoint received.
    Remote,
}

/// What the outside world reports to the coordinator.
#[derive(Debug, Clone, PartialEq, Eq)]
pub enum Event {
    /// The control connection is open.
    ControlOpened,
    /// The control connection was lost.
    ControlClosed,
    /// A message arrived over the control connection.
    Signal(SignalMessage),
    /// The local transport made its offer and took it as local description.
    OfferCreated(String),
    /// The local transport made its answer and took it as local description.
    AnswerCreated(String),
    /// The local transport found a candidate.
    CandidateGathered(IceCandidate),
    /// The local transport could not make or apply a description.
    NegotiationFailed,
    /// A channel that the peer created arrived.
    ChannelOffered,
    /// The channel on the given side is ready.
    ChannelOpened(ChannelSide),
    /// The transport reported an error.
    ChannelFailed,
    /// A payload arrived over the channel on the given side.
    ChannelMessage(ChannelSide, Vec<u8>),
}

/// What the coordinator asks the outside world to do.
#[derive(Debug, Clone, PartialEq, Eq)]
pub enum Action {
    /// Send the message over the control connection.
    SendSignal(SignalMessage),
    /// Make an offer and take it as local description.
    CreateOffer,
    /// Take the offer as remote description, make an answer and take that as
    /// local description.
    CreateAnswer(String),
    /// Take the answer as remote description.
    AcceptAnswer(String),
    /// Hand the peer's candidate to the local transport.
    AddCandidate(IceCandidate),
    /// Use the channel that the peer created in place of the local one.
    AdoptChannel,
    /// Tell the application that the transport is ready.
    NotifyOpen,
    /// Hand a received payload to the application.
    NotifyMessage(Vec<u8>),
    /// Write the payload to the transport.
    Transmit(Vec<u8>),
}

/// How to create the data channel: unordered, with a bound on the number of
/// times a lost packet is sent again.
#[derive(Debug, Clone, PartialEq, Eq)]
pub struct ChannelSetup {
    pub label: String,
    pub max_retransmits: u16,
    pub ordered: bool,
}

/// The part of the coordinator that events change.
#[derive(Debug, Clone, Copy, PartialEq, Eq)]
pub struct Progress {
    pub state: HandshakeState,
    /// Whether `start` was called. Before that no event is listened to.
    pub started: bool,
    /// The channel whose events count: the local one until the peer's arrives.
    pub wired: ChannelSide,
}

impl Progress {
    /// A coordinator that was constructed and not started.
    pub open spec fn initial() -> Progress {
        Progress { state: HandshakeState::Idle, started: false, wired: ChannelSide::Local }
    }

    /// A coordinator right after `start`.
    pub open spec fn begun() -> Progress {
        Progress { state: HandshakeState::Idle, started: true, wired: ChannelSide::Local }
    }

    /// The handshake has ended, well or badly, and nothing will change it.
    pub open spec fn is_terminal(self) -> bool {
        self.state is Closed || self.state is Error
    }

    /// Events are handled: the coordinator was started and has not ended.
    pub open spec fn listens(self) -> bool {
        self.started && !self.is_terminal()
    }

    /// The control connection is open and the handshake has not ended.
    pub open spec fn in_session(self) -> bool {
        self.started && (self.state is AwaitingPeer || self.state is Negotiating
            || self.state is Open)
    }

    /// The control connection is open and the transport is not ready yet.
    pub open spec fn is_pending(self) -> bool {
        self.started && (self.state is AwaitingPeer || self.state is Negotiating)
    }

    /// The progress after `event`.
    pub open spec fn after(self, event: Event) -> Progress {
        if !self.listens() {
            self
        } else {
            match event {
                Event::ControlOpened => if self.state is Idle {
                    Progress { state: HandshakeState::AwaitingPeer, ..self }
                } else {
                    self
                },
                Event::ControlClosed => Progress { state: HandshakeState::Closed, ..self },
                Event::ChannelFailed => Progress { state: HandshakeState::Closed, ..self },
                Event::NegotiationFailed => Progress { state: HandshakeState::Error, ..self },
                Event::Signal(message) => match message {
                    SignalMessage::Error(_, _) => Progress { state: HandshakeState::Error, ..self },
                    SignalMessage::SessionReady(_) => if self.state is AwaitingPeer {
                        Progress { state: HandshakeState::Negotiating, ..self }
                    } else {
                        self
                    },
                    SignalMessage::SdpOffer(_, _) => if self.state is AwaitingPeer {
                        Progress { state: HandshakeState::Negotiating, ..self }
                    } else {
                        self
                    },
                    SignalMessage::SdpAnswer(_, _) => if self.state is AwaitingPeer {
                        Progress { state: HandshakeState::Negotiating, ..self }
                    } else {
                        self
                    },
                    _ => self,
                },
                Event::ChannelOffered => if self.is_pending() {
                    Progress { wired: ChannelSide::Remote, ..self }
                } else {
                    self
                },
                Event::ChannelOpened(side) => if self.is_pending() && side == self.wired {
                    Progress { state: HandshakeState::Open, ..self }
                } else {
                    self
                },
                _ => self,
            }
        }
    }

    /// The actions that `event` calls for, in the session `session`.
    pub open spec fn reactions(self, session: SessionId, event: Event) -> Seq<Action> {
        if !self.listens() {
            Seq::empty()
        } else {
            match event {
                Event::ControlOpened => if self.state is Idle {
                    seq![Action::SendSignal(SignalMessage::SessionJoin(session))]
                } else {
                    Seq::empty()
                },
                Event::Signal(message) => if !self.in_session() {
                    Seq::empty()
                } else {
                    match message {
                        SignalMessage::SessionReady(_) => if self.state is AwaitingPeer {
                            seq![Action::CreateOffer]
                        } else {
                            Seq::empty()
                        },
                        SignalMessage::SdpOffer(_, offer) => seq![Action::CreateAnswer(offer)],
                        SignalMessage::SdpAnswer(_, answer) => seq![Action::AcceptAnswer(answer)],
                        SignalMessage::IceCandidate(_, candidate) => seq![
                            Action::AddCandidate(candidate),
                        ],
                        _ => Seq::empty(),
                    }
                },
                Event::OfferCreated(offer) => if self.in_session() {
                    seq![Action::SendSignal(SignalMessage::SdpOffer(session, offer))]
                } else {
                    Seq::empty()
                },
                Event::AnswerCreated(answer) => if self.in_session() {
                    seq![Action::SendSignal(SignalMessage::SdpAnswer(session, answer))]
                } else {
                    Seq::empty()
                },
                Event::CandidateGathered(candidate) => if self.in_session() {
                    seq![Action::SendSignal(SignalMessage::IceCandidate(session, candidate))]
                } else {
                    Seq::empty()
                },
                Event::ChannelOffered => if self.is_pending() {
                    seq![Action::AdoptChannel]
                } else {
                    Seq::empty()
                },
                Event::ChannelOpened(side) => if self.is_pending() && side == self.wired {
                    seq![Action::NotifyOpen]
                } else {
                    Seq::empty()
                },
                Event::ChannelMessage(side, payload) => if self.state is Open && side
                    == self.wired {
                    seq![Action::NotifyMessage(payload)]
                } else {
                    Seq::empty()
                },
                _ => Seq::empty(),
            }
        }
    }

    /// What a request to send `payload` comes to: the payload goes to the
    /// transport if it is open, and is dropped otherwise.
    pub open spec fn transmission(self, payload: Vec<u8>) -> Option<Action> {
        if self.started && self.state is Open {
            Some(Action::Transmit(payload))
        } else {
            None
        }
    }
}

/// The progress after a run of events, taken in order.
pub open spec fn progress_after(start: Progress, events: Seq<Event>) -> Progress
    decreases events.len(),
{
    if events.len() == 0 {
        start
    } else {
        progress_after(start, events.drop_last()).after(events.last())
    }
}

/// How many times a run of events, taken in order, has the application told
/// that the transport is ready.
pub open spec fn times_opened(start: Progress, session: SessionId, events: Seq<Event>) -> nat
    decreases events.len(),
{
    if events.len() == 0 {
        0
    } else {
        let earlier = times_opened(start, session, events.drop_last());
        let then = progress_after(start, events.drop_last());
        if then.reactions(session, events.last()) == seq![Action::NotifyOpen] {
            earlier + 1
        } else {
            earlier
        }
    }
}

/// Address of the relay's endpoint for pairs of peers on `hostname`.
pub open spec fn relay_address(hostname: Seq<char>) -> Seq<char> {
    "ws://"@ + hostname + ":"@ + decimal(WS_PORT as nat) + "/one-to-one"@
}

/// One of two equal peers of a session: the coordinator of its handshake.
///
/// It is made in two steps, `new` and `start`, so that the callbacks of the
/// application can refer to it. After `start` it is fed with events through
/// `handle`; `send_message` is for the application's payloads.
#[derive(Debug, Clone)]
pub struct NetworkManager {
    session_id: SessionId,
    hostname: String,
    connection_type: ConnectionType,
    progress: Progress,
}

impl NetworkManager {
    /// The session that the coordinator joins.
    pub closed spec fn session(&self) -> SessionId {
        self.session_id
    }

    /// The host of the relay.
    pub closed spec fn host(&self) -> Seq<char> {
        self.hostname@
    }

    /// The kind of peer connection.
    pub closed spec fn connection(&self) -> ConnectionType {
        self.connection_type
    }

    /// Where the handshake stands.
    pub closed spec fn progress(&self) -> Progress {
        self.progress
    }

    /// The coordinator as it was, but for its progress.
    pub open spec fn same_setup(&self, other: &NetworkManager) -> bool {
        &&& self.session() == other.session()
        &&& self.host() == other.host()
        &&& self.connection() == other.connection()
    }

    /// A coordinator for session `session_id` over the relay on `hostname`.
    /// Nothing is sent or received before `start`.
    pub fn new(hostname: &str, session_id: SessionId, connection_type: ConnectionType) -> (manager:
        Self)
        ensures
            manager.session() == session_id,
            manager.host() == hostname@,
            manager.connection() == connection_type,
            manager.progress() == Progress::initial(),
    {
        NetworkManager {
            session_id,
            hostname: String::from_str(hostname),
            connection_type,
            progress: Progress {
                state: HandshakeState::Idle,
                started: false,
                wired: ChannelSide::Local,
            },
        }
    }

    /// The address at which the control connection is opened.
    pub fn relay_url(&self) -> (url: String)
        ensures
            url@ == relay_address(self.host()),
    {
        let port = to_decimal(WS_PORT as u128);
        let mut url = String::from_str("ws://");
        url.append(self.hostname.as_str());
        url.append(":");
        url.append(port.as_str());
        url.append("/one-to-one");
        url
    }

    /// The services that the peer connection is set up with.
    pub fn ice_servers(&self) -> (servers: Vec<IceServer>)
        ensures
            servers@.map_values(|server: IceServer| server@)
                == self.connection().spec_ice_servers(),
    {
        self.connection_type.ice_servers()
    }

    /// The session that the coordinator joins.
    pub fn session_id(&self) -> (id: SessionId)
        ensures
            id == self.session(),
    {
        self.session_id
    }

    /// Where the handshake stands.
    pub fn state(&self) -> (state: HandshakeState)
        ensures
            state == self.progress().state,
    {
        self.progress.state
    }

    /// Begins the handshake. The first call says how to create the data
    /// channel: labelled with the session's identifier, unordered, and with
    /// at most `max_retransmits` repetitions of a lost packet. From then on
    /// events are listened to. A later call changes nothing and returns
    /// `None`.
    pub fn start(&mut self, max_retransmits: u16) -> (setup: Option<ChannelSetup>)
        ensures
            final(self).same_setup(old(self)),
            final(self).progress() == (Progress { started: true, ..old(self).progress() }),
            setup is Some <==> !old(self).progress().started,
            match setup {
                Some(channel) => {
                    &&& channel.label@ == old(self).session().text()
                    &&& channel.max_retransmits == max_retransmits
                    &&& !channel.ordered
                },
                None => true,
            },
    {
        if self.progress.started {
            None
        } else {
            self.progress.started = true;
            Some(ChannelSetup { label: self.session_id.to_string(), max_retransmits, ordered: false })
        }
    }

    /// Takes one event and says what to do about it.
    pub fn handle(&mut self, event: Event) -> (actions: Vec<Action>)
        ensures
            final(self).same_setup(old(self)),
            final(self).progress() == old(self).progress().after(event),
            actions@ == old(self).progress().reactions(old(self).session(), event),
    {
        let mut actions: Vec<Action> = Vec::new();
        let ghost before = self.progress;
        let ghost expected = before.reactions(self.session_id, event);
        let state = self.progress.state;
        let listens = self.progress.started && state != HandshakeState::Closed && state
            != HandshakeState::Error;
        if !listens {
            return actions;
        }
        let in_session = state == HandshakeState::AwaitingPeer || state
            == HandshakeState::Negotiating || state == HandshakeState::Open;
        let pending = state == HandshakeState::AwaitingPeer || state
            == HandshakeState::Negotiating;
        match event {
            Event::ControlOpened => {
                if state == HandshakeState::Idle {
                    self.progress.state = HandshakeState::AwaitingPeer;
                    actions.push(Action::SendSignal(SignalMessage::SessionJoin(self.session_id)));
                }
            },
            Event::ControlClosed => {
                self.progress.state = HandshakeState::Closed;
            },
            Event::ChannelFailed => {
                self.progress.state = HandshakeState::Closed;
            },
            Event::NegotiationFailed => {
                self.progress.state = HandshakeState::Error;
            },
            Event::Signal(message) => {
                match message {
                    SignalMessage::Error(_, _) => {
                        self.progress.state = HandshakeState::Error;
                    },
                    SignalMessage::SessionReady(_) => {
                        if state == HandshakeState::AwaitingPeer {
                            self.progress.state = HandshakeState::Negotiating;
                            actions.push(Action::CreateOffer);
                        }
                    },
                    SignalMessage::SdpOffer(_, offer) => {
                        if state == HandshakeState::AwaitingPeer {
                            self.progress.state = HandshakeState::Negotiating;
                        }
                        if in_session {
                            actions.push(Action::CreateAnswer(offer));
                        }
                    },
                    SignalMessage::SdpAnswer(_, answer) => {
                        if state == HandshakeState::AwaitingPeer {
                            self.progress.state = HandshakeState::Negotiating;
                        }
                        if in_session {
                            actions.push(Action::AcceptAnswer(answer));
                        }
                    },
                    SignalMessage::IceCandidate(_, candidate) => {
                        if in_session {
                            actions.push(Action::AddCandidate(candidate));
                        }
                    },
                    SignalMessage::SessionJoin(_) => {},
                }
            },
            Event::OfferCreated(offer) => {
                if in_session {
                    actions.push(
                        Action::SendSignal(SignalMessage::SdpOffer(self.session_id, offer)),
                    );
                }
            },
            Event::AnswerCreated(answer) => {
                if in_session {
                    actions.push(
                        Action::SendSignal(SignalMessage::SdpAnswer(self.session_id, answer)),
                    );
                }
            },
            Event::CandidateGathered(candidate) => {
                if in_session {
                    actions.push(
                        Action::SendSignal(SignalMessage::IceCandidate(self.session_id, candidate)),
                    );
                }
            },
            Event::ChannelOffered => {
                if pending {
                    self.progress.wired = ChannelSide::Remote;
                    actions.push(Action::AdoptChannel);
                }
            },
            Event::ChannelOpened(side) => {
                if pending && side == self.progress.wired {
                    self.progress.state = HandshakeState::Open;
                    actions.push(Action::NotifyOpen);
                }
            },
            Event::ChannelMessage(side, payload) => {
                if state == HandshakeState::Open && side == self.progress.wired {
                    actions.push(Action::NotifyMessage(payload));
                }
            },
        }
        assert(actions@ =~= expected);
        actions
    }

    /// Sends `payload` to the other end of the connection: says to write it
    /// to the transport if the transport is open. Before that, and after the
    /// handshake has ended, the payload is dropped and nothing is kept for
    /// later.
    pub fn send_message(&self, payload: Vec<u8>) -> (action: Option<Action>)
        ensures
            action == self.progress().transmission(payload),
    {
        if self.progress.started && self.progress.state == HandshakeState::Open {
            Some(Action::Transmit(payload))
        } else {
            None
        }
    }
}

} // verus!
