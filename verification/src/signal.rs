//! Messages exchanged between endpoints and the relay while two peers set up
//! a direct transport.

use vstd::prelude::*;
use crate::protocol::SessionId;

verus! {

/// A connectivity option that one endpoint discovered and proposes to the
/// other. The relay never looks inside.
#[derive(Debug, Clone, PartialEq, Eq)]
pub struct IceCandidate {
    pub candidate: String,
    pub sdp_mid: Option<String>,
    pub sdp_m_line_index: Option<u16>,
}

/// The signaling vocabulary. Every message names the session it belongs to,
/// which is enough for the relay to find the other peer.
#[derive(Debug, Clone, PartialEq, Eq)]
pub enum SignalMessage {
    /// An endpoint asks to open or to join the session.
    SessionJoin(SessionId),
    /// The relay reports that both endpoints are in the session.
    SessionReady(SessionId),
    /// A transport offer, passed to the other endpoint as it is.
    SdpOffer(SessionId, String),
    /// A transport answer, passed to the other endpoint as it is.
    SdpAnswer(SessionId, String),
    /// A candidate of one endpoint, passed to the other as it is.
    IceCandidate(SessionId, IceCandidate),
    /// A failure, with a text that says what went wrong.
    Error(SessionId, String),
}

impl SignalMessage {
    /// The session that the message names.
    pub open spec fn spec_session_id(&self) -> SessionId {
        match self {
            SignalMessage::SessionJoin(id) => *id,
            SignalMessage::SessionReady(id) => *id,
            SignalMessage::SdpOffer(id, _) => *id,
            SignalMessage::SdpAnswer(id, _) => *id,
            SignalMessage::IceCandidate(id, _) => *id,
            SignalMessage::Error(id, _) => *id,
        }
    }

    /// Whether the relay forwards the message to the other peer untouched:
    /// true of offers, answers and candidates.
    pub open spec fn spec_is_relayed(&self) -> bool {
        match self {
            SignalMessage::SdpOffer(_, _) => true,
            SignalMessage::SdpAnswer(_, _) => true,
            SignalMessage::IceCandidate(_, _) => true,
            _ => false,
        }
    }

    /// The session that the message names.
    #[verifier::when_used_as_spec(spec_session_id)]
    pub fn session_id(&self) -> (id: SessionId)
        ensures
            id == self.spec_session_id(),
    {
        match self {
            SignalMessage::SessionJoin(id) => *id,
            SignalMessage::SessionReady(id) => *id,
            SignalMessage::SdpOffer(id, _) => *id,
            SignalMessage::SdpAnswer(id, _) => *id,
            SignalMessage::IceCandidate(id, _) => *id,
            SignalMessage::Error(id, _) => *id,
        }
    }

    /// Whether the relay forwards the message to the other peer untouched.
    #[verifier::when_used_as_spec(spec_is_relayed)]
    pub fn is_relayed(&self) -> (relayed: bool)
        ensures
            relayed == self.spec_is_relayed(),
    {
        match self {
            SignalMessage::SdpOffer(_, _) => true,
            SignalMessage::SdpAnswer(_, _) => true,
            SignalMessage::IceCandidate(_, _) => true,
            _ => false,
        }
    }
}

} // verus!
