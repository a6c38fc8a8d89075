//! How an endpoint reaches its peer: directly, with the help of a STUN
//! service, or with a TURN relay to fall back on.

use vstd::prelude::*;
use vstd::string::StringExecFns;

verus! {

/// Specifies what kind of peer connection to create.
#[derive(Debug, Clone)]
pub enum ConnectionType {
    /// Within the local network.
    Local,
    /// With a STUN service: works across networks, but can fail.
    Stun { host: String },
    /// With STUN and a TURN relay to fall back on: the most stable choice.
    StunAndTurn { host: String, username: String, credential: String },
}

/// One entry of the list of services that a peer connection is set up with.
#[derive(Debug, Clone, PartialEq, Eq)]
pub struct IceServer {
    pub urls: String,
    pub username: Option<String>,
    pub credential: Option<String>,
}

/// An entry of the service list as plain text.
pub struct IceServerView {
    pub urls: Seq<char>,
    pub username: Option<Seq<char>>,
    pub credential: Option<Seq<char>>,
}

/// The text of an optional string.
pub open spec fn text_of(field: Option<String>) -> Option<Seq<char>> {
    match field {
        Some(text) => Some(text@),
        None => None,
    }
}

impl View for IceServer {
    type V = IceServerView;

    open spec fn view(&self) -> IceServerView {
        IceServerView {
            urls: self.urls@,
            username: text_of(self.username),
            credential: text_of(self.credential),
        }
    }
}

/// The entry for the STUN service on `host`.
pub open spec fn stun_entry(host: Seq<char>) -> IceServerView {
    IceServerView { urls: "stun:"@ + host, username: None, credential: None }
}

/// The entry for the TURN relay on `host`, with the account to use.
pub open spec fn turn_entry(
    host: Seq<char>,
    username: Seq<char>,
    credential: Seq<char>,
) -> IceServerView {
    IceServerView { urls: "turn:"@ + host, username: Some(username), credential: Some(credential) }
}

impl ConnectionType {
    /// The services that a peer connection of this kind is set up with: none
    /// for a local one, the STUN service for `Stun`, the STUN service and then
    /// the TURN relay for `StunAndTurn`.
    pub open spec fn spec_ice_servers(&self) -> Seq<IceServerView> {
        match self {
            ConnectionType::Local => Seq::empty(),
            ConnectionType::Stun { host } => seq![stun_entry(host@)],
            ConnectionType::StunAndTurn { host, username, credential } => seq![
                stun_entry(host@),
                turn_entry(host@, username@, credential@),
            ],
        }
    }

    /// The services to set the peer connection up with, in order.
    pub fn ice_servers(&self) -> (servers: Vec<IceServer>)
        ensures
            servers@.map_values(|server: IceServer| server@) == self.spec_ice_servers(),
    {
        let mut servers: Vec<IceServer> = Vec::new();
        match self {
            ConnectionType::Local => {},
            ConnectionType::Stun { host } => {
                let urls = String::from_str("stun:").concat(host.as_str());
                servers.push(IceServer { urls, username: None, credential: None });
            },
            ConnectionType::StunAndTurn { host, username, credential } => {
                let urls = String::from_str("stun:").concat(host.as_str());
                servers.push(IceServer { urls, username: None, credential: None });
                let urls = String::from_str("turn:").concat(host.as_str());
                servers.push(
                    IceServer {
                        urls,
                        username: Some(username.clone()),
                        credential: Some(credential.clone()),
                    },
                );
            },
        }
        assert(servers@.map_values(|server: IceServer| server@) =~= self.spec_ice_servers());
        servers
    }
}

} // verus!
