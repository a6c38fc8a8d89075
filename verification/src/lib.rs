//! Rendezvous and signaling for pairs of peers that negotiate a direct,
//! unreliable data transport.
//!
//! The crate holds the wire vocabulary shared by relay and endpoints, the
//! relay's session table and router, and the endpoint-side handshake
//! coordinator, each with a machine-checked contract.

pub mod guarantees;
pub mod handshake;
pub mod protocol;
pub mod relay;
pub mod session;
pub mod signal;
pub mod transport;

pub use handshake::NetworkManager;
pub use protocol::{SessionId, UserId, STUN_PORT, TURN_PORT, WS_PORT};
pub use relay::{user_connected, user_disconnected, user_message, Connections, Sessions};
pub use session::{PairingOutcome, Session};
pub use signal::{IceCandidate, SignalMessage};
pub use transport::{ConnectionType, IceServer};
