//! Identifiers and well-known ports shared by the relay and its endpoints.

use vstd::prelude::*;
use vstd::string::StringExecFns;

verus! {

/// The character of a decimal digit.
pub open spec fn digit_char(digit: nat) -> char {
    if digit == 0 {
        '0'
    } else if digit == 1 {
        '1'
    } else if digit == 2 {
        '2'
    } else if digit == 3 {
        '3'
    } else if digit == 4 {
        '4'
    } else if digit == 5 {
        '5'
    } else if digit == 6 {
        '6'
    } else if digit == 7 {
        '7'
    } else if digit == 8 {
        '8'
    } else {
        '9'
    }
}

/// A number in decimal notation, without sign or leading zeros.
pub open spec fn decimal(n: nat) -> Seq<char>
    decreases n,
{
    if n < 10 {
        seq![digit_char(n)]
    } else {
        decimal(n / 10).push(digit_char(n % 10))
    }
}

/// The text of one decimal digit.
fn digit_text(digit: u128) -> (text: &'static str)
    requires
        digit < 10,
    ensures
        text@ == seq![digit_char(digit as nat)],
{
    proof {
        reveal_strlit("0");
        reveal_strlit("1");
        reveal_strlit("2");
        reveal_strlit("3");
        reveal_strlit("4");
        reveal_strlit("5");
        reveal_strlit("6");
        reveal_strlit("7");
        reveal_strlit("8");
        reveal_strlit("9");
    }
    let text = if digit == 0 {
        "0"
    } else if digit == 1 {
        "1"
    } else if digit == 2 {
        "2"
    } else if digit == 3 {
        "3"
    } else if digit == 4 {
        "4"
    } else if digit == 5 {
        "5"
    } else if digit == 6 {
        "6"
    } else if digit == 7 {
        "7"
    } else if digit == 8 {
        "8"
    } else {
        "9"
    };
    assert(text@ =~= seq![digit_char(digit as nat)]);
    text
}

/// Writes `n` in decimal notation.
pub fn to_decimal(n: u128) -> (text: String)
    ensures
        text@ == decimal(n as nat),
    decreases n,
{
    if n < 10 {
        String::from_str(digit_text(n))
    } else {
        let mut text = to_decimal(n / 10);
        text.append(digit_text(n % 10));
        assert(text@ =~= decimal(n as nat));
        text
    }
}

/// Port of the websocket signaling channel that every endpoint keeps open to
/// the relay while a transport is being negotiated.
pub const WS_PORT: u16 = 9003;

/// Port of the embedded STUN service, which tells an endpoint its publicly
/// visible address.
pub const STUN_PORT: u16 = 9004;

/// Port of the embedded TURN service, the last-resort relay for peers that
/// cannot reach each other directly.
pub const TURN_PORT: u16 = 9004;

/// Whether `port` is one of the ports that the protocol reserves for itself.
/// A server that shares the host with the relay must listen elsewhere.
pub fn port_overlap(port: u16) -> (overlaps: bool)
    ensures
        overlaps == (port == STUN_PORT || port == TURN_PORT || port == WS_PORT),
{
    port == STUN_PORT || port == TURN_PORT || port == WS_PORT
}

/// Unique identifier of a signaling session, supplied by the endpoints that
/// want to meet.
#[derive(Debug, Clone, Copy, PartialEq, Eq, Hash, Structural)]
pub struct SessionId(pub u128);

impl SessionId {
    /// Wraps a number into a session identifier.
    pub fn new(inner: u128) -> (id: Self)
        ensures
            id == SessionId(inner),
    {
        SessionId(inner)
    }

    /// The number behind the identifier.
    pub fn get(self) -> (inner: u128)
        ensures
            inner == self.0,
    {
        self.0
    }

    /// The identifier as text: `Seid-` and the number in decimal notation.
    pub open spec fn text(self) -> Seq<char> {
        "Seid-"@ + decimal(self.0 as nat)
    }

    /// The identifier as text, as it labels the data channel of its session.
    pub fn to_string(&self) -> (text: String)
        ensures
            text@ == self.text(),
    {
        let number = to_decimal(self.0);
        String::from_str("Seid-").concat(number.as_str())
    }
}

/// Identifier of one live control connection, issued by the relay when the
/// connection is accepted.
#[derive(Debug, Clone, Copy, PartialEq, Eq, Hash, Structural)]
pub struct UserId(pub u64);

impl UserId {
    /// Wraps a number into a user identifier.
    pub fn new(inner: u64) -> (id: Self)
        ensures
            id == UserId(inner),
    {
        UserId(inner)
    }

    /// The number behind the identifier.
    pub fn into_inner(self) -> (inner: u64)
        ensures
            inner == self.0,
    {
        self.0
    }

    /// The identifier as text: the number in decimal notation.
    pub fn to_string(&self) -> (text: String)
        ensures
            text@ == decimal(self.0 as nat),
    {
        to_decimal(self.0 as u128)
    }
}

impl From<u64> for UserId {
    fn from(val: u64) -> (id: Self) {
        UserId(val)
    }
}

impl vstd::std_specs::convert::FromSpecImpl<u64> for UserId {
    open spec fn obeys_from_spec() -> bool {
        true
    }

    open spec fn from_spec(val: u64) -> Self {
        UserId(val)
    }
}

} // verus!
