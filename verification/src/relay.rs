//! The relay: a registry of live control connections, a table of sessions,
//! and the router that pairs endpoints and forwards their messages.
//!
//! The router decides and never writes to a socket. It answers each event
//! with the deliveries that are owed; whoever owns the sockets hands each
//! delivery to the sink that the registry keeps for its recipient.

use std::collections::HashMap;
use vstd::prelude::*;
use vstd::std_specs::hash::spec_keys_iter;
use vstd::std_specs::iter::IteratorSpec;
use crate::protocol::{SessionId, UserId};
use crate::session::{PairingOutcome, Session};
use crate::signal::SignalMessage;

verus! {

/// What became of a message that asked to be forwarded.
#[derive(Debug, Clone, Copy, PartialEq, Eq)]
pub enum RouteOutcome {
    /// The message goes to the other peer.
    Delivered,
    /// The relay has no session of that name; the message is dropped.
    UnknownSession,
    /// The session is there but nobody can take the message; it is dropped.
    MissingPeer,
}

/// One message owed to one endpoint.
#[derive(Debug, Clone, PartialEq, Eq)]
pub struct Delivery {
    pub recipient: UserId,
    pub message: SignalMessage,
}

/// How the relay handled an incoming message.
#[derive(Debug, Clone, Copy, PartialEq, Eq)]
pub enum Handling {
    /// The message was a join.
    Joined(PairingOutcome),
    /// The message asked to be forwarded.
    Routed(RouteOutcome),
    /// The message is one that only the relay itself sends; nothing happened.
    Ignored,
}

/// The relay's answer to one incoming message.
#[derive(Debug, Clone, PartialEq, Eq)]
pub struct Reaction {
    /// What kind of message it was and how it ended.
    pub handling: Handling,
    /// True when a forwarded message found the negotiation flag of its
    /// session already raised. The message is forwarded all the same.
    pub anomaly: bool,
    /// The messages to hand to sinks, in order.
    pub deliveries: Vec<Delivery>,
}

/// Text of the error that answers a join to a session with no free slot.
pub open spec fn session_full_detail() -> Seq<char> {
    "session already has two endpoints"@
}

/// The registry of live control connections: the sink of every connected
/// endpoint under its identifier, and the identifier that the next
/// connection will get.
pub struct Connections<S> {
    sinks: HashMap<u64, S>,
    next_user_id: u64,
}

impl<S> View for Connections<S> {
    type V = Map<u64, S>;

    closed spec fn view(&self) -> Map<u64, S> {
        self.sinks@
    }
}

impl<S> Connections<S> {
    /// The identifier that the next connection gets.
    pub closed spec fn next_id(&self) -> u64 {
        self.next_user_id
    }

    /// Identifiers start at one, and every live one was issued already.
    pub open spec fn wf(&self) -> bool {
        &&& self.next_id() >= 1
        &&& forall|id: u64| self@.contains_key(id) ==> 1 <= id < self.next_id()
    }

    /// The identifiers of the connected endpoints.
    pub open spec fn live(&self) -> Set<u64> {
        self@.dom()
    }

    /// An empty registry, whose first connection will be number one.
    pub fn new() -> (connections: Self)
        ensures
            connections.wf(),
            connections@ == Map::<u64, S>::empty(),
            connections.next_id() == 1,
    {
        Connections { sinks: HashMap::new(), next_user_id: 1 }
    }

    /// Whether `user` is connected.
    pub fn contains(&self, user: UserId) -> (connected: bool)
        ensures
            connected == self.live().contains(user.0),
    {
        broadcast use vstd::std_specs::hash::group_hash_axioms;

        self.sinks.contains_key(&user.0)
    }

    /// The sink of `user`, if it is connected.
    pub fn lookup(&self, user: UserId) -> (sink: Option<&S>)
        ensures
            match sink {
                Some(s) => self@.contains_key(user.0) && *s == self@[user.0],
                None => !self@.contains_key(user.0),
            },
    {
        broadcast use vstd::std_specs::hash::group_hash_axioms;

        self.sinks.get(&user.0)
    }

    /// How many endpoints are connected.
    pub fn len(&self) -> (count: usize)
        ensures
            count == self@.len(),
    {
        broadcast use vstd::std_specs::hash::group_hash_axioms;

        self.sinks.len()
    }

    /// Forgets `user` and hands back its sink, if it was connected.
    pub fn remove(&mut self, user: UserId) -> (sink: Option<S>)
        ensures
            final(self)@ == old(self)@.remove(user.0),
            final(self).next_id() == old(self).next_id(),
            old(self).wf() ==> final(self).wf(),
            match sink {
                Some(s) => old(self)@.contains_key(user.0) && s == old(self)@[user.0],
                None => !old(self)@.contains_key(user.0),
            },
    {
        broadcast use vstd::std_specs::hash::group_hash_axioms;

        let sink = self.sinks.remove(&user.0);
        assert(forall|id: u64| self@.contains_key(id) ==> old(self)@.contains_key(id));
        sink
    }
}

/// The table of sessions, by session identifier.
pub struct Sessions {
    table: HashMap<u128, Session>,
}

impl View for Sessions {
    type V = Map<u128, Session>;

    closed spec fn view(&self) -> Map<u128, Session> {
        self.table@
    }
}

/// No session of the table has both slots empty.
pub open spec fn no_vacant_session(table: Map<u128, Session>) -> bool {
    forall|id: u128| table.contains_key(id) ==> !(#[trigger] table[id]).spec_is_vacant()
}

/// Every endpoint that holds a slot of some session is connected.
pub open spec fn slots_are_live(table: Map<u128, Session>, live: Set<u64>) -> bool {
    forall|id: u128, user: UserId|
        table.contains_key(id) && #[trigger] table[id].spec_holds(user) ==> live.contains(user.0)
}

/// How a join to session `id` ends.
pub open spec fn pairing_outcome(table: Map<u128, Session>, id: u128) -> PairingOutcome {
    if table.contains_key(id) {
        table[id].join_outcome()
    } else {
        PairingOutcome::FirstJoined
    }
}

/// The table after `user` asked to join session `id`.
pub open spec fn table_after_join(table: Map<u128, Session>, id: u128, user: UserId) -> Map<
    u128,
    Session,
> {
    if table.contains_key(id) {
        table.insert(id, table[id].joined(user))
    } else {
        table.insert(id, Session::opened(user))
    }
}

/// Where a message for session `id` goes, given the connected endpoints.
pub open spec fn route_recipient(table: Map<u128, Session>, live: Set<u64>, id: u128) -> Option<
    UserId,
> {
    if table.contains_key(id) {
        match table[id].spec_recipient() {
            Some(user) => if live.contains(user.0) {
                Some(user)
            } else {
                None
            },
            None => None,
        }
    } else {
        None
    }
}

/// What becomes of a message for session `id`.
pub open spec fn route_outcome(table: Map<u128, Session>, live: Set<u64>, id: u128) -> RouteOutcome {
    if !table.contains_key(id) {
        RouteOutcome::UnknownSession
    } else if route_recipient(table, live, id) is Some {
        RouteOutcome::Delivered
    } else {
        RouteOutcome::MissingPeer
    }
}

/// The table after a message for session `id` was handled: a delivery raises
/// the session's negotiation flag, a dropped message changes nothing.
pub open spec fn table_after_route(table: Map<u128, Session>, live: Set<u64>, id: u128) -> Map<
    u128,
    Session,
> {
    if route_outcome(table, live, id) == RouteOutcome::Delivered {
        table.insert(id, table[id].negotiated())
    } else {
        table
    }
}

/// Whether a delivered message for session `id` is out of turn: the session's
/// negotiation flag was raised before.
pub open spec fn route_anomaly(table: Map<u128, Session>, live: Set<u64>, id: u128) -> bool {
    route_outcome(table, live, id) == RouteOutcome::Delivered && table[id].offer_received
}

/// The table after `user` disconnected: its slots are cleared everywhere, and
/// a session with no endpoint left is gone.
pub open spec fn table_after_disconnect(table: Map<u128, Session>, user: UserId) -> Map<
    u128,
    Session,
> {
    Map::new(
        |id: u128| table.contains_key(id) && !table[id].without(user).spec_is_vacant(),
        |id: u128| table[id].without(user),
    )
}

/// What routing a message did.
pub struct Routing {
    pub outcome: RouteOutcome,
    /// The endpoint that gets the message, when it is delivered.
    pub recipient: Option<UserId>,
    /// Whether the session had forwarded a negotiation message before.
    pub anomaly: bool,
}

impl Sessions {
    /// No session has both slots empty.
    pub open spec fn wf(&self) -> bool {
        no_vacant_session(self@)
    }

    /// An empty table.
    pub fn new() -> (sessions: Self)
        ensures
            sessions@ == Map::<u128, Session>::empty(),
            sessions.wf(),
    {
        Sessions { table: HashMap::new() }
    }

    /// The state of session `id`, if the table has it.
    pub fn get(&self, id: SessionId) -> (session: Option<Session>)
        ensures
            session == (if self@.contains_key(id.0) {
                Some(self@[id.0])
            } else {
                None
            }),
    {
        broadcast use vstd::std_specs::hash::group_hash_axioms;

        match self.table.get(&id.0) {
            Some(session) => Some(*session),
            None => None,
        }
    }

    /// How many sessions the table holds.
    pub fn len(&self) -> (count: usize)
        ensures
            count == self@.len(),
    {
        broadcast use vstd::std_specs::hash::group_hash_axioms;

        self.table.len()
    }

    /// Lets `user` into session `id`: opens the session if the table does not
    /// have it, takes the free slot if there is one, and leaves a full session
    /// untouched.
    pub fn join(&mut self, id: SessionId, user: UserId) -> (outcome: PairingOutcome)
        ensures
            final(self)@ == table_after_join(old(self)@, id.0, user),
            outcome == pairing_outcome(old(self)@, id.0),
            old(self).wf() ==> final(self).wf(),
    {
        broadcast use vstd::std_specs::hash::group_hash_axioms;

        let found = self.get(id);
        match found {
            None => {
                self.table.insert(id.0, Session::open(user));
                PairingOutcome::FirstJoined
            },
            Some(session) => {
                let mut session = session;
                let outcome = session.join(user);
                self.table.insert(id.0, session);
                outcome
            },
        }
    }

    /// Decides where a message for session `id` goes. A delivery raises the
    /// session's negotiation flag; a dropped message leaves the table as is.
    pub fn route<S>(&mut self, id: SessionId, live: &Connections<S>) -> (routing: Routing)
        ensures
            final(self)@ == table_after_route(old(self)@, live.live(), id.0),
            routing.outcome == route_outcome(old(self)@, live.live(), id.0),
            routing.recipient == route_recipient(old(self)@, live.live(), id.0),
            routing.anomaly == route_anomaly(old(self)@, live.live(), id.0),
            old(self).wf() ==> final(self).wf(),
    {
        broadcast use vstd::std_specs::hash::group_hash_axioms;

        let found = self.get(id);
        match found {
            None => Routing { outcome: RouteOutcome::UnknownSession, recipient: None, anomaly: false },
            Some(session) => {
                let target = match session.recipient() {
                    Some(user) => if live.contains(user) {
                        Some(user)
                    } else {
                        None
                    },
                    None => None,
                };
                match target {
                    Some(user) => {
                        let anomaly = session.offer_received;
                        let mut session = session;
                        session.offer_received = true;
                        self.table.insert(id.0, session);
                        Routing {
                            outcome: RouteOutcome::Delivered,
                            recipient: Some(user),
                            anomaly,
                        }
                    },
                    None => Routing {
                        outcome: RouteOutcome::MissingPeer,
                        recipient: None,
                        anomaly: false,
                    },
                }
            },
        }
    }

    /// The identifiers of all sessions, each once, in no particular order.
    pub fn session_ids(&self) -> (ids: Vec<u128>)
        ensures
            ids@.no_duplicates(),
            ids@.to_set() == self@.dom(),
    {
        broadcast use vstd::std_specs::hash::group_hash_axioms;

        let mut ids: Vec<u128> = Vec::new();
        for id in it: self.table.keys()
            invariant
                it.seq() == spec_keys_iter(&self.table).remaining(),
                ids@.len() == it.index(),
                forall|j: int| 0 <= j < ids@.len() ==> ids@[j] == *it.seq()[j],
        {
            ids.push(*id);
        }
        assert(ids@ =~= spec_keys_iter(&self.table).remaining().unref());
        ids
    }

    /// Clears the slots of `user` in every session and drops each session
    /// that is left with no endpoint.
    pub fn release(&mut self, user: UserId)
        ensures
            final(self)@ == table_after_disconnect(old(self)@, user),
            final(self).wf(),
    {
        broadcast use vstd::std_specs::hash::group_hash_axioms;

        let ids = self.session_ids();
        let ghost before = self.table@;
        let mut i: usize = 0;
        while i < ids.len()
            invariant
                0 <= i <= ids.len(),
                ids@.no_duplicates(),
                ids@.to_set() == before.dom(),
                forall|id: u128| self.table@.contains_key(id) ==> before.contains_key(id),
                forall|j: int|
                    0 <= j < i ==> (self.table@.contains_key(#[trigger] ids@[j]) <==> !before[ids@[j]].without(
                        user,
                    ).spec_is_vacant()),
                forall|j: int|
                    0 <= j < i && self.table@.contains_key(#[trigger] ids@[j]) ==> self.table@[ids@[j]]
                        == before[ids@[j]].without(user),
                forall|j: int|
                    i <= j < ids.len() ==> self.table@.contains_key(#[trigger] ids@[j])
                        && self.table@[ids@[j]] == before[ids@[j]],
            decreases ids.len() - i,
        {
            let id = ids[i];
            let found = self.table.get(&id);
            match found {
                Some(session) => {
                    let mut session = *session;
                    session.release(user);
                    if session.is_vacant() {
                        self.table.remove(&id);
                    } else {
                        self.table.insert(id, session);
                    }
                },
                None => {},
            }
            i += 1;
        }
        proof {
            let after = self.table@;
            let goal = table_after_disconnect(before, user);
            assert forall|id: u128| after.contains_key(id) <==> goal.contains_key(id) by {
                if before.contains_key(id) {
                    assert(ids@.to_set().contains(id));
                    let j = choose|j: int| 0 <= j < ids@.len() && ids@[j] == id;
                    assert(ids@[j] == id);
                }
            }
            assert forall|id: u128| after.contains_key(id) implies after[id] == goal[id] by {
                assert(ids@.to_set().contains(id));
                let j = choose|j: int| 0 <= j < ids@.len() && ids@[j] == id;
                assert(ids@[j] == id);
            }
            assert(after =~= goal);
        }
    }
}

/// The table after the relay handled `request` from `user`.
pub open spec fn table_after_message(
    table: Map<u128, Session>,
    live: Set<u64>,
    user: UserId,
    request: SignalMessage,
) -> Map<u128, Session> {
    if request is SessionJoin {
        table_after_join(table, request.spec_session_id().0, user)
    } else if request.spec_is_relayed() {
        table_after_route(table, live, request.spec_session_id().0)
    } else {
        table
    }
}

/// How the relay handles `request`.
pub open spec fn handling_of(table: Map<u128, Session>, live: Set<u64>, request: SignalMessage) -> Handling {
    if request is SessionJoin {
        Handling::Joined(pairing_outcome(table, request.spec_session_id().0))
    } else if request.spec_is_relayed() {
        Handling::Routed(route_outcome(table, live, request.spec_session_id().0))
    } else {
        Handling::Ignored
    }
}

/// Whether `request` is a forwarded message that comes out of turn.
pub open spec fn anomaly_of(table: Map<u128, Session>, live: Set<u64>, request: SignalMessage) -> bool {
    request.spec_is_relayed() && route_anomaly(table, live, request.spec_session_id().0)
}

/// The notice that session `id` is ready, for the endpoint in `slot` if it is
/// connected; nothing otherwise.
pub open spec fn ready_for(slot: Option<UserId>, live: Set<u64>, id: SessionId) -> Seq<Delivery> {
    match slot {
        Some(user) => if live.contains(user.0) {
            seq![Delivery { recipient: user, message: SignalMessage::SessionReady(id) }]
        } else {
            Seq::empty()
        },
        None => Seq::empty(),
    }
}

/// `delivery` tells `user` that session `id` has no free slot.
pub open spec fn is_rejection(delivery: Delivery, user: UserId, id: SessionId) -> bool {
    &&& delivery.recipient == user
    &&& match delivery.message {
        SignalMessage::Error(named, detail) => named == id && detail@ == session_full_detail(),
        _ => false,
    }
}

/// `deliveries` is what the relay owes after `request` from `user`:
/// - nothing after a first join;
/// - after a second join a ready notice to the endpoint that waited, then one
///   to the joiner;
/// - after a join to a full session one rejection to the joiner;
/// - a forwarded message itself, unchanged, to the recipient of its session;
/// - nothing where the message is dropped or ignored.
/// Nothing is ever owed to an endpoint that is not connected.
pub open spec fn owed(
    deliveries: Seq<Delivery>,
    table: Map<u128, Session>,
    live: Set<u64>,
    user: UserId,
    request: SignalMessage,
) -> bool {
    let id = request.spec_session_id();
    if request is SessionJoin {
        match pairing_outcome(table, id.0) {
            PairingOutcome::FirstJoined => deliveries == Seq::<Delivery>::empty(),
            PairingOutcome::SecondJoined => deliveries == ready_for(
                table[id.0].spec_waiting(),
                live,
                id,
            ) + ready_for(Some(user), live, id),
            PairingOutcome::AlreadyFull => if live.contains(user.0) {
                deliveries.len() == 1 && is_rejection(deliveries[0], user, id)
            } else {
                deliveries == Seq::<Delivery>::empty()
            },
        }
    } else if request.spec_is_relayed() {
        match route_recipient(table, live, id.0) {
            Some(recipient) => deliveries == seq![Delivery { recipient, message: request }],
            None => deliveries == Seq::<Delivery>::empty(),
        }
    } else {
        deliveries == Seq::<Delivery>::empty()
    }
}

/// Registers a new control connection: issues the next identifier and files
/// `sink` under it. Identifiers grow by one with every connection; in a
/// well-formed registry the one issued is held by no live connection. When
/// the identifiers are used up, nothing is registered.
pub fn user_connected<S>(sink: S, connections: &mut Connections<S>) -> (issued: Option<UserId>)
    ensures
        old(connections).wf() ==> final(connections).wf(),
        match issued {
            Some(user) => {
                &&& old(connections).next_id() < u64::MAX
                &&& user.0 == old(connections).next_id()
                &&& old(connections).wf() ==> !old(connections)@.contains_key(user.0)
                &&& final(connections).next_id() == user.0 + 1
                &&& final(connections)@ == old(connections)@.insert(user.0, sink)
            },
            None => {
                &&& old(connections).next_id() == u64::MAX
                &&& final(connections).next_id() == old(connections).next_id()
                &&& final(connections)@ == old(connections)@
            },
        },
{
    broadcast use vstd::std_specs::hash::group_hash_axioms;

    if connections.next_user_id == u64::MAX {
        None
    } else {
        let user = UserId::new(connections.next_user_id);
        connections.next_user_id = connections.next_user_id + 1;
        connections.sinks.insert(user.0, sink);
        assert(forall|id: u64|
            connections@.contains_key(id) ==> id == user.0 || old(connections)@.contains_key(id));
        Some(user)
    }
}

/// Handles one message that `user_id` sent.
///
/// A join is entered in the session table and answered as the pairing
/// requires. An offer, an answer or a candidate is forwarded unchanged to the
/// recipient of its session, or dropped where the session or the recipient is
/// missing. A ready notice or an error coming from an endpoint is ignored.
pub fn user_message<S>(
    user_id: UserId,
    request: SignalMessage,
    connections: &Connections<S>,
    sessions: &mut Sessions,
) -> (reaction: Reaction)
    ensures
        final(sessions)@ == table_after_message(old(sessions)@, connections.live(), user_id, request),
        reaction.handling == handling_of(old(sessions)@, connections.live(), request),
        reaction.anomaly == anomaly_of(old(sessions)@, connections.live(), request),
        owed(reaction.deliveries@, old(sessions)@, connections.live(), user_id, request),
        old(sessions).wf() ==> final(sessions).wf(),
{
    let mut deliveries: Vec<Delivery> = Vec::new();
    match request {
        SignalMessage::SessionJoin(id) => {
            let before = sessions.get(id);
            let outcome = sessions.join(id, user_id);
            match outcome {
                PairingOutcome::FirstJoined => {},
                PairingOutcome::SecondJoined => {
                    let waiting = match before {
                        Some(session) => session.waiting(),
                        None => None,
                    };
                    notify_ready(&mut deliveries, waiting, connections, id);
                    notify_ready(&mut deliveries, Some(user_id), connections, id);
                },
                PairingOutcome::AlreadyFull => {
                    if connections.contains(user_id) {
                        let detail = String::from_str("session already has two endpoints");
                        deliveries.push(
                            Delivery { recipient: user_id, message: SignalMessage::Error(id, detail) },
                        );
                    }
                },
            }
            Reaction { handling: Handling::Joined(outcome), anomaly: false, deliveries }
        },
        SignalMessage::SdpOffer(_, _) | SignalMessage::SdpAnswer(_, _) | SignalMessage::IceCandidate(
            _,
            _,
        ) => route(request.session_id(), request, user_id, connections, sessions),
        SignalMessage::SessionReady(_) | SignalMessage::Error(_, _) => {
            Reaction { handling: Handling::Ignored, anomaly: false, deliveries }
        },
    }
}

/// Adds to `deliveries` the ready notice for the endpoint in `slot`, if there
/// is one and it is connected.
fn notify_ready<S>(
    deliveries: &mut Vec<Delivery>,
    slot: Option<UserId>,
    connections: &Connections<S>,
    id: SessionId,
)
    ensures
        final(deliveries)@ == old(deliveries)@ + ready_for(slot, connections.live(), id),
{
    match slot {
        Some(user) => {
            if connections.contains(user) {
                deliveries.push(Delivery { recipient: user, message: SignalMessage::SessionReady(id) });
            }
        },
        None => {},
    }
    assert(deliveries@ =~= old(deliveries)@ + ready_for(slot, connections.live(), id));
}

/// Forwards `message` within session `id`. The recipient is the second slot
/// while the first is taken; who sent the message plays no part. The message
/// is dropped where the table has no such session, where the recipient's slot
/// is empty, and where the recipient is no longer connected.
pub fn route<S>(
    id: SessionId,
    message: SignalMessage,
    sender: UserId,
    connections: &Connections<S>,
    sessions: &mut Sessions,
) -> (reaction: Reaction)
    ensures
        final(sessions)@ == table_after_route(old(sessions)@, connections.live(), id.0),
        reaction.handling == Handling::Routed(route_outcome(old(sessions)@, connections.live(), id.0)),
        reaction.anomaly == route_anomaly(old(sessions)@, connections.live(), id.0),
        match route_recipient(old(sessions)@, connections.live(), id.0) {
            Some(recipient) => reaction.deliveries@ == seq![Delivery { recipient, message }],
            None => reaction.deliveries@ == Seq::<Delivery>::empty(),
        },
        old(sessions).wf() ==> final(sessions).wf(),
{
    let routing = sessions.route(id, connections);
    let mut deliveries: Vec<Delivery> = Vec::new();
    match routing.recipient {
        Some(recipient) => {
            deliveries.push(Delivery { recipient, message });
            assert(deliveries@ =~= seq![Delivery { recipient, message }]);
        },
        None => {},
    }
    Reaction { handling: Handling::Routed(routing.outcome), anomaly: routing.anomaly, deliveries }
}

/// Forgets a control connection that ended: clears the slots of `user_id` in
/// every session, drops each session left without an endpoint, and removes
/// the connection from the registry, handing back its sink.
pub fn user_disconnected<S>(
    user_id: UserId,
    connections: &mut Connections<S>,
    sessions: &mut Sessions,
) -> (sink: Option<S>)
    ensures
        final(sessions)@ == table_after_disconnect(old(sessions)@, user_id),
        final(sessions).wf(),
        final(connections)@ == old(connections)@.remove(user_id.0),
        final(connections).next_id() == old(connections).next_id(),
        old(connections).wf() ==> final(connections).wf(),
        match sink {
            Some(s) => old(connections)@.contains_key(user_id.0) && s == old(connections)@[user_id.0],
            None => !old(connections)@.contains_key(user_id.0),
        },
{
    sessions.release(user_id);
    connections.remove(user_id)
}

} // verus!
