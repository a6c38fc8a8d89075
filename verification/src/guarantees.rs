//! What the relay guarantees across several events, stated over the same
//! models that the contracts of its functions use, and proved.

use vstd::prelude::*;
use crate::handshake::{progress_after, times_opened, Action, Event, Progress};
use crate::protocol::{SessionId, UserId};
use crate::relay::{
    anomaly_of, handling_of, no_vacant_session, owed, pairing_outcome, route_outcome,
    route_recipient, slots_are_live, table_after_disconnect, table_after_join,
    table_after_message, table_after_route, Delivery, Handling, RouteOutcome,
};
use crate::session::{PairingOutcome, Session};
use crate::signal::SignalMessage;

verus! {

/// Pairing. When connected endpoint `a` joins a session that the table does
/// not have and connected endpoint `b` joins it next, the first join is
/// answered with nothing and the second with exactly two messages: a ready
/// notice for `a` and one for `b`. No other endpoint gets anything, and the
/// session then holds `a` and `b`.
pub proof fn pairing_notifies_both(
    table: Map<u128, Session>,
    live: Set<u64>,
    id: SessionId,
    a: UserId,
    b: UserId,
    first: Seq<Delivery>,
    second: Seq<Delivery>,
)
    requires
        !table.contains_key(id.0),
        live.contains(a.0),
        live.contains(b.0),
        owed(first, table, live, a, SignalMessage::SessionJoin(id)),
        owed(
            second,
            table_after_message(table, live, a, SignalMessage::SessionJoin(id)),
            live,
            b,
            SignalMessage::SessionJoin(id),
        ),
    ensures
        handling_of(table, live, SignalMessage::SessionJoin(id)) == Handling::Joined(
            PairingOutcome::FirstJoined,
        ),
        handling_of(
            table_after_message(table, live, a, SignalMessage::SessionJoin(id)),
            live,
            SignalMessage::SessionJoin(id),
        ) == Handling::Joined(PairingOutcome::SecondJoined),
        first + second == seq![
            Delivery { recipient: a, message: SignalMessage::SessionReady(id) },
            Delivery { recipient: b, message: SignalMessage::SessionReady(id) },
        ],
        table_after_join(table_after_join(table, id.0, a), id.0, b)[id.0] == (Session {
            first: Some(a),
            second: Some(b),
            offer_received: false,
        }),
{
    assert(first + second =~= seq![
        Delivery { recipient: a, message: SignalMessage::SessionReady(id) },
        Delivery { recipient: b, message: SignalMessage::SessionReady(id) },
    ]);
}

/// Unknown session. An offer, an answer or a candidate for a session that the
/// table does not have is dropped: nothing is delivered, the outcome says that
/// the session is unknown, and the table stays as it is.
pub proof fn unknown_session_is_dropped(
    table: Map<u128, Session>,
    live: Set<u64>,
    user: UserId,
    request: SignalMessage,
    deliveries: Seq<Delivery>,
)
    requires
        request.spec_is_relayed(),
        !table.contains_key(request.spec_session_id().0),
        owed(deliveries, table, live, user, request),
    ensures
        handling_of(table, live, request) == Handling::Routed(RouteOutcome::UnknownSession),
        deliveries == Seq::<Delivery>::empty(),
        table_after_message(table, live, user, request) == table,
        !anomaly_of(table, live, request),
{
}

/// Missing peer. An offer, an answer or a candidate for a session with only
/// one slot taken is dropped: nothing is delivered, the outcome says that the
/// peer is missing, and the table stays as it is.
pub proof fn missing_peer_is_dropped(
    table: Map<u128, Session>,
    live: Set<u64>,
    user: UserId,
    request: SignalMessage,
    deliveries: Seq<Delivery>,
)
    requires
        request.spec_is_relayed(),
        table.contains_key(request.spec_session_id().0),
        !table[request.spec_session_id().0].spec_is_full(),
        owed(deliveries, table, live, user, request),
    ensures
        handling_of(table, live, request) == Handling::Routed(RouteOutcome::MissingPeer),
        deliveries == Seq::<Delivery>::empty(),
        table_after_message(table, live, user, request) == table,
        !anomaly_of(table, live, request),
{
}

/// After a disconnect the endpoint holds no slot in any session and no
/// message is routed to it, whatever session the message names.
pub proof fn disconnected_endpoint_gets_nothing(
    table: Map<u128, Session>,
    live: Set<u64>,
    user: UserId,
    id: u128,
)
    ensures
        table_after_disconnect(table, user).contains_key(id) ==> !table_after_disconnect(
            table,
            user,
        )[id].spec_holds(user),
        route_recipient(table_after_disconnect(table, user), live.remove(user.0), id) != Some(user),
        table.contains_key(id) && table[id].spec_recipient() == Some(user) ==> route_outcome(
            table_after_disconnect(table, user),
            live.remove(user.0),
            id,
        ) != RouteOutcome::Delivered,
{
}

/// Cleanup. Once both endpoints of a paired session have disconnected, in
/// either order, the table no longer has the session, and the next join under
/// the same identifier is a first join.
pub proof fn paired_session_is_removed(table: Map<u128, Session>, id: u128, a: UserId, b: UserId)
    requires
        table.contains_key(id),
        table[id].first == Some(a),
        table[id].second == Some(b),
    ensures
        !table_after_disconnect(table_after_disconnect(table, a), b).contains_key(id),
        !table_after_disconnect(table_after_disconnect(table, b), a).contains_key(id),
        pairing_outcome(table_after_disconnect(table_after_disconnect(table, a), b), id)
            == PairingOutcome::FirstJoined,
        pairing_outcome(table_after_disconnect(table_after_disconnect(table, b), a), id)
            == PairingOutcome::FirstJoined,
{
}

/// Partial persistence. When one of two distinct paired endpoints
/// disconnects, the session stays with the other one in its slot. A third
/// endpoint that joins under the same identifier takes the free slot as a
/// second joiner, and the ready notices go to the endpoint that stayed and to
/// the newcomer.
pub proof fn half_open_session_pairs_again(
    table: Map<u128, Session>,
    live: Set<u64>,
    id: SessionId,
    stays: UserId,
    leaves: UserId,
    newcomer: UserId,
    deliveries: Seq<Delivery>,
)
    requires
        table.contains_key(id.0),
        table[id.0].spec_is_full(),
        table[id.0].spec_holds(stays),
        table[id.0].spec_holds(leaves),
        stays != leaves,
        owed(
            deliveries,
            table_after_disconnect(table, leaves),
            live,
            newcomer,
            SignalMessage::SessionJoin(id),
        ),
    ensures
        table_after_disconnect(table, leaves).contains_key(id.0),
        table_after_disconnect(table, leaves)[id.0].spec_waiting() == Some(stays),
        pairing_outcome(table_after_disconnect(table, leaves), id.0)
            == PairingOutcome::SecondJoined,
        table_after_join(table_after_disconnect(table, leaves), id.0, newcomer)[id.0].spec_is_full(),
        table_after_join(table_after_disconnect(table, leaves), id.0, newcomer)[id.0].spec_holds(
            stays,
        ),
        table_after_join(table_after_disconnect(table, leaves), id.0, newcomer)[id.0].spec_holds(
            newcomer,
        ),
        live.contains(stays.0) && live.contains(newcomer.0) ==> deliveries == seq![
            Delivery { recipient: stays, message: SignalMessage::SessionReady(id) },
            Delivery { recipient: newcomer, message: SignalMessage::SessionReady(id) },
        ],
{
    if live.contains(stays.0) && live.contains(newcomer.0) {
        assert(deliveries =~= seq![
            Delivery { recipient: stays, message: SignalMessage::SessionReady(id) },
            Delivery { recipient: newcomer, message: SignalMessage::SessionReady(id) },
        ]);
    }
}

/// A table without an empty session stays so through every event: a join, a
/// forwarded message, a disconnect.
pub proof fn no_session_is_left_empty(
    table: Map<u128, Session>,
    live: Set<u64>,
    user: UserId,
    request: SignalMessage,
)
    requires
        no_vacant_session(table),
    ensures
        no_vacant_session(table_after_message(table, live, user, request)),
        no_vacant_session(table_after_disconnect(table, user)),
{
    let id = request.spec_session_id().0;
    let after = table_after_message(table, live, user, request);
    assert forall|other: u128| after.contains_key(other) implies !(#[trigger] after[other]).spec_is_vacant() by {
        if other != id {
            assert(table.contains_key(other));
            assert(after[other] == table[other]);
        } else if table.contains_key(id) {
            assert(!table[id].spec_is_vacant());
        }
    }
}

/// While every message comes from a connected endpoint and every disconnect
/// is told to the table, the sessions name connected endpoints only. Then a
/// message is dropped for want of a peer only where the recipient's slot is
/// empty.
pub proof fn sessions_name_connected_endpoints(
    table: Map<u128, Session>,
    live: Set<u64>,
    user: UserId,
    request: SignalMessage,
)
    requires
        slots_are_live(table, live),
    ensures
        live.contains(user.0) ==> slots_are_live(
            table_after_message(table, live, user, request),
            live,
        ),
        slots_are_live(table_after_disconnect(table, user), live.remove(user.0)),
        slots_are_live(table, live.insert(user.0)),
        table.contains_key(request.spec_session_id().0) ==> (route_outcome(
            table,
            live,
            request.spec_session_id().0,
        ) == RouteOutcome::Delivered <==> table[request.spec_session_id().0].spec_recipient() is Some),
{
    let id = request.spec_session_id().0;
    if live.contains(user.0) {
        let after = table_after_message(table, live, user, request);
        assert forall|other: u128, held: UserId|
            after.contains_key(other) && #[trigger] after[other].spec_holds(held) implies live.contains(
            held.0,
        ) by {
            if other != id {
                assert(table.contains_key(other));
                assert(table[other].spec_holds(held));
            } else if table.contains_key(id) {
                if held != user {
                    assert(table[id].spec_holds(held));
                }
            }
        }
    }
    let left = table_after_disconnect(table, user);
    assert forall|other: u128, held: UserId|
        left.contains_key(other) && #[trigger] left[other].spec_holds(held) implies live.remove(
        user.0,
    ).contains(held.0) by {
        assert(table[other].spec_holds(held));
        assert(held != user);
    }
    assert forall|other: u128, held: UserId|
        table.contains_key(other) && #[trigger] table[other].spec_holds(held) implies live.insert(
        user.0,
    ).contains(held.0) by {}
    if table.contains_key(id) {
        match table[id].spec_recipient() {
            Some(recipient) => {
                assert(table[id].spec_holds(recipient));
            },
            None => {},
        }
    }
}

/// The negotiation flag of a session is raised once and stays raised: while
/// the session exists, no event lowers it.
pub proof fn negotiation_flag_stays_raised(
    table: Map<u128, Session>,
    live: Set<u64>,
    user: UserId,
    request: SignalMessage,
    id: u128,
)
    requires
        table.contains_key(id),
        table[id].offer_received,
    ensures
        table_after_message(table, live, user, request).contains_key(id),
        table_after_message(table, live, user, request)[id].offer_received,
        table_after_disconnect(table, user).contains_key(id) ==> table_after_disconnect(
            table,
            user,
        )[id].offer_received,
{
}

/// A delivered message raises the flag of its session, and only the first one
/// finds it lowered: every later one is reported as out of turn.
pub proof fn second_negotiation_is_out_of_turn(
    table: Map<u128, Session>,
    live: Set<u64>,
    id: u128,
)
    requires
        route_outcome(table, live, id) == RouteOutcome::Delivered,
    ensures
        table_after_route(table, live, id)[id].offer_received,
        route_outcome(table_after_route(table, live, id), live, id) == RouteOutcome::Delivered,
        route_recipient(table_after_route(table, live, id), live, id) == route_recipient(
            table,
            live,
            id,
        ),
        crate::relay::route_anomaly(table_after_route(table, live, id), live, id),
{
}

/// The application is told that the transport is ready exactly when the
/// handshake enters the open state, and by that action alone. The open state
/// is left only for an end state and keeps the channel it was entered with.
/// An end state is never left: there no event changes anything or calls for
/// any action. The same holds before the coordinator is started.
pub proof fn open_is_announced_on_entry(progress: Progress, session: SessionId, event: Event)
    ensures
        progress.reactions(session, event) == seq![Action::NotifyOpen] <==> !(progress.state is Open)
            && progress.after(event).state is Open,
        forall|i: int|
            0 <= i < progress.reactions(session, event).len() && progress.reactions(session, event)[i]
                == Action::NotifyOpen ==> progress.reactions(session, event) == seq![
                Action::NotifyOpen,
            ],
        progress.state is Open ==> progress.after(event).state is Open || progress.after(
            event,
        ).is_terminal(),
        progress.is_terminal() ==> progress.after(event) == progress && progress.reactions(
            session,
            event,
        ) == Seq::<Action>::empty(),
        !progress.started ==> progress.after(event) == progress && progress.reactions(session, event)
            == Seq::<Action>::empty(),
        progress.state is Open ==> progress.after(event).wired == progress.wired,
{
    let reactions = progress.reactions(session, event);
    if reactions == seq![Action::NotifyOpen] {
        assert(reactions[0] == Action::NotifyOpen);
    }
    if !(progress.state is Open) && progress.after(event).state is Open {
        assert(reactions =~= seq![Action::NotifyOpen]);
    }
    assert forall|i: int| 0 <= i < reactions.len() && reactions[i] == Action::NotifyOpen implies reactions
        == seq![Action::NotifyOpen] by {
        assert(reactions.len() == 1);
        assert(reactions =~= seq![Action::NotifyOpen]);
    }
}

/// A payload is written to the transport only in the open state, and there
/// always.
pub proof fn payload_is_sent_only_when_open(progress: Progress, payload: Vec<u8>)
    ensures
        progress.transmission(payload) is Some <==> progress.started && progress.state is Open,
        progress.transmission(payload) is Some ==> progress.transmission(payload) == Some(
            Action::Transmit(payload),
        ),
{
}

/// Readiness comes first and comes once. Whatever events a started
/// coordinator has seen, in whatever order, the application was told at most
/// once that the transport is ready; and if a payload is now accepted for
/// sending, it was told exactly once.
pub proof fn ready_once_before_sending(session: SessionId, events: Seq<Event>)
    ensures
        times_opened(Progress::begun(), session, events) <= 1,
        progress_after(Progress::begun(), events).started,
        progress_after(Progress::begun(), events).state is Open ==> times_opened(
            Progress::begun(),
            session,
            events,
        ) == 1,
        progress_after(Progress::begun(), events).is_pending() || progress_after(
            Progress::begun(),
            events,
        ).state is Idle ==> times_opened(Progress::begun(), session, events) == 0,
        forall|payload: Vec<u8>|
            (#[trigger] progress_after(Progress::begun(), events).transmission(payload)) is Some
                ==> times_opened(Progress::begun(), session, events) == 1,
    decreases events.len(),
{
    if events.len() > 0 {
        ready_once_before_sending(session, events.drop_last());
        open_is_announced_on_entry(
            progress_after(Progress::begun(), events.drop_last()),
            session,
            events.last(),
        );
    }
}

} // verus!
