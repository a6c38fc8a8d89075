use wasm_peers::handshake::{
    Action, ChannelSetup, ChannelSide, Event, HandshakeState, NetworkManager,
};
use wasm_peers::{ConnectionType, IceCandidate, IceServer, SessionId, SignalMessage};

const SESSION: u128 = 1234;

fn manager() -> NetworkManager {
    NetworkManager::new("relay.example.org", SessionId::new(SESSION), ConnectionType::Local)
}

fn candidate(text: &str) -> IceCandidate {
    IceCandidate { candidate: text.to_string(), sdp_mid: Some("0".to_string()), sdp_m_line_index: Some(0) }
}

fn count_opens(actions: &[Action]) -> usize {
    actions.iter().filter(|action| **action == Action::NotifyOpen).count()
}

#[test]
fn network_manager_starts_successfully() {
    let mut server = manager();
    assert_eq!(server.state(), HandshakeState::Idle);
    assert_eq!(server.session_id(), SessionId::new(SESSION));
    assert_eq!(
        server.start(10),
        Some(ChannelSetup { label: "Seid-1234".to_string(), max_retransmits: 10, ordered: false })
    );
    assert_eq!(server.start(10), None);
    assert_eq!(server.state(), HandshakeState::Idle);
}

#[test]
fn open_is_announced_once_before_any_payload_is_sent() {
    let id = SessionId::new(SESSION);
    let mut caller = manager();
    let mut log: Vec<Action> = Vec::new();

    assert_eq!(caller.send_message(b"too early".to_vec()), None);
    assert_eq!(
        caller.start(0),
        Some(ChannelSetup { label: "Seid-1234".to_string(), max_retransmits: 0, ordered: false })
    );
    assert_eq!(caller.send_message(b"too early".to_vec()), None);

    let actions = caller.handle(Event::ControlOpened);
    assert_eq!(actions, vec![Action::SendSignal(SignalMessage::SessionJoin(id))]);
    assert_eq!(caller.state(), HandshakeState::AwaitingPeer);
    log.extend(actions);

    let actions = caller.handle(Event::Signal(SignalMessage::SessionReady(id)));
    assert_eq!(actions, vec![Action::CreateOffer]);
    assert_eq!(caller.state(), HandshakeState::Negotiating);
    log.extend(actions);

    let actions = caller.handle(Event::OfferCreated("offer".to_string()));
    assert_eq!(actions, vec![Action::SendSignal(SignalMessage::SdpOffer(id, "offer".to_string()))]);
    log.extend(actions);

    let actions = caller.handle(Event::CandidateGathered(candidate("mine")));
    assert_eq!(
        actions,
        vec![Action::SendSignal(SignalMessage::IceCandidate(id, candidate("mine")))]
    );
    log.extend(actions);

    let actions = caller.handle(Event::Signal(SignalMessage::SdpAnswer(id, "answer".to_string())));
    assert_eq!(actions, vec![Action::AcceptAnswer("answer".to_string())]);
    log.extend(actions);

    let actions = caller.handle(Event::Signal(SignalMessage::IceCandidate(id, candidate("theirs"))));
    assert_eq!(actions, vec![Action::AddCandidate(candidate("theirs"))]);
    log.extend(actions);

    assert_eq!(caller.send_message(b"still too early".to_vec()), None);
    assert_eq!(count_opens(&log), 0);

    let actions = caller.handle(Event::ChannelOpened(ChannelSide::Local));
    assert_eq!(actions, vec![Action::NotifyOpen]);
    assert_eq!(caller.state(), HandshakeState::Open);
    log.extend(actions);

    log.extend(caller.handle(Event::ChannelOpened(ChannelSide::Local)));
    log.extend(caller.handle(Event::ChannelOpened(ChannelSide::Remote)));
    assert_eq!(count_opens(&log), 1);

    assert_eq!(caller.send_message(b"ping!".to_vec()), Some(Action::Transmit(b"ping!".to_vec())));
    assert_eq!(caller.send_message(Vec::new()), Some(Action::Transmit(Vec::new())));

    // The peer, already open, hands what arrives to its application.
    let mut callee = manager();
    callee.start(0);
    callee.handle(Event::ControlOpened);
    callee.handle(Event::Signal(SignalMessage::SessionReady(id)));
    assert_eq!(callee.handle(Event::ChannelMessage(ChannelSide::Local, b"ping!".to_vec())), vec![]);
    callee.handle(Event::ChannelOpened(ChannelSide::Local));
    assert_eq!(
        callee.handle(Event::ChannelMessage(ChannelSide::Local, b"ping!".to_vec())),
        vec![Action::NotifyMessage(b"ping!".to_vec())]
    );
}

#[test]
fn single_message_passes_both_ways() {
    let id = SessionId::new(SESSION);
    let mut server = manager();
    let mut client = manager();
    server.start(10);
    client.start(10);
    for peer in [&mut server, &mut client] {
        peer.handle(Event::ControlOpened);
        peer.handle(Event::Signal(SignalMessage::SessionReady(id)));
        assert_eq!(peer.handle(Event::ChannelOpened(ChannelSide::Local)), vec![Action::NotifyOpen]);
    }
    let ping = match server.send_message(b"ping!".to_vec()) {
        Some(Action::Transmit(bytes)) => bytes,
        other => panic!("the open transport takes the payload, got {:?}", other),
    };
    assert_eq!(
        client.handle(Event::ChannelMessage(ChannelSide::Local, ping)),
        vec![Action::NotifyMessage(b"ping!".to_vec())]
    );
    let pong = match client.send_message(b"pong!".to_vec()) {
        Some(Action::Transmit(bytes)) => bytes,
        other => panic!("the open transport takes the payload, got {:?}", other),
    };
    assert_eq!(
        server.handle(Event::ChannelMessage(ChannelSide::Local, pong)),
        vec![Action::NotifyMessage(b"pong!".to_vec())]
    );
}

#[test]
fn nothing_is_handled_before_start() {
    let id = SessionId::new(SESSION);
    let mut idle = manager();
    for event in [
        Event::ControlOpened,
        Event::Signal(SignalMessage::SessionReady(id)),
        Event::ChannelOpened(ChannelSide::Local),
        Event::ControlClosed,
        Event::NegotiationFailed,
    ] {
        assert_eq!(idle.handle(event), vec![]);
        assert_eq!(idle.state(), HandshakeState::Idle);
    }
    assert!(idle.start(3).is_some());
    assert_eq!(
        idle.handle(Event::ControlOpened),
        vec![Action::SendSignal(SignalMessage::SessionJoin(id))]
    );
}

#[test]
fn candidate_before_ready_is_applied_and_ready_still_starts_the_offer() {
    let id = SessionId::new(SESSION);
    let mut peer = manager();
    peer.start(1);
    peer.handle(Event::ControlOpened);
    assert_eq!(
        peer.handle(Event::Signal(SignalMessage::IceCandidate(id, candidate("early")))),
        vec![Action::AddCandidate(candidate("early"))]
    );
    assert_eq!(peer.state(), HandshakeState::AwaitingPeer);
    assert_eq!(
        peer.handle(Event::Signal(SignalMessage::SessionReady(id))),
        vec![Action::CreateOffer]
    );
    assert_eq!(peer.state(), HandshakeState::Negotiating);
    // A second ready notice starts no second offer.
    assert_eq!(peer.handle(Event::Signal(SignalMessage::SessionReady(id))), vec![]);
}

#[test]
fn late_candidate_after_open_is_still_applied() {
    let id = SessionId::new(SESSION);
    let mut peer = manager();
    peer.start(1);
    peer.handle(Event::ControlOpened);
    peer.handle(Event::Signal(SignalMessage::SessionReady(id)));
    peer.handle(Event::ChannelOpened(ChannelSide::Local));
    assert_eq!(
        peer.handle(Event::Signal(SignalMessage::IceCandidate(id, candidate("late")))),
        vec![Action::AddCandidate(candidate("late"))]
    );
    assert_eq!(peer.state(), HandshakeState::Open);
}

#[test]
fn offer_from_the_peer_is_answered() {
    let id = SessionId::new(SESSION);
    let mut callee = manager();
    callee.start(1);
    callee.handle(Event::ControlOpened);
    assert_eq!(
        callee.handle(Event::Signal(SignalMessage::SdpOffer(id, "offer".to_string()))),
        vec![Action::CreateAnswer("offer".to_string())]
    );
    assert_eq!(callee.state(), HandshakeState::Negotiating);
    // The ready notice comes late: the negotiation is under way, no offer is made.
    assert_eq!(callee.handle(Event::Signal(SignalMessage::SessionReady(id))), vec![]);
    assert_eq!(
        callee.handle(Event::AnswerCreated("answer".to_string())),
        vec![Action::SendSignal(SignalMessage::SdpAnswer(id, "answer".to_string()))]
    );
}

#[test]
fn channel_of_the_peer_replaces_the_local_one() {
    let id = SessionId::new(SESSION);
    let mut callee = manager();
    callee.start(1);
    callee.handle(Event::ControlOpened);
    callee.handle(Event::Signal(SignalMessage::SessionReady(id)));
    assert_eq!(callee.handle(Event::ChannelOffered), vec![Action::AdoptChannel]);
    // The local channel no longer counts.
    assert_eq!(callee.handle(Event::ChannelOpened(ChannelSide::Local)), vec![]);
    assert_eq!(callee.state(), HandshakeState::Negotiating);
    assert_eq!(callee.handle(Event::ChannelOpened(ChannelSide::Remote)), vec![Action::NotifyOpen]);
    assert_eq!(callee.state(), HandshakeState::Open);
    assert_eq!(callee.handle(Event::ChannelMessage(ChannelSide::Local, vec![1])), vec![]);
    assert_eq!(
        callee.handle(Event::ChannelMessage(ChannelSide::Remote, vec![1, 2, 3])),
        vec![Action::NotifyMessage(vec![1, 2, 3])]
    );
    // Once open, a further channel is not adopted.
    assert_eq!(callee.handle(Event::ChannelOffered), vec![]);
    assert_eq!(callee.handle(Event::ChannelOpened(ChannelSide::Remote)), vec![]);
}

#[test]
fn closed_and_failed_handshakes_stay_so() {
    let id = SessionId::new(SESSION);

    let mut lost = manager();
    lost.start(1);
    lost.handle(Event::ControlOpened);
    lost.handle(Event::Signal(SignalMessage::SessionReady(id)));
    lost.handle(Event::ChannelOpened(ChannelSide::Local));
    assert_eq!(lost.handle(Event::ControlClosed), vec![]);
    assert_eq!(lost.state(), HandshakeState::Closed);
    assert_eq!(lost.send_message(vec![1]), None);
    assert_eq!(lost.handle(Event::ChannelOpened(ChannelSide::Local)), vec![]);
    assert_eq!(lost.handle(Event::ControlOpened), vec![]);
    assert_eq!(lost.state(), HandshakeState::Closed);

    let mut broken = manager();
    broken.start(1);
    broken.handle(Event::ControlOpened);
    assert_eq!(broken.handle(Event::ChannelFailed), vec![]);
    assert_eq!(broken.state(), HandshakeState::Closed);

    let mut failed = manager();
    failed.start(1);
    failed.handle(Event::ControlOpened);
    failed.handle(Event::Signal(SignalMessage::SessionReady(id)));
    assert_eq!(failed.handle(Event::NegotiationFailed), vec![]);
    assert_eq!(failed.state(), HandshakeState::Error);
    assert_eq!(failed.handle(Event::Signal(SignalMessage::SessionReady(id))), vec![]);
    assert_eq!(failed.state(), HandshakeState::Error);

    let mut rejected = manager();
    rejected.start(1);
    rejected.handle(Event::ControlOpened);
    assert_eq!(
        rejected.handle(Event::Signal(SignalMessage::Error(id, "session already has two endpoints".to_string()))),
        vec![]
    );
    assert_eq!(rejected.state(), HandshakeState::Error);
    assert_eq!(rejected.send_message(vec![1]), None);
}

#[test]
fn relay_is_reached_on_the_signaling_port() {
    assert_eq!(manager().relay_url(), "ws://relay.example.org:9003/one-to-one");
    let local = NetworkManager::new("0.0.0.0", SessionId::new(1), ConnectionType::Local);
    assert_eq!(local.relay_url(), "ws://0.0.0.0:9003/one-to-one");
}

#[test]
fn services_follow_the_kind_of_connection() {
    assert_eq!(ConnectionType::Local.ice_servers(), vec![]);
    let stun = ConnectionType::Stun { host: "stun.example.org:3478".to_string() };
    assert_eq!(
        stun.ice_servers(),
        vec![IceServer { urls: "stun:stun.example.org:3478".to_string(), username: None, credential: None }]
    );
    let both = ConnectionType::StunAndTurn {
        host: "turn.example.org".to_string(),
        username: "alice".to_string(),
        credential: "wonderland".to_string(),
    };
    assert_eq!(
        both.ice_servers(),
        vec![
            IceServer { urls: "stun:turn.example.org".to_string(), username: None, credential: None },
            IceServer {
                urls: "turn:turn.example.org".to_string(),
                username: Some("alice".to_string()),
                credential: Some("wonderland".to_string()),
            },
        ]
    );
    let with_both = NetworkManager::new("relay", SessionId::new(1), both);
    assert_eq!(with_both.ice_servers().len(), 2);
}
