use wasm_peers::protocol::{port_overlap, to_decimal};
use wasm_peers::{IceCandidate, SessionId, SignalMessage, UserId, STUN_PORT, TURN_PORT, WS_PORT};

#[test]
fn session_id_wraps_its_number() {
    assert_eq!(SessionId::new(1234).get(), 1234);
    assert_eq!(SessionId::new(u128::MAX).get(), u128::MAX);
    assert_eq!(SessionId::new(5), SessionId::new(5));
    assert_ne!(SessionId::new(5), SessionId::new(6));
}

#[test]
fn session_id_is_written_with_its_prefix() {
    assert_eq!(SessionId::new(1234).to_string(), "Seid-1234");
    assert_eq!(SessionId::new(0).to_string(), "Seid-0");
    assert_eq!(
        SessionId::new(u128::MAX).to_string(),
        "Seid-340282366920938463463374607431768211455"
    );
}

#[test]
fn user_id_wraps_its_number() {
    assert_eq!(UserId::new(17).into_inner(), 17);
    assert_eq!(UserId::from(17), UserId::new(17));
    assert_eq!(UserId::new(17).to_string(), "17");
    assert_eq!(UserId::new(u64::MAX).to_string(), "18446744073709551615");
}

#[test]
fn numbers_are_written_in_decimal() {
    assert_eq!(to_decimal(0), "0");
    assert_eq!(to_decimal(9), "9");
    assert_eq!(to_decimal(10), "10");
    assert_eq!(to_decimal(9003), "9003");
    assert_eq!(to_decimal(1_000_000_007), "1000000007");
    for n in [0u128, 1, 19, 100, 65535, 1 << 64, u128::MAX] {
        assert_eq!(to_decimal(n), format!("{}", n));
    }
}

#[test]
fn reserved_ports_overlap() {
    assert_eq!(WS_PORT, 9003);
    assert_eq!(STUN_PORT, 9004);
    assert_eq!(TURN_PORT, 9004);
    assert!(port_overlap(9003));
    assert!(port_overlap(9004));
    assert!(!port_overlap(9000));
    assert!(!port_overlap(9005));
    assert!(!port_overlap(0));
}

#[test]
fn every_message_names_its_session() {
    let id = SessionId::new(77);
    let candidate = IceCandidate {
        candidate: "candidate".to_string(),
        sdp_mid: None,
        sdp_m_line_index: Some(1),
    };
    let relayed = [
        SignalMessage::SdpOffer(id, "offer".to_string()),
        SignalMessage::SdpAnswer(id, "answer".to_string()),
        SignalMessage::IceCandidate(id, candidate),
    ];
    for message in relayed {
        assert_eq!(message.session_id(), id);
        assert!(message.is_relayed());
    }
    let others = [
        SignalMessage::SessionJoin(id),
        SignalMessage::SessionReady(id),
        SignalMessage::Error(id, "detail".to_string()),
    ];
    for message in others {
        assert_eq!(message.session_id(), id);
        assert!(!message.is_relayed());
    }
}
