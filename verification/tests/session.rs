use wasm_peers::{PairingOutcome, Session, UserId};

#[test]
fn first_join_takes_the_first_slot() {
    let session = Session::open(UserId::new(4));
    assert_eq!(
        session,
        Session { first: Some(UserId::new(4)), second: None, offer_received: false }
    );
    assert!(!session.is_full());
    assert!(!session.is_vacant());
    assert!(session.holds(UserId::new(4)));
    assert!(!session.holds(UserId::new(5)));
    assert_eq!(session.waiting(), Some(UserId::new(4)));
    assert_eq!(session.recipient(), None);
}

#[test]
fn join_fills_the_free_slot_and_refuses_a_third() {
    let mut session = Session::open(UserId::new(1));
    assert_eq!(session.join(UserId::new(2)), PairingOutcome::SecondJoined);
    assert!(session.is_full());
    assert_eq!(session.recipient(), Some(UserId::new(2)));
    let full = session;
    assert_eq!(session.join(UserId::new(3)), PairingOutcome::AlreadyFull);
    assert_eq!(session, full);
}

#[test]
fn join_on_an_empty_session_is_a_first_join() {
    let mut session = Session { first: None, second: None, offer_received: true };
    assert!(session.is_vacant());
    assert_eq!(session.join(UserId::new(6)), PairingOutcome::FirstJoined);
    assert_eq!(
        session,
        Session { first: Some(UserId::new(6)), second: None, offer_received: true }
    );
}

#[test]
fn release_clears_only_the_slots_of_that_endpoint() {
    let mut session =
        Session { first: Some(UserId::new(1)), second: Some(UserId::new(2)), offer_received: true };
    session.release(UserId::new(3));
    assert_eq!(
        session,
        Session { first: Some(UserId::new(1)), second: Some(UserId::new(2)), offer_received: true }
    );
    session.release(UserId::new(1));
    assert_eq!(
        session,
        Session { first: None, second: Some(UserId::new(2)), offer_received: true }
    );
    assert_eq!(session.waiting(), Some(UserId::new(2)));
    assert_eq!(session.recipient(), None);
    assert_eq!(session.join(UserId::new(9)), PairingOutcome::SecondJoined);
    assert_eq!(session.first, Some(UserId::new(9)));
    session.release(UserId::new(9));
    session.release(UserId::new(2));
    assert!(session.is_vacant());
}
