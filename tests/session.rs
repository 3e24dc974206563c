use rustic_balancer::session::{Action, Event, Outcome, Phase, Session, BUF_SIZE};

fn connected() -> Session {
    let (mut session, action) = Session::new("127.0.0.1:8080".to_string());
    assert_eq!(action, Action::Connect("127.0.0.1:8080".to_string()));
    assert_eq!(session.phase(), Phase::Connecting);
    assert_eq!(session.step(Event::Connected), Action::ReadClient(1024));
    session
}

#[test]
fn buffer_is_1024_bytes() {
    assert_eq!(BUF_SIZE, 1024);
}

#[test]
fn one_request_and_one_response_are_relayed() {
    let mut session = connected();
    assert_eq!(
        session.step(Event::Received(b"ping".to_vec())),
        Action::WriteBackend(b"ping".to_vec())
    );
    assert_eq!(session.step(Event::Sent), Action::ReadBackend(1024));
    assert_eq!(
        session.step(Event::Received(b"pong".to_vec())),
        Action::WriteClient(b"pong".to_vec())
    );
    assert_eq!(session.step(Event::Sent), Action::Close(Outcome::Relayed));
    assert_eq!(session.phase(), Phase::Closed);
}

#[test]
fn request_of_1024_bytes_is_forwarded_in_full() {
    let mut session = connected();
    let payload: Vec<u8> = (0..1024).map(|i| (i % 251) as u8).collect();
    assert_eq!(session.step(Event::Received(payload.clone())), Action::WriteBackend(payload));
}

#[test]
fn request_of_1025_bytes_is_cut_to_1024() {
    let mut session = connected();
    let payload: Vec<u8> = (0..1025).map(|i| (i % 251) as u8).collect();
    let expected = payload[..1024].to_vec();
    assert_eq!(session.step(Event::Received(payload)), Action::WriteBackend(expected));
}

#[test]
fn response_of_1025_bytes_is_cut_to_1024() {
    let mut session = connected();
    session.step(Event::Received(vec![1]));
    session.step(Event::Sent);
    let response: Vec<u8> = vec![7; 1025];
    assert_eq!(session.step(Event::Received(response)), Action::WriteClient(vec![7; 1024]));
}

#[test]
fn zero_byte_request_ends_without_forwarding() {
    let mut session = connected();
    assert_eq!(session.step(Event::Received(Vec::new())), Action::Close(Outcome::ClientClosed));
    assert_eq!(session.phase(), Phase::Closed);
}

#[test]
fn zero_byte_response_ends_session() {
    let mut session = connected();
    session.step(Event::Received(vec![1, 2, 3]));
    session.step(Event::Sent);
    assert_eq!(session.step(Event::Received(Vec::new())), Action::Close(Outcome::BackendClosed));
}

#[test]
fn connect_failure_ends_session() {
    let (mut session, _) = Session::new("127.0.0.1:1".to_string());
    assert_eq!(session.step(Event::Failed), Action::Close(Outcome::ConnectFailed));
    assert_eq!(session.phase(), Phase::Closed);
}

#[test]
fn each_failure_is_named_by_its_phase() {
    let mut session = connected();
    assert_eq!(session.step(Event::Failed), Action::Close(Outcome::ClientReadFailed));

    let mut session = connected();
    session.step(Event::Received(vec![1]));
    assert_eq!(session.step(Event::Failed), Action::Close(Outcome::BackendWriteFailed));

    let mut session = connected();
    session.step(Event::Received(vec![1]));
    session.step(Event::Sent);
    assert_eq!(session.step(Event::Failed), Action::Close(Outcome::BackendReadFailed));

    let mut session = connected();
    session.step(Event::Received(vec![1]));
    session.step(Event::Sent);
    session.step(Event::Received(vec![2]));
    assert_eq!(session.step(Event::Failed), Action::Close(Outcome::ClientWriteFailed));
}

#[test]
fn events_out_of_place_end_session() {
    let (mut session, _) = Session::new("127.0.0.1:8080".to_string());
    assert_eq!(session.step(Event::Sent), Action::Close(Outcome::Unexpected));

    let mut session = connected();
    assert_eq!(session.step(Event::Connected), Action::Close(Outcome::Unexpected));
}

#[test]
fn closed_session_stays_closed() {
    let mut session = connected();
    session.step(Event::Received(Vec::new()));
    assert_eq!(session.step(Event::Received(vec![1])), Action::Close(Outcome::Unexpected));
    assert_eq!(session.step(Event::Failed), Action::Close(Outcome::Unexpected));
    assert_eq!(session.phase(), Phase::Closed);
}
