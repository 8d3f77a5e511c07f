use namushul::connection::{accepted, step, Action, Event, Phase, ReadOutcome, SessionStatus};

fn status(handshaking: bool, wants_read: bool, wants_write: bool) -> Event {
    Event::Status(SessionStatus { handshaking, wants_read, wants_write })
}

#[test]
fn handshake_follows_the_session_flags() {
    assert_eq!(accepted(), (Phase::Handshaking, Action::PollSession));
    assert_eq!(step(Phase::Handshaking, status(true, true, true)), (Phase::Handshaking, Action::FlushHandshake));
    assert_eq!(step(Phase::Handshaking, status(true, true, false)), (Phase::Handshaking, Action::ReadHandshake));
    assert_eq!(step(Phase::Handshaking, status(true, false, false)), (Phase::Aborted, Action::Close));
    assert_eq!(step(Phase::Handshaking, status(false, true, true)), (Phase::ReadingRequest, Action::ReadRequest));
    assert_eq!(
        step(Phase::Handshaking, Event::HandshakeRead(ReadOutcome::WouldBlock)),
        (Phase::Handshaking, Action::PollSession)
    );
    assert_eq!(
        step(Phase::Handshaking, Event::HandshakeRead(ReadOutcome::Data)),
        (Phase::Handshaking, Action::PollSession)
    );
}

#[test]
fn peer_close_during_handshake_aborts_silently() {
    let mut phase = Phase::Handshaking;
    let mut actions = vec![];
    let events = [
        status(true, true, false),
        Event::HandshakeRead(ReadOutcome::WouldBlock),
        Event::HandshakeRead(ReadOutcome::Closed),
        Event::RequestRejected,
        Event::Responded,
        Event::Written,
    ];
    for event in events {
        let (next, action) = step(phase, event);
        phase = next;
        actions.push(action);
    }
    assert_eq!(phase, Phase::Aborted);
    assert!(!actions.contains(&Action::SendResponse));
    assert!(!actions.contains(&Action::Dispatch));
}

#[test]
fn handshake_failures_abort() {
    for event in [
        Event::HandshakeRead(ReadOutcome::Failed),
        Event::SessionFailed,
        Event::TransportFailed,
    ] {
        assert_eq!(step(Phase::Handshaking, event), (Phase::Aborted, Action::Close));
    }
}

#[test]
fn full_connection_lifecycle() {
    let (p, a) = step(Phase::ReadingRequest, Event::RequestPending);
    assert_eq!((p, a), (Phase::ReadingRequest, Action::ReadRequest));
    let (p, a) = step(p, Event::RequestParsed);
    assert_eq!((p, a), (Phase::Dispatching, Action::Dispatch));
    let (p, a) = step(p, Event::Responded);
    assert_eq!((p, a), (Phase::WritingResponse, Action::SendResponse));
    let (p, a) = step(p, Event::Written);
    assert_eq!((p, a), (Phase::Closed, Action::Close));
    assert_eq!(step(p, Event::Written), (Phase::Closed, Action::Idle));
}

#[test]
fn rejected_request_is_answered_without_dispatch() {
    assert_eq!(
        step(Phase::ReadingRequest, Event::RequestRejected),
        (Phase::WritingResponse, Action::SendResponse)
    );
    assert_eq!(step(Phase::ReadingRequest, Event::TransportFailed), (Phase::Aborted, Action::Close));
}

#[test]
fn failures_after_dispatch_close_without_abort() {
    assert_eq!(step(Phase::WritingResponse, Event::TransportFailed), (Phase::Closed, Action::Close));
    assert_eq!(step(Phase::Dispatching, Event::TransportFailed), (Phase::Closed, Action::Close));
}
