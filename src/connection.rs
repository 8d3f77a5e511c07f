//! The per-connection protocol driver, as a state machine: the caller performs
//! each action on the socket and the TLS session and reports what happened.
//!
//! `Handshaking -> ReadingRequest -> Dispatching -> WritingResponse -> Closed`,
//! with `Aborted` reachable only before a response exists: once the
//! dispatcher has been reached, a failure ends the connection in `Closed`.
//! Nothing is ever sent to a client whose handshake did not complete.

use vstd::prelude::*;
use crate::codec::ProtocolError;
use crate::identity::{identity_of, chain_view};
use crate::request::{
    Request, prepare_request, error_response, line_url, decoded_query, opt_chars, opt_bytes,
    error_message,
};
use crate::response::{Response, header, code};

verus! {

/// Where a connection stands.
#[derive(PartialEq, Eq, Structural, Debug, Clone, Copy)]
pub enum Phase {
    Handshaking,
    ReadingRequest,
    Dispatching,
    WritingResponse,
    Closed,
    Aborted,
}

/// What the TLS session reports while it negotiates.
#[derive(PartialEq, Eq, Structural, Debug, Clone, Copy)]
pub struct SessionStatus {
    pub handshaking: bool,
    pub wants_read: bool,
    pub wants_write: bool,
}

/// The result of one read from the socket.
#[derive(PartialEq, Eq, Structural, Debug, Clone, Copy)]
pub enum ReadOutcome {
    /// Some bytes arrived.
    Data,
    /// No bytes are available yet.
    WouldBlock,
    /// The peer closed the connection (a read of zero bytes).
    Closed,
    /// The socket failed.
    Failed,
}

/// What the caller reports to the driver.
#[derive(PartialEq, Eq, Structural, Debug, Clone, Copy)]
pub enum Event {
    /// The session's progress during the handshake.
    Status(SessionStatus),
    /// A read of ciphertext for the handshake.
    HandshakeRead(ReadOutcome),
    /// The session could not process what it received.
    SessionFailed,
    /// The request line is not complete yet.
    RequestPending,
    /// The request was read and decoded.
    RequestParsed,
    /// The request was rejected; the error response is ready.
    RequestRejected,
    /// The dispatcher returned its response.
    Responded,
    /// The response was written out and the close notification sent.
    Written,
    /// The socket failed.
    TransportFailed,
}

/// What the driver asks the caller to do next.
#[derive(PartialEq, Eq, Structural, Debug, Clone, Copy)]
pub enum Action {
    /// Write the session's buffered handshake bytes to the socket.
    FlushHandshake,
    /// Read ciphertext from the socket into the session.
    ReadHandshake,
    /// Let the session process what it has and report its status.
    PollSession,
    /// Read application bytes of the request line.
    ReadRequest,
    /// Hand the request to the dispatcher.
    Dispatch,
    /// Write the response to the client.
    SendResponse,
    /// Close the socket.
    Close,
    /// Nothing is left to do.
    Idle,
}

/// The transition table of the driver.
pub open spec fn next(phase: Phase, event: Event) -> (Phase, Action) {
    match phase {
        Phase::Handshaking => match event {
            Event::Status(s) => if !s.handshaking {
                (Phase::ReadingRequest, Action::ReadRequest)
            } else if s.wants_write {
                (Phase::Handshaking, Action::FlushHandshake)
            } else if s.wants_read {
                (Phase::Handshaking, Action::ReadHandshake)
            } else {
                (Phase::Aborted, Action::Close)
            },
            Event::HandshakeRead(ReadOutcome::Data) => (Phase::Handshaking, Action::PollSession),
            Event::HandshakeRead(ReadOutcome::WouldBlock) => (
                Phase::Handshaking,
                Action::PollSession,
            ),
            _ => (Phase::Aborted, Action::Close),
        },
        Phase::ReadingRequest => match event {
            Event::RequestPending => (Phase::ReadingRequest, Action::ReadRequest),
            Event::RequestParsed => (Phase::Dispatching, Action::Dispatch),
            Event::RequestRejected => (Phase::WritingResponse, Action::SendResponse),
            _ => (Phase::Aborted, Action::Close),
        },
        Phase::Dispatching => match event {
            Event::Responded => (Phase::WritingResponse, Action::SendResponse),
            _ => (Phase::Closed, Action::Close),
        },
        Phase::WritingResponse => match event {
            Event::Written => (Phase::Closed, Action::Close),
            _ => (Phase::Closed, Action::Close),
        },
        Phase::Closed => (Phase::Closed, Action::Idle),
        Phase::Aborted => (Phase::Aborted, Action::Idle),
    }
}

/// The phase of a newly accepted connection: the handshake starts at once.
pub fn accepted() -> (r: (Phase, Action))
    ensures
        r == (Phase::Handshaking, Action::PollSession),
{
    (Phase::Handshaking, Action::PollSession)
}

/// One transition of the driver.
pub fn step(phase: Phase, event: Event) -> (r: (Phase, Action))
    ensures
        r == next(phase, event),
{
    match phase {
        Phase::Handshaking => match event {
            Event::Status(s) => if !s.handshaking {
                (Phase::ReadingRequest, Action::ReadRequest)
            } else if s.wants_write {
                (Phase::Handshaking, Action::FlushHandshake)
            } else if s.wants_read {
                (Phase::Handshaking, Action::ReadHandshake)
            } else {
                (Phase::Aborted, Action::Close)
            },
            Event::HandshakeRead(ReadOutcome::Data) => (Phase::Handshaking, Action::PollSession),
            Event::HandshakeRead(ReadOutcome::WouldBlock) => (
                Phase::Handshaking,
                Action::PollSession,
            ),
            _ => (Phase::Aborted, Action::Close),
        },
        Phase::ReadingRequest => match event {
            Event::RequestPending => (Phase::ReadingRequest, Action::ReadRequest),
            Event::RequestParsed => (Phase::Dispatching, Action::Dispatch),
            Event::RequestRejected => (Phase::WritingResponse, Action::SendResponse),
            _ => (Phase::Aborted, Action::Close),
        },
        Phase::Dispatching => match event {
            Event::Responded => (Phase::WritingResponse, Action::SendResponse),
            _ => (Phase::Closed, Action::Close),
        },
        Phase::WritingResponse => match event {
            Event::Written => (Phase::Closed, Action::Close),
            _ => (Phase::Closed, Action::Close),
        },
        Phase::Closed => (Phase::Closed, Action::Idle),
        Phase::Aborted => (Phase::Aborted, Action::Idle),
    }
}

/// A connection is aborted only while handshaking or reading the request,
/// before any response exists; an aborted connection stays aborted.
pub proof fn lemma_abort_only_before_response(phase: Phase, event: Event)
    ensures
        next(phase, event).0 == Phase::Aborted ==> (phase == Phase::Handshaking || phase
            == Phase::ReadingRequest || phase == Phase::Aborted),
{
}

/// Some action of the run from `phase` through `events` sends a response.
pub open spec fn sends(phase: Phase, events: Seq<Event>) -> bool
    decreases events.len(),
{
    if events.len() == 0 {
        false
    } else {
        let (p, a) = next(phase, events[0]);
        a == Action::SendResponse || sends(p, events.drop_first())
    }
}

/// Every event of `events` leaves a handshaking connection handshaking.
pub open spec fn keeps_handshaking(events: Seq<Event>) -> bool {
    forall|i: int| 0 <= i < events.len() ==> (#[trigger] next(Phase::Handshaking, events[i])).0
        == Phase::Handshaking
}

proof fn lemma_aborted_sends_nothing(events: Seq<Event>)
    ensures
        !sends(Phase::Aborted, events),
    decreases events.len(),
{
    if events.len() > 0 {
        lemma_aborted_sends_nothing(events.drop_first());
    }
}

/// A handshake that ends because the peer closed the socket leads to no
/// response at all, whatever is reported afterwards.
pub proof fn lemma_handshake_close_sends_nothing(before: Seq<Event>, after: Seq<Event>)
    requires
        keeps_handshaking(before),
    ensures
        !sends(
            Phase::Handshaking,
            before + seq![Event::HandshakeRead(ReadOutcome::Closed)] + after,
        ),
    decreases before.len(),
{
    let events = before + seq![Event::HandshakeRead(ReadOutcome::Closed)] + after;
    if before.len() == 0 {
        assert(events.drop_first() =~= after);
        lemma_aborted_sends_nothing(after);
    } else {
        assert(next(Phase::Handshaking, before[0]).0 == Phase::Handshaking);
        let rest = before.drop_first();
        assert(keeps_handshaking(rest)) by {
            assert forall|i: int| 0 <= i < rest.len() implies (#[trigger] next(
                Phase::Handshaking,
                rest[i],
            )).0 == Phase::Handshaking by {
                assert(rest[i] == before[i + 1]);
            }
        }
        lemma_handshake_close_sends_nothing(rest, after);
        assert(events.drop_first() =~= rest + seq![Event::HandshakeRead(ReadOutcome::Closed)]
            + after);
    }
}

/// What the server does with the outcome of reading the request line: the
/// request to dispatch, or the error response it sends without dispatching.
pub fn handle_request_line(
    outcome: Result<Vec<u8>, ProtocolError>,
    peer_certificates: &Vec<Vec<u8>>,
) -> (r: Result<Request, Response>)
    ensures
        match r {
            Ok(req) => outcome is Ok && {
                let line = outcome->Ok_0@;
                &&& line_url(line) == Ok::<_, ProtocolError>(req.url@)
                &&& decoded_query(req.url@.2) == Ok::<_, ProtocolError>(opt_chars(req.query))
                &&& opt_bytes(req.peer_fingerprint) == identity_of(
                    chain_view(peer_certificates@),
                )
            },
            Err(resp) => exists|e: ProtocolError|
                {
                    &&& resp@ == header(code('5', '9'), error_message(e))
                    &&& match outcome {
                        Err(fe) => e == fe,
                        Ok(line) => match line_url(line@) {
                            Err(le) => e == le,
                            Ok(parts) => decoded_query(parts.2) == Err::<Option<Seq<char>>, _>(
                                e,
                            ),
                        },
                    }
                },
        },
{
    match outcome {
        Err(e) => Err(error_response(e)),
        Ok(line) => match prepare_request(line.as_slice(), peer_certificates) {
            Ok(req) => Ok(req),
            Err(e) => Err(error_response(e)),
        },
    }
}

} // verus!
