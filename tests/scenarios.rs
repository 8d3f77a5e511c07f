use namushul::application::{about_page, open_request, route, Opening, Route};
use namushul::codec::{LineReader, ProtocolError};
use namushul::connection::handle_request_line;
use namushul::identity::certificate_identity;

fn frame(stream: &[u8]) -> Result<Vec<u8>, ProtocolError> {
    let mut reader = LineReader::new();
    for chunk in stream.chunks(5) {
        if let Some(verdict) = reader.feed(chunk) {
            return verdict;
        }
    }
    Err(reader.close())
}

#[test]
fn anonymous_about_request() {
    let request = handle_request_line(frame(b"gemini://host/about\r\n"), &vec![]).ok().unwrap();
    assert_eq!(request.peer_fingerprint, None);
    let r = route(request.url.path());
    assert_eq!(r, Route::About);
    assert!(matches!(open_request(r, false), Opening::CountUsers));
    let page = about_page(3, 61);
    assert!(page.as_bytes().starts_with(b"20 text/gemini"));
    assert_eq!(
        String::from_utf8(page.as_bytes().to_vec()).unwrap(),
        "20 text/gemini; lang=en\r\n### About\r\n👥 Users: 3 · 🕗 Uptime: a minute\r\n"
    );
}

#[test]
fn identified_fight_request() {
    let certificate = b"0\x82\x01\x0a fake DER bytes".to_vec();
    let chain = vec![b"intermediate".to_vec(), certificate.clone()];
    let request =
        handle_request_line(frame(b"gemini://host/adventure/fight\r\n"), &chain).ok().unwrap();
    let expected = ring::digest::digest(&ring::digest::SHA256, &certificate);
    assert_eq!(request.peer_fingerprint.unwrap().as_slice(), expected.as_ref());
    assert_eq!(route(request.url.path()), Route::Fight);
    assert!(matches!(open_request(Route::Fight, true), Opening::LookUpUser));
}

#[test]
fn oversized_line_gets_bad_request() {
    let stream = vec![b'a'; 2000];
    match handle_request_line(frame(&stream), &vec![]) {
        Ok(_) => panic!("an oversized request must not be dispatched"),
        Err(response) => assert_eq!(response.as_bytes(), b"59 Request too large\r\n"),
    }
}

#[test]
fn query_with_non_ascii_text() {
    let request =
        handle_request_line(frame("gemini://host/x?héllo%20world\r\n".as_bytes()), &vec![])
            .ok()
            .unwrap();
    assert_eq!(request.query, Some("héllo world".to_owned()));
}

#[test]
fn identity_of_chain() {
    assert_eq!(certificate_identity(&vec![]), None);
    let leaf = b"leaf".to_vec();
    let digest = certificate_identity(&vec![leaf.clone()]).unwrap();
    assert_eq!(digest.as_slice(), ring::digest::digest(&ring::digest::SHA256, &leaf).as_ref());
    assert_ne!(digest.as_slice(), &[0u8; 32][..]);
}

#[test]
fn rejected_requests_get_their_reasons() {
    let cases: Vec<(Result<Vec<u8>, ProtocolError>, &[u8])> = vec![
        (Err(ProtocolError::MissingTerminator), b"59 Failed to parse request, expected \\r\\n\r\n"),
        (Ok(vec![0xff]), b"59 Failed to parse utf8 string\r\n"),
        (Ok(b"nope".to_vec()), b"59 Failed to parse url in request\r\n"),
        (Ok(b"gemini://h/?%FF".to_vec()), b"59 Query string contains invalid utf8\r\n"),
    ];
    for (outcome, expected) in cases {
        match handle_request_line(outcome, &vec![]) {
            Ok(_) => panic!("must be rejected"),
            Err(response) => assert_eq!(response.as_bytes(), expected),
        }
    }
}

#[test]
fn malformed_escape_in_query_is_rejected() {
    for stream in [&b"gemini://host/x?%zz\r\n"[..], &b"gemini://host/x?ab%4\r\n"[..]] {
        match handle_request_line(frame(stream), &vec![]) {
            Ok(_) => panic!("a malformed escape must not be dispatched"),
            Err(response) => {
                assert_eq!(response.as_bytes(), b"59 Query string contains invalid utf8\r\n")
            }
        }
    }
}
