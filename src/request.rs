//! Decoding of a framed request line into the request handed to the
//! dispatcher: UTF-8, then an absolute URL, then its percent-encoded query.

use vstd::prelude::*;
use vstd::utf8::{valid_utf8, decode_utf8, encode_utf8, encode_utf8_valid_utf8, encode_utf8_decode_utf8};
use core::str::Utf8Error;
use crate::codec::ProtocolError;
use crate::identity::{certificate_identity, identity_of, chain_view};
use crate::response::{Response, header, code};

verus! {

#[verifier::external_type_specification]
#[verifier::external_body]
pub struct ExUtf8Error(core::str::Utf8Error);

#[verifier::external_type_specification]
#[verifier::external_body]
pub struct ExParseError(url::ParseError);

/// The view of an optional string.
pub open spec fn opt_chars(o: Option<String>) -> Option<Seq<char>> {
    match o {
        Some(s) => Some(s@),
        None => None,
    }
}

/// The parts of an absolute URL that the server reads.
pub struct RequestUrl {
    text: String,
    path: String,
    query: Option<String>,
}

impl View for RequestUrl {
    /// The serialization, the path and the query (without its `?`).
    type V = (Seq<char>, Seq<char>, Option<Seq<char>>);

    closed spec fn view(&self) -> (Seq<char>, Seq<char>, Option<Seq<char>>) {
        (self.text@, self.path@, opt_chars(self.query))
    }
}

impl RequestUrl {
    /// The URL as serialized by the parser.
    pub fn as_str(&self) -> (r: &str)
        ensures
            r@ == self@.0,
    {
        self.text.as_str()
    }

    /// The path, percent-encoded.
    pub fn path(&self) -> (r: &str)
        ensures
            r@ == self@.1,
    {
        self.path.as_str()
    }

    /// The query, percent-encoded, if the URL has one (possibly empty).
    pub fn query(&self) -> (r: Option<&str>)
        ensures
            match r {
                Some(q) => self@.2 == Some(q@),
                None => self@.2 is None,
            },
    {
        match &self.query {
            Some(q) => Some(q.as_str()),
            None => None,
        }
    }
}

/// What `url::Url::parse` makes of `s`: `None` when `s` is not an absolute
/// URL, else the serialization, path and query of the URL.
pub uninterp spec fn url_parts(s: Seq<char>) -> Option<(Seq<char>, Seq<char>, Option<Seq<char>>)>;

/// Relies on `url::Url::parse` (with `Url::as_str`, `Url::path` and
/// `Url::query` to read the result): the outcome depends on `s` alone.
#[verifier::external_body]
fn parse_url(s: &str) -> (r: Result<RequestUrl, url::ParseError>)
    ensures
        match r {
            Ok(u) => url_parts(s@) == Some(u@),
            Err(_) => url_parts(s@) is None,
        },
{
    match url::Url::parse(s) {
        Ok(u) => Ok(
            RequestUrl {
                text: u.as_str().to_owned(),
                path: u.path().to_owned(),
                query: u.query().map(str::to_owned),
            },
        ),
        Err(e) => Err(e),
    }
}

/// Relies on `std::str::from_utf8`: succeeds exactly on valid UTF-8, with the
/// characters it encodes.
#[verifier::external_body]
fn str_from_utf8(b: &[u8]) -> (r: Result<&str, Utf8Error>)
    ensures
        match r {
            Ok(s) => valid_utf8(b@) && s@ == decode_utf8(b@),
            Err(_) => !valid_utf8(b@),
        },
{
    core::str::from_utf8(b)
}

/// The value of an ASCII hexadecimal digit.
pub open spec fn hex_value(c: u8) -> Option<u8> {
    if 48 <= c <= 57 {
        Some((c - 48) as u8)
    } else if 65 <= c <= 70 {
        Some((c - 55) as u8)
    } else if 97 <= c <= 102 {
        Some((c - 87) as u8)
    } else {
        None
    }
}

/// Percent-decoding: each `%` followed by two hexadecimal digits stands for
/// the byte they spell; every other byte stands for itself.
pub open spec fn percent_decoded(b: Seq<u8>) -> Seq<u8>
    decreases b.len(),
{
    if b.len() == 0 {
        Seq::empty()
    } else if b[0] == 37u8 && b.len() >= 3 && hex_value(b[1]) is Some && hex_value(b[2]) is Some {
        seq![(hex_value(b[1])->Some_0 * 16 + hex_value(b[2])->Some_0) as u8] + percent_decoded(
            b.skip(3),
        )
    } else {
        seq![b[0]] + percent_decoded(b.skip(1))
    }
}

/// Relies on `percent_encoding::percent_decode` followed by
/// `PercentDecode::decode_utf8`: the percent-decoded bytes, read as UTF-8.
#[verifier::external_body]
fn percent_decode_utf8(b: &[u8]) -> (r: Result<String, Utf8Error>)
    ensures
        match r {
            Ok(s) => valid_utf8(percent_decoded(b@)) && s@ == decode_utf8(percent_decoded(b@)),
            Err(_) => !valid_utf8(percent_decoded(b@)),
        },
{
    percent_encoding::percent_decode(b).decode_utf8().map(|c| c.into_owned())
}

/// Every `%` in `b` starts an escape: it is followed by two hexadecimal digits.
pub open spec fn escapes_well_formed(b: Seq<u8>) -> bool
    decreases b.len(),
{
    if b.len() == 0 {
        true
    } else if b[0] == 37u8 {
        b.len() >= 3 && hex_value(b[1]) is Some && hex_value(b[2]) is Some && escapes_well_formed(
            b.skip(3),
        )
    } else {
        escapes_well_formed(b.skip(1))
    }
}

fn is_hex_digit(c: u8) -> (r: bool)
    ensures
        r == hex_value(c) is Some,
{
    (48u8 <= c && c <= 57u8) || (65u8 <= c && c <= 70u8) || (97u8 <= c && c <= 102u8)
}

/// Checks that every `%` of `b` starts a two-digit escape.
pub fn check_escapes(b: &[u8]) -> (r: bool)
    ensures
        r == escapes_well_formed(b@),
{
    let n = b.len();
    let mut i: usize = 0;
    assert(b@.skip(0) =~= b@);
    while i < n
        invariant
            n == b@.len(),
            i <= n,
            escapes_well_formed(b@) == escapes_well_formed(b@.skip(i as int)),
        decreases n - i,
    {
        let rest = Ghost(b@.skip(i as int));
        if b[i] == 37u8 {
            if n - i > 2 && is_hex_digit(b[i + 1]) && is_hex_digit(b[i + 2]) {
                assert(rest@.skip(3) =~= b@.skip(i + 3));
                i = i + 3;
            } else {
                return false;
            }
        } else {
            assert(rest@.skip(1) =~= b@.skip(i + 1));
            i = i + 1;
        }
    }
    assert(b@.skip(i as int) =~= Seq::<u8>::empty());
    true
}

/// The decoded query: none without a query; an error when a `%` of the query
/// does not start a two-digit escape; else the percent-decoded query read as
/// UTF-8.
pub open spec fn decoded_query(q: Option<Seq<char>>) -> Result<Option<Seq<char>>, ProtocolError> {
    match q {
        None => Ok(None),
        Some(q) => {
            let d = percent_decoded(encode_utf8(q));
            if !escapes_well_formed(encode_utf8(q)) {
                Err(ProtocolError::InvalidQueryEncoding)
            } else if valid_utf8(d) {
                Ok(Some(decode_utf8(d)))
            } else {
                Err(ProtocolError::InvalidQueryEncoding)
            }
        },
    }
}

/// Decodes an optional percent-encoded query.
pub fn decode_query(query: Option<&str>) -> (r: Result<Option<String>, ProtocolError>)
    ensures
        match r {
            Ok(d) => decoded_query(
                match query {
                    Some(q) => Some(q@),
                    None => None,
                },
            ) == Ok::<Option<Seq<char>>, ProtocolError>(opt_chars(d)),
            Err(e) => decoded_query(
                match query {
                    Some(q) => Some(q@),
                    None => None,
                },
            ) == Err::<Option<Seq<char>>, ProtocolError>(e),
        },
{
    match query {
        None => Ok(None),
        Some(q) => {
            let bytes = q.as_bytes();
            if !check_escapes(bytes) {
                return Err(ProtocolError::InvalidQueryEncoding);
            }
            match percent_decode_utf8(bytes) {
                Ok(d) => Ok(Some(d)),
                Err(_) => Err(ProtocolError::InvalidQueryEncoding),
            }
        },
    }
}

/// The URL that a request line (without its terminator) carries.
pub open spec fn line_url(line: Seq<u8>) -> Result<
    (Seq<char>, Seq<char>, Option<Seq<char>>),
    ProtocolError,
> {
    if !valid_utf8(line) {
        Err(ProtocolError::InvalidEncoding)
    } else {
        match url_parts(decode_utf8(line)) {
            Some(parts) => Ok(parts),
            None => Err(ProtocolError::InvalidUrl),
        }
    }
}

/// Reads a request line (without its terminator) as an absolute URL.
pub fn parse_request_line(line: &[u8]) -> (r: Result<RequestUrl, ProtocolError>)
    ensures
        match r {
            Ok(u) => line_url(line@) == Ok::<_, ProtocolError>(u@),
            Err(e) => line_url(line@) == Err::<(Seq<char>, Seq<char>, Option<Seq<char>>), _>(e),
        },
{
    let text = match str_from_utf8(line) {
        Ok(t) => t,
        Err(_) => return Err(ProtocolError::InvalidEncoding),
    };
    match parse_url(text) {
        Ok(u) => Ok(u),
        Err(_) => Err(ProtocolError::InvalidUrl),
    }
}

/// A request, ready for the dispatcher.
pub struct Request {
    pub url: RequestUrl,
    /// The decoded query, if the URL has a query.
    pub query: Option<String>,
    /// The digest of the client's end-entity certificate, if it presented one.
    pub peer_fingerprint: Option<[u8; 32]>,
}

/// The view of an optional fingerprint.
pub open spec fn opt_bytes(o: Option<[u8; 32]>) -> Option<Seq<u8>> {
    match o {
        Some(d) => Some(d@),
        None => None,
    }
}

/// Turns a framed request line and the client's certificate chain into a
/// request: fails as `line_url` says, or when the query cannot be decoded.
pub fn prepare_request(line: &[u8], peer_certificates: &Vec<Vec<u8>>) -> (r: Result<
    Request,
    ProtocolError,
>)
    ensures
        match r {
            Ok(req) => {
                &&& line_url(line@) == Ok::<_, ProtocolError>(req.url@)
                &&& decoded_query(req.url@.2) == Ok::<_, ProtocolError>(opt_chars(req.query))
                &&& opt_bytes(req.peer_fingerprint) == identity_of(chain_view(peer_certificates@))
            },
            Err(e) => match line_url(line@) {
                Err(le) => e == le,
                Ok(parts) => decoded_query(parts.2) == Err::<Option<Seq<char>>, _>(e),
            },
        },
{
    let url = match parse_request_line(line) {
        Ok(u) => u,
        Err(e) => return Err(e),
    };
    let peer_fingerprint = certificate_identity(peer_certificates);
    let query = match decode_query(url.query()) {
        Ok(q) => q,
        Err(e) => return Err(e),
    };
    Ok(Request { url, query, peer_fingerprint })
}

/// The reason given in the `59` response for each protocol error.
pub open spec fn error_message(e: ProtocolError) -> Seq<char> {
    match e {
        ProtocolError::InvalidEncoding => "Failed to parse utf8 string"@,
        ProtocolError::InvalidUrl => "Failed to parse url in request"@,
        ProtocolError::TooLarge => "Request too large"@,
        ProtocolError::MissingTerminator => "Failed to parse request, expected \\r\\n"@,
        ProtocolError::InvalidQueryEncoding => "Query string contains invalid utf8"@,
    }
}

/// The response the server sends itself for a request it could not decode:
/// status 59, with the reason for the error.
pub fn error_response(e: ProtocolError) -> (r: Response)
    ensures
        r@ == header(code('5', '9'), error_message(e)),
{
    let reason = match e {
        ProtocolError::InvalidEncoding => "Failed to parse utf8 string",
        ProtocolError::InvalidUrl => "Failed to parse url in request",
        ProtocolError::TooLarge => "Request too large",
        ProtocolError::MissingTerminator => "Failed to parse request, expected \\r\\n",
        ProtocolError::InvalidQueryEncoding => "Query string contains invalid utf8",
    };
    Response::bad_request(String::from_str(reason))
}

/// An upper-case hexadecimal digit for a value below sixteen.
pub open spec fn hex_digit(v: u8) -> u8 {
    if v < 10 {
        (48 + v) as u8
    } else {
        (55 + v) as u8
    }
}

/// Percent-encoding: each byte that `escape` selects becomes `%` and two
/// upper-case hexadecimal digits; every other byte stays as it is.
pub open spec fn percent_encoded(b: Seq<u8>, escape: spec_fn(u8) -> bool) -> Seq<u8>
    decreases b.len(),
{
    if b.len() == 0 {
        Seq::empty()
    } else {
        (if escape(b[0]) {
            seq![37u8, hex_digit(b[0] / 16), hex_digit(b[0] % 16)]
        } else {
            seq![b[0]]
        }) + percent_encoded(b.skip(1), escape)
    }
}

/// Percent-decoding undoes percent-encoding, whenever `%` itself is escaped.
pub proof fn lemma_percent_round_trip(b: Seq<u8>, escape: spec_fn(u8) -> bool)
    requires
        escape(37u8),
    ensures
        percent_decoded(percent_encoded(b, escape)) == b,
    decreases b.len(),
{
    if b.len() > 0 {
        let e = percent_encoded(b, escape);
        let rest = percent_encoded(b.skip(1), escape);
        lemma_percent_round_trip(b.skip(1), escape);
        let x = b[0];
        if escape(x) {
            let hi = (x / 16) as u8;
            let lo = (x % 16) as u8;
            assert(hex_value(hex_digit(hi)) == Some(hi));
            assert(hex_value(hex_digit(lo)) == Some(lo));
            assert(e.skip(3) =~= rest);
            assert((hi * 16 + lo) as u8 == x);
        } else {
            assert(e.skip(1) =~= rest);
        }
        assert(percent_decoded(e) =~= b);
    }
}

/// Percent-encoding with `%` among the escaped bytes leaves no stray `%`.
pub proof fn lemma_encoded_escapes_well_formed(b: Seq<u8>, escape: spec_fn(u8) -> bool)
    requires
        escape(37u8),
    ensures
        escapes_well_formed(percent_encoded(b, escape)),
    decreases b.len(),
{
    if b.len() > 0 {
        let e = percent_encoded(b, escape);
        let rest = percent_encoded(b.skip(1), escape);
        lemma_encoded_escapes_well_formed(b.skip(1), escape);
        let x = b[0];
        if escape(x) {
            let hi = (x / 16) as u8;
            let lo = (x % 16) as u8;
            assert(hex_value(hex_digit(hi)) == Some(hi));
            assert(hex_value(hex_digit(lo)) == Some(lo));
            assert(e.skip(3) =~= rest);
        } else {
            assert(e.skip(1) =~= rest);
        }
    }
}

/// A query whose text is the percent-encoding of the UTF-8 bytes of `s`
/// (with `%` among the escaped bytes) decodes to `s`.
pub proof fn lemma_query_round_trip(s: Seq<char>, q: Seq<char>, escape: spec_fn(u8) -> bool)
    requires
        escape(37u8),
        encode_utf8(q) == percent_encoded(encode_utf8(s), escape),
    ensures
        decoded_query(Some(q)) == Ok::<_, ProtocolError>(Some(s)),
{
    lemma_percent_round_trip(encode_utf8(s), escape);
    lemma_encoded_escapes_well_formed(encode_utf8(s), escape);
    encode_utf8_valid_utf8(s);
    encode_utf8_decode_utf8(s);
}

/// A URL without a query has no decoded query, which differs from the empty
/// decoded query of a URL whose query is empty.
pub proof fn lemma_absent_and_empty_query()
    ensures
        decoded_query(None) == Ok::<Option<Seq<char>>, ProtocolError>(None),
        decoded_query(Some(Seq::empty())) == Ok::<_, ProtocolError>(Some(Seq::<char>::empty())),
{
    let e = Seq::<char>::empty();
    assert(encode_utf8(e) =~= Seq::<u8>::empty());
    assert(percent_decoded(Seq::<u8>::empty()) =~= Seq::<u8>::empty());
    encode_utf8_valid_utf8(e);
    encode_utf8_decode_utf8(e);
}

} // verus!
