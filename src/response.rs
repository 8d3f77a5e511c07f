//! Gemini responses: a two-digit status code, a meta string and, for the
//! success class only, a body.

use vstd::prelude::*;
use crate::text::{decimal, push_decimal};
use crate::duration::whole_seconds;
use vstd::utf8::encode_utf8;
use core::time::Duration;

verus! {

/// The line terminator of the protocol.
pub open spec fn crlf() -> Seq<char> {
    seq!['\r', '\n']
}

/// A response header: `<code> <meta>\r\n`.
pub open spec fn header(code: Seq<char>, meta: Seq<char>) -> Seq<char> {
    code + seq![' '] + meta + crlf()
}

/// A content language tag.
pub struct Language(String);

impl View for Language {
    type V = Seq<char>;

    closed spec fn view(&self) -> Seq<char> {
        self.0@
    }
}

impl Language {
    pub fn english() -> (r: Language)
        ensures
            r@ == seq!['e', 'n'],
    {
        proof { reveal_strlit("en"); }
        let r = Language(String::from_str("en"));
        assert(r@ =~= seq!['e', 'n']);
        r
    }
}

/// A MIME media type, used as the meta string of a success response.
pub struct MediaType(String);

/// `text/gemini`.
pub open spec fn gemini_type() -> Seq<char> {
    seq!['t', 'e', 'x', 't', '/', 'g', 'e', 'm', 'i', 'n', 'i']
}

/// The parameter that introduces a language: `; lang=`.
pub open spec fn lang_param() -> Seq<char> {
    seq![';', ' ', 'l', 'a', 'n', 'g', '=']
}

impl View for MediaType {
    type V = Seq<char>;

    closed spec fn view(&self) -> Seq<char> {
        self.0@
    }
}

impl MediaType {
    /// `text/gemini`, with a `lang` parameter when a language is given.
    pub fn gemini(language: Option<Language>) -> (r: MediaType)
        ensures
            r@ == match language {
                Some(l) => gemini_type() + lang_param() + l@,
                None => gemini_type(),
            },
    {
        proof {
            reveal_strlit("text/gemini");
            reveal_strlit("; lang=");
        }
        let mut s = String::from_str("text/gemini");
        assert(s@ =~= gemini_type());
        match language {
            Some(l) => {
                s.append("; lang=");
                s.append(l.0.as_str());
                assert(s@ =~= gemini_type() + lang_param() + l@);
            },
            None => {},
        }
        MediaType(s)
    }
}

/// A complete response, as it is written to the client.
pub struct Response(String);

impl View for Response {
    type V = Seq<char>;

    closed spec fn view(&self) -> Seq<char> {
        self.0@
    }
}

/// The two characters of a status code.
pub open spec fn code(a: char, b: char) -> Seq<char> {
    seq![a, b]
}

/// Builds `<code> <meta>\r\n`.
fn with_header(status: &str, meta: &str) -> (r: String)
    ensures
        r@ == header(status@, meta@),
{
    proof {
        reveal_strlit(" ");
        reveal_strlit("\r\n");
    }
    let mut s = String::from_str(status);
    s.append(" ");
    s.append(meta);
    s.append("\r\n");
    assert(s@ =~= header(status@, meta@));
    s
}

impl Response {
    /// 10: the resource accepts a line of user input; `prompt` is shown to the user.
    pub fn input(prompt: String) -> (r: Response)
        ensures
            r@ == header(code('1', '0'), prompt@),
    {
        proof { reveal_strlit("10"); }
        assert("10"@ =~= code('1', '0'));
        Response(with_header("10", prompt.as_str()))
    }

    /// 11: as `input`, for sensitive input that the client should not echo.
    pub fn sensitive_input(prompt: String) -> (r: Response)
        ensures
            r@ == header(code('1', '1'), prompt@),
    {
        proof { reveal_strlit("11"); }
        assert("11"@ =~= code('1', '1'));
        Response(with_header("11", prompt.as_str()))
    }

    /// 20: success; the header names the media type and the body follows it.
    pub fn success(media_type: MediaType, contents: String) -> (r: Response)
        ensures
            r@ == header(code('2', '0'), media_type@) + contents@,
    {
        proof { reveal_strlit("20"); }
        assert("20"@ =~= code('2', '0'));
        let mut s = with_header("20", media_type.0.as_str());
        s.append(contents.as_str());
        Response(s)
    }

    /// 30: temporary redirect to `url`.
    pub fn redirect_temporary(url: String) -> (r: Response)
        ensures
            r@ == header(code('3', '0'), url@),
    {
        proof { reveal_strlit("30"); }
        assert("30"@ =~= code('3', '0'));
        Response(with_header("30", url.as_str()))
    }

    /// 31: permanent redirect to `url`.
    pub fn redirect_permanent(url: String) -> (r: Response)
        ensures
            r@ == header(code('3', '1'), url@),
    {
        proof { reveal_strlit("31"); }
        assert("31"@ =~= code('3', '1'));
        Response(with_header("31", url.as_str()))
    }

    /// 40: temporary failure.
    pub fn temporary_failure(reason: String) -> (r: Response)
        ensures
            r@ == header(code('4', '0'), reason@),
    {
        proof { reveal_strlit("40"); }
        assert("40"@ =~= code('4', '0'));
        Response(with_header("40", reason.as_str()))
    }

    /// 41: the server is unavailable (overload or maintenance).
    pub fn server_unavailable(reason: String) -> (r: Response)
        ensures
            r@ == header(code('4', '1'), reason@),
    {
        proof { reveal_strlit("41"); }
        assert("41"@ =~= code('4', '1'));
        Response(with_header("41", reason.as_str()))
    }

    /// 42: a content generator failed or timed out.
    pub fn cgi_error(reason: String) -> (r: Response)
        ensures
            r@ == header(code('4', '2'), reason@),
    {
        proof { reveal_strlit("42"); }
        assert("42"@ =~= code('4', '2'));
        Response(with_header("42", reason.as_str()))
    }

    /// 43: a proxy request failed.
    pub fn proxy_error(reason: String) -> (r: Response)
        ensures
            r@ == header(code('4', '3'), reason@),
    {
        proof { reveal_strlit("43"); }
        assert("43"@ =~= code('4', '3'));
        Response(with_header("43", reason.as_str()))
    }

    /// 44: rate limiting; the meta string is the number of whole seconds to wait.
    pub fn slow_down_seconds(seconds: u64) -> (r: Response)
        ensures
            r@ == header(code('4', '4'), decimal(seconds as nat)),
    {
        proof {
            reveal_strlit("44 ");
            reveal_strlit("\r\n");
        }
        let mut s = String::from_str("44 ");
        push_decimal(&mut s, seconds);
        s.append("\r\n");
        assert(s@ =~= header(code('4', '4'), decimal(seconds as nat)));
        Response(s)
    }

    /// 44: rate limiting, with the wait given as a duration (whole seconds are sent).
    pub fn slow_down(minimum_time_before_retry_allowed: Duration) -> (r: Response)
        ensures
            exists|s: u64| r@ == header(code('4', '4'), decimal(s as nat)),
    {
        Self::slow_down_seconds(whole_seconds(&minimum_time_before_retry_allowed))
    }

    /// 50: permanent failure.
    pub fn permanent_failure(reason: String) -> (r: Response)
        ensures
            r@ == header(code('5', '0'), reason@),
    {
        proof { reveal_strlit("50"); }
        assert("50"@ =~= code('5', '0'));
        Response(with_header("50", reason.as_str()))
    }

    /// 51: not found.
    pub fn not_found(reason: String) -> (r: Response)
        ensures
            r@ == header(code('5', '1'), reason@),
    {
        proof { reveal_strlit("51"); }
        assert("51"@ =~= code('5', '1'));
        Response(with_header("51", reason.as_str()))
    }

    /// 52: gone for good.
    pub fn gone(reason: String) -> (r: Response)
        ensures
            r@ == header(code('5', '2'), reason@),
    {
        proof { reveal_strlit("52"); }
        assert("52"@ =~= code('5', '2'));
        Response(with_header("52", reason.as_str()))
    }

    /// 53: the server refuses to proxy for another domain.
    pub fn proxy_request_refused(reason: String) -> (r: Response)
        ensures
            r@ == header(code('5', '3'), reason@),
    {
        proof { reveal_strlit("53"); }
        assert("53"@ =~= code('5', '3'));
        Response(with_header("53", reason.as_str()))
    }

    /// 59: the request could not be parsed.
    pub fn bad_request(reason: String) -> (r: Response)
        ensures
            r@ == header(code('5', '9'), reason@),
    {
        proof { reveal_strlit("59"); }
        assert("59"@ =~= code('5', '9'));
        Response(with_header("59", reason.as_str()))
    }

    /// 60: a client certificate is required.
    pub fn client_certificate_required(message: String) -> (r: Response)
        ensures
            r@ == header(code('6', '0'), message@),
    {
        proof { reveal_strlit("60"); }
        assert("60"@ =~= code('6', '0'));
        Response(with_header("60", message.as_str()))
    }

    /// 61: the certificate is not authorised for this resource.
    pub fn certificate_not_authorized(message: String) -> (r: Response)
        ensures
            r@ == header(code('6', '1'), message@),
    {
        proof { reveal_strlit("61"); }
        assert("61"@ =~= code('6', '1'));
        Response(with_header("61", message.as_str()))
    }

    /// 62: the certificate is not valid.
    pub fn certificate_not_valid(message: String) -> (r: Response)
        ensures
            r@ == header(code('6', '2'), message@),
    {
        proof { reveal_strlit("62"); }
        assert("62"@ =~= code('6', '2'));
        Response(with_header("62", message.as_str()))
    }

    /// The bytes written to the client: the UTF-8 encoding of the response text.
    pub fn as_bytes(&self) -> (r: &[u8])
        ensures
            r@ == encode_utf8(self@),
    {
        self.0.as_str().as_bytes()
    }
}

} // verus!
