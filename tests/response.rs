use namushul::response::{Language, MediaType, Response};
use std::time::Duration;

fn text(r: &Response) -> String {
    String::from_utf8(r.as_bytes().to_vec()).unwrap()
}

#[test]
fn status_lines() {
    assert_eq!(text(&Response::input("Name?".to_owned())), "10 Name?\r\n");
    assert_eq!(text(&Response::sensitive_input("Password".to_owned())), "11 Password\r\n");
    assert_eq!(text(&Response::redirect_temporary("/".to_owned())), "30 /\r\n");
    assert_eq!(text(&Response::redirect_permanent("/x".to_owned())), "31 /x\r\n");
    assert_eq!(text(&Response::temporary_failure("t".to_owned())), "40 t\r\n");
    assert_eq!(text(&Response::server_unavailable("u".to_owned())), "41 u\r\n");
    assert_eq!(text(&Response::cgi_error("c".to_owned())), "42 c\r\n");
    assert_eq!(text(&Response::proxy_error("p".to_owned())), "43 p\r\n");
    assert_eq!(text(&Response::permanent_failure("f".to_owned())), "50 f\r\n");
    assert_eq!(text(&Response::not_found("".to_owned())), "51 \r\n");
    assert_eq!(text(&Response::gone("g".to_owned())), "52 g\r\n");
    assert_eq!(text(&Response::proxy_request_refused("r".to_owned())), "53 r\r\n");
    assert_eq!(text(&Response::bad_request("b".to_owned())), "59 b\r\n");
    assert_eq!(text(&Response::client_certificate_required("m".to_owned())), "60 m\r\n");
    assert_eq!(text(&Response::certificate_not_authorized("n".to_owned())), "61 n\r\n");
    assert_eq!(text(&Response::certificate_not_valid("v".to_owned())), "62 v\r\n");
}

#[test]
fn success_carries_media_type_and_body() {
    let r = Response::success(MediaType::gemini(Some(Language::english())), "# Hi".to_owned());
    assert_eq!(text(&r), "20 text/gemini; lang=en\r\n# Hi");
    let r = Response::success(MediaType::gemini(None), "".to_owned());
    assert_eq!(text(&r), "20 text/gemini\r\n");
}

#[test]
fn slow_down_sends_whole_seconds() {
    assert_eq!(text(&Response::slow_down(Duration::from_millis(90_500))), "44 90\r\n");
    assert_eq!(text(&Response::slow_down_seconds(0)), "44 0\r\n");
    assert_eq!(text(&Response::slow_down_seconds(u64::MAX)), "44 18446744073709551615\r\n");
}

#[test]
fn as_bytes_is_utf8() {
    let r = Response::input("héllo".to_owned());
    assert_eq!(r.as_bytes(), "10 héllo\r\n".as_bytes());
}
