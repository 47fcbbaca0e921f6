use redirect_detector::Header;
use redirect_detector::HttpResponse;
use redirect_detector::Outcome;
use redirect_detector::check_response;
use redirect_detector::eq_ignore_ascii_case;
use redirect_detector::find_location;
use redirect_detector::is_redirection;
use redirect_detector::is_text;
use redirect_detector::outcome_of_attempt;

fn header(name: &str, value: &[u8]) -> Header {
    Header { name: name.as_bytes().to_vec(), value: value.to_vec() }
}

fn response(status: u16, headers: Vec<Header>) -> HttpResponse {
    HttpResponse { status, headers }
}

#[test]
fn redirect_with_location_returns_target() {
    let resp = response(301, vec![header("Location", b"https://example.com/new")]);
    let outcome = check_response(&resp);
    assert_eq!(outcome, Outcome::Redirect(String::from("https://example.com/new")));
}

#[test]
fn ok_response_is_no_redirect() {
    let resp = response(200, vec![header("Content-Type", b"text/html")]);
    assert_eq!(check_response(&resp), Outcome::NoRedirect);
}

#[test]
fn non_redirect_status_ignores_location_header() {
    for status in [200u16, 404, 500] {
        let resp = response(status, vec![header("Location", b"https://example.com/new")]);
        assert_eq!(check_response(&resp), Outcome::NoRedirect);
    }
}

#[test]
fn redirect_without_location_is_no_redirect() {
    let resp = response(302, vec![header("Content-Length", b"0")]);
    assert_eq!(check_response(&resp), Outcome::NoRedirect);
}

#[test]
fn redirect_with_unreadable_location_is_no_redirect() {
    let resp = response(301, vec![header("Location", &[0xFFu8, 0x80, 0x01])]);
    assert_eq!(check_response(&resp), Outcome::NoRedirect);
}

#[test]
fn location_lookup_is_case_insensitive() {
    for name in ["location", "LOCATION", "LoCaTiOn", "Location"] {
        let resp = response(307, vec![header(name, b"/elsewhere")]);
        assert_eq!(check_response(&resp), Outcome::Redirect(String::from("/elsewhere")));
    }
}

#[test]
fn first_location_header_wins() {
    let resp = response(
        301,
        vec![header("Location", b"/first"), header("Location", b"/second")],
    );
    assert_eq!(check_response(&resp), Outcome::Redirect(String::from("/first")));
}

#[test]
fn redirection_class_boundaries() {
    assert!(!is_redirection(299));
    assert!(is_redirection(300));
    assert!(is_redirection(399));
    assert!(!is_redirection(400));

    let inside = response(300, vec![header("Location", b"/x")]);
    assert_eq!(check_response(&inside), Outcome::Redirect(String::from("/x")));
    let outside = response(400, vec![header("Location", b"/x")]);
    assert_eq!(check_response(&outside), Outcome::NoRedirect);
}

#[test]
fn failed_attempt_keeps_message() {
    let outcome = outcome_of_attempt(Err(String::from("connection refused")));
    assert_eq!(outcome, Outcome::RequestFailed(String::from("connection refused")));
}

#[test]
fn successful_attempt_is_inspected() {
    let resp = response(308, vec![header("location", b"https://example.com/moved")]);
    let outcome = outcome_of_attempt(Ok(resp));
    assert_eq!(outcome, Outcome::Redirect(String::from("https://example.com/moved")));
}

#[test]
fn find_location_finds_among_other_headers() {
    let headers = vec![
        header("Content-Type", b"text/plain"),
        header("LOCATION", b"/target"),
        header("Server", b"demo"),
    ];
    assert_eq!(find_location(&headers), Some(&b"/target".to_vec()));
}

#[test]
fn find_location_absent() {
    let headers = vec![header("Content-Type", b"text/plain")];
    assert_eq!(find_location(&headers), None);
}

#[test]
fn eq_ignore_ascii_case_on_bytes() {
    assert!(eq_ignore_ascii_case(b"Location", b"lOCATION"));
    assert!(eq_ignore_ascii_case(b"", b""));
    assert!(!eq_ignore_ascii_case(b"Location", b"Locatio"));
    assert!(!eq_ignore_ascii_case(b"Location", b"Lodation"));
    assert!(eq_ignore_ascii_case(b"a-1", b"A-1"));
}

#[test]
fn text_check_accepts_visible_ascii_and_tab() {
    assert!(is_text(b"https://example.com/new"));
    assert!(is_text(b"with\ttab"));
    assert!(is_text(b""));
    assert!(is_text(&[32u8, 126]));
    assert!(!is_text(&[31u8]));
    assert!(!is_text(&[127u8]));
    assert!(!is_text(b"caf\xc3\xa9"));
}

#[test]
fn outcome_equality() {
    assert_eq!(Outcome::Redirect(String::from("/a")), Outcome::Redirect(String::from("/a")));
    assert_ne!(Outcome::Redirect(String::from("/a")), Outcome::Redirect(String::from("/b")));
    assert_ne!(Outcome::Redirect(String::from("/a")), Outcome::NoRedirect);
    assert_eq!(
        Outcome::RequestFailed(String::from("x")),
        Outcome::RequestFailed(String::from("x"))
    );
    assert_ne!(Outcome::RequestFailed(String::from("x")), Outcome::NoRedirect);
}
