use hello_web::http::{contains_pair, frame_response, matches_at, push_decimal, route, Route};
use hello_web::ThreadPoolStatus;

const PASSWORD: &str = "rust7878";

#[test]
fn routes_by_request_line() {
    assert_eq!(route("GET / HTTP/1.1\r\nHost: x\r\n\r\n", PASSWORD), Route::Hello);
    assert_eq!(route("GET /sleep HTTP/1.1\r\n", PASSWORD), Route::Sleep);
    assert_eq!(route("GET /shutdown HTTP/1.1\r\n", PASSWORD), Route::ShutdownForm);
    assert_eq!(route("GET /styles.css HTTP/1.1\r\n", PASSWORD), Route::Styles);
    assert_eq!(route("GET /totalshutdown HTTP/1.1\r\n", PASSWORD), Route::TotalShutdown);
    assert_eq!(route("GET /other HTTP/1.1\r\n", PASSWORD), Route::NotFound);
    assert_eq!(route("", PASSWORD), Route::NotFound);
    assert_eq!(route("GET / HTTP/1.1", PASSWORD), Route::NotFound);
}

#[test]
fn shutdown_form_checks_password() {
    let good = "POST /shutdown HTTP/1.1\r\nHost: x\r\n\r\npassword=rust7878";
    let bad = "POST /shutdown HTTP/1.1\r\nHost: x\r\n\r\npassword=rust7877";
    assert_eq!(route(good, PASSWORD), Route::ShutdownAccepted);
    assert_eq!(route(bad, PASSWORD), Route::ShutdownRejected);
    assert_eq!(route("POST /shutdown HTTP/1.1\r\n", PASSWORD), Route::ShutdownRejected);
}

#[test]
fn routes_answer_with_pages() {
    assert_eq!(Route::Hello.page(), Some("./front/hello.html"));
    assert_eq!(Route::Sleep.page(), Some("./front/sleep.html"));
    assert_eq!(Route::ShutdownForm.page(), Some("./front/shutdown.html"));
    assert_eq!(Route::Styles.page(), Some("./front/styles.css"));
    assert_eq!(Route::ShutdownAccepted.page(), Some("./front/shutdown_successful.html"));
    assert_eq!(Route::ShutdownRejected.page(), Some("./front/shutdown.html"));
    assert_eq!(Route::NotFound.page(), Some("./front/404.html"));
    assert_eq!(Route::TotalShutdown.page(), None);
    assert_eq!(Route::Hello.status_line(), Some("HTTP/1.1 200 OK"));
    assert_eq!(Route::NotFound.status_line(), Some("HTTP/1.1 404 NOT FOUND"));
    assert_eq!(Route::TotalShutdown.status_line(), None);
}

#[test]
fn only_total_shutdown_terminates() {
    assert_eq!(Route::TotalShutdown.job_status(), ThreadPoolStatus::Terminate);
    assert_eq!(Route::Hello.job_status(), ThreadPoolStatus::Active);
    assert_eq!(Route::ShutdownAccepted.job_status(), ThreadPoolStatus::Active);
    assert!(Route::Sleep.delays());
    assert!(!Route::Hello.delays());
}

#[test]
fn matching_at_positions() {
    assert!(matches_at("abcabd", 3, "abd"));
    assert!(!matches_at("abcabd", 0, "abd"));
    assert!(!matches_at("abc", 2, "cd"));
    assert!(matches_at("abc", 3, ""));
    assert!(!matches_at("abc", 4, ""));
}

#[test]
fn pair_search() {
    assert!(contains_pair("x password=secret y", "password=", "secret"));
    assert!(!contains_pair("x password= secret", "password=", "secret"));
    assert!(contains_pair("", "", ""));
    assert!(!contains_pair("password=", "password=", "a"));
}

#[test]
fn decimal_digits() {
    let mut s = String::from("n=");
    push_decimal(&mut s, 0);
    assert_eq!(s, "n=0");
    let mut s = String::new();
    push_decimal(&mut s, 1024);
    assert_eq!(s, "1024");
    let mut s = String::new();
    push_decimal(&mut s, usize::MAX);
    assert_eq!(s, usize::MAX.to_string());
}

#[test]
fn response_framing() {
    assert_eq!(
        frame_response("HTTP/1.1 200 OK", "<p>hi</p>"),
        "HTTP/1.1 200 OK\r\nContent-Length: 9\r\n\r\n<p>hi</p>"
    );
    assert_eq!(
        frame_response("HTTP/1.1 404 NOT FOUND", ""),
        "HTTP/1.1 404 NOT FOUND\r\nContent-Length: 0\r\n\r\n"
    );
    assert_eq!(frame_response("S", "é"), "S\r\nContent-Length: 2\r\n\r\né");
}
