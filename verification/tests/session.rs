use demo_scraper::browser::{Browser, LogLevel};
use demo_scraper::capture::Request;
use demo_scraper::cookie::{get_cookie, read_named, Cookie};
use demo_scraper::error::CaptureError;
use demo_scraper::readiness::{wait_until, Probe, ReadinessCondition, Verdict};
use demo_scraper::session::RecordedSession;

fn cookie(name: &str, value: &str) -> Cookie {
    Cookie { name: name.to_string(), value: value.to_string() }
}

fn session_with(cookies: Vec<Cookie>) -> RecordedSession {
    RecordedSession {
        navigation: Ok(()),
        probes: vec![],
        title: Ok("t".to_string()),
        cookies,
        source: Ok("s".to_string()),
        screenshot: Ok(vec![1, 2, 3]),
    }
}

fn reading(elapsed_ms: u64, value: Option<&str>) -> Probe {
    Probe { elapsed_ms, value: value.map(|text| text.to_string()) }
}

#[test]
fn settings_name_the_local_driver() {
    let settings = Browser::settings(4444);
    assert_eq!(settings.endpoint, "http://localhost:4444");
    assert!(settings.headless);
    assert_eq!(settings.log_level, LogLevel::Debug);
}

#[test]
fn settings_format_every_port_in_decimal() {
    assert_eq!(Browser::settings(0).endpoint, "http://localhost:0");
    assert_eq!(Browser::settings(9).endpoint, "http://localhost:9");
    assert_eq!(Browser::settings(80).endpoint, "http://localhost:80");
    assert_eq!(Browser::settings(32767).endpoint, "http://localhost:32767");
    assert_eq!(Browser::settings(-1).endpoint, "http://localhost:-1");
    assert_eq!(Browser::settings(-32768).endpoint, "http://localhost:-32768");
}

#[test]
fn opened_session_gives_a_handle() {
    let browser = Browser::new(4444, Ok(())).unwrap();
    assert_eq!(browser.port(), 4444);
}

#[test]
fn refused_session_is_a_connection_error() {
    let refused = Browser::new(4444, Err("connection refused".to_string()));
    match refused {
        Err(error) => {
            assert_eq!(error, CaptureError::ConnectionError("connection refused".to_string()))
        }
        Ok(_) => panic!("a handle came out of a refused session"),
    }
}

#[test]
fn handle_starts_a_capture_with_the_navigation() {
    let browser = Browser::new(4444, Ok(())).unwrap();
    let (capture, request) = browser.navigate("https://recompile.me");
    assert_eq!(request, Request::Navigate { url: "https://recompile.me".to_string() });
    assert_eq!(capture.url(), "https://recompile.me");
}

#[test]
fn handle_passes_a_screenshot_through() {
    let browser = Browser::new(4444, Ok(())).unwrap();
    assert_eq!(browser.screenshot(Ok(vec![9, 8, 7])), Ok(vec![9, 8, 7]));
    assert_eq!(
        browser.screenshot(Err("gone".to_string())),
        Err(CaptureError::ExtractionError("gone".to_string()))
    );
}

#[test]
fn closing_reports_the_drivers_failure() {
    let browser = Browser::new(4444, Ok(())).unwrap();
    assert_eq!(browser.close(Ok(())), Ok(()));
    let browser = Browser::new(4444, Ok(())).unwrap();
    assert_eq!(
        browser.close(Err("already gone".to_string())),
        Err(CaptureError::ConnectionError("already gone".to_string()))
    );
}

#[test]
fn error_messages_name_what_failed() {
    assert_eq!(
        CaptureError::ConnectionError("refused".to_string()).message(),
        "connection failed: refused"
    );
    assert_eq!(
        CaptureError::NavigationError("bad url".to_string()).message(),
        "navigation failed: bad url"
    );
    assert_eq!(CaptureError::ReadinessTimeout.message(), "page did not become ready in time");
    assert_eq!(
        CaptureError::ExtractionError("gone".to_string()).message(),
        "extraction failed: gone"
    );
    assert_eq!(CaptureError::CookieNotFound.message(), "cookie not found");
    assert_eq!(
        CaptureError::InvalidState.message(),
        "answer does not match the request in flight"
    );
}

#[test]
fn error_clone_is_equal() {
    let error = CaptureError::NavigationError("x".to_string());
    assert_eq!(error.clone(), error);
    assert_eq!(CaptureError::CookieNotFound.clone(), CaptureError::CookieNotFound);
}

#[test]
fn lookup_finds_the_first_cookie_of_the_name() {
    let jar = vec![cookie("a", "1"), cookie("sid", "first"), cookie("sid", "second")];
    assert_eq!(get_cookie(&jar, "sid"), Ok(cookie("sid", "first")));
    assert_eq!(get_cookie(&jar, "a"), Ok(cookie("a", "1")));
}

#[test]
fn lookup_of_a_missing_cookie_is_cookie_not_found() {
    let jar = vec![cookie("a", "1")];
    assert_eq!(get_cookie(&jar, "sid"), Err(CaptureError::CookieNotFound));
    assert_eq!(get_cookie(&Vec::new(), "sid"), Err(CaptureError::CookieNotFound));
    assert_eq!(get_cookie(&jar, "A"), Err(CaptureError::CookieNotFound));
}

#[test]
fn read_named_answers_none_for_a_missing_cookie() {
    let session = session_with(vec![cookie("other", "x")]);
    assert_eq!(read_named(&session, "session_id_edsby"), None);
}

#[test]
fn read_named_twice_gives_the_same_answer() {
    let session = session_with(vec![cookie("session_id_edsby", "tok"), cookie("b", "2")]);
    let first = read_named(&session, "session_id_edsby");
    let second = read_named(&session, "session_id_edsby");
    assert_eq!(first, Some(cookie("session_id_edsby", "tok")));
    assert_eq!(first, second);
    assert_eq!(read_named(&session, "nope"), read_named(&session, "nope"));
}

#[test]
fn empty_cookie_value_counts_as_nothing() {
    assert!(!cookie("sid", "").has_value());
    assert!(cookie("sid", "x").has_value());
}

#[test]
fn page_condition_is_the_body_theme() {
    let cond = ReadinessCondition::page_ready();
    assert_eq!(cond.selector, "body");
    assert_eq!(cond.attribute, "data-runtime-theme");
    assert_eq!(cond.expected, "default");
    assert_eq!(cond.timeout_ms, 10_000);
    assert_eq!(cond.interval_ms, 500);
    assert_eq!(cond.clone(), cond);
}

#[test]
fn judge_decides_on_one_reading() {
    let cond = ReadinessCondition::page_ready();
    assert_eq!(cond.judge(&reading(0, Some("default"))), Verdict::Ready);
    assert_eq!(cond.judge(&reading(0, None)), Verdict::Retry { after_ms: 500 });
    assert_eq!(cond.judge(&reading(9_999, Some("dark"))), Verdict::Retry { after_ms: 500 });
    assert_eq!(cond.judge(&reading(10_000, Some("dark"))), Verdict::TimedOut);
    assert_eq!(cond.judge(&reading(10_000, None)), Verdict::TimedOut);
    assert_eq!(cond.judge(&reading(u64::MAX, Some("default"))), Verdict::Ready);
}

#[test]
fn judge_uses_the_conditions_own_limits() {
    let cond = ReadinessCondition {
        selector: "#app".to_string(),
        attribute: "data-state".to_string(),
        expected: "up".to_string(),
        timeout_ms: 0,
        interval_ms: 7,
    };
    assert_eq!(cond.judge(&reading(0, None)), Verdict::TimedOut);
    assert_eq!(cond.judge(&reading(0, Some("up"))), Verdict::Ready);
    let patient = ReadinessCondition { timeout_ms: 3, ..cond.clone() };
    assert_eq!(patient.judge(&reading(2, None)), Verdict::Retry { after_ms: 7 });
}

#[test]
fn punctual_polls_time_out_within_one_interval_of_the_deadline() {
    let cond = ReadinessCondition { timeout_ms: 1_200, ..ReadinessCondition::page_ready() };
    let mut elapsed = 0;
    loop {
        match cond.judge(&reading(elapsed, None)) {
            Verdict::Retry { after_ms } => elapsed += after_ms,
            Verdict::TimedOut => break,
            Verdict::Ready => panic!("ready without the value"),
        }
    }
    assert_eq!(elapsed, 1_500);
    assert!(elapsed >= cond.timeout_ms);
    assert!(elapsed <= cond.timeout_ms + cond.interval_ms);
}

#[test]
fn wait_until_replays_recorded_readings() {
    let cond = ReadinessCondition::page_ready();
    let ready = vec![reading(0, None), reading(500, Some("dark")), reading(1_000, Some("default"))];
    assert_eq!(wait_until(&cond, &ready), Ok(()));
    let late = vec![reading(0, None), reading(10_000, None), reading(10_500, Some("default"))];
    assert_eq!(wait_until(&cond, &late), Err(CaptureError::ReadinessTimeout));
    assert_eq!(wait_until(&cond, &Vec::new()), Err(CaptureError::ReadinessTimeout));
    let on_time = vec![reading(10_000, Some("default"))];
    assert_eq!(wait_until(&cond, &on_time), Ok(()));
}

#[test]
fn probe_clone_is_equal() {
    let probe = reading(5, Some("x"));
    assert_eq!(probe.clone(), probe);
    assert_eq!(reading(5, None).clone(), reading(5, None));
}
