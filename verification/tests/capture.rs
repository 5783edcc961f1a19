use demo_scraper::capture::{navigate_and_capture, Capture, Progress, Reply, Request, Stage};
use demo_scraper::cookie::{Cookie, SESSION_COOKIE};
use demo_scraper::error::CaptureError;
use demo_scraper::page::Page;
use demo_scraper::readiness::Probe;
use demo_scraper::session::RecordedSession;

fn png() -> Vec<u8> {
    vec![0x89, 0x50, 0x4e, 0x47, 0x0d, 0x0a, 0x1a, 0x0a]
}

fn ready_at(elapsed_ms: u64) -> Probe {
    Probe { elapsed_ms, value: Some("default".to_string()) }
}

fn healthy() -> RecordedSession {
    RecordedSession {
        navigation: Ok(()),
        probes: vec![Probe { elapsed_ms: 0, value: None }, ready_at(500)],
        title: Ok("Example".to_string()),
        cookies: vec![],
        source: Ok("<html>...</html>".to_string()),
        screenshot: Ok(png()),
    }
}

fn never_ready() -> Vec<Probe> {
    let mut probes = Vec::new();
    let mut elapsed = 0;
    while elapsed <= 10_000 {
        probes.push(Probe { elapsed_ms: elapsed, value: Some("loading".to_string()) });
        elapsed += 500;
    }
    probes
}

fn expect_continue(progress: Progress) -> (Capture, Request) {
    match progress {
        Progress::Continue(capture, request) => (capture, request),
        other => panic!("capture stopped: {:?}", other),
    }
}

fn expect_failed(progress: Progress) -> CaptureError {
    match progress {
        Progress::Failed(error) => error,
        other => panic!("capture did not fail: {:?}", other),
    }
}

fn probe_after(after_ms: u64) -> Request {
    Request::Probe {
        selector: "body".to_string(),
        attribute: "data-runtime-theme".to_string(),
        after_ms,
    }
}

/// Drives a fresh capture up to the given stage with healthy replies.
fn capture_at(stage: Stage) -> Capture {
    let (mut capture, _) = Capture::begin("https://example.test/");
    let replies = vec![
        Reply::Navigated,
        Reply::Probed(ready_at(0)),
        Reply::Title("Example".to_string()),
        Reply::Cookie(None),
        Reply::Source("<html></html>".to_string()),
    ];
    for reply in replies {
        if capture.stage() == stage {
            break;
        }
        capture = expect_continue(capture.advance(reply)).0;
    }
    assert_eq!(capture.stage(), stage);
    capture
}

#[test]
fn healthy_page_without_cookie_is_captured() {
    let session = healthy();
    let page = navigate_and_capture(&session, "https://example.test/").unwrap();
    let expected = Page::new(
        "https://example.test/".to_string(),
        "Example".to_string(),
        "<html>...</html>".to_string(),
        Some(png()),
    );
    assert_eq!(page, expected);
    assert_eq!(page.url(), "https://example.test/");
    assert_eq!(page.title(), "Example");
    assert_eq!(page.source(), "<html>...</html>");
    assert_eq!(page.screenshot(), Some(&png()));
}

#[test]
fn page_that_never_becomes_ready_times_out() {
    let mut session = healthy();
    session.probes = never_ready();
    assert_eq!(session.probes.len(), 21);
    let outcome = navigate_and_capture(&session, "https://example.test/");
    assert_eq!(outcome, Err(CaptureError::ReadinessTimeout));
}

#[test]
fn missing_body_element_times_out() {
    let mut session = healthy();
    session.probes = vec![
        Probe { elapsed_ms: 0, value: None },
        Probe { elapsed_ms: 9_999, value: None },
        Probe { elapsed_ms: 10_000, value: None },
        ready_at(10_500),
    ];
    let outcome = navigate_and_capture(&session, "https://example.test/");
    assert_eq!(outcome, Err(CaptureError::ReadinessTimeout));
}

#[test]
fn readings_that_run_out_are_a_timeout() {
    let mut session = healthy();
    session.probes = vec![Probe { elapsed_ms: 0, value: None }];
    assert_eq!(
        navigate_and_capture(&session, "https://example.test/"),
        Err(CaptureError::ReadinessTimeout)
    );
    session.probes = vec![];
    assert_eq!(
        navigate_and_capture(&session, "https://example.test/"),
        Err(CaptureError::ReadinessTimeout)
    );
}

#[test]
fn readiness_on_the_last_reading_before_the_deadline_counts() {
    let mut session = healthy();
    session.probes = vec![Probe { elapsed_ms: 9_999, value: None }, ready_at(20_000)];
    assert!(navigate_and_capture(&session, "https://example.test/").is_ok());
}

#[test]
fn cookie_presence_does_not_change_the_page() {
    let without = healthy();
    let mut with = healthy();
    with.cookies = vec![Cookie { name: SESSION_COOKIE.to_string(), value: "abc".to_string() }];
    let first = navigate_and_capture(&without, "https://example.test/");
    let second = navigate_and_capture(&with, "https://example.test/");
    assert!(first.is_ok());
    assert_eq!(first, second);
}

#[test]
fn refused_navigation_is_a_navigation_error() {
    let mut session = healthy();
    session.navigation = Err("net::ERR_NAME_NOT_RESOLVED".to_string());
    assert_eq!(
        navigate_and_capture(&session, "https://nowhere.test/"),
        Err(CaptureError::NavigationError("net::ERR_NAME_NOT_RESOLVED".to_string()))
    );
}

#[test]
fn navigation_failure_comes_before_every_other() {
    let session = RecordedSession {
        navigation: Err("refused".to_string()),
        probes: vec![],
        title: Err("no title".to_string()),
        cookies: vec![],
        source: Err("no source".to_string()),
        screenshot: Err("no shot".to_string()),
    };
    assert_eq!(
        navigate_and_capture(&session, "u"),
        Err(CaptureError::NavigationError("refused".to_string()))
    );
}

#[test]
fn failed_title_source_or_screenshot_is_an_extraction_error() {
    let mut session = healthy();
    session.title = Err("session died".to_string());
    session.source = Err("later".to_string());
    assert_eq!(
        navigate_and_capture(&session, "u"),
        Err(CaptureError::ExtractionError("session died".to_string()))
    );
    let mut session = healthy();
    session.source = Err("no source".to_string());
    session.screenshot = Err("later".to_string());
    assert_eq!(
        navigate_and_capture(&session, "u"),
        Err(CaptureError::ExtractionError("no source".to_string()))
    );
    let mut session = healthy();
    session.screenshot = Err("no shot".to_string());
    assert_eq!(
        navigate_and_capture(&session, "u"),
        Err(CaptureError::ExtractionError("no shot".to_string()))
    );
}

#[test]
fn empty_title_is_kept_as_it_is() {
    let mut session = healthy();
    session.title = Ok(String::new());
    let page = navigate_and_capture(&session, "u").unwrap();
    assert_eq!(page.title(), "");
    assert_eq!(page.source(), "<html>...</html>");
}

#[test]
fn page_keeps_the_url_that_was_asked_for() {
    let page = navigate_and_capture(&healthy(), "https://example.test/redirects").unwrap();
    assert_eq!(page.url(), "https://example.test/redirects");
}

#[test]
fn machine_asks_in_pipeline_order() {
    let (capture, first) = Capture::begin("https://example.test/");
    assert_eq!(first, Request::Navigate { url: "https://example.test/".to_string() });
    assert_eq!(capture.stage(), Stage::Navigating);
    assert_eq!(capture.url(), "https://example.test/");
    assert_eq!(capture.session_cookie(), None);

    let (capture, request) = expect_continue(capture.advance(Reply::Navigated));
    assert_eq!(request, probe_after(0));
    assert_eq!(capture.stage(), Stage::Waiting);

    let (capture, request) =
        expect_continue(capture.advance(Reply::Probed(Probe { elapsed_ms: 0, value: None })));
    assert_eq!(request, probe_after(500));
    assert_eq!(capture.stage(), Stage::Waiting);

    let (capture, request) = expect_continue(capture.advance(Reply::Probed(ready_at(500))));
    assert_eq!(request, Request::ReadTitle);
    assert_eq!(capture.stage(), Stage::ReadingTitle);

    let (capture, request) = expect_continue(capture.advance(Reply::Title("T".to_string())));
    assert_eq!(request, Request::ReadCookie { name: "session_id_edsby".to_string() });
    assert_eq!(capture.stage(), Stage::ReadingCookie);

    let cookie = Cookie { name: "session_id_edsby".to_string(), value: "v".to_string() };
    let (capture, request) =
        expect_continue(capture.advance(Reply::Cookie(Some(cookie.clone()))));
    assert_eq!(request, Request::ReadSource);
    assert_eq!(capture.stage(), Stage::ReadingSource);
    assert_eq!(capture.session_cookie(), Some(&cookie));

    let (capture, request) = expect_continue(capture.advance(Reply::Source("S".to_string())));
    assert_eq!(request, Request::TakeScreenshot);
    assert_eq!(capture.stage(), Stage::TakingScreenshot);

    match capture.advance(Reply::Screenshot(png())) {
        Progress::Done(page) => {
            let expected = Page::new(
                "https://example.test/".to_string(),
                "T".to_string(),
                "S".to_string(),
                Some(png()),
            );
            assert_eq!(page, expected);
        }
        other => panic!("capture did not finish: {:?}", other),
    }
}

#[test]
fn machine_times_out_at_the_deadline_and_not_before() {
    let capture = capture_at(Stage::Waiting);
    let (capture, request) = expect_continue(
        capture.advance(Reply::Probed(Probe { elapsed_ms: 9_999, value: None })),
    );
    assert_eq!(request, probe_after(500));
    let error = expect_failed(
        capture.advance(Reply::Probed(Probe { elapsed_ms: 10_000, value: None })),
    );
    assert_eq!(error, CaptureError::ReadinessTimeout);
}

#[test]
fn machine_takes_a_late_match_as_ready() {
    let capture = capture_at(Stage::Waiting);
    let (capture, request) = expect_continue(capture.advance(Reply::Probed(ready_at(12_000))));
    assert_eq!(request, Request::ReadTitle);
    assert_eq!(capture.stage(), Stage::ReadingTitle);
}

#[test]
fn machine_wants_the_exact_value() {
    let capture = capture_at(Stage::Waiting);
    let reading = Probe { elapsed_ms: 0, value: Some("default ".to_string()) };
    let (capture, request) = expect_continue(capture.advance(Reply::Probed(reading)));
    assert_eq!(request, probe_after(500));
    assert_eq!(capture.stage(), Stage::Waiting);
}

#[test]
fn failed_cookie_lookup_does_not_stop_the_machine() {
    let capture = capture_at(Stage::ReadingCookie);
    let (capture, request) =
        expect_continue(capture.advance(Reply::Failed("no such cookie".to_string())));
    assert_eq!(request, Request::ReadSource);
    assert_eq!(capture.stage(), Stage::ReadingSource);
    assert_eq!(capture.session_cookie(), None);

    let capture = capture_at(Stage::ReadingCookie);
    let (capture, request) = expect_continue(capture.advance(Reply::Cookie(None)));
    assert_eq!(request, Request::ReadSource);
    assert_eq!(capture.session_cookie(), None);
}

#[test]
fn machine_maps_failures_by_stage() {
    let failed = || Reply::Failed("boom".to_string());
    assert_eq!(
        expect_failed(capture_at(Stage::Navigating).advance(failed())),
        CaptureError::NavigationError("boom".to_string())
    );
    assert_eq!(
        expect_failed(capture_at(Stage::ReadingTitle).advance(failed())),
        CaptureError::ExtractionError("boom".to_string())
    );
    assert_eq!(
        expect_failed(capture_at(Stage::ReadingSource).advance(failed())),
        CaptureError::ExtractionError("boom".to_string())
    );
    assert_eq!(
        expect_failed(capture_at(Stage::TakingScreenshot).advance(failed())),
        CaptureError::ExtractionError("boom".to_string())
    );
}

#[test]
fn machine_refuses_a_reply_of_the_wrong_kind() {
    assert_eq!(
        expect_failed(capture_at(Stage::Navigating).advance(Reply::Title("T".to_string()))),
        CaptureError::InvalidState
    );
    assert_eq!(
        expect_failed(capture_at(Stage::Waiting).advance(Reply::Navigated)),
        CaptureError::InvalidState
    );
    assert_eq!(
        expect_failed(capture_at(Stage::Waiting).advance(Reply::Failed("x".to_string()))),
        CaptureError::InvalidState
    );
    assert_eq!(
        expect_failed(capture_at(Stage::ReadingTitle).advance(Reply::Source("S".to_string()))),
        CaptureError::InvalidState
    );
    assert_eq!(
        expect_failed(capture_at(Stage::ReadingCookie).advance(Reply::Screenshot(png()))),
        CaptureError::InvalidState
    );
    assert_eq!(
        expect_failed(capture_at(Stage::ReadingSource).advance(Reply::Title("T".to_string()))),
        CaptureError::InvalidState
    );
    assert_eq!(
        expect_failed(capture_at(Stage::TakingScreenshot).advance(Reply::Cookie(None))),
        CaptureError::InvalidState
    );
}

#[test]
fn machine_and_replay_agree_on_a_healthy_session() {
    let session = healthy();
    let (mut capture, _) = Capture::begin("u");
    let replies = vec![
        Reply::Navigated,
        Reply::Probed(session.probes[0].clone()),
        Reply::Probed(session.probes[1].clone()),
        Reply::Title("Example".to_string()),
        Reply::Cookie(None),
        Reply::Source("<html>...</html>".to_string()),
    ];
    for reply in replies {
        capture = expect_continue(capture.advance(reply)).0;
    }
    match capture.advance(Reply::Screenshot(png())) {
        Progress::Done(page) => assert_eq!(Ok(page), navigate_and_capture(&session, "u")),
        other => panic!("capture did not finish: {:?}", other),
    }
}
