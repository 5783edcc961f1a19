//! The capture pipeline: navigate, wait for readiness, read title, cookie,
//! source and screenshot, and assemble the page.
//!
//! [`Capture`] is the pipeline as a state machine. It never talks to a
//! browser: it hands out one [`Request`] at a time and takes the [`Reply`]
//! that the caller got for it. [`navigate_and_capture`] runs the machine
//! against a session that is written down as plain values.

use crate::cookie::{read_named, Cookie, CookieView, SESSION_COOKIE};
use crate::error::{CaptureError, CaptureErrorView};
use crate::page::{Page, PageView};
use crate::readiness::{
    becomes_ready, lemma_late_reading_ends_wait, page_ready_condition, satisfied, verdict,
    ConditionView, Probe, ProbeView, ReadinessCondition, Verdict,
};
use crate::session::{RecordedSession, SessionView};
use vstd::prelude::*;

verus! {

/// One thing for the caller to do on the browser session.
#[derive(Debug, PartialEq, Eq)]
pub enum Request {
    /// Load the URL; do not wait for the page to settle.
    Navigate { url: String },
    /// Pause for `after_ms` milliseconds, then read the attribute of the
    /// first element that matches the selector.
    Probe { selector: String, attribute: String, after_ms: u64 },
    /// Read the document title.
    ReadTitle,
    /// Read the cookie of this name.
    ReadCookie { name: String },
    /// Read the serialized document.
    ReadSource,
    /// Take a PNG screenshot.
    TakeScreenshot,
}

/// Mathematical content of a [`Request`].
pub enum RequestView {
    Navigate { url: Seq<char> },
    Probe { selector: Seq<char>, attribute: Seq<char>, after_ms: u64 },
    ReadTitle,
    ReadCookie { name: Seq<char> },
    ReadSource,
    TakeScreenshot,
}

impl View for Request {
    type V = RequestView;

    open spec fn view(&self) -> RequestView {
        match self {
            Request::Navigate { url } => RequestView::Navigate { url: url@ },
            Request::Probe { selector, attribute, after_ms } => RequestView::Probe {
                selector: selector@,
                attribute: attribute@,
                after_ms: *after_ms,
            },
            Request::ReadTitle => RequestView::ReadTitle,
            Request::ReadCookie { name } => RequestView::ReadCookie { name: name@ },
            Request::ReadSource => RequestView::ReadSource,
            Request::TakeScreenshot => RequestView::TakeScreenshot,
        }
    }
}

/// What the session answered to a request.
#[derive(Debug, PartialEq, Eq)]
pub enum Reply {
    /// The browser accepted the navigation.
    Navigated,
    /// The request failed; the text is the driver's message.
    Failed(String),
    /// A readiness reading.
    Probed(Probe),
    /// The document title.
    Title(String),
    /// The cookie asked for, or `None` where the session has none.
    Cookie(Option<Cookie>),
    /// The serialized document.
    Source(String),
    /// The screenshot as PNG bytes.
    Screenshot(Vec<u8>),
}

/// Mathematical content of a [`Reply`].
pub enum ReplyView {
    Navigated,
    Failed(Seq<char>),
    Probed(ProbeView),
    Title(Seq<char>),
    Cookie(Option<CookieView>),
    Source(Seq<char>),
    Screenshot(Seq<u8>),
}

impl View for Reply {
    type V = ReplyView;

    open spec fn view(&self) -> ReplyView {
        match self {
            Reply::Navigated => ReplyView::Navigated,
            Reply::Failed(detail) => ReplyView::Failed(detail@),
            Reply::Probed(probe) => ReplyView::Probed(probe@),
            Reply::Title(title) => ReplyView::Title(title@),
            Reply::Cookie(found) => ReplyView::Cookie(
                match found {
                    Some(cookie) => Some(cookie@),
                    None => None,
                },
            ),
            Reply::Source(source) => ReplyView::Source(source@),
            Reply::Screenshot(bytes) => ReplyView::Screenshot(bytes@),
        }
    }
}

/// The request that a capture is waiting on.
#[derive(Debug, Clone, Copy, PartialEq, Eq, Structural)]
pub enum Stage {
    Navigating,
    Waiting,
    ReadingTitle,
    ReadingCookie,
    ReadingSource,
    TakingScreenshot,
}

/// A capture in progress.
#[derive(Debug)]
pub struct Capture {
    url: String,
    condition: ReadinessCondition,
    stage: Stage,
    title: String,
    source: String,
    cookie: Option<Cookie>,
}

/// Mathematical content of a [`Capture`].
pub struct CaptureView {
    /// The URL asked for.
    pub url: Seq<char>,
    /// The readiness condition waited for.
    pub condition: ConditionView,
    /// The request in flight.
    pub stage: Stage,
    /// The title, once read; empty before.
    pub title: Seq<char>,
    /// The source, once read; empty before.
    pub source: Seq<char>,
    /// The session cookie, once looked up and found.
    pub cookie: Option<CookieView>,
}

impl View for Capture {
    type V = CaptureView;

    closed spec fn view(&self) -> CaptureView {
        CaptureView {
            url: self.url@,
            condition: self.condition@,
            stage: self.stage,
            title: self.title@,
            source: self.source@,
            cookie: match self.cookie {
                Some(cookie) => Some(cookie@),
                None => None,
            },
        }
    }
}

/// Where a capture stands after a reply.
#[derive(Debug)]
pub enum Progress {
    /// Not done: the capture goes on, with this request to make next.
    Continue(Capture, Request),
    /// Done: the finished page.
    Done(Page),
    /// Stopped: the capture failed and produced no page.
    Failed(CaptureError),
}

/// Mathematical content of a [`Progress`].
pub enum ProgressView {
    Continue(CaptureView, RequestView),
    Done(PageView),
    Failed(CaptureErrorView),
}

impl View for Progress {
    type V = ProgressView;

    open spec fn view(&self) -> ProgressView {
        match self {
            Progress::Continue(capture, request) => ProgressView::Continue(capture@, request@),
            Progress::Done(page) => ProgressView::Done(page@),
            Progress::Failed(error) => ProgressView::Failed(error@),
        }
    }
}

/// A capture of `url` before anything has been asked of the session.
pub open spec fn initial(url: Seq<char>) -> CaptureView {
    CaptureView {
        url,
        condition: page_ready_condition(),
        stage: Stage::Navigating,
        title: Seq::empty(),
        source: Seq::empty(),
        cookie: None,
    }
}

/// The request for a readiness reading after a pause.
pub open spec fn probe_request(cond: ConditionView, after_ms: u64) -> RequestView {
    RequestView::Probe { selector: cond.selector, attribute: cond.attribute, after_ms }
}

/// The pipeline's transition: from a capture and the reply to its request in
/// flight to what comes next.
///
/// A failed navigation, title, source or screenshot stops the capture with
/// the matching error. A readiness reading is judged by
/// [`crate::readiness::verdict`]. The cookie lookup never stops the capture,
/// whatever it answers. Only the screenshot's arrival finishes the capture,
/// and the page then holds all four parts. A reply of a kind that the
/// request in flight cannot have stops the capture with `InvalidState`.
pub open spec fn advance_spec(capture: CaptureView, reply: ReplyView) -> ProgressView {
    match capture.stage {
        Stage::Navigating => match reply {
            ReplyView::Navigated => ProgressView::Continue(
                CaptureView { stage: Stage::Waiting, ..capture },
                probe_request(capture.condition, 0),
            ),
            ReplyView::Failed(detail) => ProgressView::Failed(
                CaptureErrorView::NavigationError(detail),
            ),
            _ => ProgressView::Failed(CaptureErrorView::InvalidState),
        },
        Stage::Waiting => match reply {
            ReplyView::Probed(probe) => match verdict(capture.condition, probe) {
                Verdict::Ready => ProgressView::Continue(
                    CaptureView { stage: Stage::ReadingTitle, ..capture },
                    RequestView::ReadTitle,
                ),
                Verdict::Retry { after_ms } => ProgressView::Continue(
                    capture,
                    probe_request(capture.condition, after_ms),
                ),
                Verdict::TimedOut => ProgressView::Failed(CaptureErrorView::ReadinessTimeout),
            },
            _ => ProgressView::Failed(CaptureErrorView::InvalidState),
        },
        Stage::ReadingTitle => match reply {
            ReplyView::Title(title) => ProgressView::Continue(
                CaptureView { stage: Stage::ReadingCookie, title, ..capture },
                RequestView::ReadCookie { name: SESSION_COOKIE@ },
            ),
            ReplyView::Failed(detail) => ProgressView::Failed(
                CaptureErrorView::ExtractionError(detail),
            ),
            _ => ProgressView::Failed(CaptureErrorView::InvalidState),
        },
        Stage::ReadingCookie => match reply {
            ReplyView::Cookie(found) => ProgressView::Continue(
                CaptureView { stage: Stage::ReadingSource, cookie: found, ..capture },
                RequestView::ReadSource,
            ),
            ReplyView::Failed(_) => ProgressView::Continue(
                CaptureView { stage: Stage::ReadingSource, cookie: None, ..capture },
                RequestView::ReadSource,
            ),
            _ => ProgressView::Failed(CaptureErrorView::InvalidState),
        },
        Stage::ReadingSource => match reply {
            ReplyView::Source(source) => ProgressView::Continue(
                CaptureView { stage: Stage::TakingScreenshot, source, ..capture },
                RequestView::TakeScreenshot,
            ),
            ReplyView::Failed(detail) => ProgressView::Failed(
                CaptureErrorView::ExtractionError(detail),
            ),
            _ => ProgressView::Failed(CaptureErrorView::InvalidState),
        },
        Stage::TakingScreenshot => match reply {
            ReplyView::Screenshot(bytes) => ProgressView::Done(
                PageView {
                    url: capture.url,
                    title: capture.title,
                    source: capture.source,
                    screenshot: Some(bytes),
                },
            ),
            ReplyView::Failed(detail) => ProgressView::Failed(
                CaptureErrorView::ExtractionError(detail),
            ),
            _ => ProgressView::Failed(CaptureErrorView::InvalidState),
        },
    }
}

/// What a capture of `url` on a session comes to: the first failure among
/// navigation, readiness, title, source and screenshot, in that order, or
/// else the page made of the URL asked for and the session's title, source
/// and screenshot. The session's cookies play no part.
pub open spec fn capture_outcome(session: SessionView, url: Seq<char>) -> Result<
    PageView,
    CaptureErrorView,
> {
    match session.navigation {
        Err(detail) => Err(CaptureErrorView::NavigationError(detail)),
        Ok(_) => if !becomes_ready(page_ready_condition(), session.probes) {
            Err(CaptureErrorView::ReadinessTimeout)
        } else {
            match session.title {
                Err(detail) => Err(CaptureErrorView::ExtractionError(detail)),
                Ok(title) => match session.source {
                    Err(detail) => Err(CaptureErrorView::ExtractionError(detail)),
                    Ok(source) => match session.screenshot {
                        Err(detail) => Err(CaptureErrorView::ExtractionError(detail)),
                        Ok(bytes) => Ok(PageView { url, title, source, screenshot: Some(bytes) }),
                    },
                },
            }
        },
    }
}

/// Content of a capture's result.
pub open spec fn outcome_view(outcome: Result<Page, CaptureError>) -> Result<
    PageView,
    CaptureErrorView,
> {
    match outcome {
        Ok(page) => Ok(page@),
        Err(error) => Err(error@),
    }
}

impl Capture {
    /// Starts a capture of `url`. The first request is the navigation.
    pub fn begin(url: &str) -> (start: (Capture, Request))
        ensures
            start.0@ == initial(url@),
            start.1@ == (RequestView::Navigate { url: url@ }),
    {
        let capture = Capture {
            url: url.to_owned(),
            condition: ReadinessCondition::page_ready(),
            stage: Stage::Navigating,
            title: String::new(),
            source: String::new(),
            cookie: None,
        };
        (capture, Request::Navigate { url: url.to_owned() })
    }

    /// The URL that the capture was started with.
    pub fn url(&self) -> (url: &str)
        ensures
            url@ == self@.url,
    {
        self.url.as_str()
    }

    /// The request that the capture is waiting on.
    pub fn stage(&self) -> (stage: Stage)
        ensures
            stage == self@.stage,
    {
        self.stage
    }

    /// The session cookie, if the lookup has been made and found one.
    pub fn session_cookie(&self) -> (found: Option<&Cookie>)
        ensures
            match found {
                Some(cookie) => self@.cookie == Some(cookie@),
                None => self@.cookie is None,
            },
    {
        self.cookie.as_ref()
    }

    /// Takes the reply to the request in flight and says what comes next.
    pub fn advance(self, reply: Reply) -> (progress: Progress)
        ensures
            progress@ == advance_spec(self@, reply@),
    {
        let Capture { url, condition, stage, title, source, cookie } = self;
        match stage {
            Stage::Navigating => match reply {
                Reply::Navigated => {
                    let request = probe(&condition, 0);
                    Progress::Continue(
                        Capture { url, condition, stage: Stage::Waiting, title, source, cookie },
                        request,
                    )
                },
                Reply::Failed(detail) => Progress::Failed(CaptureError::NavigationError(detail)),
                _ => Progress::Failed(CaptureError::InvalidState),
            },
            Stage::Waiting => match reply {
                Reply::Probed(reading) => match condition.judge(&reading) {
                    Verdict::Ready => Progress::Continue(
                        Capture {
                            url,
                            condition,
                            stage: Stage::ReadingTitle,
                            title,
                            source,
                            cookie,
                        },
                        Request::ReadTitle,
                    ),
                    Verdict::Retry { after_ms } => {
                        let request = probe(&condition, after_ms);
                        Progress::Continue(
                            Capture { url, condition, stage: Stage::Waiting, title, source, cookie },
                            request,
                        )
                    },
                    Verdict::TimedOut => Progress::Failed(CaptureError::ReadinessTimeout),
                },
                _ => Progress::Failed(CaptureError::InvalidState),
            },
            Stage::ReadingTitle => match reply {
                Reply::Title(text) => Progress::Continue(
                    Capture {
                        url,
                        condition,
                        stage: Stage::ReadingCookie,
                        title: text,
                        source,
                        cookie,
                    },
                    Request::ReadCookie { name: SESSION_COOKIE.to_owned() },
                ),
                Reply::Failed(detail) => Progress::Failed(CaptureError::ExtractionError(detail)),
                _ => Progress::Failed(CaptureError::InvalidState),
            },
            Stage::ReadingCookie => match reply {
                Reply::Cookie(found) => Progress::Continue(
                    Capture {
                        url,
                        condition,
                        stage: Stage::ReadingSource,
                        title,
                        source,
                        cookie: found,
                    },
                    Request::ReadSource,
                ),
                Reply::Failed(_) => Progress::Continue(
                    Capture {
                        url,
                        condition,
                        stage: Stage::ReadingSource,
                        title,
                        source,
                        cookie: None,
                    },
                    Request::ReadSource,
                ),
                _ => Progress::Failed(CaptureError::InvalidState),
            },
            Stage::ReadingSource => match reply {
                Reply::Source(text) => Progress::Continue(
                    Capture {
                        url,
                        condition,
                        stage: Stage::TakingScreenshot,
                        title,
                        source: text,
                        cookie,
                    },
                    Request::TakeScreenshot,
                ),
                Reply::Failed(detail) => Progress::Failed(CaptureError::ExtractionError(detail)),
                _ => Progress::Failed(CaptureError::InvalidState),
            },
            Stage::TakingScreenshot => match reply {
                Reply::Screenshot(bytes) => Progress::Done(
                    Page::new(url, title, source, Some(bytes)),
                ),
                Reply::Failed(detail) => Progress::Failed(CaptureError::ExtractionError(detail)),
                _ => Progress::Failed(CaptureError::InvalidState),
            },
        }
    }
}

fn probe(condition: &ReadinessCondition, after_ms: u64) -> (request: Request)
    ensures
        request@ == probe_request(condition@, after_ms),
{
    Request::Probe {
        selector: condition.selector.clone(),
        attribute: condition.attribute.clone(),
        after_ms,
    }
}

/// Number of requests that a capture at this stage still has to make, a
/// repeated poll counted once.
spec fn steps_left(stage: Stage) -> nat {
    match stage {
        Stage::Navigating => 6,
        Stage::Waiting => 5,
        Stage::ReadingTitle => 4,
        Stage::ReadingCookie => 3,
        Stage::ReadingSource => 2,
        Stage::TakingScreenshot => 1,
    }
}

/// The machine, its request in flight and the number of readings used so
/// far agree with the session: everything that the capture has seen is what
/// the session holds, and nothing that it has seen has failed.
spec fn on_track(
    session: SessionView,
    url: Seq<char>,
    capture: CaptureView,
    request: RequestView,
    polled: int,
) -> bool {
    let cond = page_ready_condition();
    &&& capture.url == url
    &&& capture.condition == cond
    &&& 0 <= polled <= session.probes.len()
    &&& match capture.stage {
        Stage::Navigating => request is Navigate && polled == 0,
        Stage::Waiting => {
            &&& request is Probe
            &&& session.navigation is Ok
            &&& forall|j: int|
                0 <= j < polled ==> !satisfied(cond, #[trigger] session.probes[j])
                    && session.probes[j].elapsed_ms < cond.timeout_ms
        },
        Stage::ReadingTitle => {
            &&& request is ReadTitle
            &&& session.navigation is Ok
            &&& becomes_ready(cond, session.probes)
        },
        Stage::ReadingCookie => {
            &&& request is ReadCookie
            &&& session.navigation is Ok
            &&& becomes_ready(cond, session.probes)
            &&& session.title == Ok::<Seq<char>, Seq<char>>(capture.title)
        },
        Stage::ReadingSource => {
            &&& request is ReadSource
            &&& session.navigation is Ok
            &&& becomes_ready(cond, session.probes)
            &&& session.title == Ok::<Seq<char>, Seq<char>>(capture.title)
        },
        Stage::TakingScreenshot => {
            &&& request is TakeScreenshot
            &&& session.navigation is Ok
            &&& becomes_ready(cond, session.probes)
            &&& session.title == Ok::<Seq<char>, Seq<char>>(capture.title)
            &&& session.source == Ok::<Seq<char>, Seq<char>>(capture.source)
        },
    }
}

/// Captures `url` on a recorded session: runs the pipeline's machine,
/// answering each of its requests from the record, until it is done or has
/// failed. Readings are handed out in their recorded order; a wait that uses
/// them all up without a decision has timed out.
pub fn navigate_and_capture(session: &RecordedSession, url: &str) -> (outcome: Result<
    Page,
    CaptureError,
>)
    ensures
        outcome_view(outcome) == capture_outcome(session@, url@),
{
    let (first, navigation) = Capture::begin(url);
    let mut capture = first;
    let mut request = navigation;
    let mut polled: usize = 0;
    loop
        invariant
            on_track(session@, url@, capture@, request@, polled as int),
            polled <= session.probes.len(),
        decreases steps_left(capture@.stage), session.probes.len() - polled,
    {
        let ghost before = capture@;
        let reply = match &request {
            Request::Navigate { url: _ } => match &session.navigation {
                Ok(_) => Reply::Navigated,
                Err(detail) => Reply::Failed(detail.clone()),
            },
            Request::Probe { selector: _, attribute: _, after_ms: _ } => {
                if polled < session.probes.len() {
                    let reading = session.probes[polled].clone();
                    assert(session@.probes[polled as int] == reading@);
                    polled += 1;
                    Reply::Probed(reading)
                } else {
                    return Err(CaptureError::ReadinessTimeout);
                }
            },
            Request::ReadTitle => match &session.title {
                Ok(text) => Reply::Title(text.clone()),
                Err(detail) => Reply::Failed(detail.clone()),
            },
            Request::ReadCookie { name } => Reply::Cookie(read_named(session, name.as_str())),
            Request::ReadSource => match &session.source {
                Ok(text) => Reply::Source(text.clone()),
                Err(detail) => Reply::Failed(detail.clone()),
            },
            Request::TakeScreenshot => match &session.screenshot {
                Ok(bytes) => {
                    let copied = bytes.clone();
                    assert(copied@ =~= bytes@);
                    Reply::Screenshot(copied)
                },
                Err(detail) => Reply::Failed(detail.clone()),
            },
        };
        proof {
            if before.stage == Stage::Waiting {
                let reading = session@.probes[polled as int - 1];
                if verdict(before.condition, reading) == Verdict::TimedOut {
                    lemma_late_reading_ends_wait(
                        before.condition,
                        session@.probes,
                        polled as int - 1,
                    );
                }
                if verdict(before.condition, reading) == Verdict::Ready {
                    assert(satisfied(before.condition, session@.probes[polled as int - 1]));
                }
            }
        }
        match capture.advance(reply) {
            Progress::Continue(next, ask) => {
                capture = next;
                request = ask;
            },
            Progress::Done(page) => {
                return Ok(page);
            },
            Progress::Failed(error) => {
                return Err(error);
            },
        }
    }
}

/// No partial page. Whatever the session, a capture ends either in a page
/// that holds the URL asked for and the session's own title, source and
/// screenshot, after an accepted navigation and a wait that ended in
/// readiness, or in a navigation, readiness or extraction error.
pub proof fn lemma_capture_complete(session: SessionView, url: Seq<char>)
    ensures
        match capture_outcome(session, url) {
            Ok(page) => {
                &&& page.url == url
                &&& session.navigation is Ok
                &&& becomes_ready(page_ready_condition(), session.probes)
                &&& session.title == Ok::<Seq<char>, Seq<char>>(page.title)
                &&& session.source == Ok::<Seq<char>, Seq<char>>(page.source)
                &&& page.screenshot is Some
                &&& session.screenshot == Ok::<Seq<u8>, Seq<char>>(page.screenshot->Some_0)
            },
            Err(error) => {
                ||| error is NavigationError
                ||| error is ReadinessTimeout
                ||| error is ExtractionError
            },
        },
{
}

/// On a session whose title and source are not empty, a page that comes out
/// of a capture has a title and a source that are not empty.
pub proof fn lemma_capture_nonempty(session: SessionView, url: Seq<char>)
    requires
        session.title matches Ok(title) ==> title.len() > 0,
        session.source matches Ok(source) ==> source.len() > 0,
    ensures
        capture_outcome(session, url) matches Ok(page) ==> page.title.len() > 0
            && page.source.len() > 0,
{
}

/// The machine finishes only on the screenshot's arrival, and the page then
/// holds the capture's URL, title and source and the bytes that arrived.
pub proof fn lemma_done_holds_all_parts(capture: CaptureView, reply: ReplyView)
    ensures
        advance_spec(capture, reply) matches ProgressView::Done(page) ==> {
            &&& capture.stage == Stage::TakingScreenshot
            &&& reply matches ReplyView::Screenshot(bytes)
            &&& page == PageView {
                url: capture.url,
                title: capture.title,
                source: capture.source,
                screenshot: Some(bytes),
            }
        },
{
}

/// Cookies do not decide a capture: two sessions that differ in nothing but
/// their cookies come to the same outcome.
pub proof fn lemma_cookies_do_not_decide(
    session: SessionView,
    cookies: Seq<CookieView>,
    url: Seq<char>,
)
    ensures
        capture_outcome(SessionView { cookies, ..session }, url) == capture_outcome(session, url),
{
}

/// The cookie lookup never stops the machine: whether the cookie is found,
/// missing, or the lookup itself fails, the capture goes on to read the
/// source.
pub proof fn lemma_cookie_step_goes_on(capture: CaptureView, reply: ReplyView)
    requires
        capture.stage == Stage::ReadingCookie,
        reply is Cookie || reply is Failed,
    ensures
        advance_spec(capture, reply) matches ProgressView::Continue(next, request) && next.stage
            == Stage::ReadingSource && request == RequestView::ReadSource && next.url
            == capture.url && next.title == capture.title,
{
}

} // verus!
