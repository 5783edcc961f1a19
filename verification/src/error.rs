//! The ways in which a session or a capture can fail.

use vstd::prelude::*;

verus! {

/// Why a session operation or a capture did not succeed. The variants that
/// carry a text hold the driver's own message, unchanged.
#[derive(Debug, PartialEq, Eq)]
pub enum CaptureError {
    /// The driver could not be reached, or refused the session.
    ConnectionError(String),
    /// The browser did not accept the navigation.
    NavigationError(String),
    /// The page did not signal readiness before the deadline.
    ReadinessTimeout,
    /// Title, source or screenshot could not be read from the session.
    ExtractionError(String),
    /// The session holds no cookie of the name asked for.
    CookieNotFound,
    /// An answer arrived that does not belong to the request in flight.
    InvalidState,
}

/// Mathematical content of a [`CaptureError`].
pub enum CaptureErrorView {
    ConnectionError(Seq<char>),
    NavigationError(Seq<char>),
    ReadinessTimeout,
    ExtractionError(Seq<char>),
    CookieNotFound,
    InvalidState,
}

impl View for CaptureError {
    type V = CaptureErrorView;

    open spec fn view(&self) -> CaptureErrorView {
        match self {
            CaptureError::ConnectionError(detail) => CaptureErrorView::ConnectionError(detail@),
            CaptureError::NavigationError(detail) => CaptureErrorView::NavigationError(detail@),
            CaptureError::ReadinessTimeout => CaptureErrorView::ReadinessTimeout,
            CaptureError::ExtractionError(detail) => CaptureErrorView::ExtractionError(detail@),
            CaptureError::CookieNotFound => CaptureErrorView::CookieNotFound,
            CaptureError::InvalidState => CaptureErrorView::InvalidState,
        }
    }
}

impl Clone for CaptureError {
    fn clone(&self) -> (copy: CaptureError)
        ensures
            copy@ == self@,
    {
        match self {
            CaptureError::ConnectionError(detail) => CaptureError::ConnectionError(detail.clone()),
            CaptureError::NavigationError(detail) => CaptureError::NavigationError(detail.clone()),
            CaptureError::ReadinessTimeout => CaptureError::ReadinessTimeout,
            CaptureError::ExtractionError(detail) => CaptureError::ExtractionError(detail.clone()),
            CaptureError::CookieNotFound => CaptureError::CookieNotFound,
            CaptureError::InvalidState => CaptureError::InvalidState,
        }
    }
}

impl CaptureErrorView {
    /// The text shown for an error: what failed, then the driver's message
    /// where there is one.
    pub open spec fn message(self) -> Seq<char> {
        match self {
            CaptureErrorView::ConnectionError(detail) => "connection failed: "@ + detail,
            CaptureErrorView::NavigationError(detail) => "navigation failed: "@ + detail,
            CaptureErrorView::ReadinessTimeout => "page did not become ready in time"@,
            CaptureErrorView::ExtractionError(detail) => "extraction failed: "@ + detail,
            CaptureErrorView::CookieNotFound => "cookie not found"@,
            CaptureErrorView::InvalidState => "answer does not match the request in flight"@,
        }
    }
}

impl CaptureError {
    /// A description of the error for the user.
    pub fn message(&self) -> (text: String)
        ensures
            text@ == self@.message(),
    {
        match self {
            CaptureError::ConnectionError(detail) => prefixed("connection failed: ", detail),
            CaptureError::NavigationError(detail) => prefixed("navigation failed: ", detail),
            CaptureError::ReadinessTimeout => "page did not become ready in time".to_owned(),
            CaptureError::ExtractionError(detail) => prefixed("extraction failed: ", detail),
            CaptureError::CookieNotFound => "cookie not found".to_owned(),
            CaptureError::InvalidState => "answer does not match the request in flight".to_owned(),
        }
    }
}

fn prefixed(prefix: &str, detail: &String) -> (text: String)
    ensures
        text@ == prefix@ + detail@,
{
    let mut text = prefix.to_owned();
    text.append(detail.as_str());
    text
}

} // verus!
