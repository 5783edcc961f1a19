//! A browser session written down as plain values.

use crate::cookie::{Cookie, CookieView};
use crate::readiness::{Probe, ProbeView};
use vstd::prelude::*;

verus! {

/// What a browser session answers during one capture: whether it accepts
/// the navigation, what the readiness polls read and when, and what title,
/// cookies, source and screenshot it holds. Each `Err` carries the driver's
/// message.
#[derive(Debug, PartialEq, Eq)]
pub struct RecordedSession {
    /// The answer to the navigation command.
    pub navigation: Result<(), String>,
    /// The readiness readings, in the order in which they are taken.
    pub probes: Vec<Probe>,
    /// The document title.
    pub title: Result<String, String>,
    /// The cookies of the session.
    pub cookies: Vec<Cookie>,
    /// The serialized document.
    pub source: Result<String, String>,
    /// The screenshot as PNG bytes.
    pub screenshot: Result<Vec<u8>, String>,
}

/// Mathematical content of a [`RecordedSession`].
pub struct SessionView {
    pub navigation: Result<(), Seq<char>>,
    pub probes: Seq<ProbeView>,
    pub title: Result<Seq<char>, Seq<char>>,
    pub cookies: Seq<CookieView>,
    pub source: Result<Seq<char>, Seq<char>>,
    pub screenshot: Result<Seq<u8>, Seq<char>>,
}

/// Content of a text answer.
pub open spec fn text_answer(answer: Result<String, String>) -> Result<Seq<char>, Seq<char>> {
    match answer {
        Ok(text) => Ok(text@),
        Err(detail) => Err(detail@),
    }
}

impl View for RecordedSession {
    type V = SessionView;

    open spec fn view(&self) -> SessionView {
        SessionView {
            navigation: match self.navigation {
                Ok(_) => Ok(()),
                Err(detail) => Err(detail@),
            },
            probes: self.probes.deep_view(),
            title: text_answer(self.title),
            cookies: self.cookies.deep_view(),
            source: text_answer(self.source),
            screenshot: match self.screenshot {
                Ok(bytes) => Ok(bytes@),
                Err(detail) => Err(detail@),
            },
        }
    }
}

} // verus!
