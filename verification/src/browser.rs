//! The session handle: how a session is opened, used and closed.
//!
//! The handle does not hold the connection. The caller opens, uses and
//! closes the driver's session and reports each answer; the handle decides
//! what the answer means. A [`Browser`] exists only for a session that was
//! opened, and closing consumes it, so that nothing can be asked of a closed
//! session.

use crate::capture::{initial, Capture, Request, RequestView};
use crate::error::{CaptureError, CaptureErrorView};
use vstd::prelude::*;

verus! {

/// How much the browser logs.
#[derive(Debug, Clone, Copy, PartialEq, Eq, Structural)]
pub enum LogLevel {
    Trace,
    Debug,
    Config,
    Info,
    Warn,
    Error,
    Fatal,
}

/// What to ask of the driver when opening a session.
#[derive(Debug, PartialEq, Eq)]
pub struct SessionSettings {
    /// Address of the driver.
    pub endpoint: String,
    /// Run the browser without a window.
    pub headless: bool,
    /// Diagnostic verbosity of the browser.
    pub log_level: LogLevel,
}

/// The decimal digit for a number below ten.
pub open spec fn digit(n: nat) -> char
    recommends
        n < 10,
{
    if n == 0 {
        '0'
    } else if n == 1 {
        '1'
    } else if n == 2 {
        '2'
    } else if n == 3 {
        '3'
    } else if n == 4 {
        '4'
    } else if n == 5 {
        '5'
    } else if n == 6 {
        '6'
    } else if n == 7 {
        '7'
    } else if n == 8 {
        '8'
    } else {
        '9'
    }
}

/// The decimal digits of a natural number, without leading zeros.
pub open spec fn digits(n: nat) -> Seq<char>
    decreases n,
{
    if n < 10 {
        seq![digit(n)]
    } else {
        digits(n / 10).push(digit(n % 10))
    }
}

/// An integer in decimal, with a minus sign where it is negative.
pub open spec fn decimal(n: int) -> Seq<char> {
    if n < 0 {
        seq!['-'] + digits((-n) as nat)
    } else {
        digits(n as nat)
    }
}

/// The address of a driver that listens on a port of this machine.
pub open spec fn endpoint_of(port: i16) -> Seq<char> {
    "http://localhost:"@ + decimal(port as int)
}

/// Formats an `i16` with `format!("{:?}", ..)`.
///
/// Trusted: the text is the number in decimal, with a leading `-` for a
/// negative one, as std documents for the integer types.
#[verifier::external_body]
fn port_text(port: i16) -> (text: String)
    ensures
        text@ == decimal(port as int),
{
    format!("{:?}", port)
}

/// A handle on an open browser session.
#[derive(Debug)]
pub struct Browser {
    port: i16,
}

impl Browser {
    /// What to open the session with: the driver on `port` of this machine,
    /// a headless browser, debug logging.
    pub fn settings(port: i16) -> (settings: SessionSettings)
        ensures
            settings.endpoint@ == endpoint_of(port),
            settings.headless,
            settings.log_level == LogLevel::Debug,
    {
        let mut endpoint = "http://localhost:".to_owned();
        let number = port_text(port);
        endpoint.append(number.as_str());
        SessionSettings { endpoint, headless: true, log_level: LogLevel::Debug }
    }

    /// Takes the driver's answer to the opening of a session on `port`. A
    /// handle comes out exactly when the session was opened; a refusal is a
    /// `ConnectionError` with the driver's message.
    pub fn new(port: i16, connection: Result<(), String>) -> (opened: Result<Browser, CaptureError>)
        ensures
            match connection {
                Ok(_) => opened matches Ok(browser) && browser.port_spec() == port,
                Err(detail) => opened matches Err(error) && error@
                    == CaptureErrorView::ConnectionError(detail@),
            },
    {
        match connection {
            Ok(_) => Ok(Browser { port }),
            Err(detail) => Err(CaptureError::ConnectionError(detail)),
        }
    }

    /// The port of the driver that the session runs on.
    pub closed spec fn port_spec(&self) -> i16 {
        self.port
    }

    /// The port of the driver that the session runs on.
    #[verifier::when_used_as_spec(port_spec)]
    pub fn port(&self) -> (port: i16)
        ensures
            port == self.port_spec(),
    {
        self.port
    }

    /// Starts a capture of `url` on the session. The request that comes
    /// with it is the navigation; see [`Capture::advance`] for the rest.
    pub fn navigate(&self, url: &str) -> (start: (Capture, Request))
        ensures
            start.0@ == initial(url@),
            start.1@ == (RequestView::Navigate { url: url@ }),
    {
        Capture::begin(url)
    }

    /// Takes the driver's answer to a screenshot request outside a capture:
    /// the bytes as they came, or an `ExtractionError` with the driver's
    /// message.
    pub fn screenshot(&self, answer: Result<Vec<u8>, String>) -> (shot: Result<
        Vec<u8>,
        CaptureError,
    >)
        ensures
            match answer {
                Ok(bytes) => shot == Ok::<Vec<u8>, CaptureError>(bytes),
                Err(detail) => shot matches Err(error) && error@
                    == CaptureErrorView::ExtractionError(detail@),
            },
    {
        match answer {
            Ok(bytes) => Ok(bytes),
            Err(detail) => Err(CaptureError::ExtractionError(detail)),
        }
    }

    /// Ends the session, taking the driver's answer to the quit command. The
    /// handle is gone either way; a failure to quit is reported as a
    /// `ConnectionError` with the driver's message.
    pub fn close(self, answer: Result<(), String>) -> (closed: Result<(), CaptureError>)
        ensures
            match answer {
                Ok(_) => closed is Ok,
                Err(detail) => closed matches Err(error) && error@
                    == CaptureErrorView::ConnectionError(detail@),
            },
    {
        match answer {
            Ok(_) => Ok(()),
            Err(detail) => Err(CaptureError::ConnectionError(detail)),
        }
    }
}

} // verus!
