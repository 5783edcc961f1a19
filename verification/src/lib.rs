//! Sans-I/O core of a headless-browser page capture pipeline.
//!
//! The crate holds every decision of the pipeline (what to ask the browser
//! session next, when to give up waiting, how a finished snapshot is put
//! together and written down) as verified functions over plain values. The
//! program around it performs the requests and hands the answers back.

pub mod browser;
pub mod capture;
pub mod cookie;
pub mod encoding;
pub mod error;
pub mod listing;
pub mod naming;
pub mod page;
pub mod readiness;
pub mod record;
pub mod session;

pub use browser::Browser;
pub use capture::{navigate_and_capture, Capture, Progress, Reply, Request, Stage};
pub use cookie::{read_named, Cookie};
pub use encoding::Base64Encoded;
pub use error::{CaptureError, CaptureErrorView};
pub use naming::ToSnakeCase;
pub use page::{Page, PageView};
pub use readiness::{wait_until, Probe, ReadinessCondition, Verdict};
pub use record::RecordError;
pub use session::RecordedSession;
