//! Waiting for a page to signal that its client-side start-up is done.
//!
//! A page is ready when a named attribute of a named element holds an
//! expected value. The caller polls the attribute and reports each reading
//! together with the time since the first poll; the functions here decide
//! whether to go on, to poll again after a pause, or to give up.

use crate::error::CaptureError;
use vstd::prelude::*;

verus! {

/// Element watched by the capture pipeline.
pub const READY_SELECTOR: &'static str = "body";

/// Attribute of that element which carries the signal.
pub const READY_ATTRIBUTE: &'static str = "data-runtime-theme";

/// Value of the attribute that means "ready".
pub const READY_VALUE: &'static str = "default";

/// Deadline of the wait, in milliseconds since the first poll.
pub const READY_TIMEOUT_MS: u64 = 10_000;

/// Pause between two polls, in milliseconds.
pub const POLL_INTERVAL_MS: u64 = 500;

/// What to wait for, and for how long.
#[derive(Debug, PartialEq, Eq)]
pub struct ReadinessCondition {
    /// CSS selector of the element to watch.
    pub selector: String,
    /// Name of the attribute to read.
    pub attribute: String,
    /// Value that the attribute must equal.
    pub expected: String,
    /// Deadline in milliseconds since the first poll.
    pub timeout_ms: u64,
    /// Pause between polls in milliseconds.
    pub interval_ms: u64,
}

/// Mathematical content of a [`ReadinessCondition`].
pub struct ConditionView {
    pub selector: Seq<char>,
    pub attribute: Seq<char>,
    pub expected: Seq<char>,
    pub timeout_ms: u64,
    pub interval_ms: u64,
}

impl View for ReadinessCondition {
    type V = ConditionView;

    open spec fn view(&self) -> ConditionView {
        ConditionView {
            selector: self.selector@,
            attribute: self.attribute@,
            expected: self.expected@,
            timeout_ms: self.timeout_ms,
            interval_ms: self.interval_ms,
        }
    }
}

impl Clone for ReadinessCondition {
    fn clone(&self) -> (copy: ReadinessCondition)
        ensures
            copy@ == self@,
    {
        ReadinessCondition {
            selector: self.selector.clone(),
            attribute: self.attribute.clone(),
            expected: self.expected.clone(),
            timeout_ms: self.timeout_ms,
            interval_ms: self.interval_ms,
        }
    }
}

/// One reading of the watched attribute.
#[derive(Debug, PartialEq, Eq)]
pub struct Probe {
    /// Milliseconds since the first poll of this wait.
    pub elapsed_ms: u64,
    /// The attribute's value; `None` where the element or the attribute is
    /// missing or could not be read.
    pub value: Option<String>,
}

/// Mathematical content of a [`Probe`].
pub struct ProbeView {
    pub elapsed_ms: u64,
    pub value: Option<Seq<char>>,
}

impl View for Probe {
    type V = ProbeView;

    open spec fn view(&self) -> ProbeView {
        ProbeView {
            elapsed_ms: self.elapsed_ms,
            value: match self.value {
                Some(text) => Some(text@),
                None => None,
            },
        }
    }
}

impl Clone for Probe {
    fn clone(&self) -> (copy: Probe)
        ensures
            copy@ == self@,
    {
        Probe {
            elapsed_ms: self.elapsed_ms,
            value: match &self.value {
                Some(text) => Some(text.clone()),
                None => None,
            },
        }
    }
}

impl DeepView for Probe {
    type V = ProbeView;

    open spec fn deep_view(&self) -> ProbeView {
        self@
    }
}

/// The decision taken on one reading.
#[derive(Debug, Clone, Copy, PartialEq, Eq, Structural)]
pub enum Verdict {
    /// The attribute holds the expected value.
    Ready,
    /// Not yet: pause this many milliseconds, then poll again.
    Retry { after_ms: u64 },
    /// Not ready, and the deadline has passed.
    TimedOut,
}

/// The page's default condition: `body[data-runtime-theme=default]`, polled
/// every half second for ten seconds.
pub open spec fn page_ready_condition() -> ConditionView {
    ConditionView {
        selector: READY_SELECTOR@,
        attribute: READY_ATTRIBUTE@,
        expected: READY_VALUE@,
        timeout_ms: READY_TIMEOUT_MS,
        interval_ms: POLL_INTERVAL_MS,
    }
}

/// Does the reading show the expected value?
pub open spec fn satisfied(cond: ConditionView, probe: ProbeView) -> bool {
    probe.value == Some(cond.expected)
}

/// The decision on one reading: ready if the value matches; else timed out
/// if the deadline has been reached; else poll again after one interval.
pub open spec fn verdict(cond: ConditionView, probe: ProbeView) -> Verdict {
    if satisfied(cond, probe) {
        Verdict::Ready
    } else if probe.elapsed_ms >= cond.timeout_ms {
        Verdict::TimedOut
    } else {
        Verdict::Retry { after_ms: cond.interval_ms }
    }
}

/// A recorded series of readings ends in readiness: some reading shows the
/// expected value, and every reading before it was taken before the
/// deadline.
pub open spec fn becomes_ready(cond: ConditionView, probes: Seq<ProbeView>) -> bool {
    exists|i: int|
        0 <= i < probes.len() && #[trigger] satisfied(cond, probes[i]) && forall|j: int|
            0 <= j < i ==> (#[trigger] probes[j]).elapsed_ms < cond.timeout_ms
}

/// Readings taken on schedule: the first at time zero, each later one at
/// most one interval after the one before.
pub open spec fn punctual(cond: ConditionView, probes: Seq<ProbeView>) -> bool {
    &&& probes.len() > 0 ==> probes[0].elapsed_ms == 0
    &&& forall|i: int|
        0 < i < probes.len() ==> (#[trigger] probes[i]).elapsed_ms <= probes[i - 1].elapsed_ms
            + cond.interval_ms
}

impl ReadinessCondition {
    /// The condition that the capture pipeline waits for.
    pub fn page_ready() -> (cond: ReadinessCondition)
        ensures
            cond@ == page_ready_condition(),
    {
        ReadinessCondition {
            selector: READY_SELECTOR.to_owned(),
            attribute: READY_ATTRIBUTE.to_owned(),
            expected: READY_VALUE.to_owned(),
            timeout_ms: READY_TIMEOUT_MS,
            interval_ms: POLL_INTERVAL_MS,
        }
    }

    /// Decides on one reading. A time-out is pronounced only on a reading
    /// taken at or after the deadline.
    pub fn judge(&self, probe: &Probe) -> (decision: Verdict)
        ensures
            decision == verdict(self@, probe@),
            decision == Verdict::TimedOut ==> probe.elapsed_ms >= self.timeout_ms,
    {
        let matched = match &probe.value {
            Some(text) => *text == self.expected,
            None => false,
        };
        if matched {
            Verdict::Ready
        } else if probe.elapsed_ms >= self.timeout_ms {
            Verdict::TimedOut
        } else {
            Verdict::Retry { after_ms: self.interval_ms }
        }
    }
}

/// Replays a recorded series of readings against the condition. Succeeds
/// exactly when the series ends in readiness; every other series, one that
/// runs out included, is a time-out.
pub fn wait_until(cond: &ReadinessCondition, probes: &Vec<Probe>) -> (outcome: Result<
    (),
    CaptureError,
>)
    ensures
        outcome is Ok <==> becomes_ready(cond@, probes.deep_view()),
        outcome matches Err(error) ==> error == CaptureError::ReadinessTimeout,
{
    let ghost readings = probes.deep_view();
    let mut i: usize = 0;
    while i < probes.len()
        invariant
            i <= probes.len(),
            readings == probes.deep_view(),
            readings.len() == probes.len(),
            forall|j: int|
                0 <= j < i ==> !satisfied(cond@, #[trigger] readings[j]) && readings[j].elapsed_ms
                    < cond.timeout_ms,
        decreases probes.len() - i,
    {
        assert(readings[i as int] == probes[i as int]@);
        match cond.judge(&probes[i]) {
            Verdict::Ready => {
                assert(satisfied(cond@, readings[i as int]));
                return Ok(());
            },
            Verdict::TimedOut => {
                proof {
                    lemma_late_reading_ends_wait(cond@, readings, i as int);
                }
                return Err(CaptureError::ReadinessTimeout);
            },
            Verdict::Retry { after_ms: _ } => {},
        }
        i += 1;
    }
    Err(CaptureError::ReadinessTimeout)
}

/// A reading without the expected value, taken at or after the deadline and
/// after none that showed it, settles that the series does not end in
/// readiness.
pub proof fn lemma_late_reading_ends_wait(cond: ConditionView, probes: Seq<ProbeView>, i: int)
    requires
        0 <= i < probes.len(),
        forall|j: int| 0 <= j <= i ==> !satisfied(cond, #[trigger] probes[j]),
        probes[i].elapsed_ms >= cond.timeout_ms,
    ensures
        !becomes_ready(cond, probes),
{
    if becomes_ready(cond, probes) {
        let k = choose|k: int|
            0 <= k < probes.len() && #[trigger] satisfied(cond, probes[k]) && forall|j: int|
                0 <= j < k ==> (#[trigger] probes[j]).elapsed_ms < cond.timeout_ms;
        if k > i {
            assert(probes[i].elapsed_ms < cond.timeout_ms);
        }
    }
}

/// Deadline law. On a punctual series of readings, the first time-out falls
/// no earlier than the deadline and no later than one interval after it.
pub proof fn lemma_timeout_boundary(cond: ConditionView, probes: Seq<ProbeView>, i: int)
    requires
        punctual(cond, probes),
        0 <= i < probes.len(),
        forall|j: int| 0 <= j < i ==> verdict(cond, #[trigger] probes[j]) is Retry,
        verdict(cond, probes[i]) == Verdict::TimedOut,
    ensures
        cond.timeout_ms <= probes[i].elapsed_ms <= cond.timeout_ms + cond.interval_ms,
{
    if i > 0 {
        assert(verdict(cond, probes[i - 1]) is Retry);
    }
}

/// A series in which no reading ever shows the expected value does not end
/// in readiness.
pub proof fn lemma_never_ready(cond: ConditionView, probes: Seq<ProbeView>)
    requires
        forall|i: int| 0 <= i < probes.len() ==> !satisfied(cond, #[trigger] probes[i]),
    ensures
        !becomes_ready(cond, probes),
{
}

} // verus!
