//! Probe outcomes, their classification, and the per-endpoint prober.

use crate::config::Endpoint;
use vstd::prelude::*;

verus! {

/// Why a probe did not produce a response.
#[derive(Debug, Clone, Copy, PartialEq, Eq, Structural)]
pub enum ErrorKind {
    /// The request did not complete before its deadline.
    Timeout,
    /// No connection could be established or completed.
    ConnectionError,
    /// Any other failure.
    Other,
}

/// The classification of a failed probe: a deadline that passed wins over a
/// connection failure, and anything else is `Other`.
pub open spec fn error_kind_spec(timed_out: bool, connect_failed: bool) -> ErrorKind {
    if timed_out {
        ErrorKind::Timeout
    } else if connect_failed {
        ErrorKind::ConnectionError
    } else {
        ErrorKind::Other
    }
}

/// Classifies a failed probe from what its error reports.
pub fn error_kind(timed_out: bool, connect_failed: bool) -> (r: ErrorKind)
    ensures
        r == error_kind_spec(timed_out, connect_failed),
{
    if timed_out {
        ErrorKind::Timeout
    } else if connect_failed {
        ErrorKind::ConnectionError
    } else {
        ErrorKind::Other
    }
}

/// The status of one probe.
#[derive(Debug, Clone, PartialEq, Eq)]
pub enum CheckStatus {
    /// A well-formed response, with its code and reason phrase.
    Success { code: u16, reason: String },
    /// No response: the failure, classified.
    Error { kind: ErrorKind },
}

/// A status as plain values: the reason phrase as a sequence of characters.
pub enum StatusView {
    Success { code: u16, reason: Seq<char> },
    Error { kind: ErrorKind },
}

impl View for CheckStatus {
    type V = StatusView;

    open spec fn view(&self) -> StatusView {
        match self {
            CheckStatus::Success { code, reason } => StatusView::Success { code: *code, reason: reason@ },
            CheckStatus::Error { kind } => StatusView::Error { kind: *kind },
        }
    }
}

/// The outcome of one probe of one endpoint.
#[derive(Debug, Clone, PartialEq, Eq)]
pub struct CheckResult {
    /// Identifier of the probed endpoint.
    pub name: String,
    pub status: CheckStatus,
    /// Wall-clock time the probe took, in whole milliseconds, recorded
    /// whether the probe succeeded or not.
    pub latency_ms: u64,
}

/// The phrase reported when a status code has no standard reason phrase.
pub open spec fn unknown_reason() -> Seq<char> {
    "Unknown"@
}

/// The standard reason phrase of an HTTP status code, where it has one.
pub uninterp spec fn reason_phrase(code: u16) -> Option<Seq<char>>;

/// Relies on http's `StatusCode::from_u16` and `StatusCode::canonical_reason`
/// (re-exported by reqwest): the phrase depends on the code alone, codes
/// outside 100..=999 have none, and 200 reads "OK".
#[verifier::external_body]
fn canonical_reason(code: u16) -> (r: Option<String>)
    ensures
        match r {
            Some(s) => reason_phrase(code) == Some(s@),
            None => reason_phrase(code) is None,
        },
        code < 100 || code > 999 ==> r is None,
        code == 200 ==> r is Some && r->0@ == "OK"@,
{
    match reqwest::StatusCode::from_u16(code) {
        Ok(status) => status.canonical_reason().map(String::from),
        Err(_) => None,
    }
}

/// The status of a probe that got a response with `code`, whose reason
/// phrase lookup gave `reason`.
pub open spec fn success_spec(code: u16, reason: Option<Seq<char>>) -> StatusView {
    StatusView::Success {
        code,
        reason: match reason {
            Some(text) => text,
            None => unknown_reason(),
        },
    }
}

/// The status of a probe that got a response with `code`: the phrase
/// `reason` where there is one, "Unknown" otherwise.
pub fn success_status(code: u16, reason: Option<String>) -> (r: CheckStatus)
    ensures
        r@ == success_spec(code, match reason {
            Some(text) => Some(text@),
            None => None,
        }),
{
    match reason {
        Some(text) => CheckStatus::Success { code, reason: text },
        None => CheckStatus::Success { code, reason: String::from_str("Unknown") },
    }
}

/// The status of a probe that got a response with `code`, named by the
/// standard reason phrase of the code.
pub fn status_for_code(code: u16) -> (r: CheckStatus)
    ensures
        r@ == success_spec(code, reason_phrase(code)),
{
    let reason = canonical_reason(code);
    success_status(code, reason)
}

/// What the network layer reports of one probe.
#[derive(Debug, Clone, Copy, PartialEq, Eq, Structural)]
pub enum ProbeReply {
    /// A response arrived with this status code.
    Response { code: u16 },
    /// The request failed; the flags say whether its deadline passed and
    /// whether the connection could not be made.
    Failure { timed_out: bool, connect_failed: bool },
}

/// The status that a reply stands for.
pub open spec fn reply_status(reply: ProbeReply) -> StatusView {
    match reply {
        ProbeReply::Response { code } => success_spec(code, reason_phrase(code)),
        ProbeReply::Failure { timed_out, connect_failed } => StatusView::Error {
            kind: error_kind_spec(timed_out, connect_failed),
        },
    }
}

/// The outcome of a probe of the endpoint `name` that got `reply` after
/// `latency_ms` milliseconds.
pub fn outcome(name: &String, reply: ProbeReply, latency_ms: u64) -> (r: CheckResult)
    ensures
        r.name@ == name@,
        r.status@ == reply_status(reply),
        r.latency_ms == latency_ms,
{
    let status = match reply {
        ProbeReply::Response { code } => status_for_code(code),
        ProbeReply::Failure { timed_out, connect_failed } => CheckStatus::Error {
            kind: error_kind(timed_out, connect_failed),
        },
    };
    CheckResult { name: name.clone(), status, latency_ms }
}


/// Milliseconds between the discarded warm-up probe and the first real one.
pub const SETTLE_DELAY_MS: u64 = 50;

/// Capacity of the queue that carries outcomes from the probers to the
/// event loop; a prober whose delivery finds it full waits for room.
pub const RESULT_BUFFER_SIZE: usize = 100;

/// Where a prober stands: what it has asked for and waits to hear about.
#[derive(Debug, Clone, Copy, PartialEq, Eq, Structural)]
pub enum ProberPhase {
    /// Created; nothing asked yet.
    Idle,
    /// The throw-away warm-up probe is running.
    WarmingUp,
    /// The short settle delay after the warm-up is running.
    Settling,
    /// A real probe is running.
    Probing,
    /// An outcome is being handed to the event loop.
    Delivering,
    /// The interval before the next probe is running.
    Waiting,
    /// Delivery failed: the prober has stopped for good.
    Done,
}

/// What the driver of a prober reports back.
#[derive(Debug)]
pub enum ProberEvent {
    /// The driver is ready to run the prober.
    Started,
    /// The probe that was asked for finished with this outcome.
    ProbeFinished(CheckResult),
    /// The delay that was asked for has passed.
    Slept,
    /// The outcome was accepted by the event loop.
    Delivered,
    /// The event loop is gone: the outcome could not be handed over.
    DeliveryFailed,
}

/// What a prober asks its driver to do next.
#[derive(Debug)]
pub enum ProberAction {
    /// Run one probe of the endpoint, with this deadline in seconds.
    Probe { timeout_secs: u64 },
    /// Sleep this many milliseconds (the settle delay).
    Settle { millis: u64 },
    /// Sleep this many seconds (the interval between probes).
    Wait { secs: u64 },
    /// Hand this outcome to the event loop.
    Deliver(CheckResult),
    /// Stop: nothing more will be asked.
    Stop,
}

/// The schedule of one endpoint's probes: a warm-up probe whose outcome is
/// dropped, a short settle delay, then probe, deliver and wait the interval,
/// over and over, until a delivery fails.
pub struct Prober {
    /// Seconds between the end of one delivery and the next probe.
    pub interval_secs: u64,
    /// Deadline of each probe, in seconds.
    pub timeout_secs: u64,
    /// What the prober waits to hear about.
    pub phase: ProberPhase,
}

/// Whether a prober in `phase` expects `event`.
pub open spec fn accepts_spec(phase: ProberPhase, event: ProberEvent) -> bool {
    match phase {
        ProberPhase::Idle => event is Started,
        ProberPhase::WarmingUp => event is ProbeFinished,
        ProberPhase::Settling => event is Slept,
        ProberPhase::Probing => event is ProbeFinished,
        ProberPhase::Delivering => event is Delivered || event is DeliveryFailed,
        ProberPhase::Waiting => event is Slept,
        ProberPhase::Done => true,
    }
}

/// The phase a prober moves to on `event`, and what it asks for then.
pub open spec fn prober_next(
    interval_secs: u64,
    timeout_secs: u64,
    phase: ProberPhase,
    event: ProberEvent,
) -> (ProberPhase, ProberAction) {
    match (phase, event) {
        (ProberPhase::Idle, ProberEvent::Started) => (
            ProberPhase::WarmingUp,
            ProberAction::Probe { timeout_secs },
        ),
        (ProberPhase::WarmingUp, ProberEvent::ProbeFinished(_)) => (
            ProberPhase::Settling,
            ProberAction::Settle { millis: SETTLE_DELAY_MS },
        ),
        (ProberPhase::Settling, ProberEvent::Slept) => (
            ProberPhase::Probing,
            ProberAction::Probe { timeout_secs },
        ),
        (ProberPhase::Probing, ProberEvent::ProbeFinished(result)) => (
            ProberPhase::Delivering,
            ProberAction::Deliver(result),
        ),
        (ProberPhase::Delivering, ProberEvent::Delivered) => (
            ProberPhase::Waiting,
            ProberAction::Wait { secs: interval_secs },
        ),
        (ProberPhase::Waiting, ProberEvent::Slept) => (
            ProberPhase::Probing,
            ProberAction::Probe { timeout_secs },
        ),
        _ => (ProberPhase::Done, ProberAction::Stop),
    }
}

impl Prober {
    /// A prober for `endpoint`, with the endpoint's own interval and timeout
    /// where it sets them and the given defaults otherwise.
    pub fn new(endpoint: &Endpoint, default_interval: u64, default_timeout: u64) -> (r: Prober)
        ensures
            r.interval_secs == match endpoint.interval {
                Some(secs) => secs,
                None => default_interval,
            },
            r.timeout_secs == match endpoint.timeout {
                Some(secs) => secs,
                None => default_timeout,
            },
            r.phase == ProberPhase::Idle,
    {
        Prober {
            interval_secs: endpoint.effective_interval(default_interval),
            timeout_secs: endpoint.effective_timeout(default_timeout),
            phase: ProberPhase::Idle,
        }
    }

    /// Whether this prober expects `event` now.
    pub fn accepts(&self, event: &ProberEvent) -> (r: bool)
        ensures
            r == accepts_spec(self.phase, *event),
    {
        match self.phase {
            ProberPhase::Idle => matches!(event, ProberEvent::Started),
            ProberPhase::WarmingUp => matches!(event, ProberEvent::ProbeFinished(_)),
            ProberPhase::Settling => matches!(event, ProberEvent::Slept),
            ProberPhase::Probing => matches!(event, ProberEvent::ProbeFinished(_)),
            ProberPhase::Delivering => matches!(event, ProberEvent::Delivered)
                || matches!(event, ProberEvent::DeliveryFailed),
            ProberPhase::Waiting => matches!(event, ProberEvent::Slept),
            ProberPhase::Done => true,
        }
    }

    /// Takes in what the driver reports and says what to do next.
    pub fn step(&mut self, event: ProberEvent) -> (r: ProberAction)
        requires
            accepts_spec(old(self).phase, event),
        ensures
            (final(self).phase, r) == prober_next(
                old(self).interval_secs,
                old(self).timeout_secs,
                old(self).phase,
                event,
            ),
            final(self).interval_secs == old(self).interval_secs,
            final(self).timeout_secs == old(self).timeout_secs,
    {
        let (phase, action) = match (self.phase, event) {
            (ProberPhase::Idle, ProberEvent::Started) => (
                ProberPhase::WarmingUp,
                ProberAction::Probe { timeout_secs: self.timeout_secs },
            ),
            (ProberPhase::WarmingUp, ProberEvent::ProbeFinished(_)) => (
                ProberPhase::Settling,
                ProberAction::Settle { millis: SETTLE_DELAY_MS },
            ),
            (ProberPhase::Settling, ProberEvent::Slept) => (
                ProberPhase::Probing,
                ProberAction::Probe { timeout_secs: self.timeout_secs },
            ),
            (ProberPhase::Probing, ProberEvent::ProbeFinished(result)) => (
                ProberPhase::Delivering,
                ProberAction::Deliver(result),
            ),
            (ProberPhase::Delivering, ProberEvent::Delivered) => (
                ProberPhase::Waiting,
                ProberAction::Wait { secs: self.interval_secs },
            ),
            (ProberPhase::Waiting, ProberEvent::Slept) => (
                ProberPhase::Probing,
                ProberAction::Probe { timeout_secs: self.timeout_secs },
            ),
            _ => (ProberPhase::Done, ProberAction::Stop),
        };
        self.phase = phase;
        action
    }
}

} // verus!
