//! The poll loop's decision core: a state machine from phase and event to
//! the next phase and the action the driver must perform.
//!
//! The surrounding process performs the effects (fetching, writing gauges,
//! sleeping, racing the run timeout) and feeds the resulting events back
//! in; every transition is decided here.

use vstd::prelude::*;
use crate::region::Region;

verus! {

/// The phases of the poll loop.
#[derive(Clone, Copy, PartialEq, Eq, Structural, Debug)]
pub enum PollPhase {
    Idle,
    Fetching,
    Publishing,
    Sleeping,
    Stopped,
}

/// What the driver observed since the last step.
#[derive(Clone, Copy, PartialEq, Eq, Structural, Debug)]
pub enum PollEvent {
    Started,
    FetchSucceeded,
    FetchFailed,
    Published,
    SleepElapsed,
    TimeoutElapsed,
}

/// What the driver must do next.
#[derive(Clone, Copy, PartialEq, Eq, Structural, Debug)]
pub enum PollAction {
    BeginFetch,
    PublishSummary,
    RecordErrorAndSkip,
    BeginSleep,
    ShutDown,
    Ignore,
}

/// The transition table.  A fetch failure skips publishing for the cycle
/// and goes straight to sleeping; an elapsed run timeout stops the loop
/// from any phase; `Stopped` is terminal; an event that does not belong
/// to the current phase changes nothing.
pub open spec fn poll_step_spec(phase: PollPhase, event: PollEvent) -> (PollPhase, PollAction) {
    match (phase, event) {
        (PollPhase::Stopped, _) => (PollPhase::Stopped, PollAction::Ignore),
        (_, PollEvent::TimeoutElapsed) => (PollPhase::Stopped, PollAction::ShutDown),
        (PollPhase::Idle, PollEvent::Started) => (PollPhase::Fetching, PollAction::BeginFetch),
        (PollPhase::Fetching, PollEvent::FetchSucceeded) => (
            PollPhase::Publishing,
            PollAction::PublishSummary,
        ),
        (PollPhase::Fetching, PollEvent::FetchFailed) => (
            PollPhase::Sleeping,
            PollAction::RecordErrorAndSkip,
        ),
        (PollPhase::Publishing, PollEvent::Published) => (
            PollPhase::Sleeping,
            PollAction::BeginSleep,
        ),
        (PollPhase::Sleeping, PollEvent::SleepElapsed) => (
            PollPhase::Fetching,
            PollAction::BeginFetch,
        ),
        _ => (phase, PollAction::Ignore),
    }
}

/// Advances the poll loop by one observed event.
pub fn poll_step(phase: PollPhase, event: PollEvent) -> (r: (PollPhase, PollAction))
    ensures
        r == poll_step_spec(phase, event),
{
    match (phase, event) {
        (PollPhase::Stopped, _) => (PollPhase::Stopped, PollAction::Ignore),
        (_, PollEvent::TimeoutElapsed) => (PollPhase::Stopped, PollAction::ShutDown),
        (PollPhase::Idle, PollEvent::Started) => (PollPhase::Fetching, PollAction::BeginFetch),
        (PollPhase::Fetching, PollEvent::FetchSucceeded) => (
            PollPhase::Publishing,
            PollAction::PublishSummary,
        ),
        (PollPhase::Fetching, PollEvent::FetchFailed) => (
            PollPhase::Sleeping,
            PollAction::RecordErrorAndSkip,
        ),
        (PollPhase::Publishing, PollEvent::Published) => (
            PollPhase::Sleeping,
            PollAction::BeginSleep,
        ),
        (PollPhase::Sleeping, PollEvent::SleepElapsed) => (
            PollPhase::Fetching,
            PollAction::BeginFetch,
        ),
        _ => (phase, PollAction::Ignore),
    }
}

/// `Stopped` is terminal: no event leaves it, and nothing more is done.
pub proof fn lemma_stopped_is_terminal(event: PollEvent)
    ensures
        poll_step_spec(PollPhase::Stopped, event) == (PollPhase::Stopped, PollAction::Ignore),
{
}

/// An elapsed run timeout stops the loop from every phase but `Stopped`,
/// and asks the driver to shut down.
pub proof fn lemma_timeout_stops(phase: PollPhase)
    requires
        phase != PollPhase::Stopped,
    ensures
        poll_step_spec(phase, PollEvent::TimeoutElapsed) == (
            PollPhase::Stopped,
            PollAction::ShutDown,
        ),
{
}

/// The resolved configuration the poll loop runs with.
#[derive(PartialEq, Eq, Debug)]
pub struct Config {
    /// Seconds between one cycle's start and the next.
    pub interval_secs: u64,
    /// Total run time in seconds; zero means unbounded.
    pub timeout_secs: u64,
    /// The grid region carbon intensity is fetched for.
    pub region: Region,
    /// Electricity meter point and serial number.
    pub mpan: String,
    pub electricity_serial: String,
    /// Gas meter point and serial number.
    pub mprn: String,
    pub gas_serial: String,
}

impl Config {
    /// The optional run timeout: a zero setting means the loop never
    /// times out.
    pub fn run_timeout(&self) -> (r: Option<u64>)
        ensures
            r == (if self.timeout_secs == 0 {
                Option::<u64>::None
            } else {
                Some(self.timeout_secs)
            }),
    {
        if self.timeout_secs == 0 {
            None
        } else {
            Some(self.timeout_secs)
        }
    }
}

} // verus!
