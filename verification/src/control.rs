//! Control decisions of the reporting loop and of startup configuration.
//!
//! The loop has two phases: idle, waiting for the interval timer, and
//! reporting, running one list-sample-compute-deliver cycle. Every cycle
//! outcome returns the loop to idle; the directive that accompanies the
//! transition implements the agent's fail-fast policy: a failed cycle stops
//! the whole agent, a delivered report schedules the next timer. The caller
//! performs the waiting, the I/O and the stopping; the decisions are made
//! here.

use vstd::prelude::*;

verus! {

/// Why a reporting cycle failed.
#[derive(Debug, PartialEq, Eq, Structural, Clone, Copy)]
pub enum CycleError {
    /// The runtime was unreachable or answered with malformed data.
    Transport,
    /// The assembled report could not be encoded.
    Serialization,
    /// The collector was unreachable or rejected the report.
    Delivery,
}

/// Why the agent could not start.
#[derive(Debug, PartialEq, Eq, Structural, Clone, Copy)]
pub enum ConfigError {
    /// The required destination value of the collector is missing.
    MissingDestination,
}

/// The two phases of the reporting loop.
#[derive(Debug, PartialEq, Eq, Structural, Clone, Copy)]
pub enum LoopPhase {
    /// Waiting for the interval timer.
    Idle,
    /// Running one reporting cycle.
    Reporting,
}

/// What the loop's caller is to do next.
#[derive(Debug, PartialEq, Eq, Structural, Clone, Copy)]
pub enum LoopDirective {
    /// Sleep this many seconds, then fire the timer again.
    Sleep { seconds: u64 },
    /// Stop the agent: the failed cycle is fatal.
    Stop,
}

/// The reporting loop's own state: its phase and its fixed interval. The
/// interval separates the *end* of one cycle from the start of the next; it
/// is not a fixed wall-clock grid.
pub struct ReportLoop {
    /// The current phase.
    pub phase: LoopPhase,
    /// Seconds between the end of one cycle and the start of the next.
    pub interval_seconds: u64,
}

impl ReportLoop {
    /// A fresh loop, idle, with the given interval.
    pub fn new(interval_seconds: u64) -> (r: ReportLoop)
        ensures
            r.phase == LoopPhase::Idle,
            r.interval_seconds == interval_seconds,
    {
        ReportLoop { phase: LoopPhase::Idle, interval_seconds }
    }

    /// The timer fired: leave idle and run one reporting cycle.
    pub fn timer_fired(&mut self)
        requires
            old(self).phase == LoopPhase::Idle,
        ensures
            final(self).phase == LoopPhase::Reporting,
            final(self).interval_seconds == old(self).interval_seconds,
    {
        self.phase = LoopPhase::Reporting;
    }

    /// The running cycle ended: return to idle unconditionally, and decide
    /// what the caller does next. A delivered report schedules the next
    /// timer after the fixed interval; any failure stops the agent (the
    /// fail-fast policy: no partial report, no retry, no next cycle).
    pub fn cycle_ended(&mut self, outcome: &Result<(), CycleError>) -> (d: LoopDirective)
        requires
            old(self).phase == LoopPhase::Reporting,
        ensures
            final(self).phase == LoopPhase::Idle,
            final(self).interval_seconds == old(self).interval_seconds,
            outcome is Ok ==> d == (LoopDirective::Sleep {
                seconds: old(self).interval_seconds,
            }),
            outcome is Err ==> d == LoopDirective::Stop,
    {
        self.phase = LoopPhase::Idle;
        match outcome {
            Ok(_) => LoopDirective::Sleep { seconds: self.interval_seconds },
            Err(_) => LoopDirective::Stop,
        }
    }
}

/// Checks the configured destination of the report at startup: a present
/// value is accepted as it is, an absent one is the fatal configuration
/// error — the agent has no default destination and must not issue a single
/// runtime query without one.
pub fn require_destination(value: Option<String>) -> (r: Result<String, ConfigError>)
    ensures
        r is Ok <==> value is Some,
        r matches Ok(d) ==> value matches Some(v) && d == v,
        r matches Err(e) ==> e == ConfigError::MissingDestination,
{
    match value {
        Some(v) => Ok(v),
        None => Err(ConfigError::MissingDestination),
    }
}

} // verus!
