//! The premium solver's control machine.
//!
//! The solver inverts the projection: it searches for the level annual
//! premium that drives the terminal account value to zero at maturity, by
//! bracketing (double the upper guess until the terminal value turns
//! positive), bisection (halve the bracket until it is narrower than the
//! tolerance), and finalization (round the midpoint to whole cents, and add
//! one cent if rounding undershot). The comparisons and premium updates are
//! floating-point work, so the machine is split from them: this module owns
//! every decision — which probe comes next, when each phase ends, and the
//! iteration caps that turn a non-converging search into an explicit error —
//! while the driver merely performs the requested projection or measurement
//! and reports what it saw.

use vstd::prelude::*;

verus! {

/// Most widenings the bracketing phase may perform before the solver gives
/// up. Doubling the upper guess this often overshoots any premium a rate
/// table can call for.
pub const BRACKET_CAP: u64 = 128;

/// Most probes the bisection phase may perform before the solver gives up.
/// The bracket halves at every probe, so this is reached only when the
/// terminal value is not monotone in the premium.
pub const BISECT_CAP: u64 = 4096;

/// The solver's phase: what it asked the driver to do and awaits.
#[derive(Clone, Copy, Debug, PartialEq, Eq, Structural)]
pub enum SolverPhase {
    /// Awaiting the terminal value's sign at the upper bracket premium,
    /// after `iterations` widenings.
    Bracketing { iterations: u64 },
    /// Awaiting the width of the bracket, after `iterations` probes.
    Narrowing { iterations: u64 },
    /// Awaiting the terminal value's sign at the bracket midpoint.
    Probing { iterations: u64 },
    /// Awaiting the terminal value's sign at the midpoint rounded to cents.
    Rounding,
    /// Awaiting the projection at one cent above the rounded midpoint.
    Bumping,
    /// The search ended; the latest illustration is the answer.
    Finished,
    /// The search exceeded an iteration cap without converging.
    Aborted,
}

/// What the driver must do next. The driver keeps three premiums: the lower
/// and upper bracket bounds and the current midpoint.
#[derive(Clone, Copy, Debug, PartialEq, Eq, Structural)]
pub enum SolverAction {
    /// Project at the upper bound and report the terminal value's sign.
    ProjectAtUpper,
    /// Move the lower bound up to the upper, double the upper, project
    /// there, and report the terminal value's sign.
    WidenAndProjectAtUpper,
    /// Report whether the bracket is still wider than the tolerance.
    MeasureGap,
    /// Move the lower bound up to the midpoint, then report the gap.
    RaiseLowerAndMeasureGap,
    /// Move the upper bound down to the midpoint, then report the gap.
    LowerUpperAndMeasureGap,
    /// Set the midpoint to the middle of the bracket, project there, and
    /// report the terminal value's sign.
    ProjectAtMidpoint,
    /// Round the midpoint to the nearest cent, project there, and report
    /// the terminal value's sign.
    RoundAndProject,
    /// Raise the rounded midpoint by one cent, project there, and report
    /// the terminal value's sign.
    BumpCentAndProject,
    /// Deliver the most recent illustration as the answer.
    Deliver,
    /// Fail with the no-convergence error.
    Abort,
}

/// What the driver observed.
#[derive(Clone, Copy, Debug, PartialEq, Eq, Structural)]
pub enum SolverEvent {
    /// A projection finished; `nonpositive` says whether its terminal value
    /// was less than or equal to zero.
    Terminal { nonpositive: bool },
    /// The bracket was measured; `above_tolerance` says whether its width
    /// still exceeds the tolerance.
    Gap { above_tolerance: bool },
}

/// Whether the machine has halted.
pub open spec fn solver_halted(phase: SolverPhase) -> bool {
    phase is Finished || phase is Aborted
}

/// The iteration counters never pass their caps.
pub open spec fn phase_wf(phase: SolverPhase) -> bool {
    match phase {
        SolverPhase::Bracketing { iterations } => iterations <= BRACKET_CAP,
        SolverPhase::Narrowing { iterations } => iterations <= BISECT_CAP,
        SolverPhase::Probing { iterations } => iterations < BISECT_CAP,
        _ => true,
    }
}

/// The machine's transition relation, as a function: the next phase, and the
/// action the driver must perform. An event that does not answer the pending
/// question aborts the search.
pub open spec fn spec_solve_step(phase: SolverPhase, event: SolverEvent) -> (SolverPhase,
    SolverAction) {
    match (phase, event) {
        (SolverPhase::Bracketing { iterations }, SolverEvent::Terminal { nonpositive }) => {
            if !nonpositive {
                (SolverPhase::Narrowing { iterations: 0 }, SolverAction::MeasureGap)
            } else if iterations < BRACKET_CAP {
                (
                    SolverPhase::Bracketing { iterations: (iterations + 1) as u64 },
                    SolverAction::WidenAndProjectAtUpper,
                )
            } else {
                (SolverPhase::Aborted, SolverAction::Abort)
            }
        },
        (SolverPhase::Narrowing { iterations }, SolverEvent::Gap { above_tolerance }) => {
            if !above_tolerance {
                (SolverPhase::Rounding, SolverAction::RoundAndProject)
            } else if iterations < BISECT_CAP {
                (SolverPhase::Probing { iterations }, SolverAction::ProjectAtMidpoint)
            } else {
                (SolverPhase::Aborted, SolverAction::Abort)
            }
        },
        (SolverPhase::Probing { iterations }, SolverEvent::Terminal { nonpositive }) => {
            if nonpositive {
                (
                    SolverPhase::Narrowing { iterations: (iterations + 1) as u64 },
                    SolverAction::RaiseLowerAndMeasureGap,
                )
            } else {
                (
                    SolverPhase::Narrowing { iterations: (iterations + 1) as u64 },
                    SolverAction::LowerUpperAndMeasureGap,
                )
            }
        },
        (SolverPhase::Rounding, SolverEvent::Terminal { nonpositive }) => {
            if nonpositive {
                (SolverPhase::Bumping, SolverAction::BumpCentAndProject)
            } else {
                (SolverPhase::Finished, SolverAction::Deliver)
            }
        },
        (SolverPhase::Bumping, SolverEvent::Terminal { nonpositive: _ }) => {
            (SolverPhase::Finished, SolverAction::Deliver)
        },
        (SolverPhase::Finished, _) => (SolverPhase::Finished, SolverAction::Deliver),
        (SolverPhase::Aborted, _) => (SolverPhase::Aborted, SolverAction::Abort),
        (_, _) => (SolverPhase::Aborted, SolverAction::Abort),
    }
}

/// An upper bound on how many further steps the machine can take.
pub open spec fn phase_measure(phase: SolverPhase) -> int {
    match phase {
        SolverPhase::Bracketing { iterations } => capped_sub(BRACKET_CAP, iterations) + 2
            * BISECT_CAP + 4,
        SolverPhase::Narrowing { iterations } => 2 * capped_sub(BISECT_CAP, iterations) + 3,
        SolverPhase::Probing { iterations } => 2 * capped_sub(BISECT_CAP, iterations) + 2,
        SolverPhase::Rounding => 2,
        SolverPhase::Bumping => 1,
        SolverPhase::Finished => 0,
        SolverPhase::Aborted => 0,
    }
}

/// `cap - n`, floored at zero.
pub open spec fn capped_sub(cap: u64, n: u64) -> int {
    if n <= cap {
        cap - n
    } else {
        0
    }
}

/// The solver's starting point: no widenings yet, and the first probe is a
/// projection at the initial upper bound.
pub fn solver_start() -> (r: (SolverPhase, SolverAction))
    ensures
        r.0 == (SolverPhase::Bracketing { iterations: 0u64 }),
        r.1 == SolverAction::ProjectAtUpper,
        phase_wf(r.0),
{
    (SolverPhase::Bracketing { iterations: 0 }, SolverAction::ProjectAtUpper)
}

/// Performs one step of the solver: consumes the driver's observation and
/// returns the next phase with the next action.
pub fn solve_step(phase: SolverPhase, event: SolverEvent) -> (r: (SolverPhase, SolverAction))
    requires
        phase_wf(phase),
    ensures
        r == spec_solve_step(phase, event),
        phase_wf(r.0),
{
    match (phase, event) {
        (SolverPhase::Bracketing { iterations }, SolverEvent::Terminal { nonpositive }) => {
            if !nonpositive {
                (SolverPhase::Narrowing { iterations: 0 }, SolverAction::MeasureGap)
            } else if iterations < BRACKET_CAP {
                (
                    SolverPhase::Bracketing { iterations: iterations + 1 },
                    SolverAction::WidenAndProjectAtUpper,
                )
            } else {
                (SolverPhase::Aborted, SolverAction::Abort)
            }
        },
        (SolverPhase::Narrowing { iterations }, SolverEvent::Gap { above_tolerance }) => {
            if !above_tolerance {
                (SolverPhase::Rounding, SolverAction::RoundAndProject)
            } else if iterations < BISECT_CAP {
                (SolverPhase::Probing { iterations }, SolverAction::ProjectAtMidpoint)
            } else {
                (SolverPhase::Aborted, SolverAction::Abort)
            }
        },
        (SolverPhase::Probing { iterations }, SolverEvent::Terminal { nonpositive }) => {
            if nonpositive {
                (
                    SolverPhase::Narrowing { iterations: iterations + 1 },
                    SolverAction::RaiseLowerAndMeasureGap,
                )
            } else {
                (
                    SolverPhase::Narrowing { iterations: iterations + 1 },
                    SolverAction::LowerUpperAndMeasureGap,
                )
            }
        },
        (SolverPhase::Rounding, SolverEvent::Terminal { nonpositive }) => {
            if nonpositive {
                (SolverPhase::Bumping, SolverAction::BumpCentAndProject)
            } else {
                (SolverPhase::Finished, SolverAction::Deliver)
            }
        },
        (SolverPhase::Bumping, SolverEvent::Terminal { nonpositive: _ }) => {
            (SolverPhase::Finished, SolverAction::Deliver)
        },
        (SolverPhase::Finished, _) => (SolverPhase::Finished, SolverAction::Deliver),
        (_, _) => (SolverPhase::Aborted, SolverAction::Abort),
    }
}

/// The solver always halts: a step from a well-formed, unhalted phase
/// strictly decreases a non-negative measure, and a halted phase only
/// repeats itself, so any run takes at most `phase_measure` of its starting
/// phase further steps — the unbounded search loops of a naive bracketing
/// and bisection cannot occur.
pub proof fn lemma_solver_halts(phase: SolverPhase, event: SolverEvent)
    requires
        phase_wf(phase),
    ensures
        phase_wf(spec_solve_step(phase, event).0),
        phase_measure(phase) >= 0,
        !solver_halted(phase) ==> phase_measure(spec_solve_step(phase, event).0) < phase_measure(
            phase,
        ),
        solver_halted(phase) ==> spec_solve_step(phase, event).0 == phase,
{
}

/// The solver delivers an answer only after a projection at the rounded
/// premium came back with a positive terminal value, or — when that
/// projection came back non-positive — after the premium was bumped by one
/// cent and projected once more: the delivered illustration never ends
/// negative at a premium the search itself chose below the bracket.
pub proof fn lemma_delivery_needs_positive_or_bump(phase: SolverPhase, event: SolverEvent)
    ensures
        ({
            let (next, action) = spec_solve_step(phase, event);
            action == SolverAction::Deliver && !solver_halted(phase) ==> {
                ||| (phase == SolverPhase::Rounding && event == (SolverEvent::Terminal {
                    nonpositive: false,
                }))
                ||| phase == SolverPhase::Bumping
            }
        }),
{
}

} // verus!
