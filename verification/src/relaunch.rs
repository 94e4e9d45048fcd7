//! The decisions of one relaunch attempt.
//!
//! A relaunch resolves the running process's own executable path and then
//! asks the operating system for a fresh, detached instance of that binary.
//! Only the path lookup can fail visibly: a refused spawn is swallowed by
//! design, so the caller-visible result is a function of the lookup alone.

use vstd::prelude::*;

verus! {

/// The one error a relaunch attempt surfaces: the operating system could
/// not report the running process's own executable path. A failed spawn is
/// never surfaced.
#[derive(Clone, Copy, Debug, PartialEq, Eq, Structural)]
pub enum RelaunchError {
    ExecutablePathUnavailable,
}

/// What the operating system answered to a fire-and-forget spawn request:
/// it accepted the request, or it refused it (binary missing, permission
/// denied, resource exhaustion).
#[derive(Clone, Copy, Debug, PartialEq, Eq, Structural)]
pub enum SpawnOutcome {
    Accepted,
    Refused,
}

/// The phases of one relaunch attempt.
#[derive(Clone, Copy, Debug, PartialEq, Eq, Structural)]
pub enum Phase {
    /// No attempt under way.
    Idle,
    /// The own-path lookup answered with a path.
    PathResolved,
    /// The own-path lookup failed; the attempt is over.
    PathResolutionFailed,
    /// The spawn request was issued; its outcome is not tracked.
    SpawnAttempted,
}

/// The events that drive one relaunch attempt.
#[derive(Clone, Copy, Debug, PartialEq, Eq, Structural)]
pub enum Event {
    /// The own-path lookup answered: `found` says whether it gave a path.
    PathLookup { found: bool },
    /// The spawn request was handed to the operating system.
    SpawnIssued,
    /// The operation returned to its caller.
    Returned,
}

/// The caller-visible result of a relaunch attempt whose path lookup
/// answered `path_found`, and whose spawn request (made only when the path
/// was found) came to `spawn`. The spawn outcome never shows in the
/// result: restart is best-effort, and a refused spawn is swallowed.
pub open spec fn relaunch_result_spec(path_found: bool, spawn: SpawnOutcome) -> Result<(), RelaunchError> {
    if path_found {
        Ok(())
    } else {
        Err(RelaunchError::ExecutablePathUnavailable)
    }
}

/// One transition of the relaunch state machine. Any pairing of phase and
/// event not listed stutters: the attempt has no retries and no backoff.
pub open spec fn step_spec(phase: Phase, event: Event) -> Phase {
    match phase {
        Phase::Idle => match event {
            Event::PathLookup { found } => {
                if found {
                    Phase::PathResolved
                } else {
                    Phase::PathResolutionFailed
                }
            }
            _ => phase,
        },
        Phase::PathResolved => match event {
            Event::SpawnIssued => Phase::SpawnAttempted,
            _ => phase,
        },
        Phase::SpawnAttempted => match event {
            Event::Returned => Phase::Idle,
            _ => phase,
        },
        Phase::PathResolutionFailed => match event {
            Event::Returned => Phase::Idle,
            _ => phase,
        },
    }
}

/// The phase reached from `Phase::Idle` after the events of `events`, in
/// order.
pub open spec fn run_spec(events: Seq<Event>) -> Phase
    decreases events.len(),
{
    if events.len() == 0 {
        Phase::Idle
    } else {
        step_spec(run_spec(events.drop_last()), events.last())
    }
}

/// Whether `event` is a path lookup that answered with a path.
pub open spec fn is_successful_lookup(event: Event) -> bool {
    event matches Event::PathLookup { found } && found
}

/// Decide the first step of a relaunch: turn the operating system's answer
/// to the own-path lookup into either the path to spawn from or the fatal
/// error. A resolved path passes through unchanged; a failed lookup ends
/// the attempt, and no spawn is to be made.
pub fn plan_relaunch(lookup: Option<String>) -> (r: Result<String, RelaunchError>)
    ensures
        r is Ok <==> lookup is Some,
        lookup matches Some(p) ==> r matches Ok(q) && q@ == p@,
        lookup is None ==> r == Result::<String, RelaunchError>::Err(RelaunchError::ExecutablePathUnavailable),
{
    match lookup {
        Some(path) => Ok(path),
        None => Err(RelaunchError::ExecutablePathUnavailable),
    }
}

/// Settle a relaunch attempt whose path was resolved and whose spawn
/// request has returned: whatever the operating system answered, the
/// caller sees success. This is the swallowed-spawn-failure policy.
pub fn settle_spawn(spawn: SpawnOutcome) -> (r: Result<(), RelaunchError>)
    ensures
        r == relaunch_result_spec(true, spawn),
        r is Ok,
{
    match spawn {
        SpawnOutcome::Accepted => Ok(()),
        SpawnOutcome::Refused => Ok(()),
    }
}

/// The complete caller-visible outcome of one relaunch attempt: an error
/// exactly when the own-path lookup failed, and success otherwise, whatever
/// the spawn request came to.
pub fn relaunch_outcome(path_found: bool, spawn: SpawnOutcome) -> (r: Result<(), RelaunchError>)
    ensures
        r == relaunch_result_spec(path_found, spawn),
        r is Ok <==> path_found,
        !path_found ==> r == Result::<(), RelaunchError>::Err(RelaunchError::ExecutablePathUnavailable),
{
    if path_found {
        settle_spawn(spawn)
    } else {
        Err(RelaunchError::ExecutablePathUnavailable)
    }
}

/// One transition of the relaunch state machine.
pub fn step(phase: Phase, event: Event) -> (next: Phase)
    ensures
        next == step_spec(phase, event),
{
    match phase {
        Phase::Idle => match event {
            Event::PathLookup { found } => {
                if found {
                    Phase::PathResolved
                } else {
                    Phase::PathResolutionFailed
                }
            }
            _ => phase,
        },
        Phase::PathResolved => match event {
            Event::SpawnIssued => Phase::SpawnAttempted,
            _ => phase,
        },
        Phase::SpawnAttempted => match event {
            Event::Returned => Phase::Idle,
            _ => phase,
        },
        Phase::PathResolutionFailed => match event {
            Event::Returned => Phase::Idle,
            _ => phase,
        },
    }
}

/// Law: the spawn phase is entered only from a phase in which the
/// executable path was resolved, and only by issuing the spawn. No event
/// moves any other phase — in particular not `Phase::PathResolutionFailed`
/// — into `Phase::SpawnAttempted`.
pub proof fn lemma_spawn_needs_resolution(phase: Phase, event: Event)
    requires
        phase != Phase::SpawnAttempted,
    ensures
        step_spec(phase, event) == Phase::SpawnAttempted
            ==> phase == Phase::PathResolved && event == Event::SpawnIssued,
{
}

/// Law: in a run that begins idle and in which no path lookup answered
/// with a path, no phase is ever reached in which a spawn is attempted.
pub proof fn lemma_no_spawn_after_failed_lookup(events: Seq<Event>)
    requires
        forall|i: int| 0 <= i < events.len() ==> !is_successful_lookup(#[trigger] events[i]),
    ensures
        run_spec(events) != Phase::SpawnAttempted,
        run_spec(events) != Phase::PathResolved,
    decreases events.len(),
{
    if events.len() > 0 {
        lemma_no_spawn_after_failed_lookup(events.drop_last());
    }
}

/// Law: the caller-visible result of a relaunch attempt does not depend on
/// what the spawn request came to; only the path lookup decides it.
pub proof fn lemma_spawn_outcome_swallowed(path_found: bool, a: SpawnOutcome, b: SpawnOutcome)
    ensures
        relaunch_result_spec(path_found, a) == relaunch_result_spec(path_found, b),
{
}

} // verus!
