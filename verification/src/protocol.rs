//! The two-call native detection protocol as a state machine.
//!
//! Identification runs `Start -> RawAcquired -> Identified -> Converted`,
//! stepping on the status each native call returns: zero advances, any
//! other status exits to a terminal failure state. A failure is not
//! transient by contract, so no state leaves it: once raw acquisition
//! has failed, the identification call is never reached.

use vstd::prelude::*;

verus! {

/// Where one identification run stands: the two middle states follow a
/// successful native call each, the two failure states are terminal
/// exits, and `Converted` is the successful end.
#[derive(Clone, Copy, Debug, PartialEq, Eq, Structural)]
pub enum IdentifyPhase {
    /// No native call made yet.
    Start,
    /// Raw acquisition returned status zero.
    RawAcquired,
    /// Identification returned status zero.
    Identified,
    /// The identification record was converted into a `CpuInfo`.
    Converted,
    /// Raw acquisition returned a non-zero status; terminal.
    RawAcqFailed,
    /// Identification returned a non-zero status; terminal.
    IdentifyFailed,
}

impl IdentifyPhase {
    /// The run ended in a native failure and must surface the native
    /// error text.
    pub open spec fn spec_is_failure(self) -> bool {
        self == IdentifyPhase::RawAcqFailed || self == IdentifyPhase::IdentifyFailed
    }

    /// No status can move the run out of this phase.
    pub open spec fn spec_is_terminal(self) -> bool {
        self.spec_is_failure() || self == IdentifyPhase::Converted
    }

    /// Whether the run ended in a native failure.
    pub fn is_failure(&self) -> (r: bool)
        ensures
            r == self.spec_is_failure(),
    {
        matches!(*self, IdentifyPhase::RawAcqFailed | IdentifyPhase::IdentifyFailed)
    }
}

/// One step of the protocol on the status a native call returned: from
/// `Start` the status decides between `RawAcquired` and `RawAcqFailed`,
/// from `RawAcquired` between `Identified` and `IdentifyFailed`; every
/// other phase absorbs the step.
pub open spec fn spec_step_on_status(phase: IdentifyPhase, status: i32) -> IdentifyPhase {
    match phase {
        IdentifyPhase::Start => if status == 0 {
            IdentifyPhase::RawAcquired
        } else {
            IdentifyPhase::RawAcqFailed
        },
        IdentifyPhase::RawAcquired => if status == 0 {
            IdentifyPhase::Identified
        } else {
            IdentifyPhase::IdentifyFailed
        },
        _ => phase,
    }
}

/// Steps the protocol on the status a native call returned.
pub fn step_on_status(phase: IdentifyPhase, status: i32) -> (next: IdentifyPhase)
    ensures
        next == spec_step_on_status(phase, status),
{
    match phase {
        IdentifyPhase::Start => if status == 0 {
            IdentifyPhase::RawAcquired
        } else {
            IdentifyPhase::RawAcqFailed
        },
        IdentifyPhase::RawAcquired => if status == 0 {
            IdentifyPhase::Identified
        } else {
            IdentifyPhase::IdentifyFailed
        },
        _ => phase,
    }
}

/// Whether the presence check's native status reports that the CPUID
/// instruction exists: the native call answers 1 for present.
pub fn presence_from_status(status: i32) -> (r: bool)
    ensures
        r == (status == 1),
{
    status == 1
}

/// A non-zero raw-acquisition status ends the run at once: the phase is
/// a terminal failure, and no later status — in particular no
/// identification outcome — moves the run anywhere else.
pub proof fn lemma_failed_acquisition_halts(status: i32, later: i32)
    requires
        status != 0,
    ensures
        spec_step_on_status(IdentifyPhase::Start, status) == IdentifyPhase::RawAcqFailed,
        spec_step_on_status(IdentifyPhase::Start, status).spec_is_failure(),
        spec_step_on_status(spec_step_on_status(IdentifyPhase::Start, status), later)
            == IdentifyPhase::RawAcqFailed,
{
}

/// A terminal phase absorbs every step: the protocol never retries and
/// never leaves a failure or the converted end.
pub proof fn lemma_terminal_phases_absorb(phase: IdentifyPhase, status: i32)
    requires
        phase.spec_is_terminal(),
    ensures
        spec_step_on_status(phase, status) == phase,
{
}

/// Two successful native calls in order walk the run from `Start`
/// through `RawAcquired` to `Identified`, where conversion takes over.
pub proof fn lemma_successful_run_reaches_identified(first: i32, second: i32)
    requires
        first == 0,
        second == 0,
    ensures
        spec_step_on_status(IdentifyPhase::Start, first) == IdentifyPhase::RawAcquired,
        spec_step_on_status(spec_step_on_status(IdentifyPhase::Start, first), second)
            == IdentifyPhase::Identified,
{
}

} // verus!
