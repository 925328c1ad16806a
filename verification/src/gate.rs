//! The decisions the noise gate takes on each sample.
use vstd::prelude::*;

verus! {

/// What the noise gate moves towards on a sample: fully open or fully closed.
#[derive(Clone, Copy, Debug, PartialEq, Eq, Structural)]
pub enum GateTarget {
    Open,
    Closed,
}

/// Which time constant moves the noise gate: the attack while it opens, the release otherwise.
#[derive(Clone, Copy, Debug, PartialEq, Eq, Structural)]
pub enum GatePole {
    Attack,
    Release,
}

/// The noise gate opens when the running RMS level is at or above the threshold.
pub fn gate_target(rms_at_or_above_threshold: bool) -> (t: GateTarget)
    ensures
        t == (if rms_at_or_above_threshold { GateTarget::Open } else { GateTarget::Closed }),
{
    if rms_at_or_above_threshold {
        GateTarget::Open
    } else {
        GateTarget::Closed
    }
}

/// The noise gate follows its target with the attack pole when the target lies above
/// the current openness (the open target being 1, the closed one 0), and with
/// the release pole otherwise. The caller compares the openness with 1 and with 0.
pub fn gate_pole(target: GateTarget, openness_below_one: bool, openness_below_zero: bool) -> (p: GatePole)
    ensures
        p == GatePole::Attack <==> (match target {
            GateTarget::Open => openness_below_one,
            GateTarget::Closed => openness_below_zero,
        }),
{
    let rising = match target {
        GateTarget::Open => openness_below_one,
        GateTarget::Closed => openness_below_zero,
    };
    if rising {
        GatePole::Attack
    } else {
        GatePole::Release
    }
}

} // verus!
