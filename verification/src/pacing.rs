//! Frame pacing decisions.
//!
//! When frame-rate limiting is on, the loop waits until a target
//! inter-frame interval has elapsed since the previous frame: a coarse
//! sleep covers the bulk of the wait, and the final millisecond is spun
//! to minimize oversleep.  The decision is computed here from elapsed
//! time in nanoseconds; the host performs the sleep or spin and asks
//! again.

use vstd::prelude::*;

verus! {

/// One millisecond, in nanoseconds: the boundary between sleeping and
/// spinning.
pub const COARSE_SLEEP_MARGIN_NANOS: u64 = 1_000_000;

/// The PlayStation's field rate, in millihertz.
pub const PS1_FIELD_RATE_MILLIHZ: u64 = 59_500;

#[derive(Clone, Copy, Debug, PartialEq, Eq, Structural)]
pub enum PaceAction {
    /// The interval has elapsed (or limiting is off): start the frame.
    Proceed,
    /// Sleep this many nanoseconds, then ask again.
    SleepCoarse { nanos: u64 },
    /// Less than the margin remains: spin once, then ask again.
    SpinBriefly,
}

/// The inter-frame interval for a console field rate given in millihertz.
pub fn frame_interval_nanos(field_rate_millihz: u64) -> (r: u64)
    requires
        field_rate_millihz >= 1,
    ensures
        r == 1_000_000_000_000u64 / field_rate_millihz,
{
    1_000_000_000_000u64 / field_rate_millihz
}

/// What the pacing wait does next, given the time elapsed since the last
/// frame.  A coarse sleep always stops one margin short of the target,
/// so the loop never oversleeps past it by design.
pub open spec fn spec_pace(limit: bool, elapsed: u64, interval: u64) -> PaceAction {
    if !limit || elapsed >= interval {
        PaceAction::Proceed
    } else if interval - elapsed > COARSE_SLEEP_MARGIN_NANOS {
        PaceAction::SleepCoarse { nanos: (interval - elapsed - COARSE_SLEEP_MARGIN_NANOS) as u64 }
    } else {
        PaceAction::SpinBriefly
    }
}

pub fn pace_action(limit: bool, elapsed_nanos: u64, interval_nanos: u64) -> (r: PaceAction)
    ensures
        r == spec_pace(limit, elapsed_nanos, interval_nanos),
        r matches PaceAction::SleepCoarse { nanos } ==> nanos < interval_nanos - elapsed_nanos,
{
    if !limit || elapsed_nanos >= interval_nanos {
        PaceAction::Proceed
    } else if interval_nanos - elapsed_nanos > COARSE_SLEEP_MARGIN_NANOS {
        PaceAction::SleepCoarse { nanos: interval_nanos - elapsed_nanos - COARSE_SLEEP_MARGIN_NANOS }
    } else {
        PaceAction::SpinBriefly
    }
}

} // verus!
