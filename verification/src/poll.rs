//! The bounded-poll policy.
//!
//! Every busy wait in the driver (controller reset, command latched,
//! post-command card busy) follows one policy: re-check the condition,
//! yield cooperatively once the elapsed time crosses a threshold that
//! doubles on every yield, and give up with a timeout when an overall
//! limit is exceeded. The timeout values are the contract; the loop that
//! applies them lives with the hardware.

use vstd::prelude::*;

verus! {

/// Initial yield threshold, in milliseconds.
pub const POLL_INITIAL_MS: u64 = 100;

/// Overall limit on waiting for the controller to take a command, in
/// milliseconds.
pub const CMD_TAKEN_TIMEOUT_MS: u64 = 1000;

/// Overall limit on waiting for the controller and DMA reset, in
/// milliseconds.
pub const RESET_TIMEOUT_MS: u64 = 5000;

/// What a polling loop does next.
#[derive(Debug, Clone, Copy, PartialEq, Eq, Structural)]
pub enum PollDecision {
    /// The overall limit is exceeded: give up with the timeout error.
    TimedOut,
    /// Yield to the scheduler and continue with the doubled threshold.
    Yield(u64),
    /// Re-check immediately.
    Continue,
}

/// One step of the bounded-poll policy: timeout once the elapsed time
/// exceeds the limit, otherwise yield (doubling the threshold) once the
/// elapsed time crosses the threshold, otherwise re-check immediately.
pub fn poll_step(elapsed_ms: u64, threshold_ms: u64, limit_ms: u64) -> (r: PollDecision)
    requires
        limit_ms <= 0x7fff_ffff_ffff_ffff,
    ensures
        elapsed_ms > limit_ms ==> r == PollDecision::TimedOut,
        elapsed_ms <= limit_ms && elapsed_ms > threshold_ms ==> r == PollDecision::Yield(
            (2 * threshold_ms) as u64,
        ),
        elapsed_ms <= limit_ms && elapsed_ms <= threshold_ms ==> r == PollDecision::Continue,
{
    if elapsed_ms > limit_ms {
        PollDecision::TimedOut
    } else if elapsed_ms > threshold_ms {
        PollDecision::Yield(2 * threshold_ms)
    } else {
        PollDecision::Continue
    }
}

} // verus!
