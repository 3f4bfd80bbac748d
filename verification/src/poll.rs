use vstd::prelude::*;

verus! {

/// What a wait for the dsh server decides after one probe.
#[derive(PartialEq, Eq, Structural, Clone, Copy, Debug)]
pub enum WaitStep {
    /// The server answered: stop waiting.
    Ready,
    /// The time is up: give up.
    GiveUp,
    /// Sleep and probe again.
    Retry,
}

/// How long to wait for the dsh server before watching its sessions, in nanoseconds.
pub const SESSION_WATCH_READY_NANOS: u64 = 120_000_000_000;

/// How long to wait for the dsh server before reloading the window, in nanoseconds.
pub const RELOAD_READY_NANOS: u64 = 60_000_000_000;

/// How long to wait for dsh's port to be freed before starting it again, in nanoseconds.
pub const PORT_FREE_NANOS: u64 = 10_000_000_000;

/// The decision after a probe of the server, `elapsed` nanoseconds into a wait of at most
/// `timeout`: an answer ends the wait; otherwise it is given up once the time is past.
pub fn wait_step(answered: bool, elapsed: u64, timeout: u64) -> (r: WaitStep)
    ensures
        answered ==> r == WaitStep::Ready,
        !answered && elapsed > timeout ==> r == WaitStep::GiveUp,
        !answered && elapsed <= timeout ==> r == WaitStep::Retry,
{
    if answered {
        WaitStep::Ready
    } else if elapsed > timeout {
        WaitStep::GiveUp
    } else {
        WaitStep::Retry
    }
}

/// Whether waiting for a port to be freed probes it again, `elapsed` nanoseconds into a wait
/// of at most `timeout`: only while time is left.
pub fn port_wait_continues(elapsed: u64, timeout: u64) -> (r: bool)
    ensures
        r == (elapsed < timeout),
{
    elapsed < timeout
}

} // verus!
