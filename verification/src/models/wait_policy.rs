use vstd::prelude::*;

verus! {

/// Defines the wait policy for index creation.
#[derive(Clone, Copy, Debug, PartialEq, Eq, Structural)]
pub enum WaitPolicy {
    /// Wait for the index to become ready, up to the given number of nanoseconds (a
    /// `Duration` as `Duration::as_nanos` counts it).
    WaitFor(u128),
    /// Do not wait for the index to become ready -- return immediately.
    NoWait,
}

impl Default for WaitPolicy {
    /// Wait up to 300 seconds.
    fn default() -> (r: WaitPolicy)
        ensures
            r == WaitPolicy::WaitFor(300_000_000_000),
    {
        WaitPolicy::WaitFor(300_000_000_000)
    }
}

} // verus!
