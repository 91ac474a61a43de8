//! What becomes of a window call that failed.
//!
//! A window call fails when the window it is aimed at is gone. The host
//! reports how each call went; the policy decides whether the process goes on.
//! Nothing is ever retried.

use vstd::prelude::*;

verus! {

/// How a failed window call is treated.
#[derive(Clone, Copy, Debug, PartialEq, Eq, Structural)]
pub enum FailurePolicy {
    /// The failure is dropped and the process goes on; to the user the call
    /// was a no-op.
    BestEffort,
    /// The failure ends the process abnormally.
    Fatal,
}

/// What the host does after a window call has returned.
#[derive(Clone, Copy, Debug, PartialEq, Eq, Structural)]
pub enum Verdict {
    /// Go on with the next call.
    Continue,
    /// Abort the process.
    Abort,
}

/// The verdict on one window call: abort exactly when the call failed and
/// failures are fatal.
pub open spec fn verdict_for(policy: FailurePolicy, succeeded: bool) -> Verdict {
    if !succeeded && policy == FailurePolicy::Fatal {
        Verdict::Abort
    } else {
        Verdict::Continue
    }
}

impl FailurePolicy {
    /// Judges one window call by its outcome.
    pub fn judge(self, succeeded: bool) -> (verdict: Verdict)
        ensures
            verdict == verdict_for(self, succeeded),
    {
        match self {
            FailurePolicy::BestEffort => Verdict::Continue,
            FailurePolicy::Fatal => if succeeded {
                Verdict::Continue
            } else {
                Verdict::Abort
            },
        }
    }
}

impl Default for FailurePolicy {
    /// Failures are dropped unless the host asks otherwise.
    fn default() -> (policy: FailurePolicy)
        ensures
            policy == FailurePolicy::BestEffort,
    {
        FailurePolicy::BestEffort
    }
}

} // verus!
