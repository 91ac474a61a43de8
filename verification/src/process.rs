//! The process as the user sees it: running with its window shown or hidden,
//! ended by a quit request, or aborted by a window call that failed.

use crate::failure::{verdict_for, FailurePolicy, Verdict};
use crate::lifecycle::{step, Directive, Trigger, Visibility};
use vstd::prelude::*;

verus! {

/// The state of the process.
pub enum Process {
    /// The event loop is running.
    Running { visibility: Visibility },
    /// The process has ended with the given exit code. Nothing follows.
    Exited { code: i32 },
    /// The process was aborted. Nothing follows.
    Aborted,
}

/// One trigger as it reaches the running process, with the outcome of the
/// window calls that the host makes for it.
pub struct Delivery {
    pub trigger: Trigger,
    /// Whether every window call made for the trigger succeeded.
    pub succeeded: bool,
}

/// The process after one delivery.
///
/// A process that has ended or was aborted stays as it is. A running process
/// takes one step of the lifecycle: it ends if the directive says so,
/// is aborted if a window call failed and failures are fatal, and otherwise
/// goes on with the next visibility.
pub open spec fn deliver(policy: FailurePolicy, process: Process, delivery: Delivery) -> Process {
    match process {
        Process::Running { visibility } => {
            let (next, directive) = step(visibility, delivery.trigger);
            match directive {
                Directive::Exit { code } => Process::Exited { code },
                _ => if verdict_for(policy, delivery.succeeded) == Verdict::Abort {
                    Process::Aborted
                } else {
                    Process::Running { visibility: next }
                },
            }
        },
        _ => process,
    }
}

/// The process after every delivery of `deliveries`, first to last.
pub open spec fn run(policy: FailurePolicy, start: Process, deliveries: Seq<Delivery>) -> Process
    decreases deliveries.len(),
{
    if deliveries.len() == 0 {
        start
    } else {
        deliver(policy, run(policy, start, deliveries.drop_last()), deliveries.last())
    }
}

} // verus!
