//! What holds of the shell over whole runs of triggers.

use crate::failure::{verdict_for, FailurePolicy, Verdict};
use crate::lifecycle::{after_hide, step, Directive, HostCall, Trigger, Visibility};
use crate::process::{deliver, run, Delivery, Process};
use vstd::prelude::*;

verus! {

/// Whether every delivery of `deliveries` is a close request.
pub open spec fn all_close_requests(deliveries: Seq<Delivery>) -> bool {
    forall|i: int|
        0 <= i < deliveries.len() ==> (#[trigger] deliveries[i]).trigger == Trigger::CloseRequested
}

/// Whether no window call failed in any delivery of `deliveries`.
pub open spec fn all_succeeded(deliveries: Seq<Delivery>) -> bool {
    forall|i: int| 0 <= i < deliveries.len() ==> (#[trigger] deliveries[i]).succeeded
}

/// Close requests never end the process, however many come and whatever the
/// window's visibility was. Each is answered by hiding the window and vetoing
/// the close. Where failures are dropped, or no window call fails, the
/// process is still running afterwards, with its window hidden from the first
/// close request on.
pub proof fn lemma_close_requests_only_hide(
    policy: FailurePolicy,
    start: Visibility,
    closes: Seq<Delivery>,
)
    requires
        all_close_requests(closes),
    ensures
        !(run(policy, Process::Running { visibility: start }, closes) is Exited),
        forall|before: Visibility| #[trigger]
            step(before, Trigger::CloseRequested) == (
                Visibility::Hidden,
                Directive::Hide { veto_close: true },
            ),
        (Directive::Hide { veto_close: true }).spec_calls() == seq![
            HostCall::HideWindow,
            HostCall::PreventClose,
        ],
        policy == FailurePolicy::BestEffort || all_succeeded(closes) ==> run(
            policy,
            Process::Running { visibility: start },
            closes,
        ) == (Process::Running {
            visibility: if closes.len() == 0 {
                start
            } else {
                Visibility::Hidden
            },
        }),
    decreases closes.len(),
{
    if closes.len() > 0 {
        let earlier = closes.drop_last();
        lemma_close_requests_only_hide(policy, start, earlier);
        assert(closes.last() == closes[closes.len() - 1]);
        if all_succeeded(closes) {
            assert forall|i: int| 0 <= i < earlier.len() implies (#[trigger] earlier[i]).succeeded by {
                assert(earlier[i] == closes[i]);
            }
        }
    }
}

/// A tray activation that follows any number of close requests is answered
/// by showing the window and then giving it input focus. Where failures are
/// dropped, or no window call fails, the process is running afterwards with
/// its window shown.
pub proof fn lemma_tray_activate_shows_and_focuses(
    policy: FailurePolicy,
    start: Visibility,
    closes: Seq<Delivery>,
    activation: Delivery,
)
    requires
        all_close_requests(closes),
        activation.trigger == Trigger::TrayActivate,
    ensures
        forall|before: Visibility| #[trigger]
            step(before, Trigger::TrayActivate) == (Visibility::Shown, Directive::ShowAndFocus),
        Directive::ShowAndFocus.spec_calls() == seq![HostCall::ShowWindow, HostCall::FocusWindow],
        policy == FailurePolicy::BestEffort || all_succeeded(closes.push(activation)) ==> run(
            policy,
            Process::Running { visibility: start },
            closes.push(activation),
        ) == (Process::Running { visibility: Visibility::Shown }),
{
    let deliveries = closes.push(activation);
    assert(deliveries.drop_last() == closes);
    assert(deliveries.last() == activation);
    lemma_close_requests_only_hide(policy, start, closes);
    if all_succeeded(deliveries) {
        assert(deliveries[closes.len() as int].succeeded);
        assert forall|i: int| 0 <= i < closes.len() implies (#[trigger] closes[i]).succeeded by {
            assert(closes[i] == deliveries[i]);
        }
    }
}

/// A quit request ends a running process with exit code 0, whatever the
/// window's visibility, whatever was delivered before, and whether or not
/// window calls fail.
pub proof fn lemma_quit_exits_with_zero(
    policy: FailurePolicy,
    start: Process,
    earlier: Seq<Delivery>,
    quit: Delivery,
)
    requires
        quit.trigger == Trigger::QuitRequested,
    ensures
        forall|before: Visibility| #[trigger]
            step(before, Trigger::QuitRequested) == (before, Directive::Exit { code: 0 }),
        (Directive::Exit { code: 0 }).spec_calls() == seq![HostCall::Exit(0)],
        forall|before: Visibility| #[trigger]
            deliver(policy, Process::Running { visibility: before }, quit) == (Process::Exited {
                code: 0,
            }),
        run(policy, start, earlier) is Running ==> run(policy, start, earlier.push(quit)) == (
        Process::Exited { code: 0 }),
{
    let deliveries = earlier.push(quit);
    assert(deliveries.drop_last() == earlier);
    assert(deliveries.last() == quit);
}

/// A process that was running and has ended has ended with exit code 0, and
/// a quit request was delivered to it.
pub proof fn lemma_exit_only_by_quit(
    policy: FailurePolicy,
    start: Visibility,
    deliveries: Seq<Delivery>,
)
    requires
        run(policy, Process::Running { visibility: start }, deliveries) is Exited,
    ensures
        run(policy, Process::Running { visibility: start }, deliveries) == (Process::Exited {
            code: 0,
        }),
        exists|i: int|
            0 <= i < deliveries.len() && (#[trigger] deliveries[i]).trigger
                == Trigger::QuitRequested,
    decreases deliveries.len(),
{
    let earlier = deliveries.drop_last();
    if run(policy, Process::Running { visibility: start }, earlier) is Exited {
        lemma_exit_only_by_quit(policy, start, earlier);
        let i = choose|i: int|
            0 <= i < earlier.len() && (#[trigger] earlier[i]).trigger == Trigger::QuitRequested;
        assert(deliveries[i] == earlier[i]);
    } else {
        assert(deliveries[deliveries.len() - 1].trigger == Trigger::QuitRequested);
    }
}

/// Hiding is idempotent: after a second call the window is hidden as it was
/// after the first, and with failures dropped the second call is no error,
/// whether the window was still there or not.
pub proof fn lemma_hide_is_idempotent(before: Visibility, second_call_succeeded: bool)
    ensures
        after_hide(before) == Visibility::Hidden,
        after_hide(after_hide(before)) == after_hide(before),
        verdict_for(FailurePolicy::BestEffort, second_call_succeeded) == Verdict::Continue,
{
}

} // verus!
