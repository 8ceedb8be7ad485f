//! What holds of every startup, whatever the host runtime presents.
//!
//! Each statement is about [`spec_run`], the meaning of [`crate::bootstrap::run`],
//! and is proved for every host and every target.

use crate::action::ActionView;
use crate::bootstrap::{
    adjustments, hook_trace, registrations, spec_run, spec_startup_plan, OutcomeView,
};
use crate::capability::{registry, Capability};
use crate::config::ConfigurationView;
use crate::hook::{HookPhase, Lifecycle, SetupHook};
use crate::host::{first_labelled, HostView};
use crate::message;
use crate::platform::{PlatformAdapter, TargetOs};
use vstd::prelude::*;

verus! {

/// The startup plan of the standard configuration, written out.
pub open spec fn standard_plan() -> Seq<ActionView> {
    seq![
        ActionView::InitLogging,
        ActionView::Log(message::starting_text()),
        ActionView::Register(Capability::Shell),
        ActionView::Register(Capability::Dialog),
        ActionView::Register(Capability::Fs),
        ActionView::Register(Capability::Notification),
        ActionView::Register(Capability::Os),
        ActionView::Register(Capability::Process),
        ActionView::Register(Capability::GlobalShortcut),
        ActionView::AttachSetupHook,
        ActionView::Launch,
    ]
}

/// On every target the startup plan is the same eleven actions.
pub proof fn lemma_standard_plan(target: TargetOs)
    ensures
        spec_startup_plan(ConfigurationView::standard(target)) == standard_plan(),
        standard_plan().len() == 11,
{
    assert(spec_startup_plan(ConfigurationView::standard(target)) =~= standard_plan());
}

/// The count of adjustments of a sequence is the sum over its two parts.
pub proof fn lemma_adjustments_split(a: Seq<ActionView>, b: Seq<ActionView>)
    ensures
        adjustments(a + b) == adjustments(a) + adjustments(b),
    decreases b.len(),
{
    if b.len() == 0 {
        assert(a + b =~= a);
    } else {
        assert((a + b).drop_last() =~= a + b.drop_last());
        assert((a + b).last() == b.last());
        lemma_adjustments_split(a, b.drop_last());
    }
}

/// The count of adjustments is zero exactly where no action is an adjustment.
pub proof fn lemma_adjustments_zero(actions: Seq<ActionView>)
    ensures
        adjustments(actions) == 0 <==> forall|i: int|
            0 <= i < actions.len() ==> !(#[trigger] actions[i]).is_adjustment(),
    decreases actions.len(),
{
    if actions.len() > 0 {
        lemma_adjustments_zero(actions.drop_last());
        let front = actions.drop_last();
        assert(forall|i: int| 0 <= i < front.len() ==> front[i] == actions[i]);
        if adjustments(actions) == 0 {
            assert forall|i: int| 0 <= i < actions.len() implies !(#[trigger] actions[i]).is_adjustment() by {
                if i < front.len() {
                    assert(front[i] == actions[i]);
                }
            }
        }
    }
}

/// The setup hook adjusts the window once where it was built with the shadow
/// adapter and the primary window exists, and not at all otherwise.
pub proof fn lemma_hook_adjustments(adapter: PlatformAdapter, host: HostView)
    ensures
        adjustments(hook_trace(adapter, host)) == (if adapter.spec_adjusts() && first_labelled(
            host.windows,
            message::primary_label_text(),
        ) is Some {
            1nat
        } else {
            0nat
        }),
{
    reveal_with_fuel(adjustments, 8);
    let trace = hook_trace(adapter, host);
    let label = message::primary_label_text();
    if first_labelled(host.windows, label) is Some {
        if adapter.spec_adjusts() {
            assert(trace.len() == 6);
            assert(trace.drop_last().len() == 5);
            assert(trace.drop_last().drop_last().len() == 4);
            assert(trace.drop_last().drop_last().drop_last().len() == 3);
            assert(trace.drop_last().drop_last().drop_last().drop_last().len() == 2);
        } else {
            assert(trace.len() == 5);
            assert(trace.drop_last().len() == 4);
            assert(trace.drop_last().drop_last().len() == 3);
            assert(trace.drop_last().drop_last().drop_last().len() == 2);
        }
    } else {
        assert(trace.len() == 3);
        assert(trace.drop_last().len() == 2);
    }
}

/// How often a startup adjusts the presentation of a window: once where the
/// target is the shadow target, the host runtime came up and the primary
/// window exists; never otherwise.
pub proof fn lemma_adjustments_of_run(host: HostView, target: TargetOs)
    ensures
        adjustments(spec_run(host, target).actions) == (if target.is_shadow_target()
            && host.launch_error is None && first_labelled(
            host.windows,
            message::primary_label_text(),
        ) is Some {
            1nat
        } else {
            0nat
        }),
{
    lemma_standard_plan(target);
    let plan = standard_plan();
    let adapter = PlatformAdapter::spec_for_target(target);
    lemma_adjustments_zero(plan);
    match host.launch_error {
        Some(detail) => {
            let end = seq![ActionView::Abort(message::launch_failed_text(detail))];
            assert(spec_run(host, target).actions =~= plan + end);
            lemma_adjustments_zero(end);
            lemma_adjustments_split(plan, end);
        },
        None => {
            lemma_hook_adjustments(adapter, host);
            lemma_adjustments_split(plan, hook_trace(adapter, host));
        },
    }
}

/// Off the shadow target a startup makes no adjustment: no action of the
/// run is one, whatever the host runtime presents.
pub proof fn lemma_no_adjustment_off_target(host: HostView, target: TargetOs)
    requires
        !target.is_shadow_target(),
    ensures
        adjustments(spec_run(host, target).actions) == 0,
        forall|i: int|
            0 <= i < spec_run(host, target).actions.len() ==> !(#[trigger] spec_run(
                host,
                target,
            ).actions[i]).is_adjustment(),
{
    lemma_adjustments_of_run(host, target);
    lemma_adjustments_zero(spec_run(host, target).actions);
}

/// The host runtime enters the setup hook exactly once where it comes up,
/// however many windows it has built, and never where it does not come up.
pub proof fn lemma_hook_entered_once(host: HostView, target: TargetOs)
    ensures
        spec_run(host, target).hook_invocations() == (if host.launch_error is None {
            1nat
        } else {
            0nat
        }),
{
}

/// The number of windows has no bearing on how often the hook is entered:
/// two hosts that both came up agree on it.
pub proof fn lemma_hook_entries_ignore_windows(a: HostView, b: HostView, target: TargetOs)
    requires
        a.launch_error is None,
        b.launch_error is None,
    ensures
        spec_run(a, target).hook_invocations() == spec_run(b, target).hook_invocations(),
        spec_run(a, target).hook_invocations() == 1,
{
}

/// An adjustment is never attempted without a resolved window: where some
/// action of a run is an adjustment, the action just before it is the lookup
/// of the primary window, that window exists, and the adjustment is applied
/// to it.
pub proof fn lemma_adjustment_follows_resolution(host: HostView, target: TargetOs, i: int)
    requires
        0 <= i < spec_run(host, target).actions.len(),
        spec_run(host, target).actions[i].is_adjustment(),
    ensures
        i > 0,
        spec_run(host, target).actions[i - 1] == ActionView::ResolveWindow(
            message::primary_label_text(),
        ),
        spec_run(host, target).actions[i] == ActionView::ApplyShadow(
            message::primary_label_text(),
        ),
        first_labelled(host.windows, message::primary_label_text()) is Some,
        target.is_shadow_target(),
{
    lemma_standard_plan(target);
}

/// A primary window that cannot be resolved ends the process: the outcome is
/// fatal with the diagnostic that names the label, the exit status is not
/// zero, the hook never completes, and no adjustment is attempted.
pub proof fn lemma_missing_window_is_fatal(host: HostView, target: TargetOs)
    requires
        host.launch_error is None,
        first_labelled(host.windows, message::primary_label_text()) is None,
    ensures
        spec_run(host, target).outcome() == OutcomeView::Fatal(
            message::missing_window_text(message::primary_label_text()),
        ),
        spec_run(host, target).outcome().exit_code() != 0,
        spec_run(host, target).hook == Some(
            SetupHook::spec_new(PlatformAdapter::spec_for_target(target)).at(HookPhase::Aborted),
        ),
        HookPhase::Aborted.spec_lifecycle() != Lifecycle::Completed,
        adjustments(spec_run(host, target).actions) == 0,
        !spec_run(host, target).actions.contains(ActionView::CompleteSetup),
{
    lemma_standard_plan(target);
    lemma_adjustments_of_run(host, target);
    let actions = spec_run(host, target).actions;
    assert(actions.len() == 14);
    assert(actions.last() == actions[13]);
}

/// A host runtime that cannot be brought up ends the process before the
/// setup hook is entered: the outcome is fatal with the launch diagnostic,
/// and the hook is still where it started.
pub proof fn lemma_launch_failure_is_fatal(host: HostView, target: TargetOs)
    requires
        host.launch_error is Some,
    ensures
        spec_run(host, target).outcome() == OutcomeView::Fatal(
            message::launch_failed_text(host.launch_error.unwrap()),
        ),
        spec_run(host, target).outcome().exit_code() != 0,
        spec_run(host, target).hook == Some(
            SetupHook::spec_new(PlatformAdapter::spec_for_target(target)),
        ),
{
    lemma_standard_plan(target);
    let actions = spec_run(host, target).actions;
    assert(actions.len() == 12);
    assert(actions.last() == actions[11]);
}

/// A title that cannot be read does not abort the startup: the readiness
/// line is written with an empty title, the hook returns successfully, and
/// the application is running.
pub proof fn lemma_unreadable_title_is_not_fatal(host: HostView, target: TargetOs)
    requires
        host.launch_error is None,
        first_labelled(host.windows, message::primary_label_text()) is Some,
        host.title_of(message::primary_label_text()) is None,
    ensures
        spec_run(host, target).outcome() == OutcomeView::Started,
        spec_run(host, target).outcome().exit_code() == 0,
        spec_run(host, target).hook == Some(
            SetupHook::spec_new(PlatformAdapter::spec_for_target(target)).at(
                HookPhase::Completed,
            ),
        ),
        spec_run(host, target).actions.len() >= 2,
        spec_run(host, target).actions.last() == ActionView::CompleteSetup,
        spec_run(host, target).actions[spec_run(host, target).actions.len() - 2]
            == ActionView::Log("Window initialized: "@),
{
    lemma_standard_plan(target);
    assert("Window initialized: "@ + Seq::<char>::empty() =~= "Window initialized: "@);
    let actions = spec_run(host, target).actions;
    if target.is_shadow_target() {
        assert(actions.len() == 17);
        assert(actions.last() == actions[16]);
    } else {
        assert(actions.len() == 16);
        assert(actions.last() == actions[15]);
    }
}

/// A startup whose primary window exists succeeds, whatever its title: the
/// readiness line carries the title, or nothing where it cannot be read.
pub proof fn lemma_resolved_window_starts(host: HostView, target: TargetOs)
    requires
        host.launch_error is None,
        first_labelled(host.windows, message::primary_label_text()) is Some,
    ensures
        spec_run(host, target).outcome() == OutcomeView::Started,
        spec_run(host, target).actions.len() >= 2,
        spec_run(host, target).actions.last() == ActionView::CompleteSetup,
        spec_run(host, target).actions[spec_run(host, target).actions.len() - 2]
            == ActionView::Log(
            message::window_initialized_text(
                message::title_or_empty(host.title_of(message::primary_label_text())),
            ),
        ),
{
    lemma_standard_plan(target);
    let actions = spec_run(host, target).actions;
    if target.is_shadow_target() {
        assert(actions.len() == 17);
        assert(actions.last() == actions[16]);
    } else {
        assert(actions.len() == 16);
        assert(actions.last() == actions[15]);
    }
}

/// The modules are registered in the same order in every run: whatever the
/// host and the target, the actions at places 2 to 8 are the registrations
/// of the registry, in its order.
pub proof fn lemma_registration_order_is_fixed(
    host_a: HostView,
    target_a: TargetOs,
    host_b: HostView,
    target_b: TargetOs,
)
    ensures
        spec_run(host_a, target_a).actions.len() >= 11,
        spec_run(host_a, target_a).actions.subrange(2, 9) == registrations(registry()),
        spec_run(host_a, target_a).actions.subrange(2, 9) == spec_run(
            host_b,
            target_b,
        ).actions.subrange(2, 9),
{
    lemma_standard_plan(target_a);
    lemma_standard_plan(target_b);
    let a = spec_run(host_a, target_a).actions;
    let b = spec_run(host_b, target_b).actions;
    assert(a.len() >= 11 && b.len() >= 11);
    assert(a.subrange(2, 9) =~= registrations(registry()));
    assert(b.subrange(2, 9) =~= registrations(registry()));
}

/// The registration of a module depends on that module alone: leaving one
/// module out leaves the registrations of all the others as they were, in
/// the same order.
pub proof fn lemma_omitting_a_module_leaves_the_others(capabilities: Seq<Capability>, i: int)
    requires
        0 <= i < capabilities.len(),
    ensures
        registrations(capabilities.remove(i)) == registrations(capabilities).remove(i),
{
    assert(registrations(capabilities.remove(i)) =~= registrations(capabilities).remove(i));
}

/// The diagnostic sink is brought up first and only once: the first action
/// of every run initialises it, and no later action does.
pub proof fn lemma_logging_comes_first(host: HostView, target: TargetOs)
    ensures
        spec_run(host, target).actions.len() > 0,
        spec_run(host, target).actions[0] == ActionView::InitLogging,
        forall|i: int|
            0 < i < spec_run(host, target).actions.len() ==> !((#[trigger] spec_run(
                host,
                target,
            ).actions[i]) is InitLogging),
{
    lemma_standard_plan(target);
}

/// Control is handed to the host runtime after everything else in the plan:
/// the launch stands at place 10, directly after the setup hook was attached.
pub proof fn lemma_launch_comes_last_in_plan(host: HostView, target: TargetOs)
    ensures
        spec_run(host, target).actions.len() >= 11,
        spec_run(host, target).actions[9] == ActionView::AttachSetupHook,
        spec_run(host, target).actions[10] == ActionView::Launch,
{
    lemma_standard_plan(target);
}

} // verus!
