//! The startup of the shell, from the first diagnostic line to the running
//! application.
//!
//! [`startup_plan`] lists what is done before the host runtime takes over,
//! [`drive`] runs the setup hook against a host runtime, and [`run`] puts a
//! whole startup together and reports every action in order.

use crate::action::{Action, ActionView};
use crate::capability::Capability;
use crate::config::{configuration, ApplicationConfiguration, Builder, ConfigurationView};
use crate::hook::{HookEvent, HookEventView, HookPhase, SetupHook};
use crate::host::{first_labelled, Host, HostView};
use crate::message;
use crate::platform::{PlatformAdapter, TargetOs};
use vstd::prelude::*;

verus! {

/// Exit status of a process that ended on a fatal diagnostic: the status of
/// a process that panicked.
pub const FATAL_EXIT_CODE: i32 = 101;

/// How a startup ended.
#[derive(Clone, Debug, PartialEq, Eq)]
pub enum Outcome {
    /// The application is running. Its process ends with status zero when
    /// the host runtime shuts the run loop down.
    Started,
    /// The process was terminated at startup, with this diagnostic.
    Fatal(String),
}

/// An [`Outcome`] with its text as a sequence of characters.
pub enum OutcomeView {
    Started,
    Fatal(Seq<char>),
}

impl View for Outcome {
    type V = OutcomeView;

    open spec fn view(&self) -> OutcomeView {
        match self {
            Outcome::Started => OutcomeView::Started,
            Outcome::Fatal(diagnostic) => OutcomeView::Fatal(diagnostic@),
        }
    }
}

impl OutcomeView {
    /// The status with which the process ends.
    pub open spec fn exit_code(self) -> int {
        match self {
            OutcomeView::Started => 0,
            OutcomeView::Fatal(_) => FATAL_EXIT_CODE as int,
        }
    }
}

impl Outcome {
    pub fn is_fatal(&self) -> (b: bool)
        ensures
            b == (self@ is Fatal),
    {
        match self {
            Outcome::Started => false,
            Outcome::Fatal(_) => true,
        }
    }

    /// The status with which the process ends: zero after a startup that
    /// succeeded, non-zero after one that did not.
    pub fn exit_code(&self) -> (code: i32)
        ensures
            code == self@.exit_code(),
            code != 0 <==> self@ is Fatal,
    {
        match self {
            Outcome::Started => 0,
            Outcome::Fatal(_) => FATAL_EXIT_CODE,
        }
    }
}

/// The outcome of a launch that involved no setup hook failure: the host
/// runtime either ran, or reported why it could not be brought up.
pub open spec fn spec_launch_outcome(launch_error: Option<Seq<char>>) -> OutcomeView {
    match launch_error {
        None => OutcomeView::Started,
        Some(detail) => OutcomeView::Fatal(message::launch_failed_text(detail)),
    }
}

/// Decides what follows from the host runtime's own result. A host runtime
/// that could not be brought up is fatal; there is no degraded mode.
pub fn launch_outcome(launch_error: Option<String>) -> (outcome: Outcome)
    ensures
        outcome@ == spec_launch_outcome(launch_error.deep_view()),
{
    match launch_error {
        None => Outcome::Started,
        Some(detail) => Outcome::Fatal(message::launch_failed(detail.as_str())),
    }
}

/// One `Register` action for each module, in order.
pub open spec fn registrations(capabilities: Seq<Capability>) -> Seq<ActionView> {
    Seq::new(capabilities.len(), |i: int| ActionView::Register(capabilities[i]))
}

/// What is done before the host runtime takes over: the diagnostic sink
/// first, then the first line, the modules in registration order, the setup
/// hook if there is one, and the launch last.
pub open spec fn spec_startup_plan(configuration: ConfigurationView) -> Seq<ActionView> {
    seq![ActionView::InitLogging, ActionView::Log(message::starting_text())] + registrations(
        configuration.capabilities,
    ) + (match configuration.adapter {
        Some(_) => seq![ActionView::AttachSetupHook],
        None => Seq::empty(),
    }) + seq![ActionView::Launch]
}

pub fn startup_plan(configuration: &ApplicationConfiguration) -> (plan: Vec<Action>)
    ensures
        plan.deep_view() == spec_startup_plan(configuration@),
{
    let capabilities = configuration.capabilities();
    let mut plan: Vec<Action> = Vec::new();
    plan.push(Action::InitLogging);
    plan.push(Action::Log(message::starting()));
    let ghost head = seq![ActionView::InitLogging, ActionView::Log(message::starting_text())];
    assert(plan.deep_view() =~= head + registrations(capabilities@.take(0)));
    let mut i: usize = 0;
    while i < capabilities.len()
        invariant
            0 <= i <= capabilities.len(),
            head == seq![ActionView::InitLogging, ActionView::Log(message::starting_text())],
            plan.deep_view() == head + registrations(capabilities@.take(i as int)),
        decreases capabilities.len() - i,
    {
        let ghost before = plan.deep_view();
        plan.push(Action::Register(capabilities[i]));
        assert(plan.deep_view() =~= before.push(ActionView::Register(capabilities@[i as int])));
        assert(before.push(ActionView::Register(capabilities@[i as int])) =~= head
            + registrations(capabilities@.take(i + 1)));
        i += 1;
    }
    assert(capabilities@.take(i as int) =~= capabilities@);
    let ghost registered = plan.deep_view();
    match configuration.setup_hook() {
        Some(_) => {
            plan.push(Action::AttachSetupHook);
            plan.push(Action::Launch);
            assert(plan.deep_view() =~= registered + seq![ActionView::AttachSetupHook] + seq![
                ActionView::Launch,
            ]);
        },
        None => {
            plan.push(Action::Launch);
            assert(plan.deep_view() =~= registered + Seq::<ActionView>::empty() + seq![
                ActionView::Launch,
            ]);
        },
    }
    plan
}

/// The actions of one run of the setup hook, and the hook as the run left it.
#[derive(Clone, Debug, PartialEq, Eq)]
pub struct HookRun {
    pub actions: Vec<Action>,
    pub hook: SetupHook,
}

impl SetupHook {
    /// Runs the hook from `event` on, each action answered by `host`, until
    /// the hook ends or refuses an event. Gives the actions in order and the
    /// hook as it is left.
    pub open spec fn spec_drive(self, event: HookEventView, host: HostView) -> (
        Seq<ActionView>,
        SetupHook,
    )
        decreases self.phase.remaining(),
    {
        match self.spec_step(event) {
            (next, Ok(action)) => match host.spec_answer(action) {
                Some(reply) => {
                    let rest = next.spec_drive(reply, host);
                    (seq![action] + rest.0, rest.1)
                },
                None => (seq![action], next),
            },
            (_, Err(_)) => (Seq::empty(), self),
        }
    }
}

/// Lets the host runtime enter `hook` and carries the hook through to its
/// end, each action answered by `host`.
pub fn drive(hook: SetupHook, host: &Host) -> (run: HookRun)
    ensures
        (run.actions.deep_view(), run.hook) == hook.spec_drive(HookEventView::Invoked, host@),
{
    let mut current = hook;
    let mut event = HookEvent::Invoked;
    let mut actions: Vec<Action> = Vec::new();
    assert(actions.deep_view() =~= Seq::<ActionView>::empty());
    loop
        invariant
            hook.spec_drive(HookEventView::Invoked, host@).0 == actions.deep_view()
                + current.spec_drive(event@, host@).0,
            hook.spec_drive(HookEventView::Invoked, host@).1 == current.spec_drive(
                event@,
                host@,
            ).1,
        ensures
            (actions.deep_view(), current) == hook.spec_drive(HookEventView::Invoked, host@),
        decreases current.phase.remaining(),
    {
        let ghost before = current;
        let ghost before_event = event@;
        let ghost done = actions.deep_view();
        match current.step(event) {
            Ok(action) => {
                let reply = host.answer(&action);
                let ghost taken = action@;
                actions.push(action);
                assert(actions.deep_view() =~= done.push(taken));
                match reply {
                    Some(next_event) => {
                        event = next_event;
                        assert(done.push(taken) + current.spec_drive(event@, host@).0 =~= done + (
                        seq![taken] + current.spec_drive(event@, host@).0));
                    },
                    None => {
                        assert(done.push(taken) =~= done + seq![taken]);
                        break ;
                    },
                }
            },
            Err(_) => {
                assert(done + Seq::<ActionView>::empty() =~= done);
                break ;
            },
        }
    }
    HookRun { actions, hook: current }
}

/// The actions of the setup hook against `host`, said directly: the entry
/// line and the lookup of the primary window; then, where the window exists,
/// the adjustment if the adapter makes one, the title lookup, the readiness
/// line and the return; where it does not, the fatal diagnostic and nothing
/// else.
pub open spec fn hook_trace(adapter: PlatformAdapter, host: HostView) -> Seq<ActionView> {
    let label = message::primary_label_text();
    let entry = seq![
        ActionView::Log(message::setup_complete_text()),
        ActionView::ResolveWindow(label),
    ];
    if first_labelled(host.windows, label) is Some {
        entry + (if adapter.spec_adjusts() {
            seq![ActionView::ApplyShadow(label)]
        } else {
            Seq::empty()
        }) + seq![
            ActionView::ReadTitle(label),
            ActionView::Log(
                message::window_initialized_text(message::title_or_empty(host.title_of(label))),
            ),
            ActionView::CompleteSetup,
        ]
    } else {
        entry + seq![ActionView::Abort(message::missing_window_text(label))]
    }
}

/// The hook after it has run against `host`: completed where the primary
/// window exists, aborted where it does not.
pub open spec fn hook_end(adapter: PlatformAdapter, host: HostView) -> SetupHook {
    SetupHook {
        phase: if first_labelled(host.windows, message::primary_label_text()) is Some {
            HookPhase::Completed
        } else {
            HookPhase::Aborted
        },
        adapter,
    }
}

/// Driving a fresh hook step by step gives exactly the actions of
/// [`hook_trace`], and leaves the hook as [`hook_end`] says.
pub proof fn lemma_drive_gives_hook_trace(adapter: PlatformAdapter, host: HostView)
    ensures
        SetupHook::spec_new(adapter).spec_drive(HookEventView::Invoked, host) == (
            hook_trace(adapter, host),
            hook_end(adapter, host),
        ),
{
    reveal_with_fuel(SetupHook::spec_drive, 8);
    let driven = SetupHook::spec_new(adapter).spec_drive(HookEventView::Invoked, host);
    assert(driven.0 =~= hook_trace(adapter, host));
    assert(driven.1 == hook_end(adapter, host));
}

/// What a startup did: every action in order, and the setup hook as the
/// startup left it (`None` where the configuration has no hook).
#[derive(Clone, Debug, PartialEq, Eq)]
pub struct RunReport {
    pub actions: Vec<Action>,
    pub hook: Option<SetupHook>,
}

/// A [`RunReport`] with its texts as sequences of characters.
pub struct RunReportView {
    pub actions: Seq<ActionView>,
    pub hook: Option<SetupHook>,
}

impl View for RunReport {
    type V = RunReportView;

    open spec fn view(&self) -> RunReportView {
        RunReportView { actions: self.actions.deep_view(), hook: self.hook }
    }
}

/// The outcome that a sequence of actions stands for: fatal, with the
/// diagnostic of the last action, where that action is an abort; started
/// otherwise.
pub open spec fn outcome_of(actions: Seq<ActionView>) -> OutcomeView {
    if actions.len() > 0 && actions.last() is Abort {
        OutcomeView::Fatal(actions.last()->Abort_0)
    } else {
        OutcomeView::Started
    }
}

/// How many of the actions adjust the presentation of a window.
pub open spec fn adjustments(actions: Seq<ActionView>) -> nat
    decreases actions.len(),
{
    if actions.len() == 0 {
        0
    } else {
        adjustments(actions.drop_last()) + if actions.last().is_adjustment() {
            1nat
        } else {
            0nat
        }
    }
}

impl RunReportView {
    pub open spec fn outcome(self) -> OutcomeView {
        outcome_of(self.actions)
    }

    /// How often the host runtime has entered the setup hook.
    pub open spec fn hook_invocations(self) -> nat {
        match self.hook {
            Some(hook) => hook.spec_invocations(),
            None => 0,
        }
    }
}

impl RunReport {
    pub fn outcome(&self) -> (outcome: Outcome)
        ensures
            outcome@ == self@.outcome(),
    {
        let n: usize = self.actions.len();
        if n == 0 {
            return Outcome::Started;
        }
        assert(self@.actions.last() == self.actions@[n - 1]@);
        match &self.actions[n - 1] {
            Action::Abort(diagnostic) => Outcome::Fatal(diagnostic.clone()),
            _ => Outcome::Started,
        }
    }

    pub fn hook_invocations(&self) -> (n: usize)
        ensures
            n == self@.hook_invocations(),
    {
        match &self.hook {
            Some(hook) => hook.invocations(),
            None => 0,
        }
    }

    /// Counts the actions that adjust the presentation of a window.
    pub fn adjustments(&self) -> (n: usize)
        ensures
            n == adjustments(self@.actions),
    {
        let mut n: usize = 0;
        let mut i: usize = 0;
        assert(self@.actions.take(0) =~= Seq::<ActionView>::empty());
        while i < self.actions.len()
            invariant
                0 <= i <= self.actions.len(),
                n <= i,
                n == adjustments(self@.actions.take(i as int)),
            decreases self.actions.len() - i,
        {
            assert(self@.actions.take(i + 1).drop_last() =~= self@.actions.take(i as int));
            assert(self@.actions.take(i + 1).last() == self.actions@[i as int]@);
            if self.actions[i].is_adjustment() {
                n += 1;
            }
            i += 1;
        }
        assert(self@.actions.take(i as int) =~= self@.actions);
        n
    }
}

/// A whole startup with `configuration` against `host`, said directly.
///
/// The startup plan comes first. A host runtime that cannot be brought up
/// ends the process there, before the setup hook is entered. Otherwise the
/// host runtime builds its windows and enters the hook, once, however many
/// windows there are.
pub open spec fn spec_launch(configuration: ConfigurationView, host: HostView) -> RunReportView {
    let plan = spec_startup_plan(configuration);
    let fresh = match configuration.adapter {
        Some(adapter) => Some(SetupHook::spec_new(adapter)),
        None => None,
    };
    match host.launch_error {
        Some(detail) => RunReportView {
            actions: plan.push(ActionView::Abort(message::launch_failed_text(detail))),
            hook: fresh,
        },
        None => match configuration.adapter {
            Some(adapter) => RunReportView {
                actions: plan + hook_trace(adapter, host),
                hook: Some(hook_end(adapter, host)),
            },
            None => RunReportView { actions: plan, hook: None },
        },
    }
}

/// A whole startup on `target` with the standard configuration.
pub open spec fn spec_run(host: HostView, target: TargetOs) -> RunReportView {
    spec_launch(ConfigurationView::standard(target), host)
}

/// Starts the application that `configuration` describes against `host`.
pub fn launch(configuration: &ApplicationConfiguration, host: &Host) -> (report: RunReport)
    ensures
        report@ == spec_launch(configuration@, host@),
{
    let mut actions = startup_plan(configuration);
    let ghost plan = actions.deep_view();
    let fresh = configuration.setup_hook();
    match &host.launch_error {
        Some(detail) => {
            actions.push(Action::Abort(message::launch_failed(detail.as_str())));
            assert(actions.deep_view() =~= plan.push(
                ActionView::Abort(message::launch_failed_text(detail@)),
            ));
            RunReport { actions, hook: fresh }
        },
        None => match fresh {
            Some(hook) => {
                let mut run = drive(hook, host);
                proof {
                    lemma_drive_gives_hook_trace(hook.adapter, host@);
                }
                let ghost driven = run.actions.deep_view();
                actions.append(&mut run.actions);
                assert(actions.deep_view() =~= plan + driven);
                RunReport { actions, hook: Some(run.hook) }
            },
            None => RunReport { actions, hook: None },
        },
    }
}

impl Builder {
    /// Closes the builder and starts the application against `host`.
    pub fn run(self, host: &Host) -> (report: RunReport)
        ensures
            report@ == spec_launch(self@, host@),
    {
        let configuration = self.build();
        launch(&configuration, host)
    }
}

/// Starts the shell on `target` against `host`: the standard configuration,
/// the startup plan, and the setup hook.
pub fn run(host: &Host, target: TargetOs) -> (report: RunReport)
    ensures
        report@ == spec_run(host@, target),
{
    let configuration = configuration(target);
    launch(&configuration, host)
}

} // verus!
