//! The setup hook: the one-shot routine that the host runtime enters after it
//! has built its windows and before its run loop dispatches events.
//!
//! The hook is written as a state machine. Each step takes what the driver
//! reports about the previous action and answers with the next action. The
//! hook resolves the primary window, lets the platform adapter adjust it,
//! reports the window's title and returns. A primary window that cannot be
//! resolved is fatal; a title that cannot be read is not.

use crate::action::{Action, ActionView};
use crate::message;
use crate::platform::PlatformAdapter;
use vstd::prelude::*;

verus! {

/// Where the hook stands, as the host runtime sees it.
#[derive(Clone, Copy, Debug, PartialEq, Eq, Structural)]
pub enum Lifecycle {
    NotStarted,
    Running,
    Completed,
}

/// Where the hook stands, action by action.
#[derive(Clone, Copy, Debug, PartialEq, Eq, Structural)]
pub enum HookPhase {
    /// The host runtime has not entered the hook.
    NotStarted,
    /// The entry line is being written.
    Announcing,
    /// The primary window is being looked up.
    Resolving,
    /// The platform adapter is adjusting the window.
    Adjusting,
    /// The window's title is being read.
    ReadingTitle,
    /// The readiness line is being written.
    Reporting,
    /// The hook has returned successfully.
    Completed,
    /// The hook has asked for the process to be terminated.
    Aborted,
}

/// What the driver reports to the hook.
#[derive(Clone, Debug, PartialEq, Eq)]
pub enum HookEvent {
    /// The host runtime enters the hook.
    Invoked,
    /// The previous action was carried out; it has no result.
    Done,
    /// The window that was looked up exists.
    WindowResolved,
    /// The window that was looked up does not exist.
    WindowMissing,
    /// The title lookup returned: the title, or `None` where it failed.
    Title(Option<String>),
}

/// A [`HookEvent`] with its text as a sequence of characters.
pub enum HookEventView {
    Invoked,
    Done,
    WindowResolved,
    WindowMissing,
    Title(Option<Seq<char>>),
}

impl View for HookEvent {
    type V = HookEventView;

    open spec fn view(&self) -> HookEventView {
        match self {
            HookEvent::Invoked => HookEventView::Invoked,
            HookEvent::Done => HookEventView::Done,
            HookEvent::WindowResolved => HookEventView::WindowResolved,
            HookEvent::WindowMissing => HookEventView::WindowMissing,
            HookEvent::Title(title) => HookEventView::Title(title.deep_view()),
        }
    }
}

/// Why the hook refused an event. A refused event changes nothing.
#[derive(Clone, Copy, Debug, PartialEq, Eq, Structural)]
pub enum HookError {
    /// The host runtime tried to enter the hook a second time.
    AlreadyInvoked,
    /// The event does not answer the action that the hook is waiting on.
    OutOfOrder,
}

/// The setup hook of one process.
#[derive(Clone, Copy, Debug, PartialEq, Eq, Structural)]
pub struct SetupHook {
    pub phase: HookPhase,
    pub adapter: PlatformAdapter,
}

impl HookPhase {
    pub open spec fn spec_lifecycle(self) -> Lifecycle {
        match self {
            HookPhase::NotStarted => Lifecycle::NotStarted,
            HookPhase::Completed => Lifecycle::Completed,
            _ => Lifecycle::Running,
        }
    }

    /// The coarse state of a phase. A hook that has aborted never left the
    /// running state: the process ends there.
    #[verifier::when_used_as_spec(spec_lifecycle)]
    pub fn lifecycle(self) -> (l: Lifecycle)
        ensures
            l == self.spec_lifecycle(),
    {
        match self {
            HookPhase::NotStarted => Lifecycle::NotStarted,
            HookPhase::Completed => Lifecycle::Completed,
            _ => Lifecycle::Running,
        }
    }

    /// Whether the hook hands out no further action from this phase.
    pub open spec fn spec_is_terminal(self) -> bool {
        self == HookPhase::Completed || self == HookPhase::Aborted
    }

    #[verifier::when_used_as_spec(spec_is_terminal)]
    pub fn is_terminal(self) -> (b: bool)
        ensures
            b == self.spec_is_terminal(),
    {
        match self {
            HookPhase::Completed => true,
            HookPhase::Aborted => true,
            _ => false,
        }
    }

    /// An upper bound on the number of actions that the hook can still hand
    /// out from this phase.
    pub open spec fn remaining(self) -> nat {
        match self {
            HookPhase::NotStarted => 7,
            HookPhase::Announcing => 6,
            HookPhase::Resolving => 5,
            HookPhase::Adjusting => 4,
            HookPhase::ReadingTitle => 3,
            HookPhase::Reporting => 2,
            HookPhase::Completed => 0,
            HookPhase::Aborted => 0,
        }
    }
}

impl Lifecycle {
    /// Position in the order `NotStarted`, `Running`, `Completed`.
    pub open spec fn rank(self) -> nat {
        match self {
            Lifecycle::NotStarted => 0,
            Lifecycle::Running => 1,
            Lifecycle::Completed => 2,
        }
    }
}

impl SetupHook {
    /// The hook before the host runtime has entered it.
    pub open spec fn spec_new(adapter: PlatformAdapter) -> SetupHook {
        SetupHook { phase: HookPhase::NotStarted, adapter }
    }

    #[verifier::when_used_as_spec(spec_new)]
    pub fn new(adapter: PlatformAdapter) -> (hook: SetupHook)
        ensures
            hook == Self::spec_new(adapter),
    {
        SetupHook { phase: HookPhase::NotStarted, adapter }
    }

    /// The hook in another phase, with the same adapter.
    pub open spec fn at(self, phase: HookPhase) -> SetupHook {
        SetupHook { phase, adapter: self.adapter }
    }

    /// The action with which the hook answers `event`: defined where the
    /// event is the one that the current phase waits on.
    pub open spec fn spec_action(self, event: HookEventView) -> Option<ActionView> {
        match (self.phase, event) {
            (HookPhase::NotStarted, HookEventView::Invoked) => Some(
                ActionView::Log(message::setup_complete_text()),
            ),
            (HookPhase::Announcing, HookEventView::Done) => Some(
                ActionView::ResolveWindow(message::primary_label_text()),
            ),
            (HookPhase::Resolving, HookEventView::WindowResolved) => Some(
                match self.adapter.spec_apply_shadow(message::primary_label_text()) {
                    Some(adjustment) => adjustment,
                    None => ActionView::ReadTitle(message::primary_label_text()),
                },
            ),
            (HookPhase::Resolving, HookEventView::WindowMissing) => Some(
                ActionView::Abort(message::missing_window_text(message::primary_label_text())),
            ),
            (HookPhase::Adjusting, HookEventView::Done) => Some(
                ActionView::ReadTitle(message::primary_label_text()),
            ),
            (HookPhase::ReadingTitle, HookEventView::Title(title)) => Some(
                ActionView::Log(message::window_initialized_text(message::title_or_empty(title))),
            ),
            (HookPhase::Reporting, HookEventView::Done) => Some(ActionView::CompleteSetup),
            _ => None,
        }
    }

    /// The phase that follows when `event` is accepted.
    pub open spec fn spec_next_phase(self, event: HookEventView) -> HookPhase {
        match (self.phase, event) {
            (HookPhase::NotStarted, HookEventView::Invoked) => HookPhase::Announcing,
            (HookPhase::Announcing, HookEventView::Done) => HookPhase::Resolving,
            (HookPhase::Resolving, HookEventView::WindowResolved) => if self.adapter.spec_adjusts() {
                HookPhase::Adjusting
            } else {
                HookPhase::ReadingTitle
            },
            (HookPhase::Resolving, HookEventView::WindowMissing) => HookPhase::Aborted,
            (HookPhase::Adjusting, HookEventView::Done) => HookPhase::ReadingTitle,
            (HookPhase::ReadingTitle, HookEventView::Title(_)) => HookPhase::Reporting,
            (HookPhase::Reporting, HookEventView::Done) => HookPhase::Completed,
            _ => self.phase,
        }
    }

    /// The error with which the hook refuses an event that it does not accept.
    pub open spec fn spec_refusal(self, event: HookEventView) -> HookError {
        if event is Invoked {
            HookError::AlreadyInvoked
        } else {
            HookError::OutOfOrder
        }
    }

    /// One step of the hook: the state after `event`, and the action handed
    /// out or the reason for refusing the event.
    pub open spec fn spec_step(self, event: HookEventView) -> (SetupHook, Result<
        ActionView,
        HookError,
    >) {
        match self.spec_action(event) {
            Some(action) => (self.at(self.spec_next_phase(event)), Ok(action)),
            None => (self, Err(self.spec_refusal(event))),
        }
    }

    /// How often the host runtime has entered the hook.
    pub open spec fn spec_invocations(self) -> nat {
        if self.phase == HookPhase::NotStarted {
            0
        } else {
            1
        }
    }

    pub fn invocations(&self) -> (n: usize)
        ensures
            n == self.spec_invocations(),
    {
        match self.phase {
            HookPhase::NotStarted => 0,
            _ => 1,
        }
    }

    /// Takes one event and answers with the next action.
    ///
    /// An event that the current phase does not wait on is refused and leaves
    /// the hook as it was: `AlreadyInvoked` for a second entry, `OutOfOrder`
    /// for anything else.
    pub fn step(&mut self, event: HookEvent) -> (result: Result<Action, HookError>)
        ensures
            *final(self) == old(self).spec_step(event@).0,
            match result {
                Ok(action) => old(self).spec_step(event@).1 == Ok::<ActionView, HookError>(
                    action@,
                ),
                Err(error) => old(self).spec_step(event@).1 == Err::<ActionView, HookError>(
                    error,
                ),
            },
    {
        match self.phase {
            HookPhase::NotStarted => match event {
                HookEvent::Invoked => {
                    self.phase = HookPhase::Announcing;
                    Ok(Action::Log(message::setup_complete()))
                },
                _ => Err(HookError::OutOfOrder),
            },
            HookPhase::Announcing => match event {
                HookEvent::Done => {
                    self.phase = HookPhase::Resolving;
                    Ok(Action::ResolveWindow(message::primary_label()))
                },
                HookEvent::Invoked => Err(HookError::AlreadyInvoked),
                _ => Err(HookError::OutOfOrder),
            },
            HookPhase::Resolving => match event {
                HookEvent::WindowResolved => {
                    match self.adapter.apply_shadow(message::primary_label()) {
                        Some(adjustment) => {
                            self.phase = HookPhase::Adjusting;
                            Ok(adjustment)
                        },
                        None => {
                            self.phase = HookPhase::ReadingTitle;
                            Ok(Action::ReadTitle(message::primary_label()))
                        },
                    }
                },
                HookEvent::WindowMissing => {
                    self.phase = HookPhase::Aborted;
                    let label = message::primary_label();
                    Ok(Action::Abort(message::missing_window(label.as_str())))
                },
                HookEvent::Invoked => Err(HookError::AlreadyInvoked),
                _ => Err(HookError::OutOfOrder),
            },
            HookPhase::Adjusting => match event {
                HookEvent::Done => {
                    self.phase = HookPhase::ReadingTitle;
                    Ok(Action::ReadTitle(message::primary_label()))
                },
                HookEvent::Invoked => Err(HookError::AlreadyInvoked),
                _ => Err(HookError::OutOfOrder),
            },
            HookPhase::ReadingTitle => match event {
                HookEvent::Title(title) => {
                    self.phase = HookPhase::Reporting;
                    Ok(Action::Log(message::window_initialized(title)))
                },
                HookEvent::Invoked => Err(HookError::AlreadyInvoked),
                _ => Err(HookError::OutOfOrder),
            },
            HookPhase::Reporting => match event {
                HookEvent::Done => {
                    self.phase = HookPhase::Completed;
                    Ok(Action::CompleteSetup)
                },
                HookEvent::Invoked => Err(HookError::AlreadyInvoked),
                _ => Err(HookError::OutOfOrder),
            },
            HookPhase::Completed => match event {
                HookEvent::Invoked => Err(HookError::AlreadyInvoked),
                _ => Err(HookError::OutOfOrder),
            },
            HookPhase::Aborted => match event {
                HookEvent::Invoked => Err(HookError::AlreadyInvoked),
                _ => Err(HookError::OutOfOrder),
            },
        }
    }
}

impl SetupHook {
    /// The hook after a whole sequence of events, refused events included.
    pub open spec fn replay(self, events: Seq<HookEventView>) -> SetupHook
        decreases events.len(),
    {
        if events.len() == 0 {
            self
        } else {
            self.replay(events.drop_last()).spec_step(events.last()).0
        }
    }

    /// How many of the `Invoked` events in `events` the hook accepts.
    pub open spec fn entries(self, events: Seq<HookEventView>) -> nat
        decreases events.len(),
    {
        if events.len() == 0 {
            0
        } else {
            self.entries(events.drop_last()) + if events.last() is Invoked && self.replay(
                events.drop_last(),
            ).spec_step(events.last()).1 is Ok {
                1nat
            } else {
                0nat
            }
        }
    }
}

/// A step never goes back: the lifecycle moves only from `NotStarted` to
/// `Running` to `Completed`. An accepted event brings the hook strictly
/// closer to its end; a refused event changes nothing; the adapter stays the
/// one the hook was built with; and a hook that has completed or aborted
/// refuses every event.
pub proof fn lemma_step_advances(hook: SetupHook, event: HookEventView)
    ensures
        hook.spec_step(event).0.adapter == hook.adapter,
        hook.spec_step(event).1 is Err ==> hook.spec_step(event).0 == hook,
        hook.spec_step(event).1 is Ok ==> hook.spec_step(event).0.phase.remaining()
            < hook.phase.remaining(),
        hook.phase.spec_lifecycle().rank() <= hook.spec_step(
            event,
        ).0.phase.spec_lifecycle().rank(),
        hook.phase.spec_is_terminal() ==> hook.spec_step(event).1 is Err,
{
}

/// The host runtime enters the hook only from `NotStarted`: `Invoked` is
/// accepted there and refused as `AlreadyInvoked` in every other phase.
pub proof fn lemma_entry_only_from_not_started(hook: SetupHook)
    ensures
        hook.phase == HookPhase::NotStarted ==> hook.spec_step(HookEventView::Invoked).1 is Ok,
        hook.phase != HookPhase::NotStarted ==> hook.spec_step(HookEventView::Invoked) == (
            hook,
            Err::<ActionView, HookError>(HookError::AlreadyInvoked),
        ),
{
}

/// Whatever events arrive, in whatever order and number, the hook is entered
/// at most once, and its state keeps count: the entries accepted so far are
/// those it had before plus those accepted from `events`.
pub proof fn lemma_entered_at_most_once(hook: SetupHook, events: Seq<HookEventView>)
    ensures
        hook.spec_invocations() + hook.entries(events) == hook.replay(events).spec_invocations(),
        hook.entries(events) <= 1,
    decreases events.len(),
{
    if events.len() > 0 {
        lemma_entered_at_most_once(hook, events.drop_last());
    }
}

/// The hook asks for the adjustment in one situation only: it was built with
/// the shadow adapter, it is resolving the primary window, and the window has
/// just been resolved. So no adjustment is asked for without a resolved
/// window, and none at all by a hook built with the null adapter.
pub proof fn lemma_adjustment_needs_resolved_window(hook: SetupHook, event: HookEventView)
    requires
        hook.spec_action(event) is Some,
        hook.spec_action(event).unwrap().is_adjustment(),
    ensures
        hook.adapter == PlatformAdapter::Shadow,
        hook.phase == HookPhase::Resolving,
        event == HookEventView::WindowResolved,
{
}

/// A primary window that is missing is fatal: the hook answers with the
/// abort that names the label, and from then on refuses every event.
pub proof fn lemma_missing_window_aborts(hook: SetupHook, later: HookEventView)
    requires
        hook.phase == HookPhase::Resolving,
    ensures
        hook.spec_step(HookEventView::WindowMissing) == (
            hook.at(HookPhase::Aborted),
            Ok::<ActionView, HookError>(
                ActionView::Abort(message::missing_window_text(message::primary_label_text())),
            ),
        ),
        hook.at(HookPhase::Aborted).spec_step(later).1 is Err,
        hook.at(HookPhase::Aborted).spec_step(later).0 == hook.at(HookPhase::Aborted),
{
}

/// A title that cannot be read is not fatal: the readiness line is written
/// with an empty title, and the hook completes on the next step.
pub proof fn lemma_title_failure_is_soft(hook: SetupHook)
    requires
        hook.phase == HookPhase::ReadingTitle,
    ensures
        hook.spec_step(HookEventView::Title(None)) == (
            hook.at(HookPhase::Reporting),
            Ok::<ActionView, HookError>(
                ActionView::Log(message::window_initialized_text(Seq::empty())),
            ),
        ),
        message::window_initialized_text(Seq::empty()) == "Window initialized: "@,
        hook.at(HookPhase::Reporting).spec_step(HookEventView::Done) == (
            hook.at(HookPhase::Completed),
            Ok::<ActionView, HookError>(ActionView::CompleteSetup),
        ),
{
    assert("Window initialized: "@ + Seq::<char>::empty() =~= "Window initialized: "@);
}

} // verus!
