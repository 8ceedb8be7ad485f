//! What the shell asks its surroundings to do.
//!
//! The library performs no effect itself. It hands out actions, one at a
//! time and in the order in which they are to be carried out; whoever drives
//! it performs each action and reports back what came of it.

use crate::capability::Capability;
use vstd::prelude::*;

verus! {

/// One effect to be carried out on behalf of the shell.
#[derive(Clone, Debug, PartialEq, Eq)]
pub enum Action {
    /// Bring up the process-wide diagnostic sink.
    InitLogging,
    /// Write one line to the diagnostic sink.
    Log(String),
    /// Attach one capability module to the host runtime's builder.
    Register(Capability),
    /// Attach the setup hook to the host runtime's builder.
    AttachSetupHook,
    /// Hand control to the host runtime.
    Launch,
    /// Look up the window with this label.
    ResolveWindow(String),
    /// Apply the window shadow to the window with this label.
    ApplyShadow(String),
    /// Read the display title of the window with this label.
    ReadTitle(String),
    /// Return from the setup hook and let the run loop proceed.
    CompleteSetup,
    /// Terminate the process with a non-zero status and this diagnostic.
    Abort(String),
}

/// An [`Action`] with its texts as sequences of characters.
pub enum ActionView {
    InitLogging,
    Log(Seq<char>),
    Register(Capability),
    AttachSetupHook,
    Launch,
    ResolveWindow(Seq<char>),
    ApplyShadow(Seq<char>),
    ReadTitle(Seq<char>),
    CompleteSetup,
    Abort(Seq<char>),
}

impl View for Action {
    type V = ActionView;

    open spec fn view(&self) -> ActionView {
        match self {
            Action::InitLogging => ActionView::InitLogging,
            Action::Log(line) => ActionView::Log(line@),
            Action::Register(capability) => ActionView::Register(*capability),
            Action::AttachSetupHook => ActionView::AttachSetupHook,
            Action::Launch => ActionView::Launch,
            Action::ResolveWindow(label) => ActionView::ResolveWindow(label@),
            Action::ApplyShadow(label) => ActionView::ApplyShadow(label@),
            Action::ReadTitle(label) => ActionView::ReadTitle(label@),
            Action::CompleteSetup => ActionView::CompleteSetup,
            Action::Abort(diagnostic) => ActionView::Abort(diagnostic@),
        }
    }
}

impl DeepView for Action {
    type V = ActionView;

    open spec fn deep_view(&self) -> ActionView {
        self@
    }
}

impl ActionView {
    /// Whether the action touches the presentation of a window.
    pub open spec fn is_adjustment(self) -> bool {
        self is ApplyShadow
    }
}

impl Action {
    pub fn is_adjustment(&self) -> (b: bool)
        ensures
            b == self@.is_adjustment(),
    {
        match self {
            Action::ApplyShadow(_) => true,
            _ => false,
        }
    }
}

} // verus!
