//! A host runtime as the shell meets it.
//!
//! [`Host`] records what a host runtime presents at startup: whether it came
//! up at all, which windows it has built, and what each window answers when
//! it is asked for its title. It answers the actions of the setup hook the
//! way a live host runtime does, which makes a whole startup replayable
//! without a windowing system.

use crate::action::{Action, ActionView};
use crate::hook::{HookEvent, HookEventView};
use vstd::prelude::*;
use vstd::string::StringExecFns;

verus! {

/// One window of the host runtime.
#[derive(Clone, Debug, PartialEq, Eq)]
pub struct Window {
    /// The label under which the host runtime knows the window.
    pub label: String,
    /// What the title lookup returns: the title, or `None` where it fails.
    pub title: Option<String>,
}

/// A [`Window`] with its texts as sequences of characters.
pub struct WindowView {
    pub label: Seq<char>,
    pub title: Option<Seq<char>>,
}

impl View for Window {
    type V = WindowView;

    open spec fn view(&self) -> WindowView {
        WindowView { label: self.label@, title: self.title.deep_view() }
    }
}

impl DeepView for Window {
    type V = WindowView;

    open spec fn deep_view(&self) -> WindowView {
        self@
    }
}

/// The host runtime at startup.
#[derive(Clone, Debug, PartialEq, Eq)]
pub struct Host {
    /// The windows that the host runtime has built, in the order in which it
    /// searches them.
    pub windows: Vec<Window>,
    /// Why the host runtime could not be brought up, if it could not.
    pub launch_error: Option<String>,
}

/// A [`Host`] with its texts as sequences of characters.
pub struct HostView {
    pub windows: Seq<WindowView>,
    pub launch_error: Option<Seq<char>>,
}

impl View for Host {
    type V = HostView;

    open spec fn view(&self) -> HostView {
        HostView {
            windows: self.windows.deep_view(),
            launch_error: self.launch_error.deep_view(),
        }
    }
}

/// Whether `i` is the place of the first window that carries `label`.
pub open spec fn is_first_labelled(windows: Seq<WindowView>, label: Seq<char>, i: int) -> bool {
    &&& 0 <= i < windows.len()
    &&& windows[i].label == label
    &&& forall|j: int| 0 <= j < i ==> (#[trigger] windows[j]).label != label
}

/// The place of the first window that carries `label`, if any window does.
pub open spec fn first_labelled(windows: Seq<WindowView>, label: Seq<char>) -> Option<int> {
    if exists|i: int| is_first_labelled(windows, label, i) {
        Some(choose|i: int| is_first_labelled(windows, label, i))
    } else {
        None
    }
}

/// At most one place is the first one: a place that is known to be the first
/// is what [`first_labelled`] gives.
pub proof fn lemma_first_labelled_is(windows: Seq<WindowView>, label: Seq<char>, i: int)
    requires
        is_first_labelled(windows, label, i),
    ensures
        first_labelled(windows, label) == Some(i),
{
    let k = choose|k: int| is_first_labelled(windows, label, k);
    assert(is_first_labelled(windows, label, k));
    if k < i {
        assert(windows[k].label != label);
    }
    if i < k {
        assert(windows[i].label != label);
    }
}

/// Where no window carries `label`, [`first_labelled`] gives nothing.
pub proof fn lemma_first_labelled_none(windows: Seq<WindowView>, label: Seq<char>)
    requires
        forall|j: int| 0 <= j < windows.len() ==> (#[trigger] windows[j]).label != label,
    ensures
        first_labelled(windows, label) is None,
{
}

impl HostView {
    /// The title lookup on the first window that carries `label`. A window
    /// that does not exist has no title to give.
    pub open spec fn title_of(self, label: Seq<char>) -> Option<Seq<char>> {
        match first_labelled(self.windows, label) {
            Some(i) => self.windows[i].title,
            None => None,
        }
    }

    /// The event with which the host runtime answers an action of the setup
    /// hook. `None` for the two actions that end the hook, and for the
    /// actions that are not part of the hook.
    pub open spec fn spec_answer(self, action: ActionView) -> Option<HookEventView> {
        match action {
            ActionView::Log(_) => Some(HookEventView::Done),
            ActionView::ApplyShadow(_) => Some(HookEventView::Done),
            ActionView::ResolveWindow(label) => Some(
                if first_labelled(self.windows, label) is Some {
                    HookEventView::WindowResolved
                } else {
                    HookEventView::WindowMissing
                },
            ),
            ActionView::ReadTitle(label) => Some(HookEventView::Title(self.title_of(label))),
            _ => None,
        }
    }
}

impl Host {
    /// A host runtime that came up with these windows.
    pub fn with_windows(windows: Vec<Window>) -> (host: Host)
        ensures
            host.windows == windows,
            host.launch_error is None,
    {
        Host { windows, launch_error: None }
    }

    /// A host runtime that could not be brought up.
    pub fn failing(detail: String) -> (host: Host)
        ensures
            host.windows@.len() == 0,
            host.launch_error == Some(detail),
    {
        Host { windows: Vec::new(), launch_error: Some(detail) }
    }

    /// Looks up the first window that carries `label`.
    pub fn find_window(&self, label: &str) -> (found: Option<usize>)
        ensures
            match found {
                Some(i) => first_labelled(self@.windows, label@) == Some(i as int),
                None => first_labelled(self@.windows, label@) is None,
            },
    {
        let wanted = String::from_str(label);
        let mut i: usize = 0;
        while i < self.windows.len()
            invariant
                0 <= i <= self.windows.len(),
                wanted@ == label@,
                forall|j: int| 0 <= j < i ==> (#[trigger] self@.windows[j]).label != label@,
            decreases self.windows.len() - i,
        {
            if self.windows[i].label == wanted {
                proof {
                    assert(self@.windows[i as int].label == label@);
                    lemma_first_labelled_is(self@.windows, label@, i as int);
                }
                return Some(i);
            }
            assert(self@.windows[i as int].label != label@);
            i += 1;
        }
        proof {
            lemma_first_labelled_none(self@.windows, label@);
        }
        None
    }

    /// Reads the title of the first window that carries `label`.
    pub fn title_of(&self, label: &str) -> (title: Option<String>)
        ensures
            title.deep_view() == self@.title_of(label@),
    {
        match self.find_window(label) {
            Some(i) => match &self.windows[i].title {
                Some(t) => Some(t.clone()),
                None => None,
            },
            None => None,
        }
    }

    /// Answers one action of the setup hook.
    pub fn answer(&self, action: &Action) -> (reply: Option<HookEvent>)
        ensures
            match reply {
                Some(event) => self@.spec_answer(action@) == Some(event@),
                None => self@.spec_answer(action@) is None,
            },
    {
        match action {
            Action::Log(_) => Some(HookEvent::Done),
            Action::ApplyShadow(_) => Some(HookEvent::Done),
            Action::ResolveWindow(label) => match self.find_window(label.as_str()) {
                Some(_) => Some(HookEvent::WindowResolved),
                None => Some(HookEvent::WindowMissing),
            },
            Action::ReadTitle(label) => Some(HookEvent::Title(self.title_of(label.as_str()))),
            _ => None,
        }
    }
}

} // verus!
