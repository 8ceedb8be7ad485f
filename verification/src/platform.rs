//! Target platforms and the presentation adapter chosen for each.

use crate::action::{Action, ActionView};
use vstd::prelude::*;

verus! {

/// An operating system the shell can be built for.
#[derive(Clone, Copy, Debug, PartialEq, Eq, Structural)]
pub enum TargetOs {
    Windows,
    MacOs,
    Linux,
    Ios,
    Android,
}

/// The presentation adapter that is compiled into a build.
///
/// `Shadow` draws the window shadow; `Null` has no effect at all.
#[derive(Clone, Copy, Debug, PartialEq, Eq, Structural)]
pub enum PlatformAdapter {
    Null,
    Shadow,
}

impl TargetOs {
    /// The one target on which the window shadow is adjusted.
    pub open spec fn is_shadow_target(self) -> bool {
        self == TargetOs::Windows
    }
}

impl PlatformAdapter {
    /// The adapter that belongs to a target: `Shadow` on the shadow target,
    /// `Null` everywhere else.
    pub open spec fn spec_for_target(os: TargetOs) -> PlatformAdapter {
        if os.is_shadow_target() {
            PlatformAdapter::Shadow
        } else {
            PlatformAdapter::Null
        }
    }

    #[verifier::when_used_as_spec(spec_for_target)]
    pub fn for_target(os: TargetOs) -> (adapter: PlatformAdapter)
        ensures
            adapter == Self::spec_for_target(os),
    {
        match os {
            TargetOs::Windows => PlatformAdapter::Shadow,
            _ => PlatformAdapter::Null,
        }
    }

    /// Whether this adapter touches the window at all.
    pub open spec fn spec_adjusts(self) -> bool {
        self == PlatformAdapter::Shadow
    }

    #[verifier::when_used_as_spec(spec_adjusts)]
    pub fn adjusts(self) -> (b: bool)
        ensures
            b == self.spec_adjusts(),
    {
        match self {
            PlatformAdapter::Shadow => true,
            PlatformAdapter::Null => false,
        }
    }

    /// What the adapter asks for on the window with `label`: the shadow, or
    /// nothing at all.
    pub open spec fn spec_apply_shadow(self, label: Seq<char>) -> Option<ActionView> {
        if self.spec_adjusts() {
            Some(ActionView::ApplyShadow(label))
        } else {
            None
        }
    }

    /// Applies the adapter to the window with `label`.
    ///
    /// The adjustment is cosmetic. It has no result: whoever carries it out
    /// drops a failure of the platform call, and the startup goes on either
    /// way.
    pub fn apply_shadow(self, label: String) -> (action: Option<Action>)
        ensures
            action.deep_view() == self.spec_apply_shadow(label@),
    {
        match self {
            PlatformAdapter::Shadow => Some(Action::ApplyShadow(label)),
            PlatformAdapter::Null => None,
        }
    }
}

} // verus!
