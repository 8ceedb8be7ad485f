//! The application builder and the configuration it accumulates.
//!
//! A [`Builder`] collects the capability modules and the setup hook. Once
//! built, the [`ApplicationConfiguration`] is handed to the host runtime and
//! is not changed again: it offers no operation that would change it.

use crate::capability::{all, registry, Capability};
use crate::hook::SetupHook;
use crate::platform::{PlatformAdapter, TargetOs};
use vstd::prelude::*;

verus! {

/// What a builder or a configuration holds.
pub struct ConfigurationView {
    /// The registered capability modules, in registration order.
    pub capabilities: Seq<Capability>,
    /// The adapter of the attached setup hook; `None` where no hook is
    /// attached.
    pub adapter: Option<PlatformAdapter>,
}

/// Accumulates the configuration of the application.
#[derive(Debug)]
pub struct Builder {
    capabilities: Vec<Capability>,
    adapter: Option<PlatformAdapter>,
}

/// The finished configuration of the application.
#[derive(Debug)]
pub struct ApplicationConfiguration {
    capabilities: Vec<Capability>,
    adapter: Option<PlatformAdapter>,
}

impl View for Builder {
    type V = ConfigurationView;

    closed spec fn view(&self) -> ConfigurationView {
        ConfigurationView { capabilities: self.capabilities@, adapter: self.adapter }
    }
}

impl View for ApplicationConfiguration {
    type V = ConfigurationView;

    closed spec fn view(&self) -> ConfigurationView {
        ConfigurationView { capabilities: self.capabilities@, adapter: self.adapter }
    }
}

impl ConfigurationView {
    /// The configuration of a fresh builder: no module, no hook.
    pub open spec fn empty() -> ConfigurationView {
        ConfigurationView { capabilities: Seq::empty(), adapter: None }
    }

    /// The configuration after the whole registry has been registered. A
    /// module replaces an earlier entry with the same name, so whatever was
    /// registered before, the entries are then those of the registry, in its
    /// order.
    pub open spec fn register_all(self) -> ConfigurationView {
        ConfigurationView { capabilities: registry(), adapter: self.adapter }
    }

    /// The configuration after a setup hook with `adapter` has been attached.
    /// There is one hook: attaching another replaces it.
    pub open spec fn with_setup_hook(self, adapter: PlatformAdapter) -> ConfigurationView {
        ConfigurationView { capabilities: self.capabilities, adapter: Some(adapter) }
    }

    /// The configuration with which the shell starts on `target`.
    pub open spec fn standard(target: TargetOs) -> ConfigurationView {
        Self::empty().register_all().with_setup_hook(PlatformAdapter::spec_for_target(target))
    }
}

impl Builder {
    pub fn new() -> (builder: Builder)
        ensures
            builder@ == ConfigurationView::empty(),
    {
        Builder { capabilities: Vec::new(), adapter: None }
    }

    /// Attaches the setup hook, built with `adapter`.
    pub fn with_setup_hook(self, adapter: PlatformAdapter) -> (builder: Builder)
        ensures
            builder@ == self@.with_setup_hook(adapter),
    {
        Builder { capabilities: self.capabilities, adapter: Some(adapter) }
    }

    /// Closes the builder.
    pub fn build(self) -> (configuration: ApplicationConfiguration)
        ensures
            configuration@ == self@,
    {
        ApplicationConfiguration { capabilities: self.capabilities, adapter: self.adapter }
    }
}

/// Registers every module of the registry with `builder`, in registry order.
pub fn register_all(builder: Builder) -> (registered: Builder)
    ensures
        registered@ == builder@.register_all(),
{
    Builder { capabilities: all(), adapter: builder.adapter }
}

/// The configuration with which the shell starts on `target`: the whole
/// registry, and a setup hook with the adapter of that target.
pub fn configuration(target: TargetOs) -> (configuration: ApplicationConfiguration)
    ensures
        configuration@ == ConfigurationView::standard(target),
{
    register_all(Builder::new()).with_setup_hook(PlatformAdapter::for_target(target)).build()
}

impl ApplicationConfiguration {
    /// The registered capability modules, in registration order.
    pub fn capabilities(&self) -> (capabilities: &Vec<Capability>)
        ensures
            capabilities@ == self@.capabilities,
    {
        &self.capabilities
    }

    /// The setup hook as it stands before the host runtime enters it, if one
    /// is attached.
    pub fn setup_hook(&self) -> (hook: Option<SetupHook>)
        ensures
            hook == match self@.adapter {
                Some(adapter) => Some(SetupHook::spec_new(adapter)),
                None => None,
            },
    {
        match self.adapter {
            Some(adapter) => Some(SetupHook::new(adapter)),
            None => None,
        }
    }
}

/// Registration does not depend on the builder it starts from: any two
/// builders end up with the same entries in the same order, those of the
/// registry, and no entry occurs twice.
pub proof fn lemma_registration_is_deterministic(a: ConfigurationView, b: ConfigurationView)
    ensures
        a.register_all().capabilities == b.register_all().capabilities,
        a.register_all().capabilities == registry(),
        a.register_all().capabilities.no_duplicates(),
        a.register_all().register_all() == a.register_all(),
{
    crate::capability::lemma_registry_has_no_duplicates();
}

/// Attaching the setup hook leaves the registered modules as they are, and
/// registering leaves the hook as it is.
pub proof fn lemma_hook_and_registry_are_independent(
    c: ConfigurationView,
    adapter: PlatformAdapter,
)
    ensures
        c.with_setup_hook(adapter).capabilities == c.capabilities,
        c.register_all().adapter == c.adapter,
        c.register_all().with_setup_hook(adapter) == c.with_setup_hook(adapter).register_all(),
{
}

} // verus!
