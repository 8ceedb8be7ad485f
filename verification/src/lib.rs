//! Startup sequencing for the Vicoo desktop shell.
//!
//! The shell starts in a fixed order: the diagnostic sink, the capability
//! modules, the setup hook, the host runtime. This crate decides that order
//! and every reaction to what the host runtime reports, and performs no
//! effect itself: it hands out [`Action`]s and takes back events. The same
//! decisions can be replayed against a [`Host`] that stands for the host
//! runtime, which is what [`run`] does.

pub mod action;
pub mod bootstrap;
pub mod capability;
pub mod config;
pub mod hook;
pub mod host;
pub mod laws;
pub mod message;
pub mod platform;

pub use action::Action;
pub use bootstrap::{drive, launch, launch_outcome, run, startup_plan, HookRun, Outcome, RunReport};
pub use capability::Capability;
pub use config::{configuration, register_all, ApplicationConfiguration, Builder};
pub use hook::{HookError, HookEvent, HookPhase, Lifecycle, SetupHook};
pub use host::{Host, Window};
pub use platform::{PlatformAdapter, TargetOs};
