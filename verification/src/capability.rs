//! The closed registry of host-capability modules.
//!
//! A capability is identified by the name its module declares to the host
//! runtime. The registry is a fixed list: nothing is added or removed while
//! the process runs, and the order of the list is the order of registration.

use vstd::prelude::*;

verus! {

/// One host-capability module.
#[derive(Clone, Copy, Debug, PartialEq, Eq, Structural)]
pub enum Capability {
    /// Spawning and controlling child processes.
    Shell,
    /// Native file and message dialogs.
    Dialog,
    /// Filesystem access.
    Fs,
    /// Desktop notifications.
    Notification,
    /// Information about the operating system.
    Os,
    /// Exit and restart of the current process.
    Process,
    /// Global keyboard shortcuts.
    GlobalShortcut,
}

/// Number of modules in the registry.
pub const REGISTRY_LEN: usize = 7;

/// The registry, in registration order.
pub open spec fn registry() -> Seq<Capability> {
    seq![
        Capability::Shell,
        Capability::Dialog,
        Capability::Fs,
        Capability::Notification,
        Capability::Os,
        Capability::Process,
        Capability::GlobalShortcut,
    ]
}

impl Capability {
    /// The name the module declares: its identity.
    pub open spec fn spec_name(self) -> Seq<char> {
        match self {
            Capability::Shell => "shell"@,
            Capability::Dialog => "dialog"@,
            Capability::Fs => "fs"@,
            Capability::Notification => "notification"@,
            Capability::Os => "os"@,
            Capability::Process => "process"@,
            Capability::GlobalShortcut => "global-shortcut"@,
        }
    }

    pub fn name(self) -> (s: &'static str)
        ensures
            s@ == self.spec_name(),
    {
        match self {
            Capability::Shell => "shell",
            Capability::Dialog => "dialog",
            Capability::Fs => "fs",
            Capability::Notification => "notification",
            Capability::Os => "os",
            Capability::Process => "process",
            Capability::GlobalShortcut => "global-shortcut",
        }
    }

    /// Place of the module in the registry.
    pub open spec fn position(self) -> int {
        match self {
            Capability::Shell => 0,
            Capability::Dialog => 1,
            Capability::Fs => 2,
            Capability::Notification => 3,
            Capability::Os => 4,
            Capability::Process => 5,
            Capability::GlobalShortcut => 6,
        }
    }
}

/// All modules of the registry, in registration order.
pub fn all() -> (v: Vec<Capability>)
    ensures
        v@ == registry(),
{
    let mut v: Vec<Capability> = Vec::new();
    v.push(Capability::Shell);
    v.push(Capability::Dialog);
    v.push(Capability::Fs);
    v.push(Capability::Notification);
    v.push(Capability::Os);
    v.push(Capability::Process);
    v.push(Capability::GlobalShortcut);
    v
}

/// The registry is closed: it has seven places, every module stands at its
/// own place, and so every module occurs in it.
pub proof fn lemma_registry_is_closed(c: Capability)
    ensures
        registry().len() == REGISTRY_LEN,
        0 <= c.position() < registry().len(),
        registry()[c.position()] == c,
        registry().contains(c),
{
}

/// No module is registered twice.
pub proof fn lemma_registry_has_no_duplicates()
    ensures
        registry().no_duplicates(),
{
    assert forall|i: int, j: int|
        0 <= i < registry().len() && 0 <= j < registry().len() && i != j implies registry()[i]
        != registry()[j] by {
        assert(registry()[i].position() == i);
        assert(registry()[j].position() == j);
    }
}

/// Length and first character of each declared name.
proof fn lemma_name_shape(c: Capability)
    ensures
        c.spec_name().len() == match c {
            Capability::Shell => 5nat,
            Capability::Dialog => 6nat,
            Capability::Fs => 2nat,
            Capability::Notification => 12nat,
            Capability::Os => 2nat,
            Capability::Process => 7nat,
            Capability::GlobalShortcut => 15nat,
        },
        c.spec_name()[0] == match c {
            Capability::Shell => 's',
            Capability::Dialog => 'd',
            Capability::Fs => 'f',
            Capability::Notification => 'n',
            Capability::Os => 'o',
            Capability::Process => 'p',
            Capability::GlobalShortcut => 'g',
        },
{
    reveal_strlit("shell");
    reveal_strlit("dialog");
    reveal_strlit("fs");
    reveal_strlit("notification");
    reveal_strlit("os");
    reveal_strlit("process");
    reveal_strlit("global-shortcut");
}

/// The declared name identifies the module: two modules with the same name
/// are the same module.
pub proof fn lemma_name_identifies(a: Capability, b: Capability)
    requires
        a.spec_name() == b.spec_name(),
    ensures
        a == b,
{
    lemma_name_shape(a);
    lemma_name_shape(b);
}

} // verus!
