//! The diagnostic texts that the shell emits while it starts.

use vstd::prelude::*;
use vstd::string::StringExecFns;

verus! {

/// Label of the primary window, fixed by the static window configuration.
pub open spec fn primary_label_text() -> Seq<char> {
    "main"@
}

/// First line written once the diagnostic sink is ready.
pub open spec fn starting_text() -> Seq<char> {
    "Starting Vicoo Desktop..."@
}

/// Line written when the host runtime enters the setup hook.
pub open spec fn setup_complete_text() -> Seq<char> {
    "Vicoo Desktop setup complete"@
}

/// Readiness line: a fixed prefix followed by the window's display title.
pub open spec fn window_initialized_text(title: Seq<char>) -> Seq<char> {
    "Window initialized: "@ + title
}

/// Fatal diagnostic for a primary window that the host runtime does not know.
/// It ends with the label that was looked up.
pub open spec fn missing_window_text(label: Seq<char>) -> Seq<char> {
    "primary window not found: "@ + label
}

/// Fatal diagnostic for a host runtime that could not be brought up.
pub open spec fn launch_failed_text(detail: Seq<char>) -> Seq<char> {
    "error while running tauri application: "@ + detail
}

/// The title that is reported when the lookup gave `title`: the title itself,
/// or the empty string where the lookup failed.
pub open spec fn title_or_empty(title: Option<Seq<char>>) -> Seq<char> {
    match title {
        Some(t) => t,
        None => Seq::empty(),
    }
}

pub fn primary_label() -> (s: String)
    ensures
        s@ == primary_label_text(),
{
    String::from_str("main")
}

pub fn starting() -> (s: String)
    ensures
        s@ == starting_text(),
{
    String::from_str("Starting Vicoo Desktop...")
}

pub fn setup_complete() -> (s: String)
    ensures
        s@ == setup_complete_text(),
{
    String::from_str("Vicoo Desktop setup complete")
}

/// Builds the readiness line from the outcome of the title lookup. A failed
/// lookup is not an error: the line then ends after the prefix.
pub fn window_initialized(title: Option<String>) -> (s: String)
    ensures
        s@ == window_initialized_text(title_or_empty(title.deep_view())),
{
    let prefix = String::from_str("Window initialized: ");
    match title {
        Some(t) => prefix.concat(t.as_str()),
        None => {
            assert(prefix@ + Seq::<char>::empty() =~= prefix@);
            prefix
        },
    }
}

pub fn missing_window(label: &str) -> (s: String)
    ensures
        s@ == missing_window_text(label@),
{
    String::from_str("primary window not found: ").concat(label)
}

pub fn launch_failed(detail: &str) -> (s: String)
    ensures
        s@ == launch_failed_text(detail@),
{
    String::from_str("error while running tauri application: ").concat(detail)
}

} // verus!
