//! The switches that the embedding program reads from its environment. The
//! reading is the program's; what a value means is decided here.

use vstd::prelude::*;
use crate::text::is_text;

verus! {

/// A switch is on exactly where its variable is set to `1`.
pub open spec fn spec_switch_on(value: Option<Seq<char>>) -> bool {
    value == Some("1"@)
}

/// Whether a switch is on, from the value of its variable, if it is set.
/// This is how forced reasoning and the wish for a terminal are read.
pub fn switch_on(value: Option<&str>) -> (on: bool)
    ensures
        on == spec_switch_on(
            match value {
                Some(v) => Some(v@),
                None => None,
            },
        ),
{
    match value {
        Some(v) => is_text(v, "1"),
        None => false,
    }
}

/// Debug logging is on exactly where its variable is `1`, `true` or `TRUE`.
pub open spec fn spec_debug_log_enabled(value: Option<Seq<char>>) -> bool {
    value == Some("1"@) || value == Some("true"@) || value == Some("TRUE"@)
}

/// Whether debug logging is on, from the value of its variable, if it is
/// set. It is off by default, to keep file writes off the hot paths.
pub fn debug_log_enabled(value: Option<&str>) -> (on: bool)
    ensures
        on == spec_debug_log_enabled(
            match value {
                Some(v) => Some(v@),
                None => None,
            },
        ),
{
    match value {
        Some(v) => is_text(v, "1") || is_text(v, "true") || is_text(v, "TRUE"),
        None => false,
    }
}

/// Where the debug log goes when no path is configured.
pub open spec fn default_log_path() -> Seq<char> {
    "/tmp/codexia.log"@
}

/// The path of the debug log: the configured one, else the default.
pub fn log_path(value: Option<String>) -> (path: String)
    ensures
        path@ == match value {
            Some(v) => v@,
            None => default_log_path(),
        },
{
    match value {
        Some(v) => v,
        None => String::from_str("/tmp/codexia.log"),
    }
}

} // verus!
