//! The sample configuration file that the `init` command writes.
use vstd::prelude::*;
use crate::text::{str_eq, to_lower, trim_str, lower_of, trim_ws};

verus! {

/// The sample configuration, with comments.
pub const DEFAULT_CONFIG_CONTENT: &'static str = r#"# safe-kill configuration file
# This file controls which processes can be killed by safe-kill.

# Allowlist: Only processes matching these names can be killed.
# If not specified, all processes (except denylisted) are allowed.
# [allowlist]
# processes = ["next-server"]

# Denylist: Processes matching these names can never be killed.
# System processes are always protected by default.
# [denylist]
# processes = ["systemd", "launchd", "init"]

# Allowed ports: Ports that can be targeted with --port option.
# If not specified, --port option is disabled (no ports can be killed).
# Supports individual ports and ranges (e.g., "3000", "8080-8090").
#   - 1420: Tauri dev server
#   - 3000-3010: Node.js dev servers
#   - 8080: HTTP alternative port
[allowed_ports]
ports = ["1420", "3000-3010", "8080"]
"#;

/// An answer that agrees, once trimmed and lower-cased.
pub open spec fn is_yes(answer: Seq<char>) -> bool {
    answer == "y"@ || answer == "yes"@
}

/// Init command for generating configuration file
pub struct InitCommand;

impl InitCommand {
    /// Generate default configuration content with comments
    pub fn default_config_content() -> (r: String)
        ensures
            r@ == DEFAULT_CONFIG_CONTENT@,
    {
        String::from_str(DEFAULT_CONFIG_CONTENT)
    }

    /// Whether an answer to the overwrite question agrees: "y" or "yes",
    /// ignoring case and surrounding white space.
    pub fn confirms(answer: &str) -> (r: bool)
        ensures
            r == is_yes(lower_of(trim_ws(answer@))),
    {
        let lowered = to_lower(trim_str(answer));
        Self::is_yes_answer(lowered.as_str())
    }

    /// Whether a trimmed, lower-case answer agrees.
    pub fn is_yes_answer(answer: &str) -> (r: bool)
        ensures
            r == is_yes(answer@),
    {
        str_eq(answer, "y") || str_eq(answer, "yes")
    }
}

} // verus!
