//! Command-line arguments: which request they make, and with which signal.
use vstd::prelude::*;
use crate::error::{ErrorView, SafeKillError, view_result};
use crate::signal::{Signal, SignalSender, spec_parse_signal};

verus! {

/// Execution mode determined from CLI arguments
#[derive(Debug, Clone, PartialEq, Eq)]
pub enum ExecutionMode {
    /// Kill a process by PID
    KillByPid(u32),
    /// Kill processes by name (pkill-style)
    KillByName(String),
    /// List killable processes
    ListKillable,
}

/// The mathematical value of an `ExecutionMode`.
pub enum ModeView {
    KillByPid(u32),
    KillByName(Seq<char>),
    ListKillable,
}

impl View for ExecutionMode {
    type V = ModeView;

    open spec fn view(&self) -> ModeView {
        match self {
            ExecutionMode::KillByPid(p) => ModeView::KillByPid(*p),
            ExecutionMode::KillByName(n) => ModeView::KillByName(n@),
            ExecutionMode::ListKillable => ModeView::ListKillable,
        }
    }
}

/// CLI arguments for safe-kill
#[derive(Debug)]
pub struct CliArgs {
    /// Target PID to kill
    pub pid: Option<u32>,
    /// Kill processes by name (pkill-style)
    pub name: Option<String>,
    /// Signal to send (name or number)
    pub signal: String,
    /// List killable processes
    pub list: bool,
    /// Dry run mode (don't actually send signals)
    pub dry_run: bool,
}

/// The request that the arguments make: exactly one of a pid, a name and
/// the list flag.
pub open spec fn spec_validate(args: CliArgs) -> Result<ModeView, ErrorView> {
    let count = (if args.pid is Some {
        1int
    } else {
        0int
    }) + (if args.name is Some {
        1int
    } else {
        0int
    }) + (if args.list {
        1int
    } else {
        0int
    });
    if count == 0 {
        Err(ErrorView::NoTarget)
    } else if count == 1 {
        if args.list {
            Ok(ModeView::ListKillable)
        } else if args.pid is Some {
            Ok(ModeView::KillByPid(args.pid->Some_0))
        } else {
            Ok(ModeView::KillByName(args.name->Some_0@))
        }
    } else if args.list {
        Err(ErrorView::InvalidPid("--list cannot be combined with PID or --name"@))
    } else {
        Err(ErrorView::InvalidPid("Cannot specify both PID and --name"@))
    }
}

/// The view of a validation result.
pub open spec fn mode_result_view(r: Result<ExecutionMode, SafeKillError>) -> Result<ModeView, ErrorView> {
    match r {
        Ok(m) => Ok(m@),
        Err(e) => Err(e@),
    }
}

impl CliArgs {
    /// Validate arguments and determine execution mode
    ///
    /// Returns an error if:
    /// - No target is specified (neither PID, --name, nor --list)
    /// - Multiple targets are specified (PID and --name, or --list with others)
    pub fn validate(&self) -> (r: Result<ExecutionMode, SafeKillError>)
        ensures
            mode_result_view(r) == spec_validate(*self),
    {
        let has_pid = self.pid.is_some();
        let has_name = self.name.is_some();
        let has_list = self.list;
        let mut target_count: u32 = 0;
        if has_pid {
            target_count = target_count + 1;
        }
        if has_name {
            target_count = target_count + 1;
        }
        if has_list {
            target_count = target_count + 1;
        }
        if target_count == 0 {
            Err(SafeKillError::NoTarget)
        } else if target_count == 1 {
            if has_list {
                Ok(ExecutionMode::ListKillable)
            } else if let Some(pid) = self.pid {
                Ok(ExecutionMode::KillByPid(pid))
            } else {
                match &self.name {
                    Some(name) => Ok(ExecutionMode::KillByName(name.clone())),
                    None => Err(SafeKillError::NoTarget),
                }
            }
        } else if has_list {
            Err(
                SafeKillError::InvalidPid(
                    String::from_str("--list cannot be combined with PID or --name"),
                ),
            )
        } else {
            Err(SafeKillError::InvalidPid(String::from_str("Cannot specify both PID and --name")))
        }
    }

    /// Parse the signal argument into a Signal enum
    pub fn parse_signal(&self) -> (r: Result<Signal, SafeKillError>)
        ensures
            view_result(r) == spec_parse_signal(self.signal@),
    {
        SignalSender::parse_signal(self.signal.as_str())
    }
}

} // verus!
