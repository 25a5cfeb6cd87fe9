//! Error taxonomy and exit codes.
use vstd::prelude::*;
use crate::text::{decimal, decimal_string};

verus! {

/// Exit status of the command-line tool.
#[derive(Debug, Clone, Copy, PartialEq, Eq, Structural)]
pub enum SafeKillExitCode {
    /// Successful execution
    Success,
    /// No target process found or specified
    NoTarget,
    /// Permission denied
    PermissionDenied,
    /// Configuration file error
    ConfigError,
    /// Port not allowed by configuration
    PortNotAllowed,
    /// General/other error
    GeneralError,
}

impl SafeKillExitCode {
    pub open spec fn spec_code(self) -> u8 {
        match self {
            SafeKillExitCode::Success => 0,
            SafeKillExitCode::NoTarget => 1,
            SafeKillExitCode::PermissionDenied => 2,
            SafeKillExitCode::ConfigError => 3,
            SafeKillExitCode::PortNotAllowed => 4,
            SafeKillExitCode::GeneralError => 255,
        }
    }

    /// The process exit status for this code.
    pub fn code(&self) -> (r: u8)
        ensures
            r == self.spec_code(),
    {
        match self {
            SafeKillExitCode::Success => 0,
            SafeKillExitCode::NoTarget => 1,
            SafeKillExitCode::PermissionDenied => 2,
            SafeKillExitCode::ConfigError => 3,
            SafeKillExitCode::PortNotAllowed => 4,
            SafeKillExitCode::GeneralError => 255,
        }
    }
}

/// Error types for safe-kill operations.
#[derive(Debug)]
pub enum SafeKillError {
    /// Invalid PID format
    InvalidPid(String),
    /// Invalid signal specification
    InvalidSignal(String),
    /// No target specified
    NoTarget,
    /// Target is not a descendant of current session
    NotDescendant(u32, String),
    /// Process is in denylist
    Denylisted(String),
    /// Attempted to kill self or parent (suicide prevention)
    SuicidePrevention(u32),
    /// Process not found
    ProcessNotFound(u32),
    /// No process found listening on the specified port
    NoProcessOnPort(u16),
    /// Port is not in the allowed ports list
    PortNotAllowed { port: u16, hint: String },
    /// Failed to detect processes on port
    PortDetectionError { port: u16, reason: String },
    /// Invalid port range format
    InvalidPortRange(String),
    /// Failed to create configuration file
    ConfigCreationError(String),
    /// Permission denied for operation
    PermissionDenied(u32),
    /// Configuration file parse error
    ConfigError(String),
    /// Generic system error
    SystemError(String),
}

/// The mathematical value of a `SafeKillError`: its strings as sequences.
pub enum ErrorView {
    InvalidPid(Seq<char>),
    InvalidSignal(Seq<char>),
    NoTarget,
    NotDescendant(u32, Seq<char>),
    Denylisted(Seq<char>),
    SuicidePrevention(u32),
    ProcessNotFound(u32),
    NoProcessOnPort(u16),
    PortNotAllowed { port: u16, hint: Seq<char> },
    PortDetectionError { port: u16, reason: Seq<char> },
    InvalidPortRange(Seq<char>),
    ConfigCreationError(Seq<char>),
    PermissionDenied(u32),
    ConfigError(Seq<char>),
    SystemError(Seq<char>),
}

impl View for SafeKillError {
    type V = ErrorView;

    open spec fn view(&self) -> ErrorView {
        match self {
            SafeKillError::InvalidPid(s) => ErrorView::InvalidPid(s@),
            SafeKillError::InvalidSignal(s) => ErrorView::InvalidSignal(s@),
            SafeKillError::NoTarget => ErrorView::NoTarget,
            SafeKillError::NotDescendant(p, s) => ErrorView::NotDescendant(*p, s@),
            SafeKillError::Denylisted(s) => ErrorView::Denylisted(s@),
            SafeKillError::SuicidePrevention(p) => ErrorView::SuicidePrevention(*p),
            SafeKillError::ProcessNotFound(p) => ErrorView::ProcessNotFound(*p),
            SafeKillError::NoProcessOnPort(p) => ErrorView::NoProcessOnPort(*p),
            SafeKillError::PortNotAllowed { port, hint } => ErrorView::PortNotAllowed {
                port: *port,
                hint: hint@,
            },
            SafeKillError::PortDetectionError { port, reason } => ErrorView::PortDetectionError {
                port: *port,
                reason: reason@,
            },
            SafeKillError::InvalidPortRange(s) => ErrorView::InvalidPortRange(s@),
            SafeKillError::ConfigCreationError(s) => ErrorView::ConfigCreationError(s@),
            SafeKillError::PermissionDenied(p) => ErrorView::PermissionDenied(*p),
            SafeKillError::ConfigError(s) => ErrorView::ConfigError(s@),
            SafeKillError::SystemError(s) => ErrorView::SystemError(s@),
        }
    }
}

/// A result whose error is seen through its view.
pub open spec fn view_result<T>(r: Result<T, SafeKillError>) -> Result<T, ErrorView> {
    match r {
        Ok(v) => Ok(v),
        Err(e) => Err(e@),
    }
}

impl ErrorView {
    /// The exit status that an error leads to.
    pub open spec fn exit_code(self) -> SafeKillExitCode {
        match self {
            ErrorView::NoTarget | ErrorView::ProcessNotFound(_) | ErrorView::NoProcessOnPort(
                _,
            ) => SafeKillExitCode::NoTarget,
            ErrorView::PermissionDenied(_) => SafeKillExitCode::PermissionDenied,
            ErrorView::ConfigError(_) | ErrorView::ConfigCreationError(_) => {
                SafeKillExitCode::ConfigError
            },
            ErrorView::PortNotAllowed { .. } => SafeKillExitCode::PortNotAllowed,
            _ => SafeKillExitCode::GeneralError,
        }
    }

    /// The text shown to the user for an error.
    pub open spec fn message(self) -> Seq<char> {
        match self {
            ErrorView::InvalidPid(s) => "Invalid PID: "@ + s,
            ErrorView::InvalidSignal(s) => "Invalid signal: "@ + s,
            ErrorView::NoTarget => "No target specified. Use --help for usage."@,
            ErrorView::NotDescendant(p, s) => "Process "@ + decimal(p as nat) + " ("@ + s
                + ") is not a descendant of the current session"@,
            ErrorView::Denylisted(s) => "Process "@ + s + " is in denylist and cannot be killed"@,
            ErrorView::SuicidePrevention(p) => "Cannot kill self or parent process (PID: "@
                + decimal(p as nat) + ")"@,
            ErrorView::ProcessNotFound(p) => "Process "@ + decimal(p as nat) + " not found"@,
            ErrorView::NoProcessOnPort(p) => "No process found on port "@ + decimal(p as nat),
            ErrorView::PortNotAllowed { port, hint } => "Port "@ + decimal(port as nat)
                + " is not allowed. "@ + hint,
            ErrorView::PortDetectionError { port, reason } => "Failed to detect process on port "@
                + decimal(port as nat) + ": "@ + reason,
            ErrorView::InvalidPortRange(s) => "Invalid port range format: "@ + s,
            ErrorView::ConfigCreationError(s) => "Failed to create config file: "@ + s,
            ErrorView::PermissionDenied(p) => "Permission denied for PID "@ + decimal(p as nat),
            ErrorView::ConfigError(s) => "Config parse error: "@ + s,
            ErrorView::SystemError(s) => "System error: "@ + s,
        }
    }
}

/// `prefix`, then `middle`, then `suffix`.
fn joined(prefix: &str, middle: &str, suffix: &str) -> (r: String)
    ensures
        r@ == prefix@ + middle@ + suffix@,
{
    String::from_str(prefix).concat(middle).concat(suffix)
}

/// `prefix`, then `rest`.
fn prefixed(prefix: &str, rest: &str) -> (r: String)
    ensures
        r@ == prefix@ + rest@,
{
    String::from_str(prefix).concat(rest)
}

impl SafeKillError {
    /// Get the appropriate exit code for this error
    pub fn exit_code(&self) -> (r: SafeKillExitCode)
        ensures
            r == self@.exit_code(),
    {
        match self {
            SafeKillError::NoTarget
            | SafeKillError::ProcessNotFound(_)
            | SafeKillError::NoProcessOnPort(_) => SafeKillExitCode::NoTarget,
            SafeKillError::PermissionDenied(_) => SafeKillExitCode::PermissionDenied,
            SafeKillError::ConfigError(_) | SafeKillError::ConfigCreationError(_) => {
                SafeKillExitCode::ConfigError
            },
            SafeKillError::PortNotAllowed { .. } => SafeKillExitCode::PortNotAllowed,
            _ => SafeKillExitCode::GeneralError,
        }
    }

    /// The text shown to the user for this error.
    pub fn message(&self) -> (r: String)
        ensures
            r@ == self@.message(),
    {
        match self {
            SafeKillError::InvalidPid(s) => prefixed("Invalid PID: ", s.as_str()),
            SafeKillError::InvalidSignal(s) => prefixed("Invalid signal: ", s.as_str()),
            SafeKillError::NoTarget => String::from_str("No target specified. Use --help for usage."),
            SafeKillError::NotDescendant(p, s) => {
                let head = joined("Process ", decimal_string(*p as u64).as_str(), " (");
                joined(head.as_str(), s.as_str(), ") is not a descendant of the current session")
            },
            SafeKillError::Denylisted(s) => joined(
                "Process ",
                s.as_str(),
                " is in denylist and cannot be killed",
            ),
            SafeKillError::SuicidePrevention(p) => joined(
                "Cannot kill self or parent process (PID: ",
                decimal_string(*p as u64).as_str(),
                ")",
            ),
            SafeKillError::ProcessNotFound(p) => joined(
                "Process ",
                decimal_string(*p as u64).as_str(),
                " not found",
            ),
            SafeKillError::NoProcessOnPort(p) => prefixed("No process found on port ", decimal_string(*p as u64).as_str()),
            SafeKillError::PortNotAllowed { port, hint } => {
                let head = joined("Port ", decimal_string(*port as u64).as_str(), " is not allowed. ");
                prefixed(head.as_str(), hint.as_str())
            },
            SafeKillError::PortDetectionError { port, reason } => {
                let head = joined(
                    "Failed to detect process on port ",
                    decimal_string(*port as u64).as_str(),
                    ": ",
                );
                prefixed(head.as_str(), reason.as_str())
            },
            SafeKillError::InvalidPortRange(s) => prefixed("Invalid port range format: ", s.as_str()),
            SafeKillError::ConfigCreationError(s) => prefixed("Failed to create config file: ", s.as_str()),
            SafeKillError::PermissionDenied(p) => prefixed("Permission denied for PID ", decimal_string(*p as u64).as_str()),
            SafeKillError::ConfigError(s) => prefixed("Config parse error: ", s.as_str()),
            SafeKillError::SystemError(s) => prefixed("System error: ", s.as_str()),
        }
    }
}

} // verus!
