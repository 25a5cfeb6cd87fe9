//! Signals that may be sent, and how they are named and numbered.
use vstd::prelude::*;
use nix::sys::signal::Signal as NixSignal;
use crate::error::{ErrorView, SafeKillError, view_result};
use crate::text::{
    parse_i32, signed_decimal, signed_decimal_string, signed_value, str_eq, to_upper, trim_str,
    trim_ws, upper_of,
};

verus! {

/// Supported signals for process termination
#[derive(Debug, Clone, Copy, PartialEq, Eq, Structural)]
pub enum Signal {
    /// SIGHUP (1) - Hangup
    SIGHUP,
    /// SIGINT (2) - Interrupt
    SIGINT,
    /// SIGQUIT (3) - Quit
    SIGQUIT,
    /// SIGKILL (9) - Kill (cannot be caught)
    SIGKILL,
    /// SIGTERM (15) - Terminate
    SIGTERM,
    /// SIGUSR1 (10 on Linux, 30 on macOS) - User defined signal 1
    SIGUSR1,
    /// SIGUSR2 (12 on Linux, 31 on macOS) - User defined signal 2
    SIGUSR2,
}

impl Default for Signal {
    /// SIGTERM, the polite request to terminate.
    fn default() -> (r: Self)
        ensures
            r == Signal::SIGTERM,
    {
        Signal::SIGTERM
    }
}

/// Relies on nix's `Signal`, whose discriminants are the platform's signal
/// numbers (`libc::SIGHUP` and so on): positive, and the POSIX numbers for
/// hangup, interrupt, quit, kill and terminate.
#[verifier::external_body]
fn platform_number(sig: Signal) -> (r: i32)
    ensures
        r > 0,
        sig == Signal::SIGHUP ==> r == 1,
        sig == Signal::SIGINT ==> r == 2,
        sig == Signal::SIGQUIT ==> r == 3,
        sig == Signal::SIGKILL ==> r == 9,
        sig == Signal::SIGTERM ==> r == 15,
{
    let nix_sig = match sig {
        Signal::SIGHUP => NixSignal::SIGHUP,
        Signal::SIGINT => NixSignal::SIGINT,
        Signal::SIGQUIT => NixSignal::SIGQUIT,
        Signal::SIGKILL => NixSignal::SIGKILL,
        Signal::SIGTERM => NixSignal::SIGTERM,
        Signal::SIGUSR1 => NixSignal::SIGUSR1,
        Signal::SIGUSR2 => NixSignal::SIGUSR2,
    };
    nix_sig as i32
}

impl Signal {
    pub open spec fn spec_name(self) -> Seq<char> {
        match self {
            Signal::SIGHUP => "SIGHUP"@,
            Signal::SIGINT => "SIGINT"@,
            Signal::SIGQUIT => "SIGQUIT"@,
            Signal::SIGKILL => "SIGKILL"@,
            Signal::SIGTERM => "SIGTERM"@,
            Signal::SIGUSR1 => "SIGUSR1"@,
            Signal::SIGUSR2 => "SIGUSR2"@,
        }
    }

    /// Get signal number on this platform
    pub fn number(&self) -> (r: i32)
        ensures
            r > 0,
            *self == Signal::SIGHUP ==> r == 1,
            *self == Signal::SIGINT ==> r == 2,
            *self == Signal::SIGQUIT ==> r == 3,
            *self == Signal::SIGKILL ==> r == 9,
            *self == Signal::SIGTERM ==> r == 15,
    {
        platform_number(*self)
    }

    /// Get signal name
    pub fn name(&self) -> (r: &'static str)
        ensures
            r@ == self.spec_name(),
    {
        match self {
            Signal::SIGHUP => "SIGHUP",
            Signal::SIGINT => "SIGINT",
            Signal::SIGQUIT => "SIGQUIT",
            Signal::SIGKILL => "SIGKILL",
            Signal::SIGTERM => "SIGTERM",
            Signal::SIGUSR1 => "SIGUSR1",
            Signal::SIGUSR2 => "SIGUSR2",
        }
    }
}

/// The signal with number `n`; the user signals are known by their Linux
/// and their macOS numbers.
pub open spec fn signal_for_number(n: int) -> Option<Signal> {
    if n == 1 {
        Some(Signal::SIGHUP)
    } else if n == 2 {
        Some(Signal::SIGINT)
    } else if n == 3 {
        Some(Signal::SIGQUIT)
    } else if n == 9 {
        Some(Signal::SIGKILL)
    } else if n == 15 {
        Some(Signal::SIGTERM)
    } else if n == 10 || n == 30 {
        Some(Signal::SIGUSR1)
    } else if n == 12 || n == 31 {
        Some(Signal::SIGUSR2)
    } else {
        None
    }
}

/// `s` without a leading `SIG`.
pub open spec fn without_sig_prefix(s: Seq<char>) -> Seq<char> {
    if s.len() >= 3 && s.subrange(0, 3) == "SIG"@ {
        s.subrange(3, s.len() as int)
    } else {
        s
    }
}

/// The signal named `s` (upper case, with or without `SIG`).
pub open spec fn signal_for_name(s: Seq<char>) -> Option<Signal> {
    let base = without_sig_prefix(s);
    if base == "HUP"@ {
        Some(Signal::SIGHUP)
    } else if base == "INT"@ {
        Some(Signal::SIGINT)
    } else if base == "QUIT"@ {
        Some(Signal::SIGQUIT)
    } else if base == "KILL"@ {
        Some(Signal::SIGKILL)
    } else if base == "TERM"@ {
        Some(Signal::SIGTERM)
    } else if base == "USR1"@ {
        Some(Signal::SIGUSR1)
    } else if base == "USR2"@ {
        Some(Signal::SIGUSR2)
    } else {
        None
    }
}

/// What a trimmed, upper-case signal specification denotes: a number when it
/// reads as an `i32`, a name otherwise.
pub open spec fn spec_parse_normalized(s: Seq<char>) -> Result<Signal, ErrorView> {
    match signed_value(s, i32::MIN as int, i32::MAX as int) {
        Some(n) => match signal_for_number(n) {
            Some(sig) => Ok(sig),
            None => Err(ErrorView::InvalidSignal(signed_decimal(n))),
        },
        None => match signal_for_name(s) {
            Some(sig) => Ok(sig),
            None => Err(ErrorView::InvalidSignal(s)),
        },
    }
}

/// What a signal specification as the user wrote it denotes.
pub open spec fn spec_parse_signal(s: Seq<char>) -> Result<Signal, ErrorView> {
    spec_parse_normalized(upper_of(trim_ws(s)))
}

/// Signal parsing for Unix processes
pub struct SignalSender;

impl SignalSender {
    /// Parse signal from string (name or number), ignoring case and
    /// surrounding white space: "SIGTERM", "term", " 15 ".
    pub fn parse_signal(s: &str) -> (r: Result<Signal, SafeKillError>)
        ensures
            view_result(r) == spec_parse_signal(s@),
    {
        let upper = to_upper(trim_str(s));
        Self::parse_normalized(upper.as_str())
    }

    /// Parse a signal from a trimmed, upper-case specification.
    pub fn parse_normalized(s: &str) -> (r: Result<Signal, SafeKillError>)
        ensures
            view_result(r) == spec_parse_normalized(s@),
    {
        match parse_i32(s) {
            Some(num) => Self::from_number(num),
            None => Self::from_name(s),
        }
    }

    /// Parse signal from number
    pub fn from_number(num: i32) -> (r: Result<Signal, SafeKillError>)
        ensures
            view_result(r) == match signal_for_number(num as int) {
                Some(sig) => Ok(sig),
                None => Err(ErrorView::InvalidSignal(signed_decimal(num as int))),
            },
    {
        match num {
            1 => Ok(Signal::SIGHUP),
            2 => Ok(Signal::SIGINT),
            3 => Ok(Signal::SIGQUIT),
            9 => Ok(Signal::SIGKILL),
            15 => Ok(Signal::SIGTERM),
            10 | 30 => Ok(Signal::SIGUSR1),
            12 | 31 => Ok(Signal::SIGUSR2),
            _ => Err(SafeKillError::InvalidSignal(signed_decimal_string(num as i64))),
        }
    }

    /// Parse signal from an upper-case name, with or without `SIG`
    pub fn from_name(s: &str) -> (r: Result<Signal, SafeKillError>)
        ensures
            view_result(r) == match signal_for_name(s@) {
                Some(sig) => Ok(sig),
                None => Err(ErrorView::InvalidSignal(s@)),
            },
    {
        let n = s.unicode_len();
        let name = if n >= 3 && str_eq(s.substring_char(0, 3), "SIG") {
            s.substring_char(3, n)
        } else {
            s
        };
        assert(name@ == without_sig_prefix(s@));
        if str_eq(name, "HUP") {
            Ok(Signal::SIGHUP)
        } else if str_eq(name, "INT") {
            Ok(Signal::SIGINT)
        } else if str_eq(name, "QUIT") {
            Ok(Signal::SIGQUIT)
        } else if str_eq(name, "KILL") {
            Ok(Signal::SIGKILL)
        } else if str_eq(name, "TERM") {
            Ok(Signal::SIGTERM)
        } else if str_eq(name, "USR1") {
            Ok(Signal::SIGUSR1)
        } else if str_eq(name, "USR2") {
            Ok(Signal::SIGUSR2)
        } else {
            Err(SafeKillError::InvalidSignal(String::from_str(s)))
        }
    }
}

} // verus!

verus! {

/// What the signal transport reported for one delivery attempt.
#[derive(Debug, Clone, PartialEq, Eq)]
pub enum SendOutcome {
    /// The signal was delivered
    Delivered,
    /// No process has the pid
    NoSuchProcess,
    /// The operating system refused the delivery for lack of privilege
    NotPermitted,
    /// Any other failure, with the system's description of it
    Failed(String),
}

/// What a delivery attempt on `pid` amounts to.
pub open spec fn spec_send_result(pid: u32, outcome: SendOutcome) -> Result<(), ErrorView> {
    match outcome {
        SendOutcome::Delivered => Ok(()),
        SendOutcome::NoSuchProcess => Err(ErrorView::ProcessNotFound(pid)),
        SendOutcome::NotPermitted => Err(ErrorView::PermissionDenied(pid)),
        SendOutcome::Failed(detail) => Err(
            ErrorView::SystemError("Failed to send signal: "@ + detail@),
        ),
    }
}

impl SignalSender {
    /// Maps what the transport reported for `pid` to the library's errors.
    pub fn send_result(pid: u32, outcome: &SendOutcome) -> (r: Result<(), SafeKillError>)
        ensures
            view_result(r) == spec_send_result(pid, *outcome),
    {
        match outcome {
            SendOutcome::Delivered => Ok(()),
            SendOutcome::NoSuchProcess => Err(SafeKillError::ProcessNotFound(pid)),
            SendOutcome::NotPermitted => Err(SafeKillError::PermissionDenied(pid)),
            SendOutcome::Failed(detail) => Err(
                SafeKillError::SystemError(
                    String::from_str("Failed to send signal: ").concat(detail.as_str()),
                ),
            ),
        }
    }
}

} // verus!
