//! Kill results, and the step from a permitted kill to the signal transport.
use vstd::prelude::*;
use crate::error::{ErrorView, SafeKillError};
use crate::signal::{SendOutcome, Signal, SignalSender, spec_send_result};

verus! {

/// Result of a kill operation
#[derive(Debug, Clone, PartialEq, Eq)]
pub struct KillResult {
    /// Target process ID
    pub pid: u32,
    /// Process name (if known)
    pub name: String,
    /// Whether the operation succeeded
    pub success: bool,
    /// Detailed message about the result
    pub message: String,
}

/// The mathematical value of a `KillResult`.
pub struct KillRecord {
    pub pid: u32,
    pub name: Seq<char>,
    pub success: bool,
    pub message: Seq<char>,
}

impl View for KillResult {
    type V = KillRecord;

    open spec fn view(&self) -> KillRecord {
        KillRecord { pid: self.pid, name: self.name@, success: self.success, message: self.message@ }
    }
}

/// The message of a delivered signal.
pub open spec fn sent_message(signal: Signal) -> Seq<char> {
    "Sent "@ + signal.spec_name() + " to process"@
}

/// The message of a simulated delivery.
pub open spec fn dry_run_message(signal: Signal) -> Seq<char> {
    "Would send "@ + signal.spec_name() + " to process (dry run)"@
}

pub open spec fn success_record(pid: u32, name: Seq<char>, signal: Signal) -> KillRecord {
    KillRecord { pid, name, success: true, message: sent_message(signal) }
}

pub open spec fn failure_record(pid: u32, name: Seq<char>, error: ErrorView) -> KillRecord {
    KillRecord { pid, name, success: false, message: error.message() }
}

pub open spec fn dry_run_record(pid: u32, name: Seq<char>, signal: Signal) -> KillRecord {
    KillRecord { pid, name, success: true, message: dry_run_message(signal) }
}

/// The result of a delivery attempt, given what the transport reported.
pub open spec fn settled_record(pid: u32, name: Seq<char>, signal: Signal, outcome: SendOutcome) -> KillRecord {
    match spec_send_result(pid, outcome) {
        Ok(_) => success_record(pid, name, signal),
        Err(e) => failure_record(pid, name, e),
    }
}

impl KillResult {
    /// Create a successful kill result
    pub fn success(pid: u32, name: &str, signal: Signal) -> (r: Self)
        ensures
            r@ == success_record(pid, name@, signal),
    {
        KillResult {
            pid,
            name: String::from_str(name),
            success: true,
            message: String::from_str("Sent ").concat(signal.name()).concat(" to process"),
        }
    }

    /// Create a failed kill result
    pub fn failure(pid: u32, name: &str, error: &SafeKillError) -> (r: Self)
        ensures
            r@ == failure_record(pid, name@, error@),
    {
        KillResult { pid, name: String::from_str(name), success: false, message: error.message() }
    }

    /// Create a dry-run result
    pub fn dry_run(pid: u32, name: &str, signal: Signal) -> (r: Self)
        ensures
            r@ == dry_run_record(pid, name@, signal),
    {
        KillResult {
            pid,
            name: String::from_str(name),
            success: true,
            message: String::from_str("Would send ").concat(signal.name()).concat(
                " to process (dry run)",
            ),
        }
    }
}

/// Result of a batch kill operation
#[derive(Debug, Clone, Default)]
pub struct BatchKillResult {
    /// Individual results for each process
    pub results: Vec<KillResult>,
    /// Total number of processes matched
    pub total_matched: usize,
    /// Total number of processes successfully killed
    pub total_killed: usize,
}

impl BatchKillResult {
    /// Create a new empty batch result
    pub fn new() -> (r: Self)
        ensures
            r.results@.len() == 0,
            r.total_matched == 0,
            r.total_killed == 0,
    {
        BatchKillResult { results: Vec::new(), total_matched: 0, total_killed: 0 }
    }

    /// Add a result to the batch
    pub fn add(&mut self, result: KillResult)
        requires
            old(self).total_matched < usize::MAX,
            old(self).total_killed < usize::MAX,
        ensures
            final(self).results@ == old(self).results@.push(result),
            final(self).total_matched == old(self).total_matched + 1,
            final(self).total_killed == old(self).total_killed + if result.success {
                1int
            } else {
                0int
            },
    {
        if result.success {
            self.total_killed = self.total_killed + 1;
        }
        self.total_matched = self.total_matched + 1;
        self.results.push(result);
    }

    /// Check if all operations succeeded
    pub fn all_success(&self) -> (r: bool)
        ensures
            r == (self.total_matched > 0 && self.total_killed == self.total_matched),
    {
        self.total_matched > 0 && self.total_killed == self.total_matched
    }

    /// Check if any operations succeeded
    pub fn any_success(&self) -> (r: bool)
        ensures
            r == (self.total_killed > 0),
    {
        self.total_killed > 0
    }

    /// Check if the batch is empty
    pub fn is_empty(&self) -> (r: bool)
        ensures
            r == (self.results@.len() == 0),
    {
        self.results.len() == 0
    }
}

/// One target's way to its result: either a signal still to be handed to the
/// transport, or a result that needs no delivery (a denial or a dry run).
#[derive(Debug, Clone, PartialEq, Eq)]
pub enum KillStep {
    /// Deliver `signal` to `pid`, then settle the result with the outcome
    Deliver { pid: u32, name: String, signal: Signal },
    /// Nothing to deliver: this is the result
    Finished(KillResult),
}

/// The mathematical value of a `KillStep`.
pub enum StepView {
    Deliver { pid: u32, name: Seq<char>, signal: Signal },
    Finished(KillRecord),
}

impl View for KillStep {
    type V = StepView;

    open spec fn view(&self) -> StepView {
        match self {
            KillStep::Deliver { pid, name, signal } => StepView::Deliver {
                pid: *pid,
                name: name@,
                signal: *signal,
            },
            KillStep::Finished(r) => StepView::Finished(r@),
        }
    }
}

/// The views of a sequence of steps.
pub open spec fn steps_view(v: Seq<KillStep>) -> Seq<StepView> {
    v.map_values(|s: KillStep| s@)
}

/// The step for a permitted kill: simulated in a dry run, delivered otherwise.
pub open spec fn permitted_step(pid: u32, name: Seq<char>, signal: Signal, dry_run: bool) -> StepView {
    if dry_run {
        StepView::Finished(dry_run_record(pid, name, signal))
    } else {
        StepView::Deliver { pid, name, signal }
    }
}

/// Process killer: turns a permitted kill into a step for the signal transport
/// and settles its result.
pub struct ProcessKiller;

impl ProcessKiller {
    /// Create a new ProcessKiller
    pub fn new() -> (r: Self) {
        ProcessKiller
    }

    /// The step for a kill that the policy has already permitted. Safety
    /// checks are the caller's (the policy engine's) business.
    pub fn kill_with_result(&self, pid: u32, name: &str, signal: Signal, dry_run: bool) -> (r:
        KillStep)
        ensures
            r@ == permitted_step(pid, name@, signal, dry_run),
    {
        if dry_run {
            return KillStep::Finished(KillResult::dry_run(pid, name, signal));
        }
        KillStep::Deliver { pid, name: String::from_str(name), signal }
    }

    /// The result of delivering `signal` to `pid`, given what the transport reported.
    pub fn settle(&self, pid: u32, name: &str, signal: Signal, outcome: &SendOutcome) -> (r:
        KillResult)
        ensures
            r@ == settled_record(pid, name@, signal, *outcome),
    {
        match SignalSender::send_result(pid, outcome) {
            Ok(()) => KillResult::success(pid, name, signal),
            Err(e) => KillResult::failure(pid, name, &e),
        }
    }
}

} // verus!
