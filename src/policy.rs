//! The policy engine: ordered permission checks, and the steps that carry out
//! by-pid, by-name and by-port requests.
use vstd::prelude::*;
use crate::ancestry::{AncestryChecker, AncestryModel, spec_is_descendant_of, spec_is_suicide};
use crate::config::{Config, lemma_no_port_configuration_allows_nothing, port_hint};
use crate::error::{ErrorView, SafeKillError};
use crate::killer::{
    KillResult, KillStep, ProcessKiller, StepView, dry_run_record, failure_record, permitted_step, steps_view,
};
use crate::port::{PortProcess, PortProtocol, SocketEntry, has_pid, listeners_on_port, lists_listeners, reported};
use crate::process_info::{
    ProcessInfo, ProcessInfoProvider, ProcessRecord, lookup, records_named, records_view,
};
use crate::signal::Signal;

verus! {

/// Result of a kill permission check
#[derive(Debug, Clone, PartialEq, Eq)]
pub enum KillPermission {
    /// Kill is allowed (by ancestry check)
    Allowed,
    /// Kill is allowed (process is in allowlist)
    AllowedByAllowlist,
    /// Kill is denied (process is in denylist)
    DeniedByDenylist(String),
    /// Kill is denied (not a descendant of root)
    DeniedNotDescendant,
    /// Kill is denied (would kill self or parent)
    DeniedSuicidePrevention,
}

/// The mathematical value of a `KillPermission`.
pub enum PermissionView {
    Allowed,
    AllowedByAllowlist,
    DeniedByDenylist(Seq<char>),
    DeniedNotDescendant,
    DeniedSuicidePrevention,
}

impl View for KillPermission {
    type V = PermissionView;

    open spec fn view(&self) -> PermissionView {
        match self {
            KillPermission::Allowed => PermissionView::Allowed,
            KillPermission::AllowedByAllowlist => PermissionView::AllowedByAllowlist,
            KillPermission::DeniedByDenylist(n) => PermissionView::DeniedByDenylist(n@),
            KillPermission::DeniedNotDescendant => PermissionView::DeniedNotDescendant,
            KillPermission::DeniedSuicidePrevention => PermissionView::DeniedSuicidePrevention,
        }
    }
}

impl PermissionView {
    pub open spec fn allows(self) -> bool {
        self is Allowed || self is AllowedByAllowlist
    }

    /// The error that a denial is reported with, for the process `pid` named `name`.
    pub open spec fn denial_error(self, pid: u32, name: Seq<char>) -> ErrorView {
        match self {
            PermissionView::DeniedByDenylist(n) => ErrorView::Denylisted(n),
            PermissionView::DeniedNotDescendant => ErrorView::NotDescendant(pid, name),
            PermissionView::DeniedSuicidePrevention => ErrorView::SuicidePrevention(pid),
            _ => ErrorView::SystemError("Unexpected permission"@),
        }
    }
}

impl KillPermission {
    /// Check if the permission allows killing
    pub fn is_allowed(&self) -> (r: bool)
        ensures
            r == self@.allows(),
    {
        match self {
            KillPermission::Allowed | KillPermission::AllowedByAllowlist => true,
            _ => false,
        }
    }

    /// Check if the permission denies killing
    pub fn is_denied(&self) -> (r: bool)
        ensures
            r == !self@.allows(),
    {
        !self.is_allowed()
    }
}

/// The mathematical value of a `PolicyEngine`.
pub struct EngineModel {
    pub config: Config,
    pub ancestry: AncestryModel,
}

/// The verdict for a pid-scoped request, first match wins: suicide
/// prevention, denylist, allowlist, ancestry.
pub open spec fn spec_can_kill(m: EngineModel, p: ProcessRecord) -> PermissionView {
    if spec_is_suicide(m.ancestry.table, p.pid) {
        PermissionView::DeniedSuicidePrevention
    } else if m.config.spec_is_denied(p.name) {
        PermissionView::DeniedByDenylist(p.name)
    } else if m.config.spec_is_allowed(p.name) {
        PermissionView::AllowedByAllowlist
    } else if spec_is_descendant_of(m.ancestry.table, p.pid, m.ancestry.root_pid) {
        PermissionView::Allowed
    } else {
        PermissionView::DeniedNotDescendant
    }
}

/// The verdict for a port-scoped request: only suicide prevention and the
/// denylist apply.
pub open spec fn spec_can_kill_for_port(m: EngineModel, pid: u32, name: Seq<char>) -> PermissionView {
    if spec_is_suicide(m.ancestry.table, pid) {
        PermissionView::DeniedSuicidePrevention
    } else if m.config.spec_is_denied(name) {
        PermissionView::DeniedByDenylist(name)
    } else {
        PermissionView::Allowed
    }
}

/// The step for one candidate of a batch: its permitted step, or a failed
/// result that names the rule that blocked it.
pub open spec fn candidate_step(
    pid: u32,
    name: Seq<char>,
    perm: PermissionView,
    signal: Signal,
    dry_run: bool,
) -> StepView {
    if perm.allows() {
        permitted_step(pid, name, signal, dry_run)
    } else {
        StepView::Finished(failure_record(pid, name, perm.denial_error(pid, name)))
    }
}

/// The steps of a by-name request over its matches.
pub open spec fn name_steps(m: EngineModel, matches: Seq<ProcessRecord>, signal: Signal, dry_run: bool) -> Seq<
    StepView,
> {
    matches.map_values(
        |p: ProcessRecord| candidate_step(p.pid, p.name, spec_can_kill(m, p), signal, dry_run),
    )
}

/// The steps of a by-port request over the processes bound to the port.
pub open spec fn port_steps(m: EngineModel, listeners: Seq<PortProcess>, signal: Signal, dry_run: bool) -> Seq<
    StepView,
> {
    listeners.map_values(
        |l: PortProcess|
            candidate_step(
                l.pid,
                l.name@,
                spec_can_kill_for_port(m, l.pid, l.name@),
                signal,
                dry_run,
            ),
    )
}

/// The outcome of a by-pid request.
pub open spec fn spec_kill_by_pid(m: EngineModel, pid: u32, signal: Signal, dry_run: bool) -> Result<
    StepView,
    ErrorView,
> {
    match lookup(m.ancestry.table.records, pid) {
        None => Err(ErrorView::ProcessNotFound(pid)),
        Some(p) => {
            let perm = spec_can_kill(m, p);
            if perm.allows() {
                Ok(permitted_step(pid, p.name, signal, dry_run))
            } else {
                Err(perm.denial_error(pid, p.name))
            }
        },
    }
}

/// The view of a single-step result.
pub open spec fn step_result_view(r: Result<KillStep, SafeKillError>) -> Result<StepView, ErrorView> {
    match r {
        Ok(s) => Ok(s@),
        Err(e) => Err(e@),
    }
}

/// The records that the engine would allow to be killed, in order.
pub open spec fn killable_records(m: EngineModel, records: Seq<ProcessRecord>) -> Seq<ProcessRecord>
    decreases records.len(),
{
    if records.len() == 0 {
        Seq::empty()
    } else {
        let before = killable_records(m, records.drop_last());
        if spec_can_kill(m, records.last()).allows() {
            before.push(records.last())
        } else {
            before
        }
    }
}

/// Suicide prevention dominates every other rule: a request that targets the
/// tool itself or its direct parent is denied as suicide, whatever the allow-
/// and denylists say, for pid-scoped and port-scoped requests alike.
pub proof fn lemma_suicide_dominates(m: EngineModel, p: ProcessRecord)
    requires
        spec_is_suicide(m.ancestry.table, p.pid),
    ensures
        spec_can_kill(m, p) == PermissionView::DeniedSuicidePrevention,
        spec_can_kill_for_port(m, p.pid, p.name) == PermissionView::DeniedSuicidePrevention,
        !spec_can_kill(m, p).allows(),
{
}

/// The denylist dominates the allowlist: a process whose name is in both
/// lists is denied by the denylist (unless suicide prevention denies it first).
pub proof fn lemma_denylist_dominates_allowlist(m: EngineModel, p: ProcessRecord)
    requires
        m.config.spec_is_denied(p.name),
        m.config.spec_is_allowed(p.name),
        !spec_is_suicide(m.ancestry.table, p.pid),
    ensures
        spec_can_kill(m, p) == PermissionView::DeniedByDenylist(p.name),
        spec_can_kill_for_port(m, p.pid, p.name) == PermissionView::DeniedByDenylist(p.name),
{
}

proof fn lemma_records_named_have_name(records: Seq<ProcessRecord>, name: Seq<char>)
    ensures
        forall|i: int|
            0 <= i < records_named(records, name).len() ==> (#[trigger] records_named(
                records,
                name,
            )[i]).name == name,
    decreases records.len(),
{
    if records.len() > 0 {
        lemma_records_named_have_name(records.drop_last(), name);
    }
}

/// A by-name request for a denylisted name kills nothing: there is one step
/// per match, and each is a failed result that needs no delivery.
pub proof fn lemma_denylisted_name_kills_nothing(
    m: EngineModel,
    name: Seq<char>,
    signal: Signal,
    dry_run: bool,
)
    requires
        m.config.spec_is_denied(name),
    ensures
        ({
            let matches = records_named(m.ancestry.table.records, name);
            let steps = name_steps(m, matches, signal, dry_run);
            &&& steps.len() == matches.len()
            &&& forall|i: int|
                0 <= i < steps.len() ==> (#[trigger] steps[i] matches StepView::Finished(rec)
                    && !rec.success)
        }),
{
    let matches = records_named(m.ancestry.table.records, name);
    lemma_records_named_have_name(m.ancestry.table.records, name);
    assert forall|i: int| 0 <= i < matches.len() implies !spec_can_kill(
        m,
        #[trigger] matches[i],
    ).allows() by {
        assert(matches[i].name == name);
    }
}

/// A dry run never hands anything to the signal transport, and otherwise has
/// the shape of the actual run: the same number of steps, the same denials, and
/// a simulated success where the actual run would deliver.
pub proof fn lemma_dry_run_shape(m: EngineModel, matches: Seq<ProcessRecord>, signal: Signal)
    ensures
        ({
            let actual = name_steps(m, matches, signal, false);
            let dry = name_steps(m, matches, signal, true);
            &&& dry.len() == actual.len()
            &&& forall|i: int| 0 <= i < dry.len() ==> !(#[trigger] dry[i] is Deliver)
            &&& forall|i: int| 0 <= i < dry.len() && actual[i] is Finished ==> #[trigger] dry[i] == actual[i]
            &&& forall|i: int|
                0 <= i < dry.len() ==> (#[trigger] actual[i] matches StepView::Deliver {
                    pid,
                    name,
                    signal: sig,
                } ==> dry[i] == StepView::Finished(dry_run_record(pid, name, sig)))
        }),
{
}

/// A dry run of a by-port request never hands anything to the signal
/// transport, and otherwise has the shape of the actual run.
pub proof fn lemma_port_dry_run_shape(m: EngineModel, listeners: Seq<PortProcess>, signal: Signal)
    ensures
        ({
            let actual = port_steps(m, listeners, signal, false);
            let dry = port_steps(m, listeners, signal, true);
            &&& dry.len() == actual.len()
            &&& forall|i: int| 0 <= i < dry.len() ==> !(#[trigger] dry[i] is Deliver)
            &&& forall|i: int| 0 <= i < dry.len() && actual[i] is Finished ==> #[trigger] dry[i] == actual[i]
            &&& forall|i: int|
                0 <= i < dry.len() ==> (#[trigger] actual[i] matches StepView::Deliver {
                    pid,
                    name,
                    signal: sig,
                } ==> dry[i] == StepView::Finished(dry_run_record(pid, name, sig)))
        }),
{
}

/// A by-pid dry run fails exactly when the actual run fails, with the same
/// error, and otherwise is a simulated success that delivers nothing.
pub proof fn lemma_pid_dry_run_shape(m: EngineModel, pid: u32, signal: Signal)
    ensures
        ({
            let actual = spec_kill_by_pid(m, pid, signal, false);
            let dry = spec_kill_by_pid(m, pid, signal, true);
            &&& actual is Err ==> dry == actual
            &&& actual matches Ok(StepView::Deliver { pid: p, name, signal: sig }) ==> dry == Ok::<
                StepView,
                ErrorView,
            >(StepView::Finished(dry_run_record(p, name, sig)))
            &&& actual is Ok ==> actual->Ok_0 is Deliver
        }),
{
}

/// Policy engine that orchestrates kill permission checks
pub struct PolicyEngine {
    config: Config,
    ancestry: AncestryChecker,
    killer: ProcessKiller,
}

impl View for PolicyEngine {
    type V = EngineModel;

    closed spec fn view(&self) -> EngineModel {
        EngineModel { config: self.config, ancestry: self.ancestry@ }
    }
}

impl PolicyEngine {
    /// Create a new PolicyEngine with the given configuration and ancestry checker
    pub fn new(config: Config, ancestry: AncestryChecker) -> (r: Self)
        ensures
            r@ == (EngineModel { config, ancestry: ancestry@ }),
    {
        PolicyEngine { config, ancestry, killer: ProcessKiller::new() }
    }

    /// Replace the process table with a fresh snapshot; the configuration
    /// and the trust root stay.
    pub fn refresh(&mut self, provider: ProcessInfoProvider)
        ensures
            final(self)@ == (EngineModel {
                config: old(self)@.config,
                ancestry: AncestryModel { table: provider@, root_pid: old(self)@.ancestry.root_pid },
            }),
    {
        self.ancestry.refresh(provider);
    }

    /// Check if a process can be killed
    pub fn can_kill(&self, process: &ProcessInfo) -> (r: KillPermission)
        ensures
            r@ == spec_can_kill(self@, process@),
    {
        // 1. Suicide prevention first (highest priority)
        if self.ancestry.is_suicide(process.pid) {
            return KillPermission::DeniedSuicidePrevention;
        }
        // 2. Denylist (second highest priority)
        if self.config.is_denied(process.name.as_str()) {
            return KillPermission::DeniedByDenylist(process.name.clone());
        }
        // 3. Allowlist (bypasses ancestry check)
        if self.config.is_allowed(process.name.as_str()) {
            return KillPermission::AllowedByAllowlist;
        }
        // 4. Ancestry (default check)
        if self.ancestry.is_descendant(process.pid) {
            return KillPermission::Allowed;
        }
        KillPermission::DeniedNotDescendant
    }

    /// Check if a process can be killed for port-based killing: only suicide
    /// prevention and the denylist apply, not ancestry nor the allowlist.
    pub fn can_kill_for_port(&self, pid: u32, name: &str) -> (r: KillPermission)
        ensures
            r@ == spec_can_kill_for_port(self@, pid, name@),
    {
        if self.ancestry.is_suicide(pid) {
            return KillPermission::DeniedSuicidePrevention;
        }
        if self.config.is_denied(name) {
            return KillPermission::DeniedByDenylist(String::from_str(name));
        }
        KillPermission::Allowed
    }

    /// The error that reports a denial.
    fn denial_error(permission: &KillPermission, pid: u32, name: &str) -> (r: SafeKillError)
        ensures
            r@ == permission@.denial_error(pid, name@),
    {
        match permission {
            KillPermission::DeniedByDenylist(n) => SafeKillError::Denylisted(n.clone()),
            KillPermission::DeniedNotDescendant => SafeKillError::NotDescendant(
                pid,
                String::from_str(name),
            ),
            KillPermission::DeniedSuicidePrevention => SafeKillError::SuicidePrevention(pid),
            _ => SafeKillError::SystemError(String::from_str("Unexpected permission")),
        }
    }

    /// The step for one candidate of a batch.
    fn candidate(&self, pid: u32, name: &str, permission: &KillPermission, signal: Signal, dry_run: bool) -> (r:
        KillStep)
        ensures
            r@ == candidate_step(pid, name@, permission@, signal, dry_run),
    {
        if permission.is_allowed() {
            self.killer.kill_with_result(pid, name, signal, dry_run)
        } else {
            let error = Self::denial_error(permission, pid, name);
            KillStep::Finished(KillResult::failure(pid, name, &error))
        }
    }

    /// Kill a process by PID: the step that carries it out, or the error
    /// naming why it is not allowed.
    pub fn kill_by_pid(&self, pid: u32, signal: Signal, dry_run: bool) -> (r: Result<
        KillStep,
        SafeKillError,
    >)
        ensures
            step_result_view(r) == spec_kill_by_pid(self@, pid, signal, dry_run),
    {
        let process = match self.ancestry.provider().get(pid) {
            Some(p) => p,
            None => return Err(SafeKillError::ProcessNotFound(pid)),
        };
        let permission = self.can_kill(&process);
        if permission.is_allowed() {
            Ok(self.killer.kill_with_result(pid, process.name.as_str(), signal, dry_run))
        } else {
            Err(Self::denial_error(&permission, pid, process.name.as_str()))
        }
    }

    /// Kill processes by name: one step per process with exactly this name,
    /// each checked on its own. Fails only when no process has the name.
    pub fn kill_by_name(&self, name: &str, signal: Signal, dry_run: bool) -> (r: Result<
        Vec<KillStep>,
        SafeKillError,
    >)
        ensures
            ({
                let matches = records_named(self@.ancestry.table.records, name@);
                &&& matches.len() == 0 ==> (r matches Err(e) && e@ == ErrorView::ProcessNotFound(0))
                &&& matches.len() > 0 ==> (r matches Ok(steps) && steps_view(steps@) == name_steps(
                    self@,
                    matches,
                    signal,
                    dry_run,
                ))
            }),
    {
        let processes = self.ancestry.provider().find_by_name(name);
        if processes.len() == 0 {
            return Err(SafeKillError::ProcessNotFound(0));
        }
        let ghost matches = records_view(processes@);
        let mut steps: Vec<KillStep> = Vec::new();
        let mut i: usize = 0;
        while i < processes.len()
            invariant
                i <= processes@.len(),
                matches == records_view(processes@),
                steps@.len() == i,
                forall|j: int| 0 <= j < i ==> #[trigger] steps@[j]@ == name_steps(self@, matches, signal, dry_run)[j],
            decreases processes@.len() - i,
        {
            let process = &processes[i];
            let permission = self.can_kill(process);
            let step = self.candidate(process.pid, process.name.as_str(), &permission, signal, dry_run);
            steps.push(step);
            i = i + 1;
        }
        assert(steps_view(steps@) =~= name_steps(self@, matches, signal, dry_run));
        Ok(steps)
    }

    /// Kill processes by port, given the sockets the operating system
    /// reported. The port must be allowed by the configuration; only suicide
    /// prevention and the denylist apply to the processes bound to it.
    pub fn kill_by_port(&self, port: u16, signal: Signal, dry_run: bool, sockets: &Vec<SocketEntry>) -> (r:
        Result<Vec<KillStep>, SafeKillError>)
        ensures
            self@.config.allowed_ports is None ==> (r matches Err(e) && e@ is PortNotAllowed),
            !self@.config.spec_port_allowed(port) ==> (r matches Err(e) && e@
                == ErrorView::PortNotAllowed { port, hint: port_hint(port) }),
            self@.config.spec_port_allowed(port) && (forall|pid: u32, proto: PortProtocol|
                !reported(sockets@, port, pid, proto)) ==> (r matches Err(e) && e@
                == ErrorView::NoProcessOnPort(port)),
            self@.config.spec_port_allowed(port) && (exists|pid: u32, proto: PortProtocol|
                reported(sockets@, port, pid, proto)) ==> (r matches Ok(steps) && exists|
                listeners: Seq<PortProcess>,
            |
                lists_listeners(self@.ancestry.table, sockets@, port, listeners) && steps_view(
                    steps@,
                ) == port_steps(self@, listeners, signal, dry_run)),
    {
        // 1. The port must be allowed by the configuration
        proof {
            if self@.config.allowed_ports is None {
                lemma_no_port_configuration_allows_nothing(self@.config, port);
            }
        }
        if let Err(e) = self.config.check_port_allowed(port) {
            return Err(e);
        }
        // 2. The processes bound to the port
        let listeners = listeners_on_port(self.ancestry.provider(), port, sockets);
        if listeners.len() == 0 {
            proof {
                if exists|pid: u32, proto: PortProtocol| reported(sockets@, port, pid, proto) {
                    let (pid, proto) = choose|pid: u32, proto: PortProtocol| reported(sockets@, port, pid, proto);
                    assert(has_pid(listeners@, pid));
                }
            }
            return Err(SafeKillError::NoProcessOnPort(port));
        }
        // 3. Suicide prevention and denylist for each of them
        let mut steps: Vec<KillStep> = Vec::new();
        let mut i: usize = 0;
        while i < listeners.len()
            invariant
                i <= listeners@.len(),
                steps@.len() == i,
                forall|j: int| 0 <= j < i ==> #[trigger] steps@[j]@ == port_steps(self@, listeners@, signal, dry_run)[j],
            decreases listeners@.len() - i,
        {
            let listener = &listeners[i];
            let permission = self.can_kill_for_port(listener.pid, listener.name.as_str());
            let step = self.candidate(listener.pid, listener.name.as_str(), &permission, signal, dry_run);
            steps.push(step);
            i = i + 1;
        }
        proof {
            assert(steps_view(steps@) =~= port_steps(self@, listeners@, signal, dry_run));
            assert(0 < listeners@.len());
            let l = listeners@[0];
            assert(reported(sockets@, port, l.pid, l.protocol));
        }
        Ok(steps)
    }

    /// List all processes that can be killed
    pub fn list_killable(&self) -> (r: Vec<ProcessInfo>)
        ensures
            records_view(r@) == killable_records(self@, self@.ancestry.table.records),
    {
        let all = self.ancestry.provider().all();
        let ghost recs = records_view(all@);
        let mut out: Vec<ProcessInfo> = Vec::new();
        let mut i: usize = 0;
        while i < all.len()
            invariant
                i <= all@.len(),
                recs == records_view(all@),
                recs == self@.ancestry.table.records,
                records_view(out@) == killable_records(self@, recs.subrange(0, i as int)),
            decreases all@.len() - i,
        {
            let ghost next = recs.subrange(0, i + 1);
            assert(next.drop_last() =~= recs.subrange(0, i as int));
            assert(next.last() == all@[i as int]@);
            if self.can_kill(&all[i]).is_allowed() {
                out.push(all[i].duplicate());
            }
            i = i + 1;
            assert(records_view(out@) =~= killable_records(self@, recs.subrange(0, i as int)));
        }
        assert(recs.subrange(0, i as int) =~= recs);
        out
    }

    /// Get the current root PID
    pub fn root_pid(&self) -> (r: u32)
        ensures
            r == self@.ancestry.root_pid,
    {
        self.ancestry.root_pid()
    }

    /// Get a reference to the configuration
    pub fn config(&self) -> (r: &Config)
        ensures
            *r == self@.config,
    {
        &self.config
    }
}

} // verus!
