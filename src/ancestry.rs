//! Ancestry checks over the process table: which processes descend from the
//! trust root, and which ones the tool must never signal.
use vstd::prelude::*;
use crate::process_info::{ProcessInfoProvider, ProcessTable, parent_of};
use crate::text::{parse_u32, unsigned_value};

verus! {

/// Maximum depth for ancestry traversal to prevent infinite loops
pub const MAX_ANCESTRY_DEPTH: u32 = 100;

/// Environment variable to override the root PID
pub const ROOT_PID_ENV_VAR: &'static str = "SAFE_KILL_ROOT_PID";

/// Whether walking up from `cur`, at most `fuel` parent links, meets
/// `ancestor` before the snapshot runs out, a process has no parent, or pid 1
/// is reached.
pub open spec fn descends_within(table: ProcessTable, cur: u32, ancestor: u32, fuel: nat) -> bool
    decreases fuel,
{
    if fuel == 0 {
        false
    } else {
        match parent_of(table, cur) {
            None => false,
            Some(p) => if p == ancestor {
                true
            } else if p == 1 {
                false
            } else {
                descends_within(table, p, ancestor, (fuel - 1) as nat)
            },
        }
    }
}

/// A process descends from itself, and from whatever the bounded walk meets.
pub open spec fn spec_is_descendant_of(table: ProcessTable, target: u32, ancestor: u32) -> bool {
    target == ancestor || descends_within(table, target, ancestor, MAX_ANCESTRY_DEPTH as nat)
}

/// Killing `target` would kill the tool itself or its direct parent.
pub open spec fn spec_is_suicide(table: ProcessTable, target: u32) -> bool {
    target == table.current_pid || parent_of(table, table.current_pid) == Some(target)
}

/// The trust root: an override that reads as a pid, else the grandparent of
/// the tool, else its parent, else the tool itself.
pub open spec fn spec_root_pid(table: ProcessTable, root_override: Option<Seq<char>>) -> u32 {
    let own = table.current_pid;
    let from_tree = match parent_of(table, own) {
        Some(p) => match parent_of(table, p) {
            Some(g) => g,
            None => p,
        },
        None => own,
    };
    match root_override {
        Some(v) => match unsigned_value(v, u32::MAX as int) {
            Some(n) => n as u32,
            None => from_tree,
        },
        None => from_tree,
    }
}

/// The view of an optional string.
pub open spec fn option_str_view(o: Option<&str>) -> Option<Seq<char>> {
    match o {
        Some(s) => Some(s@),
        None => None,
    }
}

/// `chain` follows parent links: each element's recorded parent is the next.
pub open spec fn is_parent_chain(table: ProcessTable, chain: Seq<u32>) -> bool {
    &&& chain.len() >= 2
    &&& forall|i: int| 0 <= i < chain.len() - 1 ==> parent_of(table, #[trigger] chain[i]) == Some(
        chain[i + 1],
    )
}

/// No element strictly between the ends of `chain` is pid 1.
pub open spec fn avoids_init(chain: Seq<u32>) -> bool {
    forall|i: int| 0 < i < chain.len() - 1 ==> #[trigger] chain[i] != 1
}

/// A chain of at most `hops` parent links from `from` to `to` that does not
/// pass through pid 1.
pub open spec fn is_lineage(table: ProcessTable, chain: Seq<u32>, from: u32, to: u32, hops: nat) -> bool {
    &&& is_parent_chain(table, chain)
    &&& avoids_init(chain)
    &&& chain[0] == from
    &&& chain.last() == to
    &&& chain.len() - 1 <= hops
}

proof fn lemma_lineage_descends(table: ProcessTable, chain: Seq<u32>, from: u32, to: u32, fuel: nat)
    requires
        is_lineage(table, chain, from, to, fuel),
    ensures
        descends_within(table, from, to, fuel),
    decreases fuel,
{
    assert(parent_of(table, chain[0]) == Some(chain[1]));
    if chain[1] != to {
        assert(chain.len() > 2);
        assert(chain[1] != 1);
        let rest = chain.drop_first();
        assert forall|i: int| 0 <= i < rest.len() - 1 implies parent_of(table, #[trigger] rest[i])
            == Some(rest[i + 1]) by {
            assert(rest[i] == chain[i + 1]);
            assert(parent_of(table, chain[i + 1]) == Some(chain[i + 2]));
        }
        assert forall|i: int| 0 < i < rest.len() - 1 implies #[trigger] rest[i] != 1 by {
            assert(rest[i] == chain[i + 1]);
        }
        lemma_lineage_descends(table, rest, chain[1], to, (fuel - 1) as nat);
    }
}

proof fn lemma_descends_lineage(table: ProcessTable, from: u32, to: u32, fuel: nat) -> (chain: Seq<
    u32,
>)
    requires
        descends_within(table, from, to, fuel),
    ensures
        is_lineage(table, chain, from, to, fuel),
    decreases fuel,
{
    let p = parent_of(table, from)->Some_0;
    if p == to {
        let chain = seq![from, to];
        assert(parent_of(table, chain[0]) == Some(chain[1]));
        chain
    } else {
        let rest = lemma_descends_lineage(table, p, to, (fuel - 1) as nat);
        let chain = seq![from] + rest;
        assert forall|i: int| 0 <= i < chain.len() - 1 implies parent_of(table, #[trigger] chain[i])
            == Some(chain[i + 1]) by {
            if i > 0 {
                assert(chain[i] == rest[i - 1]);
                assert(parent_of(table, rest[i - 1]) == Some(rest[i]));
            }
        }
        assert forall|i: int| 0 < i < chain.len() - 1 implies #[trigger] chain[i] != 1 by {
            assert(chain[i] == rest[i - 1]);
        }
        chain
    }
}

/// Descent is exactly reachability: `target` descends from `ancestor` if and
/// only if it is `ancestor`, or a chain of at most `MAX_ANCESTRY_DEPTH` parent
/// links leads from it to `ancestor` without passing through pid 1. Chains that
/// need more links, or that pass pid 1 first, do not count.
pub proof fn lemma_descendant_iff_lineage(table: ProcessTable, target: u32, ancestor: u32)
    ensures
        spec_is_descendant_of(table, target, ancestor) <==> (target == ancestor || exists|
            chain: Seq<u32>,
        | is_lineage(table, chain, target, ancestor, MAX_ANCESTRY_DEPTH as nat)),
{
    let fuel = MAX_ANCESTRY_DEPTH as nat;
    if descends_within(table, target, ancestor, fuel) {
        let chain = lemma_descends_lineage(table, target, ancestor, fuel);
        assert(is_lineage(table, chain, target, ancestor, fuel));
    }
    if exists|chain: Seq<u32>| is_lineage(table, chain, target, ancestor, fuel) {
        let chain = choose|chain: Seq<u32>| is_lineage(table, chain, target, ancestor, fuel);
        lemma_lineage_descends(table, chain, target, ancestor, fuel);
    }
}

/// The mathematical value of an `AncestryChecker`.
pub struct AncestryModel {
    pub table: ProcessTable,
    pub root_pid: u32,
}

/// Ancestry checker for process tree verification
pub struct AncestryChecker {
    provider: ProcessInfoProvider,
    root_pid: u32,
}

impl View for AncestryChecker {
    type V = AncestryModel;

    closed spec fn view(&self) -> AncestryModel {
        AncestryModel { table: self.provider@, root_pid: self.root_pid }
    }
}

impl AncestryChecker {
    /// Create a new AncestryChecker; the trust root comes from `root_override`
    /// (the value of `ROOT_PID_ENV_VAR`, if set) or from the process tree.
    pub fn new(provider: ProcessInfoProvider, root_override: Option<&str>) -> (r: Self)
        ensures
            r@ == (AncestryModel {
                table: provider@,
                root_pid: spec_root_pid(provider@, option_str_view(root_override)),
            }),
    {
        let root_pid = Self::get_root_pid(&provider, root_override);
        AncestryChecker { provider, root_pid }
    }

    /// Create a new AncestryChecker with a specific root PID
    pub fn with_root_pid(provider: ProcessInfoProvider, root_pid: u32) -> (r: Self)
        ensures
            r@ == (AncestryModel { table: provider@, root_pid }),
    {
        AncestryChecker { provider, root_pid }
    }

    /// Get the root PID (trust root)
    ///
    /// Priority:
    /// 1. The override, when it reads as a pid
    /// 2. Parent of the calling shell (grandparent of current process)
    /// 3. Parent of the current process
    /// 4. Current process PID as fallback
    pub fn get_root_pid(provider: &ProcessInfoProvider, root_override: Option<&str>) -> (r: u32)
        ensures
            r == spec_root_pid(provider@, option_str_view(root_override)),
    {
        if let Some(text) = root_override {
            if let Some(pid) = parse_u32(text) {
                return pid;
            }
        }
        let current_pid = provider.current_pid();
        if let Some(current_info) = provider.get(current_pid) {
            if let Some(parent_pid) = current_info.parent_pid {
                if let Some(parent_info) = provider.get(parent_pid) {
                    if let Some(grandparent_pid) = parent_info.parent_pid {
                        return grandparent_pid;
                    }
                }
                return parent_pid;
            }
        }
        current_pid
    }

    /// Get the configured root PID
    pub fn root_pid(&self) -> (r: u32)
        ensures
            r == self@.root_pid,
    {
        self.root_pid
    }

    /// The process table the checks read.
    pub fn provider(&self) -> (r: &ProcessInfoProvider)
        ensures
            r@ == self@.table,
    {
        &self.provider
    }

    /// Check if target_pid is a descendant of root_pid
    pub fn is_descendant(&self, target_pid: u32) -> (r: bool)
        ensures
            r == spec_is_descendant_of(self@.table, target_pid, self@.root_pid),
            target_pid == self@.root_pid ==> r,
    {
        self.is_descendant_of(target_pid, self.root_pid)
    }

    /// Check if target_pid is a descendant of a specific ancestor_pid
    ///
    /// Traverses the PPID chain from target_pid upward until:
    /// - ancestor_pid is found (returns true)
    /// - PID 1 (init) is reached (returns false)
    /// - Maximum depth is exceeded (returns false)
    /// - Process not found (returns false)
    pub fn is_descendant_of(&self, target_pid: u32, ancestor_pid: u32) -> (r: bool)
        ensures
            r == spec_is_descendant_of(self@.table, target_pid, ancestor_pid),
            target_pid == ancestor_pid ==> r,
    {
        if target_pid == ancestor_pid {
            return true;
        }
        let ghost table = self@.table;
        let mut current_pid = target_pid;
        let mut depth: u32 = 0;
        while depth < MAX_ANCESTRY_DEPTH
            invariant
                depth <= MAX_ANCESTRY_DEPTH,
                table == self@.table,
                target_pid != ancestor_pid,
                spec_is_descendant_of(table, target_pid, ancestor_pid) == descends_within(
                    table,
                    current_pid,
                    ancestor_pid,
                    (MAX_ANCESTRY_DEPTH - depth) as nat,
                ),
            decreases MAX_ANCESTRY_DEPTH - depth,
        {
            let info = match self.provider.get(current_pid) {
                Some(info) => info,
                None => return false,
            };
            let parent_pid = match info.parent_pid {
                Some(p) => p,
                None => return false,
            };
            if parent_pid == ancestor_pid {
                return true;
            }
            if parent_pid == 1 {
                return false;
            }
            current_pid = parent_pid;
            depth = depth + 1;
        }
        false
    }

    /// Check if killing target_pid would be suicide (killing self or parent)
    pub fn is_suicide(&self, target_pid: u32) -> (r: bool)
        ensures
            r == spec_is_suicide(self@.table, target_pid),
    {
        let current_pid = self.provider.current_pid();
        if target_pid == current_pid {
            return true;
        }
        match self.provider.current_parent_pid() {
            Some(parent_pid) => target_pid == parent_pid,
            None => false,
        }
    }

    /// Replace the process table with a fresh snapshot; the trust root stays.
    pub fn refresh(&mut self, provider: ProcessInfoProvider)
        ensures
            final(self)@ == (AncestryModel { table: provider@, root_pid: old(self)@.root_pid }),
    {
        self.provider = provider;
    }
}

} // verus!
