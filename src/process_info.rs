//! The process table: a snapshot of the processes that the operating system
//! reported, taken by the caller and refreshed by replacing it.
use vstd::prelude::*;
use crate::text::{copy_strings, str_eq, strings_view};

verus! {

/// Information about a single process
#[derive(Debug, Clone, PartialEq, Eq)]
pub struct ProcessInfo {
    /// Process ID
    pub pid: u32,
    /// Parent process ID (None if no parent or unknown)
    pub parent_pid: Option<u32>,
    /// Process name
    pub name: String,
    /// Command line arguments
    pub cmd: Vec<String>,
}

/// The mathematical value of a `ProcessInfo`.
pub struct ProcessRecord {
    pub pid: u32,
    pub parent_pid: Option<u32>,
    pub name: Seq<char>,
    pub cmd: Seq<Seq<char>>,
}

impl View for ProcessInfo {
    type V = ProcessRecord;

    open spec fn view(&self) -> ProcessRecord {
        ProcessRecord {
            pid: self.pid,
            parent_pid: self.parent_pid,
            name: self.name@,
            cmd: strings_view(self.cmd@),
        }
    }
}

/// The records of a sequence of processes.
pub open spec fn records_view(v: Seq<ProcessInfo>) -> Seq<ProcessRecord> {
    v.map_values(|p: ProcessInfo| p@)
}

/// The record of an optional process.
pub open spec fn option_view(o: Option<ProcessInfo>) -> Option<ProcessRecord> {
    match o {
        Some(p) => Some(p@),
        None => None,
    }
}

/// The mathematical value of a snapshot: its records, in the order the
/// operating system listed them, and the pid of the running tool.
pub struct ProcessTable {
    pub records: Seq<ProcessRecord>,
    pub current_pid: u32,
}

/// The first record with the given pid.
pub open spec fn lookup(records: Seq<ProcessRecord>, pid: u32) -> Option<ProcessRecord>
    decreases records.len(),
{
    if records.len() == 0 {
        None
    } else if records[0].pid == pid {
        Some(records[0])
    } else {
        lookup(records.drop_first(), pid)
    }
}

/// The parent that the snapshot records for `pid`.
pub open spec fn parent_of(table: ProcessTable, pid: u32) -> Option<u32> {
    match lookup(table.records, pid) {
        Some(r) => r.parent_pid,
        None => None,
    }
}

/// The records whose name is exactly `name`, in order.
pub open spec fn records_named(records: Seq<ProcessRecord>, name: Seq<char>) -> Seq<ProcessRecord>
    decreases records.len(),
{
    if records.len() == 0 {
        Seq::empty()
    } else {
        let before = records_named(records.drop_last(), name);
        if records.last().name == name {
            before.push(records.last())
        } else {
            before
        }
    }
}

impl ProcessInfo {
    /// A copy of this record.
    pub fn duplicate(&self) -> (r: Self)
        ensures
            r@ == self@,
    {
        ProcessInfo {
            pid: self.pid,
            parent_pid: self.parent_pid,
            name: self.name.clone(),
            cmd: copy_strings(&self.cmd),
        }
    }
}

/// Provider of process information: a snapshot of the process table
pub struct ProcessInfoProvider {
    processes: Vec<ProcessInfo>,
    current_pid: u32,
}

impl View for ProcessInfoProvider {
    type V = ProcessTable;

    closed spec fn view(&self) -> ProcessTable {
        ProcessTable { records: records_view(self.processes@), current_pid: self.current_pid }
    }
}

impl ProcessInfoProvider {
    /// A provider over the given processes, as seen by the process `current_pid`.
    pub fn from_snapshot(processes: Vec<ProcessInfo>, current_pid: u32) -> (r: Self)
        ensures
            r@ == (ProcessTable { records: records_view(processes@), current_pid }),
    {
        ProcessInfoProvider { processes, current_pid }
    }

    /// Get process information by PID
    pub fn get(&self, pid: u32) -> (r: Option<ProcessInfo>)
        ensures
            option_view(r) == lookup(self@.records, pid),
    {
        let ghost recs = self@.records;
        let mut i: usize = 0;
        assert(recs.subrange(0, recs.len() as int) =~= recs);
        while i < self.processes.len()
            invariant
                i <= self.processes@.len(),
                recs == self@.records,
                recs.len() == self.processes@.len(),
                lookup(recs, pid) == lookup(recs.subrange(i as int, recs.len() as int), pid),
            decreases self.processes@.len() - i,
        {
            let ghost rest = recs.subrange(i as int, recs.len() as int);
            assert(rest[0] == self.processes@[i as int]@);
            if self.processes[i].pid == pid {
                return Some(self.processes[i].duplicate());
            }
            assert(rest.drop_first() =~= recs.subrange(i + 1, recs.len() as int));
            i = i + 1;
        }
        None
    }

    /// Find all processes matching the given name (exact match)
    pub fn find_by_name(&self, name: &str) -> (r: Vec<ProcessInfo>)
        ensures
            records_view(r@) == records_named(self@.records, name@),
    {
        let ghost recs = self@.records;
        let mut out: Vec<ProcessInfo> = Vec::new();
        let mut i: usize = 0;
        while i < self.processes.len()
            invariant
                i <= self.processes@.len(),
                recs == self@.records,
                recs.len() == self.processes@.len(),
                records_view(out@) == records_named(recs.subrange(0, i as int), name@),
            decreases self.processes@.len() - i,
        {
            let ghost next = recs.subrange(0, i + 1);
            assert(next.drop_last() =~= recs.subrange(0, i as int));
            assert(next.last() == self.processes@[i as int]@);
            if str_eq(self.processes[i].name.as_str(), name) {
                out.push(self.processes[i].duplicate());
            }
            i = i + 1;
            assert(records_view(out@) =~= records_named(recs.subrange(0, i as int), name@));
        }
        assert(recs.subrange(0, i as int) =~= recs);
        out
    }

    /// Get all processes
    pub fn all(&self) -> (r: Vec<ProcessInfo>)
        ensures
            records_view(r@) == self@.records,
    {
        let mut out: Vec<ProcessInfo> = Vec::new();
        let mut i: usize = 0;
        while i < self.processes.len()
            invariant
                i <= self.processes@.len(),
                out@.len() == i,
                forall|j: int| 0 <= j < i ==> out@[j]@ == self.processes@[j]@,
            decreases self.processes@.len() - i,
        {
            out.push(self.processes[i].duplicate());
            i = i + 1;
        }
        assert(records_view(out@) =~= records_view(self.processes@));
        out
    }

    /// Get current process PID
    pub fn current_pid(&self) -> (r: u32)
        ensures
            r == self@.current_pid,
    {
        self.current_pid
    }

    /// Get parent PID of current process
    pub fn current_parent_pid(&self) -> (r: Option<u32>)
        ensures
            r == parent_of(self@, self@.current_pid),
    {
        match self.get(self.current_pid) {
            Some(p) => p.parent_pid,
            None => None,
        }
    }
}

} // verus!
