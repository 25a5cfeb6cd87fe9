//! Processes bound to a port, from the sockets the operating system reported.
use vstd::prelude::*;
use crate::process_info::{
    ProcessInfo, ProcessInfoProvider, ProcessRecord, ProcessTable, lookup, records_view,
};
use crate::text::{decimal, decimal_string};

verus! {

/// Protocol type for port binding
#[derive(Debug, Clone, Copy, PartialEq, Eq, Structural)]
pub enum PortProtocol {
    Tcp,
    Udp,
}

impl PortProtocol {
    pub open spec fn spec_label(self) -> Seq<char> {
        match self {
            PortProtocol::Tcp => "TCP"@,
            PortProtocol::Udp => "UDP"@,
        }
    }

    /// The protocol's name as shown to the user: "TCP" or "UDP".
    pub fn to_string(&self) -> (r: String)
        ensures
            r@ == self.spec_label(),
    {
        match self {
            PortProtocol::Tcp => String::from_str("TCP"),
            PortProtocol::Udp => String::from_str("UDP"),
        }
    }
}

/// Information about a process using a specific port
#[derive(Debug, Clone)]
pub struct PortProcess {
    /// Process ID
    pub pid: u32,
    /// Process name
    pub name: String,
    /// Port number
    pub port: u16,
    /// Protocol (TCP or UDP)
    pub protocol: PortProtocol,
}

/// One socket as the operating system reported it: its local port, its
/// protocol, and the processes that hold it.
#[derive(Debug, Clone)]
pub struct SocketEntry {
    pub local_port: u16,
    pub protocol: PortProtocol,
    pub pids: Vec<u32>,
}

/// Some socket on `port` with `protocol` is held by `pid`.
pub open spec fn reported(sockets: Seq<SocketEntry>, port: u16, pid: u32, protocol: PortProtocol) -> bool {
    exists|s: int, k: int|
        0 <= s < sockets.len() && sockets[s].local_port == port && sockets[s].protocol == protocol
            && 0 <= k < sockets[s].pids@.len() && #[trigger] sockets[s].pids@[k] == pid
}

/// The name shown for a process bound to a port: the snapshot's name for it,
/// or `pid:N` when the snapshot does not know it.
pub open spec fn listener_name(table: ProcessTable, pid: u32) -> Seq<char> {
    match lookup(table.records, pid) {
        Some(r) => r.name,
        None => "pid:"@ + decimal(pid as nat),
    }
}

/// Some entry of `out` is for `pid`.
pub open spec fn has_pid(out: Seq<PortProcess>, pid: u32) -> bool {
    exists|a: int| 0 <= a < out.len() && #[trigger] out[a].pid == pid
}

/// The entries are ordered by pid, with no pid twice.
pub open spec fn strictly_by_pid(out: Seq<PortProcess>) -> bool {
    forall|a: int, b: int| 0 <= a < b < out.len() ==> out[a].pid < out[b].pid
}

/// An entry stands for a process that holds a socket on `port`.
pub open spec fn entry_ok(table: ProcessTable, sockets: Seq<SocketEntry>, port: u16, e: PortProcess) -> bool {
    &&& reported(sockets, port, e.pid, e.protocol)
    &&& e.port == port
    &&& e.name@ == listener_name(table, e.pid)
}

/// `out` lists, once each and by increasing pid, the processes that hold a
/// socket on `port`; each with a protocol of one of its sockets on the port.
pub open spec fn lists_listeners(table: ProcessTable, sockets: Seq<SocketEntry>, port: u16, out: Seq<
    PortProcess,
>) -> bool {
    &&& strictly_by_pid(out)
    &&& forall|a: int| 0 <= a < out.len() ==> entry_ok(table, sockets, port, #[trigger] out[a])
    &&& forall|pid: u32, proto: PortProtocol| reported(sockets, port, pid, proto) ==> has_pid(out, pid)
}

/// The name shown for a process bound to a port.
fn name_for(provider: &ProcessInfoProvider, pid: u32) -> (r: String)
    ensures
        r@ == listener_name(provider@, pid),
{
    match provider.get(pid) {
        Some(info) => info.name,
        None => String::from_str("pid:").concat(decimal_string(pid as u64).as_str()),
    }
}

/// Where `pid` belongs in a list ordered by pid.
fn insertion_point(out: &Vec<PortProcess>, pid: u32) -> (r: usize)
    requires
        strictly_by_pid(out@),
    ensures
        r <= out@.len(),
        forall|a: int| 0 <= a < r ==> out@[a].pid < pid,
        forall|a: int| r <= a < out@.len() ==> out@[a].pid >= pid,
{
    let mut i: usize = 0;
    while i < out.len() && out[i].pid < pid
        invariant
            i <= out@.len(),
            strictly_by_pid(out@),
            forall|a: int| 0 <= a < i ==> out@[a].pid < pid,
        decreases out@.len() - i,
    {
        i = i + 1;
    }
    i
}

/// The processes holding a socket on `port`, once each, ordered by pid.
pub fn listeners_on_port(provider: &ProcessInfoProvider, port: u16, sockets: &Vec<SocketEntry>) -> (r:
    Vec<PortProcess>)
    ensures
        lists_listeners(provider@, sockets@, port, r@),
{
    let ghost table = provider@;
    let ghost socks = sockets@;
    let mut out: Vec<PortProcess> = Vec::new();
    let mut s: usize = 0;
    while s < sockets.len()
        invariant
            s <= socks.len(),
            socks == sockets@,
            table == provider@,
            strictly_by_pid(out@),
            forall|a: int| 0 <= a < out@.len() ==> entry_ok(table, socks, port, #[trigger] out@[a]),
            forall|s2: int, k: int|
                0 <= s2 < s && socks[s2].local_port == port && 0 <= k < socks[s2].pids@.len()
                    ==> has_pid(out@, #[trigger] socks[s2].pids@[k]),
        decreases socks.len() - s,
    {
        let entry = &sockets[s];
        if entry.local_port == port {
            let mut k: usize = 0;
            while k < entry.pids.len()
                invariant
                    s < socks.len(),
                    k <= entry.pids@.len(),
                    *entry == socks[s as int],
                    entry.local_port == port,
                    socks == sockets@,
                    table == provider@,
                    strictly_by_pid(out@),
                    forall|a: int|
                        0 <= a < out@.len() ==> entry_ok(table, socks, port, #[trigger] out@[a]),
                    forall|s2: int, k2: int|
                        0 <= s2 < s && socks[s2].local_port == port && 0 <= k2
                            < socks[s2].pids@.len() ==> has_pid(out@, #[trigger] socks[s2].pids@[k2]),
                    forall|k2: int| 0 <= k2 < k ==> has_pid(out@, #[trigger] entry.pids@[k2]),
                decreases entry.pids@.len() - k,
            {
                let pid = entry.pids[k];
                let at = insertion_point(&out, pid);
                if at < out.len() && out[at].pid == pid {
                    assert(has_pid(out@, pid));
                } else {
                    let ghost old_out = out@;
                    let listener = PortProcess {
                        pid,
                        name: name_for(provider, pid),
                        port,
                        protocol: entry.protocol,
                    };
                    assert(entry_ok(table, socks, port, listener)) by {
                        assert(socks[s as int].pids@[k as int] == pid);
                    }
                    out.insert(at, listener);
                    proof {
                        old_out.insert_ensures(at as int, listener);
                        assert(out@[at as int].pid == pid);
                        assert forall|p: u32| has_pid(old_out, p) implies has_pid(out@, p) by {
                            let b = choose|b: int| 0 <= b < old_out.len() && #[trigger] old_out[b].pid == p;
                            if b < at {
                                assert(out@[b].pid == p);
                            } else {
                                assert(out@[b + 1].pid == p);
                            }
                        }
                        assert forall|a: int| 0 <= a < out@.len() implies entry_ok(
                            table,
                            socks,
                            port,
                            #[trigger] out@[a],
                        ) by {
                            if a < at {
                                assert(out@[a] == old_out[a]);
                            } else if a > at {
                                assert(out@[a] == old_out[a - 1]);
                            }
                        }
                        assert forall|a: int, b: int| 0 <= a < b < out@.len() implies out@[a].pid
                            < out@[b].pid by {
                            if b < at {
                                assert(out@[a] == old_out[a] && out@[b] == old_out[b]);
                            } else if b == at {
                                assert(out@[a] == old_out[a]);
                            } else if a < at {
                                assert(out@[a] == old_out[a] && out@[b] == old_out[b - 1]);
                            } else if a == at {
                                assert(out@[b] == old_out[b - 1]);
                            } else {
                                assert(out@[a] == old_out[a - 1] && out@[b] == old_out[b - 1]);
                            }
                        }
                    }
                }
                k = k + 1;
            }
        }
        s = s + 1;
    }
    assert forall|pid: u32, proto: PortProtocol| reported(socks, port, pid, proto) implies has_pid(
        out@,
        pid,
    ) by {
        let (s2, k2) = choose|s2: int, k2: int|
            0 <= s2 < socks.len() && socks[s2].local_port == port && socks[s2].protocol == proto
                && 0 <= k2 < socks[s2].pids@.len() && #[trigger] socks[s2].pids@[k2] == pid;
        assert(has_pid(out@, socks[s2].pids@[k2]));
    }
    out
}

/// Port detector that finds processes using specific ports
pub struct PortDetector {
    provider: ProcessInfoProvider,
}

impl View for PortDetector {
    type V = ProcessTable;

    closed spec fn view(&self) -> ProcessTable {
        self.provider@
    }
}

impl PortDetector {
    /// Create a new PortDetector over a process snapshot
    pub fn new(provider: ProcessInfoProvider) -> (r: Self)
        ensures
            r@ == provider@,
    {
        PortDetector { provider }
    }

    /// Find all processes using the specified port, given the sockets the
    /// operating system reported (TCP and UDP). Each process appears once.
    pub fn find_by_port(&self, port: u16, sockets: &Vec<SocketEntry>) -> (r: Vec<PortProcess>)
        ensures
            lists_listeners(self@, sockets@, port, r@),
    {
        listeners_on_port(&self.provider, port, sockets)
    }

    /// Get process info for all processes using the specified port, in the
    /// order of `find_by_port`, leaving out those the snapshot does not know.
    pub fn get_process_info(&self, port: u16, sockets: &Vec<SocketEntry>) -> (r: Vec<ProcessInfo>)
        ensures
            exists|listeners: Seq<PortProcess>|
                lists_listeners(self@, sockets@, port, listeners) && records_view(r@)
                    == known_records(self@, listeners),
    {
        let listeners = self.find_by_port(port, sockets);
        let mut out: Vec<ProcessInfo> = Vec::new();
        let mut i: usize = 0;
        while i < listeners.len()
            invariant
                i <= listeners@.len(),
                records_view(out@) == known_records(self@, listeners@.subrange(0, i as int)),
            decreases listeners@.len() - i,
        {
            let ghost next = listeners@.subrange(0, i + 1);
            assert(next.drop_last() =~= listeners@.subrange(0, i as int));
            let found = self.provider.get(listeners[i].pid);
            if let Some(info) = found {
                out.push(info);
            }
            i = i + 1;
            assert(records_view(out@) =~= known_records(self@, listeners@.subrange(0, i as int)));
        }
        assert(listeners@.subrange(0, i as int) =~= listeners@);
        out
    }

    /// Replace the process table with a fresh snapshot
    pub fn refresh(&mut self, provider: ProcessInfoProvider)
        ensures
            final(self)@ == provider@,
    {
        self.provider = provider;
    }
}

/// The snapshot's records of the listed processes, in order, leaving out
/// those it does not know.
pub open spec fn known_records(table: ProcessTable, listeners: Seq<PortProcess>) -> Seq<ProcessRecord>
    decreases listeners.len(),
{
    if listeners.len() == 0 {
        Seq::empty()
    } else {
        let before = known_records(table, listeners.drop_last());
        match lookup(table.records, listeners.last().pid) {
            Some(rec) => before.push(rec),
            None => before,
        }
    }
}

} // verus!
