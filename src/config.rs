//! The rule set: allow and deny lists of process names, and the ports that
//! may be targeted.
use vstd::prelude::*;
use crate::error::{ErrorView, SafeKillError, view_result};
use crate::text::{strings_view, decimal, decimal_string, find_char, parse_u16, position_of, trim_str, trim_ws, unsigned_value};

verus! {

/// Main configuration structure
#[derive(Debug, Default, Clone, PartialEq, Eq)]
pub struct Config {
    /// Processes that bypass ancestry checks (killed without descendant verification)
    pub allowlist: Option<ProcessList>,
    /// Processes that can never be killed (takes precedence over allowlist)
    pub denylist: Option<ProcessList>,
    /// Allowed ports for port-scoped kill operations
    pub allowed_ports: Option<AllowedPorts>,
}

/// List of process names
#[derive(Debug, Clone, PartialEq, Eq)]
pub struct ProcessList {
    /// Process names in the list
    pub processes: Vec<String>,
}

/// Allowed ports configuration
#[derive(Debug, Clone, PartialEq, Eq)]
pub struct AllowedPorts {
    /// Port specifications (can be single port "3306" or range "3000-3100")
    pub ports: Vec<String>,
}

/// Represents a port range or single port
#[derive(Debug, Clone, Copy, PartialEq, Eq, Structural)]
pub enum PortRange {
    /// Single port number
    Single(u16),
    /// Port range (inclusive)
    Range { start: u16, end: u16 },
}

/// Whether an optional list holds `name`.
pub open spec fn list_has(list: Option<ProcessList>, name: Seq<char>) -> bool {
    match list {
        Some(l) => strings_view(l.processes@).contains(name),
        None => false,
    }
}

/// What a port specification denotes: `N` or `A-B` with `A <= B`, white space
/// around the whole and around each bound ignored.
pub open spec fn spec_port_parse(s: Seq<char>) -> Result<PortRange, ErrorView> {
    let t = trim_ws(s);
    let k = position_of(t, '-');
    if k < t.len() {
        let rest = t.subrange(k + 1, t.len() as int);
        if position_of(rest, '-') < rest.len() {
            Err(ErrorView::InvalidPortRange(t))
        } else {
            match (
                unsigned_value(trim_ws(t.subrange(0, k)), u16::MAX as int),
                unsigned_value(trim_ws(rest), u16::MAX as int),
            ) {
                (Some(a), Some(b)) => if a <= b {
                    Ok(PortRange::Range { start: a as u16, end: b as u16 })
                } else {
                    Err(ErrorView::InvalidPortRange(t))
                },
                _ => Err(ErrorView::InvalidPortRange(t)),
            }
        }
    } else {
        match unsigned_value(t, u16::MAX as int) {
            Some(p) => Ok(PortRange::Single(p as u16)),
            None => Err(ErrorView::InvalidPortRange(t)),
        }
    }
}

/// The ranges that the specifications denote, in order, skipping those that
/// do not parse.
pub open spec fn parsed_ranges(specs: Seq<Seq<char>>) -> Seq<PortRange>
    decreases specs.len(),
{
    if specs.len() == 0 {
        Seq::empty()
    } else {
        let before = parsed_ranges(specs.drop_last());
        match spec_port_parse(specs.last()) {
            Ok(r) => before.push(r),
            Err(_) => before,
        }
    }
}

/// The remediation hint for a port that is not allowed.
pub open spec fn port_hint(port: u16) -> Seq<char> {
    "Add "@ + decimal(port as nat)
        + " to [allowed_ports] in config.toml or run 'safe-kill init' to create a config file"@
}

/// The names that are protected when no denylist is configured.
pub open spec fn default_denylist_names() -> Seq<Seq<char>> {
    seq![
        "systemd"@,
        "init"@,
        "kthreadd"@,
        "dbus-daemon"@,
        "gnome-shell"@,
        "Xorg"@,
        "sshd"@,
    ]
}

/// The port specifications offered in a freshly written configuration file.
pub open spec fn recommended_port_specs() -> Seq<Seq<char>> {
    seq!["1420"@, "3000-3010"@, "8080"@]
}

/// Port killing is opt-in: without an allowed-port configuration no port is
/// allowed.
pub proof fn lemma_no_port_configuration_allows_nothing(config: Config, port: u16)
    requires
        config.allowed_ports is None,
    ensures
        !config.spec_port_allowed(port),
{
}

impl PortRange {
    pub open spec fn spec_contains(self, port: u16) -> bool {
        match self {
            PortRange::Single(p) => p == port,
            PortRange::Range { start, end } => start <= port && port <= end,
        }
    }

    /// Parse a port specification string into PortRange
    ///
    /// Supports:
    /// - Single port: "3306"
    /// - Range: "3000-3100"
    pub fn parse(spec: &str) -> (r: Result<Self, SafeKillError>)
        ensures
            view_result(r) == spec_port_parse(spec@),
    {
        let spec = trim_str(spec);
        let n = spec.unicode_len();
        let k = find_char(spec, '-');
        if k < n {
            let rest = spec.substring_char(k + 1, n);
            if find_char(rest, '-') < rest.unicode_len() {
                return Err(SafeKillError::InvalidPortRange(String::from_str(spec)));
            }
            let start = parse_u16(trim_str(spec.substring_char(0, k)));
            let end = parse_u16(trim_str(rest));
            match (start, end) {
                (Some(a), Some(b)) => {
                    if a > b {
                        Err(SafeKillError::InvalidPortRange(String::from_str(spec)))
                    } else {
                        Ok(PortRange::Range { start: a, end: b })
                    }
                },
                _ => Err(SafeKillError::InvalidPortRange(String::from_str(spec))),
            }
        } else {
            match parse_u16(spec) {
                Some(p) => Ok(PortRange::Single(p)),
                None => Err(SafeKillError::InvalidPortRange(String::from_str(spec))),
            }
        }
    }

    /// Check if a port is within this range
    pub fn contains(&self, port: u16) -> (r: bool)
        ensures
            r == self.spec_contains(port),
    {
        match self {
            PortRange::Single(p) => *p == port,
            PortRange::Range { start, end } => port >= *start && port <= *end,
        }
    }
}

/// Whether `names` holds `name`.
fn names_contain(names: &Vec<String>, name: &str) -> (r: bool)
    ensures
        r == strings_view(names@).contains(name@),
{
    let target = String::from_str(name);
    let mut i: usize = 0;
    while i < names.len()
        invariant
            i <= names@.len(),
            target@ == name@,
            forall|j: int| 0 <= j < i ==> names@[j]@ != name@,
        decreases names@.len() - i,
    {
        if names[i] == target {
            assert(strings_view(names@)[i as int] == name@);
            return true;
        }
        i = i + 1;
    }
    assert forall|j: int| 0 <= j < strings_view(names@).len() implies strings_view(names@)[j]
        != name@ by {
        assert(strings_view(names@)[j] == names@[j]@);
    }
    false
}

impl Config {
    pub open spec fn spec_is_allowed(self, name: Seq<char>) -> bool {
        list_has(self.allowlist, name)
    }

    pub open spec fn spec_is_denied(self, name: Seq<char>) -> bool {
        list_has(self.denylist, name)
    }

    /// The ranges that the configured port specifications denote.
    pub open spec fn spec_port_ranges(self) -> Seq<PortRange> {
        match self.allowed_ports {
            Some(ap) => parsed_ranges(strings_view(ap.ports@)),
            None => Seq::empty(),
        }
    }

    /// A port is allowed when some configured range holds it; with no port
    /// configuration, none is.
    pub open spec fn spec_port_allowed(self, port: u16) -> bool {
        exists|i: int|
            0 <= i < self.spec_port_ranges().len() && (#[trigger] self.spec_port_ranges()[i]).spec_contains(
                port,
            )
    }

    /// Create config with default denylist
    pub fn with_defaults() -> (r: Self)
        ensures
            r.allowlist is None,
            r.allowed_ports is None,
            r.denylist matches Some(l) && strings_view(l.processes@) == default_denylist_names(),
    {
        Config {
            allowlist: None,
            denylist: Some(ProcessList { processes: Self::default_denylist() }),
            allowed_ports: None,
        }
    }

    /// Merge defaults into existing config: a missing denylist becomes the
    /// default one. Port-based killing stays disabled unless configured.
    pub fn merge_defaults(&mut self)
        ensures
            final(self).allowlist == old(self).allowlist,
            final(self).allowed_ports == old(self).allowed_ports,
            old(self).denylist is Some ==> final(self).denylist == old(self).denylist,
            old(self).denylist is None ==> (final(self).denylist matches Some(l) && strings_view(
                l.processes@,
            ) == default_denylist_names()),
    {
        if self.denylist.is_none() {
            self.denylist = Some(ProcessList { processes: Self::default_denylist() });
        }
    }

    /// Default denylist: the system processes of a Linux desktop or server
    pub fn default_denylist() -> (r: Vec<String>)
        ensures
            strings_view(r@) == default_denylist_names(),
    {
        let r = vec![
            String::from_str("systemd"),
            String::from_str("init"),
            String::from_str("kthreadd"),
            String::from_str("dbus-daemon"),
            String::from_str("gnome-shell"),
            String::from_str("Xorg"),
            String::from_str("sshd"),
        ];
        assert(strings_view(r@) =~= default_denylist_names());
        r
    }

    /// Get recommended allowed ports for sample config file
    ///
    /// These ports are commonly used in development and are included
    /// in the sample configuration:
    /// - 1420: Tauri dev server
    /// - 3000-3010: Node.js dev servers
    /// - 8080: HTTP alternative port
    ///
    /// Port-based killing is disabled unless explicitly configured.
    pub fn default_allowed_ports() -> (r: Vec<String>)
        ensures
            strings_view(r@) == recommended_port_specs(),
    {
        let r = vec![
            String::from_str("1420"),
            String::from_str("3000-3010"),
            String::from_str("8080"),
        ];
        assert(strings_view(r@) =~= recommended_port_specs());
        r
    }

    /// Check if a process name is in the allowlist
    pub fn is_allowed(&self, name: &str) -> (r: bool)
        ensures
            r == self.spec_is_allowed(name@),
    {
        match &self.allowlist {
            Some(list) => names_contain(&list.processes, name),
            None => false,
        }
    }

    /// Check if a process name is in the denylist
    pub fn is_denied(&self, name: &str) -> (r: bool)
        ensures
            r == self.spec_is_denied(name@),
    {
        match &self.denylist {
            Some(list) => names_contain(&list.processes, name),
            None => false,
        }
    }

    /// Get parsed port ranges from configuration
    pub fn get_port_ranges(&self) -> (r: Vec<PortRange>)
        ensures
            r@ == self.spec_port_ranges(),
    {
        let mut out: Vec<PortRange> = Vec::new();
        match &self.allowed_ports {
            None => {},
            Some(ap) => {
                let mut i: usize = 0;
                while i < ap.ports.len()
                    invariant
                        i <= ap.ports@.len(),
                        out@ == parsed_ranges(strings_view(ap.ports@).subrange(0, i as int)),
                    decreases ap.ports@.len() - i,
                {
                    let ghost prev = strings_view(ap.ports@).subrange(0, i as int);
                    let parsed = PortRange::parse(ap.ports[i].as_str());
                    proof {
                        let next = strings_view(ap.ports@).subrange(0, i + 1);
                        assert(next.drop_last() =~= prev);
                        assert(next.last() == ap.ports@[i as int]@);
                    }
                    if let Ok(range) = parsed {
                        out.push(range);
                    }
                    i = i + 1;
                }
                assert(strings_view(ap.ports@).subrange(0, i as int) =~= strings_view(ap.ports@));
            },
        }
        out
    }

    /// Check if a port is allowed for killing
    ///
    /// Returns true if the port matches any of the configured port specifications.
    /// If no allowed_ports configuration exists, returns false (port killing is disabled).
    pub fn is_port_allowed(&self, port: u16) -> (r: bool)
        ensures
            r == self.spec_port_allowed(port),
    {
        let ranges = self.get_port_ranges();
        let mut i: usize = 0;
        while i < ranges.len()
            invariant
                i <= ranges@.len(),
                ranges@ == self.spec_port_ranges(),
                forall|j: int| 0 <= j < i ==> !ranges@[j].spec_contains(port),
            decreases ranges@.len() - i,
        {
            if ranges[i].contains(port) {
                return true;
            }
            i = i + 1;
        }
        false
    }

    /// Generate a hint message for when a port is not allowed
    pub fn port_not_allowed_hint(&self, port: u16) -> (r: String)
        ensures
            r@ == port_hint(port),
    {
        String::from_str("Add ").concat(decimal_string(port as u64).as_str()).concat(
            " to [allowed_ports] in config.toml or run 'safe-kill init' to create a config file",
        )
    }

    /// Check if a port is allowed and return an error with hint if not
    pub fn check_port_allowed(&self, port: u16) -> (r: Result<(), SafeKillError>)
        ensures
            view_result(r) == if self.spec_port_allowed(port) {
                Ok::<(), ErrorView>(())
            } else {
                Err(ErrorView::PortNotAllowed { port, hint: port_hint(port) })
            },
    {
        if self.is_port_allowed(port) {
            Ok(())
        } else {
            Err(SafeKillError::PortNotAllowed { port, hint: self.port_not_allowed_hint(port) })
        }
    }
}

} // verus!
