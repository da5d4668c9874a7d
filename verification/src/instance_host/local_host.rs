//! The orchestrator that runs backends as processes of this machine.

use crate::instance_host::{decimal, port_to_string, HostError, HostErrorView, Instance};
use vstd::prelude::*;
use vstd::string::*;

verus! {

/// The first port that a local backend may listen on.
pub const PORT_RANGE_START: u16 = 8000;

/// The end of the local port range; this port itself is not used.
pub const PORT_RANGE_END: u16 = 9000;

/// Whether `port` may be given to a local backend.
pub open spec fn in_port_range(port: int) -> bool {
    PORT_RANGE_START <= port < PORT_RANGE_END
}

/// The shell command that runs a backend from `app_directory` on `port`.
pub open spec fn launch_command(app_directory: Seq<char>, port: nat) -> Seq<char> {
    "cd "@ + app_directory + " && uvicorn main:app --port "@ + decimal(port) + " --host 0.0.0.0"@
}

/// The first port of the range that is not among `taken` and that
/// `port_is_available` accepts. Ports before the chosen one were each
/// taken or refused; without a result the whole range was.
pub fn get_available_port<F: Fn(u16) -> bool>(taken: &Vec<u16>, port_is_available: F) -> (found:
    Option<u16>)
    requires
        forall|p: u16|
            in_port_range(p as int) ==> #[trigger] call_requires(port_is_available, (p,)),
    ensures
        match found {
            Some(port) => {
                &&& in_port_range(port as int)
                &&& !taken@.contains(port)
                &&& call_ensures(port_is_available, (port,), true)
                &&& forall|q: u16|
                    PORT_RANGE_START <= q < port ==> taken@.contains(q) || #[trigger] call_ensures(port_is_available, (q,), false)
            },
            None => forall|q: u16|
                in_port_range(q as int) ==> taken@.contains(q) || #[trigger] call_ensures(port_is_available, (q,), false),
        },
{
    let mut port: u16 = PORT_RANGE_START;
    while port < PORT_RANGE_END
        invariant
            PORT_RANGE_START <= port <= PORT_RANGE_END,
            forall|p: u16|
            in_port_range(p as int) ==> #[trigger] call_requires(port_is_available, (p,)),
            forall|q: u16|
                PORT_RANGE_START <= q < port ==> taken@.contains(q) || #[trigger] call_ensures(port_is_available, (q,), false),
        decreases PORT_RANGE_END - port,
    {
        if !contains_port(taken, port) {
            if port_is_available(port) {
                return Some(port);
            }
        }
        port = port + 1;
    }
    None
}

/// Whether `port` occurs in `ports`.
fn contains_port(ports: &Vec<u16>, port: u16) -> (found: bool)
    ensures
        found == ports@.contains(port),
{
    let mut i: usize = 0;
    while i < ports.len()
        invariant
            i <= ports.len(),
            forall|j: int| 0 <= j < i ==> ports@[j] != port,
        decreases ports.len() - i,
    {
        if ports[i] == port {
            return true;
        }
        i = i + 1;
    }
    false
}

/// A backend process as the orchestrator remembers it.
pub struct Process {
    /// The tenant it serves.
    pub username: String,
    /// The port it was started on.
    pub port: u16,
}

/// What the caller has to run for a tenant, and where it will listen.
pub struct Launch {
    /// The backend's location once it runs.
    pub instance: Instance,
    /// The shell command that starts it.
    pub command: String,
}

/// Whether one of `records` belongs to `tenant`.
pub open spec fn tracks(records: Seq<Process>, tenant: Seq<char>) -> bool {
    exists|i: int| 0 <= i < records.len() && #[trigger] records[i].username@ == tenant
}

/// The place of `tenant`'s record among `records`.
pub open spec fn index_of(records: Seq<Process>, tenant: Seq<char>) -> int {
    choose|i: int| 0 <= i < records.len() && #[trigger] records[i].username@ == tenant
}

/// The port of each tenant that has a record.
pub open spec fn ports_of(records: Seq<Process>) -> Map<Seq<char>, u16> {
    Map::new(
        |tenant: Seq<char>| tracks(records, tenant),
        |tenant: Seq<char>| records[index_of(records, tenant)].port,
    )
}

/// No tenant has two records, and no port serves two tenants.
pub open spec fn distinct(records: Seq<Process>) -> bool {
    forall|i: int, j: int|
        0 <= i < j < records.len() ==> records[i].username@ != records[j].username@
            && records[i].port != records[j].port
}

/// Whether some tenant of `ports` holds `port`.
pub open spec fn holds_port(ports: Map<Seq<char>, u16>, port: u16) -> bool {
    exists|tenant: Seq<char>| ports.contains_key(tenant) && #[trigger] ports[tenant] == port
}

/// A tenant's record gives the tenant's port.
proof fn lemma_record_port(records: Seq<Process>, i: int)
    requires
        distinct(records),
        0 <= i < records.len(),
    ensures
        tracks(records, records[i].username@),
        index_of(records, records[i].username@) == i,
        ports_of(records).contains_key(records[i].username@),
        ports_of(records)[records[i].username@] == records[i].port,
{
    let tenant = records[i].username@;
    assert(tracks(records, tenant));
    let j = index_of(records, tenant);
    assert(0 <= j < records.len() && records[j].username@ == tenant);
    if j < i {
        assert(records[j].username@ != records[i].username@);
    }
    if i < j {
        assert(records[i].username@ != records[j].username@);
    }
}

/// The ports in `taken` are the ports that the tenants of `records` hold.
proof fn lemma_taken_ports(records: Seq<Process>, taken: Seq<u16>, port: u16)
    requires
        distinct(records),
        taken.len() == records.len(),
        forall|i: int| 0 <= i < records.len() ==> taken[i] == records[i].port,
    ensures
        taken.contains(port) <==> holds_port(ports_of(records), port),
{
    if taken.contains(port) {
        let i = choose|i: int| 0 <= i < taken.len() && taken[i] == port;
        lemma_record_port(records, i);
        assert(ports_of(records)[records[i].username@] == port);
    }
    if holds_port(ports_of(records), port) {
        let tenant = choose|tenant: Seq<char>|
            ports_of(records).contains_key(tenant) && #[trigger] ports_of(records)[tenant] == port;
        let j = index_of(records, tenant);
        assert(tracks(records, tenant));
        assert(0 <= j < records.len());
        assert(taken[j] == port);
    }
}

/// The orchestrator for backends that run on this machine. It remembers
/// which tenant was given which port.
pub struct LocalHost {
    processes: Vec<Process>,
    app_directory: String,
}

impl View for LocalHost {
    type V = Map<Seq<char>, u16>;

    /// The port of each tenant that has a backend.
    closed spec fn view(&self) -> Map<Seq<char>, u16> {
        ports_of(self.processes@)
    }
}

impl LocalHost {
    /// What holds of every orchestrator: a tenant has at most one backend,
    /// and a port at most one tenant.
    pub closed spec fn wf(&self) -> bool {
        distinct(self.processes@)
    }

    /// The directory that backends are started from.
    pub closed spec fn directory(&self) -> Seq<char> {
        self.app_directory@
    }

    /// An orchestrator without backends.
    pub fn new(app_directory: String) -> (host: LocalHost)
        ensures
            host.wf(),
            host@ == Map::<Seq<char>, u16>::empty(),
            host.directory() == app_directory@,
    {
        let host = LocalHost { processes: Vec::new(), app_directory };
        assert(host@ =~= Map::<Seq<char>, u16>::empty());
        host
    }

    /// Where `username`'s record stands, if there is one.
    fn position(&self, username: &String) -> (found: Option<usize>)
        ensures
            match found {
                Some(i) => i < self.processes@.len() && self.processes@[i as int].username@
                    == username@,
                None => !tracks(self.processes@, username@),
            },
    {
        let mut i: usize = 0;
        while i < self.processes.len()
            invariant
                i <= self.processes@.len(),
                forall|j: int| 0 <= j < i ==> self.processes@[j].username@ != username@,
            decreases self.processes@.len() - i,
        {
            if self.processes[i].username == *username {
                return Some(i);
            }
            i = i + 1;
        }
        None
    }

    /// The ports that are given out.
    fn taken_ports(&self) -> (taken: Vec<u16>)
        ensures
            taken@.len() == self.processes@.len(),
            forall|i: int| 0 <= i < self.processes@.len() ==> taken@[i] == self.processes@[i].port,
    {
        let mut taken: Vec<u16> = Vec::new();
        let mut i: usize = 0;
        while i < self.processes.len()
            invariant
                i <= self.processes@.len(),
                taken@.len() == i,
                forall|j: int| 0 <= j < i ==> taken@[j] == self.processes@[j].port,
            decreases self.processes@.len() - i,
        {
            taken.push(self.processes[i].port);
            i = i + 1;
        }
        taken
    }

    /// Chooses a port for `username`'s backend and remembers it: the first
    /// port of the range that no tenant holds and that `port_is_available`
    /// accepts. A backend that the tenant had before is superseded. Where
    /// the whole range is held or refused, nothing changes.
    pub fn start_instance<F: Fn(u16) -> bool>(
        &mut self,
        username: String,
        port_is_available: F,
    ) -> (started: Result<Launch, HostError>)
        requires
            old(self).wf(),
            forall|p: u16|
                in_port_range(p as int) ==> #[trigger] call_requires(port_is_available, (p,)),
        ensures
            final(self).wf(),
            final(self).directory() == old(self).directory(),
            match started {
                Ok(launch) => {
                    &&& in_port_range(launch.instance.port as int)
                    &&& !holds_port(old(self)@, launch.instance.port)
                    &&& call_ensures(port_is_available, (launch.instance.port,), true)
                    &&& forall|q: u16|
                        PORT_RANGE_START <= q < launch.instance.port ==> holds_port(old(self)@, q)
                            || #[trigger] call_ensures(port_is_available, (q,), false)
                    &&& final(self)@ == old(self)@.insert(username@, launch.instance.port)
                    &&& launch.instance.url@ == "0.0.0.0"@
                    &&& launch.command@ == launch_command(
                        old(self).directory(),
                        launch.instance.port as nat,
                    )
                },
                Err(e) => {
                    &&& e@ == HostErrorView::ProvisioningError("no available ports"@)
                    &&& final(self)@ == old(self)@
                    &&& forall|q: u16|
                        in_port_range(q as int) ==> holds_port(old(self)@, q) || #[trigger] call_ensures(port_is_available, (q,), false)
                },
            },
    {
        let taken = self.taken_ports();
        proof {
            assert forall|q: u16| taken@.contains(q) <==> holds_port(old(self)@, q) by {
                lemma_taken_ports(self.processes@, taken@, q);
            }
        }
        match get_available_port(&taken, port_is_available) {
            None => Err(HostError::ProvisioningError("no available ports".to_owned())),
            Some(port) => {
                let command = "cd ".to_owned().concat(self.app_directory.as_str()).concat(
                    " && uvicorn main:app --port ",
                ).concat(port_to_string(port).as_str()).concat(" --host 0.0.0.0");
                let instance = Instance::new("0.0.0.0".to_owned(), port);
                let ghost before = self.processes@;
                let ghost tenant = username@;
                let place = self.position(&username);
                let record = Process { username, port };
                match place {
                    Some(i) => {
                        self.processes.set(i, record);
                        proof {
                            lemma_superseded(before, self.processes@, i as int, record);
                        }
                    },
                    None => {
                        self.processes.push(record);
                        proof {
                            lemma_added(before, self.processes@, record);
                        }
                    },
                }
                Ok(Launch { instance, command })
            },
        }
    }

    /// Forgets `username`'s backend, so that the caller can end its
    /// process. A tenant without a backend is an error, and then nothing
    /// changes; the other tenants keep their ports either way.
    pub fn stop_instance(&mut self, username: String) -> (stopped: Result<(), HostError>)
        requires
            old(self).wf(),
        ensures
            final(self).wf(),
            final(self).directory() == old(self).directory(),
            stopped is Ok <==> old(self)@.contains_key(username@),
            stopped matches Err(e) ==> e@ == HostErrorView::NotFound && final(self)@ == old(
                self,
            )@,
            stopped is Ok ==> final(self)@ == old(self)@.remove(username@),
    {
        let ghost before = self.processes@;
        match self.position(&username) {
            Some(i) => {
                proof {
                    lemma_record_port(before, i as int);
                }
                self.processes.remove(i);
                proof {
                    lemma_removed(before, self.processes@, i as int);
                }
                Ok(())
            },
            None => Err(HostError::NotFound),
        }
    }
}

/// Overwriting a tenant's record with a port that nobody holds gives the
/// tenant that port and keeps the records apart.
proof fn lemma_superseded(before: Seq<Process>, after: Seq<Process>, i: int, record: Process)
    requires
        distinct(before),
        0 <= i < before.len(),
        before[i].username@ == record.username@,
        !holds_port(ports_of(before), record.port),
        after == before.update(i, record),
    ensures
        distinct(after),
        ports_of(after) == ports_of(before).insert(record.username@, record.port),
{
    assert forall|k: int| 0 <= k < before.len() implies before[k].port != record.port by {
        lemma_record_port(before, k);
    }
    assert forall|a: int, b: int| 0 <= a < b < after.len() implies after[a].username@
        != after[b].username@ && after[a].port != after[b].port by {
        assert(before[a].username@ != before[b].username@);
    }
    assert forall|tenant: Seq<char>| tracks(after, tenant) <==> tracks(before, tenant) by {
        if tracks(after, tenant) {
            let k = index_of(after, tenant);
            assert(before[k].username@ == tenant);
        }
        if tracks(before, tenant) {
            let k = index_of(before, tenant);
            assert(after[k].username@ == tenant);
        }
    }
    lemma_record_port(before, i);
    assert forall|tenant: Seq<char>| tracks(after, tenant) implies #[trigger] ports_of(after)[tenant]
        == ports_of(before).insert(record.username@, record.port)[tenant] by {
        let k = index_of(after, tenant);
        lemma_record_port(after, k);
        if k != i {
            lemma_record_port(before, k);
        }
    }
    assert(ports_of(after) =~= ports_of(before).insert(record.username@, record.port));
}

/// Adding a record for a tenant that has none, with a port that nobody
/// holds, gives the tenant that port and keeps the records apart.
proof fn lemma_added(before: Seq<Process>, after: Seq<Process>, record: Process)
    requires
        distinct(before),
        !tracks(before, record.username@),
        !holds_port(ports_of(before), record.port),
        after == before.push(record),
    ensures
        distinct(after),
        ports_of(after) == ports_of(before).insert(record.username@, record.port),
{
    assert forall|k: int| 0 <= k < before.len() implies before[k].port != record.port
        && before[k].username@ != record.username@ by {
        lemma_record_port(before, k);
    }
    assert forall|a: int, b: int| 0 <= a < b < after.len() implies after[a].username@
        != after[b].username@ && after[a].port != after[b].port by {
        if b < before.len() {
            assert(before[a].username@ != before[b].username@);
        }
    }
    let last = before.len() as int;
    assert(after[last] == record);
    assert forall|tenant: Seq<char>|
        tracks(after, tenant) <==> (tenant == record.username@ || tracks(before, tenant)) by {
        if tracks(after, tenant) {
            let k = index_of(after, tenant);
            if k < last {
                assert(before[k].username@ == tenant);
            }
        }
        if tracks(before, tenant) {
            let k = index_of(before, tenant);
            assert(after[k].username@ == tenant);
        }
        if tenant == record.username@ {
            assert(after[last].username@ == tenant);
        }
    }
    assert forall|tenant: Seq<char>| tracks(after, tenant) implies #[trigger] ports_of(after)[tenant]
        == ports_of(before).insert(record.username@, record.port)[tenant] by {
        let k = index_of(after, tenant);
        lemma_record_port(after, k);
        if k < last {
            lemma_record_port(before, k);
        }
    }
    assert(ports_of(after) =~= ports_of(before).insert(record.username@, record.port));
}

/// Taking a tenant's record out forgets that tenant and no other.
proof fn lemma_removed(before: Seq<Process>, after: Seq<Process>, i: int)
    requires
        distinct(before),
        0 <= i < before.len(),
        after == before.remove(i),
    ensures
        distinct(after),
        ports_of(after) == ports_of(before).remove(before[i].username@),
{
    let gone = before[i].username@;
    assert forall|a: int, b: int| 0 <= a < b < after.len() implies after[a].username@
        != after[b].username@ && after[a].port != after[b].port by {
        let a0 = if a < i { a } else { a + 1 };
        let b0 = if b < i { b } else { b + 1 };
        assert(after[a] == before[a0]);
        assert(after[b] == before[b0]);
        assert(before[a0].username@ != before[b0].username@);
    }
    assert forall|tenant: Seq<char>|
        tracks(after, tenant) <==> (tenant != gone && tracks(before, tenant)) by {
        if tracks(after, tenant) {
            let k = index_of(after, tenant);
            let k0 = if k < i { k } else { k + 1 };
            assert(after[k] == before[k0]);
            assert(before[k0].username@ == tenant);
            if k0 < i {
                assert(before[k0].username@ != before[i].username@);
            } else {
                assert(before[i].username@ != before[k0].username@);
            }
        }
        if tenant != gone && tracks(before, tenant) {
            let k0 = index_of(before, tenant);
            let k = if k0 < i { k0 } else { k0 - 1 };
            assert(after[k] == before[k0]);
            assert(after[k].username@ == tenant);
        }
    }
    assert forall|tenant: Seq<char>| tracks(after, tenant) implies #[trigger] ports_of(after)[tenant]
        == ports_of(before).remove(gone)[tenant] by {
        let k = index_of(after, tenant);
        let k0 = if k < i { k } else { k + 1 };
        assert(after[k] == before[k0]);
        lemma_record_port(after, k);
        lemma_record_port(before, k0);
    }
    assert(ports_of(after) =~= ports_of(before).remove(gone));
}

/// No port is ever held by two tenants at once.
pub proof fn lemma_ports_never_shared(host: LocalHost, first: Seq<char>, second: Seq<char>)
    requires
        host.wf(),
        host@.contains_key(first),
        host@.contains_key(second),
        first != second,
    ensures
        host@[first] != host@[second],
{
    let records = host.processes@;
    let i = index_of(records, first);
    let j = index_of(records, second);
    assert(tracks(records, first));
    assert(tracks(records, second));
    if i < j {
        assert(records[i].port != records[j].port);
    } else if j < i {
        assert(records[j].port != records[i].port);
    }
}

} // verus!
