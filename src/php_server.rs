use vstd::prelude::*;

use crate::error::{Error, Result};
use crate::models::{ServerStatus, StartServerRequest, DEFAULT_PORT};

verus! {

/// Relies on uuid::Uuid::new_v4 and the hyphenated text form that its
/// `Display` writes: a random identifier of 36 characters. (`new_v4` panics
/// only when the operating system's random source fails.)
#[verifier::external_body]
fn new_server_id() -> (r: String)
    ensures
        r@.len() == 36,
{
    uuid::Uuid::new_v4().to_string()
}

/// A server process tracked by the manager. The process handle itself stays
/// with the caller that spawned it; the registry keeps its id.
#[derive(Debug, Clone)]
pub struct ServerInstance {
    pub id: String,
    pub pid: Option<u32>,
    pub port: u16,
    pub host: String,
    pub document_root: String,
    pub started_at: String,
    pub php_version: String,
}

/// Where and how a server is to be launched once the start checks passed.
#[derive(Debug, Clone)]
pub struct LaunchPlan {
    pub host: String,
    pub port: u16,
    pub document_root: String,
    pub working_dir: String,
    pub router_script: Option<String>,
}

/// The address and directories a start request resolves to.
#[derive(Debug, Clone)]
pub struct LaunchTarget {
    pub host: String,
    pub port: u16,
    pub document_root: String,
    pub working_dir: String,
}

/// Mathematical model of a status snapshot.
pub ghost struct StatusView {
    pub is_running: bool,
    pub pid: Option<u32>,
    pub port: Option<u16>,
    pub host: Option<Seq<char>>,
    pub document_root: Option<Seq<char>>,
    pub started_at: Option<Seq<char>>,
}

pub open spec fn opt_view(o: Option<String>) -> Option<Seq<char>> {
    match o {
        Some(s) => Some(s@),
        None => None,
    }
}

impl View for ServerStatus {
    type V = StatusView;

    open spec fn view(&self) -> StatusView {
        StatusView {
            is_running: self.is_running,
            pid: self.pid,
            port: self.port,
            host: opt_view(self.host),
            document_root: opt_view(self.document_root),
            started_at: opt_view(self.started_at),
        }
    }
}

/// The snapshot of an identifier that is not tracked.
pub open spec fn unset_status() -> StatusView {
    StatusView {
        is_running: false,
        pid: None,
        port: None,
        host: None,
        document_root: None,
        started_at: None,
    }
}

/// The process is alive: it has a pid and the pid is among the live ones.
pub open spec fn pid_alive(pid: Option<u32>, live: Seq<u32>) -> bool {
    match pid {
        Some(p) => live.contains(p),
        None => false,
    }
}

/// The snapshot of a tracked instance, given the pids found alive.
pub open spec fn instance_status(inst: ServerInstance, live: Seq<u32>) -> StatusView {
    StatusView {
        is_running: pid_alive(inst.pid, live),
        pid: inst.pid,
        port: Some(inst.port),
        host: Some(inst.host@),
        document_root: Some(inst.document_root@),
        started_at: Some(inst.started_at@),
    }
}

pub open spec fn has_id(s: Seq<ServerInstance>, id: Seq<char>) -> bool {
    exists|i: int| 0 <= i < s.len() && (#[trigger] s[i]).id@ == id
}

pub open spec fn tracks_pid(s: Seq<ServerInstance>, p: u32) -> bool {
    exists|i: int| 0 <= i < s.len() && (#[trigger] s[i]).pid == Some(p)
}

pub open spec fn has_port(s: Seq<ServerInstance>, port: u16) -> bool {
    exists|i: int| 0 <= i < s.len() && (#[trigger] s[i]).port == port
}

/// The snapshot reported for `id`.
pub open spec fn status_of(s: Seq<ServerInstance>, id: Seq<char>, live: Seq<u32>) -> StatusView {
    if has_id(s, id) {
        instance_status(s[choose|i: int| 0 <= i < s.len() && (#[trigger] s[i]).id@ == id], live)
    } else {
        unset_status()
    }
}

/// What a listing reports: each tracked identifier with its snapshot.
pub open spec fn listing(s: Seq<ServerInstance>, live: Seq<u32>) -> Seq<(Seq<char>, StatusView)> {
    s.map_values(|inst: ServerInstance| (inst.id@, instance_status(inst, live)))
}

/// No two tracked instances share an identifier or a port, and every
/// tracked identifier is among those issued.
pub open spec fn registry_wf(s: Seq<ServerInstance>, issued: Seq<Seq<char>>) -> bool {
    &&& forall|i: int, j: int|
        0 <= i < s.len() && 0 <= j < s.len() && i != j ==> (#[trigger] s[i]).id@ != (
        #[trigger] s[j]).id@ && s[i].port != s[j].port
    &&& forall|i: int| 0 <= i < s.len() ==> issued.contains((#[trigger] s[i]).id@)
}

/// The request's address and directories, with the defaults filled in:
/// host 127.0.0.1, the default port, and the project path as document root.
pub open spec fn target_of(req: StartServerRequest) -> (Seq<char>, u16, Seq<char>) {
    (
        match req.host {
            Some(h) => h@,
            None => "127.0.0.1"@,
        },
        match req.port {
            Some(p) => p,
            None => DEFAULT_PORT,
        },
        match req.document_root {
            Some(d) => d@,
            None => req.project_path@,
        },
    )
}

/// Owns the registry of server processes started through it.
pub struct PhpServerManager {
    servers: Vec<ServerInstance>,
    issued: Vec<String>,
}

impl PhpServerManager {
    /// The tracked instances.
    pub closed spec fn instances(&self) -> Seq<ServerInstance> {
        self.servers@
    }

    /// Every identifier this manager has ever issued.
    pub closed spec fn issued_ids(&self) -> Seq<Seq<char>> {
        self.issued@.map_values(|s: String| s@)
    }

    pub open spec fn wf(&self) -> bool {
        registry_wf(self.instances(), self.issued_ids())
    }

    pub fn new() -> (r: PhpServerManager)
        ensures
            r.wf(),
            r.instances().len() == 0,
            r.issued_ids().len() == 0,
    {
        PhpServerManager { servers: Vec::new(), issued: Vec::new() }
    }

    /// Resolves the address and directories of a start request.
    pub fn launch_target(request: &StartServerRequest) -> (r: LaunchTarget)
        ensures
            (r.host@, r.port, r.document_root@) == target_of(*request),
            r.working_dir@ == request.project_path@,
    {
        let host = match &request.host {
            Some(h) => h.clone(),
            None => String::from_str("127.0.0.1"),
        };
        let port = match request.port {
            Some(p) => p,
            None => DEFAULT_PORT,
        };
        let document_root = match &request.document_root {
            Some(d) => d.clone(),
            None => request.project_path.clone(),
        };
        LaunchTarget { host, port, document_root, working_dir: request.project_path.clone() }
    }

    fn find(&self, id: &String) -> (r: Option<usize>)
        ensures
            match r {
                Some(i) => i < self.instances().len() && self.instances()[i as int].id@ == id@,
                None => !has_id(self.instances(), id@),
            },
    {
        let mut i: usize = 0;
        while i < self.servers.len()
            invariant
                i <= self.servers@.len(),
                forall|k: int| 0 <= k < i ==> self.servers@[k].id@ != id@,
            decreases self.servers@.len() - i,
        {
            if self.servers[i].id == *id {
                return Some(i);
            }
            i += 1;
        }
        None
    }

    fn was_issued(&self, id: &String) -> (r: bool)
        ensures
            r == self.issued_ids().contains(id@),
    {
        let mut i: usize = 0;
        while i < self.issued.len()
            invariant
                i <= self.issued@.len(),
                forall|k: int| 0 <= k < i ==> self.issued@[k]@ != id@,
            decreases self.issued@.len() - i,
        {
            if self.issued[i] == *id {
                assert(self.issued_ids()[i as int] == id@);
                return true;
            }
            i += 1;
        }
        assert forall|k: int| 0 <= k < self.issued_ids().len() implies self.issued_ids()[k]
            != id@ by {}
        false
    }

    /// Whether `port` is taken: by an instance this manager tracks, or, as
    /// the caller's probe found, by some other listener.
    pub fn is_port_in_use(&self, port: u16, bound_elsewhere: bool) -> (r: bool)
        ensures
            r == (has_port(self.instances(), port) || bound_elsewhere),
    {
        let mut i: usize = 0;
        while i < self.servers.len()
            invariant
                i <= self.servers@.len(),
                forall|k: int| 0 <= k < i ==> self.servers@[k].port != port,
            decreases self.servers@.len() - i,
        {
            if self.servers[i].port == port {
                return true;
            }
            i += 1;
        }
        bound_elsewhere
    }

    /// The start checks, in order: the runtime binary exists, the port is
    /// free, the document root exists. On success the plan names the
    /// router script when the document root holds one.
    pub fn check_start(
        &self,
        target: LaunchTarget,
        executable_exists: bool,
        port_bound_elsewhere: bool,
        document_root_exists: bool,
        router_script_present: bool,
    ) -> (r: Result<LaunchPlan>)
        ensures
            !executable_exists ==> r matches Err(Error::PhpBinaryNotFound),
            executable_exists && (has_port(self.instances(), target.port) || port_bound_elsewhere)
                ==> (r matches Err(Error::PortUnavailable(p)) && p == target.port),
            executable_exists && !(has_port(self.instances(), target.port) || port_bound_elsewhere)
                && !document_root_exists ==> (r matches Err(Error::MissingDocumentRoot(d)) && d@
                == target.document_root@),
            executable_exists && !(has_port(self.instances(), target.port) || port_bound_elsewhere)
                && document_root_exists ==> (r matches Ok(plan) && plan.host@ == target.host@
                && plan.port == target.port && plan.document_root@ == target.document_root@
                && plan.working_dir@ == target.working_dir@ && opt_view(plan.router_script) == (
            if router_script_present {
                Some("server.php"@)
            } else {
                None
            })),
    {
        if !executable_exists {
            return Err(Error::PhpBinaryNotFound);
        }
        if self.is_port_in_use(target.port, port_bound_elsewhere) {
            return Err(Error::PortUnavailable(target.port));
        }
        if !document_root_exists {
            return Err(Error::MissingDocumentRoot(target.document_root));
        }
        let router_script = Self::detect_router_script(router_script_present);
        Ok(
            LaunchPlan {
                host: target.host,
                port: target.port,
                document_root: target.document_root,
                working_dir: target.working_dir,
                router_script,
            },
        )
    }

    /// The router script passed to the server: `server.php` when the
    /// document root holds one.
    pub fn detect_router_script(server_php_present: bool) -> (r: Option<String>)
        ensures
            opt_view(r) == (if server_php_present {
                Some("server.php"@)
            } else {
                None
            }),
    {
        if server_php_present {
            Some(String::from_str("server.php"))
        } else {
            None
        }
    }

    /// Records a launched process under the identifier `id`. Fails, leaving
    /// the registry as it was, when the plan's port has been taken since it
    /// was checked, or when `id` was issued before; succeeds otherwise.
    pub fn register_with_id(
        &mut self,
        id: String,
        plan: &LaunchPlan,
        pid: Option<u32>,
        started_at: String,
        php_version: String,
    ) -> (r: Result<String>)
        requires
            old(self).wf(),
        ensures
            final(self).wf(),
            r is Ok <==> !has_port(old(self).instances(), plan.port) && !old(
                self,
            ).issued_ids().contains(id@),
            has_port(old(self).instances(), plan.port) ==> (r matches Err(
                Error::PortUnavailable(p),
            ) && p == plan.port),
            !has_port(old(self).instances(), plan.port) && old(self).issued_ids().contains(id@)
                ==> (r matches Err(Error::PhpServer(_))),
            match r {
                Ok(i) => {
                    &&& i@ == id@
                    &&& final(self).issued_ids() == old(self).issued_ids().push(id@)
                    &&& final(self).instances().len() == old(self).instances().len() + 1
                    &&& final(self).instances().drop_last() == old(self).instances()
                    &&& final(self).instances().last().id@ == id@
                    &&& final(self).instances().last().pid == pid
                    &&& final(self).instances().last().port == plan.port
                    &&& final(self).instances().last().host@ == plan.host@
                    &&& final(self).instances().last().document_root@ == plan.document_root@
                    &&& final(self).instances().last().started_at@ == started_at@
                    &&& final(self).instances().last().php_version@ == php_version@
                },
                Err(_) => {
                    &&& final(self).instances() == old(self).instances()
                    &&& final(self).issued_ids() == old(self).issued_ids()
                },
            },
    {
        if self.is_port_in_use(plan.port, false) {
            return Err(Error::PortUnavailable(plan.port));
        }
        if self.was_issued(&id) {
            return Err(Error::PhpServer(String::from_str("server identifier already issued")));
        }
        let ghost old_issued = self.issued_ids();
        let ghost old_servers = self.servers@;
        self.issued.push(id.clone());
        assert(self.issued_ids() =~= old_issued.push(id@));
        let inst = ServerInstance {
            id: id.clone(),
            pid,
            port: plan.port,
            host: plan.host.clone(),
            document_root: plan.document_root.clone(),
            started_at,
            php_version,
        };
        self.servers.push(inst);
        assert(self.servers@.drop_last() =~= old_servers);
        assert forall|i: int, j: int|
            0 <= i < self.servers@.len() && 0 <= j < self.servers@.len() && i != j implies (
            #[trigger] self.servers@[i]).id@ != (#[trigger] self.servers@[j]).id@
            && self.servers@[i].port != self.servers@[j].port by {
            if i < old_servers.len() && j < old_servers.len() {
            } else if i < old_servers.len() {
                assert(old_issued.contains(self.servers@[i].id@));
            } else {
                assert(old_issued.contains(self.servers@[j].id@));
            }
        }
        assert forall|i: int| 0 <= i < self.servers@.len() implies self.issued_ids().contains(
            (#[trigger] self.servers@[i]).id@,
        ) by {
            if i < old_servers.len() {
                let k = choose|k: int| 0 <= k < old_issued.len() && old_issued[k] == self.servers@[i].id@;
                assert(self.issued_ids()[k] == old_issued[k]);
            } else {
                assert(self.issued_ids()[old_issued.len() as int] == id@);
            }
        }
        Ok(id)
    }

    /// Records a launched process under a freshly drawn random identifier.
    /// Fails, leaving the registry as it was, when the plan's port has been
    /// taken since it was checked, or when the drawn identifier was issued
    /// before (never the case while none has been issued).
    pub fn register(
        &mut self,
        plan: &LaunchPlan,
        pid: Option<u32>,
        started_at: String,
        php_version: String,
    ) -> (r: Result<String>)
        requires
            old(self).wf(),
        ensures
            final(self).wf(),
            has_port(old(self).instances(), plan.port) ==> (r matches Err(
                Error::PortUnavailable(p),
            ) && p == plan.port),
            !has_port(old(self).instances(), plan.port) ==> (r is Ok || r matches Err(
                Error::PhpServer(_),
            )),
            !has_port(old(self).instances(), plan.port) && old(self).issued_ids().len() == 0
                ==> r is Ok,
            match r {
                Ok(id) => {
                    &&& !old(self).issued_ids().contains(id@)
                    &&& final(self).issued_ids() == old(self).issued_ids().push(id@)
                    &&& final(self).instances().len() == old(self).instances().len() + 1
                    &&& final(self).instances().drop_last() == old(self).instances()
                    &&& final(self).instances().last().id@ == id@
                    &&& final(self).instances().last().pid == pid
                    &&& final(self).instances().last().port == plan.port
                    &&& final(self).instances().last().host@ == plan.host@
                    &&& final(self).instances().last().document_root@ == plan.document_root@
                    &&& final(self).instances().last().started_at@ == started_at@
                    &&& final(self).instances().last().php_version@ == php_version@
                },
                Err(_) => {
                    &&& final(self).instances() == old(self).instances()
                    &&& final(self).issued_ids() == old(self).issued_ids()
                },
            },
    {
        let id = new_server_id();
        self.register_with_id(id, plan, pid, started_at, php_version)
    }

    /// Ends a start: when the grace-period check found the process dead,
    /// the instance is dropped from the registry and the start fails.
    pub fn confirm_start(&mut self, id: String, alive: bool) -> (r: Result<String>)
        requires
            old(self).wf(),
        ensures
            final(self).wf(),
            final(self).issued_ids() == old(self).issued_ids(),
            alive ==> (r matches Ok(i) && i@ == id@ && final(self).instances() == old(
                self,
            ).instances()),
            !alive ==> (r matches Err(Error::ProcessDiedEarly) && !has_id(
                final(self).instances(),
                id@,
            )),
            !alive && has_id(old(self).instances(), id@) ==> exists|i: int|
                0 <= i < old(self).instances().len() && old(self).instances()[i].id@ == id@
                    && final(self).instances() == old(self).instances().remove(i),
            !alive && !has_id(old(self).instances(), id@) ==> final(self).instances() == old(
                self,
            ).instances(),
    {
        if alive {
            return Ok(id);
        }
        match self.find(&id) {
            Some(i) => {
                self.remove_at(i);
            },
            None => {},
        }
        Err(Error::ProcessDiedEarly)
    }

    fn remove_at(&mut self, i: usize)
        requires
            old(self).wf(),
            i < old(self).instances().len(),
        ensures
            final(self).wf(),
            final(self).issued_ids() == old(self).issued_ids(),
            final(self).instances() == old(self).instances().remove(i as int),
            !has_id(final(self).instances(), old(self).instances()[i as int].id@),
    {
        let ghost s = self.servers@;
        self.servers.remove(i);
        assert forall|a: int, b: int|
            0 <= a < self.servers@.len() && 0 <= b < self.servers@.len() && a != b implies (
            #[trigger] self.servers@[a]).id@ != (#[trigger] self.servers@[b]).id@
            && self.servers@[a].port != self.servers@[b].port by {
            let a0 = if a < i { a } else { a + 1 };
            let b0 = if b < i { b } else { b + 1 };
            assert(self.servers@[a] == s[a0]);
            assert(self.servers@[b] == s[b0]);
        }
        assert forall|a: int| 0 <= a < self.servers@.len() implies self.issued_ids().contains(
            (#[trigger] self.servers@[a]).id@,
        ) by {
            let a0 = if a < i { a } else { a + 1 };
            assert(self.servers@[a] == s[a0]);
        }
        assert forall|a: int| 0 <= a < self.servers@.len() implies (#[trigger] self.servers@[a]).id@
            != s[i as int].id@ by {
            let a0 = if a < i { a } else { a + 1 };
            assert(self.servers@[a] == s[a0]);
        }
    }

    /// Stops tracking a server. The caller then terminates its process.
    pub fn stop_server(&mut self, server_id: &str) -> (r: Result<()>)
        requires
            old(self).wf(),
        ensures
            final(self).wf(),
            final(self).issued_ids() == old(self).issued_ids(),
            has_id(old(self).instances(), server_id@) ==> r is Ok && exists|i: int|
                0 <= i < old(self).instances().len() && old(self).instances()[i].id@ == server_id@
                    && final(self).instances() == old(self).instances().remove(i),
            has_id(old(self).instances(), server_id@) ==> !has_id(
                final(self).instances(),
                server_id@,
            ),
            !has_id(old(self).instances(), server_id@) ==> (r matches Err(Error::NotFound(s)) && s@
                == server_id@ && final(self).instances() == old(self).instances()),
    {
        let key = String::from_str(server_id);
        match self.find(&key) {
            Some(i) => {
                self.remove_at(i);
                Ok(())
            },
            None => Err(Error::NotFound(key)),
        }
    }

    /// Forgets every tracked server; the caller terminates their processes.
    pub fn stop_all_servers(&mut self) -> (r: Result<()>)
        requires
            old(self).wf(),
        ensures
            final(self).wf(),
            r is Ok,
            final(self).instances().len() == 0,
            final(self).issued_ids() == old(self).issued_ids(),
    {
        self.servers.clear();
        Ok(())
    }

    /// The pids of the tracked processes, for the caller to probe.
    pub fn tracked_pids(&self) -> (r: Vec<u32>)
        ensures
            forall|i: int|
                0 <= i < self.instances().len() ==> ((#[trigger] self.instances()[i]).pid matches Some(
                    p,
                ) ==> r@.contains(p)),
            forall|k: int| 0 <= k < r@.len() ==> tracks_pid(self.instances(), #[trigger] r@[k]),
    {
        let mut r: Vec<u32> = Vec::new();
        let mut i: usize = 0;
        while i < self.servers.len()
            invariant
                i <= self.servers@.len(),
                forall|j: int|
                    0 <= j < i ==> ((#[trigger] self.servers@[j]).pid matches Some(p) ==> r@.contains(p)),
                forall|k: int| 0 <= k < r@.len() ==> tracks_pid(self.servers@, #[trigger] r@[k]),
            decreases self.servers@.len() - i,
        {
            if let Some(p) = self.servers[i].pid {
                let ghost old_r = r@;
                r.push(p);
                assert forall|j: int|
                    0 <= j <= i implies ((#[trigger] self.servers@[j]).pid matches Some(q)
                    ==> r@.contains(q)) by {
                    if let Some(q) = self.servers@[j].pid {
                        if j < i {
                            assert(old_r.contains(q));
                            let k = choose|k: int| 0 <= k < old_r.len() && old_r[k] == q;
                            assert(r@[k] == q);
                        } else {
                            assert(r@[old_r.len() as int] == q);
                        }
                    }
                }
                assert forall|k: int| 0 <= k < r@.len() implies tracks_pid(
                    self.servers@,
                    #[trigger] r@[k],
                ) by {
                    if k < old_r.len() {
                        assert(r@[k] == old_r[k]);
                    } else {
                        assert(self.servers@[i as int].pid == Some(r@[k]));
                    }
                }
            }
            i += 1;
        }
        r
    }

    fn snapshot(inst: &ServerInstance, live_pids: &Vec<u32>) -> (r: ServerStatus)
        ensures
            r@ == instance_status(*inst, live_pids@),
    {
        let is_running = match inst.pid {
            Some(p) => contains_u32(live_pids, p),
            None => false,
        };
        ServerStatus {
            is_running,
            pid: inst.pid,
            port: Some(inst.port),
            host: Some(inst.host.clone()),
            document_root: Some(inst.document_root.clone()),
            started_at: Some(inst.started_at.clone()),
        }
    }

    /// Snapshot of one server; `live_pids` are the tracked pids that the
    /// caller found alive just now. An unknown id gives the unset snapshot.
    pub fn get_server_status(&self, server_id: &str, live_pids: &Vec<u32>) -> (r: Result<
        ServerStatus,
    >)
        requires
            self.wf(),
        ensures
            r matches Ok(st) && st@ == status_of(self.instances(), server_id@, live_pids@),
    {
        let key = String::from_str(server_id);
        match self.find(&key) {
            Some(i) => {
                let ghost s = self.servers@;
                let ghost c = choose|c: int| 0 <= c < s.len() && (#[trigger] s[c]).id@ == key@;
                assert(c == i) by {
                    if c != i {
                        assert(s[c].id@ != s[i as int].id@);
                    }
                }
                Ok(Self::snapshot(&self.servers[i], live_pids))
            },
            None => Ok(
                ServerStatus {
                    is_running: false,
                    pid: None,
                    port: None,
                    host: None,
                    document_root: None,
                    started_at: None,
                },
            ),
        }
    }

    /// Every tracked server with its snapshot, in registry order.
    pub fn list_running_servers(&self, live_pids: &Vec<u32>) -> (r: Vec<(String, ServerStatus)>)
        ensures
            r@.map_values(|e: (String, ServerStatus)| (e.0@, e.1@)) == listing(
                self.instances(),
                live_pids@,
            ),
            r@.len() == self.instances().len(),
            forall|i: int|
                0 <= i < r@.len() ==> (#[trigger] r@[i]).0@ == self.instances()[i].id@ && r@[i].1@
                    == instance_status(self.instances()[i], live_pids@),
    {
        let mut r: Vec<(String, ServerStatus)> = Vec::new();
        let mut i: usize = 0;
        while i < self.servers.len()
            invariant
                i <= self.servers@.len(),
                r@.len() == i,
                forall|k: int|
                    0 <= k < i ==> (#[trigger] r@[k]).0@ == self.servers@[k].id@ && r@[k].1@
                        == instance_status(self.servers@[k], live_pids@),
            decreases self.servers@.len() - i,
        {
            let inst = &self.servers[i];
            r.push((inst.id.clone(), Self::snapshot(inst, live_pids)));
            i += 1;
        }
        assert(r@.map_values(|e: (String, ServerStatus)| (e.0@, e.1@)) =~= listing(
            self.servers@,
            live_pids@,
        ));
        r
    }
}

/// Right after an instance is registered, the status of its identifier
/// echoes its port, host and document root, and reports it running exactly
/// when its pid is alive.
pub proof fn lemma_status_after_start(s: Seq<ServerInstance>, inst: ServerInstance, live: Seq<u32>)
    requires
        !has_id(s, inst.id@),
    ensures
        status_of(s.push(inst), inst.id@, live) == instance_status(inst, live),
        status_of(s.push(inst), inst.id@, live).port == Some(inst.port),
        status_of(s.push(inst), inst.id@, live).host == Some(inst.host@),
        status_of(s.push(inst), inst.id@, live).document_root == Some(inst.document_root@),
{
    let t = s.push(inst);
    assert(t[s.len() as int].id@ == inst.id@);
    let c = choose|c: int| 0 <= c < t.len() && (#[trigger] t[c]).id@ == inst.id@;
    if c < s.len() {
        assert(s[c].id@ == inst.id@);
    }
}

/// Once a server is stopped its identifier is no longer tracked: its status
/// is the unset snapshot.
pub proof fn lemma_status_after_stop(
    s: Seq<ServerInstance>,
    issued: Seq<Seq<char>>,
    i: int,
    live: Seq<u32>,
)
    requires
        registry_wf(s, issued),
        0 <= i < s.len(),
    ensures
        status_of(s.remove(i), s[i].id@, live) == unset_status(),
{
    let t = s.remove(i);
    assert forall|k: int| 0 <= k < t.len() implies (#[trigger] t[k]).id@ != s[i].id@ by {
        let k0 = if k < i {
            k
        } else {
            k + 1
        };
        assert(t[k] == s[k0]);
    }
}

/// Tracked servers never share an identifier or a port.
pub proof fn lemma_tracked_servers_distinct(m: &PhpServerManager, i: int, j: int)
    requires
        m.wf(),
        0 <= i < m.instances().len(),
        0 <= j < m.instances().len(),
        i != j,
    ensures
        m.instances()[i].id@ != m.instances()[j].id@,
        m.instances()[i].port != m.instances()[j].port,
{
}

/// A registration leaves every other free port free and every other fresh
/// identifier fresh. With `register_with_id`'s contract this makes starts
/// on pairwise distinct free ports, under pairwise distinct fresh
/// identifiers, all succeed one after another, each tracked on its own port.
pub proof fn lemma_registration_keeps_others_free(
    s: Seq<ServerInstance>,
    issued: Seq<Seq<char>>,
    inst: ServerInstance,
    port: u16,
    id: Seq<char>,
)
    requires
        !has_port(s, port),
        port != inst.port,
        !issued.contains(id),
        id != inst.id@,
    ensures
        !has_port(s.push(inst), port),
        !issued.push(inst.id@).contains(id),
{
    let t = s.push(inst);
    assert forall|i: int| 0 <= i < t.len() implies (#[trigger] t[i]).port != port by {
        if i < s.len() {
            assert(t[i] == s[i]);
        }
    }
    let u = issued.push(inst.id@);
    assert forall|k: int| 0 <= k < u.len() implies u[k] != id by {
        if k < issued.len() {
            assert(u[k] == issued[k]);
        }
    }
}

/// With every server stopped, a listing reports nothing.
pub proof fn lemma_nothing_listed_after_stop_all(m: &PhpServerManager, live: Seq<u32>)
    requires
        m.instances().len() == 0,
    ensures
        listing(m.instances(), live).len() == 0,
        forall|id: Seq<char>| status_of(m.instances(), id, live) == unset_status(),
{
}

impl Default for PhpServerManager {
    fn default() -> (r: Self)
        ensures
            r.wf(),
            r.instances().len() == 0,
            r.issued_ids().len() == 0,
    {
        Self::new()
    }
}

fn contains_u32(v: &Vec<u32>, x: u32) -> (r: bool)
    ensures
        r == v@.contains(x),
{
    let mut i: usize = 0;
    while i < v.len()
        invariant
            i <= v@.len(),
            forall|k: int| 0 <= k < i ==> v@[k] != x,
        decreases v@.len() - i,
    {
        if v[i] == x {
            return true;
        }
        i += 1;
    }
    false
}

} // verus!
