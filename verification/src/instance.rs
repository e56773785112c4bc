//! One supervised microVM process: its launch description, control-socket
//! path, jail settings, rollback stack and discovered process ids. The
//! instance decides every step of the lifecycle — what to spawn, what to
//! push for rollback, how to map paths, what bytes to send — while the
//! caller carries out the process, socket and filesystem work.

use vstd::prelude::*;

use crate::digits::{all_digits, dec_value, parse_u32};
use crate::fstack::{FStack, FStackAction};
use crate::jailer::{spec_chroot_path, spec_chroot_rel, ChrootStrategy, LinkOp};
use crate::models::clone_opt_string;
use crate::paths::spec_join;
use crate::Error;

verus! {

/// Everything needed to start the supervisor (or jailer) process: the
/// executable, its arguments, and optional stdio redirection paths.
#[derive(Debug, Clone)]
pub struct LaunchSpec {
    pub program: String,
    pub args: Vec<String>,
    pub stdin: Option<String>,
    pub stdout: Option<String>,
    pub stderr: Option<String>,
}

/// One supervised microVM process.
#[derive(Debug)]
pub struct Instance {
    socket_on_host: String,
    jailer_workspace_dir: Option<String>,
    chroot_strategy: Option<ChrootStrategy>,
    remove_jailer_workspace_dir: Option<bool>,
    command: LaunchSpec,
    child_pid: Option<u32>,
    agent_connected: bool,
    fstack: FStack,
    exec_file_name: String,
    jailer_pid: Option<u32>,
    firecracker_pid: Option<u32>,
}

impl Instance {
    pub closed spec fn spec_socket_on_host(&self) -> Seq<char> {
        self.socket_on_host@
    }

    pub closed spec fn spec_jailer_workspace_dir(&self) -> Option<String> {
        self.jailer_workspace_dir
    }

    pub closed spec fn spec_chroot_strategy(&self) -> Option<ChrootStrategy> {
        self.chroot_strategy
    }

    pub closed spec fn spec_remove_jailer_workspace_dir(&self) -> Option<bool> {
        self.remove_jailer_workspace_dir
    }

    pub closed spec fn spec_command(&self) -> LaunchSpec {
        self.command
    }

    pub closed spec fn spec_child_pid(&self) -> Option<u32> {
        self.child_pid
    }

    pub closed spec fn spec_agent_connected(&self) -> bool {
        self.agent_connected
    }

    pub closed spec fn spec_actions(&self) -> Seq<FStackAction> {
        self.fstack.actions()
    }

    pub closed spec fn spec_exec_file_name(&self) -> Seq<char> {
        self.exec_file_name@
    }

    pub closed spec fn spec_jailer_pid(&self) -> Option<u32> {
        self.jailer_pid
    }

    pub closed spec fn spec_firecracker_pid(&self) -> Option<u32> {
        self.firecracker_pid
    }

    /// Whether this instance runs inside a jail: a chroot strategy and a
    /// jail workspace were both configured.
    pub open spec fn spec_jailed(&self) -> bool {
        self.spec_chroot_strategy() is Some && self.spec_jailer_workspace_dir() is Some
    }

    pub(crate) fn new(
        socket_on_host: String,
        jailer_workspace_dir: Option<String>,
        chroot_strategy: Option<ChrootStrategy>,
        remove_jailer_workspace_dir: Option<bool>,
        command: LaunchSpec,
        exec_file_name: String,
    ) -> (r: Self)
        ensures
            r.spec_socket_on_host() == socket_on_host@,
            r.spec_jailer_workspace_dir() == jailer_workspace_dir,
            r.spec_chroot_strategy() == chroot_strategy,
            r.spec_remove_jailer_workspace_dir() == remove_jailer_workspace_dir,
            r.spec_command() == command,
            r.spec_exec_file_name() == exec_file_name@,
            r.spec_child_pid() is None,
            !r.spec_agent_connected(),
            r.spec_actions() == Seq::<FStackAction>::empty(),
            r.spec_jailer_pid() is None,
            r.spec_firecracker_pid() is None,
    {
        Instance {
            socket_on_host,
            jailer_workspace_dir,
            chroot_strategy,
            remove_jailer_workspace_dir,
            command,
            child_pid: None,
            agent_connected: false,
            fstack: FStack::new(),
            exec_file_name,
            jailer_pid: None,
            firecracker_pid: None,
        }
    }

    /// Returns the jailer workspace directory, absent when the instance is
    /// not spawned through the jailer.
    pub fn jailer_workspace_dir(&self) -> (r: Option<String>)
        ensures
            r == self.spec_jailer_workspace_dir(),
    {
        clone_opt_string(&self.jailer_workspace_dir)
    }

    /// Whether this instance removes the jailer workspace directory on
    /// teardown; absent when not spawned through the jailer.
    pub fn remove_jailer_workspace_dir(&self) -> (r: Option<bool>)
        ensures
            r == self.spec_remove_jailer_workspace_dir(),
    {
        self.remove_jailer_workspace_dir
    }

    /// The supervisor pid of this instance, once discovered.
    pub fn firecracker_pid(&self) -> (r: Option<u32>)
        ensures
            r == self.spec_firecracker_pid(),
    {
        self.firecracker_pid
    }

    /// The jailer pid of this instance. The jailer exits once it has done
    /// its work, so this pid usually has no running process behind it.
    pub fn jailer_pid(&self) -> (r: Option<u32>)
        ensures
            r == self.spec_jailer_pid(),
    {
        self.jailer_pid
    }

    /// The control-socket path on the host.
    pub fn socket_on_host(&self) -> (r: &String)
        ensures
            r@ == self.spec_socket_on_host(),
    {
        &self.socket_on_host
    }

    /// The launch description of the supervised process.
    pub fn command(&self) -> (r: &LaunchSpec)
        ensures
            *r == self.spec_command(),
    {
        &self.command
    }

    /// The path of the jail pid file, `<jail_workspace>/<exec_name>.pid`;
    /// absent when not jailed.
    pub fn pid_file_path(&self) -> (r: Option<String>)
        ensures
            match r {
                Some(p) => self.spec_jailer_workspace_dir() is Some && p@ == spec_join(
                    self.spec_jailer_workspace_dir()->Some_0@,
                    self.spec_exec_file_name() + ".pid"@,
                ),
                None => self.spec_jailer_workspace_dir() is None,
            },
    {
        match &self.jailer_workspace_dir {
            Some(root) => {
                let mut name = self.exec_file_name.clone();
                name.append(".pid");
                Some(crate::paths::join(root.as_str(), name.as_str()))
            },
            None => None,
        }
    }

    /// The hard link inside the jail corresponding to `path`: where the
    /// configured chroot strategy places it under the jail workspace.
    pub fn jailed_link(&self, path: &str) -> (r: Result<String, Error>)
        ensures
            match r {
                Ok(p) => self.spec_jailed() && spec_chroot_path(
                    self.spec_chroot_strategy()->Some_0,
                    self.spec_jailer_workspace_dir()->Some_0@,
                    path@,
                ) == Some(p@),
                Err(e) => {
                    ||| (!self.spec_jailed() && e is Instance && e.spec_message()
                        == "Not using jailer"@)
                    ||| (self.spec_jailed() && spec_chroot_path(
                        self.spec_chroot_strategy()->Some_0,
                        self.spec_jailer_workspace_dir()->Some_0@,
                        path@,
                    ) is None && e is Configuration)
                },
            },
    {
        match (&self.chroot_strategy, &self.jailer_workspace_dir) {
            (Some(chroot_strategy), Some(jailer_workspace_dir)) => chroot_strategy.chroot_path(
                jailer_workspace_dir.as_str(),
                path,
            ),
            _ => Err(Error::Instance("Not using jailer".to_owned())),
        }
    }

    /// Step one of `start`: the process was spawned with this pid. Records
    /// it, registers its termination for rollback, and, when configured to,
    /// registers removal of the jail workspace.
    pub fn start_spawned(&mut self, pid: u32)
        ensures
            spec_same_setup(*old(self), *final(self)),
            final(self).spec_child_pid() == Some(pid),
            final(self).spec_agent_connected() == old(self).spec_agent_connected(),
            final(self).spec_jailer_pid() == old(self).spec_jailer_pid(),
            final(self).spec_firecracker_pid() == old(self).spec_firecracker_pid(),
            final(self).spec_actions() == if old(self).spec_remove_jailer_workspace_dir() == Some(
                true,
            ) && old(self).spec_jailer_workspace_dir() is Some {
                old(self).spec_actions().push(FStackAction::TerminateProcess(pid)).push(
                    FStackAction::RemoveDirectory(old(self).spec_jailer_workspace_dir()->Some_0),
                )
            } else {
                old(self).spec_actions().push(FStackAction::TerminateProcess(pid))
            },
    {
        self.child_pid = Some(pid);
        self.fstack.push_action(FStackAction::TerminateProcess(pid));
        match (self.remove_jailer_workspace_dir, &self.jailer_workspace_dir) {
            (Some(true), Some(path)) => {
                self.fstack.push_action(FStackAction::RemoveDirectory(path.clone()));
            },
            _ => {},
        }
    }

    /// Step two of `start`: the control socket is connected. Marks the
    /// agent present and registers removal of the socket file for rollback.
    pub fn start_connected(&mut self)
        ensures
            spec_same_setup(*old(self), *final(self)),
            final(self).spec_child_pid() == old(self).spec_child_pid(),
            final(self).spec_agent_connected(),
            final(self).spec_jailer_pid() == old(self).spec_jailer_pid(),
            final(self).spec_firecracker_pid() == old(self).spec_firecracker_pid(),
            final(self).spec_actions() == old(self).spec_actions().push(
                FStackAction::RemoveFile(old(self).spec_socket_on_host_string()),
            ),
    {
        self.agent_connected = true;
        self.fstack.push_action(FStackAction::RemoveFile(self.socket_on_host.clone()));
    }

    /// The socket path as the stored string value.
    pub closed spec fn spec_socket_on_host_string(&self) -> String {
        self.socket_on_host
    }

    /// Where the process ids come from at the end of `start`: when jailed
    /// (the pid file content is given), the jailer pid is the spawned pid
    /// and the supervisor pid is the one the file names; when bare, the
    /// supervisor pid is the spawned pid and there is no jailer pid.
    /// Returns `(jailer_pid, firecracker_pid)`.
    pub open spec fn spec_discovered_pids(spawned: u32, content: Option<Seq<u8>>) -> (
        Option<u32>,
        Option<u32>,
    ) {
        match content {
            Some(c) => (Some(spawned), Some(dec_value(c) as u32)),
            None => (None, Some(spawned)),
        }
    }

    /// Step three of `start`: discover the process ids. When jailed, the
    /// caller hands over the jail pid file's content, which names the
    /// supervisor's pid, and the earlier-spawned pid is the jailer's. When
    /// bare, the spawned pid is the supervisor's and there is no jailer
    /// pid. Either way the supervisor's termination is registered for
    /// rollback.
    pub fn start_discover_pids(&mut self, pid_file: Option<&[u8]>) -> (r: Result<(), Error>)
        requires
            old(self).spec_child_pid() is Some,
            (pid_file is Some) == old(self).spec_jailed(),
        ensures
            spec_same_setup(*old(self), *final(self)),
            final(self).spec_child_pid() == old(self).spec_child_pid(),
            final(self).spec_agent_connected() == old(self).spec_agent_connected(),
            match r {
                Ok(()) => {
                    &&& match pid_file {
                        Some(content) => content@.len() > 0 && all_digits(content@) && dec_value(
                            content@,
                        ) <= u32::MAX,
                        None => true,
                    }
                    &&& {
                        let (jailer, fc) = Instance::spec_discovered_pids(
                            old(self).spec_child_pid()->Some_0,
                            match pid_file {
                                Some(content) => Some(content@),
                                None => None,
                            },
                        );
                        &&& final(self).spec_jailer_pid() == jailer
                        &&& final(self).spec_firecracker_pid() == fc
                    }
                    &&& final(self).spec_actions() == old(self).spec_actions().push(
                        FStackAction::TerminateProcess(
                            final(self).spec_firecracker_pid()->Some_0,
                        ),
                    )
                },
                Err(e) => {
                    &&& pid_file is Some
                    &&& {
                        let content = pid_file->Some_0@;
                        content.len() == 0 || !all_digits(content) || dec_value(content)
                            > u32::MAX
                    }
                    &&& e is Instance
                    &&& e.spec_message() == "jail pid file does not hold a pid"@
                    &&& final(self).spec_actions() == old(self).spec_actions()
                    &&& final(self).spec_jailer_pid() == old(self).spec_jailer_pid()
                    &&& final(self).spec_firecracker_pid() == old(self).spec_firecracker_pid()
                },
            },
    {
        let fc_pid: u32;
        match pid_file {
            Some(content) => {
                match parse_u32(content) {
                    Some(v) => {
                        fc_pid = v;
                        self.jailer_pid = self.child_pid;
                        self.firecracker_pid = Some(v);
                    },
                    None => {
                        return Err(
                            Error::Instance("jail pid file does not hold a pid".to_owned()),
                        );
                    },
                }
            },
            None => {
                fc_pid = match self.child_pid {
                    Some(p) => p,
                    None => {
                        proof {
                            assert(false);
                        }
                        0
                    },
                };
                self.jailer_pid = None;
                self.firecracker_pid = self.child_pid;
            },
        }
        self.fstack.push_action(FStackAction::TerminateProcess(fc_pid));
        Ok(())
    }

    /// Fails unless `start` has connected the agent: every configuration
    /// and control call demands a connected channel first.
    pub fn require_agent(&self) -> (r: Result<(), Error>)
        ensures
            match r {
                Ok(()) => self.spec_agent_connected(),
                Err(e) => !self.spec_agent_connected() && e is Instance && e.spec_message()
                    == "No agent spawned"@,
            },
    {
        if self.agent_connected {
            Ok(())
        } else {
            Err(Error::Instance("No agent spawned".to_owned()))
        }
    }

    /// Hands out the pending rollback actions in execution order and leaves
    /// none behind; the caller performs them best-effort.
    pub fn take_rollback_actions(&mut self) -> (r: Vec<FStackAction>)
        ensures
            spec_same_setup(*old(self), *final(self)),
            final(self).spec_child_pid() == old(self).spec_child_pid(),
            final(self).spec_agent_connected() == old(self).spec_agent_connected(),
            final(self).spec_jailer_pid() == old(self).spec_jailer_pid(),
            final(self).spec_firecracker_pid() == old(self).spec_firecracker_pid(),
            r@ == old(self).spec_actions().reverse(),
            final(self).spec_actions() == Seq::<FStackAction>::empty(),
    {
        self.fstack.drain()
    }
}

/// The pid-discovery law: after a successful jailed start the guest pid is
/// the one read from the jail pid file, the jailer pid is the spawned pid,
/// and the two differ whenever the file names a pid other than the spawned
/// one; after a successful bare start the guest pid equals the spawned pid
/// and no jailer pid is set.
pub proof fn lemma_pid_discovery(spawned: u32, content: Option<Seq<u8>>)
    requires
        content matches Some(c) ==> dec_value(c) <= u32::MAX && dec_value(c) != spawned,
    ensures
        ({
            let (jailer, fc) = Instance::spec_discovered_pids(spawned, content);
            &&& content is Some ==> jailer == Some(spawned) && fc == Some(
                dec_value(content->Some_0) as u32,
            ) && fc != jailer
            &&& content is None ==> fc == Some(spawned) && jailer is None
        }),
{
}

/// The launch-time configuration of two instances is the same.
pub open spec fn spec_same_setup(a: Instance, b: Instance) -> bool {
    &&& a.spec_socket_on_host() == b.spec_socket_on_host()
    &&& a.spec_socket_on_host_string() == b.spec_socket_on_host_string()
    &&& a.spec_jailer_workspace_dir() == b.spec_jailer_workspace_dir()
    &&& a.spec_chroot_strategy() == b.spec_chroot_strategy()
    &&& a.spec_remove_jailer_workspace_dir() == b.spec_remove_jailer_workspace_dir()
    &&& a.spec_command() == b.spec_command()
    &&& a.spec_exec_file_name() == b.spec_exec_file_name()
}

} // verus!

verus! {

use crate::events::Method;
use crate::models::{
    ActionType, BalloonStatsUpdate, BootSource, Drive, InstanceActionInfo, Logger, Metrics,
    PartialDrive, SnapshotCreateParams, SnapshotLoadParams, Vm, VmState, Vsock,
};

/// Computes the jail-relative form of a host path and the hard link that
/// places the file at the matching jailed path.
fn rel_and_link(strategy: &ChrootStrategy, root: &String, path: &String) -> (r: Result<
    (String, LinkOp),
    Error,
>)
    ensures
        match r {
            Ok((rel, op)) => spec_chroot_rel(*strategy, path@) == Some(rel@) && op.origin@ == path@
                && op.link@ == spec_join(root@, rel@),
            Err(e) => spec_chroot_rel(*strategy, path@) is None && e is Configuration
                && e.spec_message() == "file name ended with `..`"@,
        },
{
    match strategy.chroot_rel(path.as_str()) {
        Ok(rel) => {
            let link = crate::paths::join(root.as_str(), rel.as_str());
            Ok((rel, LinkOp { origin: path.clone(), link }))
        },
        Err(e) => Err(e),
    }
}

impl Instance {
    /// Plans posting an action to the running supervisor:
    /// `PUT /actions` with the action kind as payload. The control
    /// conveniences — start, stop — are this one call with a fixed kind.
    pub fn prepare_action(&self, action_type: ActionType) -> (r: Result<
        (Method, String, InstanceActionInfo),
        Error,
    >)
        ensures
            match r {
                Ok((method, path, payload)) => {
                    &&& self.spec_agent_connected()
                    &&& method == Method::Put
                    &&& path@ == "/actions"@
                    &&& payload == (InstanceActionInfo { action_type })
                },
                Err(e) => !self.spec_agent_connected() && e is Instance && e.spec_message()
                    == "No agent spawned"@,
            },
    {
        match self.require_agent() {
            Err(e) => Err(e),
            Ok(()) => Ok(
                (Method::Put, "/actions".to_owned(), InstanceActionInfo { action_type }),
            ),
        }
    }

    /// Plans a guest state transition: `PATCH /vm` with the desired state.
    /// Pause and resume are this one call with a fixed state.
    pub fn prepare_vm_state(&self, state: VmState) -> (r: Result<(Method, String, Vm), Error>)
        ensures
            match r {
                Ok((method, path, payload)) => {
                    &&& self.spec_agent_connected()
                    &&& method == Method::Patch
                    &&& path@ == "/vm"@
                    &&& payload == (Vm { state })
                },
                Err(e) => !self.spec_agent_connected() && e is Instance && e.spec_message()
                    == "No agent spawned"@,
            },
    {
        match self.require_agent() {
            Err(e) => Err(e),
            Ok(()) => Ok((Method::Patch, "/vm".to_owned(), Vm { state })),
        }
    }

    /// Plans updating the balloon statistics polling interval:
    /// `PATCH /balloon/statistics`.
    pub fn prepare_balloon_stats_interval(&self, balloon_stats_update: &BalloonStatsUpdate) -> (r:
        Result<(Method, String, BalloonStatsUpdate), Error>)
        ensures
            match r {
                Ok((method, path, payload)) => {
                    &&& self.spec_agent_connected()
                    &&& method == Method::Patch
                    &&& path@ == "/balloon/statistics"@
                    &&& payload == *balloon_stats_update
                },
                Err(e) => !self.spec_agent_connected() && e is Instance && e.spec_message()
                    == "No agent spawned"@,
            },
    {
        match self.require_agent() {
            Err(e) => Err(e),
            Ok(()) => Ok(
                (Method::Patch, "/balloon/statistics".to_owned(), *balloon_stats_update),
            ),
        }
    }

    /// Plans asking the supervisor for its version: `GET /version` with the
    /// empty payload.
    pub fn prepare_version(&self) -> (r: Result<(Method, String), Error>)
        ensures
            match r {
                Ok((method, path)) => {
                    &&& self.spec_agent_connected()
                    &&& method == Method::Get
                    &&& path@ == "/version"@
                },
                Err(e) => !self.spec_agent_connected() && e is Instance && e.spec_message()
                    == "No agent spawned"@,
            },
    {
        match self.require_agent() {
            Err(e) => Err(e),
            Ok(()) => Ok((Method::Get, "/version".to_owned())),
        }
    }

    /// Plans the boot-source call. When jailed, the kernel image and the
    /// optional initrd are hard-linked into the jail and the payload paths
    /// are rewritten to their jail-relative form; otherwise the payload
    /// passes through unchanged.
    pub fn prepare_boot_source(&self, boot_source: &BootSource) -> (r: Result<
        (Method, String, BootSource, Vec<LinkOp>),
        Error,
    >)
        ensures
            !self.spec_agent_connected() ==> r is Err && r->Err_0 is Instance
                && r->Err_0.spec_message() == "No agent spawned"@,
            self.spec_agent_connected() && !self.spec_jailed() ==> r is Ok && r->Ok_0.0
                == Method::Put && r->Ok_0.1@ == "/boot-source"@ && r->Ok_0.2 == *boot_source && r
                ->Ok_0.3@.len() == 0,
            self.spec_agent_connected() && self.spec_jailed() ==> {
                let strat = self.spec_chroot_strategy()->Some_0;
                let root = self.spec_jailer_workspace_dir()->Some_0@;
                let rel_k = spec_chroot_rel(strat, boot_source.kernel_image_path@);
                match boot_source.initrd_path {
                    Some(ip) => {
                        let rel_i = spec_chroot_rel(strat, ip@);
                        if rel_i is None || rel_k is None {
                            r is Err && r->Err_0 is Configuration
                        } else {
                            &&& r is Ok
                            &&& r->Ok_0.0 == Method::Put
                            &&& r->Ok_0.1@ == "/boot-source"@
                            &&& r->Ok_0.2.boot_args == boot_source.boot_args
                            &&& r->Ok_0.2.initrd_path is Some
                            &&& r->Ok_0.2.initrd_path->Some_0@ == rel_i->Some_0
                            &&& r->Ok_0.2.kernel_image_path@ == rel_k->Some_0
                            &&& r->Ok_0.3@.len() == 2
                            &&& r->Ok_0.3@[0].origin@ == ip@
                            &&& r->Ok_0.3@[0].link@ == spec_join(root, rel_i->Some_0)
                            &&& r->Ok_0.3@[1].origin@ == boot_source.kernel_image_path@
                            &&& r->Ok_0.3@[1].link@ == spec_join(root, rel_k->Some_0)
                        }
                    },
                    None => {
                        if rel_k is None {
                            r is Err && r->Err_0 is Configuration
                        } else {
                            &&& r is Ok
                            &&& r->Ok_0.0 == Method::Put
                            &&& r->Ok_0.1@ == "/boot-source"@
                            &&& r->Ok_0.2.boot_args == boot_source.boot_args
                            &&& r->Ok_0.2.initrd_path is None
                            &&& r->Ok_0.2.kernel_image_path@ == rel_k->Some_0
                            &&& r->Ok_0.3@.len() == 1
                            &&& r->Ok_0.3@[0].origin@ == boot_source.kernel_image_path@
                            &&& r->Ok_0.3@[0].link@ == spec_join(root, rel_k->Some_0)
                        }
                    },
                }
            },
    {
        match self.require_agent() {
            Err(e) => {
                return Err(e);
            },
            Ok(()) => {},
        }
        match (&self.chroot_strategy, &self.jailer_workspace_dir) {
            (Some(strategy), Some(root)) => {
                let mut links: Vec<LinkOp> = Vec::new();
                let chroot_initrd: Option<String> = match &boot_source.initrd_path {
                    Some(p) => {
                        match rel_and_link(strategy, root, p) {
                            Ok((rel, op)) => {
                                links.push(op);
                                Some(rel)
                            },
                            Err(e) => {
                                return Err(e);
                            },
                        }
                    },
                    None => None,
                };
                let chroot_kernel = match rel_and_link(
                    strategy,
                    root,
                    &boot_source.kernel_image_path,
                ) {
                    Ok((rel, op)) => {
                        links.push(op);
                        rel
                    },
                    Err(e) => {
                        return Err(e);
                    },
                };
                let payload = BootSource {
                    boot_args: clone_opt_string(&boot_source.boot_args),
                    initrd_path: chroot_initrd,
                    kernel_image_path: chroot_kernel,
                };
                Ok((Method::Put, "/boot-source".to_owned(), payload, links))
            },
            _ => Ok(
                (Method::Put, "/boot-source".to_owned(), boot_source.clone(), Vec::new()),
            ),
        }
    }

    /// Plans the put-drive call: `PUT /drives/<id>`, with `path_on_host`
    /// linked into the jail and rewritten when jailed.
    pub fn prepare_drive(&self, drive: &Drive) -> (r: Result<
        (Method, String, Drive, Vec<LinkOp>),
        Error,
    >)
        ensures
            !self.spec_agent_connected() ==> r is Err && r->Err_0 is Instance
                && r->Err_0.spec_message() == "No agent spawned"@,
            r is Ok ==> r->Ok_0.0 == Method::Put && r->Ok_0.1@ == "/drives/"@ + drive.drive_id@,
            self.spec_agent_connected() && !self.spec_jailed() ==> r is Ok && r->Ok_0.2 == *drive
                && r->Ok_0.3@.len() == 0,
            self.spec_agent_connected() && self.spec_jailed() ==> {
                let strat = self.spec_chroot_strategy()->Some_0;
                let root = self.spec_jailer_workspace_dir()->Some_0@;
                match spec_chroot_rel(strat, drive.path_on_host@) {
                    None => r is Err && r->Err_0 is Configuration,
                    Some(rel) => {
                        &&& r is Ok
                        &&& r->Ok_0.2.drive_id@ == drive.drive_id@
                        &&& r->Ok_0.2.path_on_host@ == rel
                        &&& r->Ok_0.2.is_root_device == drive.is_root_device
                        &&& r->Ok_0.2.is_read_only == drive.is_read_only
                        &&& r->Ok_0.2.partuuid == drive.partuuid
                        &&& r->Ok_0.2.cache_type == drive.cache_type
                        &&& r->Ok_0.3@.len() == 1
                        &&& r->Ok_0.3@[0].origin@ == drive.path_on_host@
                        &&& r->Ok_0.3@[0].link@ == spec_join(root, rel)
                    },
                }
            },
    {
        match self.require_agent() {
            Err(e) => {
                return Err(e);
            },
            Ok(()) => {},
        }
        let mut path = "/drives/".to_owned();
        path.append(drive.drive_id.as_str());
        match (&self.chroot_strategy, &self.jailer_workspace_dir) {
            (Some(strategy), Some(root)) => {
                match rel_and_link(strategy, root, &drive.path_on_host) {
                    Ok((rel, op)) => {
                        let mut links: Vec<LinkOp> = Vec::new();
                        links.push(op);
                        let payload = Drive {
                            drive_id: drive.drive_id.clone(),
                            path_on_host: rel,
                            is_root_device: drive.is_root_device,
                            is_read_only: drive.is_read_only,
                            partuuid: clone_opt_string(&drive.partuuid),
                            cache_type: clone_opt_string(&drive.cache_type),
                        };
                        Ok((Method::Put, path, payload, links))
                    },
                    Err(e) => Err(e),
                }
            },
            _ => Ok((Method::Put, path, drive.clone(), Vec::new())),
        }
    }

    /// Plans the patch-drive call: `PATCH /drives/<id>`; the optional
    /// `path_on_host` is linked and rewritten when jailed and present.
    pub fn prepare_partial_drive(&self, partial_drive: &PartialDrive) -> (r: Result<
        (Method, String, PartialDrive, Vec<LinkOp>),
        Error,
    >)
        ensures
            !self.spec_agent_connected() ==> r is Err && r->Err_0 is Instance
                && r->Err_0.spec_message() == "No agent spawned"@,
            r is Ok ==> r->Ok_0.0 == Method::Patch && r->Ok_0.1@ == "/drives/"@
                + partial_drive.drive_id@,
            self.spec_agent_connected() && (!self.spec_jailed()
                || partial_drive.path_on_host is None) ==> r is Ok && r->Ok_0.2 == *partial_drive
                && r->Ok_0.3@.len() == 0,
            self.spec_agent_connected() && self.spec_jailed() && partial_drive.path_on_host
                is Some ==> {
                let strat = self.spec_chroot_strategy()->Some_0;
                let root = self.spec_jailer_workspace_dir()->Some_0@;
                let hp = partial_drive.path_on_host->Some_0@;
                match spec_chroot_rel(strat, hp) {
                    None => r is Err && r->Err_0 is Configuration,
                    Some(rel) => {
                        &&& r is Ok
                        &&& r->Ok_0.2.drive_id@ == partial_drive.drive_id@
                        &&& r->Ok_0.2.path_on_host is Some
                        &&& r->Ok_0.2.path_on_host->Some_0@ == rel
                        &&& r->Ok_0.3@.len() == 1
                        &&& r->Ok_0.3@[0].origin@ == hp
                        &&& r->Ok_0.3@[0].link@ == spec_join(root, rel)
                    },
                }
            },
    {
        match self.require_agent() {
            Err(e) => {
                return Err(e);
            },
            Ok(()) => {},
        }
        let mut path = "/drives/".to_owned();
        path.append(partial_drive.drive_id.as_str());
        match (&self.chroot_strategy, &self.jailer_workspace_dir) {
            (Some(strategy), Some(root)) => {
                match &partial_drive.path_on_host {
                    Some(p) => {
                        match rel_and_link(strategy, root, p) {
                            Ok((rel, op)) => {
                                let mut links: Vec<LinkOp> = Vec::new();
                                links.push(op);
                                let payload = PartialDrive {
                                    drive_id: partial_drive.drive_id.clone(),
                                    path_on_host: Some(rel),
                                };
                                Ok((Method::Patch, path, payload, links))
                            },
                            Err(e) => Err(e),
                        }
                    },
                    None => Ok((Method::Patch, path, partial_drive.clone(), Vec::new())),
                }
            },
            _ => Ok((Method::Patch, path, partial_drive.clone(), Vec::new())),
        }
    }

    /// Plans the logger call: `PUT /logger`, with `log_path` linked and
    /// rewritten when jailed.
    pub fn prepare_logger(&self, logger: &Logger) -> (r: Result<
        (Method, String, Logger, Vec<LinkOp>),
        Error,
    >)
        ensures
            !self.spec_agent_connected() ==> r is Err && r->Err_0 is Instance
                && r->Err_0.spec_message() == "No agent spawned"@,
            r is Ok ==> r->Ok_0.0 == Method::Put && r->Ok_0.1@ == "/logger"@,
            self.spec_agent_connected() && !self.spec_jailed() ==> r is Ok && r->Ok_0.2 == *logger
                && r->Ok_0.3@.len() == 0,
            self.spec_agent_connected() && self.spec_jailed() ==> {
                let strat = self.spec_chroot_strategy()->Some_0;
                let root = self.spec_jailer_workspace_dir()->Some_0@;
                match spec_chroot_rel(strat, logger.log_path@) {
                    None => r is Err && r->Err_0 is Configuration,
                    Some(rel) => {
                        &&& r is Ok
                        &&& r->Ok_0.2.log_path@ == rel
                        &&& r->Ok_0.2.level == logger.level
                        &&& r->Ok_0.2.show_level == logger.show_level
                        &&& r->Ok_0.2.show_log_origin == logger.show_log_origin
                        &&& r->Ok_0.2.module == logger.module
                        &&& r->Ok_0.3@.len() == 1
                        &&& r->Ok_0.3@[0].origin@ == logger.log_path@
                        &&& r->Ok_0.3@[0].link@ == spec_join(root, rel)
                    },
                }
            },
    {
        match self.require_agent() {
            Err(e) => {
                return Err(e);
            },
            Ok(()) => {},
        }
        match (&self.chroot_strategy, &self.jailer_workspace_dir) {
            (Some(strategy), Some(root)) => {
                match rel_and_link(strategy, root, &logger.log_path) {
                    Ok((rel, op)) => {
                        let mut links: Vec<LinkOp> = Vec::new();
                        links.push(op);
                        let payload = Logger {
                            log_path: rel,
                            level: clone_opt_string(&logger.level),
                            show_level: logger.show_level,
                            show_log_origin: logger.show_log_origin,
                            module: clone_opt_string(&logger.module),
                        };
                        Ok((Method::Put, "/logger".to_owned(), payload, links))
                    },
                    Err(e) => Err(e),
                }
            },
            _ => Ok((Method::Put, "/logger".to_owned(), logger.clone(), Vec::new())),
        }
    }

    /// Plans the metrics call: `PUT /metrics`, with `metrics_path` linked
    /// and rewritten when jailed.
    pub fn prepare_metrics(&self, metrics: &Metrics) -> (r: Result<
        (Method, String, Metrics, Vec<LinkOp>),
        Error,
    >)
        ensures
            !self.spec_agent_connected() ==> r is Err && r->Err_0 is Instance
                && r->Err_0.spec_message() == "No agent spawned"@,
            r is Ok ==> r->Ok_0.0 == Method::Put && r->Ok_0.1@ == "/metrics"@,
            self.spec_agent_connected() && !self.spec_jailed() ==> r is Ok && r->Ok_0.2
                == *metrics && r->Ok_0.3@.len() == 0,
            self.spec_agent_connected() && self.spec_jailed() ==> {
                let strat = self.spec_chroot_strategy()->Some_0;
                let root = self.spec_jailer_workspace_dir()->Some_0@;
                match spec_chroot_rel(strat, metrics.metrics_path@) {
                    None => r is Err && r->Err_0 is Configuration,
                    Some(rel) => {
                        &&& r is Ok
                        &&& r->Ok_0.2.metrics_path@ == rel
                        &&& r->Ok_0.3@.len() == 1
                        &&& r->Ok_0.3@[0].origin@ == metrics.metrics_path@
                        &&& r->Ok_0.3@[0].link@ == spec_join(root, rel)
                    },
                }
            },
    {
        match self.require_agent() {
            Err(e) => {
                return Err(e);
            },
            Ok(()) => {},
        }
        match (&self.chroot_strategy, &self.jailer_workspace_dir) {
            (Some(strategy), Some(root)) => {
                match rel_and_link(strategy, root, &metrics.metrics_path) {
                    Ok((rel, op)) => {
                        let mut links: Vec<LinkOp> = Vec::new();
                        links.push(op);
                        let payload = Metrics { metrics_path: rel };
                        Ok((Method::Put, "/metrics".to_owned(), payload, links))
                    },
                    Err(e) => Err(e),
                }
            },
            _ => Ok((Method::Put, "/metrics".to_owned(), metrics.clone(), Vec::new())),
        }
    }

    /// Plans the vsock call: `PUT /vsock`, with `uds_path` linked and
    /// rewritten when jailed.
    pub fn prepare_vsock(&self, vsock: &Vsock) -> (r: Result<
        (Method, String, Vsock, Vec<LinkOp>),
        Error,
    >)
        ensures
            !self.spec_agent_connected() ==> r is Err && r->Err_0 is Instance
                && r->Err_0.spec_message() == "No agent spawned"@,
            r is Ok ==> r->Ok_0.0 == Method::Put && r->Ok_0.1@ == "/vsock"@,
            self.spec_agent_connected() && !self.spec_jailed() ==> r is Ok && r->Ok_0.2 == *vsock
                && r->Ok_0.3@.len() == 0,
            self.spec_agent_connected() && self.spec_jailed() ==> {
                let strat = self.spec_chroot_strategy()->Some_0;
                let root = self.spec_jailer_workspace_dir()->Some_0@;
                match spec_chroot_rel(strat, vsock.uds_path@) {
                    None => r is Err && r->Err_0 is Configuration,
                    Some(rel) => {
                        &&& r is Ok
                        &&& r->Ok_0.2.guest_cid == vsock.guest_cid
                        &&& r->Ok_0.2.uds_path@ == rel
                        &&& r->Ok_0.2.vsock_id == vsock.vsock_id
                        &&& r->Ok_0.3@.len() == 1
                        &&& r->Ok_0.3@[0].origin@ == vsock.uds_path@
                        &&& r->Ok_0.3@[0].link@ == spec_join(root, rel)
                    },
                }
            },
    {
        match self.require_agent() {
            Err(e) => {
                return Err(e);
            },
            Ok(()) => {},
        }
        match (&self.chroot_strategy, &self.jailer_workspace_dir) {
            (Some(strategy), Some(root)) => {
                match rel_and_link(strategy, root, &vsock.uds_path) {
                    Ok((rel, op)) => {
                        let mut links: Vec<LinkOp> = Vec::new();
                        links.push(op);
                        let payload = Vsock {
                            guest_cid: vsock.guest_cid,
                            uds_path: rel,
                            vsock_id: clone_opt_string(&vsock.vsock_id),
                        };
                        Ok((Method::Put, "/vsock".to_owned(), payload, links))
                    },
                    Err(e) => Err(e),
                }
            },
            _ => Ok((Method::Put, "/vsock".to_owned(), vsock.clone(), Vec::new())),
        }
    }

    /// Plans the load-snapshot call: `PUT /snapshot/load`, with the
    /// snapshot file and the optional memory file linked and rewritten
    /// when jailed.
    pub fn prepare_load_snapshot(&self, snapshot_load_params: &SnapshotLoadParams) -> (r: Result<
        (Method, String, SnapshotLoadParams, Vec<LinkOp>),
        Error,
    >)
        ensures
            !self.spec_agent_connected() ==> r is Err && r->Err_0 is Instance
                && r->Err_0.spec_message() == "No agent spawned"@,
            r is Ok ==> r->Ok_0.0 == Method::Put && r->Ok_0.1@ == "/snapshot/load"@,
            self.spec_agent_connected() && !self.spec_jailed() ==> r is Ok && r->Ok_0.2
                == *snapshot_load_params && r->Ok_0.3@.len() == 0,
            self.spec_agent_connected() && self.spec_jailed() ==> {
                let strat = self.spec_chroot_strategy()->Some_0;
                let root = self.spec_jailer_workspace_dir()->Some_0@;
                let rel_s = spec_chroot_rel(strat, snapshot_load_params.snapshot_path@);
                match snapshot_load_params.mem_file_path {
                    Some(mp) => {
                        let rel_m = spec_chroot_rel(strat, mp@);
                        if rel_m is None || rel_s is None {
                            r is Err && r->Err_0 is Configuration
                        } else {
                            &&& r is Ok
                            &&& r->Ok_0.2.enable_diff_snapshots
                                == snapshot_load_params.enable_diff_snapshots
                            &&& r->Ok_0.2.resume_vm == snapshot_load_params.resume_vm
                            &&& r->Ok_0.2.mem_file_path is Some
                            &&& r->Ok_0.2.mem_file_path->Some_0@ == rel_m->Some_0
                            &&& r->Ok_0.2.snapshot_path@ == rel_s->Some_0
                            &&& r->Ok_0.3@.len() == 2
                            &&& r->Ok_0.3@[0].origin@ == mp@
                            &&& r->Ok_0.3@[0].link@ == spec_join(root, rel_m->Some_0)
                            &&& r->Ok_0.3@[1].origin@ == snapshot_load_params.snapshot_path@
                            &&& r->Ok_0.3@[1].link@ == spec_join(root, rel_s->Some_0)
                        }
                    },
                    None => {
                        if rel_s is None {
                            r is Err && r->Err_0 is Configuration
                        } else {
                            &&& r is Ok
                            &&& r->Ok_0.2.enable_diff_snapshots
                                == snapshot_load_params.enable_diff_snapshots
                            &&& r->Ok_0.2.resume_vm == snapshot_load_params.resume_vm
                            &&& r->Ok_0.2.mem_file_path is None
                            &&& r->Ok_0.2.snapshot_path@ == rel_s->Some_0
                            &&& r->Ok_0.3@.len() == 1
                            &&& r->Ok_0.3@[0].origin@ == snapshot_load_params.snapshot_path@
                            &&& r->Ok_0.3@[0].link@ == spec_join(root, rel_s->Some_0)
                        }
                    },
                }
            },
    {
        match self.require_agent() {
            Err(e) => {
                return Err(e);
            },
            Ok(()) => {},
        }
        match (&self.chroot_strategy, &self.jailer_workspace_dir) {
            (Some(strategy), Some(root)) => {
                let mut links: Vec<LinkOp> = Vec::new();
                let chroot_mem: Option<String> = match &snapshot_load_params.mem_file_path {
                    Some(p) => {
                        match rel_and_link(strategy, root, p) {
                            Ok((rel, op)) => {
                                links.push(op);
                                Some(rel)
                            },
                            Err(e) => {
                                return Err(e);
                            },
                        }
                    },
                    None => None,
                };
                let chroot_snapshot = match rel_and_link(
                    strategy,
                    root,
                    &snapshot_load_params.snapshot_path,
                ) {
                    Ok((rel, op)) => {
                        links.push(op);
                        rel
                    },
                    Err(e) => {
                        return Err(e);
                    },
                };
                let payload = SnapshotLoadParams {
                    enable_diff_snapshots: snapshot_load_params.enable_diff_snapshots,
                    mem_file_path: chroot_mem,
                    snapshot_path: chroot_snapshot,
                    resume_vm: snapshot_load_params.resume_vm,
                };
                Ok((Method::Put, "/snapshot/load".to_owned(), payload, links))
            },
            _ => Ok(
                (
                    Method::Put,
                    "/snapshot/load".to_owned(),
                    snapshot_load_params.clone(),
                    Vec::new(),
                ),
            ),
        }
    }

    /// Plans the create-snapshot call: `PUT /snapshot/create`. The
    /// supervisor writes both output files itself, inside the jail when
    /// jailed, so the payload carries the jailed paths and the returned
    /// links are to be made only after the call succeeds, from each
    /// jail-created file back out to the caller-requested host path.
    pub fn prepare_create_snapshot(&self, snapshot_create_params: &SnapshotCreateParams) -> (r:
        Result<(Method, String, SnapshotCreateParams, Vec<LinkOp>), Error>)
        ensures
            !self.spec_agent_connected() ==> r is Err && r->Err_0 is Instance
                && r->Err_0.spec_message() == "No agent spawned"@,
            r is Ok ==> r->Ok_0.0 == Method::Put && r->Ok_0.1@ == "/snapshot/create"@,
            self.spec_agent_connected() && !self.spec_jailed() ==> r is Ok && r->Ok_0.2
                == *snapshot_create_params && r->Ok_0.3@.len() == 0,
            self.spec_agent_connected() && self.spec_jailed() ==> {
                let strat = self.spec_chroot_strategy()->Some_0;
                let root = self.spec_jailer_workspace_dir()->Some_0@;
                let jm = spec_chroot_path(strat, root, snapshot_create_params.mem_file_path@);
                let js = spec_chroot_path(strat, root, snapshot_create_params.snapshot_path@);
                if jm is None || js is None {
                    r is Err && r->Err_0 is Configuration
                } else {
                    &&& r is Ok
                    &&& r->Ok_0.2.mem_file_path@ == jm->Some_0
                    &&& r->Ok_0.2.snapshot_path@ == js->Some_0
                    &&& r->Ok_0.2.snapshot_type == snapshot_create_params.snapshot_type
                    &&& r->Ok_0.2.version == snapshot_create_params.version
                    &&& r->Ok_0.3@.len() == 2
                    &&& r->Ok_0.3@[0].origin@ == jm->Some_0
                    &&& r->Ok_0.3@[0].link@ == snapshot_create_params.mem_file_path@
                    &&& r->Ok_0.3@[1].origin@ == js->Some_0
                    &&& r->Ok_0.3@[1].link@ == snapshot_create_params.snapshot_path@
                }
            },
    {
        match self.require_agent() {
            Err(e) => {
                return Err(e);
            },
            Ok(()) => {},
        }
        match (&self.chroot_strategy, &self.jailer_workspace_dir) {
            (Some(strategy), Some(root)) => {
                let chroot_mem = match strategy.chroot_path(
                    root.as_str(),
                    snapshot_create_params.mem_file_path.as_str(),
                ) {
                    Ok(p) => p,
                    Err(e) => {
                        return Err(e);
                    },
                };
                let chroot_snapshot = match strategy.chroot_path(
                    root.as_str(),
                    snapshot_create_params.snapshot_path.as_str(),
                ) {
                    Ok(p) => p,
                    Err(e) => {
                        return Err(e);
                    },
                };
                let mut links: Vec<LinkOp> = Vec::new();
                links.push(
                    LinkOp {
                        origin: chroot_mem.clone(),
                        link: snapshot_create_params.mem_file_path.clone(),
                    },
                );
                links.push(
                    LinkOp {
                        origin: chroot_snapshot.clone(),
                        link: snapshot_create_params.snapshot_path.clone(),
                    },
                );
                let payload = SnapshotCreateParams {
                    mem_file_path: chroot_mem,
                    snapshot_path: chroot_snapshot,
                    snapshot_type: clone_opt_string(&snapshot_create_params.snapshot_type),
                    version: clone_opt_string(&snapshot_create_params.version),
                };
                Ok((Method::Put, "/snapshot/create".to_owned(), payload, links))
            },
            _ => Ok(
                (
                    Method::Put,
                    "/snapshot/create".to_owned(),
                    snapshot_create_params.clone(),
                    Vec::new(),
                ),
            ),
        }
    }
}

} // verus!
