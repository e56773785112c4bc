//! Launching the bare supervisor: the firecracker launch options, built
//! up field by field, and turned into a launch description — the argument
//! list and stdio redirection paths — for the caller to spawn.

use vstd::prelude::*;

use crate::digits::{dec_chars, usize_to_string};
use crate::instance::{Instance, LaunchSpec};
use crate::models::clone_opt_string;
use crate::paths::{basename, spec_basename};
use crate::Error;

verus! {

pub const DEFAULT_API_SOCK: &'static str = "/run/firecracker.socket";

pub const DEFAULT_HTTP_API_MAX_PAYLOAD_SIZE: usize = 51200;

pub const DEFAULT_ID: &'static str = "anonymous-instance";

/// The view of an optional string: its characters, if present.
pub open spec fn view_opt_string(o: Option<String>) -> Option<Seq<char>> {
    match o {
        Some(s) => Some(s@),
        None => None,
    }
}

/// Launch options for the bare supervisor.
#[derive(Debug)]
pub struct FirecrackerOption {
    firecracker_bin: String,
    api_sock: Option<String>,
    boot_timer: Option<bool>,
    config_file: Option<String>,
    describe_snapshot: Option<bool>,
    http_api_max_payload_size: Option<usize>,
    id: Option<String>,
    level: Option<String>,
    log_path: Option<String>,
    metadata: Option<String>,
    metrics_path: Option<String>,
    mmds_size_limit: Option<String>,
    module: Option<String>,
    no_api: Option<bool>,
    no_seccomp: Option<bool>,
    parent_cpu_time_us: Option<usize>,
    seccomp_filter: Option<String>,
    show_level: Option<bool>,
    show_log_origin: Option<bool>,
    start_time_cpu_us: Option<usize>,
    start_time_us: Option<usize>,
    stdin: Option<String>,
    stdout: Option<String>,
    stderr: Option<String>,
}

/// The mathematical content of a `FirecrackerOption`.
pub struct FirecrackerOptionView {
    pub firecracker_bin: Seq<char>,
    pub api_sock: Option<Seq<char>>,
    pub boot_timer: Option<bool>,
    pub config_file: Option<Seq<char>>,
    pub describe_snapshot: Option<bool>,
    pub http_api_max_payload_size: Option<usize>,
    pub id: Option<Seq<char>>,
    pub level: Option<Seq<char>>,
    pub log_path: Option<Seq<char>>,
    pub metadata: Option<Seq<char>>,
    pub metrics_path: Option<Seq<char>>,
    pub mmds_size_limit: Option<Seq<char>>,
    pub module: Option<Seq<char>>,
    pub no_api: Option<bool>,
    pub no_seccomp: Option<bool>,
    pub parent_cpu_time_us: Option<usize>,
    pub seccomp_filter: Option<Seq<char>>,
    pub show_level: Option<bool>,
    pub show_log_origin: Option<bool>,
    pub start_time_cpu_us: Option<usize>,
    pub start_time_us: Option<usize>,
    pub stdin: Option<Seq<char>>,
    pub stdout: Option<Seq<char>>,
    pub stderr: Option<Seq<char>>,
}

impl View for FirecrackerOption {
    type V = FirecrackerOptionView;

    closed spec fn view(&self) -> FirecrackerOptionView {
        FirecrackerOptionView {
            firecracker_bin: self.firecracker_bin@,
            api_sock: view_opt_string(self.api_sock),
            boot_timer: self.boot_timer,
            config_file: view_opt_string(self.config_file),
            describe_snapshot: self.describe_snapshot,
            http_api_max_payload_size: self.http_api_max_payload_size,
            id: view_opt_string(self.id),
            level: view_opt_string(self.level),
            log_path: view_opt_string(self.log_path),
            metadata: view_opt_string(self.metadata),
            metrics_path: view_opt_string(self.metrics_path),
            mmds_size_limit: view_opt_string(self.mmds_size_limit),
            module: view_opt_string(self.module),
            no_api: self.no_api,
            no_seccomp: self.no_seccomp,
            parent_cpu_time_us: self.parent_cpu_time_us,
            seccomp_filter: view_opt_string(self.seccomp_filter),
            show_level: self.show_level,
            show_log_origin: self.show_log_origin,
            start_time_cpu_us: self.start_time_cpu_us,
            start_time_us: self.start_time_us,
            stdin: view_opt_string(self.stdin),
            stdout: view_opt_string(self.stdout),
            stderr: view_opt_string(self.stderr),
        }
    }
}

/// `[name]` when the switch is on, nothing otherwise.
pub open spec fn opt_flag(name: Seq<char>, v: Option<bool>) -> Seq<Seq<char>> {
    if v == Some(true) {
        seq![name]
    } else {
        Seq::empty()
    }
}

/// `[name, value]` when the value is set, nothing otherwise.
pub open spec fn opt_val(name: Seq<char>, v: Option<Seq<char>>) -> Seq<Seq<char>> {
    match v {
        Some(x) => seq![name, x],
        None => Seq::empty(),
    }
}

/// `[name, decimal value]` when the value is set, nothing otherwise.
pub open spec fn opt_num(name: Seq<char>, v: Option<usize>) -> Seq<Seq<char>> {
    match v {
        Some(x) => seq![name, dec_chars(x as nat)],
        None => Seq::empty(),
    }
}

/// Appends `name` when the switch is on.
pub(crate) fn push_flag(args: &mut Vec<String>, name: &str, v: &Option<bool>)
    ensures
        final(args).deep_view() == old(args).deep_view() + opt_flag(name@, *v),
{
    match v {
        Some(true) => {
            args.push(name.to_owned());
            proof {
                assert(args.deep_view() =~= old(args).deep_view() + opt_flag(name@, *v));
            }
        },
        _ => {
            proof {
                assert(args.deep_view() =~= old(args).deep_view() + opt_flag(name@, *v));
            }
        },
    }
}

/// Appends `name` and the value when the value is set.
pub(crate) fn push_val(args: &mut Vec<String>, name: &str, v: &Option<String>)
    ensures
        final(args).deep_view() == old(args).deep_view() + opt_val(name@, view_opt_string(*v)),
{
    match v {
        Some(s) => {
            args.push(name.to_owned());
            args.push(s.clone());
            proof {
                assert(args.deep_view() =~= old(args).deep_view() + opt_val(
                    name@,
                    view_opt_string(*v),
                ));
            }
        },
        None => {
            proof {
                assert(args.deep_view() =~= old(args).deep_view() + opt_val(
                    name@,
                    view_opt_string(*v),
                ));
            }
        },
    }
}

/// Appends `name` and the decimal value when the value is set.
pub(crate) fn push_num(args: &mut Vec<String>, name: &str, v: &Option<usize>)
    ensures
        final(args).deep_view() == old(args).deep_view() + opt_num(name@, *v),
{
    match v {
        Some(x) => {
            args.push(name.to_owned());
            args.push(usize_to_string(*x));
            proof {
                assert(args.deep_view() =~= old(args).deep_view() + opt_num(name@, *v));
            }
        },
        None => {
            proof {
                assert(args.deep_view() =~= old(args).deep_view() + opt_num(name@, *v));
            }
        },
    }
}

/// The argument list of the bare supervisor: the socket path first, then
/// every option that is set, in a fixed order.
pub open spec fn spec_build_args(v: FirecrackerOptionView) -> Seq<Seq<char>> {
    seq!["--api-sock"@, (match v.api_sock {
        Some(s) => s,
        None => DEFAULT_API_SOCK@,
    })] + opt_flag("--boot-timer"@, v.boot_timer) + opt_val("--config-file"@, v.config_file)
        + opt_num("--http-api-max-payload-size"@, v.http_api_max_payload_size) + opt_val(
        "--id"@,
        v.id,
    ) + opt_val("--level"@, v.level) + opt_val("--log-path"@, v.log_path) + opt_val(
        "--metadata"@,
        v.metadata,
    ) + opt_val("--metrics-path"@, v.metrics_path) + opt_val("--mmds-size-limit"@, v.mmds_size_limit)
        + opt_val("--module"@, v.module) + opt_flag("--no-api"@, v.no_api) + opt_flag(
        "--no-seccomp"@,
        v.no_seccomp,
    ) + opt_num("--parent-cpu-time-us"@, v.parent_cpu_time_us) + opt_val(
        "--seccomp-filter"@,
        v.seccomp_filter,
    ) + opt_flag("--show-level"@, v.show_level) + opt_flag("--show-log-origin"@, v.show_log_origin)
        + opt_num("--start-time-cpu-us"@, v.start_time_cpu_us) + opt_num(
        "--start-time-us"@,
        v.start_time_us,
    )
}

impl FirecrackerOption {
    pub fn new(firecracker_bin: &str) -> (r: Self)
        ensures
            r@.firecracker_bin == firecracker_bin@,
            r@.api_sock is None,
            r@.boot_timer is None,
            r@.config_file is None,
            r@.describe_snapshot is None,
            r@.http_api_max_payload_size is None,
            r@.id is None,
            r@.level is None,
            r@.log_path is None,
            r@.metadata is None,
            r@.metrics_path is None,
            r@.mmds_size_limit is None,
            r@.module is None,
            r@.no_api is None,
            r@.no_seccomp is None,
            r@.parent_cpu_time_us is None,
            r@.seccomp_filter is None,
            r@.show_level is None,
            r@.show_log_origin is None,
            r@.start_time_cpu_us is None,
            r@.start_time_us is None,
            r@.stdin is None,
            r@.stdout is None,
            r@.stderr is None,
    {
        FirecrackerOption {
            firecracker_bin: firecracker_bin.to_owned(),
            api_sock: None,
            boot_timer: None,
            config_file: None,
            describe_snapshot: None,
            http_api_max_payload_size: None,
            id: None,
            level: None,
            log_path: None,
            metadata: None,
            metrics_path: None,
            mmds_size_limit: None,
            module: None,
            no_api: None,
            no_seccomp: None,
            parent_cpu_time_us: None,
            seccomp_filter: None,
            show_level: None,
            show_log_origin: None,
            start_time_cpu_us: None,
            start_time_us: None,
            stdin: None,
            stdout: None,
            stderr: None,
        }
    }

    /// The configured control-socket path, if one is set.
    pub(crate) fn api_sock_ref(&self) -> (r: &Option<String>)
        ensures
            view_opt_string(*r) == self@.api_sock,
    {
        &self.api_sock
    }

    /// The base name of the supervisor executable, which names the jail
    /// pid file.
    pub(crate) fn exec_file_name(&self) -> (r: Result<String, Error>)
        ensures
            match r {
                Ok(name) => spec_basename(self@.firecracker_bin) == Some(name@),
                Err(e) => spec_basename(self@.firecracker_bin) is None && e is Configuration
                    && e.spec_message() == "jailer `exec_file` ends with `..`"@,
            },
    {
        match basename(self.firecracker_bin.as_str()) {
            Some(name) => Ok(name),
            None => Err(Error::Configuration("jailer `exec_file` ends with `..`".to_owned())),
        }
    }

    /// The first options of the argument list, in order.
    fn push_args_front(&self, args: &mut Vec<String>)
        ensures
            final(args).deep_view() == old(args).deep_view() + opt_flag(
                "--boot-timer"@,
                self@.boot_timer,
            ) + opt_val("--config-file"@, self@.config_file) + opt_num(
                "--http-api-max-payload-size"@,
                self@.http_api_max_payload_size,
            ) + opt_val("--id"@, self@.id) + opt_val("--level"@, self@.level) + opt_val(
                "--log-path"@,
                self@.log_path,
            ),
    {
        push_flag(args, "--boot-timer", &self.boot_timer);
        push_val(args, "--config-file", &self.config_file);
        push_num(args, "--http-api-max-payload-size", &self.http_api_max_payload_size);
        push_val(args, "--id", &self.id);
        push_val(args, "--level", &self.level);
        push_val(args, "--log-path", &self.log_path);
    }

    /// The middle options of the argument list, in order.
    fn push_args_middle(&self, args: &mut Vec<String>)
        ensures
            final(args).deep_view() == old(args).deep_view() + opt_val(
                "--metadata"@,
                self@.metadata,
            ) + opt_val("--metrics-path"@, self@.metrics_path) + opt_val(
                "--mmds-size-limit"@,
                self@.mmds_size_limit,
            ) + opt_val("--module"@, self@.module) + opt_flag("--no-api"@, self@.no_api)
                + opt_flag("--no-seccomp"@, self@.no_seccomp),
    {
        push_val(args, "--metadata", &self.metadata);
        push_val(args, "--metrics-path", &self.metrics_path);
        push_val(args, "--mmds-size-limit", &self.mmds_size_limit);
        push_val(args, "--module", &self.module);
        push_flag(args, "--no-api", &self.no_api);
        push_flag(args, "--no-seccomp", &self.no_seccomp);
    }

    /// The last options of the argument list, in order.
    fn push_args_back(&self, args: &mut Vec<String>)
        ensures
            final(args).deep_view() == old(args).deep_view() + opt_num(
                "--parent-cpu-time-us"@,
                self@.parent_cpu_time_us,
            ) + opt_val("--seccomp-filter"@, self@.seccomp_filter) + opt_flag(
                "--show-level"@,
                self@.show_level,
            ) + opt_flag("--show-log-origin"@, self@.show_log_origin) + opt_num(
                "--start-time-cpu-us"@,
                self@.start_time_cpu_us,
            ) + opt_num("--start-time-us"@, self@.start_time_us),
    {
        push_num(args, "--parent-cpu-time-us", &self.parent_cpu_time_us);
        push_val(args, "--seccomp-filter", &self.seccomp_filter);
        push_flag(args, "--show-level", &self.show_level);
        push_flag(args, "--show-log-origin", &self.show_log_origin);
        push_num(args, "--start-time-cpu-us", &self.start_time_cpu_us);
        push_num(args, "--start-time-us", &self.start_time_us);
    }

    /// The argument list handed to the supervisor executable.
    pub fn build_cmd(&self) -> (r: Vec<String>)
        ensures
            r.deep_view() == spec_build_args(self@),
    {
        let mut args: Vec<String> = Vec::new();
        args.push("--api-sock".to_owned());
        match &self.api_sock {
            Some(s) => args.push(s.clone()),
            None => args.push(DEFAULT_API_SOCK.to_owned()),
        }
        proof {
            assert(args.deep_view() =~= seq!["--api-sock"@, (match self@.api_sock {
                Some(s) => s,
                None => DEFAULT_API_SOCK@,
            })]);
        }
        self.push_args_front(&mut args);
        self.push_args_middle(&mut args);
        self.push_args_back(&mut args);
        args
    }

    /// Builds the instance for a bare supervisor launch: its control socket
    /// is the configured one (or the default), it has no jail, and its
    /// launch description carries the built argument list and the stdio
    /// redirection paths. The process itself is not started here.
    pub fn spawn(&self) -> (r: Result<Instance, Error>)
        ensures
            match r {
                Ok(inst) => {
                    &&& spec_basename(self@.firecracker_bin) is Some
                    &&& inst.spec_socket_on_host() == (match self@.api_sock {
                        Some(s) => s,
                        None => DEFAULT_API_SOCK@,
                    })
                    &&& inst.spec_jailer_workspace_dir() is None
                    &&& inst.spec_chroot_strategy() is None
                    &&& inst.spec_remove_jailer_workspace_dir() is None
                    &&& inst.spec_command().program@ == self@.firecracker_bin
                    &&& inst.spec_command().args.deep_view() == spec_build_args(self@)
                    &&& view_opt_string(inst.spec_command().stdin) == self@.stdin
                    &&& view_opt_string(inst.spec_command().stdout) == self@.stdout
                    &&& view_opt_string(inst.spec_command().stderr) == self@.stderr
                    &&& inst.spec_exec_file_name() == spec_basename(
                        self@.firecracker_bin,
                    )->Some_0
                    &&& inst.spec_child_pid() is None
                    &&& !inst.spec_agent_connected()
                    &&& inst.spec_actions() == Seq::<crate::fstack::FStackAction>::empty()
                    &&& inst.spec_jailer_pid() is None
                    &&& inst.spec_firecracker_pid() is None
                },
                Err(e) => spec_basename(self@.firecracker_bin) is None && e is Configuration
                    && e.spec_message() == "jailer `exec_file` ends with `..`"@,
            },
    {
        let exec_file_name = match self.exec_file_name() {
            Ok(n) => n,
            Err(e) => {
                return Err(e);
            },
        };
        let args = self.build_cmd();
        let command = LaunchSpec {
            program: self.firecracker_bin.clone(),
            args,
            stdin: clone_opt_string(&self.stdin),
            stdout: clone_opt_string(&self.stdout),
            stderr: clone_opt_string(&self.stderr),
        };
        let socket_on_host = match &self.api_sock {
            Some(s) => s.clone(),
            None => DEFAULT_API_SOCK.to_owned(),
        };
        Ok(
            Instance::new(socket_on_host, None, None, None, command, exec_file_name),
        )
    }

    pub fn api_sock(&mut self, api_sock: &str) -> (ret: &mut Self)
        ensures
            ret@ == (FirecrackerOptionView { api_sock: Some(api_sock@), ..old(self)@ }),
            *final(self) == *final(ret),
    {
        self.api_sock = Some(api_sock.to_owned());
        self
    }

    pub fn boot_timer(&mut self, boot_timer: Option<bool>) -> (ret: &mut Self)
        ensures
            ret@ == (FirecrackerOptionView { boot_timer: boot_timer, ..old(self)@ }),
            *final(self) == *final(ret),
    {
        self.boot_timer = boot_timer;
        self
    }

    pub fn config_file(&mut self, config_file: Option<&str>) -> (ret: &mut Self)
        ensures
            ret@ == (FirecrackerOptionView { config_file: (match config_file { Some(s) => Some(s@), None => None }), ..old(self)@ }),
            *final(self) == *final(ret),
    {
        self.config_file = match config_file {
            Some(s) => Some(s.to_owned()),
            None => None,
        };
        self
    }

    pub fn describe_snapshot(&mut self, describe_snapshot: Option<bool>) -> (ret: &mut Self)
        ensures
            ret@ == (FirecrackerOptionView { describe_snapshot: describe_snapshot, ..old(self)@ }),
            *final(self) == *final(ret),
    {
        self.describe_snapshot = describe_snapshot;
        self
    }

    pub fn http_api_max_payload_size(&mut self, http_api_max_payload_size: Option<usize>) -> (ret: &mut Self)
        ensures
            ret@ == (FirecrackerOptionView { http_api_max_payload_size: http_api_max_payload_size, ..old(self)@ }),
            *final(self) == *final(ret),
    {
        self.http_api_max_payload_size = http_api_max_payload_size;
        self
    }

    pub fn id(&mut self, id: Option<String>) -> (ret: &mut Self)
        ensures
            ret@ == (FirecrackerOptionView { id: view_opt_string(id), ..old(self)@ }),
            *final(self) == *final(ret),
    {
        self.id = id;
        self
    }

    pub fn level(&mut self, level: Option<String>) -> (ret: &mut Self)
        ensures
            ret@ == (FirecrackerOptionView { level: view_opt_string(level), ..old(self)@ }),
            *final(self) == *final(ret),
    {
        self.level = level;
        self
    }

    pub fn log_path(&mut self, log_path: Option<&str>) -> (ret: &mut Self)
        ensures
            ret@ == (FirecrackerOptionView { log_path: (match log_path { Some(s) => Some(s@), None => None }), ..old(self)@ }),
            *final(self) == *final(ret),
    {
        self.log_path = match log_path {
            Some(s) => Some(s.to_owned()),
            None => None,
        };
        self
    }

    pub fn metadata(&mut self, metadata: Option<&str>) -> (ret: &mut Self)
        ensures
            ret@ == (FirecrackerOptionView { metadata: (match metadata { Some(s) => Some(s@), None => None }), ..old(self)@ }),
            *final(self) == *final(ret),
    {
        self.metadata = match metadata {
            Some(s) => Some(s.to_owned()),
            None => None,
        };
        self
    }

    pub fn metrics_path(&mut self, metrics_path: Option<&str>) -> (ret: &mut Self)
        ensures
            ret@ == (FirecrackerOptionView { metrics_path: (match metrics_path { Some(s) => Some(s@), None => None }), ..old(self)@ }),
            *final(self) == *final(ret),
    {
        self.metrics_path = match metrics_path {
            Some(s) => Some(s.to_owned()),
            None => None,
        };
        self
    }

    pub fn mmds_size_limit(&mut self, mmds_size_limit: Option<&str>) -> (ret: &mut Self)
        ensures
            ret@ == (FirecrackerOptionView { mmds_size_limit: (match mmds_size_limit { Some(s) => Some(s@), None => None }), ..old(self)@ }),
            *final(self) == *final(ret),
    {
        self.mmds_size_limit = match mmds_size_limit {
            Some(s) => Some(s.to_owned()),
            None => None,
        };
        self
    }

    pub fn module(&mut self, module: Option<String>) -> (ret: &mut Self)
        ensures
            ret@ == (FirecrackerOptionView { module: view_opt_string(module), ..old(self)@ }),
            *final(self) == *final(ret),
    {
        self.module = module;
        self
    }

    pub fn no_api(&mut self) -> (ret: &mut Self)
        ensures
            ret@ == (FirecrackerOptionView { no_api: Some(true), ..old(self)@ }),
            *final(self) == *final(ret),
    {
        self.no_api = Some(true);
        self
    }

    pub fn no_seccomp(&mut self) -> (ret: &mut Self)
        ensures
            ret@ == (FirecrackerOptionView { no_seccomp: Some(true), ..old(self)@ }),
            *final(self) == *final(ret),
    {
        self.no_seccomp = Some(true);
        self
    }

    pub fn parent_cpu_time_us(&mut self, parent_cpu_time_us: Option<usize>) -> (ret: &mut Self)
        ensures
            ret@ == (FirecrackerOptionView { parent_cpu_time_us: parent_cpu_time_us, ..old(self)@ }),
            *final(self) == *final(ret),
    {
        self.parent_cpu_time_us = parent_cpu_time_us;
        self
    }

    pub fn seccomp_filter(&mut self, seccomp_filter: Option<String>) -> (ret: &mut Self)
        ensures
            ret@ == (FirecrackerOptionView { seccomp_filter: view_opt_string(seccomp_filter), ..old(self)@ }),
            *final(self) == *final(ret),
    {
        self.seccomp_filter = seccomp_filter;
        self
    }

    pub fn show_level(&mut self) -> (ret: &mut Self)
        ensures
            ret@ == (FirecrackerOptionView { show_level: Some(true), ..old(self)@ }),
            *final(self) == *final(ret),
    {
        self.show_level = Some(true);
        self
    }

    pub fn show_log_origin(&mut self) -> (ret: &mut Self)
        ensures
            ret@ == (FirecrackerOptionView { show_log_origin: Some(true), ..old(self)@ }),
            *final(self) == *final(ret),
    {
        self.show_log_origin = Some(true);
        self
    }

    pub fn start_time_cpu_us(&mut self, start_time_cpu_us: Option<usize>) -> (ret: &mut Self)
        ensures
            ret@ == (FirecrackerOptionView { start_time_cpu_us: start_time_cpu_us, ..old(self)@ }),
            *final(self) == *final(ret),
    {
        self.start_time_cpu_us = start_time_cpu_us;
        self
    }

    pub fn start_time_us(&mut self, start_time_us: Option<usize>) -> (ret: &mut Self)
        ensures
            ret@ == (FirecrackerOptionView { start_time_us: start_time_us, ..old(self)@ }),
            *final(self) == *final(ret),
    {
        self.start_time_us = start_time_us;
        self
    }

    pub fn stdin(&mut self, stdin: &str) -> (ret: &mut Self)
        ensures
            ret@ == (FirecrackerOptionView { stdin: Some(stdin@), ..old(self)@ }),
            *final(self) == *final(ret),
    {
        self.stdin = Some(stdin.to_owned());
        self
    }

    pub fn stdout(&mut self, stdout: &str) -> (ret: &mut Self)
        ensures
            ret@ == (FirecrackerOptionView { stdout: Some(stdout@), ..old(self)@ }),
            *final(self) == *final(ret),
    {
        self.stdout = Some(stdout.to_owned());
        self
    }

    pub fn stderr(&mut self, stderr: &str) -> (ret: &mut Self)
        ensures
            ret@ == (FirecrackerOptionView { stderr: Some(stderr@), ..old(self)@ }),
            *final(self) == *final(ret),
    {
        self.stderr = Some(stderr.to_owned());
        self
    }
}

} // verus!
