//! Launching under the jailer: the chroot path-mapping strategies and the
//! jailer launch options.

use vstd::prelude::*;

use crate::paths::{basename, join, spec_basename, spec_join, strip_leading, strip_leading_seps};
use crate::Error;

verus! {

pub const DEFAULT_CGROUP_VERSION: usize = 1;

pub const DEFAULT_CHROOT_BASE_DIR: &'static str = "/srv/jailer";

/// How a host path is mapped under the jail root.
/// Naive: only the base name is kept, so distinct host files with one base
/// name collide. Full: the whole path is kept, relative to the jail root.
#[derive(Debug, Clone, Copy, PartialEq, Eq, Structural)]
pub enum ChrootStrategy {
    NaiveLinkStrategy,
    FullLinkStrategy,
}

impl Default for ChrootStrategy {
    fn default() -> (r: Self)
        ensures
            r == ChrootStrategy::NaiveLinkStrategy,
    {
        ChrootStrategy::NaiveLinkStrategy
    }
}

/// The jail-relative form of a host path under a strategy: its base name
/// (naive), or the path stripped of leading separators (full). `None` when
/// the naive strategy finds no usable base name.
pub open spec fn spec_chroot_rel(strategy: ChrootStrategy, path: Seq<char>) -> Option<Seq<char>> {
    match strategy {
        ChrootStrategy::NaiveLinkStrategy => spec_basename(path),
        ChrootStrategy::FullLinkStrategy => Some(strip_leading_seps(path)),
    }
}

/// The host-visible jailed path: the relative form joined under the root.
pub open spec fn spec_chroot_path(strategy: ChrootStrategy, rootfs: Seq<char>, path: Seq<char>) -> Option<
    Seq<char>,
> {
    match spec_chroot_rel(strategy, path) {
        None => None,
        Some(rel) => Some(spec_join(rootfs, rel)),
    }
}

/// A jailed path always extends the jail root: it is the root joined with
/// the jail-relative form of the host path. Stripping the root back off a
/// jailed path therefore always succeeds and yields exactly the relative
/// form that the sandboxed process sees; no strategy can place a link
/// outside its jail.
pub proof fn lemma_chroot_path_extends_root(
    strategy: ChrootStrategy,
    rootfs: Seq<char>,
    path: Seq<char>,
)
    requires
        spec_chroot_rel(strategy, path) is Some,
    ensures
        spec_chroot_path(strategy, rootfs, path) == Some(
            spec_join(rootfs, spec_chroot_rel(strategy, path)->Some_0),
        ),
{
}

/// One hard link to create: a second directory entry `link` for the file
/// content already reachable at `origin`.
#[derive(Debug, Clone)]
pub struct LinkOp {
    pub origin: String,
    pub link: String,
}

impl ChrootStrategy {
    /// The `chroot`ed path seen by the host, with no side effect.
    pub fn chroot_path(&self, rootfs: &str, path_on_host: &str) -> (r: Result<String, Error>)
        ensures
            match r {
                Ok(p) => spec_chroot_path(*self, rootfs@, path_on_host@) == Some(p@),
                Err(e) => spec_chroot_path(*self, rootfs@, path_on_host@) is None && e
                    is Configuration && e.spec_message() == "file name ended with `..`"@,
            },
    {
        match self {
            ChrootStrategy::NaiveLinkStrategy => {
                match basename(path_on_host) {
                    Some(name) => Ok(join(rootfs, name.as_str())),
                    None => Err(
                        Error::Configuration("file name ended with `..`".to_owned()),
                    ),
                }
            },
            ChrootStrategy::FullLinkStrategy => {
                let rel = strip_leading(path_on_host);
                Ok(join(rootfs, rel.as_str()))
            },
        }
    }

    /// The jail-relative form of a host path, exactly what is stripped of
    /// the jail root from the jailed path.
    pub fn chroot_rel(&self, path_on_host: &str) -> (r: Result<String, Error>)
        ensures
            match r {
                Ok(p) => spec_chroot_rel(*self, path_on_host@) == Some(p@),
                Err(e) => spec_chroot_rel(*self, path_on_host@) is None && e is Configuration
                    && e.spec_message() == "file name ended with `..`"@,
            },
    {
        match self {
            ChrootStrategy::NaiveLinkStrategy => {
                match basename(path_on_host) {
                    Some(name) => Ok(name),
                    None => Err(
                        Error::Configuration("file name ended with `..`".to_owned()),
                    ),
                }
            },
            ChrootStrategy::FullLinkStrategy => Ok(strip_leading(path_on_host)),
        }
    }

    /// Plans the hard link that places a host file into the jail: the link
    /// target is the jailed path of `path_on_host` under `rootfs`.
    pub fn link_file(&self, rootfs: &str, path_on_host: &str) -> (r: Result<LinkOp, Error>)
        ensures
            match r {
                Ok(op) => spec_chroot_path(*self, rootfs@, path_on_host@) == Some(op.link@)
                    && op.origin@ == path_on_host@,
                Err(e) => spec_chroot_path(*self, rootfs@, path_on_host@) is None && e
                    is Configuration && e.spec_message() == "file name ended with `..`"@,
            },
    {
        let link = match self.chroot_path(rootfs, path_on_host) {
            Ok(link) => link,
            Err(e) => {
                return Err(e);
            },
        };
        Ok(LinkOp { origin: path_on_host.to_owned(), link })
    }
}

} // verus!

verus! {

use crate::digits::dec_chars;
use crate::firecracker::{
    opt_flag, opt_num, opt_val, push_flag, push_num, push_val, spec_build_args, view_opt_string,
    FirecrackerOption, FirecrackerOptionView, DEFAULT_API_SOCK, DEFAULT_ID,
};
use crate::instance::{Instance, LaunchSpec};
use crate::models::clone_opt_string;

/// The view of a list of name/value pairs.
pub open spec fn view_string_pairs(v: Seq<(String, String)>) -> Seq<(Seq<char>, Seq<char>)> {
    Seq::new(v.len(), |i: int| (v[i].0@, v[i].1@))
}

/// The view of a list of name/limit pairs.
pub open spec fn view_limit_pairs(v: Seq<(String, usize)>) -> Seq<(Seq<char>, usize)> {
    Seq::new(v.len(), |i: int| (v[i].0@, v[i].1))
}

/// Launch options for the jailer, which sandboxes the supervisor and then
/// execs into it.
#[derive(Debug)]
pub struct JailerOption<'f> {
    jailer_bin: String,
    exec_file: Option<String>,
    gid: Option<usize>,
    id: Option<String>,
    uid: Option<usize>,
    cgroup: Vec<(String, String)>,
    cgroup_version: Option<usize>,
    chroot_base_dir: Option<String>,
    daemonize: Option<bool>,
    netns: Option<String>,
    new_pid_ns: Option<bool>,
    parent_cgroup: Option<String>,
    resource_limit: Vec<(String, usize)>,
    firecracker_option: Option<&'f FirecrackerOption>,
    chroot_strategy: ChrootStrategy,
    remove_jailer_workspace_dir: Option<bool>,
    stdin: Option<String>,
    stdout: Option<String>,
    stderr: Option<String>,
}

/// The mathematical content of a `JailerOption`.
pub struct JailerOptionView {
    pub jailer_bin: Seq<char>,
    pub exec_file: Option<Seq<char>>,
    pub gid: Option<usize>,
    pub id: Option<Seq<char>>,
    pub uid: Option<usize>,
    pub cgroup: Seq<(Seq<char>, Seq<char>)>,
    pub cgroup_version: Option<usize>,
    pub chroot_base_dir: Option<Seq<char>>,
    pub daemonize: Option<bool>,
    pub netns: Option<Seq<char>>,
    pub new_pid_ns: Option<bool>,
    pub parent_cgroup: Option<Seq<char>>,
    pub resource_limit: Seq<(Seq<char>, usize)>,
    pub firecracker_option: Option<FirecrackerOptionView>,
    pub chroot_strategy: ChrootStrategy,
    pub remove_jailer_workspace_dir: Option<bool>,
    pub stdin: Option<Seq<char>>,
    pub stdout: Option<Seq<char>>,
    pub stderr: Option<Seq<char>>,
}

impl<'f> View for JailerOption<'f> {
    type V = JailerOptionView;

    closed spec fn view(&self) -> JailerOptionView {
        JailerOptionView {
            jailer_bin: self.jailer_bin@,
            exec_file: view_opt_string(self.exec_file),
            gid: self.gid,
            id: view_opt_string(self.id),
            uid: self.uid,
            cgroup: view_string_pairs(self.cgroup@),
            cgroup_version: self.cgroup_version,
            chroot_base_dir: view_opt_string(self.chroot_base_dir),
            daemonize: self.daemonize,
            netns: view_opt_string(self.netns),
            new_pid_ns: self.new_pid_ns,
            parent_cgroup: view_opt_string(self.parent_cgroup),
            resource_limit: view_limit_pairs(self.resource_limit@),
            firecracker_option: (match self.firecracker_option { Some(fo) => Some(fo@), None => None }),
            chroot_strategy: self.chroot_strategy,
            remove_jailer_workspace_dir: self.remove_jailer_workspace_dir,
            stdin: view_opt_string(self.stdin),
            stdout: view_opt_string(self.stdout),
            stderr: view_opt_string(self.stderr),
        }
    }
}

/// One `--cgroup key=value` pair for each configured cgroup, in order.
pub open spec fn cgroup_args(ps: Seq<(Seq<char>, Seq<char>)>) -> Seq<Seq<char>>
    decreases ps.len(),
{
    if ps.len() == 0 {
        Seq::empty()
    } else {
        cgroup_args(ps.drop_last()) + seq!["--cgroup"@, ps.last().0 + "="@ + ps.last().1]
    }
}

/// One `--resource-limit key=value` pair for each configured limit.
pub open spec fn resource_limit_args(ps: Seq<(Seq<char>, usize)>) -> Seq<Seq<char>>
    decreases ps.len(),
{
    if ps.len() == 0 {
        Seq::empty()
    } else {
        resource_limit_args(ps.drop_last()) + seq!["--resource-limit"@, ps.last().0 + "="@
            + dec_chars(ps.last().1 as nat)]
    }
}

/// The jailer's argument list: the four required options, the cgroups, the
/// optional settings, the resource limits, and finally `--` followed by the
/// supervisor's own arguments when a supervisor option is attached.
pub open spec fn spec_jailer_args(v: JailerOptionView) -> Seq<Seq<char>> {
    seq!["--exec-file"@, v.exec_file->Some_0, "--gid"@, dec_chars(v.gid->Some_0 as nat), "--id"@,
        v.id->Some_0, "--uid"@, dec_chars(v.uid->Some_0 as nat)] + cgroup_args(v.cgroup) + opt_num(
        "--cgroup-version"@,
        v.cgroup_version,
    ) + opt_val("--chroot-base-dir"@, v.chroot_base_dir) + opt_flag("--daemonize"@, v.daemonize)
        + opt_val("--netns"@, v.netns) + opt_flag("--new-pid-ns"@, v.new_pid_ns) + opt_val(
        "--parent-cgroup"@,
        v.parent_cgroup,
    ) + resource_limit_args(v.resource_limit) + (match v.firecracker_option {
        Some(fo) => seq!["--"@] + spec_build_args(fo),
        None => Seq::<Seq<char>>::empty(),
    })
}

/// The jail workspace directory: `<base>/<exec_name>/<id>/root`, with the
/// default base and id standing in for unset ones.
pub open spec fn spec_workspace_dir(v: JailerOptionView) -> Seq<char> {
    let base = match v.chroot_base_dir {
        Some(b) => b,
        None => DEFAULT_CHROOT_BASE_DIR@,
    };
    let exec_name = spec_basename(v.exec_file->Some_0)->Some_0;
    let idv = match v.id {
        Some(i) => i,
        None => DEFAULT_ID@,
    };
    spec_join(spec_join(spec_join(base, exec_name), idv), "root"@)
}

/// The control-socket path the attached supervisor will use, or the
/// default one.
pub open spec fn spec_api_sock_of(v: JailerOptionView) -> Seq<char> {
    match v.firecracker_option {
        Some(fo) => match fo.api_sock {
            Some(s) => s,
            None => DEFAULT_API_SOCK@,
        },
        None => DEFAULT_API_SOCK@,
    }
}

impl<'f> JailerOption<'f> {
    pub fn new(jailer_bin: &str, exec_file: &str, id: &str, gid: usize, uid: usize) -> (r: Self)
        ensures
            r@.jailer_bin == jailer_bin@,
            r@.exec_file == Some(exec_file@),
            r@.id == Some(id@),
            r@.gid == Some(gid),
            r@.uid == Some(uid),
            r@.cgroup == Seq::<(Seq<char>, Seq<char>)>::empty(),
            r@.cgroup_version is None,
            r@.chroot_base_dir is None,
            r@.daemonize is None,
            r@.netns is None,
            r@.new_pid_ns is None,
            r@.parent_cgroup is None,
            r@.resource_limit == Seq::<(Seq<char>, usize)>::empty(),
            r@.firecracker_option is None,
            r@.chroot_strategy == ChrootStrategy::NaiveLinkStrategy,
            r@.remove_jailer_workspace_dir is None,
            r@.stdin is None,
            r@.stdout is None,
            r@.stderr is None,
    {
        let r = JailerOption {
            jailer_bin: jailer_bin.to_owned(),
            exec_file: Some(exec_file.to_owned()),
            gid: Some(gid),
            id: Some(id.to_owned()),
            uid: Some(uid),
            cgroup: Vec::new(),
            cgroup_version: None,
            chroot_base_dir: None,
            daemonize: None,
            netns: None,
            new_pid_ns: None,
            parent_cgroup: None,
            resource_limit: Vec::new(),
            firecracker_option: None,
            chroot_strategy: ChrootStrategy::NaiveLinkStrategy,
            remove_jailer_workspace_dir: None,
            stdin: None,
            stdout: None,
            stderr: None,
        };
        proof {
            assert(r@.cgroup =~= Seq::<(Seq<char>, Seq<char>)>::empty());
            assert(r@.resource_limit =~= Seq::<(Seq<char>, usize)>::empty());
        }
        r
    }

    /// The base name of the file the jailer execs into, which names the
    /// jail directory and the pid file.
    pub(crate) fn exec_file_name(&self) -> (r: Result<String, Error>)
        ensures
            match r {
                Ok(name) => self@.exec_file is Some && spec_basename(self@.exec_file->Some_0)
                    == Some(name@),
                Err(e) => e is Configuration && (self@.exec_file is None && e.spec_message()
                    == "`exec_file` not set"@ || self@.exec_file is Some && spec_basename(
                    self@.exec_file->Some_0,
                ) is None && e.spec_message() == "jailer `exec_file` ends with `..`"@),
            },
    {
        match &self.exec_file {
            None => Err(Error::Configuration("`exec_file` not set".to_owned())),
            Some(exec_file) => {
                match basename(exec_file.as_str()) {
                    Some(name) => Ok(name),
                    None => Err(
                        Error::Configuration("jailer `exec_file` ends with `..`".to_owned()),
                    ),
                }
            },
        }
    }

    /// The jail workspace directory this option leads to,
    /// `<base>/<exec_name>/<id>/root`. `already_exists` reports whether
    /// that directory is already present on disk; a present one means a
    /// conflicting jail id and is refused.
    pub fn jailer_workspace_dir(&self, already_exists: bool) -> (r: Result<String, Error>)
        ensures
            match r {
                Ok(p) => {
                    &&& self@.exec_file is Some
                    &&& spec_basename(self@.exec_file->Some_0) is Some
                    &&& !already_exists
                    &&& p@ == spec_workspace_dir(self@)
                },
                Err(e) => {
                    ||| (self@.exec_file is None && e is Configuration && e.spec_message()
                        == "`exec_file` not set"@)
                    ||| (self@.exec_file is Some && spec_basename(self@.exec_file->Some_0)
                        is None && e is Configuration && e.spec_message()
                        == "jailer `exec_file` ends with `..`"@)
                    ||| (self@.exec_file is Some && spec_basename(self@.exec_file->Some_0)
                        is Some && already_exists && e is Configuration && e.spec_message()
                        == "conflict jailer ID "@ + (match self@.id {
                        Some(i) => i,
                        None => DEFAULT_ID@,
                    }))
                },
            },
    {
        let exec_file_name = match self.exec_file_name() {
            Ok(n) => n,
            Err(e) => {
                return Err(e);
            },
        };
        let base: &str = match &self.chroot_base_dir {
            Some(b) => b.as_str(),
            None => DEFAULT_CHROOT_BASE_DIR,
        };
        let idv: &str = match &self.id {
            Some(i) => i.as_str(),
            None => DEFAULT_ID,
        };
        if already_exists {
            let mut msg = "conflict jailer ID ".to_owned();
            msg.append(idv);
            return Err(Error::Configuration(msg));
        }
        let d = join(
            join(join(base, exec_file_name.as_str()).as_str(), idv).as_str(),
            "root",
        );
        Ok(d)
    }

    pub fn exec_file(&mut self, exec_file: Option<&str>) -> (ret: &mut Self)
        ensures
            ret@ == (JailerOptionView { exec_file: (match exec_file { Some(s) => Some(s@), None => None }), ..old(self)@ }),
            *final(self) == *final(ret),
    {
        self.exec_file = match exec_file {
            Some(s) => Some(s.to_owned()),
            None => None,
        };
        self
    }

    pub fn gid(&mut self, gid: Option<usize>) -> (ret: &mut Self)
        ensures
            ret@ == (JailerOptionView { gid: gid, ..old(self)@ }),
            *final(self) == *final(ret),
    {
        self.gid = gid;
        self
    }

    pub fn id(&mut self, id: Option<String>) -> (ret: &mut Self)
        ensures
            ret@ == (JailerOptionView { id: view_opt_string(id), ..old(self)@ }),
            *final(self) == *final(ret),
    {
        self.id = id;
        self
    }

    pub fn uid(&mut self, uid: Option<usize>) -> (ret: &mut Self)
        ensures
            ret@ == (JailerOptionView { uid: uid, ..old(self)@ }),
            *final(self) == *final(ret),
    {
        self.uid = uid;
        self
    }

    pub fn cgroup(&mut self, cgroup: Vec<(String, String)>) -> (ret: &mut Self)
        ensures
            ret@ == (JailerOptionView { cgroup: view_string_pairs(cgroup@), ..old(self)@ }),
            *final(self) == *final(ret),
    {
        self.cgroup = cgroup;
        self
    }

    pub fn cgroup_version(&mut self, cgroup_version: Option<usize>) -> (ret: &mut Self)
        ensures
            ret@ == (JailerOptionView { cgroup_version: cgroup_version, ..old(self)@ }),
            *final(self) == *final(ret),
    {
        self.cgroup_version = cgroup_version;
        self
    }

    pub fn chroot_base_dir(&mut self, chroot_base_dir: Option<&str>) -> (ret: &mut Self)
        ensures
            ret@ == (JailerOptionView { chroot_base_dir: (match chroot_base_dir { Some(s) => Some(s@), None => None }), ..old(self)@ }),
            *final(self) == *final(ret),
    {
        self.chroot_base_dir = match chroot_base_dir {
            Some(s) => Some(s.to_owned()),
            None => None,
        };
        self
    }

    pub fn daemonize(&mut self) -> (ret: &mut Self)
        ensures
            ret@ == (JailerOptionView { daemonize: Some(true), ..old(self)@ }),
            *final(self) == *final(ret),
    {
        self.daemonize = Some(true);
        self
    }

    pub fn netns(&mut self, netns: Option<&str>) -> (ret: &mut Self)
        ensures
            ret@ == (JailerOptionView { netns: (match netns { Some(s) => Some(s@), None => None }), ..old(self)@ }),
            *final(self) == *final(ret),
    {
        self.netns = match netns {
            Some(s) => Some(s.to_owned()),
            None => None,
        };
        self
    }

    pub fn new_pid_ns(&mut self, new_pid_ns: Option<bool>) -> (ret: &mut Self)
        ensures
            ret@ == (JailerOptionView { new_pid_ns: new_pid_ns, ..old(self)@ }),
            *final(self) == *final(ret),
    {
        self.new_pid_ns = new_pid_ns;
        self
    }

    pub fn parent_cgroup(&mut self, parent_cgroup: Option<String>) -> (ret: &mut Self)
        ensures
            ret@ == (JailerOptionView { parent_cgroup: view_opt_string(parent_cgroup), ..old(self)@ }),
            *final(self) == *final(ret),
    {
        self.parent_cgroup = parent_cgroup;
        self
    }

    pub fn resource_limit(&mut self, resource_limit: Vec<(String, usize)>) -> (ret: &mut Self)
        ensures
            ret@ == (JailerOptionView { resource_limit: view_limit_pairs(resource_limit@), ..old(self)@ }),
            *final(self) == *final(ret),
    {
        self.resource_limit = resource_limit;
        self
    }

    pub fn firecracker_option(&mut self, firecracker_option: Option<&'f FirecrackerOption>) -> (ret: &mut Self)
        ensures
            ret@ == (JailerOptionView { firecracker_option: (match firecracker_option { Some(fo) => Some(fo@), None => None }), ..old(self)@ }),
            *final(self) == *final(ret),
    {
        self.firecracker_option = firecracker_option;
        self
    }

    pub fn chroot_strategy(&mut self, chroot_strategy: ChrootStrategy) -> (ret: &mut Self)
        ensures
            ret@ == (JailerOptionView { chroot_strategy: chroot_strategy, ..old(self)@ }),
            *final(self) == *final(ret),
    {
        self.chroot_strategy = chroot_strategy;
        self
    }

    pub fn remove_jailer_workspace_dir(&mut self) -> (ret: &mut Self)
        ensures
            ret@ == (JailerOptionView { remove_jailer_workspace_dir: Some(true), ..old(self)@ }),
            *final(self) == *final(ret),
    {
        self.remove_jailer_workspace_dir = Some(true);
        self
    }

    pub fn stdin(&mut self, stdin: &str) -> (ret: &mut Self)
        ensures
            ret@ == (JailerOptionView { stdin: Some(stdin@), ..old(self)@ }),
            *final(self) == *final(ret),
    {
        self.stdin = Some(stdin.to_owned());
        self
    }

    pub fn stdout(&mut self, stdout: &str) -> (ret: &mut Self)
        ensures
            ret@ == (JailerOptionView { stdout: Some(stdout@), ..old(self)@ }),
            *final(self) == *final(ret),
    {
        self.stdout = Some(stdout.to_owned());
        self
    }

    pub fn stderr(&mut self, stderr: &str) -> (ret: &mut Self)
        ensures
            ret@ == (JailerOptionView { stderr: Some(stderr@), ..old(self)@ }),
            *final(self) == *final(ret),
    {
        self.stderr = Some(stderr.to_owned());
        self
    }
}

} // verus!

verus! {

use crate::digits::usize_to_string;
use crate::fstack::FStackAction;

impl<'f> JailerOption<'f> {
    /// Appends one `--cgroup key=value` pair per configured cgroup.
    fn push_cgroup_args(&self, args: &mut Vec<String>)
        ensures
            final(args).deep_view() == old(args).deep_view() + cgroup_args(self@.cgroup),
    {
        let ghost base = args.deep_view();
        let ghost pairs = self@.cgroup;
        let mut i: usize = 0;
        while i < self.cgroup.len()
            invariant
                i <= self.cgroup@.len(),
                pairs == view_string_pairs(self.cgroup@),
                pairs.len() == self.cgroup@.len(),
                args.deep_view() == base + cgroup_args(pairs.subrange(0, i as int)),
            decreases self.cgroup@.len() - i,
        {
            let (k, v) = (&self.cgroup[i].0, &self.cgroup[i].1);
            proof {
                assert(k@ == self.cgroup@[i as int].0@);
                assert(v@ == self.cgroup@[i as int].1@);
            }
            let mut kv = k.clone();
            kv.append("=");
            kv.append(v.as_str());
            let ghost kvv = kv@;
            let ghost pre = args.deep_view();
            args.push("--cgroup".to_owned());
            args.push(kv);
            i = i + 1;
            proof {
                let p = pairs.subrange(0, i as int);
                assert(p.drop_last() =~= pairs.subrange(0, i as int - 1));
                assert(p.last() == (self.cgroup@[i as int - 1].0@, self.cgroup@[i as int - 1].1@));
                assert(cgroup_args(p) == cgroup_args(p.drop_last()) + seq!["--cgroup"@, p.last().0
                    + "="@ + p.last().1]);
                assert(kvv == p.last().0 + "="@ + p.last().1);
                assert(args.deep_view().len() == pre.len() + 2);
                assert(forall|j: int| 0 <= j < pre.len() ==> #[trigger] args.deep_view()[j] == pre[j]);
                assert(args.deep_view()[pre.len() as int] == "--cgroup"@);
                assert(args.deep_view()[pre.len() as int + 1] == kvv);
                assert(args.deep_view() =~~= base + cgroup_args(p));
            }
        }
        proof {
            assert(pairs.subrange(0, pairs.len() as int) =~= pairs);
        }
    }

    /// Appends one `--resource-limit key=value` pair per configured limit.
    fn push_resource_limit_args(&self, args: &mut Vec<String>)
        ensures
            final(args).deep_view() == old(args).deep_view() + resource_limit_args(
                self@.resource_limit,
            ),
    {
        let ghost base = args.deep_view();
        let ghost pairs = self@.resource_limit;
        let mut i: usize = 0;
        while i < self.resource_limit.len()
            invariant
                i <= self.resource_limit@.len(),
                pairs == view_limit_pairs(self.resource_limit@),
                pairs.len() == self.resource_limit@.len(),
                args.deep_view() == base + resource_limit_args(pairs.subrange(0, i as int)),
            decreases self.resource_limit@.len() - i,
        {
            let (k, v) = (&self.resource_limit[i].0, self.resource_limit[i].1);
            proof {
                assert(k@ == self.resource_limit@[i as int].0@);
                assert(v == self.resource_limit@[i as int].1);
            }
            let mut kv = k.clone();
            kv.append("=");
            kv.append(usize_to_string(v).as_str());
            let ghost kvv = kv@;
            let ghost pre = args.deep_view();
            args.push("--resource-limit".to_owned());
            args.push(kv);
            i = i + 1;
            proof {
                let p = pairs.subrange(0, i as int);
                assert(p.drop_last() =~= pairs.subrange(0, i as int - 1));
                assert(p.last() == (
                    self.resource_limit@[i as int - 1].0@,
                    self.resource_limit@[i as int - 1].1,
                ));
                assert(resource_limit_args(p) == resource_limit_args(p.drop_last())
                    + seq!["--resource-limit"@, p.last().0 + "="@ + dec_chars(
                    p.last().1 as nat,
                )]);
                assert(kvv == p.last().0 + "="@ + dec_chars(p.last().1 as nat));
                assert(args.deep_view().len() == pre.len() + 2);
                assert(forall|j: int|
                    0 <= j < pre.len() ==> #[trigger] args.deep_view()[j] == pre[j]);
                assert(args.deep_view()[pre.len() as int] == "--resource-limit"@);
                assert(args.deep_view()[pre.len() as int + 1] == kvv);
                assert(args.deep_view() =~~= base + resource_limit_args(p));
            }
        }
        proof {
            assert(pairs.subrange(0, pairs.len() as int) =~= pairs);
        }
    }

    /// Appends `--` and the supervisor's own argument list, when one is
    /// attached.
    fn push_firecracker_args(&self, args: &mut Vec<String>)
        ensures
            final(args).deep_view() == old(args).deep_view() + (match self@.firecracker_option {
                Some(fo) => seq!["--"@] + spec_build_args(fo),
                None => Seq::<Seq<char>>::empty(),
            }),
    {
        match self.firecracker_option {
            Some(firecracker_option) => {
                args.push("--".to_owned());
                let ghost mid = args.deep_view();
                let mut fc_args = firecracker_option.build_cmd();
                let mut i: usize = 0;
                while i < fc_args.len()
                    invariant
                        i <= fc_args@.len(),
                        fc_args.deep_view() == spec_build_args(self@.firecracker_option->Some_0),
                        args.deep_view() == mid + fc_args.deep_view().subrange(0, i as int),
                    decreases fc_args@.len() - i,
                {
                    let ghost pre = args.deep_view();
                    args.push(fc_args[i].clone());
                    i = i + 1;
                    proof {
                        assert(args.deep_view().len() == pre.len() + 1);
                        assert(forall|j: int|
                            0 <= j < pre.len() ==> #[trigger] args.deep_view()[j] == pre[j]);
                        assert(args.deep_view()[pre.len() as int] == fc_args.deep_view()[i as int
                            - 1]);
                        assert(args.deep_view() =~~= mid + fc_args.deep_view().subrange(
                            0,
                            i as int,
                        ));
                    }
                }
                proof {
                    let fv = fc_args.deep_view();
                    assert(fv.subrange(0, fv.len() as int) =~= fv);
                    assert(mid =~= old(args).deep_view() + seq!["--"@]);
                    assert((old(args).deep_view() + seq!["--"@]) + fv =~= old(args).deep_view()
                        + (seq!["--"@] + fv));
                }
            },
            None => {
                proof {
                    assert(args.deep_view() =~= old(args).deep_view() + Seq::<Seq<
                        char,
                    >>::empty());
                }
            },
        }
    }

    /// The jailer's argument list; each of the four required options must
    /// be set, and each missing one is reported in a fixed order.
    pub fn build_cmd(&self) -> (r: Result<Vec<String>, Error>)
        ensures
            match r {
                Ok(args) => {
                    &&& self@.exec_file is Some
                    &&& self@.gid is Some
                    &&& self@.id is Some
                    &&& self@.uid is Some
                    &&& args.deep_view() == spec_jailer_args(self@)
                },
                Err(e) => {
                    &&& e is Configuration
                    &&& {
                        ||| (self@.exec_file is None && e.spec_message() == "`exec_file` not set"@)
                        ||| (self@.exec_file is Some && self@.gid is None && e.spec_message()
                            == "`gid` not set"@)
                        ||| (self@.exec_file is Some && self@.gid is Some && self@.id is None
                            && e.spec_message() == "`id` not set"@)
                        ||| (self@.exec_file is Some && self@.gid is Some && self@.id is Some
                            && self@.uid is None && e.spec_message() == "`uid` not set"@)
                    }
                },
            },
    {
        let mut args: Vec<String> = Vec::new();
        let exec_file = match &self.exec_file {
            Some(x) => x,
            None => {
                return Err(Error::Configuration("`exec_file` not set".to_owned()));
            },
        };
        let gid = match self.gid {
            Some(x) => x,
            None => {
                return Err(Error::Configuration("`gid` not set".to_owned()));
            },
        };
        let idv = match &self.id {
            Some(x) => x,
            None => {
                return Err(Error::Configuration("`id` not set".to_owned()));
            },
        };
        let uid = match self.uid {
            Some(x) => x,
            None => {
                return Err(Error::Configuration("`uid` not set".to_owned()));
            },
        };
        args.push("--exec-file".to_owned());
        args.push(exec_file.clone());
        args.push("--gid".to_owned());
        args.push(usize_to_string(gid));
        args.push("--id".to_owned());
        args.push(idv.clone());
        args.push("--uid".to_owned());
        args.push(usize_to_string(uid));
        proof {
            assert(args.deep_view() =~= seq!["--exec-file"@, self@.exec_file->Some_0, "--gid"@,
                dec_chars(self@.gid->Some_0 as nat), "--id"@, self@.id->Some_0, "--uid"@,
                dec_chars(self@.uid->Some_0 as nat)]);
        }
        self.push_cgroup_args(&mut args);
        push_num(&mut args, "--cgroup-version", &self.cgroup_version);
        push_val(&mut args, "--chroot-base-dir", &self.chroot_base_dir);
        push_flag(&mut args, "--daemonize", &self.daemonize);
        push_val(&mut args, "--netns", &self.netns);
        push_flag(&mut args, "--new-pid-ns", &self.new_pid_ns);
        push_val(&mut args, "--parent-cgroup", &self.parent_cgroup);
        self.push_resource_limit_args(&mut args);
        self.push_firecracker_args(&mut args);
        Ok(args)
    }

    /// Builds the instance for a jailed launch: the jail workspace is
    /// computed (and a pre-existing one refused as a conflicting jail id),
    /// the control socket is where the full-link mapping places the
    /// supervisor's socket inside the jail, and the launch description
    /// carries the jailer's argument list. The process itself is not
    /// started here; `already_exists` reports whether the workspace
    /// directory is already on disk.
    pub fn spawn(&self, already_exists: bool) -> (r: Result<Instance, Error>)
        ensures
            match r {
                Ok(inst) => {
                    &&& self@.exec_file is Some
                    &&& self@.gid is Some
                    &&& self@.id is Some
                    &&& self@.uid is Some
                    &&& spec_basename(self@.exec_file->Some_0) is Some
                    &&& !already_exists
                    &&& inst.spec_socket_on_host() == spec_join(
                        spec_workspace_dir(self@),
                        strip_leading_seps(spec_api_sock_of(self@)),
                    )
                    &&& inst.spec_jailer_workspace_dir() is Some
                    &&& inst.spec_jailer_workspace_dir()->Some_0@ == spec_workspace_dir(self@)
                    &&& inst.spec_chroot_strategy() == Some(self@.chroot_strategy)
                    &&& inst.spec_remove_jailer_workspace_dir()
                        == self@.remove_jailer_workspace_dir
                    &&& inst.spec_command().program@ == self@.jailer_bin
                    &&& inst.spec_command().args.deep_view() == spec_jailer_args(self@)
                    &&& view_opt_string(inst.spec_command().stdin) == self@.stdin
                    &&& view_opt_string(inst.spec_command().stdout) == self@.stdout
                    &&& view_opt_string(inst.spec_command().stderr) == self@.stderr
                    &&& inst.spec_exec_file_name() == spec_basename(
                        self@.exec_file->Some_0,
                    )->Some_0
                    &&& inst.spec_child_pid() is None
                    &&& !inst.spec_agent_connected()
                    &&& inst.spec_actions() == Seq::<FStackAction>::empty()
                    &&& inst.spec_jailer_pid() is None
                    &&& inst.spec_firecracker_pid() is None
                },
                Err(e) => {
                    &&& e is Configuration
                    &&& {
                        ||| (self@.exec_file is None && e.spec_message() == "`exec_file` not set"@)
                        ||| (self@.exec_file is Some && self@.gid is None && e.spec_message()
                            == "`gid` not set"@)
                        ||| (self@.exec_file is Some && self@.gid is Some && self@.id is None
                            && e.spec_message() == "`id` not set"@)
                        ||| (self@.exec_file is Some && self@.gid is Some && self@.id is Some
                            && self@.uid is None && e.spec_message() == "`uid` not set"@)
                        ||| (self@.exec_file is Some && spec_basename(self@.exec_file->Some_0)
                            is None && e.spec_message() == "jailer `exec_file` ends with `..`"@)
                        ||| (self@.exec_file is Some && spec_basename(self@.exec_file->Some_0)
                            is Some && already_exists && e.spec_message()
                            == "conflict jailer ID "@ + (match self@.id {
                            Some(i) => i,
                            None => DEFAULT_ID@,
                        }))
                    }
                },
            },
    {
        let args = match self.build_cmd() {
            Ok(a) => a,
            Err(e) => {
                return Err(e);
            },
        };
        let jailer_workspace_dir = match self.jailer_workspace_dir(already_exists) {
            Ok(d) => d,
            Err(e) => {
                return Err(e);
            },
        };
        let exec_file_name = match self.exec_file_name() {
            Ok(n) => n,
            Err(e) => {
                proof {
                    assert(false);
                }
                return Err(e);
            },
        };
        let firecracker_api_sock: &str = match &self.firecracker_option {
            Some(fo) => {
                match fo.api_sock_ref() {
                    Some(s) => s.as_str(),
                    None => DEFAULT_API_SOCK,
                }
            },
            None => DEFAULT_API_SOCK,
        };
        let socket_on_host = match ChrootStrategy::FullLinkStrategy.chroot_path(
            jailer_workspace_dir.as_str(),
            firecracker_api_sock,
        ) {
            Ok(s) => s,
            Err(e) => {
                proof {
                    assert(false);
                }
                return Err(e);
            },
        };
        let command = LaunchSpec {
            program: self.jailer_bin.clone(),
            args,
            stdin: clone_opt_string(&self.stdin),
            stdout: clone_opt_string(&self.stdout),
            stderr: clone_opt_string(&self.stderr),
        };
        Ok(
            Instance::new(
                socket_on_host,
                Some(jailer_workspace_dir),
                Some(self.chroot_strategy),
                self.remove_jailer_workspace_dir,
                command,
                exec_file_name,
            ),
        )
    }
}

} // verus!
