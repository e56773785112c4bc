//! Plain data carried by configuration and control calls. The core reads
//! only the fields it rewrites (host file paths) or switches on (action and
//! state kinds); everything is held as plain values. Turning these into
//! JSON bodies, and back, is the caller's business.

use vstd::prelude::*;

verus! {

/// The designated empty payload: a request or response with no body.
#[derive(Debug, Clone, Copy, PartialEq, Eq, Structural)]
pub struct Empty;

/// The actions the supervisor can be asked to perform.
#[derive(Debug, Clone, Copy, PartialEq, Eq, Structural)]
pub enum ActionType {
    FlushMetrics,
    InstanceStart,
    SendCtrlAtlDel,
}

#[derive(Debug, Clone, Copy, PartialEq, Eq, Structural)]
pub struct InstanceActionInfo {
    pub action_type: ActionType,
}

/// The two states the guest can be moved between once running.
#[derive(Debug, Clone, Copy, PartialEq, Eq, Structural)]
pub enum VmState {
    Paused,
    Resumed,
}

#[derive(Debug, Clone, Copy, PartialEq, Eq, Structural)]
pub struct Vm {
    pub state: VmState,
}

/// Boot source configuration; the kernel and optional initrd are host file
/// paths that the jail rewrites.
#[derive(Debug)]
pub struct BootSource {
    pub boot_args: Option<String>,
    pub initrd_path: Option<String>,
    pub kernel_image_path: String,
}

/// A block device; `path_on_host` is rewritten when jailed.
#[derive(Debug)]
pub struct Drive {
    pub drive_id: String,
    pub path_on_host: String,
    pub is_root_device: bool,
    pub is_read_only: bool,
    pub partuuid: Option<String>,
    pub cache_type: Option<String>,
}

/// A live update to a block device.
#[derive(Debug)]
pub struct PartialDrive {
    pub drive_id: String,
    pub path_on_host: Option<String>,
}

/// Logger configuration; `log_path` is rewritten when jailed.
#[derive(Debug)]
pub struct Logger {
    pub log_path: String,
    pub level: Option<String>,
    pub show_level: Option<bool>,
    pub show_log_origin: Option<bool>,
    pub module: Option<String>,
}

/// Metrics configuration; `metrics_path` is rewritten when jailed.
#[derive(Debug)]
pub struct Metrics {
    pub metrics_path: String,
}

/// A vsock device; `uds_path` is rewritten when jailed.
#[derive(Debug)]
pub struct Vsock {
    pub guest_cid: u32,
    pub uds_path: String,
    pub vsock_id: Option<String>,
}

/// Parameters for creating a snapshot. The supervisor writes both files
/// itself, inside the jail when jailed.
#[derive(Debug)]
pub struct SnapshotCreateParams {
    pub mem_file_path: String,
    pub snapshot_path: String,
    pub snapshot_type: Option<String>,
    pub version: Option<String>,
}

/// Parameters for loading a snapshot; both paths are rewritten when jailed.
#[derive(Debug)]
pub struct SnapshotLoadParams {
    pub enable_diff_snapshots: Option<bool>,
    pub mem_file_path: Option<String>,
    pub snapshot_path: String,
    pub resume_vm: Option<bool>,
}

/// Describes the balloon device statistics polling interval.
#[derive(Debug, Clone, Copy, PartialEq, Eq, Structural)]
pub struct BalloonStatsUpdate {
    /// Interval in seconds between refreshing statistics.
    pub stats_polling_interval_s: i64,
}

/// Describes the supervisor build version.
#[derive(Debug)]
pub struct FirecrackerVersion {
    pub firecracker_version: String,
}

/// A static CPU template selection.
#[derive(Debug, Clone)]
pub struct CPUTemplate(pub CPUTemplateString);

/// The supported static CPU templates.
#[derive(Debug, Clone, Copy, PartialEq, Eq, Structural)]
pub enum CPUTemplateString {
    C3,
    T2,
    T2S,
    T2CL,
    T2A,
    V1N1,
    NoneTemplate,
}

impl Default for CPUTemplateString {
    fn default() -> (r: Self)
        ensures
            r == CPUTemplateString::NoneTemplate,
    {
        CPUTemplateString::NoneTemplate
    }
}

/// One KVM capability to add to or remove from the checks, as a decimal
/// string, with a leading `!` for removal.
pub type KvmCapabilitiy = String;

/// A CPU configuration template: bit maps modifying flags by register.
/// For advanced users.
#[derive(Debug, Clone)]
pub struct CPUConfig {
    pub kvm_capabilities: Vec<KvmCapabilitiy>,
    pub vcpu_features: Vec<VcpuModifier>,
    pub cpuid_modifiers: Vec<CpuIdModifier>,
    pub msr_modifiers: Vec<MsrModifier>,
    pub reg_modifiers: Vec<RegModifier>,
}

/// A vCPU feature modifier (aarch64).
#[derive(Debug, Clone)]
pub struct VcpuModifier {
    pub index: usize,
    pub bitmap: String,
}

/// A CPUID leaf modifier (x86_64).
#[derive(Debug, Clone)]
pub struct CpuIdModifier {
    pub leaf: String,
    pub subleaf: String,
    pub flags: u32,
    pub modifiers: Vec<Modifiers>,
}

/// One CPUID register modifier.
#[derive(Debug, Clone)]
pub struct Modifiers {
    pub register: ModifierRegisterName,
    pub bitmap: String,
}

/// The CPUID registers a modifier can target.
#[derive(Debug, Clone, Copy, PartialEq, Eq, Structural)]
pub enum ModifierRegisterName {
    EAX,
    EBX,
    ECX,
    EDX,
}

/// A model-specific register modifier (x86_64).
#[derive(Debug, Clone)]
pub struct MsrModifier {
    pub addr: String,
    pub bitmap: String,
}

/// An ARM register modifier (aarch64).
#[derive(Debug, Clone)]
pub struct RegModifier {
    pub addr: String,
    pub bitmap: String,
}

/// Copies an optional string, value for value.
pub(crate) fn clone_opt_string(o: &Option<String>) -> (r: Option<String>)
    ensures
        r == *o,
{
    match o {
        Some(s) => Some(s.clone()),
        None => None,
    }
}

impl Clone for BootSource {
    fn clone(&self) -> (r: Self)
        ensures
            r == *self,
    {
        BootSource {
            boot_args: clone_opt_string(&self.boot_args),
            initrd_path: clone_opt_string(&self.initrd_path),
            kernel_image_path: self.kernel_image_path.clone(),
        }
    }
}

impl Clone for Drive {
    fn clone(&self) -> (r: Self)
        ensures
            r == *self,
    {
        Drive {
            drive_id: self.drive_id.clone(),
            path_on_host: self.path_on_host.clone(),
            is_root_device: self.is_root_device,
            is_read_only: self.is_read_only,
            partuuid: clone_opt_string(&self.partuuid),
            cache_type: clone_opt_string(&self.cache_type),
        }
    }
}

impl Clone for PartialDrive {
    fn clone(&self) -> (r: Self)
        ensures
            r == *self,
    {
        PartialDrive {
            drive_id: self.drive_id.clone(),
            path_on_host: clone_opt_string(&self.path_on_host),
        }
    }
}

impl Clone for Logger {
    fn clone(&self) -> (r: Self)
        ensures
            r == *self,
    {
        Logger {
            log_path: self.log_path.clone(),
            level: clone_opt_string(&self.level),
            show_level: self.show_level,
            show_log_origin: self.show_log_origin,
            module: clone_opt_string(&self.module),
        }
    }
}

impl Clone for Metrics {
    fn clone(&self) -> (r: Self)
        ensures
            r == *self,
    {
        Metrics { metrics_path: self.metrics_path.clone() }
    }
}

impl Clone for Vsock {
    fn clone(&self) -> (r: Self)
        ensures
            r == *self,
    {
        Vsock {
            guest_cid: self.guest_cid,
            uds_path: self.uds_path.clone(),
            vsock_id: clone_opt_string(&self.vsock_id),
        }
    }
}

impl Clone for SnapshotCreateParams {
    fn clone(&self) -> (r: Self)
        ensures
            r == *self,
    {
        SnapshotCreateParams {
            mem_file_path: self.mem_file_path.clone(),
            snapshot_path: self.snapshot_path.clone(),
            snapshot_type: clone_opt_string(&self.snapshot_type),
            version: clone_opt_string(&self.version),
        }
    }
}

impl Clone for SnapshotLoadParams {
    fn clone(&self) -> (r: Self)
        ensures
            r == *self,
    {
        SnapshotLoadParams {
            enable_diff_snapshots: self.enable_diff_snapshots,
            mem_file_path: clone_opt_string(&self.mem_file_path),
            snapshot_path: self.snapshot_path.clone(),
            resume_vm: self.resume_vm,
        }
    }
}

impl Clone for FirecrackerVersion {
    fn clone(&self) -> (r: Self)
        ensures
            r == *self,
    {
        FirecrackerVersion { firecracker_version: self.firecracker_version.clone() }
    }
}

} // verus!
