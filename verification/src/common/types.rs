//! Core domain types for pact.

use vstd::prelude::*;



verus! {

/// Configuration state of a node.
#[derive(Debug, Clone, Copy, PartialEq, Eq, Structural)]
pub enum ConfigState {
    /// Observing only, no enforcement.
    ObserveOnly,
    /// All config committed, no drift.
    Committed,
    /// Drift detected, within commit window.
    Drifted,
    /// Actively converging to declared state.
    Converging,
    /// Emergency mode: extended window, no auto-rollback.
    Emergency,
}

/// Type of configuration entry in the journal.
#[derive(Debug, Clone, Copy, PartialEq, Eq, Structural)]
pub enum EntryType {
    Commit,
    Rollback,
    AutoConverge,
    DriftDetected,
    CapabilityChange,
    PolicyUpdate,
    BootConfig,
    EmergencyStart,
    EmergencyEnd,
    ExecLog,
    ShellSession,
    ServiceLifecycle,
    PendingApproval,
    NodeEnrolled,
    NodeActivated,
    NodeDeactivated,
    NodeDecommissioned,
    NodeAssigned,
    NodeUnassigned,
    CertSigned,
    CertRevoked,
}

/// Scope of a configuration entry.
#[derive(Debug, Clone, PartialEq, Eq)]
pub enum Scope {
    Global,
    VCluster(String),
    Node(String),
}

/// Type of principal performing an operation.
#[derive(Debug, Clone, Copy, PartialEq, Eq, Structural)]
pub enum PrincipalType {
    Human,
    Agent,
    Service,
}

/// Identity of the actor performing an operation.
#[derive(Debug)]
pub struct Identity {
    pub principal: String,
    pub principal_type: PrincipalType,
    pub role: String,
}

impl Clone for Identity {
    fn clone(&self) -> (r: Self)
        ensures
            r == *self,
    {
        Identity {
            principal: self.principal.clone(),
            principal_type: self.principal_type,
            role: self.role.clone(),
        }
    }
}

/// Type of change in a delta.
#[derive(Debug, Clone, Copy, PartialEq, Eq, Structural)]
pub enum DeltaAction {
    Add,
    Remove,
    Modify,
}

/// A single change within a delta.
#[derive(Debug, Clone, PartialEq, Eq)]
pub struct DeltaItem {
    pub action: DeltaAction,
    pub key: String,
    pub value: Option<String>,
    pub previous: Option<String>,
}

/// State delta representing changes in a config entry, per category.
#[derive(Debug, Clone, Default)]
pub struct StateDelta {
    pub mounts: Vec<DeltaItem>,
    pub files: Vec<DeltaItem>,
    pub network: Vec<DeltaItem>,
    pub services: Vec<DeltaItem>,
    pub kernel: Vec<DeltaItem>,
    pub packages: Vec<DeltaItem>,
    pub gpu: Vec<DeltaItem>,
}

impl StateDelta {
    /// A delta with no changes in any category.
    pub fn empty() -> (d: StateDelta)
        ensures
            d.mounts@.len() == 0,
            d.files@.len() == 0,
            d.network@.len() == 0,
            d.services@.len() == 0,
            d.kernel@.len() == 0,
            d.packages@.len() == 0,
            d.gpu@.len() == 0,
    {
        StateDelta {
            mounts: Vec::new(),
            files: Vec::new(),
            network: Vec::new(),
            services: Vec::new(),
            kernel: Vec::new(),
            packages: Vec::new(),
            gpu: Vec::new(),
        }
    }
}

/// An immutable configuration entry in the journal.  The timestamp is held
/// as seconds since the Unix epoch.
#[derive(Debug, Clone)]
pub struct ConfigEntry {
    pub sequence: u64,
    pub timestamp: i64,
    pub entry_type: EntryType,
    pub scope: Scope,
    pub author: Identity,
    pub parent: Option<u64>,
    pub state_delta: Option<StateDelta>,
    pub policy_ref: Option<String>,
    pub ttl_seconds: Option<u32>,
    pub emergency_reason: Option<String>,
}

/// Status of a supervised service.
#[derive(Debug, Clone, Copy, PartialEq, Eq, Structural)]
pub enum ServiceState {
    Starting,
    Running,
    Stopping,
    Stopped,
    Failed,
    Restarting,
}

/// Restart policy for supervised services.
#[derive(Debug, Clone, Copy, PartialEq, Eq, Structural)]
pub enum RestartPolicy {
    Always,
    OnFailure,
    Never,
}

/// Type of health check.
#[derive(Debug, Clone, PartialEq, Eq)]
pub enum HealthCheckType {
    Process,
    Http { url: String },
    Tcp { port: u16 },
}

/// Health check configuration for a service.
#[derive(Debug, Clone)]
pub struct HealthCheck {
    pub check_type: HealthCheckType,
    pub interval_seconds: u32,
}

/// Declaration of a service to be supervised.
#[derive(Debug, Clone)]
pub struct ServiceDecl {
    pub name: String,
    pub binary: String,
    pub args: Vec<String>,
    pub restart: RestartPolicy,
    pub restart_delay_seconds: u32,
    pub depends_on: Vec<String>,
    pub order: u32,
    /// Memory limit (e.g., "512M", "1G"); maps to cgroup `memory.max`.
    pub cgroup_memory_max: Option<String>,
    /// cgroup slice to place this service in.
    pub cgroup_slice: Option<String>,
    /// CPU weight (1-10000); maps to cgroup `cpu.weight`.
    pub cgroup_cpu_weight: Option<u16>,
    pub health_check: Option<HealthCheck>,
}

/// Supervisor backend selection.
#[derive(Debug, Clone, Copy, PartialEq, Eq, Structural)]
pub enum SupervisorBackend {
    Pact,
    Systemd,
}

/// CPU architecture.
#[derive(Debug, Clone, Copy, PartialEq, Eq, Structural)]
pub enum CpuArchitecture {
    X86_64,
    Aarch64,
    Unknown,
}

impl Default for CpuArchitecture {
    fn default() -> (r: Self)
        ensures
            r == CpuArchitecture::Unknown,
    {
        CpuArchitecture::Unknown
    }
}

/// CPU capability information.
#[derive(Debug, Clone)]
pub struct CpuCapability {
    pub architecture: CpuArchitecture,
    /// CPU model name.
    pub model: String,
    pub physical_cores: u32,
    /// Logical cores including SMT threads.
    pub logical_cores: u32,
    pub base_frequency_mhz: u32,
    /// Turbo/boost frequency.
    pub max_frequency_mhz: u32,
    /// ISA features ("avx512f", "sve", ...).
    pub features: Vec<String>,
    /// Number of NUMA nodes.
    pub numa_nodes: u32,
    /// Total L3 cache across all sockets.
    pub cache_l3_bytes: u64,
}

impl Default for CpuCapability {
    fn default() -> (r: Self)
        ensures
            r.architecture == CpuArchitecture::Unknown,
            r.model@ == Seq::<char>::empty(),
            r.physical_cores == 0,
            r.logical_cores == 0,
            r.base_frequency_mhz == 0,
            r.max_frequency_mhz == 0,
            r.features@.len() == 0,
            r.numa_nodes == 1,
            r.cache_l3_bytes == 0,
    {
        CpuCapability {
            architecture: CpuArchitecture::Unknown,
            model: String::new(),
            physical_cores: 0,
            logical_cores: 0,
            base_frequency_mhz: 0,
            max_frequency_mhz: 0,
            features: Vec::new(),
            numa_nodes: 1,
            cache_l3_bytes: 0,
        }
    }
}

/// Memory type classification.
#[derive(Debug, Clone, Copy, PartialEq, Eq, Structural)]
pub enum MemoryType {
    Ddr4,
    Ddr5,
    Hbm2e,
    Hbm3,
    Hbm3e,
    Unknown,
}

impl Default for MemoryType {
    fn default() -> (r: Self)
        ensures
            r == MemoryType::Unknown,
    {
        MemoryType::Unknown
    }
}

/// A NUMA node with per-node memory and CPU affinity.
#[derive(Debug, Clone)]
pub struct NumaNode {
    pub id: u32,
    pub total_bytes: u64,
    /// Logical CPU IDs in this NUMA node.
    pub cpus: Vec<u32>,
}

/// Huge page allocation information.
#[derive(Debug, Clone, Copy, PartialEq, Eq, Structural)]
pub struct HugePageInfo {
    pub size_2mb_total: u64,
    pub size_2mb_free: u64,
    pub size_1gb_total: u64,
    pub size_1gb_free: u64,
}

impl Default for HugePageInfo {
    fn default() -> (r: Self)
        ensures
            r.size_2mb_total == 0 && r.size_2mb_free == 0,
            r.size_1gb_total == 0 && r.size_1gb_free == 0,
    {
        HugePageInfo { size_2mb_total: 0, size_2mb_free: 0, size_1gb_total: 0, size_1gb_free: 0 }
    }
}

/// Memory capability information.
#[derive(Debug, Clone)]
pub struct MemoryCapability {
    pub total_bytes: u64,
    pub available_bytes: u64,
    pub memory_type: MemoryType,
    pub numa_nodes: u32,
    /// Per-node memory and CPU affinity.
    pub numa_topology: Vec<NumaNode>,
    pub hugepages: HugePageInfo,
}

impl Default for MemoryCapability {
    fn default() -> (r: Self)
        ensures
            r.total_bytes == 0,
            r.available_bytes == 0,
            r.memory_type == MemoryType::Unknown,
            r.numa_nodes == 1,
            r.numa_topology@.len() == 0,
            r.hugepages.size_2mb_total == 0 && r.hugepages.size_2mb_free == 0,
            r.hugepages.size_1gb_total == 0 && r.hugepages.size_1gb_free == 0,
    {
        MemoryCapability {
            total_bytes: 0,
            available_bytes: 0,
            memory_type: MemoryType::Unknown,
            numa_nodes: 1,
            numa_topology: Vec::new(),
            hugepages: HugePageInfo::default(),
        }
    }
}

/// Network fabric type detected from driver.
#[derive(Debug, Clone, Copy, PartialEq, Eq, Structural)]
pub enum NetworkFabric {
    Slingshot,
    Ethernet,
    Unknown,
}

/// Operational state of a network interface.
#[derive(Debug, Clone, Copy, PartialEq, Eq, Structural)]
pub enum InterfaceOperState {
    Up,
    Down,
}

/// A detected network interface on the node.
#[derive(Debug, Clone)]
pub struct NetworkInterface {
    pub name: String,
    pub fabric: NetworkFabric,
    pub speed_mbps: u64,
    pub state: InterfaceOperState,
    pub mac: String,
    pub ipv4: Option<String>,
}

/// Whether this node has local storage or is diskless.
#[derive(Debug, Clone, Copy, PartialEq, Eq, Structural)]
pub enum StorageNodeType {
    Diskless,
    LocalStorage,
}

/// Type of local disk.
#[derive(Debug, Clone, Copy, PartialEq, Eq, Structural)]
pub enum DiskType {
    Nvme,
    Ssd,
    Hdd,
    Unknown,
}

/// Filesystem type for a mount point.
#[derive(Debug, Clone, PartialEq, Eq)]
pub enum FsType {
    Nfs,
    Lustre,
    Ext4,
    Xfs,
    Tmpfs,
    Other(String),
}

/// A local disk detected on the node.
#[derive(Debug, Clone)]
pub struct LocalDisk {
    pub device: String,
    pub model: String,
    pub capacity_bytes: u64,
    pub disk_type: DiskType,
}

/// A mount point with filesystem and capacity information.
#[derive(Debug, Clone)]
pub struct MountInfo {
    pub path: String,
    pub fs_type: FsType,
    pub source: String,
    pub total_bytes: u64,
    pub available_bytes: u64,
}

/// Storage capability information.
#[derive(Debug, Clone)]
pub struct StorageCapability {
    pub node_type: StorageNodeType,
    pub local_disks: Vec<LocalDisk>,
    pub mounts: Vec<MountInfo>,
}

/// Status information for a running service.
#[derive(Debug, Clone)]
pub struct ServiceStatusInfo {
    pub name: String,
    pub state: ServiceState,
    pub pid: u32,
    pub uptime_seconds: u64,
    pub restart_count: u32,
}

/// Software capability information.
#[derive(Debug, Clone)]
pub struct SoftwareCapability {
    pub loaded_modules: Vec<String>,
    pub uenv_image: Option<String>,
    pub services: Vec<ServiceStatusInfo>,
}

/// GPU vendor.
#[derive(Debug, Clone, Copy, PartialEq, Eq, Structural)]
pub enum GpuVendor {
    Nvidia,
    Amd,
}

/// GPU health status.
#[derive(Debug, Clone, Copy, PartialEq, Eq, Structural)]
pub enum GpuHealth {
    Healthy,
    Degraded,
    Failed,
}

/// GPU capability information.
#[derive(Debug, Clone)]
pub struct GpuCapability {
    pub index: u32,
    pub vendor: GpuVendor,
    pub model: String,
    pub memory_bytes: u64,
    pub health: GpuHealth,
    pub pci_bus_id: String,
}

/// Status of the process supervisor.
#[derive(Debug, Clone, Copy, PartialEq, Eq, Structural)]
pub struct SupervisorStatus {
    pub backend: SupervisorBackend,
    pub services_declared: u32,
    pub services_running: u32,
    pub services_failed: u32,
}

/// Role binding: maps a role to principals and allowed actions.
#[derive(Debug, Clone)]
pub struct RoleBinding {
    pub role: String,
    pub principals: Vec<String>,
    pub allowed_actions: Vec<String>,
}

/// Type of admin operation.
#[derive(Debug, Clone, Copy, PartialEq, Eq, Structural)]
pub enum AdminOperationType {
    Exec,
    ShellSessionStart,
    ShellSessionEnd,
    ServiceStart,
    ServiceStop,
    ServiceRestart,
    EmergencyStart,
    EmergencyEnd,
    ApprovalDecision,
    NodeEnroll,
    NodeDecommission,
    NodeAssign,
    NodeUnassign,
    NodeMove,
    CertRenew,
    CertRevoke,
}

/// Status of a pending approval request.
#[derive(Debug, Clone, Copy, PartialEq, Eq, Structural)]
pub enum ApprovalStatus {
    Pending,
    Approved,
    Rejected,
    Expired,
}

/// A pending two-person approval request.  Times are seconds since the
/// Unix epoch.
#[derive(Debug, Clone)]
pub struct PendingApproval {
    pub approval_id: String,
    pub original_request: String,
    pub action: String,
    pub scope: Scope,
    pub requester: Identity,
    pub approver: Option<Identity>,
    pub status: ApprovalStatus,
    pub created_at: i64,
    pub expires_at: i64,
}

/// Enrollment state of a node in the pact domain.
#[derive(Debug, Clone, Copy, PartialEq, Eq, Structural)]
pub enum EnrollmentState {
    /// Admin has registered the node but agent has not yet connected.
    Registered,
    /// Agent has connected, CSR signed, mTLS established.
    Active,
    /// Heartbeat timeout.
    Inactive,
    /// Administratively decommissioned; certificate revoked.
    Revoked,
}

/// Hardware identity presented by a node during enrollment.  The extra
/// identifiers are held as (name, value) pairs.
#[derive(Debug, Clone, PartialEq, Eq)]
pub struct HardwareIdentity {
    /// Primary MAC address.
    pub mac_address: String,
    /// BMC/IPMI serial number (not all hardware exposes this).
    pub bmc_serial: Option<String>,
    /// Additional hardware identifiers (SMBIOS UUID, ...).
    pub extra: Vec<(String, String)>,
}

/// Identity assignment mode per vCluster.
#[derive(Debug, Clone, Copy, PartialEq, Eq, Structural)]
pub enum IdentityMode {
    /// On-demand: unknown subjects get UIDs assigned automatically.
    OnDemand,
    /// Pre-provisioned: unknown subjects are rejected.
    PreProvisioned,
}

impl Default for IdentityMode {
    fn default() -> (r: Self)
        ensures
            r == IdentityMode::OnDemand,
    {
        IdentityMode::OnDemand
    }
}

/// A copy of a list of strings with the same contents.
pub fn clone_strings(v: &Vec<String>) -> (r: Vec<String>)
    ensures
        r@ == v@,
{
    let mut r: Vec<String> = Vec::new();
    let mut i: usize = 0;
    while i < v.len()
        invariant
            i <= v.len(),
            r@ == v@.take(i as int),
        decreases v.len() - i,
    {
        r.push(v[i].clone());
        assert(v@.take(i + 1) == v@.take(i as int).push(v@[i as int]));
        i = i + 1;
    }
    assert(v@.take(v.len() as int) == v@);
    r
}

/// A copy of an optional string with the same contents.
pub fn clone_opt_string(o: &Option<String>) -> (r: Option<String>)
    ensures
        r == *o,
{
    match o {
        Some(s) => Some(s.clone()),
        None => None,
    }
}

} // verus!
