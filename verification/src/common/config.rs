//! Configuration structures for pact components, with their defaults.
//!
//! The configuration is read from TOML; optional sections are `Option`s and
//! omitted fields take the defaults given here.  Paths are kept as strings.

use vstd::prelude::*;

use crate::common::node_mgmt::NodeMgmtBackendType;
use crate::common::types::SupervisorBackend;
use crate::text::{string_from, views};

verus! {

broadcast use vstd::string::group_string_axioms;

/// Agent enrollment: journal endpoints and certificate handling.
#[derive(Debug, Clone)]
pub struct EnrollmentConfig {
    pub journal_endpoints: Vec<String>,
    pub ca_cert: String,
    pub cert_dir: String,
    pub renewal_before_expiry_seconds: u32,
}

/// Default directory for agent certificates.
pub fn default_cert_dir() -> (r: String)
    ensures
        r@ == "/var/lib/pact/certs"@,
{
    string_from("/var/lib/pact/certs")
}

/// Default renewal lead time: 12 hours before expiry.
pub fn default_renewal_before_expiry() -> (r: u32)
    ensures
        r == 43200,
{
    43200
}

/// Default enforcement mode of an agent.
pub fn default_enforcement_mode() -> (r: String)
    ensures
        r@ == "observe"@,
{
    string_from("observe")
}

/// Process supervisor selection.
#[derive(Debug, Clone, Copy)]
pub struct SupervisorConfig {
    pub backend: SupervisorBackend,
}

/// Default supervisor backend: pact's own.
pub fn default_supervisor_backend() -> (r: SupervisorBackend)
    ensures
        r == SupervisorBackend::Pact,
{
    SupervisorBackend::Pact
}

impl Default for SupervisorConfig {
    fn default() -> (r: Self)
        ensures
            r.backend == SupervisorBackend::Pact,
    {
        SupervisorConfig { backend: default_supervisor_backend() }
    }
}

/// Connection of an agent to the journal.
#[derive(Debug, Clone)]
pub struct JournalConnectionConfig {
    pub endpoints: Vec<String>,
    pub tls_enabled: bool,
    pub tls_cert: Option<String>,
    pub tls_key: Option<String>,
    pub tls_ca: Option<String>,
}

/// State observers of the agent.
#[derive(Debug, Clone, Copy)]
pub struct ObserverConfig {
    pub ebpf_enabled: bool,
    pub inotify_enabled: bool,
    pub netlink_enabled: bool,
}

/// Default for flags that are on unless configured off.
pub fn default_true() -> (r: bool)
    ensures
        r,
{
    true
}

impl Default for ObserverConfig {
    /// eBPF off; inotify and netlink on.
    fn default() -> (r: Self)
        ensures
            !r.ebpf_enabled,
            r.inotify_enabled,
            r.netlink_enabled,
    {
        ObserverConfig { ebpf_enabled: false, inotify_enabled: default_true(), netlink_enabled: default_true() }
    }
}

/// Shell server of the agent.
#[derive(Debug, Clone)]
pub struct ShellConfig {
    pub enabled: bool,
    pub listen: String,
    pub whitelist_mode: String,
    pub auth: Option<AuthAgentConfig>,
}

/// Token validation settings of the agent's shell server.
#[derive(Debug, Clone)]
pub struct AuthAgentConfig {
    pub issuer: String,
    pub audience: String,
    pub hmac_secret: Option<String>,
    pub jwks_url: Option<String>,
}

/// Default listen address of the shell server.
pub fn default_shell_listen() -> (r: String)
    ensures
        r@ == "0.0.0.0:9445"@,
{
    string_from("0.0.0.0:9445")
}

/// Default whitelist mode: learning.
pub fn default_whitelist_mode() -> (r: String)
    ensures
        r@ == "learning"@,
{
    string_from("learning")
}

impl Default for ShellConfig {
    /// Enabled, on port 9445, learning mode, no token settings.
    fn default() -> (r: Self)
        ensures
            r.enabled,
            r.listen@ == "0.0.0.0:9445"@,
            r.whitelist_mode@ == "learning"@,
            r.auth is None,
    {
        ShellConfig {
            enabled: default_true(),
            listen: default_shell_listen(),
            whitelist_mode: default_whitelist_mode(),
            auth: None,
        }
    }
}

/// Default base commit window: 15 minutes.
pub fn default_base_window() -> (r: u32)
    ensures
        r == 900,
{
    900
}

/// Default emergency commit window: 4 hours.
pub fn default_emergency_window() -> (r: u32)
    ensures
        r == 14400,
{
    14400
}

/// Paths excluded from drift detection.
#[derive(Debug, Clone)]
pub struct BlacklistConfig {
    pub patterns: Vec<String>,
}

/// The default drift-detection exclusions.
pub open spec fn default_patterns() -> Seq<Seq<char>> {
    seq!["/tmp/**"@, "/var/log/**"@, "/proc/**"@, "/sys/**"@, "/dev/**"@, "/run/user/**"@]
}

/// Default drift-detection exclusions: temporary files, logs and the
/// virtual file systems.
pub fn default_blacklist_patterns() -> (r: Vec<String>)
    ensures
        views(r@) == default_patterns(),
{
    let mut r: Vec<String> = Vec::new();
    r.push(string_from("/tmp/**"));
    r.push(string_from("/var/log/**"));
    r.push(string_from("/proc/**"));
    r.push(string_from("/sys/**"));
    r.push(string_from("/dev/**"));
    r.push(string_from("/run/user/**"));
    proof {
        assert(views(r@) =~= default_patterns());
    }
    r
}

impl Default for BlacklistConfig {
    fn default() -> (r: Self)
        ensures
            views(r.patterns@) == default_patterns(),
    {
        BlacklistConfig { patterns: default_blacklist_patterns() }
    }
}

/// Capability reporting of the agent.
#[derive(Debug, Clone)]
pub struct CapabilityConfig {
    pub manifest_path: String,
    pub socket_path: String,
    pub gpu_poll_interval_seconds: u32,
}

/// Default GPU poll interval: 30 seconds.
pub fn default_gpu_poll_interval() -> (r: u32)
    ensures
        r == 30,
{
    30
}

/// Journal server settings.
#[derive(Debug, Clone)]
pub struct JournalConfig {
    pub listen_addr: String,
    pub data_dir: String,
    pub raft: Option<RaftConfig>,
    pub streaming: Option<StreamingConfig>,
    pub enrollment: Option<EnrollmentJournalConfig>,
}

/// Enrollment handling of the journal.
#[derive(Debug, Clone)]
pub struct EnrollmentJournalConfig {
    pub ca_cert: String,
    pub ca_key: String,
    pub cert_lifetime_seconds: u32,
    pub rate_limit_per_minute: u32,
    pub heartbeat_timeout_seconds: u32,
}

/// Default certificate lifetime: 3 days.
pub fn default_cert_lifetime() -> (r: u32)
    ensures
        r == 259_200,
{
    259_200
}

/// Default enrollment rate limit per minute.
pub fn default_enrollment_rate_limit() -> (r: u32)
    ensures
        r == 100,
{
    100
}

/// Default heartbeat timeout: 5 minutes.
pub fn default_heartbeat_timeout() -> (r: u32)
    ensures
        r == 300,
{
    300
}

/// Default listen address of the journal.
pub fn default_journal_listen() -> (r: String)
    ensures
        r@ == "0.0.0.0:9443"@,
{
    string_from("0.0.0.0:9443")
}

/// Raft membership of the journal.
#[derive(Debug, Clone)]
pub struct RaftConfig {
    pub members: Vec<String>,
    pub snapshot_interval: u64,
}

/// Default Raft snapshot interval, in entries.
pub fn default_snapshot_interval() -> (r: u64)
    ensures
        r == 10000,
{
    10000
}

/// Boot streaming limits of the journal.
#[derive(Debug, Clone, Copy)]
pub struct StreamingConfig {
    pub max_concurrent_boot_streams: u32,
}

/// Default limit of concurrent boot streams.
pub fn default_max_concurrent() -> (r: u32)
    ensures
        r == 15000,
{
    15000
}

/// Policy service settings.
#[derive(Debug, Clone)]
pub struct PolicyConfig {
    pub enabled: bool,
    pub iam: Option<IamConfig>,
    pub engine: Option<PolicyEngineConfig>,
    pub federation: Option<FederationConfig>,
}

/// Identity provider of the policy service.
#[derive(Debug, Clone)]
pub struct IamConfig {
    pub oidc_issuer: String,
    pub oidc_audience: String,
}

/// Policy engine selection.
#[derive(Debug, Clone)]
pub struct PolicyEngineConfig {
    pub engine_type: String,
    pub opa_endpoint: Option<String>,
}

/// Federation with a policy source.
#[derive(Debug, Clone)]
pub struct FederationConfig {
    pub sovra_endpoint: String,
    pub sync_interval_seconds: u32,
}

/// Default federation sync interval: 5 minutes.
pub fn default_sync_interval() -> (r: u32)
    ensures
        r == 300,
{
    300
}

/// Delegation to external systems (scheduler, node management).
#[derive(Debug, Clone)]
pub struct DelegationConfig {
    pub lattice_endpoint: Option<String>,
    pub lattice_token: Option<String>,
    pub openchami_smd_url: Option<String>,
    pub openchami_token: Option<String>,
    /// Node management backend; when absent, a configured SMD URL selects
    /// OpenCHAMI.
    pub node_mgmt_backend: Option<NodeMgmtBackendType>,
    /// Base URL of the node management backend.
    pub node_mgmt_base_url: Option<String>,
    /// Token for the node management backend.
    pub node_mgmt_token: Option<String>,
    pub timeout_secs: u64,
}

impl Default for DelegationConfig {
    /// Nothing configured; a 30 second timeout.
    fn default() -> (r: Self)
        ensures
            r.lattice_endpoint is None,
            r.lattice_token is None,
            r.openchami_smd_url is None,
            r.openchami_token is None,
            r.node_mgmt_backend is None,
            r.node_mgmt_base_url is None,
            r.node_mgmt_token is None,
            r.timeout_secs == 30,
    {
        DelegationConfig {
            lattice_endpoint: None,
            lattice_token: None,
            openchami_smd_url: None,
            openchami_token: None,
            node_mgmt_backend: None,
            node_mgmt_base_url: None,
            node_mgmt_token: None,
            timeout_secs: 30,
        }
    }
}

/// Logging and metrics.
#[derive(Debug, Clone)]
pub struct TelemetryConfig {
    pub log_level: String,
    pub log_format: String,
    pub prometheus_enabled: bool,
    pub prometheus_listen: Option<String>,
    pub loki_enabled: bool,
    pub loki_endpoint: Option<String>,
}

/// Default log level.
pub fn default_log_level() -> (r: String)
    ensures
        r@ == "info"@,
{
    string_from("info")
}

/// Default log format.
pub fn default_log_format() -> (r: String)
    ensures
        r@ == "text"@,
{
    string_from("text")
}

impl Default for TelemetryConfig {
    /// `info` level, text format, no exporters.
    fn default() -> (r: Self)
        ensures
            r.log_level@ == "info"@,
            r.log_format@ == "text"@,
            !r.prometheus_enabled,
            r.prometheus_listen is None,
            !r.loki_enabled,
            r.loki_endpoint is None,
    {
        TelemetryConfig {
            log_level: default_log_level(),
            log_format: default_log_format(),
            prometheus_enabled: false,
            prometheus_listen: None,
            loki_enabled: false,
            loki_endpoint: None,
        }
    }
}

} // verus!
