//! The settings of a sandbox and of the providers behind it.

use crate::auth::explain_u64;
use crate::auth::u64_parse_error;
use crate::error::ErrorView;
use crate::error::Result;
use crate::error::SandboxError;
use crate::numeral::parse_u64;
use crate::numeral::u64_numeral;
use crate::table::looked_up;
use crate::table::StringMap;
use crate::text::same;
use crate::text::trim;
use crate::text::trimmed;
use crate::text::views;
use crate::textmap::TextMap;
use crate::vm::opt_view;
use vstd::prelude::*;

verus! {

// ---------------------------------------------------------------------------
// Cluster and TLS
// ---------------------------------------------------------------------------
/// How the control plane of a cluster is reached and used.
#[derive(Debug)]
pub struct DistributedControlConfig {
    pub etcd_endpoints: Vec<String>,
    pub etcd_prefix: String,
    pub cluster_id: String,
    pub nats_url: String,
    pub nats_auth_token: Option<String>,
    pub nats_subject_prefix: String,
    pub nats_stream_name: String,
    pub nats_stream_max_age_secs: u64,
    pub nats_stream_replicas: usize,
    pub nats_dead_letter_subject: String,
    pub required_storage_profile: Option<String>,
    pub required_continuity_tier: Option<String>,
    pub allow_tier_a_degraded: bool,
    pub allow_cross_node_recovery: bool,
    pub tenant_session_quota: Option<usize>,
    pub workspace_session_quota: Option<usize>,
    pub admission_retry_after_ms: u64,
}

impl Default for DistributedControlConfig {
    fn default() -> (c: Self)
        ensures
            views(c.etcd_endpoints@) == seq!["http://127.0.0.1:2379"@],
            c.etcd_prefix@ == "/chevalier-sandbox"@,
            c.cluster_id@ == "chevalier-sandbox-cluster"@,
            c.nats_url@ == "nats://127.0.0.1:4222"@,
            c.nats_auth_token is None,
            c.nats_subject_prefix@ == "chevalier.sandbox.control"@,
            c.nats_stream_name@ == "CHEVALIER_SANDBOX_CONTROL"@,
            c.nats_stream_max_age_secs == 604_800,
            c.nats_stream_replicas == 1,
            c.nats_dead_letter_subject@ == "chevalier.sandbox.control"@ + ".dlq.commands"@,
            c.required_storage_profile is None,
            opt_view(c.required_continuity_tier) == Some("tier-b"@),
            !c.allow_tier_a_degraded,
            c.allow_cross_node_recovery,
            c.tenant_session_quota == Some(256usize),
            c.workspace_session_quota == Some(64usize),
            c.admission_retry_after_ms == 2_000,
    {
        let mut etcd_endpoints: Vec<String> = Vec::new();
        etcd_endpoints.push("http://127.0.0.1:2379".to_owned());
        assert(views(etcd_endpoints@) =~= seq!["http://127.0.0.1:2379"@]);
        DistributedControlConfig {
            etcd_endpoints,
            etcd_prefix: "/chevalier-sandbox".to_owned(),
            cluster_id: "chevalier-sandbox-cluster".to_owned(),
            nats_url: "nats://127.0.0.1:4222".to_owned(),
            nats_auth_token: None,
            nats_subject_prefix: "chevalier.sandbox.control".to_owned(),
            nats_stream_name: "CHEVALIER_SANDBOX_CONTROL".to_owned(),
            nats_stream_max_age_secs: 604_800,
            nats_stream_replicas: 1,
            nats_dead_letter_subject: "chevalier.sandbox.control".to_owned().concat(
                ".dlq.commands",
            ),
            required_storage_profile: None,
            required_continuity_tier: Some("tier-b".to_owned()),
            allow_tier_a_degraded: false,
            allow_cross_node_recovery: true,
            tenant_session_quota: Some(256),
            workspace_session_quota: Some(64),
            admission_retry_after_ms: 2_000,
        }
    }
}

/// The certificates of a client. Paths are text.
#[derive(Debug)]
pub struct TlsClientConfig {
    pub ca_cert_path: Option<String>,
    pub client_cert_path: Option<String>,
    pub client_key_path: Option<String>,
    pub domain_name: Option<String>,
}

impl Default for TlsClientConfig {
    fn default() -> (c: Self)
        ensures
            c.ca_cert_path is None,
            c.client_cert_path is None,
            c.client_key_path is None,
            c.domain_name is None,
    {
        TlsClientConfig {
            ca_cert_path: None,
            client_cert_path: None,
            client_key_path: None,
            domain_name: None,
        }
    }
}

impl TlsClientConfig {
    /// The paths of the client's certificate and key: both or neither.
    pub fn identity(&self) -> (r: Result<Option<(String, String)>>)
        ensures
            match (self.client_cert_path, self.client_key_path) {
                (Some(cert), Some(key)) => r matches Ok(Some(pair)) && pair.0@ == cert@ && pair.1@
                    == key@,
                (None, None) => r matches Ok(None),
                _ => r matches Err(e) && e@ == ErrorView::InvalidConfig(
                    "both tls client cert and key must be configured together"@,
                ),
            },
    {
        match (&self.client_cert_path, &self.client_key_path) {
            (Some(cert), Some(key)) => Ok(Some((cert.clone(), key.clone()))),
            (None, None) => Ok(None),
            _ => Err(
                SandboxError::InvalidConfig(
                    "both tls client cert and key must be configured together".to_owned(),
                ),
            ),
        }
    }
}

/// The name that a server's certificate must carry: the configured one where it is not blank,
/// else the host of the endpoint where that is not blank.
pub open spec fn tls_domain_of(
    configured: Option<Seq<char>>,
    endpoint: Seq<char>,
) -> std::result::Result<Option<Seq<char>>, ErrorView> {
    if configured is Some && trimmed(configured->Some_0).len() > 0 {
        Ok(Some(trimmed(configured->Some_0)))
    } else {
        match crate::endpoint::host_of_endpoint(endpoint) {
            Err(e) => Err(e),
            Ok(host) => if trimmed(host).len() > 0 {
                Ok(Some(host))
            } else {
                Ok(None)
            },
        }
    }
}

/// The name that a server's certificate must carry.
pub fn tls_domain(configured: Option<&str>, endpoint: &str) -> (r: Result<Option<String>>)
    ensures
        crate::auth::opt_outcome(r) == tls_domain_of(
            crate::exec::opt_str_view(configured),
            endpoint@,
        ),
{
    match configured {
        Some(name) => {
            let name = trim(name);
            if !name.as_str().is_empty() {
                return Ok(Some(name));
            }
        },
        None => {},
    }
    match crate::endpoint::endpoint_host(endpoint) {
        Err(e) => Err(e),
        Ok(host) => if trim(&host).as_str().is_empty() {
            Ok(None)
        } else {
            Ok(Some(host))
        },
    }
}

// ---------------------------------------------------------------------------
// Resources and images
// ---------------------------------------------------------------------------
/// What a VM may use.
#[derive(Clone, Copy, Debug, PartialEq, Eq, Structural)]
pub struct ResourceLimits {
    pub vcpu: i32,
    pub memory_mb: i32,
    pub disk_gb: i32,
}

impl Default for ResourceLimits {
    fn default() -> (r: Self)
        ensures
            r == (ResourceLimits { vcpu: 2, memory_mb: 2048, disk_gb: 10 }),
    {
        ResourceLimits { vcpu: 2, memory_mb: 2048, disk_gb: 10 }
    }
}

/// The resources of a VM after a change of some of them; the disk stays.
pub fn changed_resources(current: ResourceLimits, vcpu: Option<i32>, memory_mb: Option<i32>) -> (r:
    ResourceLimits)
    ensures
        r.vcpu == (match vcpu {
            Some(v) => v,
            None => current.vcpu,
        }),
        r.memory_mb == (match memory_mb {
            Some(v) => v,
            None => current.memory_mb,
        }),
        r.disk_gb == current.disk_gb,
{
    ResourceLimits {
        vcpu: match vcpu {
            Some(v) => v,
            None => current.vcpu,
        },
        memory_mb: match memory_mb {
            Some(v) => v,
            None => current.memory_mb,
        },
        disk_gb: current.disk_gb,
    }
}

/// The normal name of an architecture.
pub open spec fn architecture_label(raw: Seq<char>) -> Seq<char> {
    let v = crate::text::lowered(trimmed(raw));
    if v == "x86_64"@ || v == "amd64"@ {
        "amd64"@
    } else if v == "aarch64"@ || v == "arm64"@ {
        "arm64"@
    } else {
        v
    }
}

/// The normal name of an architecture.
pub fn normalize_architecture_label(raw: &str) -> (r: String)
    ensures
        r@ == architecture_label(raw@),
{
    let v = crate::text::to_lower(&trim(raw));
    if same(&v, "x86_64") || same(&v, "amd64") {
        "amd64".to_owned()
    } else if same(&v, "aarch64") || same(&v, "arm64") {
        "arm64".to_owned()
    } else {
        v
    }
}

/// The normal name of the architecture that the host reports, where it reports one.
pub fn detect_host_architecture_label(reported: &str) -> (r: Option<String>)
    ensures
        opt_view(r) == nonblank_label(Some(reported@)),
{
    let detected = normalize_architecture_label(reported);
    if detected.as_str().is_empty() {
        None
    } else {
        Some(detected)
    }
}

/// The normal name of an architecture, where one is given and not blank.
pub open spec fn nonblank_label(raw: Option<Seq<char>>) -> Option<Seq<char>> {
    match raw {
        Some(text) => if architecture_label(text).len() > 0 {
            Some(architecture_label(text))
        } else {
            None
        },
        None => None,
    }
}

/// An image that is kept warm.
#[derive(Debug)]
pub struct WarmPoolProfile {
    pub image: String,
    pub architecture: Option<String>,
    pub min_inventory: usize,
}

impl WarmPoolProfile {
    /// The normal name of the profile's architecture, where it names one.
    pub fn normalized_architecture(&self) -> (r: Option<String>)
        ensures
            opt_view(r) == nonblank_label(opt_view(self.architecture)),
    {
        match &self.architecture {
            Some(raw) => {
                let label = normalize_architecture_label(raw);
                if label.as_str().is_empty() {
                    None
                } else {
                    Some(label)
                }
            },
            None => None,
        }
    }

    /// A copy.
    pub fn copy(&self) -> (p: WarmPoolProfile)
        ensures
            p.image@ == self.image@,
            opt_view(p.architecture) == opt_view(self.architecture),
            p.min_inventory == self.min_inventory,
    {
        WarmPoolProfile {
            image: self.image.clone(),
            architecture: self.architecture.clone(),
            min_inventory: self.min_inventory,
        }
    }
}

/// The key under which an image is noted as warm on an endpoint.
pub fn warm_pool_key(endpoint: &str, image: &str, architecture: &str) -> (key: String)
    ensures
        key@ == endpoint@ + "::"@ + image@ + "::"@ + architecture_label(architecture@),
{
    let label = normalize_architecture_label(architecture);
    endpoint.to_owned().concat("::").concat(image).concat("::").concat(&label)
}

// ---------------------------------------------------------------------------
// Managed mounts
// ---------------------------------------------------------------------------
/// A mount inside a provider-managed sandbox. OpenComputer takes every field; Freestyle takes
/// `path`, `command`, `env`, `secrets` and `read_only`.
#[derive(Debug)]
pub struct ManagedMountConfig {
    pub path: String,
    pub driver: Option<String>,
    pub remote: String,
    pub backend: Option<String>,
    pub command: Vec<String>,
    pub env: StringMap,
    pub secrets: StringMap,
    pub creds: StringMap,
    pub rclone_config: Option<String>,
    pub read_only: Option<bool>,
    pub mount_options: Vec<String>,
}

pub type OpenComputerMountConfig = ManagedMountConfig;

pub type FreestyleMountConfig = ManagedMountConfig;

impl ManagedMountConfig {
    /// A mount of an rclone remote, with its backend and credentials.
    pub fn rclone(path: String, remote: String, backend: String, creds: StringMap) -> (m: Self)
        ensures
            m.path == path,
            m.driver is None,
            m.remote == remote,
            m.backend == Some(backend),
            m.command@ == Seq::<String>::empty(),
            m.env@ == Map::<Seq<char>, Seq<char>>::empty(),
            m.secrets@ == Map::<Seq<char>, Seq<char>>::empty(),
            m.creds == creds,
            m.rclone_config is None,
            m.read_only is None,
            m.mount_options@ == Seq::<String>::empty(),
    {
        ManagedMountConfig {
            path,
            driver: None,
            remote,
            backend: Some(backend),
            command: Vec::new(),
            env: StringMap::new(),
            secrets: StringMap::new(),
            creds,
            rclone_config: None,
            read_only: None,
            mount_options: Vec::new(),
        }
    }

    /// A mount of an rclone remote, with a whole configuration.
    pub fn with_rclone_config(path: String, remote: String, rclone_config: String) -> (m: Self)
        ensures
            m.path == path,
            m.driver is None,
            m.remote == remote,
            m.backend is None,
            m.command@ == Seq::<String>::empty(),
            m.env@ == Map::<Seq<char>, Seq<char>>::empty(),
            m.secrets@ == Map::<Seq<char>, Seq<char>>::empty(),
            m.creds@ == Map::<Seq<char>, Seq<char>>::empty(),
            m.rclone_config == Some(rclone_config),
            m.read_only is None,
            m.mount_options@ == Seq::<String>::empty(),
    {
        ManagedMountConfig {
            path,
            driver: None,
            remote,
            backend: None,
            command: Vec::new(),
            env: StringMap::new(),
            secrets: StringMap::new(),
            creds: StringMap::new(),
            rclone_config: Some(rclone_config),
            read_only: None,
            mount_options: Vec::new(),
        }
    }

    /// A mount that a command serves.
    pub fn command(path: String, command: Vec<String>) -> (m: Self)
        ensures
            m.path == path,
            opt_view(m.driver) == Some("command"@),
            m.remote@ == Seq::<char>::empty(),
            m.backend is None,
            m.command == command,
            m.env@ == Map::<Seq<char>, Seq<char>>::empty(),
            m.secrets@ == Map::<Seq<char>, Seq<char>>::empty(),
            m.creds@ == Map::<Seq<char>, Seq<char>>::empty(),
            m.rclone_config is None,
            m.read_only is None,
            m.mount_options@ == Seq::<String>::empty(),
    {
        ManagedMountConfig {
            path,
            driver: Some("command".to_owned()),
            remote: String::new(),
            backend: None,
            command,
            env: StringMap::new(),
            secrets: StringMap::new(),
            creds: StringMap::new(),
            rclone_config: None,
            read_only: None,
            mount_options: Vec::new(),
        }
    }
}

// ---------------------------------------------------------------------------
// Providers
// ---------------------------------------------------------------------------
/// The settings of Freestyle. Its sessions are whole Linux VMs that boot from a snapshot.
#[derive(Debug)]
pub struct FreestyleBackendConfig {
    pub api_url: String,
    pub api_key: String,
    /// Empty for the default of the platform.
    pub snapshot_id: String,
    pub preview_domain_suffix: String,
    pub forward_auth_id: Option<String>,
    pub idle_timeout_secs: Option<u64>,
    pub auto_delete_secs: Option<u64>,
    pub snapshot_auto_delete_secs: Option<u64>,
    pub linux_user: Option<String>,
    pub egress_allowlist: Option<Vec<String>>,
    /// Launch templates by mount tag, guest path or backend profile.
    pub shared_mounts: TextMap<ManagedMountConfig>,
}

impl Default for FreestyleBackendConfig {
    fn default() -> (c: Self)
        ensures
            c.api_url@ == "https://api.freestyle.sh"@,
            c.api_key@ == Seq::<char>::empty(),
            c.snapshot_id@ == Seq::<char>::empty(),
            c.preview_domain_suffix@ == "style.dev"@,
            c.forward_auth_id is None,
            c.idle_timeout_secs is None,
            c.auto_delete_secs is None,
            c.snapshot_auto_delete_secs is None,
            c.linux_user is None,
            c.egress_allowlist is None,
            c.shared_mounts@ == Map::<Seq<char>, ManagedMountConfig>::empty(),
    {
        FreestyleBackendConfig {
            api_url: "https://api.freestyle.sh".to_owned(),
            api_key: String::new(),
            snapshot_id: String::new(),
            preview_domain_suffix: "style.dev".to_owned(),
            forward_auth_id: None,
            idle_timeout_secs: None,
            auto_delete_secs: None,
            snapshot_auto_delete_secs: None,
            linux_user: None,
            egress_allowlist: None,
            shared_mounts: TextMap::new(),
        }
    }
}

/// The settings of OpenComputer.
#[derive(Debug)]
pub struct OpenComputerBackendConfig {
    pub api_url: String,
    pub api_key: String,
    pub template_id: String,
    pub checkpoint_id: String,
    pub timeout_secs: u64,
    pub default_cpu_count: Option<u32>,
    pub default_memory_mb: Option<u32>,
    pub default_disk_mb: Option<u32>,
    pub burst: Option<bool>,
    pub secret_store: Option<String>,
    pub egress_allowlist: Option<Vec<String>>,
    pub mounts: Vec<ManagedMountConfig>,
    pub shared_mounts: TextMap<ManagedMountConfig>,
}

impl Default for OpenComputerBackendConfig {
    fn default() -> (c: Self)
        ensures
            c.api_url@ == "https://app.opencomputer.dev"@,
            c.api_key@ == Seq::<char>::empty(),
            c.template_id@ == "base"@,
            c.checkpoint_id@ == Seq::<char>::empty(),
            c.timeout_secs == 0,
            c.default_cpu_count is None,
            c.default_memory_mb is None,
            c.default_disk_mb is None,
            c.burst is None,
            c.secret_store is None,
            c.egress_allowlist is None,
            c.mounts@ == Seq::<ManagedMountConfig>::empty(),
            c.shared_mounts@ == Map::<Seq<char>, ManagedMountConfig>::empty(),
    {
        OpenComputerBackendConfig {
            api_url: "https://app.opencomputer.dev".to_owned(),
            api_key: String::new(),
            template_id: "base".to_owned(),
            checkpoint_id: String::new(),
            timeout_secs: 0,
            default_cpu_count: None,
            default_memory_mb: None,
            default_disk_mb: None,
            burst: None,
            secret_store: None,
            egress_allowlist: None,
            mounts: Vec::new(),
            shared_mounts: TextMap::new(),
        }
    }
}

/// Who provides the VMs.
#[derive(Debug)]
pub enum SandboxProviderConfig {
    Chevalier,
    OpenComputer(OpenComputerBackendConfig),
    Freestyle(FreestyleBackendConfig),
}

impl Default for SandboxProviderConfig {
    fn default() -> (c: Self)
        ensures
            c is Chevalier,
    {
        SandboxProviderConfig::Chevalier
    }
}

impl SandboxProviderConfig {
    /// The stable name of the provider, in small letters.
    pub fn provider_name(&self) -> (name: &'static str)
        ensures
            name@ == match self {
                SandboxProviderConfig::Chevalier => "chevalier"@,
                SandboxProviderConfig::OpenComputer(_) => "opencomputer"@,
                SandboxProviderConfig::Freestyle(_) => "freestyle"@,
            },
    {
        match self {
            SandboxProviderConfig::Chevalier => "chevalier",
            SandboxProviderConfig::OpenComputer(_) => "opencomputer",
            SandboxProviderConfig::Freestyle(_) => "freestyle",
        }
    }
}

// ---------------------------------------------------------------------------
// Settings from the environment
// ---------------------------------------------------------------------------
/// What `serde_json` reads from a text as a list of strings, or the text of its error.
pub uninterp spec fn json_string_list(text: Seq<char>) -> std::result::Result<
    Seq<Seq<char>>,
    Seq<char>,
>;

/// Calls `serde_json::from_str::<Vec<String>>`, whose result depends on the text alone.
#[verifier::external_body]
fn parse_string_list(text: &str) -> (r: std::result::Result<Vec<String>, String>)
    ensures
        match r {
            Ok(list) => json_string_list(text@) == std::result::Result::<
                Seq<Seq<char>>,
                Seq<char>,
            >::Ok(views(list@)),
            Err(message) => json_string_list(text@) == std::result::Result::<
                Seq<Seq<char>>,
                Seq<char>,
            >::Err(message@),
        },
{
    serde_json::from_str::<Vec<String>>(text).map_err(|error| error.to_string())
}

/// The models of an optional list of strings.
pub open spec fn opt_views(list: Option<Vec<String>>) -> Option<Seq<Seq<char>>> {
    match list {
        Some(l) => Some(views(l@)),
        None => None,
    }
}

/// A list of hosts as a setting names it; an error where the setting is no such list.
pub open spec fn allowlist_setting(
    env: Map<Seq<char>, Seq<char>>,
    name: Seq<char>,
) -> std::result::Result<Option<Seq<Seq<char>>>, ErrorView> {
    match looked_up(env, name) {
        None => Ok(None),
        Some(text) => allowlist_from(name, json_string_list(text)),
    }
}

/// The setting `name` whose text reads as `parsed`.
pub open spec fn allowlist_from(
    name: Seq<char>,
    parsed: std::result::Result<Seq<Seq<char>>, Seq<char>>,
) -> std::result::Result<Option<Seq<Seq<char>>>, ErrorView> {
    match parsed {
        Ok(list) => Ok(Some(list)),
        Err(message) => Err(ErrorView::InvalidConfig("invalid "@ + name + ": "@ + message)),
    }
}

/// The list of hosts that the setting `name` stands for, its text read as `parsed`.
pub fn allowlist_from_parsed(
    name: &str,
    parsed: std::result::Result<Vec<String>, String>,
) -> (r: Result<Option<Vec<String>>>)
    ensures
        match parsed {
            Ok(list) => r == Result::<Option<Vec<String>>>::Ok(Some(list)),
            Err(message) => r matches Err(e) && e@ == ErrorView::InvalidConfig(
                "invalid "@ + name@ + ": "@ + message@,
            ),
        },
{
    match parsed {
        Ok(list) => Ok(Some(list)),
        Err(message) => Err(
            SandboxError::InvalidConfig(
                "invalid ".to_owned().concat(name).concat(": ").concat(&message),
            ),
        ),
    }
}

fn read_allowlist(env: &StringMap, name: &str) -> (r: Result<Option<Vec<String>>>)
    ensures
        match r {
            Ok(list) => allowlist_setting(env@, name@) == std::result::Result::<
                Option<Seq<Seq<char>>>,
                ErrorView,
            >::Ok(opt_views(list)),
            Err(e) => allowlist_setting(env@, name@) == std::result::Result::<
                Option<Seq<Seq<char>>>,
                ErrorView,
            >::Err(e@),
        },
{
    match env.get(name) {
        None => Ok(None),
        Some(text) => allowlist_from_parsed(name, parse_string_list(text)),
    }
}

/// The value of a setting where it is set and not blank.
pub open spec fn nonblank_setting(env: Map<Seq<char>, Seq<char>>, name: Seq<char>) -> Option<
    Seq<char>,
> {
    match looked_up(env, name) {
        Some(v) => if trimmed(v).len() > 0 {
            Some(v)
        } else {
            None
        },
        None => None,
    }
}

fn read_nonblank(env: &StringMap, name: &str) -> (r: Option<String>)
    ensures
        opt_view(r) == nonblank_setting(env@, name@),
{
    match env.get(name) {
        Some(v) => if trim(v).as_str().is_empty() {
            None
        } else {
            Some(v.clone())
        },
        None => None,
    }
}

/// A setting that is a number of seconds; none where it is not set or blank.
pub open spec fn seconds_setting(
    env: Map<Seq<char>, Seq<char>>,
    name: Seq<char>,
) -> std::result::Result<Option<u64>, ErrorView> {
    match nonblank_setting(env, name) {
        None => Ok(None),
        Some(text) => match u64_numeral(trimmed(text)) {
            Some(n) => Ok(Some(n)),
            None => Err(
                ErrorView::InvalidConfig(
                    "invalid "@ + name + ": "@ + u64_parse_error(trimmed(text)),
                ),
            ),
        },
    }
}

fn read_seconds(env: &StringMap, name: &str) -> (r: Result<Option<u64>>)
    ensures
        match r {
            Ok(n) => seconds_setting(env@, name@) == std::result::Result::<
                Option<u64>,
                ErrorView,
            >::Ok(n),
            Err(e) => seconds_setting(env@, name@) == std::result::Result::<
                Option<u64>,
                ErrorView,
            >::Err(e@),
        },
{
    match read_nonblank(env, name) {
        None => Ok(None),
        Some(raw) => {
            let text = trim(&raw);
            match parse_u64(&text) {
                Some(n) => Ok(Some(n)),
                None => {
                    let reason = explain_u64(&text);
                    Err(
                        SandboxError::InvalidConfig(
                            "invalid ".to_owned().concat(name).concat(": ").concat(&reason),
                        ),
                    )
                },
            }
        },
    }
}

/// The text of a setting, or `default` where it is not set.
pub open spec fn setting_or(
    env: Map<Seq<char>, Seq<char>>,
    name: Seq<char>,
    default: Seq<char>,
) -> Seq<char> {
    match looked_up(env, name) {
        Some(v) => v,
        None => default,
    }
}

fn read_or(env: &StringMap, name: &str, default: &str) -> (r: String)
    ensures
        r@ == setting_or(env@, name@, default@),
{
    match env.get(name) {
        Some(v) => v.clone(),
        None => default.to_owned(),
    }
}

/// The mounts that a setting names, read from its text; the text of the error where it does not
/// read as mounts.
pub type ParsedMounts = std::result::Result<TextMap<ManagedMountConfig>, String>;

/// The first error among the settings of Freestyle.
pub open spec fn freestyle_env_error(
    env: Map<Seq<char>, Seq<char>>,
    mounts_error: Option<Seq<char>>,
) -> Option<ErrorView> {
    match seconds_setting(env, "FREESTYLE_IDLE_TIMEOUT_SECS"@) {
        Err(e) => Some(e),
        Ok(_) => match seconds_setting(env, "FREESTYLE_AUTO_DELETE_SECS"@) {
            Err(e) => Some(e),
            Ok(_) => match seconds_setting(env, "FREESTYLE_SNAPSHOT_AUTO_DELETE_SECS"@) {
                Err(e) => Some(e),
                Ok(_) => match mounts_error {
                    Some(message) => Some(
                        ErrorView::InvalidConfig(
                            "invalid FREESTYLE_SHARED_MOUNTS_JSON: "@ + message,
                        ),
                    ),
                    None => match allowlist_setting(env, "FREESTYLE_EGRESS_ALLOWLIST_JSON"@) {
                        Err(e) => Some(e),
                        Ok(_) => None,
                    },
                },
            },
        },
    }
}

/// The text of the error with which mounts were refused.
pub open spec fn mounts_error(parsed: Option<ParsedMounts>) -> Option<Seq<char>> {
    match parsed {
        Some(Err(message)) => Some(message@),
        _ => None,
    }
}

/// The settings that an environment gives Freestyle.
pub open spec fn freestyle_from(
    env: Map<Seq<char>, Seq<char>>,
    mounts: Option<ParsedMounts>,
    c: FreestyleBackendConfig,
) -> bool {
    &&& c.api_url@ == (match nonblank_setting(env, "FREESTYLE_API_URL"@) {
        Some(url) => url,
        None => "https://api.freestyle.sh"@,
    })
    &&& c.api_key@ == setting_or(env, "FREESTYLE_API_KEY"@, ""@)
    &&& c.snapshot_id@ == setting_or(env, "FREESTYLE_SNAPSHOT_ID"@, ""@)
    &&& c.preview_domain_suffix@ == (match nonblank_setting(
        env,
        "FREESTYLE_PREVIEW_DOMAIN_SUFFIX"@,
    ) {
        Some(suffix) => suffix,
        None => "style.dev"@,
    })
    &&& opt_view(c.forward_auth_id) == nonblank_setting(env, "FREESTYLE_FORWARD_AUTH_ID"@)
    &&& opt_view(c.linux_user) == nonblank_setting(env, "FREESTYLE_LINUX_USER"@)
    &&& seconds_setting(env, "FREESTYLE_IDLE_TIMEOUT_SECS"@) == std::result::Result::<
        Option<u64>,
        ErrorView,
    >::Ok(c.idle_timeout_secs)
    &&& seconds_setting(env, "FREESTYLE_AUTO_DELETE_SECS"@) == std::result::Result::<
        Option<u64>,
        ErrorView,
    >::Ok(c.auto_delete_secs)
    &&& seconds_setting(env, "FREESTYLE_SNAPSHOT_AUTO_DELETE_SECS"@) == std::result::Result::<
        Option<u64>,
        ErrorView,
    >::Ok(c.snapshot_auto_delete_secs)
    &&& match mounts {
        Some(Ok(table)) => c.shared_mounts == table,
        _ => c.shared_mounts@ == Map::<Seq<char>, ManagedMountConfig>::empty(),
    }
    &&& allowlist_setting(env, "FREESTYLE_EGRESS_ALLOWLIST_JSON"@) == std::result::Result::<
        Option<Seq<Seq<char>>>,
        ErrorView,
    >::Ok(opt_views(c.egress_allowlist))
}

impl FreestyleBackendConfig {
    /// The settings that an environment gives. `mounts` is what the text of
    /// `FREESTYLE_SHARED_MOUNTS_JSON` reads as, where it is set.
    pub fn from_env(env: &StringMap, mounts: Option<ParsedMounts>) -> (r: Result<Self>)
        ensures
            match r {
                Ok(c) => freestyle_env_error(env@, mounts_error(mounts)) is None && freestyle_from(
                    env@,
                    mounts,
                    c,
                ),
                Err(e) => freestyle_env_error(env@, mounts_error(mounts)) == Some(e@),
            },
    {
        let api_url = match read_nonblank(env, "FREESTYLE_API_URL") {
            Some(url) => url,
            None => "https://api.freestyle.sh".to_owned(),
        };
        let suffix = match read_nonblank(env, "FREESTYLE_PREVIEW_DOMAIN_SUFFIX") {
            Some(suffix) => suffix,
            None => "style.dev".to_owned(),
        };
        let idle_timeout_secs = match read_seconds(env, "FREESTYLE_IDLE_TIMEOUT_SECS") {
            Ok(n) => n,
            Err(e) => return Err(e),
        };
        let auto_delete_secs = match read_seconds(env, "FREESTYLE_AUTO_DELETE_SECS") {
            Ok(n) => n,
            Err(e) => return Err(e),
        };
        let snapshot_auto_delete_secs = match read_seconds(
            env,
            "FREESTYLE_SNAPSHOT_AUTO_DELETE_SECS",
        ) {
            Ok(n) => n,
            Err(e) => return Err(e),
        };
        let shared_mounts = match mounts {
            Some(Ok(table)) => table,
            Some(Err(message)) => {
                return Err(
                    SandboxError::InvalidConfig(
                        "invalid FREESTYLE_SHARED_MOUNTS_JSON: ".to_owned().concat(&message),
                    ),
                );
            },
            None => TextMap::new(),
        };
        let egress_allowlist = match read_allowlist(env, "FREESTYLE_EGRESS_ALLOWLIST_JSON") {
            Ok(list) => list,
            Err(e) => return Err(e),
        };
        Ok(
            FreestyleBackendConfig {
                api_url,
                api_key: read_or(env, "FREESTYLE_API_KEY", ""),
                snapshot_id: read_or(env, "FREESTYLE_SNAPSHOT_ID", ""),
                preview_domain_suffix: suffix,
                forward_auth_id: read_nonblank(env, "FREESTYLE_FORWARD_AUTH_ID"),
                idle_timeout_secs,
                auto_delete_secs,
                snapshot_auto_delete_secs,
                linux_user: read_nonblank(env, "FREESTYLE_LINUX_USER"),
                egress_allowlist,
                shared_mounts,
            },
        )
    }
}

/// A setting that is a number, with nothing around it; `default` where it is not set.
pub open spec fn number_setting(
    env: Map<Seq<char>, Seq<char>>,
    name: Seq<char>,
    default: u64,
) -> std::result::Result<u64, ErrorView> {
    match looked_up(env, name) {
        None => Ok(default),
        Some(text) => match u64_numeral(text) {
            Some(n) => Ok(n),
            None => Err(
                ErrorView::InvalidConfig("invalid "@ + name + ": "@ + u64_parse_error(text)),
            ),
        },
    }
}

fn read_number(env: &StringMap, name: &str, default: u64) -> (r: Result<u64>)
    ensures
        match r {
            Ok(n) => number_setting(env@, name@, default) == std::result::Result::<
                u64,
                ErrorView,
            >::Ok(n),
            Err(e) => number_setting(env@, name@, default) == std::result::Result::<
                u64,
                ErrorView,
            >::Err(e@),
        },
{
    match env.get(name) {
        None => Ok(default),
        Some(text) => match parse_u64(text) {
            Some(n) => Ok(n),
            None => {
                let reason = explain_u64(text);
                Err(
                    SandboxError::InvalidConfig(
                        "invalid ".to_owned().concat(name).concat(": ").concat(&reason),
                    ),
                )
            },
        },
    }
}

/// The mounts that a setting lists; the text of the error where it does not read as mounts.
pub type ParsedMountList = std::result::Result<Vec<ManagedMountConfig>, String>;

/// The text of the error with which a list of mounts was refused.
pub open spec fn mount_list_error(parsed: Option<ParsedMountList>) -> Option<Seq<char>> {
    match parsed {
        Some(Err(message)) => Some(message@),
        _ => None,
    }
}

/// The first error among the settings of OpenComputer.
pub open spec fn opencomputer_env_error(
    env: Map<Seq<char>, Seq<char>>,
    list_error: Option<Seq<char>>,
    mounts_error: Option<Seq<char>>,
) -> Option<ErrorView> {
    match number_setting(env, "OPENCOMPUTER_SANDBOX_TIMEOUT_SECS"@, 0) {
        Err(e) => Some(e),
        Ok(_) => match list_error {
            Some(message) => Some(
                ErrorView::InvalidConfig("invalid OPENCOMPUTER_MOUNTS_JSON: "@ + message),
            ),
            None => match mounts_error {
                Some(message) => Some(
                    ErrorView::InvalidConfig(
                        "invalid OPENCOMPUTER_SHARED_MOUNTS_JSON: "@ + message,
                    ),
                ),
                None => match allowlist_setting(env, "OPENCOMPUTER_EGRESS_ALLOWLIST_JSON"@) {
                    Err(e) => Some(e),
                    Ok(_) => None,
                },
            },
        },
    }
}

/// The settings that an environment gives OpenComputer; what it cannot set has its default.
pub open spec fn opencomputer_from(
    env: Map<Seq<char>, Seq<char>>,
    list: Option<ParsedMountList>,
    mounts: Option<ParsedMounts>,
    c: OpenComputerBackendConfig,
) -> bool {
    &&& c.api_url@ == setting_or(
        env,
        "OPENCOMPUTER_API_URL"@,
        "https://app.opencomputer.dev"@,
    )
    &&& c.api_key@ == setting_or(env, "OPENCOMPUTER_API_KEY"@, ""@)
    &&& c.template_id@ == setting_or(env, "OPENCOMPUTER_TEMPLATE_ID"@, "base"@)
    &&& c.checkpoint_id@ == setting_or(env, "OPENCOMPUTER_CHECKPOINT_ID"@, ""@)
    &&& number_setting(env, "OPENCOMPUTER_SANDBOX_TIMEOUT_SECS"@, 0) == std::result::Result::<
        u64,
        ErrorView,
    >::Ok(c.timeout_secs)
    &&& c.default_cpu_count is None
    &&& c.default_memory_mb is None
    &&& c.default_disk_mb is None
    &&& c.burst is None
    &&& c.secret_store is None
    &&& match list {
        Some(Ok(mounts)) => c.mounts == mounts,
        _ => c.mounts@ == Seq::<ManagedMountConfig>::empty(),
    }
    &&& match mounts {
        Some(Ok(table)) => c.shared_mounts == table,
        _ => c.shared_mounts@ == Map::<Seq<char>, ManagedMountConfig>::empty(),
    }
    &&& allowlist_setting(env, "OPENCOMPUTER_EGRESS_ALLOWLIST_JSON"@) == std::result::Result::<
        Option<Seq<Seq<char>>>,
        ErrorView,
    >::Ok(opt_views(c.egress_allowlist))
}

impl OpenComputerBackendConfig {
    /// The settings that an environment gives. `list` and `mounts` are what the texts of
    /// `OPENCOMPUTER_MOUNTS_JSON` and `OPENCOMPUTER_SHARED_MOUNTS_JSON` read as, where they are
    /// set.
    pub fn from_env(
        env: &StringMap,
        list: Option<ParsedMountList>,
        mounts: Option<ParsedMounts>,
    ) -> (r: Result<Self>)
        ensures
            match r {
                Ok(c) => opencomputer_env_error(
                    env@,
                    mount_list_error(list),
                    mounts_error(mounts),
                ) is None && opencomputer_from(env@, list, mounts, c),
                Err(e) => opencomputer_env_error(
                    env@,
                    mount_list_error(list),
                    mounts_error(mounts),
                ) == Some(e@),
            },
    {
        let timeout_secs = match read_number(env, "OPENCOMPUTER_SANDBOX_TIMEOUT_SECS", 0) {
            Ok(n) => n,
            Err(e) => return Err(e),
        };
        let listed = match list {
            Some(Ok(listed)) => listed,
            Some(Err(message)) => {
                return Err(
                    SandboxError::InvalidConfig(
                        "invalid OPENCOMPUTER_MOUNTS_JSON: ".to_owned().concat(&message),
                    ),
                );
            },
            None => Vec::new(),
        };
        let shared_mounts = match mounts {
            Some(Ok(table)) => table,
            Some(Err(message)) => {
                return Err(
                    SandboxError::InvalidConfig(
                        "invalid OPENCOMPUTER_SHARED_MOUNTS_JSON: ".to_owned().concat(&message),
                    ),
                );
            },
            None => TextMap::new(),
        };
        let egress_allowlist = match read_allowlist(env, "OPENCOMPUTER_EGRESS_ALLOWLIST_JSON") {
            Ok(list) => list,
            Err(e) => return Err(e),
        };
        Ok(
            OpenComputerBackendConfig {
                api_url: read_or(env, "OPENCOMPUTER_API_URL", "https://app.opencomputer.dev"),
                api_key: read_or(env, "OPENCOMPUTER_API_KEY", ""),
                template_id: read_or(env, "OPENCOMPUTER_TEMPLATE_ID", "base"),
                checkpoint_id: read_or(env, "OPENCOMPUTER_CHECKPOINT_ID", ""),
                timeout_secs,
                default_cpu_count: None,
                default_memory_mb: None,
                default_disk_mb: None,
                burst: None,
                secret_store: None,
                egress_allowlist,
                mounts: listed,
                shared_mounts,
            },
        )
    }
}

// ---------------------------------------------------------------------------
// What settings mean
// ---------------------------------------------------------------------------
/// An architecture has one label: both names of the two common ones, in any case of their letters and
/// with any space around them, have the same, and every other keeps its name.
pub proof fn law_architecture_has_one_label(raw: Seq<char>)
    ensures
        crate::text::lowered(trimmed(raw)) == "x86_64"@ || crate::text::lowered(trimmed(raw))
            == "amd64"@ ==> architecture_label(raw) == "amd64"@,
        crate::text::lowered(trimmed(raw)) == "aarch64"@ || crate::text::lowered(trimmed(raw))
            == "arm64"@ ==> architecture_label(raw) == "arm64"@,
        crate::text::lowered(trimmed(raw)) != "x86_64"@ && crate::text::lowered(trimmed(raw))
            != "amd64"@ && crate::text::lowered(trimmed(raw)) != "aarch64"@ && crate::text::lowered(
            trimmed(raw),
        ) != "arm64"@ ==> architecture_label(raw) == crate::text::lowered(trimmed(raw)),
        "amd64"@ != "arm64"@,
{
    reveal_strlit("x86_64");
    reveal_strlit("amd64");
    reveal_strlit("aarch64");
    reveal_strlit("arm64");
    assert("amd64"@[1] != "arm64"@[1]);
    assert("x86_64"@.len() == 6 && "amd64"@.len() == 5 && "aarch64"@.len() == 7
        && "arm64"@.len() == 5);
}

/// A setting that is not blank is taken as it stands, and a blank or missing one counts as none.
pub proof fn law_blank_setting_counts_as_none(
    env: Map<Seq<char>, Seq<char>>,
    name: Seq<char>,
    default: Seq<char>,
)
    ensures
        !env.contains_key(name) ==> nonblank_setting(env, name) is None,
        env.contains_key(name) && trimmed(env[name]).len() == 0 ==> nonblank_setting(env, name)
            is None,
        env.contains_key(name) && trimmed(env[name]).len() > 0 ==> nonblank_setting(env, name)
            == Some(env[name]),
        env.contains_key(name) ==> setting_or(env, name, default) == env[name],
        !env.contains_key(name) ==> setting_or(env, name, default) == default,
{
}

/// A number of seconds is read from its setting; a blank or missing one sets none, and one that is no
/// number is an error.
pub proof fn law_seconds_are_read(env: Map<Seq<char>, Seq<char>>, name: Seq<char>)
    ensures
        !env.contains_key(name) || trimmed(env[name]).len() == 0 ==> seconds_setting(env, name)
            == std::result::Result::<Option<u64>, ErrorView>::Ok(None),
        env.contains_key(name) && trimmed(env[name]).len() > 0 ==> match u64_numeral(
            trimmed(env[name]),
        ) {
            Some(n) => seconds_setting(env, name) == std::result::Result::<
                Option<u64>,
                ErrorView,
            >::Ok(Some(n)),
            None => seconds_setting(env, name) is Err,
        },
{
}

/// A number is read from its setting; a missing one is the default, and one that is no number is an
/// error.
pub proof fn law_number_is_read(env: Map<Seq<char>, Seq<char>>, name: Seq<char>, default: u64)
    ensures
        !env.contains_key(name) ==> number_setting(env, name, default) == std::result::Result::<
            u64,
            ErrorView,
        >::Ok(default),
        env.contains_key(name) ==> match u64_numeral(env[name]) {
            Some(n) => number_setting(env, name, default) == std::result::Result::<
                u64,
                ErrorView,
            >::Ok(n),
            None => number_setting(env, name, default) is Err,
        },
{
}

/// The settings of Freestyle come from the environment, each from its own variable.
pub proof fn law_freestyle_settings_come_from_environment(
    env: Map<Seq<char>, Seq<char>>,
    mounts: Option<ParsedMounts>,
    c: FreestyleBackendConfig,
)
    requires
        freestyle_from(env, mounts, c),
    ensures
        env.contains_key("FREESTYLE_API_KEY"@) ==> c.api_key@ == env["FREESTYLE_API_KEY"@],
        env.contains_key("FREESTYLE_SNAPSHOT_ID"@) ==> c.snapshot_id@
            == env["FREESTYLE_SNAPSHOT_ID"@],
        env.contains_key("FREESTYLE_API_URL"@) && trimmed(env["FREESTYLE_API_URL"@]).len() > 0
            ==> c.api_url@ == env["FREESTYLE_API_URL"@],
        !env.contains_key("FREESTYLE_API_URL"@) ==> c.api_url@ == "https://api.freestyle.sh"@,
        env.contains_key("FREESTYLE_PREVIEW_DOMAIN_SUFFIX"@) && trimmed(
            env["FREESTYLE_PREVIEW_DOMAIN_SUFFIX"@],
        ).len() > 0 ==> c.preview_domain_suffix@ == env["FREESTYLE_PREVIEW_DOMAIN_SUFFIX"@],
        !env.contains_key("FREESTYLE_PREVIEW_DOMAIN_SUFFIX"@) ==> c.preview_domain_suffix@
            == "style.dev"@,
        env.contains_key("FREESTYLE_LINUX_USER"@) && trimmed(env["FREESTYLE_LINUX_USER"@]).len()
            > 0 ==> c.linux_user is Some && c.linux_user->Some_0@ == env["FREESTYLE_LINUX_USER"@],
        !env.contains_key("FREESTYLE_LINUX_USER"@) ==> c.linux_user is None,
        env.contains_key("FREESTYLE_FORWARD_AUTH_ID"@) && trimmed(
            env["FREESTYLE_FORWARD_AUTH_ID"@],
        ).len() > 0 ==> c.forward_auth_id is Some && c.forward_auth_id->Some_0@
            == env["FREESTYLE_FORWARD_AUTH_ID"@],
        !env.contains_key("FREESTYLE_IDLE_TIMEOUT_SECS"@) ==> c.idle_timeout_secs is None,
        !env.contains_key("FREESTYLE_AUTO_DELETE_SECS"@) ==> c.auto_delete_secs is None,
        env.contains_key("FREESTYLE_IDLE_TIMEOUT_SECS"@) && c.idle_timeout_secs is Some
            ==> u64_numeral(trimmed(env["FREESTYLE_IDLE_TIMEOUT_SECS"@])) == c.idle_timeout_secs,
        env.contains_key("FREESTYLE_AUTO_DELETE_SECS"@) && c.auto_delete_secs is Some
            ==> u64_numeral(trimmed(env["FREESTYLE_AUTO_DELETE_SECS"@])) == c.auto_delete_secs,
        env.contains_key("FREESTYLE_SNAPSHOT_AUTO_DELETE_SECS"@) && c.snapshot_auto_delete_secs
            is Some ==> u64_numeral(trimmed(env["FREESTYLE_SNAPSHOT_AUTO_DELETE_SECS"@]))
            == c.snapshot_auto_delete_secs,
        !env.contains_key("FREESTYLE_EGRESS_ALLOWLIST_JSON"@) ==> c.egress_allowlist is None,
{
}

/// The settings of OpenComputer come from the environment, each from its own variable.
pub proof fn law_opencomputer_settings_come_from_environment(
    env: Map<Seq<char>, Seq<char>>,
    list: Option<ParsedMountList>,
    mounts: Option<ParsedMounts>,
    c: OpenComputerBackendConfig,
)
    requires
        opencomputer_from(env, list, mounts, c),
    ensures
        env.contains_key("OPENCOMPUTER_API_KEY"@) ==> c.api_key@ == env["OPENCOMPUTER_API_KEY"@],
        env.contains_key("OPENCOMPUTER_API_URL"@) ==> c.api_url@ == env["OPENCOMPUTER_API_URL"@],
        !env.contains_key("OPENCOMPUTER_API_URL"@) ==> c.api_url@ == "https://app.opencomputer.dev"@,
        env.contains_key("OPENCOMPUTER_TEMPLATE_ID"@) ==> c.template_id@
            == env["OPENCOMPUTER_TEMPLATE_ID"@],
        !env.contains_key("OPENCOMPUTER_TEMPLATE_ID"@) ==> c.template_id@ == "base"@,
        env.contains_key("OPENCOMPUTER_CHECKPOINT_ID"@) ==> c.checkpoint_id@
            == env["OPENCOMPUTER_CHECKPOINT_ID"@],
        env.contains_key("OPENCOMPUTER_SANDBOX_TIMEOUT_SECS"@) ==> u64_numeral(
            env["OPENCOMPUTER_SANDBOX_TIMEOUT_SECS"@],
        ) == Some(c.timeout_secs),
        !env.contains_key("OPENCOMPUTER_SANDBOX_TIMEOUT_SECS"@) ==> c.timeout_secs == 0,
        !env.contains_key("OPENCOMPUTER_EGRESS_ALLOWLIST_JSON"@) ==> c.egress_allowlist is None,
{
}

/// The name by which a certificate is checked is the configured one, and the host of the endpoint where
/// none is configured.
pub proof fn law_certificate_is_checked_by_configured_name(
    configured: Seq<char>,
    endpoint: Seq<char>,
)
    ensures
        trimmed(configured).len() > 0 ==> tls_domain_of(Some(configured), endpoint)
            == std::result::Result::<Option<Seq<char>>, ErrorView>::Ok(Some(trimmed(configured))),
        tls_domain_of(None, endpoint) matches Ok(Some(host)) ==> crate::endpoint::host_of_endpoint(
            endpoint,
        ) == std::result::Result::<Seq<char>, ErrorView>::Ok(host),
        trimmed(configured).len() == 0 ==> tls_domain_of(Some(configured), endpoint)
            == tls_domain_of(None, endpoint),
{
}

/// The settings of Freestyle are refused where a number of seconds, the mounts or the list of hosts cannot
/// be read, and taken in every other case.
pub proof fn law_unreadable_freestyle_setting_is_refused(
    env: Map<Seq<char>, Seq<char>>,
    message: Seq<char>,
)
    ensures
        freestyle_env_error(env, None) is None <==> seconds_setting(
            env,
            "FREESTYLE_IDLE_TIMEOUT_SECS"@,
        ) is Ok && seconds_setting(env, "FREESTYLE_AUTO_DELETE_SECS"@) is Ok && seconds_setting(
            env,
            "FREESTYLE_SNAPSHOT_AUTO_DELETE_SECS"@,
        ) is Ok && allowlist_setting(env, "FREESTYLE_EGRESS_ALLOWLIST_JSON"@) is Ok,
        freestyle_env_error(env, Some(message)) is Some,
        seconds_setting(env, "FREESTYLE_IDLE_TIMEOUT_SECS"@) is Ok && seconds_setting(
            env,
            "FREESTYLE_AUTO_DELETE_SECS"@,
        ) is Ok && seconds_setting(env, "FREESTYLE_SNAPSHOT_AUTO_DELETE_SECS"@) is Ok
            ==> freestyle_env_error(env, Some(message)) == Some(
            ErrorView::InvalidConfig("invalid FREESTYLE_SHARED_MOUNTS_JSON: "@ + message),
        ),
        seconds_setting(env, "FREESTYLE_IDLE_TIMEOUT_SECS"@) matches Err(e) ==> freestyle_env_error(
            env,
            None,
        ) == Some(e),
{
}

/// The settings of OpenComputer are refused where the number of seconds, the mounts or the list of hosts
/// cannot be read, and taken in every other case.
pub proof fn law_unreadable_opencomputer_setting_is_refused(
    env: Map<Seq<char>, Seq<char>>,
    message: Seq<char>,
)
    ensures
        opencomputer_env_error(env, None, None) is None <==> number_setting(
            env,
            "OPENCOMPUTER_SANDBOX_TIMEOUT_SECS"@,
            0,
        ) is Ok && allowlist_setting(env, "OPENCOMPUTER_EGRESS_ALLOWLIST_JSON"@) is Ok,
        opencomputer_env_error(env, Some(message), None) is Some,
        opencomputer_env_error(env, None, Some(message)) is Some,
        number_setting(env, "OPENCOMPUTER_SANDBOX_TIMEOUT_SECS"@, 0) is Ok
            ==> opencomputer_env_error(env, Some(message), None) == Some(
            ErrorView::InvalidConfig("invalid OPENCOMPUTER_MOUNTS_JSON: "@ + message),
        ) && opencomputer_env_error(env, None, Some(message)) == Some(
            ErrorView::InvalidConfig("invalid OPENCOMPUTER_SHARED_MOUNTS_JSON: "@ + message),
        ),
{
}

/// Only a text that could not be read has an error.
pub proof fn law_read_mounts_have_no_error(
    parsed: Option<ParsedMounts>,
    list: Option<ParsedMountList>,
)
    ensures
        mounts_error(parsed) is Some <==> parsed is Some && parsed->Some_0 is Err,
        parsed is Some && parsed->Some_0 is Err ==> mounts_error(parsed) == Some(
            parsed->Some_0->Err_0@,
        ),
        mount_list_error(list) is Some <==> list is Some && list->Some_0 is Err,
        list is Some && list->Some_0 is Err ==> mount_list_error(list) == Some(
            list->Some_0->Err_0@,
        ),
{
}

/// A list of hosts that is not set is none; one that is set is the list that its text holds, or an error.
pub proof fn law_list_of_hosts_is_read(env: Map<Seq<char>, Seq<char>>, name: Seq<char>)
    ensures
        !env.contains_key(name) ==> (allowlist_setting(env, name) matches Ok(list) && list is None),
        env.contains_key(name) && json_string_list(env[name]) is Ok ==> (allowlist_setting(
            env,
            name,
        ) matches Ok(list) && list == Some(json_string_list(env[name])->Ok_0)),
        env.contains_key(name) && json_string_list(env[name]) is Err ==> (allowlist_setting(
            env,
            name,
        ) matches Err(e) && e == ErrorView::InvalidConfig(
            "invalid "@ + name + ": "@ + json_string_list(env[name])->Err_0,
        )),
{
}

/// An architecture counts by its label, and a blank one is none.
pub proof fn law_blank_architecture_is_none(text: Seq<char>)
    ensures
        nonblank_label(None) is None,
        architecture_label(text).len() > 0 ==> nonblank_label(Some(text)) == Some(
            architecture_label(text),
        ),
        architecture_label(text).len() == 0 ==> nonblank_label(Some(text)) is None,
{
}

/// Without a configured name a certificate is checked by the host of the endpoint, and by none where the
/// host is blank.
pub proof fn law_blank_host_is_no_name(endpoint: Seq<char>, host: Seq<char>)
    requires
        crate::endpoint::host_of_endpoint(endpoint) == std::result::Result::<
            Seq<char>,
            ErrorView,
        >::Ok(host),
    ensures
        trimmed(host).len() == 0 ==> tls_domain_of(None, endpoint) == std::result::Result::<
            Option<Seq<char>>,
            ErrorView,
        >::Ok(None),
        trimmed(host).len() > 0 ==> tls_domain_of(None, endpoint) == std::result::Result::<
            Option<Seq<char>>,
            ErrorView,
        >::Ok(Some(host)),
{
}

/// The mounts of the settings are those that were read, and none where none were; nothing else of
/// OpenComputer is preset.
pub proof fn law_mounts_of_settings_are_those_read(
    env: Map<Seq<char>, Seq<char>>,
    list: Option<ParsedMountList>,
    mounts: Option<ParsedMounts>,
    o: OpenComputerBackendConfig,
    f: FreestyleBackendConfig,
)
    ensures
        opencomputer_from(env, list, mounts, o) ==> {
            &&& mounts is Some && mounts->Some_0 is Ok ==> o.shared_mounts == mounts->Some_0->Ok_0
            &&& mounts is None ==> o.shared_mounts@.dom() =~= Set::<Seq<char>>::empty()
            &&& list is Some && list->Some_0 is Ok ==> o.mounts == list->Some_0->Ok_0
            &&& list is None ==> o.mounts@.len() == 0
            &&& o.default_cpu_count is None && o.default_memory_mb is None && o.default_disk_mb
                is None && o.burst is None && o.secret_store is None
        },
        freestyle_from(env, mounts, f) ==> {
            &&& mounts is Some && mounts->Some_0 is Ok ==> f.shared_mounts == mounts->Some_0->Ok_0
            &&& mounts is None ==> f.shared_mounts@.dom() =~= Set::<Seq<char>>::empty()
            &&& !env.contains_key("FREESTYLE_API_KEY"@) ==> f.api_key@ == ""@
            &&& !env.contains_key("FREESTYLE_SNAPSHOT_ID"@) ==> f.snapshot_id@ == ""@
        },
{
}

} // verus!
