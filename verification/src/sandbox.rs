//! The sandbox as a whole: its configuration, the check of its daemon, its warm images and the
//! names under which provider-managed sessions are known.

use crate::auth::auth_header;
use crate::auth::compile_auth_header;
use crate::auth::compile_metadata_token;
use crate::auth::plain_header;
use crate::config::nonblank_label;
use crate::config::normalize_architecture_label;
use crate::config::warm_pool_key;
use crate::config::DistributedControlConfig;
use crate::config::ResourceLimits;
use crate::config::SandboxProviderConfig;
use crate::config::TlsClientConfig;
use crate::config::WarmPoolProfile;
use crate::endpoint::first_gateway_error;
use crate::endpoint::names_gateway;
use crate::endpoint::normalize_endpoint;
use crate::endpoint::normalize_gateways;
use crate::endpoint::normalized_endpoint;
use crate::error::ErrorView;
use crate::error::Result;
use crate::error::SandboxError;
use crate::order::increasing;
use crate::span::Span;
use crate::table::keys_with_value;
use crate::table::looked_up;
use crate::table::StringMap;
use crate::text::same;
use crate::text::trim;
use crate::text::trimmed;
use crate::text::views;
use crate::vm::opt_view;
use vstd::prelude::*;

verus! {

/// The configuration of a sandbox. Paths are text.
#[derive(Debug)]
pub struct SandboxConfig {
    pub provider: SandboxProviderConfig,
    pub endpoint: String,
    pub control_gateway_endpoints: Vec<String>,
    pub endpoint_overrides: StringMap,
    pub auto_spawn: bool,
    pub daemon_listen: String,
    pub daemon_bin: Option<String>,
    pub daemon_data_dir: Option<String>,
    pub daemon_start_timeout: Span,
    pub portproxy_ready_timeout: Span,
    pub connect_timeout: Span,
    pub default_image: String,
    pub default_architecture: Option<String>,
    pub default_resources: ResourceLimits,
    pub default_shell: String,
    pub portproxy_client_bin: Option<String>,
    pub warm_pool_profiles: Vec<WarmPoolProfile>,
    pub prewarm_on_start: bool,
    pub distributed_control: Option<DistributedControlConfig>,
    pub auth_token: Option<String>,
    pub pci_access_token: Option<String>,
    pub tls: Option<TlsClientConfig>,
}

/// `c` is the default configuration, with an image where one is set.
pub open spec fn is_default_config(c: SandboxConfig, image: Option<Seq<char>>) -> bool {
    &&& c.provider is Chevalier
    &&& c.endpoint@ == "http://127.0.0.1:8052"@
    &&& c.control_gateway_endpoints@ == Seq::<String>::empty()
    &&& c.endpoint_overrides@ == Map::<Seq<char>, Seq<char>>::empty()
    &&& c.auto_spawn
    &&& c.daemon_listen@ == "127.0.0.1:8052"@
    &&& c.daemon_bin is None
    &&& c.daemon_data_dir is None
    &&& c.daemon_start_timeout == (Span { secs: 20, nanos: 0 })
    &&& c.portproxy_ready_timeout == (Span { secs: 90, nanos: 0 })
    &&& c.connect_timeout == (Span { secs: 5, nanos: 0 })
    &&& c.default_image@ == (match image {
        Some(i) => i,
        None => Seq::<char>::empty(),
    })
    &&& c.default_architecture is None
    &&& c.default_resources == (ResourceLimits { vcpu: 2, memory_mb: 2048, disk_gb: 10 })
    &&& c.default_shell@ == "/bin/sh"@
    &&& c.portproxy_client_bin is None
    &&& c.warm_pool_profiles@ == Seq::<WarmPoolProfile>::empty()
    &&& c.prewarm_on_start
    &&& c.distributed_control is None
    &&& c.auth_token is None
    &&& c.pci_access_token is None
    &&& c.tls is None
}

impl SandboxConfig {
    /// The default configuration. `image` is the value of `BRACKET_VM_IMAGE`, where it is set.
    pub fn with_image(image: Option<String>) -> (c: Self)
        ensures
            is_default_config(c, opt_view(image)),
    {
        SandboxConfig {
            provider: SandboxProviderConfig::Chevalier,
            endpoint: "http://127.0.0.1:8052".to_owned(),
            control_gateway_endpoints: Vec::new(),
            endpoint_overrides: StringMap::new(),
            auto_spawn: true,
            daemon_listen: "127.0.0.1:8052".to_owned(),
            daemon_bin: None,
            daemon_data_dir: None,
            daemon_start_timeout: Span::from_secs(20),
            portproxy_ready_timeout: Span::from_secs(90),
            connect_timeout: Span::from_secs(5),
            default_image: match image {
                Some(i) => i,
                None => String::new(),
            },
            default_architecture: None,
            default_resources: ResourceLimits { vcpu: 2, memory_mb: 2048, disk_gb: 10 },
            default_shell: "/bin/sh".to_owned(),
            portproxy_client_bin: None,
            warm_pool_profiles: Vec::new(),
            prewarm_on_start: true,
            distributed_control: None,
            auth_token: None,
            pci_access_token: None,
            tls: None,
        }
    }
}

impl Default for SandboxConfig {
    fn default() -> (c: Self)
        ensures
            is_default_config(c, None),
    {
        SandboxConfig::with_image(None)
    }
}

// ---------------------------------------------------------------------------
// Preparing the configuration
// ---------------------------------------------------------------------------
/// A configuration that was checked, with the headers that go with each request.
#[derive(Debug)]
pub struct PreparedConfig {
    pub config: SandboxConfig,
    pub auth_header: Option<String>,
    pub pci_auth_header: Option<String>,
}

/// The label of the PCI token in messages.
pub open spec fn pci_token_label() -> Seq<char> {
    "PCI capability token"@
}

/// What is wrong with a configuration: a Chevalier sandbox without an image, an endpoint that is
/// blank, a gateway that is none, or a token that no header can carry.
pub open spec fn config_error(config: SandboxConfig) -> Option<ErrorView> {
    if config.provider is Chevalier && trimmed(config.default_image@).len() == 0 {
        Some(
            ErrorView::InvalidConfig(
                "default image is required for the Chevalier provider; set SandboxConfig.default_image or BRACKET_VM_IMAGE"@,
            ),
        )
    } else {
        match normalized_endpoint(config.endpoint@) {
            Err(e) => Some(e),
            Ok(_) => match first_gateway_error(views(config.control_gateway_endpoints@)) {
                Some(e) => Some(e),
                None => match auth_header(opt_view(config.auth_token)) {
                    Err(e) => Some(e),
                    Ok(_) => match plain_header(
                        opt_view(config.pci_access_token),
                        pci_token_label(),
                    ) {
                        Err(e) => Some(e),
                        Ok(_) => None,
                    },
                },
            },
        }
    }
}

/// `p` is what a configuration without an error becomes.
pub open spec fn is_prepared(config: SandboxConfig, p: PreparedConfig) -> bool {
    &&& p.config.default_image@ == (if config.provider is Chevalier {
        trimmed(config.default_image@)
    } else {
        config.default_image@
    })
    &&& normalized_endpoint(config.endpoint@) == std::result::Result::<Seq<char>, ErrorView>::Ok(
        p.config.endpoint@,
    )
    &&& increasing(views(p.config.control_gateway_endpoints@))
    &&& forall|x: Seq<char>| #[trigger]
        views(p.config.control_gateway_endpoints@).contains(x) <==> names_gateway(
            views(config.control_gateway_endpoints@),
            x,
        ) && x != p.config.endpoint@
    &&& auth_header(opt_view(config.auth_token)) == std::result::Result::<
        Option<Seq<char>>,
        ErrorView,
    >::Ok(opt_view(p.auth_header))
    &&& plain_header(opt_view(config.pci_access_token), pci_token_label())
        == std::result::Result::<Option<Seq<char>>, ErrorView>::Ok(opt_view(p.pci_auth_header))
    &&& p.config.provider == config.provider
    &&& p.config.endpoint_overrides == config.endpoint_overrides
    &&& p.config.auto_spawn == config.auto_spawn
    &&& p.config.daemon_listen == config.daemon_listen
    &&& p.config.daemon_bin == config.daemon_bin
    &&& p.config.daemon_data_dir == config.daemon_data_dir
    &&& p.config.daemon_start_timeout == config.daemon_start_timeout
    &&& p.config.portproxy_ready_timeout == config.portproxy_ready_timeout
    &&& p.config.connect_timeout == config.connect_timeout
    &&& p.config.default_architecture == config.default_architecture
    &&& p.config.default_resources == config.default_resources
    &&& p.config.default_shell == config.default_shell
    &&& p.config.portproxy_client_bin == config.portproxy_client_bin
    &&& p.config.warm_pool_profiles == config.warm_pool_profiles
    &&& p.config.prewarm_on_start == config.prewarm_on_start
    &&& p.config.distributed_control == config.distributed_control
    &&& p.config.auth_token == config.auth_token
    &&& p.config.pci_access_token == config.pci_access_token
    &&& p.config.tls == config.tls
}

fn opt_str(s: &Option<String>) -> (r: Option<&str>)
    ensures
        crate::exec::opt_str_view(r) == opt_view(*s),
{
    match s {
        Some(v) => Some(v.as_str()),
        None => None,
    }
}

/// Checks a configuration and brings it to its normal form.
pub fn prepare_config(config: SandboxConfig) -> (r: Result<PreparedConfig>)
    ensures
        match r {
            Ok(p) => config_error(config) is None && is_prepared(config, p),
            Err(e) => config_error(config) == Some(e@),
        },
{
    let chevalier: bool = match &config.provider {
        SandboxProviderConfig::Chevalier => true,
        _ => false,
    };
    let image = if chevalier {
        trim(&config.default_image)
    } else {
        config.default_image.clone()
    };
    if chevalier && image.as_str().is_empty() {
        return Err(
            SandboxError::InvalidConfig(
                "default image is required for the Chevalier provider; set SandboxConfig.default_image or BRACKET_VM_IMAGE".to_owned(),
            ),
        );
    }
    let endpoint = match normalize_endpoint(&config.endpoint) {
        Ok(endpoint) => endpoint,
        Err(e) => return Err(e),
    };
    let gateways = match normalize_gateways(&config.control_gateway_endpoints, &endpoint) {
        Ok(gateways) => gateways,
        Err(e) => return Err(e),
    };
    let auth = match compile_auth_header(opt_str(&config.auth_token)) {
        Ok(header) => header,
        Err(e) => return Err(e),
    };
    let pci = match compile_metadata_token(
        opt_str(&config.pci_access_token),
        "PCI capability token",
    ) {
        Ok(header) => header,
        Err(e) => return Err(e),
    };
    let mut config = config;
    config.default_image = image;
    config.endpoint = endpoint;
    config.control_gateway_endpoints = gateways;
    Ok(PreparedConfig { config, auth_header: auth, pci_auth_header: pci })
}

// ---------------------------------------------------------------------------
// The daemon
// ---------------------------------------------------------------------------
/// The error of a sandbox whose daemon answers nowhere and may not be spawned.
pub fn daemon_unreachable(primary: &str, last_health_error: Option<&str>) -> (e: SandboxError)
    ensures
        e@ == ErrorView::DaemonUnavailable(
            "unable to connect to sandbox daemon at any configured control endpoint (primary: "@
                + primary@ + ")"@ + (match last_health_error {
                Some(message) => "; last health error: "@ + message@,
                None => ""@,
            }),
        ),
{
    let detail = match last_health_error {
        Some(message) => "; last health error: ".to_owned().concat(message),
        None => "".to_owned(),
    };
    SandboxError::DaemonUnavailable(
        "unable to connect to sandbox daemon at any configured control endpoint (primary: ".to_owned().concat(
        primary).concat(")").concat(&detail),
    )
}

/// What to do once no endpoint has answered.
#[derive(Debug)]
pub enum DaemonStep {
    /// Spawn the daemon, and poll the primary endpoint.
    Spawn,
    Fail(SandboxError),
}

/// Decides what to do once no endpoint has answered.
pub fn after_failed_health_checks(
    auto_spawn: bool,
    primary: &str,
    last_health_error: Option<&str>,
) -> (step: DaemonStep)
    ensures
        match step {
            DaemonStep::Spawn => auto_spawn,
            DaemonStep::Fail(e) => !auto_spawn && e@ == ErrorView::DaemonUnavailable(
                "unable to connect to sandbox daemon at any configured control endpoint (primary: "@
                    + primary@ + ")"@ + (match last_health_error {
                    Some(message) => "; last health error: "@ + message@,
                    None => ""@,
                }),
            ),
        },
{
    if auto_spawn {
        DaemonStep::Spawn
    } else {
        DaemonStep::Fail(daemon_unreachable(primary, last_health_error))
    }
}

/// The error of a daemon that was spawned and did not answer in time.
pub fn daemon_not_ready(primary: &str) -> (e: SandboxError)
    ensures
        e@ == ErrorView::DaemonUnavailable(
            "sandbox daemon did not become ready at "@ + primary@,
        ),
{
    SandboxError::DaemonUnavailable(
        "sandbox daemon did not become ready at ".to_owned().concat(primary),
    )
}

/// The error of a cluster none of whose nodes became healthy in time.
pub fn no_healthy_node() -> (e: SandboxError)
    ensures
        e@ == ErrorView::DaemonUnavailable("no healthy distributed sandbox node discovered"@),
{
    SandboxError::DaemonUnavailable("no healthy distributed sandbox node discovered".to_owned())
}

/// The arguments with which the daemon is spawned.
pub fn daemon_args(listen: &str, data_dir: Option<&str>) -> (args: Vec<String>)
    ensures
        views(args@) == seq![
            "--listen"@,
            listen@,
            "--disable-node-registry"@,
            "--disable-control-bus"@,
        ] + (match data_dir {
            Some(dir) => seq!["--data-dir"@, dir@],
            None => Seq::empty(),
        }),
{
    let mut args: Vec<String> = Vec::new();
    args.push("--listen".to_owned());
    args.push(listen.to_owned());
    args.push("--disable-node-registry".to_owned());
    args.push("--disable-control-bus".to_owned());
    match data_dir {
        Some(dir) => {
            args.push("--data-dir".to_owned());
            args.push(dir.to_owned());
        },
        None => {},
    }
    assert(views(args@) =~= seq![
        "--listen"@,
        listen@,
        "--disable-node-registry"@,
        "--disable-control-bus"@,
    ] + (match data_dir {
        Some(dir) => seq!["--data-dir"@, dir@],
        None => Seq::empty(),
    }));
    args
}

// ---------------------------------------------------------------------------
// Warm images
// ---------------------------------------------------------------------------
/// What is read of a profile.
pub struct ProfileView {
    pub image: Seq<char>,
    pub architecture: Option<Seq<char>>,
    pub min_inventory: usize,
}

/// What is read of a profile.
pub open spec fn profile_view(p: WarmPoolProfile) -> ProfileView {
    ProfileView {
        image: p.image@,
        architecture: opt_view(p.architecture),
        min_inventory: p.min_inventory,
    }
}

/// What is read of a list of profiles.
pub open spec fn profile_views(profiles: Seq<WarmPoolProfile>) -> Seq<ProfileView> {
    profiles.map_values(|p: WarmPoolProfile| profile_view(p))
}

/// The first of two options that is there.
pub open spec fn first_of(a: Option<Seq<char>>, b: Option<Seq<char>>) -> Option<Seq<char>> {
    match a {
        Some(v) => Some(v),
        None => b,
    }
}

/// The profiles to keep warm: the configured ones, else one for the default image, with the
/// default architecture or that of the host.
pub open spec fn profiles_to_warm(
    config: SandboxConfig,
    host_architecture: Option<Seq<char>>,
) -> Seq<ProfileView> {
    if config.warm_pool_profiles@.len() > 0 {
        profile_views(config.warm_pool_profiles@)
    } else {
        seq![
            ProfileView {
                image: config.default_image@,
                architecture: first_of(
                    nonblank_label(opt_view(config.default_architecture)),
                    host_architecture,
                ),
                min_inventory: 1,
            },
        ]
    }
}

/// The profiles to keep warm.
pub fn resolved_warm_pool_profiles(config: &SandboxConfig, host_architecture: Option<String>) -> (r:
    Vec<WarmPoolProfile>)
    ensures
        profile_views(r@) == profiles_to_warm(*config, opt_view(host_architecture)),
{
    let mut profiles: Vec<WarmPoolProfile> = Vec::new();
    if config.warm_pool_profiles.len() > 0 {
        let mut i: usize = 0;
        while i < config.warm_pool_profiles.len()
            invariant
                i <= config.warm_pool_profiles@.len(),
                profile_views(profiles@) == profile_views(config.warm_pool_profiles@).take(
                    i as int,
                ),
            decreases config.warm_pool_profiles@.len() - i,
        {
            let ghost before = profiles@;
            profiles.push(config.warm_pool_profiles[i].copy());
            proof {
                let all = profile_views(config.warm_pool_profiles@);
                assert(profile_views(profiles@) =~= profile_views(before).push(
                    profile_view(profiles@.last()),
                ));
                assert(profile_view(profiles@.last()) == all[i as int]);
                assert(all.take(i + 1) =~= all.take(i as int).push(all[i as int]));
            }
            i += 1;
        }
        assert(profile_views(profiles@) =~= profile_views(config.warm_pool_profiles@));
        return profiles;
    }
    let configured = match &config.default_architecture {
        Some(raw) => {
            let label = normalize_architecture_label(raw);
            if label.as_str().is_empty() {
                None
            } else {
                Some(label)
            }
        },
        None => None,
    };
    let architecture = match configured {
        Some(label) => Some(label),
        None => host_architecture,
    };
    profiles.push(
        WarmPoolProfile { image: config.default_image.clone(), architecture, min_inventory: 1 },
    );
    assert(profile_views(profiles@) =~= profiles_to_warm(*config, opt_view(host_architecture)));
    profiles
}

/// Whether the images are warmed at all.
pub fn prewarm_wanted(managed: bool, force: bool, prewarm_on_start: bool) -> (yes: bool)
    ensures
        yes == (!managed && (force || prewarm_on_start)),
{
    !managed && (force || prewarm_on_start)
}

/// An image to fetch on an endpoint.
#[derive(Debug)]
pub struct PrewarmTask {
    pub key: String,
    pub image: String,
    pub architecture: String,
}

/// The architecture to fetch an image for.
pub open spec fn prewarm_architecture(
    profile: ProfileView,
    host_architecture: Option<Seq<char>>,
) -> Seq<char> {
    match first_of(nonblank_label(profile.architecture), host_architecture) {
        Some(label) => label,
        None => ""@,
    }
}

/// The key under which an image is noted as warm.
pub open spec fn pool_key(endpoint: Seq<char>, image: Seq<char>, architecture: Seq<char>) -> Seq<
    char,
> {
    endpoint + "::"@ + image + "::"@ + crate::config::architecture_label(architecture)
}

/// The images that are warm, by key.
#[derive(Debug)]
pub struct WarmPool {
    ready: StringMap,
}

impl WarmPool {
    /// The keys of the warm images.
    pub closed spec fn keys(&self) -> Set<Seq<char>> {
        self.ready@.dom()
    }

    /// None is warm.
    pub fn new() -> (pool: WarmPool)
        ensures
            pool.keys() == Set::<Seq<char>>::empty(),
    {
        let pool = WarmPool { ready: StringMap::new() };
        assert(pool.keys() =~= Set::<Seq<char>>::empty());
        pool
    }

    /// Whether an image is warm.
    pub fn contains(&self, key: &str) -> (yes: bool)
        ensures
            yes == self.keys().contains(key@),
    {
        self.ready.contains_key(key)
    }

    /// Notes an image as warm.
    pub fn mark_ready(&mut self, key: String)
        ensures
            final(self).keys() == old(self).keys().insert(key@),
    {
        self.ready.insert(key, String::new());
        assert(self.keys() =~= old(self).keys().insert(key@));
    }

    /// What to fetch for a profile on an endpoint; nothing for a blank image or a warm one.
    pub fn task(
        &self,
        endpoint: &str,
        profile: &WarmPoolProfile,
        host_architecture: &Option<String>,
    ) -> (task: Option<PrewarmTask>)
        ensures
            ({
                let arch = prewarm_architecture(
                    profile_view(*profile),
                    opt_view(*host_architecture),
                );
                let key = pool_key(endpoint@, profile.image@, arch);
                match task {
                    Some(t) => trimmed(profile.image@).len() > 0 && !self.keys().contains(key)
                        && t.key@ == key && t.image@ == profile.image@ && t.architecture@ == arch,
                    None => trimmed(profile.image@).len() == 0 || self.keys().contains(key),
                }
            }),
    {
        if trim(&profile.image).as_str().is_empty() {
            return None;
        }
        let architecture = match profile.normalized_architecture() {
            Some(label) => label,
            None => match host_architecture {
                Some(label) => label.clone(),
                None => "".to_owned(),
            },
        };
        let key = warm_pool_key(endpoint, &profile.image, &architecture);
        if self.contains(&key) {
            return None;
        }
        Some(PrewarmTask { key, image: profile.image.clone(), architecture })
    }
}

// ---------------------------------------------------------------------------
// Aliases of provider-managed sessions
// ---------------------------------------------------------------------------
/// The ids that a provider gave to sessions whose callers know them by another.
#[derive(Debug)]
pub struct SessionAliases {
    aliases: StringMap,
}

/// The provider's id of a session: its alias, else the id itself.
pub open spec fn provider_id(aliases: Map<Seq<char>, Seq<char>>, session_id: Seq<char>) -> Seq<
    char,
> {
    match looked_up(aliases, session_id) {
        Some(id) => id,
        None => session_id,
    }
}

impl View for SessionAliases {
    type V = Map<Seq<char>, Seq<char>>;

    closed spec fn view(&self) -> Map<Seq<char>, Seq<char>> {
        self.aliases@
    }
}

impl SessionAliases {
    /// No aliases.
    pub fn new() -> (a: SessionAliases)
        ensures
            a@ == Map::<Seq<char>, Seq<char>>::empty(),
    {
        SessionAliases { aliases: StringMap::new() }
    }

    /// Notes the provider's id of a session, where it differs from the session's own.
    pub fn bind_managed_session_alias(&mut self, logical_session_id: &str, provider_id: &str)
        ensures
            final(self)@ == (if logical_session_id@ == provider_id@ {
                old(self)@
            } else {
                old(self)@.insert(logical_session_id@, provider_id@)
            }),
    {
        if same(logical_session_id, provider_id) {
            return ;
        }
        self.aliases.insert(logical_session_id.to_owned(), provider_id.to_owned());
    }

    /// The provider's id of a session.
    pub fn managed_provider_session_id(&self, session_id: &str) -> (id: String)
        ensures
            id@ == provider_id(self@, session_id@),
    {
        match self.aliases.get(session_id) {
            Some(id) => id.clone(),
            None => session_id.to_owned(),
        }
    }

    /// Forgets a session, and every session that has its provider's id.
    pub fn clear_managed_session_aliases(&mut self, logical_session_id: &str, provider_id: &str)
        ensures
            final(self)@ == old(self)@.remove(logical_session_id@).remove_keys(
                keys_with_value(old(self)@, Some(provider_id@)),
            ),
    {
        self.aliases.remove_key_and_value(logical_session_id, provider_id);
    }
}

/// A session that was bound is found under the provider's id.
pub proof fn law_bound_alias_resolves(
    aliases: Map<Seq<char>, Seq<char>>,
    session_id: Seq<char>,
    id: Seq<char>,
)
    requires
        session_id != id,
    ensures
        provider_id(aliases.insert(session_id, id), session_id) == id,
{
}

/// A session that was forgotten stands for itself, and so does every other that the provider
/// knew under the same id.
pub proof fn law_cleared_alias_is_gone(
    aliases: Map<Seq<char>, Seq<char>>,
    session_id: Seq<char>,
    id: Seq<char>,
    other: Seq<char>,
)
    requires
        other == session_id || provider_id(aliases, other) == id,
    ensures
        provider_id(
            aliases.remove(session_id).remove_keys(keys_with_value(aliases, Some(id))),
            other,
        ) == other,
{
    let left = aliases.remove(session_id).remove_keys(keys_with_value(aliases, Some(id)));
    if left.contains_key(other) {
        assert(aliases.contains_key(other));
        assert(keys_with_value(aliases, Some(id)).contains(other));
    }
}

// ---------------------------------------------------------------------------
// What a configuration comes to
// ---------------------------------------------------------------------------
/// A configuration that was only given an image reaches a daemon on this machine and starts it where it
/// is not running. It waits 20 s for the daemon, 90 s for a guest and 5 s for a connection, and it sends
/// no token.
pub proof fn law_default_is_daemon_on_this_machine(c: SandboxConfig, image: Option<Seq<char>>)
    requires
        is_default_config(c, image),
    ensures
        c.provider is Chevalier && c.auto_spawn && c.prewarm_on_start,
        c.endpoint@ == "http://"@ + c.daemon_listen@,
        c.daemon_listen@ == "127.0.0.1:8052"@,
        c.daemon_start_timeout.total() == 20_000_000_000,
        c.portproxy_ready_timeout.total() == 90_000_000_000,
        c.connect_timeout.total() == 5_000_000_000,
        c.default_resources.vcpu == 2 && c.default_resources.memory_mb == 2048
            && c.default_resources.disk_gb == 10,
        c.default_shell@ == "/bin/sh"@,
        c.auth_token is None && c.pci_access_token is None && c.tls is None,
        c.distributed_control is None && c.default_architecture is None,
        c.warm_pool_profiles@.len() == 0 && c.control_gateway_endpoints@.len() == 0,
        c.daemon_bin is None && c.daemon_data_dir is None && c.portproxy_client_bin is None,
        image matches Some(i) ==> c.default_image@ == i,
        image is None ==> c.default_image@.len() == 0,
{
    reveal_strlit("http://");
    reveal_strlit("127.0.0.1:8052");
    reveal_strlit("http://127.0.0.1:8052");
    assert("http://127.0.0.1:8052"@ =~= "http://"@ + "127.0.0.1:8052"@);
}

/// A configuration is refused where its provider needs an image and none is named, where an endpoint of
/// it is none, and where a token of it cannot be sent; it is taken in every other case.
pub proof fn law_unusable_config_is_refused(c: SandboxConfig)
    ensures
        c.provider is Chevalier && trimmed(c.default_image@).len() == 0 ==> config_error(
            c,
        ) matches Some(ErrorView::InvalidConfig(_)),
        normalized_endpoint(c.endpoint@) is Err ==> config_error(c) is Some,
        first_gateway_error(views(c.control_gateway_endpoints@)) is Some ==> config_error(c)
            is Some,
        auth_header(opt_view(c.auth_token)) is Err ==> config_error(c) is Some,
        plain_header(opt_view(c.pci_access_token), "PCI capability token"@) is Err
            ==> config_error(c) is Some,
        (!(c.provider is Chevalier) || trimmed(c.default_image@).len() > 0) && normalized_endpoint(
            c.endpoint@,
        ) is Ok && first_gateway_error(views(c.control_gateway_endpoints@)) is None && auth_header(
            opt_view(c.auth_token),
        ) is Ok && plain_header(opt_view(c.pci_access_token), "PCI capability token"@) is Ok
            ==> config_error(c) is None,
{
}

/// A prepared configuration names its image without white space around it, its endpoint and its
/// gateways in their normal form, and no gateway twice or that is the endpoint. All else is as it was
/// set.
pub proof fn law_prepared_config_is_as_set(c: SandboxConfig, p: PreparedConfig)
    requires
        is_prepared(c, p),
    ensures
        c.provider is Chevalier ==> p.config.default_image@ == trimmed(c.default_image@),
        !(c.provider is Chevalier) ==> p.config.default_image@ == c.default_image@,
        normalized_endpoint(c.endpoint@) matches Ok(e) && e == p.config.endpoint@,
        !views(p.config.control_gateway_endpoints@).contains(p.config.endpoint@),
        views(p.config.control_gateway_endpoints@).no_duplicates(),
        forall|i: int|
            0 <= i < c.control_gateway_endpoints@.len() && trimmed(
                #[trigger] c.control_gateway_endpoints@[i]@,
            ).len() > 0 && normalized_endpoint(c.control_gateway_endpoints@[i]@) is Ok
                && normalized_endpoint(c.control_gateway_endpoints@[i]@)->Ok_0
                != p.config.endpoint@ ==> views(p.config.control_gateway_endpoints@).contains(
                normalized_endpoint(c.control_gateway_endpoints@[i]@)->Ok_0,
            ),
        auth_header(opt_view(c.auth_token)) matches Ok(h) && h == opt_view(p.auth_header),
        plain_header(opt_view(c.pci_access_token), "PCI capability token"@) matches Ok(h) && h
            == opt_view(p.pci_auth_header),
        p.config == (SandboxConfig {
            default_image: p.config.default_image,
            endpoint: p.config.endpoint,
            control_gateway_endpoints: p.config.control_gateway_endpoints,
            ..c
        }),
{
    let list = views(p.config.control_gateway_endpoints@);
    assert forall|i: int, j: int| 0 <= i < list.len() && 0 <= j < list.len() && i != j implies list[i]
        != list[j] by {
        if i < j {
            crate::order::law_texts_are_ordered_by_first_difference(list[i], list[j]);
        } else {
            crate::order::law_texts_are_ordered_by_first_difference(list[j], list[i]);
        }
    }
    let given = views(c.control_gateway_endpoints@);
    assert forall|i: int|
        0 <= i < c.control_gateway_endpoints@.len() && trimmed(
            #[trigger] c.control_gateway_endpoints@[i]@,
        ).len() > 0 && normalized_endpoint(c.control_gateway_endpoints@[i]@) is Ok
            && normalized_endpoint(c.control_gateway_endpoints@[i]@)->Ok_0
            != p.config.endpoint@ implies list.contains(
        normalized_endpoint(c.control_gateway_endpoints@[i]@)->Ok_0,
    ) by {
        assert(given[i] == c.control_gateway_endpoints@[i]@);
        assert(names_gateway(given, normalized_endpoint(given[i])->Ok_0));
    }
    if list.contains(p.config.endpoint@) {
        assert(false);
    }
}

/// The images that are warmed are those that the configuration names; where it names none, one VM of
/// the default image is. It is warmed for the architecture that the configuration names, else for the
/// host's.
pub proof fn law_named_profiles_are_warmed(
    c: SandboxConfig,
    host: Option<Seq<char>>,
    profile: ProfileView,
    i: int,
)
    ensures
        c.warm_pool_profiles@.len() > 0 ==> profiles_to_warm(c, host).len()
            == c.warm_pool_profiles@.len(),
        0 <= i < c.warm_pool_profiles@.len() ==> {
            let warmed = profiles_to_warm(c, host)[i];
            &&& warmed.image == c.warm_pool_profiles@[i].image@
            &&& warmed.architecture == opt_view(c.warm_pool_profiles@[i].architecture)
            &&& warmed.min_inventory == c.warm_pool_profiles@[i].min_inventory
        },
        c.warm_pool_profiles@.len() == 0 ==> {
            &&& profiles_to_warm(c, host).len() == 1
            &&& profiles_to_warm(c, host)[0].image == c.default_image@
            &&& profiles_to_warm(c, host)[0].min_inventory == 1
            &&& c.default_architecture is None ==> profiles_to_warm(c, host)[0].architecture == host
        },
        profile.architecture is None && host is None ==> prewarm_architecture(profile, host).len()
            == 0,
        profile.architecture is None && host is Some ==> prewarm_architecture(profile, host)
            == host->Some_0,
        nonblank_label(profile.architecture) matches Some(label) ==> prewarm_architecture(
            profile,
            host,
        ) == label,
{
    reveal_strlit("");
    assert(""@.len() == 0);
}

/// Warm VMs are kept by endpoint, image and architecture. The architecture counts by its label, however
/// it was written.
pub proof fn law_warm_vms_are_told_apart(
    endpoint: Seq<char>,
    a: Seq<char>,
    b: Seq<char>,
    x: Seq<char>,
    y: Seq<char>,
)
    ensures
        a.len() == b.len() && pool_key(endpoint, a, x) == pool_key(endpoint, b, y) ==> a == b
            && crate::config::architecture_label(x) == crate::config::architecture_label(y),
        crate::config::architecture_label(x) == crate::config::architecture_label(y)
            ==> pool_key(endpoint, a, x) == pool_key(endpoint, a, y),
{
    reveal_strlit("::");
    let p = pool_key(endpoint, a, x);
    let q = pool_key(endpoint, b, y);
    if a.len() == b.len() && p == q {
        let n = (endpoint.len() + 2) as int;
        assert(a =~= p.subrange(n, n + a.len()));
        assert(b =~= q.subrange(n, n + a.len()));
        assert(crate::config::architecture_label(x) =~= p.skip(n + a.len() + 2));
        assert(crate::config::architecture_label(y) =~= q.skip(n + a.len() + 2));
    }
}

/// A session is known to its provider by its alias where it has one, else by its own name.
pub proof fn law_session_without_alias_keeps_its_name(
    aliases: Map<Seq<char>, Seq<char>>,
    id: Seq<char>,
)
    ensures
        aliases.contains_key(id) ==> provider_id(aliases, id) == aliases[id],
        !aliases.contains_key(id) ==> provider_id(aliases, id) == id,
{
}

/// A missing image is told with where to name it.
pub proof fn law_missing_image_is_told(c: SandboxConfig)
    ensures
        c.provider is Chevalier && trimmed(c.default_image@).len() == 0 ==> config_error(c) == Some(
            ErrorView::InvalidConfig(
                "default image is required for the Chevalier provider; set SandboxConfig.default_image or BRACKET_VM_IMAGE"@,
            ),
        ),
{
}

} // verus!
