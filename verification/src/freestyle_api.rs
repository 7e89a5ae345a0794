//! Freestyle: the bodies of its requests, and the commands that run in its guests.

use crate::config::ResourceLimits;
use crate::error::ErrorView;
use crate::error::Result;
use crate::error::SandboxError;
use crate::exec::ExecOptions;
use crate::exec::event_models;
use crate::exec::EventModel;
use crate::exec::ExecEvent;
use crate::exec::ExecEventView;
use crate::freestyle::are_fitting_keys;
use crate::freestyle::entry_fits;
use crate::freestyle::first_keys;
use crate::freestyle::is_slug;
use crate::freestyle::metadata_within_limits;
use crate::freestyle::session_slug;
use crate::freestyle::session_slug_from;
use crate::freestyle::FreestyleControl;
use crate::freestyle::FreestyleVm;
use crate::freestyle::FreestyleVmAction;
use crate::freestyle::EXEC_AWAIT_DEFAULT_MS;
use crate::freestyle::EXEC_AWAIT_MAX_MS;
use crate::freestyle::MANAGED_BY_VALUE;
use crate::freestyle::META_MANAGED_BY;
use crate::freestyle::META_NAME;
use crate::freestyle::META_SESSION_ID;
use crate::inventory::info_views;
use crate::inventory::SessionInfo;
use crate::inventory::SessionInfoView;
use crate::json::json_string_field;
use crate::json::string_field;
use crate::numeral::decimal;
use crate::shell::detached_command;
use crate::shell::parent_path;
use crate::shell::path_parent;
use crate::shell::quoted;
use crate::shell::shell_command;
use crate::table::looked_up;
use crate::table::StringMap;
use crate::text::same;
use crate::text::starts_with;
use crate::text::trim;
use crate::text::trimmed;
use crate::text::views;
use crate::vm::opt_view;
use crate::wire::base64_encode;
use crate::wire::base64_text;
use crate::wire::is_simple_uuid;
use crate::wire::is_uuid;
use crate::wire::new_id;
use vstd::prelude::*;
use vstd::utf8::encode_utf8;

verus! {

// ---------------------------------------------------------------------------
// Network rules
// ---------------------------------------------------------------------------
/// One end of a firewall rule.
#[derive(Debug)]
pub struct FirewallEndpoint {
    pub public: Option<bool>,
    pub cidr: Option<String>,
}

#[derive(Debug)]
pub struct FirewallRuleSpec {
    pub action: &'static str,
    pub source: FirewallEndpoint,
    pub destination: FirewallEndpoint,
}

/// The firewall of a VM: what its rules do not allow is closed.
#[derive(Debug)]
pub struct FirewallSpec {
    pub rules: Vec<FirewallRuleSpec>,
}

impl FirewallSpec {
    /// Without a list of hosts everything may be reached; with one, nothing may but through the
    /// TLS rules for the named hosts.
    pub fn for_egress(allowlist: &Option<Vec<String>>) -> (f: FirewallSpec)
        ensures
            match allowlist {
                Some(_) => f.rules@.len() == 0,
                None => {
                    &&& f.rules@.len() == 1
                    &&& f.rules@[0].action@ == "allow"@
                    &&& f.rules@[0].source.public is None
                    &&& f.rules@[0].source.cidr is None
                    &&& f.rules@[0].destination.public == Some(true)
                    &&& f.rules@[0].destination.cidr is None
                },
            },
    {
        let mut rules: Vec<FirewallRuleSpec> = Vec::new();
        if allowlist.is_none() {
            rules.push(
                FirewallRuleSpec {
                    action: "allow",
                    source: FirewallEndpoint { public: None, cidr: None },
                    destination: FirewallEndpoint { public: Some(true), cidr: None },
                },
            );
        }
        FirewallSpec { rules }
    }
}

/// One end of a TLS rule.
#[derive(Debug)]
pub struct TlsEndpoint {
    pub public: Option<bool>,
    pub vm_id: Option<String>,
    pub port: Option<u16>,
}

impl TlsEndpoint {
    /// No end in particular.
    pub fn any() -> (e: TlsEndpoint)
        ensures
            e.public is None,
            e.vm_id is None,
            e.port is None,
    {
        TlsEndpoint { public: None, vm_id: None, port: None }
    }

    /// The public network.
    pub fn public() -> (e: TlsEndpoint)
        ensures
            e.public == Some(true),
            e.vm_id is None,
            e.port is None,
    {
        TlsEndpoint { public: Some(true), vm_id: None, port: None }
    }

    /// A port of a VM.
    pub fn vm_port(vm_id: &str, port: u16) -> (e: TlsEndpoint)
        ensures
            e.public is None,
            opt_view(e.vm_id) == Some(vm_id@),
            e.port == Some(port),
    {
        TlsEndpoint { public: None, vm_id: Some(vm_id.to_owned()), port: Some(port) }
    }
}

/// A TLS rule that is to be made.
#[derive(Debug)]
pub struct CreateTlsRuleBody {
    pub action: &'static str,
    pub domain: String,
    pub source: TlsEndpoint,
    pub destination: TlsEndpoint,
    pub protocol: &'static str,
    /// The id of the configuration by which callers are checked.
    pub forward_auth: Option<String>,
}

/// The TLS rules of a VM.
#[derive(Debug)]
pub struct TlsSpec {
    pub rules: Vec<CreateTlsRuleBody>,
}

/// The rule lets a VM reach a host.
pub open spec fn is_egress_rule(rule: CreateTlsRuleBody, domain: Seq<char>) -> bool {
    &&& rule.action@ == "allow"@
    &&& rule.domain@ == domain
    &&& rule.source.public is None
    &&& rule.source.vm_id is None
    &&& rule.source.port is None
    &&& rule.destination.public == Some(true)
    &&& rule.destination.vm_id is None
    &&& rule.destination.port is None
    &&& rule.protocol@ == "tcp"@
    &&& rule.forward_auth is None
}

/// The hosts of a list; names that start with two underscores are marks, not hosts.
pub open spec fn named_hosts(list: Seq<Seq<char>>) -> Seq<Seq<char>>
    decreases list.len(),
{
    if list.len() == 0 {
        Seq::empty()
    } else if "__"@.is_prefix_of(list.last()) {
        named_hosts(list.drop_last())
    } else {
        named_hosts(list.drop_last()).push(list.last())
    }
}

/// The rules are those for the hosts, in order.
pub open spec fn are_egress_rules(rules: Seq<CreateTlsRuleBody>, hosts: Seq<Seq<char>>) -> bool {
    rules.len() == hosts.len() && forall|i: int|
        0 <= i < hosts.len() ==> is_egress_rule(#[trigger] rules[i], hosts[i])
}

impl TlsSpec {
    /// The rules that let a VM reach the hosts of a list; none without a list.
    pub fn for_egress_domains(allowlist: &Option<Vec<String>>) -> (tls: Option<TlsSpec>)
        ensures
            match allowlist {
                Some(list) => tls is Some && are_egress_rules(
                    tls->Some_0.rules@,
                    named_hosts(views(list@)),
                ),
                None => tls is None,
            },
    {
        let list = match allowlist {
            Some(list) => list,
            None => return None,
        };
        let ghost all = views(list@);
        let mut rules: Vec<CreateTlsRuleBody> = Vec::new();
        let mut i: usize = 0;
        assert(all.take(0).len() == 0);
        while i < list.len()
            invariant
                i <= list@.len(),
                all == views(list@),
                are_egress_rules(rules@, named_hosts(all.take(i as int))),
            decreases list@.len() - i,
        {
            let ghost before = rules@;
            let ghost hosts = named_hosts(all.take(i as int));
            assert(all.take(i + 1).drop_last() =~= all.take(i as int));
            assert(all.take(i + 1).last() == list@[i as int]@);
            if !starts_with(&list[i], "__") {
                rules.push(
                    CreateTlsRuleBody {
                        action: "allow",
                        domain: list[i].clone(),
                        source: TlsEndpoint::any(),
                        destination: TlsEndpoint::public(),
                        protocol: "tcp",
                        forward_auth: None,
                    },
                );
                proof {
                    let more = hosts.push(list@[i as int]@);
                    assert forall|k: int| 0 <= k < more.len() implies is_egress_rule(
                        #[trigger] rules@[k],
                        more[k],
                    ) by {
                        if k < hosts.len() {
                            assert(is_egress_rule(before[k], hosts[k]));
                        }
                    }
                }
            }
            i += 1;
        }
        assert(all.take(all.len() as int) =~= all);
        Some(TlsSpec { rules })
    }
}

/// What a list of hosts opens is what it names: each of its hosts, and nothing else.
pub proof fn law_allowlist_opens_named_hosts_only(list: Seq<Seq<char>>, host: Seq<char>)
    ensures
        named_hosts(list).contains(host) <==> list.contains(host) && !"__"@.is_prefix_of(host),
    decreases list.len(),
{
    if list.len() > 0 {
        let head = list.drop_last();
        law_allowlist_opens_named_hosts_only(head, host);
        assert(list =~= head.push(list.last()));
        assert(list.contains(host) <==> head.contains(host) || list.last() == host) by {
            if head.contains(host) {
                let k = choose|k: int| 0 <= k < head.len() && head[k] == host;
                assert(list[k] == host);
            }
            if list.last() == host {
                assert(list[list.len() - 1] == host);
            }
        }
        let hosts = named_hosts(head);
        assert(hosts.push(list.last()).contains(host) <==> hosts.contains(host) || list.last()
            == host) by {
            if hosts.contains(host) {
                let k = choose|k: int| 0 <= k < hosts.len() && hosts[k] == host;
                assert(hosts.push(list.last())[k] == host);
            }
            if list.last() == host {
                assert(hosts.push(list.last())[hosts.len() as int] == host);
            }
        }
    }
}

/// A TLS rule that exists.
#[derive(Debug)]
pub struct TlsRule {
    pub domain: String,
    pub destination: TlsEndpoint,
}

/// The rule serves a port of a VM under a domain.
pub open spec fn serves(rule: TlsRule, domain: Seq<char>, vm_id: Seq<char>, port: u16) -> bool {
    rule.domain@ == domain && opt_view(rule.destination.vm_id) == Some(vm_id)
        && rule.destination.port == Some(port)
}

/// Whether a port of a VM is served under a domain.
pub fn preview_exists(rules: &Vec<TlsRule>, domain: &str, vm_id: &str, port: u16) -> (yes: bool)
    ensures
        yes == exists|i: int|
            0 <= i < rules@.len() && serves(#[trigger] rules@[i], domain@, vm_id@, port),
{
    let mut i: usize = 0;
    while i < rules.len()
        invariant
            i <= rules@.len(),
            forall|j: int| 0 <= j < i ==> !serves(#[trigger] rules@[j], domain@, vm_id@, port),
        decreases rules@.len() - i,
    {
        let to_vm: bool = match &rules[i].destination.vm_id {
            Some(id) => same(id, vm_id),
            None => false,
        };
        let to_port: bool = match rules[i].destination.port {
            Some(p) => p == port,
            None => false,
        };
        if same(&rules[i].domain, domain) && to_vm && to_port {
            assert(serves(rules@[i as int], domain@, vm_id@, port));
            return true;
        }
        i += 1;
    }
    false
}

/// The rule that serves a port of a VM under a domain.
pub fn preview_rule(domain: &str, vm_id: &str, port: u16, forward_auth_id: &Option<String>) -> (rule:
    CreateTlsRuleBody)
    ensures
        rule.action@ == "allow"@,
        rule.domain@ == domain@,
        rule.source.public == Some(true),
        rule.source.vm_id is None,
        rule.source.port is None,
        rule.destination.public is None,
        opt_view(rule.destination.vm_id) == Some(vm_id@),
        rule.destination.port == Some(port),
        rule.protocol@ == "http"@,
        opt_view(rule.forward_auth) == opt_view(*forward_auth_id),
        forall|listed: TlsRule|
            listed.domain@ == rule.domain@ && listed.destination == rule.destination
                ==> #[trigger] serves(listed, domain@, vm_id@, port),
{
    CreateTlsRuleBody {
        action: "allow",
        domain: domain.to_owned(),
        source: TlsEndpoint::public(),
        destination: TlsEndpoint::vm_port(vm_id, port),
        protocol: "http",
        forward_auth: forward_auth_id.clone(),
    }
}

/// The URL under which a domain is served.
pub fn preview_url(domain: &str) -> (url: String)
    ensures
        url@ == "https://"@ + domain@,
{
    "https://".to_owned().concat(domain)
}

// ---------------------------------------------------------------------------
// Creating
// ---------------------------------------------------------------------------
/// The order to create a VM.
#[derive(Debug)]
pub struct CreateVmBody {
    pub snapshot_id: Option<String>,
    pub slug: Option<String>,
    pub reassign_slug: bool,
    pub display_name: Option<String>,
    pub metadata: StringMap,
    pub firewall: FirewallSpec,
    pub tls: Option<TlsSpec>,
    pub idle_timeout_seconds: Option<i64>,
    pub auto_delete_seconds: Option<i64>,
    pub automatic_restart: Option<bool>,
}

/// The snapshot to boot from: the one that is asked for where it is not blank, else the
/// configured one where there is one.
pub open spec fn boot_snapshot(image: Option<Seq<char>>, configured: Seq<char>) -> Option<Seq<char>> {
    if image is Some && trimmed(image->Some_0).len() > 0 {
        Some(trimmed(image->Some_0))
    } else if configured.len() > 0 {
        Some(configured)
    } else {
        None
    }
}

/// The metadata of a VM that the library creates, before the limits of the platform.
pub open spec fn stamped(metadata: Map<Seq<char>, Seq<char>>) -> Map<Seq<char>, Seq<char>> {
    metadata.insert(META_MANAGED_BY@, MANAGED_BY_VALUE@)
}

/// Every VM that the library creates carries its mark, by which the library lists its sessions, and
/// all of its metadata that fits, as long as no more than 64 entries fit.
pub proof fn law_created_vm_is_marked(
    metadata: Map<Seq<char>, Seq<char>>,
    keys: Seq<Seq<char>>,
    kept: Map<Seq<char>, Seq<char>>,
)
    requires
        are_fitting_keys(keys, stamped(metadata)),
        keys.len() <= 64,
        kept == stamped(metadata).restrict(first_keys(keys).to_set()),
    ensures
        looked_up(kept, META_MANAGED_BY@) == Some(MANAGED_BY_VALUE@),
        forall|key: Seq<char>| #[trigger]
            entry_fits(stamped(metadata), key) ==> looked_up(kept, key) == looked_up(
                stamped(metadata),
                key,
            ),
{
    let all = stamped(metadata);
    assert forall|key: Seq<char>| #[trigger] entry_fits(all, key) implies looked_up(kept, key)
        == looked_up(all, key) by {
        assert(keys.contains(key));
        assert(first_keys(keys).to_set().contains(key));
    }
    reveal_strlit("chevalier.managed_by");
    reveal_strlit("chevalier-sandbox");
    vstd::utf8::is_ascii_chars_encode_utf8(META_MANAGED_BY@);
    vstd::utf8::is_ascii_chars_encode_utf8(MANAGED_BY_VALUE@);
    assert(entry_fits(all, META_MANAGED_BY@));
}

/// Seconds as the API takes them.
pub open spec fn api_seconds(secs: Option<u64>) -> Option<i64> {
    match secs {
        Some(s) => Some(s as i64),
        None => None,
    }
}

fn seconds(secs: Option<u64>) -> (r: Option<i64>)
    ensures
        r == api_seconds(secs),
{
    match secs {
        Some(s) => Some(s as i64),
        None => None,
    }
}

/// The rules of the firewall for a list of hosts.
pub open spec fn firewall_for(closed: bool, f: FirewallSpec) -> bool {
    if closed {
        f.rules@.len() == 0
    } else {
        &&& f.rules@.len() == 1
        &&& f.rules@[0].action@ == "allow"@
        &&& f.rules@[0].source.public is None
        &&& f.rules@[0].source.cidr is None
        &&& f.rules@[0].destination.public == Some(true)
        &&& f.rules@[0].destination.cidr is None
    }
}

/// The hosts that a VM may reach: those of its session, else those of the settings. Without either
/// it may reach any; with either only these, each through a TLS rule.
pub open spec fn allowed_hosts(
    session: Option<Vec<String>>,
    settings: Option<Vec<String>>,
) -> Option<Vec<String>> {
    if session is Some {
        session
    } else {
        settings
    }
}

impl FreestyleControl {
    /// The order that creates a VM for a session.
    pub fn create_body(
        &self,
        image: Option<String>,
        metadata: StringMap,
        egress_allowlist: Option<Vec<String>>,
    ) -> (body: CreateVmBody)
        ensures
            opt_view(body.snapshot_id) == boot_snapshot(
                opt_view(image),
                self.settings().snapshot_id@,
            ),
            body.reassign_slug == body.slug is Some,
            match looked_up(stamped(metadata@), "chevalier.requested_session_id"@) {
                Some(id) => body.slug is Some && is_slug(body.slug->Some_0@) && exists|
                    random_id: Seq<char>,
                | #[trigger]
                    is_simple_uuid(random_id) && body.slug->Some_0@ == session_slug_from(
                        id,
                        random_id,
                    ),
                None => body.slug is None,
            },
            opt_view(body.display_name) == looked_up(stamped(metadata@), META_NAME@),
            exists|keys: Seq<Seq<char>>|
                #![trigger are_fitting_keys(keys, stamped(metadata@))]
                are_fitting_keys(keys, stamped(metadata@)) && body.metadata@ == stamped(
                    metadata@,
                ).restrict(first_keys(keys).to_set()),
            firewall_for(
                allowed_hosts(egress_allowlist, self.settings().egress_allowlist) is Some,
                body.firewall,
            ),
            match allowed_hosts(egress_allowlist, self.settings().egress_allowlist) {
                Some(list) => body.tls is Some && are_egress_rules(
                    body.tls->Some_0.rules@,
                    named_hosts(views(list@)),
                ),
                None => body.tls is None,
            },
            body.idle_timeout_seconds == api_seconds(self.settings().idle_timeout_secs),
            body.auto_delete_seconds == api_seconds(self.settings().auto_delete_secs),
            body.automatic_restart == Some(true),
    {
        let cfg = self.config();
        let requested = match image {
            Some(value) => {
                let value = trim(&value);
                if value.as_str().is_empty() {
                    None
                } else {
                    Some(value)
                }
            },
            None => None,
        };
        let snapshot_id = match requested {
            Some(value) => Some(value),
            None => if cfg.snapshot_id.as_str().is_empty() {
                None
            } else {
                Some(cfg.snapshot_id.clone())
            },
        };
        let mut metadata = metadata;
        metadata.insert(META_MANAGED_BY.to_owned(), MANAGED_BY_VALUE.to_owned());
        let slug = match metadata.get("chevalier.requested_session_id") {
            Some(id) => Some(session_slug(id)),
            None => None,
        };
        let display_name = match metadata.get(META_NAME) {
            Some(name) => Some(name.clone()),
            None => None,
        };
        let hosts: &Option<Vec<String>> = if egress_allowlist.is_some() {
            &egress_allowlist
        } else {
            &cfg.egress_allowlist
        };
        CreateVmBody {
            reassign_slug: slug.is_some(),
            snapshot_id,
            slug,
            display_name,
            metadata: metadata_within_limits(&metadata),
            firewall: FirewallSpec::for_egress(hosts),
            tls: TlsSpec::for_egress_domains(hosts),
            idle_timeout_seconds: seconds(cfg.idle_timeout_secs),
            auto_delete_seconds: seconds(cfg.auto_delete_secs),
            automatic_restart: Some(true),
        }
    }
}

/// The name of the checkpoint from which a fork boots.
pub open spec fn fork_checkpoint_name(child_name: Option<Seq<char>>, random_id: Seq<char>) -> Seq<
    char,
> {
    "chevalier-fork-"@ + (match crate::session::nonblank(child_name) {
        Some(name) => name,
        None => random_id,
    })
}

/// The name of the checkpoint from which a fork boots, a random id being given.
pub fn fork_checkpoint_with(child_name: &Option<String>, random_id: &str) -> (name: String)
    ensures
        name@ == fork_checkpoint_name(opt_view(*child_name), random_id@),
{
    match child_name {
        Some(n) => if trim(n).as_str().is_empty() {
            "chevalier-fork-".to_owned().concat(random_id)
        } else {
            "chevalier-fork-".to_owned().concat(n)
        },
        None => "chevalier-fork-".to_owned().concat(random_id),
    }
}

/// The name of the checkpoint from which a fork boots: that of the child, else a random one.
pub fn fork_checkpoint(child_name: &Option<String>) -> (name: String)
    ensures
        exists|random_id: Seq<char>|
            #![trigger is_uuid(random_id)]
            is_uuid(random_id) && name@ == fork_checkpoint_name(opt_view(*child_name), random_id),
{
    let random_id = new_id();
    assert(is_uuid(random_id@));
    fork_checkpoint_with(child_name, &random_id)
}

/// The metadata of a fork at Freestyle.
pub fn fork_metadata(
    given: StringMap,
    child_session_id: &str,
    parent_session_id: &str,
    checkpoint_id: &str,
) -> (metadata: StringMap)
    ensures
        metadata@ == given@.insert(META_SESSION_ID@, child_session_id@).insert(
            "chevalier.requested_session_id"@,
            child_session_id@,
        ).insert("chevalier.parent_session_id"@, parent_session_id@).insert(
            "chevalier.fork_id"@,
            checkpoint_id@,
        ),
{
    let mut metadata = given;
    metadata.insert(META_SESSION_ID.to_owned(), child_session_id.to_owned());
    metadata.insert("chevalier.requested_session_id".to_owned(), child_session_id.to_owned());
    metadata.insert("chevalier.parent_session_id".to_owned(), parent_session_id.to_owned());
    metadata.insert("chevalier.fork_id".to_owned(), checkpoint_id.to_owned());
    metadata
}

/// The order to resize a VM.
#[derive(Clone, Copy, Debug, PartialEq, Eq, Structural)]
pub struct ResizeBody {
    pub cpu: Option<u32>,
    pub memory: Option<u32>,
    pub storage: Option<u32>,
}

/// A size where it is one.
pub open spec fn positive(n: i32) -> Option<u32> {
    if n > 0 {
        Some(n as u32)
    } else {
        None
    }
}

/// Gigabytes in megabytes, where they fit.
pub open spec fn in_megabytes(gb: Option<u32>) -> Option<u32> {
    match gb {
        Some(n) => if n * 1024 <= u32::MAX {
            Some((n * 1024) as u32)
        } else {
            None
        },
        None => None,
    }
}

fn positive_size(n: i32) -> (r: Option<u32>)
    ensures
        r == positive(n),
{
    if n > 0 {
        Some(n as u32)
    } else {
        None
    }
}

/// The order that gives a VM its resources; none where nothing is asked for.
pub fn resize_body(resources: ResourceLimits) -> (body: Option<ResizeBody>)
    ensures
        ({
            let whole = ResizeBody {
                cpu: positive(resources.vcpu),
                memory: positive(resources.memory_mb),
                storage: in_megabytes(positive(resources.disk_gb)),
            };
            match body {
                Some(b) => b == whole && (whole.cpu is Some || whole.memory is Some
                    || whole.storage is Some),
                None => whole.cpu is None && whole.memory is None && whole.storage is None,
            }
        }),
{
    let storage: Option<u32> = match positive_size(resources.disk_gb) {
        Some(gb) => gb.checked_mul(1024),
        None => None,
    };
    let body = ResizeBody {
        cpu: positive_size(resources.vcpu),
        memory: positive_size(resources.memory_mb),
        storage,
    };
    if body.cpu.is_none() && body.memory.is_none() && body.storage.is_none() {
        None
    } else {
        Some(body)
    }
}

// ---------------------------------------------------------------------------
// Listing
// ---------------------------------------------------------------------------
/// The session of a VM at Freestyle, where it has one.
pub open spec fn freestyle_session(vm: FreestyleVm) -> Option<SessionInfoView> {
    match looked_up(vm.metadata@, META_SESSION_ID@) {
        None => None,
        Some(session_id) => Some(
            SessionInfoView {
                session_id,
                vm_id: vm.id@,
                name: match vm.display_name {
                    Some(n) => n@,
                    None => Seq::empty(),
                },
                state: vm.state.shown(),
                parent_session_id: looked_up(vm.metadata@, "chevalier.parent_session_id"@),
                fork_id: looked_up(vm.metadata@, "chevalier.fork_id"@),
            },
        ),
    }
}

/// The sessions of a page of VMs, in order.
pub open spec fn page_sessions(vms: Seq<FreestyleVm>) -> Seq<SessionInfoView>
    decreases vms.len(),
{
    if vms.len() == 0 {
        Seq::empty()
    } else {
        match freestyle_session(vms.last()) {
            Some(info) => page_sessions(vms.drop_last()).push(info),
            None => page_sessions(vms.drop_last()),
        }
    }
}

fn cloned(s: Option<&String>) -> (r: Option<String>)
    ensures
        match s {
            Some(v) => opt_view(r) == Some(v@),
            None => r is None,
        },
{
    match s {
        Some(v) => Some(v.clone()),
        None => None,
    }
}

/// The sessions of a page of VMs.
pub fn sessions_of_page(vms: &Vec<FreestyleVm>) -> (list: Vec<SessionInfo>)
    ensures
        info_views(list@) == page_sessions(vms@),
{
    let mut list: Vec<SessionInfo> = Vec::new();
    let mut i: usize = 0;
    assert(info_views(list@) =~= page_sessions(vms@.take(0)));
    while i < vms.len()
        invariant
            i <= vms@.len(),
            info_views(list@) == page_sessions(vms@.take(i as int)),
        decreases vms@.len() - i,
    {
        let ghost before = info_views(list@);
        assert(vms@.take(i + 1).drop_last() =~= vms@.take(i as int));
        assert(vms@.take(i + 1).last() == vms@[i as int]);
        match vms[i].metadata.get(META_SESSION_ID) {
            Some(id) => {
                let info = SessionInfo {
                    session_id: id.clone(),
                    vm_id: vms[i].id.clone(),
                    name: match &vms[i].display_name {
                        Some(n) => n.clone(),
                        None => String::new(),
                    },
                    state: vms[i].state.as_proto_state(),
                    parent_session_id: cloned(
                        vms[i].metadata.get("chevalier.parent_session_id"),
                    ),
                    fork_id: cloned(vms[i].metadata.get("chevalier.fork_id")),
                };
                list.push(info);
                assert(info_views(list@) =~= before.push(
                    freestyle_session(vms@[i as int])->Some_0,
                ));
            },
            None => {},
        }
        i += 1;
    }
    assert(vms@.take(vms@.len() as int) =~= vms@);
    list
}

/// The offset of the next page; none after the last one.
pub fn next_page(offset: usize, count: usize, total_count: usize) -> (next: Option<usize>)
    requires
        offset + count <= usize::MAX,
    ensures
        match next {
            Some(n) => n == offset + count && count > 0 && n < total_count,
            None => count == 0 || offset + count >= total_count,
        },
{
    let reached: usize = offset + count;
    if count == 0 || reached >= total_count {
        None
    } else {
        Some(reached)
    }
}

/// The position of the first VM that belongs to a session.
pub fn find_by_session_id(vms: &Vec<FreestyleVm>, session_id: &str) -> (at: Option<usize>)
    ensures
        match at {
            Some(i) => i < vms@.len() && looked_up(vms@[i as int].metadata@, META_SESSION_ID@)
                == Some(session_id@) && forall|j: int|
                0 <= j < i ==> looked_up((#[trigger] vms@[j]).metadata@, META_SESSION_ID@) != Some(
                    session_id@,
                ),
            None => forall|j: int|
                0 <= j < vms@.len() ==> looked_up((#[trigger] vms@[j]).metadata@, META_SESSION_ID@)
                    != Some(session_id@),
        },
{
    let mut i: usize = 0;
    while i < vms.len()
        invariant
            i <= vms@.len(),
            forall|j: int|
                0 <= j < i ==> looked_up((#[trigger] vms@[j]).metadata@, META_SESSION_ID@) != Some(
                    session_id@,
                ),
        decreases vms@.len() - i,
    {
        match vms[i].metadata.get(META_SESSION_ID) {
            Some(id) => if same(id, session_id) {
                return Some(i);
            },
            None => {},
        }
        i += 1;
    }
    None
}

// ---------------------------------------------------------------------------
// Commands
// ---------------------------------------------------------------------------
/// The order to run a command and wait for its end.
#[derive(Debug)]
pub struct ExecAwaitBody {
    pub command: String,
    pub env: Option<StringMap>,
    pub timeout_ms: Option<u64>,
    pub stdin: Option<String>,
    pub linux_user: Option<String>,
}

/// A time held to what Freestyle allows.
pub open spec fn allowed_millis(ms: int) -> int {
    if ms < 1 {
        1
    } else if ms > EXEC_AWAIT_MAX_MS {
        EXEC_AWAIT_MAX_MS as int
    } else {
        ms
    }
}

/// The time that a command may take.
pub open spec fn await_millis(timeout_secs: Option<i32>) -> int {
    allowed_millis(
        match timeout_secs {
            Some(s) => if s >= 0 {
                s * 1000
            } else {
                EXEC_AWAIT_DEFAULT_MS as int
            },
            None => EXEC_AWAIT_DEFAULT_MS as int,
        },
    )
}

/// No command is given less than a millisecond or more than five minutes.
pub proof fn law_commands_have_five_minutes_at_most(timeout_secs: Option<i32>)
    ensures
        1 <= await_millis(timeout_secs) <= 5 * 60 * 1000,
{
}

fn hold_millis(ms: u64) -> (r: u64)
    ensures
        r == allowed_millis(ms as int),
{
    if ms < 1 {
        1
    } else if ms > EXEC_AWAIT_MAX_MS {
        EXEC_AWAIT_MAX_MS
    } else {
        ms
    }
}

/// The time that a command may take.
pub fn exec_timeout_ms(timeout_secs: Option<i32>) -> (ms: u64)
    ensures
        ms == await_millis(timeout_secs),
{
    let asked: u64 = match timeout_secs {
        Some(s) => if s >= 0 {
            s as u64 * 1000
        } else {
            EXEC_AWAIT_DEFAULT_MS
        },
        None => EXEC_AWAIT_DEFAULT_MS,
    };
    hold_millis(asked)
}

/// The command line of a command: through a login shell, in the background where it is detached.
pub open spec fn wrapped_command(shell: Seq<char>, command: Seq<char>, detach: bool) -> Seq<char> {
    if detach {
        "nohup "@ + quoted(shell) + " -lc "@ + quoted(command)
            + " >/dev/null 2>&1 </dev/null & echo $!"@
    } else {
        quoted(shell) + " -lc "@ + quoted(command)
    }
}

/// The command line of a command.
pub fn wrap_command(shell: &Option<String>, command: &str, detach: bool) -> (r: String)
    ensures
        r@ == wrapped_command(
            match shell {
                Some(s) => s@,
                None => "/bin/sh"@,
            },
            command@,
            detach,
        ),
{
    let shell: &str = match shell {
        Some(s) => s.as_str(),
        None => "/bin/sh",
    };
    if detach {
        detached_command(shell, command)
    } else {
        shell_command(shell, command)
    }
}

/// Bytes in Base64.
pub open spec fn encoded_stdin(stdin: Option<Seq<u8>>) -> Option<Seq<char>> {
    match stdin {
        Some(bytes) => Some(base64_text(bytes)),
        None => None,
    }
}

/// The bytes of an optional input.
pub open spec fn opt_bytes(stdin: Option<Vec<u8>>) -> Option<Seq<u8>> {
    match stdin {
        Some(bytes) => Some(bytes@),
        None => None,
    }
}

impl FreestyleControl {
    /// The order to run a command and wait for its end. It runs as the given user, else as the
    /// configured one.
    pub fn exec_await_body(
        &self,
        command: &str,
        env: Option<StringMap>,
        timeout_ms: Option<u64>,
        stdin: Option<Vec<u8>>,
        linux_user: Option<&str>,
    ) -> (body: ExecAwaitBody)
        ensures
            body.command@ == command@,
            body.env == env,
            body.timeout_ms == (match timeout_ms {
                Some(ms) => Some(allowed_millis(ms as int) as u64),
                None => None,
            }),
            opt_view(body.stdin) == encoded_stdin(opt_bytes(stdin)),
            opt_view(body.linux_user) == (match linux_user {
                Some(u) => Some(u@),
                None => opt_view(self.settings().linux_user),
            }),
    {
        ExecAwaitBody {
            command: command.to_owned(),
            env,
            timeout_ms: match timeout_ms {
                Some(ms) => Some(hold_millis(ms)),
                None => None,
            },
            stdin: match stdin {
                Some(bytes) => Some(base64_encode(bytes.as_slice())),
                None => None,
            },
            linux_user: match linux_user {
                Some(u) => Some(u.to_owned()),
                None => self.config().linux_user.clone(),
            },
        }
    }
}

impl FreestyleControl {
    /// The order to run a command as it is asked for: by its shell, with its environment where it has
    /// one, and within its time.
    pub fn exec_body(&self, command: &str, opts: ExecOptions) -> (body: ExecAwaitBody)
        ensures
            body.command@ == wrapped_command(
                match opts.shell {
                    Some(s) => s@,
                    None => "/bin/sh"@,
                },
                command@,
                opts.detach,
            ),
            body.env is Some <==> opts.env.listed().len() > 0,
            body.env is Some ==> body.env->Some_0 == opts.env,
            body.timeout_ms == Some(await_millis(opts.timeout_secs) as u64),
            body.stdin is None,
            opt_view(body.linux_user) == opt_view(self.settings().linux_user),
    {
        let env = if opts.env.len() > 0 {
            Some(opts.env)
        } else {
            None
        };
        let wrapped = wrap_command(&opts.shell, command, opts.detach);
        self.exec_await_body(&wrapped, env, Some(exec_timeout_ms(opts.timeout_secs)), None, None)
    }
}

/// What a command gave, once it has ended.
#[derive(Debug)]
pub struct ExecAwaitResponse {
    pub status_code: Option<i32>,
    pub stdout: Option<String>,
    pub stderr: Option<String>,
}

/// The bytes that a command wrote.
pub open spec fn written(output: Option<String>) -> Seq<u8> {
    match output {
        Some(text) => encode_utf8(text@),
        None => Seq::empty(),
    }
}

/// The events of a command that has ended: what it wrote, and its exit; without an exit code it
/// ran out of time.
pub open spec fn await_events(r: ExecAwaitResponse) -> Seq<EventModel> {
    let out: Seq<EventModel> = if written(r.stdout).len() > 0 {
        seq![Ok(ExecEventView::Stdout(written(r.stdout)))]
    } else {
        Seq::empty()
    };
    let err: Seq<EventModel> = if written(r.stderr).len() > 0 {
        seq![Ok(ExecEventView::Stderr(written(r.stderr)))]
    } else {
        Seq::empty()
    };
    let end: Seq<EventModel> = seq![
        match r.status_code {
            Some(code) => Ok(ExecEventView::Exit(code)),
            None => Ok(ExecEventView::Timeout),
        },
    ];
    out + err + end
}

/// A command that has ended is told of by what it wrote, at most once for each of its two outputs,
/// and last by its exit or its timeout.
pub proof fn law_ended_command_is_told_of_in_order(r: ExecAwaitResponse)
    ensures
        ({
            let events = await_events(r);
            &&& 1 <= events.len() <= 3
            &&& events.last() matches Ok(end) && (end is Exit || end is Timeout)
            &&& forall|i: int|
                0 <= i < events.len() - 1 ==> (#[trigger] events[i] matches Ok(e) && (e is Stdout
                    || e is Stderr))
            &&& events.len() == 3 ==> (events[0] matches Ok(e) && e is Stdout) && (
            events[1] matches Ok(e) && e is Stderr)
        }),
{
}

fn written_bytes(output: &Option<String>) -> (bytes: Vec<u8>)
    ensures
        bytes@ == written(*output),
{
    match output {
        Some(text) => text.as_str().as_bytes_vec(),
        None => Vec::new(),
    }
}

/// The events of a command that has ended.
pub fn exec_events(response: &ExecAwaitResponse) -> (events: Vec<Result<ExecEvent>>)
    ensures
        event_models(events@) == await_events(*response),
{
    let mut events: Vec<Result<ExecEvent>> = Vec::new();
    let stdout = written_bytes(&response.stdout);
    if stdout.len() > 0 {
        events.push(Ok(ExecEvent::Stdout(stdout)));
    }
    let stderr = written_bytes(&response.stderr);
    if stderr.len() > 0 {
        events.push(Ok(ExecEvent::Stderr(stderr)));
    }
    match response.status_code {
        Some(code) => events.push(Ok(ExecEvent::Exit(code))),
        None => events.push(Ok(ExecEvent::Timeout)),
    }
    assert(event_models(events@) =~= await_events(*response));
    events
}

// ---------------------------------------------------------------------------
// Answers
// ---------------------------------------------------------------------------
/// What `http::StatusCode` shows for a status; none where the number is not a status.
pub uninterp spec fn http_status_text(status: u16) -> Option<Seq<char>>;

/// Calls `reqwest::StatusCode::from_u16` and shows the result, which depends on the number alone.
/// Every number of three digits is a status, and what is shown starts with that number.
#[verifier::external_body]
pub(crate) fn show_http_status(status: u16) -> (text: Option<String>)
    ensures
        opt_view(text) == http_status_text(status),
        text is Some <==> 100 <= status < 1000,
        text is Some ==> decimal(status as nat).is_prefix_of(text->Some_0@),
{
    reqwest::StatusCode::from_u16(status).ok().map(|s| s.to_string())
}

/// The status says that the request succeeded.
pub open spec fn is_success(status: u16) -> bool {
    200 <= status < 300
}

/// The status of an answer about something that does not exist.
pub const NOT_FOUND: u16 = 404;

/// The status of an answer to a request that asks for what cannot be.
pub const BAD_REQUEST: u16 = 400;

/// The error that an answer stands for. Freestyle gives a code with every error, and the code is
/// kept in the message.
pub open spec fn answer_error(status: u16, code: Option<Seq<char>>, body: Seq<char>) -> ErrorView {
    if status == NOT_FOUND {
        ErrorView::SessionNotFound("Freestyle: "@ + body)
    } else {
        ErrorView::InvalidResponse(
            "Freestyle request failed with "@ + http_status_text(status)->Some_0 + (match code {
                Some(code) => " ["@ + code + "]"@,
                None => ""@,
            }) + ": "@ + body,
        )
    }
}

/// The error that an answer stands for, its code being given.
pub fn freestyle_error_with(status: u16, code: &Option<String>, body: &str) -> (e: SandboxError)
    requires
        100 <= status < 1000,
    ensures
        e@ == answer_error(status, opt_view(*code), body@),
        status != NOT_FOUND ==> http_status_text(status) is Some && decimal(
            status as nat,
        ).is_prefix_of(http_status_text(status)->Some_0),
{
    if status == NOT_FOUND {
        return SandboxError::SessionNotFound("Freestyle: ".to_owned().concat(body));
    }
    let shown = match show_http_status(status) {
        Some(text) => text,
        None => String::new(),
    };
    let code = match code {
        Some(code) => " [".to_owned().concat(code).concat("]"),
        None => "".to_owned(),
    };
    SandboxError::InvalidResponse(
        "Freestyle request failed with ".to_owned().concat(&shown).concat(&code).concat(
            ": ",
        ).concat(body),
    )
}

/// The error that an answer stands for.
pub fn freestyle_response_error(status: u16, body: &str) -> (e: SandboxError)
    requires
        100 <= status < 1000,
    ensures
        e@ == answer_error(status, json_string_field(body@, "code"@), body@),
{
    let code = string_field(body, "code");
    freestyle_error_with(status, &code, body)
}

/// What an answer to a request means.
pub fn response_outcome(status: u16, body: &str) -> (r: Result<()>)
    requires
        100 <= status < 1000,
    ensures
        match r {
            Ok(_) => is_success(status),
            Err(e) => !is_success(status) && e@ == answer_error(
                status,
                json_string_field(body@, "code"@),
                body@,
            ),
        },
{
    if 200 <= status && status < 300 {
        Ok(())
    } else {
        Err(freestyle_response_error(status, body))
    }
}

/// What an answer to a deletion means: what does not exist need not be deleted.
pub fn delete_outcome(status: u16, body: &str) -> (r: Result<()>)
    requires
        100 <= status < 1000,
    ensures
        match r {
            Ok(_) => is_success(status) || status == NOT_FOUND,
            Err(e) => !is_success(status) && status != NOT_FOUND && e@ == answer_error(
                status,
                json_string_field(body@, "code"@),
                body@,
            ),
        },
{
    if status == NOT_FOUND {
        Ok(())
    } else {
        response_outcome(status, body)
    }
}

/// The error of a request that got no answer.
pub fn request_failed(detail: &str) -> (e: SandboxError)
    ensures
        e@ == ErrorView::DaemonUnavailable("Freestyle request failed: "@ + detail@),
{
    SandboxError::DaemonUnavailable("Freestyle request failed: ".to_owned().concat(detail))
}

/// The error of an answer whose body cannot be read.
pub fn undecodable(action: &str, detail: &str) -> (e: SandboxError)
    ensures
        e@ == ErrorView::InvalidResponse(
            "failed to decode Freestyle "@ + action@ + ": "@ + detail@,
        ),
{
    SandboxError::InvalidResponse(
        "failed to decode Freestyle ".to_owned().concat(action).concat(": ").concat(detail),
    )
}

/// The error of a file whose contents did not come through.
pub fn file_unreadable(detail: &str) -> (e: SandboxError)
    ensures
        e@ == ErrorView::InvalidResponse("read file body: "@ + detail@),
{
    SandboxError::InvalidResponse("read file body: ".to_owned().concat(detail))
}

// ---------------------------------------------------------------------------
// Requests
// ---------------------------------------------------------------------------
/// How Freestyle is made to do something to a VM.
#[derive(Clone, Copy, Debug, PartialEq, Eq, Structural)]
pub enum ActionRequest {
    PostStart,
    PostPause,
    /// Freestyle has no request that stops a VM: the guest powers itself off. Whatever comes of
    /// the command is ignored, as the machine goes away underneath it.
    PowerOff,
}

/// The command by which a guest powers itself off.
pub const POWER_OFF: &'static str = "systemctl poweroff || poweroff";

/// The longest that the command to power off is waited for.
pub const POWER_OFF_MS: u64 = 15_000;

/// How Freestyle is made to do something to a VM.
pub fn action_request(action: FreestyleVmAction) -> (request: ActionRequest)
    ensures
        request == (match action {
            FreestyleVmAction::Start => ActionRequest::PostStart,
            FreestyleVmAction::Pause => ActionRequest::PostPause,
            FreestyleVmAction::Stop => ActionRequest::PowerOff,
        }),
{
    match action {
        FreestyleVmAction::Start => ActionRequest::PostStart,
        FreestyleVmAction::Pause => ActionRequest::PostPause,
        FreestyleVmAction::Stop => ActionRequest::PowerOff,
    }
}

/// The filter of a list of VMs that belong to the library.
pub fn managed_filter() -> (filter: String)
    ensures
        filter@ == META_MANAGED_BY@ + ":"@ + MANAGED_BY_VALUE@,
{
    META_MANAGED_BY.to_owned().concat(":").concat(MANAGED_BY_VALUE)
}

/// The filter of a list of VMs that belong to a session.
pub fn session_filter(session_id: &str) -> (filter: String)
    ensures
        filter@ == META_SESSION_ID@ + ":"@ + session_id@,
{
    META_SESSION_ID.to_owned().concat(":").concat(session_id)
}

/// The order to capture a VM.
#[derive(Debug)]
pub struct SnapshotBody {
    pub display_name: Option<String>,
    pub slug: Option<String>,
    pub auto_delete_seconds: Option<i64>,
}

impl FreestyleControl {
    /// The order to capture a VM under a name.
    pub fn snapshot_body(&self, name: &str) -> (body: SnapshotBody)
        ensures
            opt_view(body.display_name) == Some(name@),
            body.slug is None,
            body.auto_delete_seconds == api_seconds(self.settings().snapshot_auto_delete_secs),
    {
        SnapshotBody {
            display_name: Some(name.to_owned()),
            slug: None,
            auto_delete_seconds: seconds(self.config().snapshot_auto_delete_secs),
        }
    }
}

/// A VM that was created, and whether it must go again.
#[derive(Debug)]
pub struct Created {
    /// The VM could not be set up, and nobody else knows its id.
    pub delete: bool,
    pub result: Result<FreestyleVm>,
}

/// Decides what becomes of a VM once it has been set up, or could not be.
pub fn created(vm: FreestyleVm, set_up: Result<()>) -> (c: Created)
    ensures
        match set_up {
            Ok(_) => !c.delete && c.result == Result::<FreestyleVm>::Ok(vm),
            Err(e) => c.delete && c.result == Result::<FreestyleVm>::Err(e),
        },
{
    match set_up {
        Ok(_) => Created { delete: false, result: Ok(vm) },
        Err(e) => Created { delete: true, result: Err(e) },
    }
}

/// The directory that must exist before a file can be written.
pub open spec fn directory_to_make(path: Seq<char>) -> Option<Seq<char>> {
    match path_parent(path) {
        Some(parent) => if parent.len() > 0 && parent != "/"@ {
            Some(parent)
        } else {
            None
        },
        None => None,
    }
}

/// The directory that must exist before a file can be written.
pub fn missing_directory(path: &str) -> (directory: Option<String>)
    ensures
        opt_view(directory) == directory_to_make(path@),
{
    match parent_path(path) {
        Some(parent) => if !parent.as_str().is_empty() && !same(&parent, "/") {
            Some(parent)
        } else {
            None
        },
        None => None,
    }
}

/// An entry of a directory as Freestyle lists it.
#[derive(Debug)]
pub struct DirEntry {
    pub name: String,
    pub kind: String,
}

/// An entry of a directory.
#[derive(Debug)]
pub struct DirectoryEntry {
    pub name: String,
    pub is_dir: bool,
    pub is_symlink: bool,
}

/// The entry as Freestyle lists it.
pub open spec fn is_listed_as(entry: DirectoryEntry, listed: DirEntry) -> bool {
    &&& entry.name@ == listed.name@
    &&& entry.is_dir == (listed.kind@ == "directory"@)
    &&& entry.is_symlink == (listed.kind@ == "symlink"@)
}

/// The entries of a directory.
pub fn directory_entries(listing: Vec<DirEntry>) -> (entries: Vec<DirectoryEntry>)
    ensures
        entries@.len() == listing@.len(),
        forall|i: int|
            0 <= i < entries@.len() ==> is_listed_as(#[trigger] entries@[i], listing@[i]),
{
    let mut entries: Vec<DirectoryEntry> = Vec::new();
    let mut i: usize = 0;
    while i < listing.len()
        invariant
            i <= listing@.len(),
            entries@.len() == i,
            forall|j: int| 0 <= j < i ==> is_listed_as(#[trigger] entries@[j], listing@[j]),
        decreases listing@.len() - i,
    {
        entries.push(
            DirectoryEntry {
                name: listing[i].name.clone(),
                is_dir: same(&listing[i].kind, "directory"),
                is_symlink: same(&listing[i].kind, "symlink"),
            },
        );
        i += 1;
    }
    entries
}

/// What the answer to a resize means. A VM cannot be made smaller, and to be told so is no
/// failure.
pub fn resize_response(status: u16, body: &str) -> (r: Result<()>)
    requires
        100 <= status < 1000,
    ensures
        r is Ok <==> is_success(status) || status == BAD_REQUEST,
        r matches Err(e) ==> e@ == answer_error(status, json_string_field(body@, "code"@), body@),
{
    if (200 <= status && status < 300) || status == BAD_REQUEST {
        return Ok(());
    }
    Err(freestyle_response_error(status, body))
}

// ---------------------------------------------------------------------------
// What is asked for, and what the answers mean
// ---------------------------------------------------------------------------
/// Without a list of hosts a VM reaches every public address. With one it reaches none, but for each named
/// host over TLS.
pub proof fn law_list_of_hosts_closes_the_rest(
    f: FirewallSpec,
    rule: CreateTlsRuleBody,
    host: Seq<char>,
)
    ensures
        firewall_for(true, f) <==> f.rules@.len() == 0,
        firewall_for(false, f) ==> f.rules@.len() == 1 && f.rules@[0].action@ == "allow"@
            && f.rules@[0].destination.public == Some(true) && f.rules@[0].destination.cidr is None
            && f.rules@[0].source.public is None && f.rules@[0].source.cidr is None,
        is_egress_rule(rule, host) ==> rule.action@ == "allow"@ && rule.domain@ == host
            && rule.protocol@ == "tcp"@ && rule.destination.public == Some(true)
            && rule.destination.vm_id is None && rule.destination.port is None
            && rule.source.public is None && rule.source.vm_id is None && rule.source.port is None
            && rule.forward_auth is None,
{
}

/// There is one rule for each host, in the order of the hosts.
pub proof fn law_each_host_has_its_rule(
    rules: Seq<CreateTlsRuleBody>,
    hosts: Seq<Seq<char>>,
    i: int,
)
    requires
        are_egress_rules(rules, hosts),
    ensures
        rules.len() == hosts.len(),
        0 <= i < hosts.len() ==> rules[i].domain@ == hosts[i] && rules[i].action@ == "allow"@,
{
}

/// A list of hosts for one session comes before the one of the settings.
pub proof fn law_session_names_its_own_hosts(
    session: Option<Vec<String>>,
    settings: Option<Vec<String>>,
)
    ensures
        session is Some ==> allowed_hosts(session, settings) == session,
        session is None ==> allowed_hosts(session, settings) == settings,
{
}

/// A rule serves a port of a VM under a domain where it names all three.
pub proof fn law_preview_serves_one_port(
    rule: TlsRule,
    domain: Seq<char>,
    vm_id: Seq<char>,
    port: u16,
)
    ensures
        serves(rule, domain, vm_id, port) <==> {
            &&& rule.domain@ == domain
            &&& rule.destination.vm_id is Some
            &&& rule.destination.vm_id->Some_0@ == vm_id
            &&& rule.destination.port == Some(port)
        },
{
}

/// A VM boots from the image that was asked for, else from the one that is set, else from the provider's
/// own.
pub proof fn law_asked_image_is_booted(image: Seq<char>, configured: Seq<char>)
    ensures
        trimmed(image).len() > 0 ==> boot_snapshot(Some(image), configured) == Some(trimmed(image)),
        trimmed(image).len() == 0 && configured.len() > 0 ==> boot_snapshot(
            Some(image),
            configured,
        ) == Some(configured),
        trimmed(image).len() == 0 && configured.len() == 0 ==> boot_snapshot(
            Some(image),
            configured,
        ) is None,
        configured.len() > 0 ==> boot_snapshot(None, configured) == Some(configured),
        configured.len() == 0 ==> boot_snapshot(None, configured) is None,
{
}

/// Every VM is marked as made here, and its other metadata is kept.
pub proof fn law_mark_leaves_metadata(metadata: Map<Seq<char>, Seq<char>>, key: Seq<char>)
    ensures
        stamped(metadata)["chevalier.managed_by"@] == "chevalier-sandbox"@,
        stamped(metadata).contains_key("chevalier.managed_by"@),
        key != "chevalier.managed_by"@ ==> stamped(metadata).contains_key(key)
            == metadata.contains_key(key),
        key != "chevalier.managed_by"@ && metadata.contains_key(key) ==> stamped(metadata)[key]
            == metadata[key],
{
}

/// The checkpoint of a fork is named after the child, else by chance.
pub proof fn law_fork_is_named_after_child(child: Seq<char>, random_id: Seq<char>)
    ensures
        trimmed(child).len() > 0 ==> fork_checkpoint_name(Some(child), random_id)
            == "chevalier-fork-"@ + child,
        trimmed(child).len() == 0 ==> fork_checkpoint_name(Some(child), random_id)
            == "chevalier-fork-"@ + random_id,
        fork_checkpoint_name(None, random_id) == "chevalier-fork-"@ + random_id,
{
}

/// A size that is not positive is not asked for; a disk is asked for in megabytes.
pub proof fn law_sizes_are_asked_for_as_given(n: i32, gb: u32)
    ensures
        n > 0 ==> positive(n) == Some(n as u32),
        n <= 0 ==> positive(n) is None,
        gb <= 4_194_303 ==> in_megabytes(Some(gb)) == Some((gb * 1024) as u32),
        gb > 4_194_303 ==> in_megabytes(Some(gb)) is None,
        in_megabytes(None) is None,
{
}

/// A VM is listed as the session that its metadata names, with its own id, name and state; one that
/// names none is not listed.
pub proof fn law_freestyle_session_is_read_off_its_vm(vm: FreestyleVm)
    ensures
        !vm.metadata@.contains_key("chevalier.session_id"@) ==> freestyle_session(vm) is None,
        vm.metadata@.contains_key("chevalier.session_id"@) ==> {
            &&& freestyle_session(vm) is Some
            &&& freestyle_session(vm)->Some_0.session_id == vm.metadata@["chevalier.session_id"@]
            &&& freestyle_session(vm)->Some_0.vm_id == vm.id@
            &&& freestyle_session(vm)->Some_0.state == vm.state.shown()
            &&& vm.display_name is Some ==> freestyle_session(vm)->Some_0.name
                == vm.display_name->Some_0@
            &&& vm.display_name is None ==> freestyle_session(vm)->Some_0.name.len() == 0
            &&& vm.metadata@.contains_key("chevalier.parent_session_id"@) ==> freestyle_session(
                vm,
            )->Some_0.parent_session_id == Some(vm.metadata@["chevalier.parent_session_id"@])
            &&& !vm.metadata@.contains_key("chevalier.parent_session_id"@) ==> freestyle_session(
                vm,
            )->Some_0.parent_session_id is None
            &&& vm.metadata@.contains_key("chevalier.fork_id"@) ==> freestyle_session(
                vm,
            )->Some_0.fork_id == Some(vm.metadata@["chevalier.fork_id"@])
            &&& !vm.metadata@.contains_key("chevalier.fork_id"@) ==> freestyle_session(
                vm,
            )->Some_0.fork_id is None
        },
{
}

/// The sessions of a page are listed in the order of its VMs: one VM more adds its session at the end, or
/// nothing.
pub proof fn law_page_is_listed_in_order(vms: Seq<FreestyleVm>, vm: FreestyleVm)
    ensures
        page_sessions(Seq::<FreestyleVm>::empty()).len() == 0,
        vm.metadata@.contains_key("chevalier.session_id"@) ==> page_sessions(vms.push(vm))
            == page_sessions(vms).push(freestyle_session(vm)->Some_0),
        !vm.metadata@.contains_key("chevalier.session_id"@) ==> page_sessions(vms.push(vm))
            == page_sessions(vms),
{
    assert(vms.push(vm).drop_last() =~= vms);
}

/// A command has the seconds that it was given, at most five minutes and at least a millisecond, and
/// half a minute where it was given none.
pub proof fn law_command_has_its_seconds(secs: i32)
    ensures
        1 <= secs <= 300 ==> await_millis(Some(secs)) == secs * 1000,
        secs > 300 ==> await_millis(Some(secs)) == 300_000,
        secs == 0 ==> await_millis(Some(secs)) == 1,
        secs < 0 ==> await_millis(Some(secs)) == 30_000,
        await_millis(None) == 30_000,
{
}

/// A command is handed to its shell as one quoted word. A detached one outlives the call, writes nowhere
/// and tells its process.
pub proof fn law_command_is_one_word(shell: Seq<char>, command: Seq<char>)
    ensures
        wrapped_command(shell, command, false) == quoted(shell) + " -lc "@ + quoted(command),
        wrapped_command(shell, command, true) == "nohup "@ + quoted(shell) + " -lc "@ + quoted(
            command,
        ) + " >/dev/null 2>&1 </dev/null & echo $!"@,
{
}

/// What a command read, wrote and ended with is told as it is: its input goes in Base64, its output comes
/// as the bytes of its text, and its exit code is its own; without one it ran out of time.
pub proof fn law_command_outcome_is_told_as_it_is(r: ExecAwaitResponse, bytes: Seq<u8>)
    ensures
        encoded_stdin(Some(bytes)) == Some(base64_text(bytes)),
        encoded_stdin(None) is None,
        r.status_code matches Some(code) ==> await_events(r).last() == EventModel::Ok(
            ExecEventView::Exit(code),
        ),
        r.status_code is None ==> await_events(r).last() == EventModel::Ok(ExecEventView::Timeout),
        r.stdout is Some && encode_utf8(r.stdout->Some_0@).len() > 0 ==> await_events(r)[0]
            == EventModel::Ok(ExecEventView::Stdout(encode_utf8(r.stdout->Some_0@))),
        r.stderr is Some && encode_utf8(r.stderr->Some_0@).len() > 0 ==> await_events(r).len() >= 2
            && await_events(r)[await_events(r).len() - 2] == EventModel::Ok(
            ExecEventView::Stderr(encode_utf8(r.stderr->Some_0@)),
        ),
        r.stdout is None && r.stderr is None ==> await_events(r).len() == 1,
{
}

/// An answer is a success from 200 to 299. A session that is not known is told as that; every other
/// refusal is told with the body of the answer.
pub proof fn law_refusal_is_told(status: u16, code: Option<Seq<char>>, body: Seq<char>)
    ensures
        is_success(status) <==> 200 <= status <= 299,
        answer_error(404, code, body) == ErrorView::SessionNotFound("Freestyle: "@ + body),
        status != 404 ==> answer_error(status, code, body) is InvalidResponse,
        status != 404 && code is None ==> answer_error(status, code, body)
            == ErrorView::InvalidResponse(
            "Freestyle request failed with "@ + http_status_text(status)->Some_0 + ""@ + ": "@
                + body,
        ),
        status != 404 && code is Some ==> answer_error(status, code, body)
            == ErrorView::InvalidResponse(
            "Freestyle request failed with "@ + http_status_text(status)->Some_0 + (" ["@
                + code->Some_0 + "]"@) + ": "@ + body,
        ),
{
}

/// The directory of a file is made before the file is written, unless it is the root.
pub proof fn law_directory_is_made_first(dir: Seq<char>, name: Seq<char>)
    requires
        crate::shell::is_name(name),
        crate::shell::ends_plainly(dir),
    ensures
        directory_to_make(dir + seq!['/'] + name) == Some(dir),
        directory_to_make(seq!['/'] + name) is None,
{
    crate::shell::law_path_is_taken_apart(dir, name);
    reveal_strlit("/");
    assert(dir != "/"@) by {
        assert("/"@.last() == '/');
    }
}

/// An entry of a directory is listed under its name; it is a directory, or a link, where it says so.
pub proof fn law_entry_is_listed_by_its_kind(entry: DirectoryEntry, listed: DirEntry)
    requires
        is_listed_as(entry, listed),
    ensures
        entry.name@ == listed.name@,
        listed.kind@ == "directory"@ ==> entry.is_dir && !entry.is_symlink,
        listed.kind@ == "symlink"@ ==> entry.is_symlink && !entry.is_dir,
        listed.kind@ != "directory"@ && listed.kind@ != "symlink"@ ==> !entry.is_dir
            && !entry.is_symlink,
{
    reveal_strlit("directory");
    reveal_strlit("symlink");
    assert("directory"@.len() == 9 && "symlink"@.len() == 7);
}

/// Seconds and input are asked for as they were given.
pub proof fn law_seconds_are_asked_for_as_given(secs: u64, bytes: Vec<u8>)
    ensures
        secs <= i64::MAX ==> api_seconds(Some(secs)) == Some(secs as i64),
        api_seconds(None) is None,
        opt_bytes(Some(bytes)) == Some(bytes@),
        opt_bytes(None) is None,
{
}

/// A guest that is to stop powers itself off, within fifteen seconds.
pub proof fn law_guest_powers_itself_off()
    ensures
        POWER_OFF@ == "systemctl poweroff || poweroff"@,
        POWER_OFF_MS == 15 * 1000,
        NOT_FOUND == 404,
        BAD_REQUEST == 400,
{
}

} // verus!
