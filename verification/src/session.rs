//! Sessions: what a new one asks of a node or a provider, how an existing one is taken up, and
//! what its operations need.

use crate::config::architecture_label;
use crate::config::normalize_architecture_label;
use crate::config::ResourceLimits;
use crate::endpoint::normalize_endpoint;
use crate::endpoint::normalized_endpoint;
use crate::error::ErrorView;
use crate::error::Result;
use crate::error::SandboxError;
use crate::mounts::first_violation;
use crate::mounts::mount_models;
use crate::mounts::needs_profile;
use crate::mounts::proto_shared_mount;
use crate::mounts::required_shared_mount_profiles;
use crate::mounts::validate_shared_mount_contract;
use crate::mounts::SharedMount;
use crate::mounts::WireMount;
use crate::order::increasing;
use crate::readiness::ReadinessRecovery;
use crate::span::Span;
use crate::table::looked_up;
use crate::table::StringMap;
use crate::text::trim;
use crate::text::trimmed;
use crate::text::views;
use crate::vm::has_guest_rpc;
use crate::vm::opt_view;
use crate::vm::resolve_tier_b_eligibility;
use crate::vm::tier_b_eligible;
use crate::vm::vm_has_guest_rpc;
use crate::vm::workspace_root_of;
use crate::vm::GuestPlatform;
use crate::vm::Vm;
use crate::vm::VmState;
use crate::vm::META_EXECUTION_FIDELITY_REQUIREMENT;
use crate::vm::META_PARENT_SESSION_ID;
use crate::vm::META_PARENT_VM_ID;
use crate::vm::META_SESSION_ID;
use crate::vm::META_TIER_B_ELIGIBLE;
use vstd::prelude::*;
use vstd::utf8::*;

verus! {

/// What a session boots from.
#[derive(Clone, Copy, Debug, PartialEq, Eq, Structural)]
pub enum SessionSourceType {
    Docker,
    Snapshot,
    MacosTemplate,
    WindowsTemplate,
}

/// How a session is to be set up.
#[derive(Debug)]
pub struct SessionOptions {
    pub session_id: Option<String>,
    pub name: Option<String>,
    pub image: Option<String>,
    pub source_type: SessionSourceType,
    pub architecture: Option<String>,
    pub metadata: StringMap,
    pub auto_start: bool,
    pub resources: Option<ResourceLimits>,
    pub shared_mounts: Vec<SharedMount>,
    pub egress_allowlist: Option<Vec<String>>,
    pub pci_device_ids: Vec<String>,
    pub storage_profile: String,
    pub volume_owner_key: Option<String>,
    pub volume_size_gb: Option<i32>,
}

impl Default for SessionOptions {
    fn default() -> (o: Self)
        ensures
            o.session_id is None,
            o.name is None,
            o.image is None,
            o.source_type == SessionSourceType::Docker,
            o.architecture is None,
            o.metadata@ == Map::<Seq<char>, Seq<char>>::empty(),
            o.auto_start,
            o.resources is None,
            o.shared_mounts@ == Seq::<SharedMount>::empty(),
            o.egress_allowlist is None,
            o.pci_device_ids@ == Seq::<String>::empty(),
            o.storage_profile@ == "local-ephemeral"@,
            o.volume_owner_key is None,
            o.volume_size_gb is None,
    {
        SessionOptions {
            session_id: None,
            name: None,
            image: None,
            source_type: SessionSourceType::Docker,
            architecture: None,
            metadata: StringMap::new(),
            auto_start: true,
            resources: None,
            shared_mounts: Vec::new(),
            egress_allowlist: None,
            pci_device_ids: Vec::new(),
            storage_profile: "local-ephemeral".to_owned(),
            volume_owner_key: None,
            volume_size_gb: None,
        }
    }
}

/// How a session is to be forked.
#[derive(Debug)]
pub struct ForkOptions {
    pub child_name: Option<String>,
    pub child_metadata: StringMap,
    pub auto_start_child: bool,
}

impl Default for ForkOptions {
    fn default() -> (o: Self)
        ensures
            o.child_name is None,
            o.child_metadata@ == Map::<Seq<char>, Seq<char>>::empty(),
            !o.auto_start_child,
    {
        ForkOptions {
            child_name: None,
            child_metadata: StringMap::new(),
            auto_start_child: false,
        }
    }
}

// ---------------------------------------------------------------------------
// Metadata of new sessions
// ---------------------------------------------------------------------------
/// A map with a value for `key`: the one that it has, else `default`.
pub open spec fn with_default(
    map: Map<Seq<char>, Seq<char>>,
    key: Seq<char>,
    default: Seq<char>,
) -> Map<Seq<char>, Seq<char>> {
    if map.contains_key(key) {
        map
    } else {
        map.insert(key, default)
    }
}

/// A map with `key` set where there is a value for it.
pub open spec fn with_optional(
    map: Map<Seq<char>, Seq<char>>,
    key: Seq<char>,
    value: Option<Seq<char>>,
) -> Map<Seq<char>, Seq<char>> {
    match value {
        Some(v) => map.insert(key, v),
        None => map,
    }
}

fn set_default(map: &mut StringMap, key: &str, default: &str)
    ensures
        final(map)@ == with_default(old(map)@, key@, default@),
{
    if !map.contains_key(key) {
        map.insert(key.to_owned(), default.to_owned());
    }
}

fn set_optional(map: &mut StringMap, key: &str, value: &Option<String>)
    ensures
        final(map)@ == with_optional(old(map)@, key@, opt_view(*value)),
{
    match value {
        Some(v) => map.insert(key.to_owned(), v.clone()),
        None => {},
    }
}

/// A name where it is not blank.
pub open spec fn nonblank(name: Option<Seq<char>>) -> Option<Seq<char>> {
    match name {
        Some(n) => if trimmed(n).len() > 0 {
            Some(n)
        } else {
            None
        },
        None => None,
    }
}

/// The metadata of a session at a provider that manages its VMs.
pub open spec fn managed_metadata(
    given: Map<Seq<char>, Seq<char>>,
    session_id: Option<Seq<char>>,
    name: Option<Seq<char>>,
) -> Map<Seq<char>, Seq<char>> {
    let m0 = with_default(given, "workspace_id"@, "default"@);
    let m1 = with_default(m0, "tenant_id"@, "default"@);
    let m2 = with_optional(m1, "chevalier.requested_session_id"@, session_id);
    let m3 = with_optional(m2, "chevalier.name"@, nonblank(name));
    let m4 = m3.insert(META_TIER_B_ELIGIBLE@, "false"@);
    let m5 = m4.insert(META_EXECUTION_FIDELITY_REQUIREMENT@, "provider-managed"@);
    with_optional(m5, META_SESSION_ID@, session_id)
}

/// The metadata of a session at a provider that manages its VMs. Such a provider boots Docker
/// sources only.
pub fn managed_session_metadata(
    source_type: SessionSourceType,
    given: StringMap,
    session_id: &Option<String>,
    name: &Option<String>,
) -> (r: Result<StringMap>)
    ensures
        match r {
            Ok(metadata) => source_type == SessionSourceType::Docker && metadata@
                == managed_metadata(given@, opt_view(*session_id), opt_view(*name)),
            Err(e) => source_type != SessionSourceType::Docker && e@ == ErrorView::InvalidConfig(
                "OpenComputer supports only Docker session sources"@,
            ),
        },
{
    if source_type != SessionSourceType::Docker {
        return Err(
            SandboxError::InvalidConfig(
                "OpenComputer supports only Docker session sources".to_owned(),
            ),
        );
    }
    let mut metadata = given;
    set_default(&mut metadata, "workspace_id", "default");
    set_default(&mut metadata, "tenant_id", "default");
    set_optional(&mut metadata, "chevalier.requested_session_id", session_id);
    let shown = match name {
        Some(n) => if trim(n).as_str().is_empty() {
            None
        } else {
            Some(n.clone())
        },
        None => None,
    };
    set_optional(&mut metadata, "chevalier.name", &shown);
    metadata.insert(META_TIER_B_ELIGIBLE.to_owned(), "false".to_owned());
    metadata.insert(META_EXECUTION_FIDELITY_REQUIREMENT.to_owned(), "provider-managed".to_owned());
    set_optional(&mut metadata, META_SESSION_ID, session_id);
    Ok(metadata)
}

/// The text of a flag.
pub open spec fn flag_text(flag: bool) -> Seq<char> {
    if flag {
        "true"@
    } else {
        "false"@
    }
}

/// What of a session's execution must survive a move.
pub open spec fn fidelity(eligible: bool) -> Seq<char> {
    if eligible {
        "disk+memory"@
    } else {
        "best-effort"@
    }
}

/// What of a session's execution must survive a move.
pub fn fidelity_requirement(eligible: bool) -> (requirement: &'static str)
    ensures
        requirement@ == fidelity(eligible),
{
    if eligible {
        "disk+memory"
    } else {
        "best-effort"
    }
}

/// The metadata with which a session on a node is looked for; a new one adds its id.
pub open spec fn node_metadata(given: Map<Seq<char>, Seq<char>>) -> Map<Seq<char>, Seq<char>> {
    let m0 = with_default(given, "tenant_id"@, "default"@);
    let m1 = with_default(m0, "workspace_id"@, "default"@);
    m1.insert(META_TIER_B_ELIGIBLE@, flag_text(tier_b_eligible(m1))).insert(
        META_EXECUTION_FIDELITY_REQUIREMENT@,
        fidelity(tier_b_eligible(m1)),
    )
}

/// What is settled of a session before it is looked for.
#[derive(Debug)]
pub struct SessionPlan {
    pub metadata: StringMap,
    pub tenant_id: String,
    pub workspace_id: String,
    pub tier_b_eligible: bool,
    pub required_mount_profiles: Vec<String>,
}

/// The value of a key, else `default`.
pub open spec fn value_or(
    map: Map<Seq<char>, Seq<char>>,
    key: Seq<char>,
    default: Seq<char>,
) -> Seq<char> {
    match looked_up(map, key) {
        Some(v) => v,
        None => default,
    }
}

/// Setting `tenant_id` and `workspace_id` does not change whether a session may move.
proof fn lemma_scope_keeps_eligibility(given: Map<Seq<char>, Seq<char>>)
    ensures
        tier_b_eligible(
            with_default(
                with_default(given, "tenant_id"@, "default"@),
                "workspace_id"@,
                "default"@,
            ),
        ) == tier_b_eligible(given),
{
    reveal_strlit("tenant_id");
    reveal_strlit("workspace_id");
    reveal_strlit("tier_b_eligible");
    reveal_strlit("chevalier.tier_b_eligible");
    assert("tenant_id"@.len() != "tier_b_eligible"@.len());
    assert("workspace_id"@.len() != "tier_b_eligible"@.len());
    assert("tenant_id"@.len() != META_TIER_B_ELIGIBLE@.len());
    assert("workspace_id"@.len() != META_TIER_B_ELIGIBLE@.len());
}

/// Settles what can be before a session is looked for; an error where its mounts break their
/// contract.
pub fn plan_session(given: StringMap, shared_mounts: &Vec<SharedMount>) -> (r: Result<SessionPlan>)
    ensures
        ({
            let eligible = tier_b_eligible(given@);
            let broken = first_violation(mount_models(shared_mounts@), eligible);
            match r {
                Ok(plan) => {
                    &&& broken is None
                    &&& plan.metadata@ == node_metadata(given@)
                    &&& plan.tenant_id@ == value_or(given@, "tenant_id"@, "default"@)
                    &&& plan.workspace_id@ == value_or(given@, "workspace_id"@, "default"@)
                    &&& plan.tier_b_eligible == eligible
                    &&& increasing(views(plan.required_mount_profiles@))
                    &&& forall|x: Seq<char>| #[trigger]
                        views(plan.required_mount_profiles@).contains(x) <==> needs_profile(
                            mount_models(shared_mounts@),
                            x,
                        )
                },
                Err(e) => broken is Some && e@ == ErrorView::InvalidResponse(broken->Some_0),
            }
        }),
{
    let mut metadata = given;
    let tenant_id = match metadata.get("tenant_id") {
        Some(v) => v.clone(),
        None => "default".to_owned(),
    };
    let workspace_id = match metadata.get("workspace_id") {
        Some(v) => v.clone(),
        None => "default".to_owned(),
    };
    set_default(&mut metadata, "tenant_id", "default");
    set_default(&mut metadata, "workspace_id", "default");
    proof {
        lemma_scope_keeps_eligibility(given@);
    }
    let eligible = resolve_tier_b_eligibility(&metadata);
    match validate_shared_mount_contract(shared_mounts, eligible) {
        Ok(_) => {},
        Err(e) => return Err(e),
    }
    let required_mount_profiles = required_shared_mount_profiles(shared_mounts);
    let flag: &str = if eligible {
        "true"
    } else {
        "false"
    };
    metadata.insert(META_TIER_B_ELIGIBLE.to_owned(), flag.to_owned());
    let requirement: &str = fidelity_requirement(eligible);
    metadata.insert(META_EXECUTION_FIDELITY_REQUIREMENT.to_owned(), requirement.to_owned());
    Ok(
        SessionPlan {
            metadata,
            tenant_id,
            workspace_id,
            tier_b_eligible: eligible,
            required_mount_profiles,
        },
    )
}

/// The metadata of a planned session still says whether it may move.
pub proof fn law_planned_metadata_keeps_eligibility(given: Map<Seq<char>, Seq<char>>)
    ensures
        tier_b_eligible(node_metadata(given)) == tier_b_eligible(given),
{
    lemma_scope_keeps_eligibility(given);
    reveal_strlit("chevalier.tier_b_eligible");
    reveal_strlit("chevalier.execution_fidelity_requirement");
    reveal_strlit("true");
    reveal_strlit("false");
    let t = "true"@;
    let f = "false"@;
    assert(META_TIER_B_ELIGIBLE@.len() != META_EXECUTION_FIDELITY_REQUIREMENT@.len());
    crate::endpoint::lemma_trimmed_fixed(t);
    crate::endpoint::lemma_trimmed_fixed(f);
    assert(crate::text::lowered(t) =~= t);
    assert(crate::text::lowered(f) =~= f);
    assert(t != f) by {
        assert(t.len() != f.len());
    }
    reveal_strlit("1");
    reveal_strlit("yes");
    reveal_strlit("on");
    reveal_strlit("0");
    assert(f != "1"@ && f != "yes"@ && f != "on"@) by {
        assert(f.len() == 5);
    }
}

// ---------------------------------------------------------------------------
// Creating
// ---------------------------------------------------------------------------
/// The order to a node to create a VM.
#[derive(Debug)]
pub struct CreateVm {
    pub name: String,
    pub source_type: SessionSourceType,
    pub image: String,
    pub resources: ResourceLimits,
    pub metadata: StringMap,
    pub auto_start: bool,
    pub architecture: String,
    /// The platform and schema version of the guest, where the source fixes them.
    pub guest_profile: Option<(GuestPlatform, u32)>,
    pub shared_mounts: Vec<WireMount>,
    pub pci_device_ids: Vec<String>,
    pub storage_profile: String,
    pub volume_owner_key: String,
    pub volume_size_gb: i32,
}

/// What a sandbox gives a session that does not say otherwise.
#[derive(Debug)]
pub struct SessionDefaults {
    pub image: String,
    pub architecture: Option<String>,
    pub host_architecture: Option<String>,
    pub resources: ResourceLimits,
}

/// The name of a session without one: it starts with the first eight bytes of the id.
pub open spec fn default_session_name(session_id: Seq<char>) -> Seq<char> {
    "chevalier-session-"@ + decode_utf8(encode_utf8(session_id).subrange(0, 8))
}

/// A name can be made of the id.
pub open spec fn can_name_session(session_id: Seq<char>) -> bool {
    encode_utf8(session_id).len() >= 8 && is_char_boundary(encode_utf8(session_id), 8)
}

/// Whether a name can be made of the id.
pub fn session_can_be_named(session_id: &str) -> (yes: bool)
    ensures
        yes == can_name_session(session_id@),
{
    session_id.as_bytes().len() >= 8 && session_id.is_char_boundary(8)
}

fn session_name(session_id: &str) -> (name: String)
    requires
        can_name_session(session_id@),
    ensures
        name@ == default_session_name(session_id@),
{
    let head = session_id.split_at(8).0;
    proof {
        encode_utf8_decode_utf8(head@);
    }
    "chevalier-session-".to_owned().concat(head)
}

/// The architecture of a new VM.
pub open spec fn session_architecture(
    source_type: SessionSourceType,
    requested: Option<Seq<char>>,
    default: Option<Seq<char>>,
    host: Option<Seq<char>>,
) -> Seq<char> {
    architecture_label(
        match requested {
            Some(a) => a,
            None => match source_type {
                SessionSourceType::MacosTemplate => "arm64"@,
                SessionSourceType::WindowsTemplate => ""@,
                _ => match default {
                    Some(a) => a,
                    None => match host {
                        Some(a) => a,
                        None => ""@,
                    },
                },
            },
        },
    )
}

/// The platform that a source fixes.
pub open spec fn fixed_platform(source_type: SessionSourceType) -> Option<(GuestPlatform, u32)> {
    match source_type {
        SessionSourceType::MacosTemplate => Some((GuestPlatform::Macos, 1)),
        SessionSourceType::WindowsTemplate => Some((GuestPlatform::Windows, 1)),
        _ => None,
    }
}

/// `sent` are the mounts in the form in which they go to a node.
pub open spec fn are_sent_forms(sent: Seq<WireMount>, mounts: Seq<SharedMount>) -> bool {
    sent.len() == mounts.len() && forall|i: int|
        0 <= i < mounts.len() ==> crate::mounts::is_sent_form(#[trigger] sent[i], mounts[i])
}

fn send_mounts(mounts: Vec<SharedMount>) -> (sent: Vec<WireMount>)
    ensures
        are_sent_forms(sent@, mounts@),
{
    let mut left = mounts;
    let ghost all = mounts@;
    let mut reversed: Vec<WireMount> = Vec::new();
    while left.len() > 0
        invariant
            left@.len() + reversed@.len() == all.len(),
            left@ == all.take(left@.len() as int),
            forall|i: int|
                0 <= i < reversed@.len() ==> crate::mounts::is_sent_form(
                    #[trigger] reversed@[i],
                    all[all.len() - 1 - i],
                ),
        decreases left@.len(),
    {
        match left.pop() {
            Some(mount) => {
                assert(mount == all[left@.len() as int]);
                reversed.push(proto_shared_mount(mount));
            },
            None => {},
        }
    }
    let mut sent: Vec<WireMount> = Vec::new();
    while reversed.len() > 0
        invariant
            sent@.len() + reversed@.len() == all.len(),
            forall|i: int|
                0 <= i < reversed@.len() ==> crate::mounts::is_sent_form(
                    #[trigger] reversed@[i],
                    all[all.len() - 1 - i],
                ),
            forall|i: int|
                0 <= i < sent@.len() ==> crate::mounts::is_sent_form(#[trigger] sent@[i], all[i]),
        decreases reversed@.len(),
    {
        match reversed.pop() {
            Some(mount) => sent.push(mount),
            None => {},
        }
    }
    sent
}

impl CreateVm {
    /// Whether the VM gets devices of its host, so that the order needs access to these.
    pub fn needs_pci_access(&self) -> (needs: bool)
        ensures
            needs == (self.pci_device_ids@.len() > 0),
    {
        self.pci_device_ids.len() > 0
    }
}

/// The order that creates a session's VM.
pub fn create_vm_order(
    opts: SessionOptions,
    session_id: &str,
    planned: StringMap,
    defaults: &SessionDefaults,
) -> (order: CreateVm)
    requires
        opts.name is None ==> can_name_session(session_id@),
    ensures
        order.name@ == (match opts.name {
            Some(n) => n@,
            None => default_session_name(session_id@),
        }),
        order.source_type == opts.source_type,
        order.image@ == (match opts.image {
            Some(i) => i@,
            None => defaults.image@,
        }),
        order.resources == (match opts.resources {
            Some(r) => r,
            None => defaults.resources,
        }),
        order.metadata@ == planned@.insert(META_SESSION_ID@, session_id@),
        order.auto_start == opts.auto_start,
        order.architecture@ == session_architecture(
            opts.source_type,
            opt_view(opts.architecture),
            opt_view(defaults.architecture),
            opt_view(defaults.host_architecture),
        ),
        opts.architecture matches Some(a) ==> order.architecture@ == architecture_label(a@),
        order.guest_profile == fixed_platform(opts.source_type),
        are_sent_forms(order.shared_mounts@, opts.shared_mounts@),
        order.pci_device_ids == opts.pci_device_ids,
        order.storage_profile == opts.storage_profile,
        order.volume_owner_key@ == (match opts.volume_owner_key {
            Some(k) => k@,
            None => Seq::<char>::empty(),
        }),
        order.volume_size_gb == (match opts.volume_size_gb {
            Some(n) => n,
            None => 0,
        }),
{
    let mut metadata = planned;
    metadata.insert(META_SESSION_ID.to_owned(), session_id.to_owned());
    let name = match opts.name {
        Some(n) => n,
        None => session_name(session_id),
    };
    let image = match opts.image {
        Some(i) => i,
        None => defaults.image.clone(),
    };
    let raw_architecture = match opts.architecture {
        Some(a) => a,
        None => match opts.source_type {
            SessionSourceType::MacosTemplate => "arm64".to_owned(),
            SessionSourceType::WindowsTemplate => "".to_owned(),
            _ => match &defaults.architecture {
                Some(a) => a.clone(),
                None => match &defaults.host_architecture {
                    Some(a) => a.clone(),
                    None => "".to_owned(),
                },
            },
        },
    };
    let guest_profile: Option<(GuestPlatform, u32)> = match opts.source_type {
        SessionSourceType::MacosTemplate => Some((GuestPlatform::Macos, 1)),
        SessionSourceType::WindowsTemplate => Some((GuestPlatform::Windows, 1)),
        _ => None,
    };
    CreateVm {
        name,
        source_type: opts.source_type,
        image,
        resources: match opts.resources {
            Some(r) => r,
            None => defaults.resources,
        },
        metadata,
        auto_start: opts.auto_start,
        architecture: normalize_architecture_label(&raw_architecture),
        guest_profile,
        shared_mounts: send_mounts(opts.shared_mounts),
        pci_device_ids: opts.pci_device_ids,
        storage_profile: opts.storage_profile,
        volume_owner_key: match opts.volume_owner_key {
            Some(k) => k,
            None => String::new(),
        },
        volume_size_gb: match opts.volume_size_gb {
            Some(n) => n,
            None => 0,
        },
    }
}

/// The VM that the stream of a creation gave: the first one.
pub fn created_vm(vm: Option<Vm>) -> (r: Result<Vm>)
    ensures
        match vm {
            Some(v) => r == Result::<Vm>::Ok(v),
            None => r matches Err(e) && e@ == ErrorView::InvalidResponse(
                "create_vm stream missing VM"@,
            ),
        },
{
    match vm {
        Some(v) => Ok(v),
        None => Err(SandboxError::InvalidResponse("create_vm stream missing VM".to_owned())),
    }
}

// ---------------------------------------------------------------------------
// Taking up
// ---------------------------------------------------------------------------
/// A step by which a session comes to be usable. A step that fails ends the way there.
#[derive(Clone, Copy, Debug, PartialEq, Eq, Structural)]
pub enum SessionStep {
    /// Restore its execution; whether a VM that may move must name its snapshot.
    Restore { enforce_tier_b: bool },
    /// Bring its VM to run.
    EnsureRunning,
    /// Bind it to its endpoint.
    Bind,
    /// Wait until its guest answers.
    AwaitGuest(ReadinessRecovery),
    /// Have its image fetched again, in the background.
    RefillWarmPool,
}

/// The wait for a guest is part of taking a session up: the VM has a guest that answers, and no
/// cluster, whose sessions are bound before their guests are needed, runs it.
pub open spec fn waits_for_guest(vm: Vm, clustered: bool) -> bool {
    has_guest_rpc(vm) && !clustered
}

/// The steps by which the VM of an existing session is brought to run. One that comes over from
/// another endpoint is restored even where its VM seems to run.
pub open spec fn attach_path(endpoint_handoff: bool, state: VmState) -> Seq<SessionStep> {
    if endpoint_handoff || state != VmState::Running {
        seq![
            SessionStep::Restore { enforce_tier_b: endpoint_handoff },
            SessionStep::EnsureRunning,
        ]
    } else {
        seq![SessionStep::EnsureRunning]
    }
}

/// The steps by which the VM of an existing session is brought to run.
pub fn attach_steps(endpoint_handoff: bool, state: VmState) -> (steps: Vec<SessionStep>)
    ensures
        steps@ == attach_path(endpoint_handoff, state),
{
    let mut steps: Vec<SessionStep> = Vec::new();
    if endpoint_handoff || state != VmState::Running {
        steps.push(SessionStep::Restore { enforce_tier_b: endpoint_handoff });
    }
    steps.push(SessionStep::EnsureRunning);
    assert(steps@ =~= attach_path(endpoint_handoff, state));
    steps
}

/// The steps that follow once the VM of an existing session runs.
pub open spec fn running_path(vm: Vm, clustered: bool) -> Seq<SessionStep> {
    if waits_for_guest(vm, clustered) {
        seq![
            SessionStep::AwaitGuest(ReadinessRecovery::RestartIfNotFreshlyStarted),
            SessionStep::Bind,
        ]
    } else {
        seq![SessionStep::Bind]
    }
}

/// The steps that follow once the VM of an existing session runs.
pub fn running_steps(vm: &Vm, clustered: bool) -> (steps: Vec<SessionStep>)
    ensures
        steps@ == running_path(*vm, clustered),
{
    let mut steps: Vec<SessionStep> = Vec::new();
    if vm_has_guest_rpc(vm) && !clustered {
        steps.push(SessionStep::AwaitGuest(ReadinessRecovery::RestartIfNotFreshlyStarted));
    }
    steps.push(SessionStep::Bind);
    assert(steps@ =~= running_path(*vm, clustered));
    steps
}

/// The steps that follow the creation of a session's VM.
pub open spec fn create_path(
    auto_start: bool,
    created: Vm,
    clustered: bool,
    warm_pool_hit: bool,
) -> Seq<SessionStep> {
    let wait = if (auto_start || created.state == VmState::Running) && waits_for_guest(
        created,
        clustered,
    ) {
        seq![SessionStep::AwaitGuest(ReadinessRecovery::FreshBoot)]
    } else {
        Seq::empty()
    };
    let refill = if warm_pool_hit {
        Seq::empty()
    } else {
        seq![SessionStep::RefillWarmPool]
    };
    seq![SessionStep::Bind] + wait + refill
}

/// The steps that follow the creation of a session's VM.
pub fn create_steps(auto_start: bool, created: &Vm, clustered: bool, warm_pool_hit: bool) -> (steps:
    Vec<SessionStep>)
    ensures
        steps@ == create_path(auto_start, *created, clustered, warm_pool_hit),
{
    let mut steps: Vec<SessionStep> = Vec::new();
    steps.push(SessionStep::Bind);
    if (auto_start || created.state == VmState::Running) && vm_has_guest_rpc(created)
        && !clustered {
        steps.push(SessionStep::AwaitGuest(ReadinessRecovery::FreshBoot));
    }
    if !warm_pool_hit {
        steps.push(SessionStep::RefillWarmPool);
    }
    assert(steps@ =~= create_path(auto_start, *created, clustered, warm_pool_hit));
    steps
}

/// A session that comes over from another endpoint is restored first, whatever its VM seems to
/// do, and its marker is enforced.
pub proof fn law_handoff_restores_first(state: VmState)
    ensures
        attach_path(true, state)[0] == (SessionStep::Restore { enforce_tier_b: true }),
{
}

/// A VM that a call has created is never restarted by the wait for its guest.
pub proof fn law_created_vm_boots_in_peace(
    auto_start: bool,
    created: Vm,
    clustered: bool,
    warm: bool,
)
    ensures
        forall|i: int|
            0 <= i < create_path(auto_start, created, clustered, warm).len() ==> (
            #[trigger] create_path(auto_start, created, clustered, warm)[i]
                != SessionStep::AwaitGuest(ReadinessRecovery::RestartIfNotFreshlyStarted)),
{
}

/// A session comes over from another endpoint: its route, or else the primary endpoint, names
/// another than the one its VM was found on.
pub open spec fn handoff(
    route_endpoint: Option<Seq<char>>,
    primary: Seq<char>,
    node_endpoint: Seq<char>,
) -> std::result::Result<bool, ErrorView> {
    match normalized_endpoint(node_endpoint) {
        Err(e) => Err(e),
        Ok(node) => match normalized_endpoint(
            match nonblank(route_endpoint) {
                Some(route) => route,
                None => primary,
            },
        ) {
            Err(e) => Err(e),
            Ok(known) => Ok(known != node),
        },
    }
}

/// Whether a session comes over from another endpoint.
pub fn session_attach_is_endpoint_handoff(
    route_endpoint: Option<&str>,
    primary: &str,
    node_endpoint: &str,
) -> (r: Result<bool>)
    ensures
        match r {
            Ok(b) => handoff(crate::exec::opt_str_view(route_endpoint), primary@, node_endpoint@)
                == std::result::Result::<bool, ErrorView>::Ok(b),
            Err(e) => handoff(crate::exec::opt_str_view(route_endpoint), primary@, node_endpoint@)
                == std::result::Result::<bool, ErrorView>::Err(e@),
        },
{
    let node = match normalize_endpoint(node_endpoint) {
        Ok(node) => node,
        Err(e) => return Err(e),
    };
    let known: &str = match route_endpoint {
        Some(route) => if trim(route).as_str().is_empty() {
            primary
        } else {
            route
        },
        None => primary,
    };
    match normalize_endpoint(known) {
        Ok(known) => Ok(!crate::text::same(&known, &node)),
        Err(e) => Err(e),
    }
}

/// The endpoint for a new session in a cluster: that of its route where it has one, else that of
/// the node that was chosen.
pub fn clustered_endpoint(route_endpoint: Option<&str>, chosen: &str) -> (r: Result<String>)
    ensures
        crate::error::outcome(r) == normalized_endpoint(
            match nonblank(crate::exec::opt_str_view(route_endpoint)) {
                Some(route) => route,
                None => chosen@,
            },
        ),
{
    match route_endpoint {
        Some(route) => if trim(route).as_str().is_empty() {
            normalize_endpoint(chosen)
        } else {
            normalize_endpoint(route)
        },
        None => normalize_endpoint(chosen),
    }
}

/// The first candidate that is healthy, else the primary endpoint.
pub open spec fn healthy_endpoint(
    candidates: Seq<Seq<char>>,
    healthy: Seq<bool>,
    primary: Seq<char>,
) -> Seq<char>
    decreases candidates.len(),
{
    if candidates.len() == 0 || healthy.len() == 0 {
        primary
    } else if healthy[0] {
        candidates[0]
    } else {
        healthy_endpoint(candidates.drop_first(), healthy.drop_first(), primary)
    }
}

/// The first candidate that is healthy, else the primary endpoint. Candidates past the end of
/// `healthy` were not asked.
pub fn first_healthy_endpoint(
    candidates: &Vec<String>,
    healthy: &Vec<bool>,
    primary: &str,
) -> (endpoint: String)
    ensures
        endpoint@ == healthy_endpoint(views(candidates@), healthy@, primary@),
{
    let ghost all = views(candidates@);
    let mut i: usize = 0;
    assert(all.skip(0) == all);
    assert(healthy@.skip(0) == healthy@);
    while i < candidates.len() && i < healthy.len()
        invariant
            i <= candidates@.len(),
            i <= healthy@.len(),
            all == views(candidates@),
            healthy_endpoint(all, healthy@, primary@) == healthy_endpoint(
                all.skip(i as int),
                healthy@.skip(i as int),
                primary@,
            ),
        decreases candidates@.len() - i,
    {
        if healthy[i] {
            assert(all.skip(i as int)[0] == candidates@[i as int]@);
            return candidates[i].clone();
        }
        assert(all.skip(i as int).drop_first() == all.skip(i + 1));
        assert(healthy@.skip(i as int).drop_first() == healthy@.skip(i + 1));
        i += 1;
    }
    primary.to_owned()
}

// ---------------------------------------------------------------------------
// The session itself
// ---------------------------------------------------------------------------
/// The directory in which a provider-managed session works: the guest path of its first mount.
pub open spec fn managed_workspace_root(mounts: Seq<SharedMount>) -> Seq<char> {
    workspace_root_of(
        if mounts.len() > 0 {
            Some(mounts[0].guest_path@)
        } else {
            None
        },
    )
}

/// A session.
#[derive(Debug)]
pub struct Session {
    session_id: String,
    vm_id: String,
    workspace_root: String,
    route: crate::rebind::RouteState,
    shared_mounts: Vec<SharedMount>,
}

/// The model of a `Session`.
pub struct SessionView {
    pub session_id: Seq<char>,
    pub vm_id: Seq<char>,
    pub workspace_root: Seq<char>,
    pub endpoint: Seq<char>,
    pub fence: Option<Seq<char>>,
}

impl View for Session {
    type V = SessionView;

    closed spec fn view(&self) -> SessionView {
        SessionView {
            session_id: self.session_id@,
            vm_id: self.vm_id@,
            workspace_root: self.workspace_root@,
            endpoint: self.route.endpoint@,
            fence: opt_view(self.route.fence),
        }
    }
}

impl Session {
    /// The mounts of the session.
    pub closed spec fn mounts(&self) -> Seq<SharedMount> {
        self.shared_mounts@
    }

    /// A session at a provider that manages its VMs.
    pub fn new_with_backend(
        session_id: String,
        vm_id: String,
        node_endpoint: String,
        ownership_fence: Option<String>,
        shared_mounts: Vec<SharedMount>,
    ) -> (s: Session)
        ensures
            s@ == (SessionView {
                session_id: session_id@,
                vm_id: vm_id@,
                workspace_root: managed_workspace_root(shared_mounts@),
                endpoint: node_endpoint@,
                fence: opt_view(ownership_fence),
            }),
            s.mounts() == shared_mounts@,
    {
        let workspace_root = if shared_mounts.len() > 0 {
            let path = trim(&shared_mounts[0].guest_path);
            if path.as_str().is_empty() {
                "/workspace".to_owned()
            } else {
                path
            }
        } else {
            "/workspace".to_owned()
        };
        Session {
            session_id,
            vm_id,
            workspace_root,
            route: crate::rebind::RouteState { endpoint: node_endpoint, fence: ownership_fence },
            shared_mounts,
        }
    }

    /// A session on a node, as its VM was found there.
    pub fn on_node(
        session_id: String,
        vm: &Vm,
        node_endpoint: String,
        ownership_fence: Option<String>,
        shared_mounts: Vec<SharedMount>,
    ) -> (s: Session)
        ensures
            s@ == (SessionView {
                session_id: session_id@,
                vm_id: vm.id@,
                workspace_root: workspace_root_of(opt_view(vm.workspace_root)),
                endpoint: node_endpoint@,
                fence: opt_view(ownership_fence),
            }),
            s.mounts() == shared_mounts@,
    {
        Session {
            session_id,
            vm_id: vm.id.clone(),
            workspace_root: crate::vm::vm_workspace_root(vm),
            route: crate::rebind::RouteState { endpoint: node_endpoint, fence: ownership_fence },
            shared_mounts,
        }
    }

    pub fn session_id(&self) -> (id: &str)
        ensures
            id@ == self@.session_id,
    {
        self.session_id.as_str()
    }

    pub fn vm_id(&self) -> (id: &str)
        ensures
            id@ == self@.vm_id,
    {
        self.vm_id.as_str()
    }

    pub fn workspace_root(&self) -> (root: &str)
        ensures
            root@ == self@.workspace_root,
    {
        self.workspace_root.as_str()
    }

    /// The endpoint at which the session is now.
    pub fn endpoint(&self) -> (endpoint: &str)
        ensures
            endpoint@ == self@.endpoint,
    {
        self.route.endpoint.as_str()
    }

    /// The fence under which the session is owned.
    pub fn ownership_fence(&self) -> (fence: Option<String>)
        ensures
            opt_view(fence) == self@.fence,
    {
        self.route.fence.clone()
    }

    /// The mounts of the session.
    pub fn shared_mounts(&self) -> (mounts: &Vec<SharedMount>)
        ensures
            mounts@ == self.mounts(),
    {
        &self.shared_mounts
    }

    /// Takes over a resolved endpoint, and a new fence where one came with it.
    pub fn update_route_state(&mut self, resolved_endpoint: &str, next_fence: Option<String>)
        ensures
            final(self)@ == (SessionView {
                endpoint: resolved_endpoint@,
                fence: if next_fence is Some {
                    opt_view(next_fence)
                } else {
                    old(self)@.fence
                },
                ..old(self)@
            }),
            final(self).mounts() == old(self).mounts(),
    {
        self.route.update(resolved_endpoint, next_fence);
    }
}

// ---------------------------------------------------------------------------
// Operations on the VM
// ---------------------------------------------------------------------------
pub const VMD_DELETE_TIMEOUT_SECS: u64 = 60;

pub const VMD_VM_START_TIMEOUT_SECS: u64 = 600;

pub const VMD_VM_STOP_TIMEOUT_SECS: u64 = 150;

/// Long enough for a graceful shutdown and a fresh boot.
pub const VMD_RESTART_TIMEOUT_SECS: u64 = 240;

/// The longest that a node waits for a graceful shutdown.
pub const GRACEFUL_STOP_SECS: u64 = 180;

/// A restart may take as long as a graceful shutdown, and half a minute more.
pub proof fn law_restart_deadline_covers_graceful_stop()
    ensures
        VMD_RESTART_TIMEOUT_SECS >= GRACEFUL_STOP_SECS + 30,
{
}

/// What is done to a session's VM.
#[derive(Clone, Copy, Debug, PartialEq, Eq, Structural)]
pub enum SessionVmAction {
    Start,
    Restart,
    Pause,
    Resume,
    Stop,
}

/// How long an action may take, and whether it makes what is known of the path to the guest void.
#[derive(Clone, Copy, Debug, PartialEq, Eq, Structural)]
pub struct VmActionPlan {
    pub timeout: Span,
    pub invalidates_path: bool,
}

/// How an action is carried out on a node.
pub fn vm_action_plan(action: SessionVmAction, connect_timeout: Span) -> (plan: VmActionPlan)
    ensures
        plan.timeout == (match action {
            SessionVmAction::Start | SessionVmAction::Restart => Span {
                secs: VMD_VM_START_TIMEOUT_SECS,
                nanos: 0,
            },
            SessionVmAction::Stop => Span { secs: VMD_VM_STOP_TIMEOUT_SECS, nanos: 0 },
            SessionVmAction::Pause | SessionVmAction::Resume => connect_timeout,
        }),
        plan.invalidates_path == (action is Pause || action is Stop),
{
    let timeout = match action {
        SessionVmAction::Start | SessionVmAction::Restart => Span::from_secs(
            VMD_VM_START_TIMEOUT_SECS,
        ),
        SessionVmAction::Stop => Span::from_secs(VMD_VM_STOP_TIMEOUT_SECS),
        SessionVmAction::Pause | SessionVmAction::Resume => connect_timeout,
    };
    let invalidates_path: bool = match action {
        SessionVmAction::Pause | SessionVmAction::Stop => true,
        _ => false,
    };
    VmActionPlan { timeout, invalidates_path }
}

/// What is done with a session's VM when its mounts change.
#[derive(Clone, Copy, Debug, PartialEq, Eq, Structural)]
pub struct RemountPlan {
    pub stop_first: bool,
    pub start_after: bool,
    pub pause_after: bool,
}

/// A VM is stopped for the change and brought back to the state that it had.
pub fn remount_plan(original: VmState) -> (plan: RemountPlan)
    ensures
        plan.stop_first == (original == VmState::Running || original == VmState::Paused),
        plan.start_after == plan.stop_first,
        plan.pause_after == (original == VmState::Paused),
{
    match original {
        VmState::Running => RemountPlan { stop_first: true, start_after: true, pause_after: false },
        VmState::Paused => RemountPlan { stop_first: true, start_after: true, pause_after: true },
        _ => RemountPlan { stop_first: false, start_after: false, pause_after: false },
    }
}

/// The metadata of a fork: what the caller gives, the child's id, and where it comes from.
pub fn fork_metadata(
    given: StringMap,
    child_session_id: &str,
    parent_session_id: &str,
    parent_vm_id: &str,
) -> (metadata: StringMap)
    ensures
        metadata@ == given@.insert(META_SESSION_ID@, child_session_id@).insert(
            META_PARENT_SESSION_ID@,
            parent_session_id@,
        ).insert(META_PARENT_VM_ID@, parent_vm_id@),
{
    let mut metadata = given;
    metadata.insert(META_SESSION_ID.to_owned(), child_session_id.to_owned());
    metadata.insert(META_PARENT_SESSION_ID.to_owned(), parent_session_id.to_owned());
    metadata.insert(META_PARENT_VM_ID.to_owned(), parent_vm_id.to_owned());
    metadata
}

/// An operation that only some sessions have.
#[derive(Clone, Copy, Debug, PartialEq, Eq, Structural)]
pub enum SpecialOperation {
    Desktop,
    UpdateResources,
    ReconfigureSharedMounts,
    Pci,
    ListSnapshots,
    Restore,
    DurableVolumes,
    PreviewUrl,
    RestoreCheckpoint,
}

/// Which sessions an operation is for.
pub open spec fn operation_note(operation: SpecialOperation) -> Seq<char> {
    match operation {
        SpecialOperation::Desktop => "VM desktops are only available for vmd-backed sandboxes"@,
        SpecialOperation::UpdateResources => {
            "resource updates are only available for vmd-backed sandboxes"@
        },
        SpecialOperation::ReconfigureSharedMounts => {
            "shared mount reconfiguration is only available for vmd-backed sandboxes"@
        },
        SpecialOperation::Pci => "PCI assignment is only available for vmd-backed sandboxes"@,
        SpecialOperation::ListSnapshots => {
            "list_snapshots is only available for vmd-backed sandboxes"@
        },
        SpecialOperation::Restore => {
            "restore is only available for vmd-backed sandboxes; use restore_checkpoint for provider-managed sandboxes"@
        },
        SpecialOperation::DurableVolumes => {
            "durable data volumes are only available for vmd-backed sandboxes"@
        },
        SpecialOperation::PreviewUrl => {
            "provider preview URLs are only available for provider-managed sandboxes"@
        },
        SpecialOperation::RestoreCheckpoint => {
            "restore_checkpoint is only available for provider-managed sandboxes"@
        },
    }
}

/// The operation is for sessions at a provider that manages its VMs.
pub open spec fn for_managed(operation: SpecialOperation) -> bool {
    operation is PreviewUrl || operation is RestoreCheckpoint
}

/// Checks that a session has an operation.
pub fn check_operation(operation: SpecialOperation, managed: bool) -> (r: Result<()>)
    ensures
        match r {
            Ok(_) => managed == for_managed(operation),
            Err(e) => managed != for_managed(operation) && e@ == ErrorView::Unsupported(
                operation_note(operation),
            ),
        },
{
    let wants_managed: bool = match operation {
        SpecialOperation::PreviewUrl | SpecialOperation::RestoreCheckpoint => true,
        _ => false,
    };
    if managed == wants_managed {
        return Ok(());
    }
    let note: &str = match operation {
        SpecialOperation::Desktop => "VM desktops are only available for vmd-backed sandboxes",
        SpecialOperation::UpdateResources => {
            "resource updates are only available for vmd-backed sandboxes"
        },
        SpecialOperation::ReconfigureSharedMounts => {
            "shared mount reconfiguration is only available for vmd-backed sandboxes"
        },
        SpecialOperation::Pci => "PCI assignment is only available for vmd-backed sandboxes",
        SpecialOperation::ListSnapshots => {
            "list_snapshots is only available for vmd-backed sandboxes"
        },
        SpecialOperation::Restore => {
            "restore is only available for vmd-backed sandboxes; use restore_checkpoint for provider-managed sandboxes"
        },
        SpecialOperation::DurableVolumes => {
            "durable data volumes are only available for vmd-backed sandboxes"
        },
        SpecialOperation::PreviewUrl => {
            "provider preview URLs are only available for provider-managed sandboxes"
        },
        SpecialOperation::RestoreCheckpoint => {
            "restore_checkpoint is only available for provider-managed sandboxes"
        },
    };
    Err(SandboxError::Unsupported(note.to_owned()))
}

/// The error of a port that a provider serves at a URL of its own.
pub fn preview_only(provider: &str, guest_port: u16, preview: &str) -> (e: SandboxError)
    ensures
        e@ == ErrorView::Unsupported(
            provider@ + " exposes guest port "@ + crate::numeral::decimal(guest_port as nat)
                + " at "@ + preview@
                + "; the current ForwardHandle API returns local host ports only"@,
        ),
{
    let port = crate::numeral::to_decimal(guest_port as u64);
    SandboxError::Unsupported(
        provider.to_owned().concat(" exposes guest port ").concat(&port).concat(" at ").concat(
            preview,
        ).concat("; the current ForwardHandle API returns local host ports only"),
    )
}

// ---------------------------------------------------------------------------
// What a session gets
// ---------------------------------------------------------------------------
/// A session that asks for an architecture gets it, whatever it boots from and whatever the sandbox and
/// its host have. Where it asks for none, a template decides, then the default, then the host.
pub proof fn law_requested_architecture_is_ordered(
    source_type: SessionSourceType,
    requested: Seq<char>,
    default: Option<Seq<char>>,
    host: Option<Seq<char>>,
)
    ensures
        session_architecture(source_type, Some(requested), default, host) == architecture_label(
            requested,
        ),
        session_architecture(SessionSourceType::MacosTemplate, None, default, host)
            == architecture_label("arm64"@),
        session_architecture(SessionSourceType::WindowsTemplate, None, default, host)
            == architecture_label(""@),
        source_type is Docker || source_type is Snapshot ==> {
            &&& default matches Some(d) ==> session_architecture(source_type, None, default, host)
                == architecture_label(d)
            &&& default is None ==> (host matches Some(h) ==> session_architecture(
                source_type,
                None,
                default,
                host,
            ) == architecture_label(h))
            &&& default is None && host is None ==> session_architecture(
                source_type,
                None,
                default,
                host,
            ) == architecture_label(""@)
        },
{
}

/// A template fixes the platform of its guest, and nothing else does.
pub proof fn law_template_fixes_platform(source_type: SessionSourceType)
    ensures
        source_type is MacosTemplate ==> fixed_platform(source_type) == Some(
            (GuestPlatform::Macos, 1u32),
        ),
        source_type is WindowsTemplate ==> fixed_platform(source_type) == Some(
            (GuestPlatform::Windows, 1u32),
        ),
        source_type is Docker || source_type is Snapshot ==> fixed_platform(source_type) is None,
{
}

/// The metadata of a planned session holds all that was given, a tenant and a workspace, which are the
/// default ones where none is given, and whether the session may move.
pub proof fn law_planned_metadata_holds_what_was_given(
    given: Map<Seq<char>, Seq<char>>,
    key: Seq<char>,
)
    requires
        key != "chevalier.tier_b_eligible"@,
        key != "chevalier.execution_fidelity_requirement"@,
    ensures
        given.contains_key(key) ==> node_metadata(given).contains_key(key) && node_metadata(
            given,
        )[key] == given[key],
        node_metadata(given).contains_key(key) ==> given.contains_key(key) || key == "tenant_id"@
            || key == "workspace_id"@,
        !given.contains_key("tenant_id"@) && key == "tenant_id"@ ==> node_metadata(given)[key]
            == "default"@,
        !given.contains_key("workspace_id"@) && key == "workspace_id"@ ==> node_metadata(given)[key]
            == "default"@,
        node_metadata(given).contains_key("tenant_id"@),
        node_metadata(given).contains_key("workspace_id"@),
        node_metadata(given).contains_key("chevalier.tier_b_eligible"@),
        tier_b_eligible(given) ==> node_metadata(given)["chevalier.tier_b_eligible"@] == "true"@
            && node_metadata(given)["chevalier.execution_fidelity_requirement"@] == "disk+memory"@,
        !tier_b_eligible(given) ==> node_metadata(given)["chevalier.tier_b_eligible"@] == "false"@
            && node_metadata(given)["chevalier.execution_fidelity_requirement"@] == "best-effort"@,
{
    lemma_scope_keeps_eligibility(given);
    reveal_strlit("tenant_id");
    reveal_strlit("workspace_id");
    reveal_strlit("chevalier.tier_b_eligible");
    reveal_strlit("chevalier.execution_fidelity_requirement");
    assert("tenant_id"@.len() == 9 && "workspace_id"@.len() == 12);
    assert("chevalier.tier_b_eligible"@.len() == 25);
    assert("chevalier.execution_fidelity_requirement"@.len() == 40);
}

/// The metadata of a session at a provider holds all that was given but for what the sandbox itself
/// sets: the id and the name that were asked for, and that the provider sees to the rest.
pub proof fn law_managed_metadata_holds_what_was_given(
    given: Map<Seq<char>, Seq<char>>,
    session_id: Option<Seq<char>>,
    name: Option<Seq<char>>,
    key: Seq<char>,
)
    requires
        key != "chevalier.tier_b_eligible"@,
        key != "chevalier.execution_fidelity_requirement"@,
        key != "chevalier.requested_session_id"@,
        key != "chevalier.name"@,
        key != "chevalier.session_id"@,
    ensures
        ({
            let m = managed_metadata(given, session_id, name);
            &&& given.contains_key(key) ==> m.contains_key(key) && m[key] == given[key]
            &&& m.contains_key(key) ==> given.contains_key(key) || key == "tenant_id"@ || key
                == "workspace_id"@
            &&& session_id matches Some(id) ==> m.contains_key("chevalier.session_id"@)
                && m["chevalier.session_id"@] == id && m["chevalier.requested_session_id"@] == id
            &&& name is Some && trimmed(name->Some_0).len() > 0 ==> m.contains_key(
                "chevalier.name"@,
            ) && m["chevalier.name"@] == name->Some_0
            &&& m["chevalier.tier_b_eligible"@] == "false"@
            &&& m["chevalier.execution_fidelity_requirement"@] == "provider-managed"@
        }),
{
    reveal_strlit("tenant_id");
    reveal_strlit("workspace_id");
    reveal_strlit("chevalier.tier_b_eligible");
    reveal_strlit("chevalier.execution_fidelity_requirement");
    reveal_strlit("chevalier.requested_session_id");
    reveal_strlit("chevalier.name");
    reveal_strlit("chevalier.session_id");
    assert("tenant_id"@.len() == 9 && "workspace_id"@.len() == 12);
    assert("chevalier.tier_b_eligible"@.len() == 25 && "chevalier.name"@.len() == 14);
    assert("chevalier.execution_fidelity_requirement"@.len() == 40);
    assert("chevalier.requested_session_id"@.len() == 30 && "chevalier.session_id"@.len() == 20);
}

/// A session that is taken up on its own endpoint, with its VM running, is restored from nothing. One
/// whose VM does not run is restored first where it names a snapshot, and only one that comes over from
/// another endpoint must name one. In every case its VM is brought to run in the end.
pub proof fn law_session_is_taken_up_in_order(endpoint_handoff: bool, state: VmState)
    ensures
        attach_path(endpoint_handoff, state).len() > 0,
        attach_path(endpoint_handoff, state).last() == SessionStep::EnsureRunning,
        attach_path(false, VmState::Running) == seq![SessionStep::EnsureRunning],
        endpoint_handoff ==> attach_path(endpoint_handoff, state)[0] == (SessionStep::Restore {
            enforce_tier_b: true,
        }),
        !endpoint_handoff && state != VmState::Running ==> attach_path(endpoint_handoff, state)[0]
            == (SessionStep::Restore { enforce_tier_b: false }),
        attach_path(endpoint_handoff, state).len() <= 2,
{
}

/// A session outside a cluster is bound only after its guest has answered; in a cluster it is bound at
/// once. A running guest that stays silent may be restarted for that.
pub proof fn law_running_session_is_bound_last(vm: Vm)
    ensures
        running_path(vm, true) == seq![SessionStep::Bind],
        running_path(vm, false) == seq![
            SessionStep::AwaitGuest(ReadinessRecovery::RestartIfNotFreshlyStarted),
            SessionStep::Bind,
        ],
{
}

/// A new session is bound first. Its guest is waited for outside a cluster, where it is started or
/// runs, and a session that took its image from the pool does not have it fetched again.
pub proof fn law_new_session_is_bound_first(
    auto_start: bool,
    created: Vm,
    clustered: bool,
    warm_pool_hit: bool,
)
    ensures
        ({
            let path = create_path(auto_start, created, clustered, warm_pool_hit);
            let wait = SessionStep::AwaitGuest(ReadinessRecovery::FreshBoot);
            &&& path[0] == SessionStep::Bind
            &&& path.contains(wait) <==> !clustered && (auto_start || created.state
                == VmState::Running)
            &&& path.contains(SessionStep::RefillWarmPool) <==> !warm_pool_hit
            &&& path.len() <= 3
            &&& path.contains(wait) ==> path[1] == wait
        }),
{
    let path = create_path(auto_start, created, clustered, warm_pool_hit);
    let wait = SessionStep::AwaitGuest(ReadinessRecovery::FreshBoot);
    if !clustered && (auto_start || created.state == VmState::Running) {
        assert(path[1] == wait);
        if !warm_pool_hit {
            assert(path[2] == SessionStep::RefillWarmPool);
        }
    } else if !warm_pool_hit {
        assert(path[1] == SessionStep::RefillWarmPool);
    }
}

/// A session comes over from another endpoint exactly where the endpoint that is known of it, from its
/// route or else the primary one, and the one on which its VM was found differ in their normal form.
pub proof fn law_handoff_is_a_change_of_endpoint(
    route: Seq<char>,
    primary: Seq<char>,
    node: Seq<char>,
    known_form: Seq<char>,
    node_form: Seq<char>,
)
    requires
        normalized_endpoint(node) == std::result::Result::<Seq<char>, ErrorView>::Ok(node_form),
    ensures
        trimmed(route).len() > 0 && normalized_endpoint(route) == std::result::Result::<
            Seq<char>,
            ErrorView,
        >::Ok(known_form) ==> handoff(Some(route), primary, node) == std::result::Result::<
            bool,
            ErrorView,
        >::Ok(known_form != node_form),
        normalized_endpoint(primary) == std::result::Result::<Seq<char>, ErrorView>::Ok(known_form)
            ==> handoff(None, primary, node) == std::result::Result::<bool, ErrorView>::Ok(
            known_form != node_form,
        ),
        trimmed(route).len() == 0 ==> handoff(Some(route), primary, node) == handoff(
            None,
            primary,
            node,
        ),
{
}

/// A new session goes to the first candidate that is healthy, and to the primary endpoint where none is.
pub proof fn law_first_healthy_endpoint_is_taken(
    candidates: Seq<Seq<char>>,
    healthy: Seq<bool>,
    primary: Seq<char>,
)
    requires
        candidates.len() == healthy.len(),
    ensures
        forall|i: int|
            0 <= i < candidates.len() && #[trigger] healthy[i] && (forall|j: int|
                0 <= j < i ==> !#[trigger] healthy[j]) ==> healthy_endpoint(
                candidates,
                healthy,
                primary,
            ) == candidates[i],
        (forall|j: int| 0 <= j < healthy.len() ==> !#[trigger] healthy[j]) ==> healthy_endpoint(
            candidates,
            healthy,
            primary,
        ) == primary,
    decreases candidates.len(),
{
    if candidates.len() > 0 && !healthy[0] {
        let c = candidates.drop_first();
        let h = healthy.drop_first();
        law_first_healthy_endpoint_is_taken(c, h, primary);
        assert forall|i: int|
            0 <= i < candidates.len() && #[trigger] healthy[i] && (forall|j: int|
                0 <= j < i ==> !#[trigger] healthy[j]) implies healthy_endpoint(
            candidates,
            healthy,
            primary,
        ) == candidates[i] by {
            assert(h[i - 1] == healthy[i]);
            assert forall|j: int| 0 <= j < i - 1 implies !#[trigger] h[j] by {
                assert(h[j] == healthy[j + 1]);
            }
            assert(c[i - 1] == candidates[i]);
        }
        if forall|j: int| 0 <= j < healthy.len() ==> !#[trigger] healthy[j] {
            assert forall|j: int| 0 <= j < h.len() implies !#[trigger] h[j] by {
                assert(h[j] == healthy[j + 1]);
            }
        }
    }
}

/// An operation that only a provider offers is the preview of a port or the restoring of a checkpoint;
/// every other special one is for the VMs of nodes.
pub proof fn law_special_operations(operation: SpecialOperation)
    ensures
        for_managed(operation) == (operation is PreviewUrl || operation is RestoreCheckpoint),
        operation is Desktop || operation is Pci || operation is DurableVolumes || operation
            is UpdateResources || operation is ReconfigureSharedMounts || operation is ListSnapshots
            || operation is Restore ==> !for_managed(operation),
{
}

/// The name of a session that was given none is made of the first eight bytes of its id.
pub proof fn law_unnamed_session_is_named_by_its_id(session_id: Seq<char>, head: Seq<char>)
    requires
        encode_utf8(head).len() == 8,
        encode_utf8(head) == encode_utf8(session_id).subrange(0, 8),
    ensures
        default_session_name(session_id) == "chevalier-session-"@ + head,
{
    encode_utf8_decode_utf8(head);
}

/// Every mount of a session is sent, in their order.
pub proof fn law_every_mount_is_sent(sent: Seq<WireMount>, mounts: Seq<SharedMount>, i: int)
    requires
        are_sent_forms(sent, mounts),
    ensures
        sent.len() == mounts.len(),
        0 <= i < mounts.len() ==> sent[i].guest_path@ == mounts[i].guest_path@ && sent[i].mount_tag@
            == mounts[i].mount_tag@ && sent[i].host_path@ == mounts[i].host_path@
            && sent[i].read_only == mounts[i].read_only,
{
}

/// A value that is not given is the usual one; one that is given stays, and what is set is set.
pub proof fn law_given_values_stay(
    map: Map<Seq<char>, Seq<char>>,
    key: Seq<char>,
    other: Seq<char>,
    value: Seq<char>,
)
    ensures
        map.contains_key(key) ==> value_or(map, key, value) == map[key],
        !map.contains_key(key) ==> value_or(map, key, value) == value,
        map.contains_key(key) ==> with_default(map, key, value) == map,
        !map.contains_key(key) ==> with_default(map, key, value) == map.insert(key, value),
        with_optional(map, key, Some(value)) == map.insert(key, value),
        with_optional(map, key, None) == map,
        other != key && map.contains_key(other) ==> with_default(map, key, value)[other]
            == map[other] && with_optional(map, key, Some(value))[other] == map[other],
{
}

/// A session at a provider works in the directory of its first mount.
pub proof fn law_managed_session_works_in_first_mount(mounts: Seq<SharedMount>)
    ensures
        mounts.len() > 0 ==> managed_workspace_root(mounts) == crate::vm::workspace_root_of(
            Some(mounts[0].guest_path@),
        ),
        mounts.len() == 0 ==> managed_workspace_root(mounts) == crate::vm::workspace_root_of(None),
{
}

/// An id can name its session where it has eight bytes at least and they end with a character.
pub proof fn law_long_id_names_session(session_id: Seq<char>)
    ensures
        can_name_session(session_id) ==> encode_utf8(session_id).len() >= 8,
        encode_utf8(session_id).len() >= 8 && is_char_boundary(encode_utf8(session_id), 8)
            ==> can_name_session(session_id),
        encode_utf8(session_id).len() < 8 ==> !can_name_session(session_id),
{
}

/// What an operation that a provider does not have is told by.
pub proof fn law_missing_operations_are_told()
    ensures
        operation_note(SpecialOperation::Desktop)
            == "VM desktops are only available for vmd-backed sandboxes"@,
        operation_note(SpecialOperation::UpdateResources)
            == "resource updates are only available for vmd-backed sandboxes"@,
        operation_note(SpecialOperation::ReconfigureSharedMounts)
            == "shared mount reconfiguration is only available for vmd-backed sandboxes"@,
        operation_note(SpecialOperation::Pci)
            == "PCI assignment is only available for vmd-backed sandboxes"@,
        operation_note(SpecialOperation::ListSnapshots)
            == "list_snapshots is only available for vmd-backed sandboxes"@,
        operation_note(SpecialOperation::Restore)
            == "restore is only available for vmd-backed sandboxes; use restore_checkpoint for provider-managed sandboxes"@,
        operation_note(SpecialOperation::DurableVolumes)
            == "durable data volumes are only available for vmd-backed sandboxes"@,
        operation_note(SpecialOperation::PreviewUrl)
            == "provider preview URLs are only available for provider-managed sandboxes"@,
        operation_note(SpecialOperation::RestoreCheckpoint)
            == "restore_checkpoint is only available for provider-managed sandboxes"@,
{
}

/// How long a VM has to stop and to start again: three minutes for a stop in good order, two and a half
/// for the node to stop it, four for a restart.
pub proof fn law_stops_and_restarts_have_their_time()
    ensures
        GRACEFUL_STOP_SECS == 180,
        VMD_VM_STOP_TIMEOUT_SECS == 150,
        VMD_RESTART_TIMEOUT_SECS == 240,
{
}

} // verus!
