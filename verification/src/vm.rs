//! What a node says of a VM, and what the library reads from it.

use crate::error::ErrorView;
use crate::error::Result;
use crate::error::SandboxError;
use crate::mounts::first_violation;
use crate::mounts::is_received_form;
use crate::mounts::mount_models;
use crate::mounts::needs_profile;
use crate::mounts::received_models;
use crate::mounts::received_mount;
use crate::mounts::required_shared_mount_profiles;
use crate::mounts::validate_shared_mount_contract;
use crate::mounts::SharedMount;
use crate::mounts::WireMount;
use crate::order::increasing;
use crate::table::looked_up;
use crate::table::StringMap;
use crate::text::lowered;
use crate::text::same;
use crate::text::to_lower;
use crate::text::trim;
use crate::text::trimmed;
use crate::text::views;
use vstd::prelude::*;

verus! {

pub const META_SESSION_ID: &'static str = "chevalier.session_id";

pub const META_PARENT_SESSION_ID: &'static str = "chevalier.parent_session_id";

pub const META_PARENT_VM_ID: &'static str = "chevalier.parent_vm_id";

pub const META_FORK_ID: &'static str = "chevalier.fork_id";

pub const META_FORK_SNAPSHOT: &'static str = "chevalier.fork_snapshot";

pub const META_EXEC_RESTORE_SNAPSHOT_ID: &'static str = "chevalier.execution_restore_snapshot_id";

pub const META_EXEC_RESTORE_SNAPSHOT_NAME: &'static str = "chevalier.execution_restore_snapshot_name";

pub const META_TIER_B_ELIGIBLE: &'static str = "chevalier.tier_b_eligible";

pub const META_EXECUTION_FIDELITY_REQUIREMENT: &'static str = "chevalier.execution_fidelity_requirement";

pub const META_PORTPROXY_AUTH_TOKEN: &'static str = "chevalier.portproxy_auth_token";

/// The state of a VM; a number that has no name here is kept as it came.
#[derive(Clone, Copy, Debug, PartialEq, Eq, Structural)]
pub enum VmState {
    Creating,
    Starting,
    Running,
    Pausing,
    Paused,
    Stopped,
    Other(i32),
}

/// The operating system of a guest.
#[derive(Clone, Copy, Debug, PartialEq, Eq, Structural)]
pub enum GuestPlatform {
    Unspecified,
    Linux,
    Macos,
    Windows,
}

/// A snapshot that a node holds of a VM.
#[derive(Debug)]
pub struct VmSnapshot {
    pub id: String,
    pub name: String,
}

/// The ports of the guest proxy.
#[derive(Clone, Copy, Debug, PartialEq, Eq, Structural)]
pub struct ProxyPorts {
    pub rpc_port: i32,
    pub proxy_port: i32,
}

/// What a guest runs on.
#[derive(Clone, Copy, Debug, PartialEq, Eq, Structural)]
pub struct GuestProfile {
    /// `None` for a number that names no platform.
    pub platform: Option<GuestPlatform>,
}

/// A VM as a node reports it.
#[derive(Debug)]
pub struct Vm {
    pub id: String,
    pub name: String,
    pub state: VmState,
    pub metadata: StringMap,
    pub snapshots: Vec<VmSnapshot>,
    pub ports: Option<ProxyPorts>,
    pub guest_profile: Option<GuestProfile>,
    pub workspace_root: Option<String>,
    pub shared_mounts: Vec<WireMount>,
}

// ---------------------------------------------------------------------------
// Flags in metadata
// ---------------------------------------------------------------------------
/// What a text says as a yes or no.
pub open spec fn bool_like(raw: Seq<char>) -> Option<bool> {
    let v = lowered(trimmed(raw));
    if v == "1"@ || v == "true"@ || v == "yes"@ || v == "on"@ {
        Some(true)
    } else if v == "0"@ || v == "false"@ || v == "no"@ || v == "off"@ {
        Some(false)
    } else {
        None
    }
}

/// What a text says as a yes or no.
pub fn parse_bool_like(raw: &str) -> (r: Option<bool>)
    ensures
        r == bool_like(raw@),
{
    let v = to_lower(&trim(raw));
    if same(&v, "1") || same(&v, "true") || same(&v, "yes") || same(&v, "on") {
        Some(true)
    } else if same(&v, "0") || same(&v, "false") || same(&v, "no") || same(&v, "off") {
        Some(false)
    } else {
        None
    }
}

/// The session may move between nodes: so it is unless its metadata says no.
pub open spec fn tier_b_eligible(metadata: Map<Seq<char>, Seq<char>>) -> bool {
    let raw = match looked_up(metadata, META_TIER_B_ELIGIBLE@) {
        Some(v) => Some(v),
        None => looked_up(metadata, "tier_b_eligible"@),
    };
    match raw {
        Some(v) => bool_like(v) != Some(false),
        None => true,
    }
}

/// Whether the session may move between nodes.
pub fn resolve_tier_b_eligibility(metadata: &StringMap) -> (eligible: bool)
    ensures
        eligible == tier_b_eligible(metadata@),
{
    let raw = match metadata.get(META_TIER_B_ELIGIBLE) {
        Some(v) => Some(v),
        None => metadata.get("tier_b_eligible"),
    };
    match raw {
        Some(v) => match parse_bool_like(v) {
            Some(b) => b,
            None => true,
        },
        None => true,
    }
}

/// Whether the session of a VM may move between nodes.
pub fn vm_tier_b_eligible(vm: &Vm) -> (eligible: bool)
    ensures
        eligible == tier_b_eligible(vm.metadata@),
{
    resolve_tier_b_eligibility(&vm.metadata)
}

/// The guest of a VM serves RPCs: that of every VM does.
pub open spec fn has_guest_rpc(vm: Vm) -> bool {
    true
}

/// Whether the guest of a VM serves RPCs.
pub fn vm_has_guest_rpc(vm: &Vm) -> (has: bool)
    ensures
        has == has_guest_rpc(*vm),
{
    let _ = vm;
    true
}

/// The platform of a guest: the one of its profile, Linux where it has none.
pub open spec fn guest_platform(vm: Vm) -> GuestPlatform {
    match vm.guest_profile {
        Some(profile) => match profile.platform {
            Some(platform) => platform,
            None => GuestPlatform::Linux,
        },
        None => GuestPlatform::Linux,
    }
}

/// The platform of a guest.
pub fn vm_guest_platform(vm: &Vm) -> (platform: GuestPlatform)
    ensures
        platform == guest_platform(*vm),
{
    match vm.guest_profile {
        Some(profile) => match profile.platform {
            Some(platform) => platform,
            None => GuestPlatform::Linux,
        },
        None => GuestPlatform::Linux,
    }
}

/// The directory in which a guest works: what it names, trimmed, or `/workspace`.
pub open spec fn workspace_root_of(root: Option<Seq<char>>) -> Seq<char> {
    match root {
        Some(r) => if trimmed(r).len() > 0 {
            trimmed(r)
        } else {
            "/workspace"@
        },
        None => "/workspace"@,
    }
}

/// The text of an optional string.
pub open spec fn opt_view(s: Option<String>) -> Option<Seq<char>> {
    match s {
        Some(v) => Some(v@),
        None => None,
    }
}

/// The directory in which a guest works.
pub fn vm_workspace_root(vm: &Vm) -> (root: String)
    ensures
        root@ == workspace_root_of(opt_view(vm.workspace_root)),
{
    match &vm.workspace_root {
        Some(raw) => {
            let root = trim(raw);
            if root.as_str().is_empty() {
                "/workspace".to_owned()
            } else {
                root
            }
        },
        None => "/workspace".to_owned(),
    }
}

// ---------------------------------------------------------------------------
// Mounts of a VM
// ---------------------------------------------------------------------------
/// What the mounts that a node reports stand for.
pub fn received_mounts(sent: &Vec<WireMount>) -> (mounts: Vec<SharedMount>)
    ensures
        mounts@.len() == sent@.len(),
        forall|i: int| 0 <= i < sent@.len() ==> is_received_form(#[trigger] mounts@[i], sent@[i]),
        mount_models(mounts@) == received_models(sent@),
{
    let mut mounts: Vec<SharedMount> = Vec::new();
    let mut i: usize = 0;
    while i < sent.len()
        invariant
            i <= sent@.len(),
            mounts@.len() == i,
            forall|k: int| 0 <= k < i ==> is_received_form(#[trigger] mounts@[k], sent@[k]),
        decreases sent@.len() - i,
    {
        mounts.push(received_mount(&sent[i]));
        i += 1;
    }
    proof {
        assert forall|k: int| 0 <= k < sent@.len() implies #[trigger] mount_models(mounts@)[k]
            == received_models(sent@)[k] by {
            assert(is_received_form(mounts@[k], sent@[k]));
        }
        assert(mount_models(mounts@) == received_models(sent@));
    }
    mounts
}

/// The storage backends that the mounts of a VM need, in increasing order, each once.
pub fn vm_required_shared_mount_profiles(vm: &Vm) -> (profiles: Vec<String>)
    ensures
        increasing(views(profiles@)),
        forall|x: Seq<char>| #[trigger]
            views(profiles@).contains(x) <==> needs_profile(received_models(vm.shared_mounts@), x),
{
    let mounts = received_mounts(&vm.shared_mounts);
    required_shared_mount_profiles(&mounts)
}

/// Checks that the mounts of a VM keep the contract of its session.
pub fn validate_vm_mount_contract(session_id: &str, vm: &Vm) -> (r: Result<()>)
    ensures
        match r {
            Ok(_) => first_violation(
                received_models(vm.shared_mounts@),
                tier_b_eligible(vm.metadata@),
            ) is None,
            Err(e) => match first_violation(
                received_models(vm.shared_mounts@),
                tier_b_eligible(vm.metadata@),
            ) {
                Some(message) => e@ == ErrorView::InvalidResponse(
                    "session `"@ + session_id@ + "` has non-continuous shared mount contract: "@
                        + message,
                ),
                None => false,
            },
        },
{
    let eligible = vm_tier_b_eligible(vm);
    let mounts = received_mounts(&vm.shared_mounts);
    match validate_shared_mount_contract(&mounts, eligible) {
        Ok(_) => Ok(()),
        Err(SandboxError::InvalidResponse(message)) => Err(
            SandboxError::InvalidResponse(
                "session `".to_owned().concat(session_id).concat(
                    "` has non-continuous shared mount contract: ",
                ).concat(&message),
            ),
        ),
        Err(other) => Err(other),
    }
}

// ---------------------------------------------------------------------------
// The snapshot to restore from
// ---------------------------------------------------------------------------
/// The value of a metadata key, trimmed, where it is not blank.
pub open spec fn metadata_text(metadata: Map<Seq<char>, Seq<char>>, key: Seq<char>) -> Option<
    Seq<char>,
> {
    match looked_up(metadata, key) {
        Some(v) => if trimmed(v).len() > 0 {
            Some(trimmed(v))
        } else {
            None
        },
        None => None,
    }
}

/// The value of a metadata key, trimmed, where it is not blank.
pub fn nonblank_metadata(metadata: &StringMap, key: &str) -> (value: Option<String>)
    ensures
        opt_view(value) == metadata_text(metadata@, key@),
{
    match metadata.get(key) {
        Some(v) => {
            let value = trim(v);
            if value.as_str().is_empty() {
                None
            } else {
                Some(value)
            }
        },
        None => None,
    }
}

/// The id of the first snapshot with the given name, where that id is not blank.
pub open spec fn snapshot_id_by_name(snapshots: Seq<VmSnapshot>, name: Seq<char>) -> Option<
    Seq<char>,
>
    decreases snapshots.len(),
{
    if snapshots.len() == 0 {
        None
    } else if snapshots[0].name@ == name {
        if trimmed(snapshots[0].id@).len() > 0 {
            Some(snapshots[0].id@)
        } else {
            None
        }
    } else {
        snapshot_id_by_name(snapshots.drop_first(), name)
    }
}

fn find_snapshot_id(snapshots: &Vec<VmSnapshot>, name: &str) -> (id: Option<String>)
    ensures
        opt_view(id) == snapshot_id_by_name(snapshots@, name@),
{
    let mut i: usize = 0;
    assert(snapshots@.skip(0) == snapshots@);
    while i < snapshots.len()
        invariant
            i <= snapshots@.len(),
            snapshot_id_by_name(snapshots@, name@) == snapshot_id_by_name(
                snapshots@.skip(i as int),
                name@,
            ),
        decreases snapshots@.len() - i,
    {
        if same(&snapshots[i].name, name) {
            if trim(&snapshots[i].id).as_str().is_empty() {
                return None;
            }
            return Some(snapshots[i].id.clone());
        }
        assert(snapshots@.skip(i as int).drop_first() == snapshots@.skip(i + 1));
        i += 1;
    }
    None
}

/// The snapshot from which execution is restored: the one that the metadata names by its id, else
/// by its name, else the one that a fork left.
pub open spec fn restore_snapshot_id(
    metadata: Map<Seq<char>, Seq<char>>,
    snapshots: Seq<VmSnapshot>,
) -> Option<Seq<char>> {
    match metadata_text(metadata, META_EXEC_RESTORE_SNAPSHOT_ID@) {
        Some(id) => Some(id),
        None => {
            let by_name = match metadata_text(metadata, META_EXEC_RESTORE_SNAPSHOT_NAME@) {
                Some(name) => snapshot_id_by_name(snapshots, name),
                None => None,
            };
            match by_name {
                Some(id) => Some(id),
                None => match metadata_text(metadata, META_FORK_SNAPSHOT@) {
                    Some(name) => snapshot_id_by_name(snapshots, name),
                    None => None,
                },
            }
        },
    }
}

/// The snapshot from which the execution of a VM is restored.
pub fn execution_restore_snapshot_id(vm: &Vm) -> (id: Option<String>)
    ensures
        opt_view(id) == restore_snapshot_id(vm.metadata@, vm.snapshots@),
{
    match nonblank_metadata(&vm.metadata, META_EXEC_RESTORE_SNAPSHOT_ID) {
        Some(id) => return Some(id),
        None => {},
    }
    match nonblank_metadata(&vm.metadata, META_EXEC_RESTORE_SNAPSHOT_NAME) {
        Some(name) => match find_snapshot_id(&vm.snapshots, &name) {
            Some(id) => return Some(id),
            None => {},
        },
        None => {},
    }
    match nonblank_metadata(&vm.metadata, META_FORK_SNAPSHOT) {
        Some(name) => find_snapshot_id(&vm.snapshots, &name),
        None => None,
    }
}

// ---------------------------------------------------------------------------
// What the metadata of a VM means
// ---------------------------------------------------------------------------
/// A snapshot that the metadata names by its id is the one to restore from, whatever snapshots the
/// node lists and whatever else the metadata names.
pub proof fn law_snapshot_named_by_id_is_restored(
    metadata: Map<Seq<char>, Seq<char>>,
    snapshots: Seq<VmSnapshot>,
)
    requires
        metadata.contains_key("chevalier.execution_restore_snapshot_id"@),
        trimmed(metadata["chevalier.execution_restore_snapshot_id"@]).len() > 0,
    ensures
        restore_snapshot_id(metadata, snapshots) == Some(
            trimmed(metadata["chevalier.execution_restore_snapshot_id"@]),
        ),
{
}

proof fn lemma_first_snapshot_of_name(snapshots: Seq<VmSnapshot>, name: Seq<char>, at: int)
    requires
        0 <= at < snapshots.len(),
        snapshots[at].name@ == name,
        forall|j: int| 0 <= j < at ==> (#[trigger] snapshots[j]).name@ != name,
        trimmed(snapshots[at].id@).len() > 0,
    ensures
        snapshot_id_by_name(snapshots, name) == Some(snapshots[at].id@),
    decreases at,
{
    if at > 0 {
        assert(snapshots[0].name@ != name);
        let rest = snapshots.drop_first();
        assert forall|j: int| 0 <= j < at - 1 implies (#[trigger] rest[j]).name@ != name by {
            assert(rest[j] == snapshots[j + 1]);
        }
        lemma_first_snapshot_of_name(rest, name, at - 1);
    }
}

/// Where the metadata names a snapshot by its name, and not by an id, the first snapshot of that name
/// is the one to restore from.
pub proof fn law_snapshot_named_by_name_is_restored(
    metadata: Map<Seq<char>, Seq<char>>,
    snapshots: Seq<VmSnapshot>,
    at: int,
)
    requires
        !metadata.contains_key("chevalier.execution_restore_snapshot_id"@),
        metadata.contains_key("chevalier.execution_restore_snapshot_name"@),
        trimmed(metadata["chevalier.execution_restore_snapshot_name"@]).len() > 0,
        0 <= at < snapshots.len(),
        snapshots[at].name@ == trimmed(metadata["chevalier.execution_restore_snapshot_name"@]),
        forall|j: int| 0 <= j < at ==> (#[trigger] snapshots[j]).name@ != snapshots[at].name@,
        trimmed(snapshots[at].id@).len() > 0,
    ensures
        restore_snapshot_id(metadata, snapshots) == Some(snapshots[at].id@),
{
    lemma_first_snapshot_of_name(snapshots, snapshots[at].name@, at);
}

/// The snapshot that a fork left is the one to restore from where the metadata names no other.
pub proof fn law_fork_snapshot_is_restored(
    metadata: Map<Seq<char>, Seq<char>>,
    snapshots: Seq<VmSnapshot>,
    at: int,
)
    requires
        !metadata.contains_key("chevalier.execution_restore_snapshot_id"@),
        !metadata.contains_key("chevalier.execution_restore_snapshot_name"@),
        metadata.contains_key("chevalier.fork_snapshot"@),
        trimmed(metadata["chevalier.fork_snapshot"@]).len() > 0,
        0 <= at < snapshots.len(),
        snapshots[at].name@ == trimmed(metadata["chevalier.fork_snapshot"@]),
        forall|j: int| 0 <= j < at ==> (#[trigger] snapshots[j]).name@ != snapshots[at].name@,
        trimmed(snapshots[at].id@).len() > 0,
    ensures
        restore_snapshot_id(metadata, snapshots) == Some(snapshots[at].id@),
{
    lemma_first_snapshot_of_name(snapshots, snapshots[at].name@, at);
}

proof fn lemma_snapshot_of_name_is_listed(snapshots: Seq<VmSnapshot>, name: Seq<char>)
    ensures
        snapshot_id_by_name(snapshots, name) matches Some(id) ==> trimmed(id).len() > 0 && exists|
            i: int,
        |
            0 <= i < snapshots.len() && (#[trigger] snapshots[i]).name@ == name && snapshots[i].id@
                == id,
    decreases snapshots.len(),
{
    if snapshots.len() > 0 {
        if snapshots[0].name@ == name {
            assert(snapshots[0].name@ == name);
        } else {
            let rest = snapshots.drop_first();
            lemma_snapshot_of_name_is_listed(rest, name);
            if let Some(id) = snapshot_id_by_name(rest, name) {
                let i = choose|i: int|
                    0 <= i < rest.len() && (#[trigger] rest[i]).name@ == name && rest[i].id@ == id;
                assert(snapshots[i + 1] == rest[i]);
            }
        }
    }
}

/// A VM is restored only from a snapshot that its metadata names: by its id, or as one that the node
/// lists under the name.
pub proof fn law_restored_snapshot_was_named(
    metadata: Map<Seq<char>, Seq<char>>,
    snapshots: Seq<VmSnapshot>,
)
    ensures
        restore_snapshot_id(metadata, snapshots) matches Some(id) ==> {
            ||| metadata.contains_key("chevalier.execution_restore_snapshot_id"@) && id == trimmed(
                metadata["chevalier.execution_restore_snapshot_id"@],
            )
            ||| exists|i: int|
                {
                    &&& 0 <= i < snapshots.len()
                    &&& (#[trigger] snapshots[i]).id@ == id
                    &&& (metadata.contains_key("chevalier.execution_restore_snapshot_name"@)
                        && snapshots[i].name@ == trimmed(
                        metadata["chevalier.execution_restore_snapshot_name"@],
                    )) || (metadata.contains_key("chevalier.fork_snapshot"@) && snapshots[i].name@
                        == trimmed(metadata["chevalier.fork_snapshot"@]))
                }
        },
{
    if metadata.contains_key("chevalier.execution_restore_snapshot_name"@) {
        lemma_snapshot_of_name_is_listed(
            snapshots,
            trimmed(metadata["chevalier.execution_restore_snapshot_name"@]),
        );
    }
    if metadata.contains_key("chevalier.fork_snapshot"@) {
        lemma_snapshot_of_name_is_listed(
            snapshots,
            trimmed(metadata["chevalier.fork_snapshot"@]),
        );
    }
}

/// A session may move between nodes unless its metadata says no: the value of its own key decides, and
/// that of the short key only where the first is missing.
pub proof fn law_session_may_move_unless_told_not_to(metadata: Map<Seq<char>, Seq<char>>)
    ensures
        !metadata.contains_key("chevalier.tier_b_eligible"@) && !metadata.contains_key(
            "tier_b_eligible"@,
        ) ==> tier_b_eligible(metadata),
        metadata.contains_key("chevalier.tier_b_eligible"@) ==> tier_b_eligible(metadata)
            == !says_no(metadata["chevalier.tier_b_eligible"@]),
        !metadata.contains_key("chevalier.tier_b_eligible"@) && metadata.contains_key(
            "tier_b_eligible"@,
        ) ==> tier_b_eligible(metadata) == !says_no(metadata["tier_b_eligible"@]),
{
    reveal_strlit("1");
    reveal_strlit("true");
    reveal_strlit("yes");
    reveal_strlit("on");
    reveal_strlit("0");
    reveal_strlit("false");
    reveal_strlit("no");
    reveal_strlit("off");
    assert("0"@ != "1"@) by {
        assert("0"@[0] != "1"@[0]);
    }
    assert("no"@ != "on"@) by {
        assert("no"@[0] != "on"@[0]);
    }
    assert("off"@ != "yes"@) by {
        assert("off"@[0] != "yes"@[0]);
    }
    assert("0"@ =~= seq!['0']);
    assert("no"@ =~= seq!['n', 'o']);
    assert("off"@ =~= seq!['o', 'f', 'f']);
    assert("false"@ =~= seq!['f', 'a', 'l', 's', 'e']);
}

/// A text that says no: one of four words, in any case of its letters and with any space around it.
pub open spec fn says_no(text: Seq<char>) -> bool {
    let word = lowered(trimmed(text));
    word == seq!['0'] || word == seq!['n', 'o'] || word == seq!['o', 'f', 'f'] || word
        == seq!['f', 'a', 'l', 's', 'e']
}

/// A text that is read as a flag is not read as its opposite, and a text that says yes is read as yes.
pub proof fn law_flags_are_read(raw: Seq<char>)
    ensures
        lowered(trimmed(raw)) == seq!['1'] ==> bool_like(raw) == Some(true),
        lowered(trimmed(raw)) == seq!['t', 'r', 'u', 'e'] ==> bool_like(raw) == Some(true),
        lowered(trimmed(raw)) == seq!['y', 'e', 's'] ==> bool_like(raw) == Some(true),
        lowered(trimmed(raw)) == seq!['o', 'n'] ==> bool_like(raw) == Some(true),
{
    reveal_strlit("1");
    reveal_strlit("true");
    reveal_strlit("yes");
    reveal_strlit("on");
    assert("1"@ =~= seq!['1']);
    assert("true"@ =~= seq!['t', 'r', 'u', 'e']);
    assert("yes"@ =~= seq!['y', 'e', 's']);
    assert("on"@ =~= seq!['o', 'n']);
}

/// A guest is the one that the VM names, and Linux where it names none. Its workspace is the
/// directory that the VM names, and `/workspace` where that is blank.
pub proof fn law_guest_is_as_named(vm: Vm, root: Seq<char>)
    ensures
        vm.guest_profile is None ==> guest_platform(vm) == GuestPlatform::Linux,
        vm.guest_profile is Some && vm.guest_profile->Some_0.platform is Some ==> guest_platform(vm)
            == vm.guest_profile->Some_0.platform->Some_0,
        workspace_root_of(None) == "/workspace"@,
        trimmed(root).len() > 0 ==> workspace_root_of(Some(root)) == trimmed(root),
        trimmed(root).len() == 0 ==> workspace_root_of(Some(root)) == "/workspace"@,
{
}

/// A text that may be there is seen as what it is.
pub proof fn law_optional_text_is_seen_as_it_is(text: String)
    ensures
        opt_view(Some(text)) == Some(text@),
        opt_view(None) is None,
{
}

/// Every VM serves RPCs in its guest.
pub proof fn law_every_guest_serves_rpcs(vm: Vm)
    ensures
        has_guest_rpc(vm),
{
}

/// A flag says no by one of four words, and yes by one of four others; every other text says neither.
pub proof fn law_flags_say_no(raw: Seq<char>)
    ensures
        bool_like(raw) == Some(false) <==> says_no(raw),
        bool_like(raw) is None <==> !says_no(raw) && lowered(trimmed(raw)) != seq!['1'] && lowered(
            trimmed(raw),
        ) != seq!['t', 'r', 'u', 'e'] && lowered(trimmed(raw)) != seq!['y', 'e', 's'] && lowered(
            trimmed(raw),
        ) != seq!['o', 'n'],
{
    reveal_strlit("1");
    reveal_strlit("true");
    reveal_strlit("yes");
    reveal_strlit("on");
    reveal_strlit("0");
    reveal_strlit("false");
    reveal_strlit("no");
    reveal_strlit("off");
    assert("1"@ =~= seq!['1']);
    assert("true"@ =~= seq!['t', 'r', 'u', 'e']);
    assert("yes"@ =~= seq!['y', 'e', 's']);
    assert("on"@ =~= seq!['o', 'n']);
    assert("0"@ =~= seq!['0']);
    assert("no"@ =~= seq!['n', 'o']);
    assert("off"@ =~= seq!['o', 'f', 'f']);
    assert("false"@ =~= seq!['f', 'a', 'l', 's', 'e']);
    assert(seq!['0'][0] != seq!['1'][0]);
    assert(seq!['n', 'o'][0] != seq!['o', 'n'][0]);
    assert(seq!['o', 'f', 'f'][0] != seq!['y', 'e', 's'][0]);
    assert(seq!['o', 'n'].len() == 2 && seq!['y', 'e', 's'].len() == 3 && seq![
        't',
        'r',
        'u',
        'e',
    ].len() == 4 && seq!['f', 'a', 'l', 's', 'e'].len() == 5);
}

/// The names under which a VM's metadata holds what is known of its session.
pub proof fn law_names_of_metadata()
    ensures
        META_SESSION_ID@ == "chevalier.session_id"@,
        META_PARENT_SESSION_ID@ == "chevalier.parent_session_id"@,
        META_PARENT_VM_ID@ == "chevalier.parent_vm_id"@,
        META_FORK_ID@ == "chevalier.fork_id"@,
        META_FORK_SNAPSHOT@ == "chevalier.fork_snapshot"@,
        META_EXEC_RESTORE_SNAPSHOT_ID@ == "chevalier.execution_restore_snapshot_id"@,
        META_EXEC_RESTORE_SNAPSHOT_NAME@ == "chevalier.execution_restore_snapshot_name"@,
        META_TIER_B_ELIGIBLE@ == "chevalier.tier_b_eligible"@,
        META_EXECUTION_FIDELITY_REQUIREMENT@ == "chevalier.execution_fidelity_requirement"@,
        META_PORTPROXY_AUTH_TOKEN@ == "chevalier.portproxy_auth_token"@,
{
}

/// Metadata counts without the white space around it, and blank metadata is none.
pub proof fn law_blank_metadata_is_none(metadata: Map<Seq<char>, Seq<char>>, key: Seq<char>)
    ensures
        !metadata.contains_key(key) ==> metadata_text(metadata, key) is None,
        metadata.contains_key(key) && trimmed(metadata[key]).len() == 0 ==> metadata_text(
            metadata,
            key,
        ) is None,
        metadata.contains_key(key) && trimmed(metadata[key]).len() > 0 ==> metadata_text(
            metadata,
            key,
        ) == Some(trimmed(metadata[key])),
{
}

} // verus!
