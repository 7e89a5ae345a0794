//! Shared mounts: the contract that a session's mounts must keep, the form in which they go to a
//! node, and the launch templates of provider-managed mounts.

use crate::error::ErrorView;
use crate::error::Result;
use crate::error::SandboxError;
use crate::order::increasing;
use crate::order::sorted_distinct;
use crate::text::lowered;
use crate::text::replace;
use crate::text::replaced;
use crate::text::to_lower;
use crate::text::trim;
use crate::text::trim_of;
use crate::text::trimmed;
use crate::text::trimmed_of;
use crate::text::views;
use vstd::prelude::*;

verus! {

/// Where the content of a mount can be reached.
#[derive(Clone, Copy, Debug, PartialEq, Eq, Structural)]
pub enum SharedMountAvailability {
    NodeLocal,
    SharedStorage,
}

/// What a mount survives.
#[derive(Clone, Copy, Debug, PartialEq, Eq, Structural)]
pub enum SharedMountContinuity {
    RestartSameNode,
    RestoreCrossNode,
}

/// A directory that is shared with a guest.
#[derive(Debug)]
pub struct SharedMount {
    pub host_path: String,
    pub guest_path: String,
    pub mount_tag: String,
    pub read_only: bool,
    pub availability: SharedMountAvailability,
    pub continuity: SharedMountContinuity,
    pub backend_profile: String,
    pub vfs_endpoint: String,
    pub vfs_scope_path: String,
}

/// A mount's availability as a node sends it; a number that a node does not define reads as
/// unspecified.
#[derive(Clone, Copy, Debug, PartialEq, Eq, Structural)]
pub enum WireAvailability {
    Unspecified,
    NodeLocal,
    SharedStorage,
}

/// A mount's continuity as a node sends it; a number that a node does not define reads as
/// unspecified.
#[derive(Clone, Copy, Debug, PartialEq, Eq, Structural)]
pub enum WireContinuity {
    Unspecified,
    RestartSameNode,
    RestoreCrossNode,
}

/// A mount as it goes to a node and comes back from it.
#[derive(Debug)]
pub struct WireMount {
    pub host_path: String,
    pub guest_path: String,
    pub mount_tag: String,
    pub read_only: bool,
    pub availability: WireAvailability,
    pub continuity: WireContinuity,
    pub backend_profile: String,
    pub vfs_endpoint: String,
    pub vfs_scope_path: String,
}

// ---------------------------------------------------------------------------
// The form in which mounts are sent
// ---------------------------------------------------------------------------
/// An availability in the form in which it is sent.
pub open spec fn wire_availability(a: SharedMountAvailability) -> WireAvailability {
    match a {
        SharedMountAvailability::NodeLocal => WireAvailability::NodeLocal,
        SharedMountAvailability::SharedStorage => WireAvailability::SharedStorage,
    }
}

/// A continuity in the form in which it is sent.
pub open spec fn wire_continuity(c: SharedMountContinuity) -> WireContinuity {
    match c {
        SharedMountContinuity::RestartSameNode => WireContinuity::RestartSameNode,
        SharedMountContinuity::RestoreCrossNode => WireContinuity::RestoreCrossNode,
    }
}

/// What a received availability stands for: node-local unless it says shared storage.
pub open spec fn received_availability(a: WireAvailability) -> SharedMountAvailability {
    match a {
        WireAvailability::SharedStorage => SharedMountAvailability::SharedStorage,
        _ => SharedMountAvailability::NodeLocal,
    }
}

/// The continuity that an availability implies.
pub open spec fn implied_continuity(a: SharedMountAvailability) -> SharedMountContinuity {
    match a {
        SharedMountAvailability::NodeLocal => SharedMountContinuity::RestartSameNode,
        SharedMountAvailability::SharedStorage => SharedMountContinuity::RestoreCrossNode,
    }
}

/// What a received continuity stands for: the one that the availability implies where it says
/// none.
pub open spec fn received_continuity(
    c: WireContinuity,
    a: SharedMountAvailability,
) -> SharedMountContinuity {
    match c {
        WireContinuity::RestoreCrossNode => SharedMountContinuity::RestoreCrossNode,
        WireContinuity::RestartSameNode => SharedMountContinuity::RestartSameNode,
        WireContinuity::Unspecified => implied_continuity(a),
    }
}

pub fn shared_mount_availability_proto(availability: &SharedMountAvailability) -> (r:
    WireAvailability)
    ensures
        r == wire_availability(*availability),
{
    match availability {
        SharedMountAvailability::NodeLocal => WireAvailability::NodeLocal,
        SharedMountAvailability::SharedStorage => WireAvailability::SharedStorage,
    }
}

pub fn shared_mount_continuity_proto(continuity: &SharedMountContinuity) -> (r: WireContinuity)
    ensures
        r == wire_continuity(*continuity),
{
    match continuity {
        SharedMountContinuity::RestartSameNode => WireContinuity::RestartSameNode,
        SharedMountContinuity::RestoreCrossNode => WireContinuity::RestoreCrossNode,
    }
}

pub fn shared_mount_availability_from_proto(value: WireAvailability) -> (r: SharedMountAvailability)
    ensures
        r == received_availability(value),
{
    match value {
        WireAvailability::SharedStorage => SharedMountAvailability::SharedStorage,
        _ => SharedMountAvailability::NodeLocal,
    }
}

pub fn shared_mount_continuity_from_proto(
    value: WireContinuity,
    availability: &SharedMountAvailability,
) -> (r: SharedMountContinuity)
    ensures
        r == received_continuity(value, *availability),
{
    match value {
        WireContinuity::RestoreCrossNode => SharedMountContinuity::RestoreCrossNode,
        WireContinuity::RestartSameNode => SharedMountContinuity::RestartSameNode,
        WireContinuity::Unspecified => default_mount_continuity(availability),
    }
}

pub fn default_mount_continuity(availability: &SharedMountAvailability) -> (r:
    SharedMountContinuity)
    ensures
        r == implied_continuity(*availability),
{
    match availability {
        SharedMountAvailability::NodeLocal => SharedMountContinuity::RestartSameNode,
        SharedMountAvailability::SharedStorage => SharedMountContinuity::RestoreCrossNode,
    }
}

/// The normal form of the name of a storage backend: trimmed, in small letters.
pub open spec fn backend_profile_name(raw: Seq<char>) -> Seq<char> {
    lowered(trimmed(raw))
}

/// The normal form of the name of a storage backend.
pub fn normalize_mount_backend_profile(raw: &str) -> (r: String)
    ensures
        r@ == backend_profile_name(raw@),
{
    to_lower(&trim(raw))
}

/// `sent` is what goes to a node for `mount`.
pub open spec fn is_sent_form(sent: WireMount, mount: SharedMount) -> bool {
    &&& sent.host_path@ == mount.host_path@
    &&& sent.guest_path@ == mount.guest_path@
    &&& sent.mount_tag@ == mount.mount_tag@
    &&& sent.read_only == mount.read_only
    &&& sent.availability == wire_availability(mount.availability)
    &&& sent.continuity == wire_continuity(mount.continuity)
    &&& sent.backend_profile@ == backend_profile_name(mount.backend_profile@)
    &&& sent.vfs_endpoint@ == mount.vfs_endpoint@
    &&& sent.vfs_scope_path@ == mount.vfs_scope_path@
}

/// What goes to a node for a mount.
pub fn proto_shared_mount(mount: SharedMount) -> (sent: WireMount)
    ensures
        is_sent_form(sent, mount),
{
    let backend_profile = normalize_mount_backend_profile(&mount.backend_profile);
    WireMount {
        host_path: mount.host_path,
        guest_path: mount.guest_path,
        mount_tag: mount.mount_tag,
        read_only: mount.read_only,
        availability: shared_mount_availability_proto(&mount.availability),
        continuity: shared_mount_continuity_proto(&mount.continuity),
        backend_profile,
        vfs_endpoint: mount.vfs_endpoint,
        vfs_scope_path: mount.vfs_scope_path,
    }
}

/// `mount` is what a mount received from a node stands for.
pub open spec fn is_received_form(mount: SharedMount, sent: WireMount) -> bool {
    &&& mount.host_path@ == sent.host_path@
    &&& mount.guest_path@ == sent.guest_path@
    &&& mount.mount_tag@ == sent.mount_tag@
    &&& mount.read_only == sent.read_only
    &&& mount.availability == received_availability(sent.availability)
    &&& mount.continuity == received_continuity(
        sent.continuity,
        received_availability(sent.availability),
    )
    &&& mount.backend_profile@ == sent.backend_profile@
    &&& mount.vfs_endpoint@ == sent.vfs_endpoint@
    &&& mount.vfs_scope_path@ == sent.vfs_scope_path@
}

/// What a mount received from a node stands for.
pub fn received_mount(sent: &WireMount) -> (mount: SharedMount)
    ensures
        is_received_form(mount, *sent),
{
    let availability = shared_mount_availability_from_proto(sent.availability);
    let continuity = shared_mount_continuity_from_proto(sent.continuity, &availability);
    SharedMount {
        host_path: sent.host_path.clone(),
        guest_path: sent.guest_path.clone(),
        mount_tag: sent.mount_tag.clone(),
        read_only: sent.read_only,
        availability,
        continuity,
        backend_profile: sent.backend_profile.clone(),
        vfs_endpoint: sent.vfs_endpoint.clone(),
        vfs_scope_path: sent.vfs_scope_path.clone(),
    }
}

/// A mount that went to a node comes back with the same availability and continuity.
pub proof fn law_mount_round_trip(mount: SharedMount, sent: WireMount, back: SharedMount)
    requires
        is_sent_form(sent, mount),
        is_received_form(back, sent),
    ensures
        back.availability == mount.availability,
        back.continuity == mount.continuity,
        back.read_only == mount.read_only,
        back.mount_tag@ == mount.mount_tag@,
        back.host_path@ == mount.host_path@,
        back.guest_path@ == mount.guest_path@,
        back.vfs_endpoint@ == mount.vfs_endpoint@,
        back.vfs_scope_path@ == mount.vfs_scope_path@,
        back.backend_profile@ == backend_profile_name(mount.backend_profile@),
{
}

// ---------------------------------------------------------------------------
// The contract
// ---------------------------------------------------------------------------
/// What the contract reads of a mount.
pub struct MountModel {
    pub mount_tag: Seq<char>,
    pub availability: SharedMountAvailability,
    pub continuity: SharedMountContinuity,
    pub backend_profile: Seq<char>,
}

/// What the contract reads of a mount.
pub open spec fn mount_model(mount: SharedMount) -> MountModel {
    MountModel {
        mount_tag: mount.mount_tag@,
        availability: mount.availability,
        continuity: mount.continuity,
        backend_profile: mount.backend_profile@,
    }
}

/// What the contract reads of a mount that a node reports.
pub open spec fn received_model(sent: WireMount) -> MountModel {
    MountModel {
        mount_tag: sent.mount_tag@,
        availability: received_availability(sent.availability),
        continuity: received_continuity(
            sent.continuity,
            received_availability(sent.availability),
        ),
        backend_profile: sent.backend_profile@,
    }
}

/// What the contract reads of a list of mounts.
pub open spec fn mount_models(mounts: Seq<SharedMount>) -> Seq<MountModel> {
    mounts.map_values(|m: SharedMount| mount_model(m))
}

/// What the contract reads of a list of mounts that a node reports.
pub open spec fn received_models(sent: Seq<WireMount>) -> Seq<MountModel> {
    sent.map_values(|m: WireMount| received_model(m))
}

/// How a continuity is named in a message.
pub open spec fn continuity_name(c: SharedMountContinuity) -> Seq<char> {
    match c {
        SharedMountContinuity::RestartSameNode => "restart-same-node"@,
        SharedMountContinuity::RestoreCrossNode => "restore-cross-node"@,
    }
}

/// What a mount breaks of the contract, in words.
pub open spec fn mount_violation(mount: MountModel, tier_b_eligible: bool) -> Option<Seq<char>> {
    if mount.availability == SharedMountAvailability::NodeLocal && mount.continuity
        == SharedMountContinuity::RestoreCrossNode {
        Some(
            "shared mount `"@ + mount.mount_tag
                + "` cannot claim cross-node restore continuity with node-local availability"@,
        )
    } else if mount.availability == SharedMountAvailability::SharedStorage && backend_profile_name(
        mount.backend_profile,
    ).len() == 0 {
        Some(
            "shared-storage mount `"@ + mount.mount_tag
                + "` requires a non-empty backend_profile so distributed placement can verify backend availability"@,
        )
    } else if tier_b_eligible && mount.continuity != SharedMountContinuity::RestoreCrossNode {
        Some(
            "tier_b_eligible session requires cross-node-restorable shared mounts; mount `"@
                + mount.mount_tag + "` is only `"@ + continuity_name(mount.continuity) + "`"@,
        )
    } else {
        None
    }
}

/// What the first mount that breaks the contract breaks of it.
pub open spec fn first_violation(
    mounts: Seq<MountModel>,
    tier_b_eligible: bool,
) -> Option<Seq<char>>
    decreases mounts.len(),
{
    if mounts.len() == 0 {
        None
    } else {
        match first_violation(mounts.drop_last(), tier_b_eligible) {
            Some(m) => Some(m),
            None => mount_violation(mounts.last(), tier_b_eligible),
        }
    }
}

proof fn lemma_violation_stays(mounts: Seq<MountModel>, tier_b_eligible: bool, n: int)
    requires
        0 <= n <= mounts.len(),
        first_violation(mounts.take(n), tier_b_eligible) is Some,
    ensures
        first_violation(mounts, tier_b_eligible) == first_violation(
            mounts.take(n),
            tier_b_eligible,
        ),
    decreases mounts.len() - n,
{
    if n < mounts.len() {
        assert(mounts.take(n + 1).drop_last() == mounts.take(n));
        lemma_violation_stays(mounts, tier_b_eligible, n + 1);
    } else {
        assert(mounts.take(n) == mounts);
    }
}

fn violation_of(mount: &SharedMount, tier_b_eligible: bool) -> (message: Option<String>)
    ensures
        match message {
            Some(m) => mount_violation(mount_model(*mount), tier_b_eligible) == Some(m@),
            None => mount_violation(mount_model(*mount), tier_b_eligible) is None,
        },
{
    let backend_profile = normalize_mount_backend_profile(&mount.backend_profile);
    if mount.availability == SharedMountAvailability::NodeLocal && mount.continuity
        == SharedMountContinuity::RestoreCrossNode {
        return Some(
            "shared mount `".to_owned().concat(&mount.mount_tag).concat(
                "` cannot claim cross-node restore continuity with node-local availability",
            ),
        );
    }
    if mount.availability == SharedMountAvailability::SharedStorage
        && backend_profile.as_str().is_empty() {
        return Some(
            "shared-storage mount `".to_owned().concat(&mount.mount_tag).concat(
                "` requires a non-empty backend_profile so distributed placement can verify backend availability",
            ),
        );
    }
    if tier_b_eligible && mount.continuity != SharedMountContinuity::RestoreCrossNode {
        let name: &str = match mount.continuity {
            SharedMountContinuity::RestartSameNode => "restart-same-node",
            SharedMountContinuity::RestoreCrossNode => "restore-cross-node",
        };
        return Some(
            "tier_b_eligible session requires cross-node-restorable shared mounts; mount `".to_owned().concat(
            &mount.mount_tag).concat("` is only `").concat(name).concat("`"),
        );
    }
    None
}

/// Checks that every mount keeps the contract; the first that does not gives the error.
pub fn validate_shared_mount_contract(
    shared_mounts: &Vec<SharedMount>,
    tier_b_eligible: bool,
) -> (r: Result<()>)
    ensures
        match r {
            Ok(_) => first_violation(mount_models(shared_mounts@), tier_b_eligible) is None,
            Err(e) => match first_violation(mount_models(shared_mounts@), tier_b_eligible) {
                Some(message) => e@ == ErrorView::InvalidResponse(message),
                None => false,
            },
        },
{
    let ghost models = mount_models(shared_mounts@);
    let mut i: usize = 0;
    while i < shared_mounts.len()
        invariant
            i <= shared_mounts@.len(),
            models == mount_models(shared_mounts@),
            first_violation(models.take(i as int), tier_b_eligible) is None,
        decreases shared_mounts@.len() - i,
    {
        assert(models.take(i + 1).drop_last() == models.take(i as int));
        assert(models.take(i + 1).last() == mount_model(shared_mounts@[i as int]));
        match violation_of(&shared_mounts[i], tier_b_eligible) {
            Some(message) => {
                proof {
                    lemma_violation_stays(models, tier_b_eligible, i + 1);
                }
                return Err(SandboxError::InvalidResponse(message));
            },
            None => {},
        }
        i += 1;
    }
    assert(models.take(models.len() as int) == models);
    Ok(())
}

/// The mounts keep the contract exactly where each of them does.
pub proof fn law_contract_is_per_mount(mounts: Seq<MountModel>, tier_b_eligible: bool)
    ensures
        first_violation(mounts, tier_b_eligible) is None <==> forall|i: int|
            0 <= i < mounts.len() ==> mount_violation(#[trigger] mounts[i], tier_b_eligible) is None,
    decreases mounts.len(),
{
    if mounts.len() > 0 {
        let head = mounts.drop_last();
        law_contract_is_per_mount(head, tier_b_eligible);
        assert(forall|i: int| 0 <= i < head.len() ==> head[i] == mounts[i]);
        if first_violation(mounts, tier_b_eligible) is None {
            assert forall|i: int| 0 <= i < mounts.len() implies mount_violation(
                #[trigger] mounts[i],
                tier_b_eligible,
            ) is None by {
                if i < head.len() {
                    assert(mount_violation(head[i], tier_b_eligible) is None);
                }
            }
        }
        if forall|i: int|
            0 <= i < mounts.len() ==> mount_violation(#[trigger] mounts[i], tier_b_eligible) is None {
            assert forall|i: int| 0 <= i < head.len() implies mount_violation(
                #[trigger] head[i],
                tier_b_eligible,
            ) is None by {
                assert(mount_violation(mounts[i], tier_b_eligible) is None);
            }
            assert(mount_violation(mounts[mounts.len() - 1], tier_b_eligible) is None);
        }
    }
}

/// A mount that keeps the contract of a session that moves between nodes is restorable across
/// nodes, on shared storage, with a named backend.
pub proof fn law_tier_b_mount_is_portable(mount: MountModel)
    requires
        mount_violation(mount, true) is None,
    ensures
        mount.continuity == SharedMountContinuity::RestoreCrossNode,
        mount.availability == SharedMountAvailability::SharedStorage,
        backend_profile_name(mount.backend_profile).len() > 0,
{
}

// ---------------------------------------------------------------------------
// Storage profiles
// ---------------------------------------------------------------------------
/// `x` is the storage backend that one of the mounts needs.
pub open spec fn needs_profile(mounts: Seq<MountModel>, x: Seq<char>) -> bool {
    x.len() > 0 && exists|i: int|
        0 <= i < mounts.len() && (#[trigger] mounts[i]).availability
            == SharedMountAvailability::SharedStorage && backend_profile_name(
            mounts[i].backend_profile,
        ) == x
}

/// The storage backends that the mounts need, in increasing order, each once.
pub fn required_shared_mount_profiles(shared_mounts: &Vec<SharedMount>) -> (profiles: Vec<String>)
    ensures
        increasing(views(profiles@)),
        forall|x: Seq<char>| #[trigger]
            views(profiles@).contains(x) <==> needs_profile(mount_models(shared_mounts@), x),
{
    let ghost models = mount_models(shared_mounts@);
    let mut profiles: Vec<String> = Vec::new();
    let mut i: usize = 0;
    while i < shared_mounts.len()
        invariant
            i <= shared_mounts@.len(),
            models == mount_models(shared_mounts@),
            forall|x: Seq<char>| #[trigger]
                views(profiles@).contains(x) <==> needs_profile(models.take(i as int), x),
        decreases shared_mounts@.len() - i,
    {
        let ghost head = models.take(i as int);
        let ghost next = models.take(i + 1);
        let ghost before = views(profiles@);
        let profile = normalize_mount_backend_profile(&shared_mounts[i].backend_profile);
        let ghost name = profile@;
        let wanted: bool = shared_mounts[i].availability == SharedMountAvailability::SharedStorage
            && !profile.as_str().is_empty();
        if wanted {
            profiles.push(profile);
        }
        proof {
            assert(next[i as int] == mount_model(shared_mounts@[i as int]));
            assert forall|x: Seq<char>| #[trigger]
                views(profiles@).contains(x) <==> needs_profile(next, x) by {
                if before.contains(x) {
                    let k = choose|k: int| 0 <= k < before.len() && before[k] == x;
                    assert(views(profiles@)[k] == x);
                    let j = choose|j: int|
                        0 <= j < head.len() && (#[trigger] head[j]).availability
                            == SharedMountAvailability::SharedStorage && backend_profile_name(
                            head[j].backend_profile,
                        ) == x;
                    assert(next[j] == head[j]);
                }
                if wanted && x == name {
                    assert(views(profiles@)[profiles@.len() - 1] == x);
                    assert(needs_profile(next, x));
                }
                if views(profiles@).contains(x) {
                    let k = choose|k: int| 0 <= k < profiles@.len() && views(profiles@)[k] == x;
                    if k < before.len() {
                        assert(before[k] == x);
                    }
                }
                if needs_profile(next, x) {
                    let j = choose|j: int|
                        0 <= j < next.len() && (#[trigger] next[j]).availability
                            == SharedMountAvailability::SharedStorage && backend_profile_name(
                            next[j].backend_profile,
                        ) == x;
                    if j < i {
                        assert(head[j] == next[j]);
                        assert(needs_profile(head, x));
                    }
                }
            }
        }
        i += 1;
    }
    assert(models.take(models.len() as int) == models);
    sorted_distinct(&profiles)
}

// ---------------------------------------------------------------------------
// Templates
// ---------------------------------------------------------------------------
/// A launch template with its placeholders filled in for a mount, from left to right in the list
/// below. Without a mount point its placeholder stays.
pub open spec fn rendered_template(
    template: Seq<char>,
    shared: SharedMount,
    mountpoint: Option<Seq<char>>,
) -> Seq<char> {
    let t0 = match mountpoint {
        Some(m) => replaced(template, "{mountpoint}"@, m),
        None => template,
    };
    let t1 = replaced(t0, "{guest_path}"@, shared.guest_path@);
    let t2 = replaced(t1, "{mount_tag}"@, shared.mount_tag@);
    let t3 = replaced(t2, "{backend_profile}"@, shared.backend_profile@);
    let t4 = replaced(t3, "{vfs_endpoint}"@, shared.vfs_endpoint@);
    let t5 = replaced(t4, "{vfs_scope_path}"@, trimmed_of(shared.vfs_scope_path@, '/'));
    replaced(
        t5,
        "{read_only}"@,
        if shared.read_only {
            "true"@
        } else {
            "false"@
        },
    )
}

/// A launch template with its placeholders filled in for a mount.
pub fn render_shared_mount_template(
    template: &str,
    shared: &SharedMount,
    mountpoint: Option<&str>,
) -> (r: String)
    ensures
        r@ == rendered_template(
            template@,
            *shared,
            match mountpoint {
                Some(m) => Some(m@),
                None => None,
            },
        ),
{
    proof {
        reveal_strlit("{mountpoint}");
        reveal_strlit("{guest_path}");
        reveal_strlit("{mount_tag}");
        reveal_strlit("{backend_profile}");
        reveal_strlit("{vfs_endpoint}");
        reveal_strlit("{vfs_scope_path}");
        reveal_strlit("{read_only}");
    }
    let t0 = match mountpoint {
        Some(m) => replace(template, "{mountpoint}", m),
        None => template.to_owned(),
    };
    let t1 = replace(&t0, "{guest_path}", &shared.guest_path);
    let t2 = replace(&t1, "{mount_tag}", &shared.mount_tag);
    let t3 = replace(&t2, "{backend_profile}", &shared.backend_profile);
    let t4 = replace(&t3, "{vfs_endpoint}", &shared.vfs_endpoint);
    let scope = trim_of(&shared.vfs_scope_path, '/');
    let t5 = replace(&t4, "{vfs_scope_path}", &scope);
    let read_only: &str = if shared.read_only {
        "true"
    } else {
        "false"
    };
    replace(&t5, "{read_only}", read_only)
}

// ---------------------------------------------------------------------------
// What a mount may claim, and how it is launched
// ---------------------------------------------------------------------------
/// A mount is sent as what it is. Of a mount that was received without a word on it, the content is on
/// its node alone, and it survives as much as where its content is lets it.
pub proof fn law_mount_is_sent_as_it_is(a: SharedMountAvailability, c: WireContinuity)
    ensures
        wire_availability(SharedMountAvailability::NodeLocal) == WireAvailability::NodeLocal,
        wire_availability(SharedMountAvailability::SharedStorage)
            == WireAvailability::SharedStorage,
        wire_continuity(SharedMountContinuity::RestartSameNode) == WireContinuity::RestartSameNode,
        wire_continuity(SharedMountContinuity::RestoreCrossNode)
            == WireContinuity::RestoreCrossNode,
        received_availability(WireAvailability::SharedStorage)
            == SharedMountAvailability::SharedStorage,
        received_availability(WireAvailability::NodeLocal) == SharedMountAvailability::NodeLocal,
        received_availability(WireAvailability::Unspecified) == SharedMountAvailability::NodeLocal,
        c is RestoreCrossNode ==> received_continuity(c, a)
            == SharedMountContinuity::RestoreCrossNode,
        c is RestartSameNode ==> received_continuity(c, a)
            == SharedMountContinuity::RestartSameNode,
        c is Unspecified ==> (received_continuity(c, a) == SharedMountContinuity::RestoreCrossNode
            <==> a == SharedMountAvailability::SharedStorage),
{
}

/// The paths, the tag, the endpoint and the access of a mount are neither lost nor mixed up on their
/// way; the name of its backend goes without white space around it and in small letters.
pub proof fn law_mount_keeps_its_parts(sent: WireMount, mount: SharedMount)
    ensures
        is_sent_form(sent, mount) ==> {
            &&& sent.host_path@ == mount.host_path@ && sent.guest_path@ == mount.guest_path@
            &&& sent.mount_tag@ == mount.mount_tag@ && sent.read_only == mount.read_only
            &&& sent.vfs_endpoint@ == mount.vfs_endpoint@
            &&& sent.vfs_scope_path@ == mount.vfs_scope_path@
            &&& sent.backend_profile@ == lowered(trimmed(mount.backend_profile@))
        },
        is_received_form(mount, sent) ==> {
            &&& sent.host_path@ == mount.host_path@ && sent.guest_path@ == mount.guest_path@
            &&& sent.mount_tag@ == mount.mount_tag@ && sent.read_only == mount.read_only
            &&& sent.vfs_endpoint@ == mount.vfs_endpoint@
            &&& sent.vfs_scope_path@ == mount.vfs_scope_path@
            &&& sent.backend_profile@ == mount.backend_profile@
        },
        mount_model(mount).mount_tag == mount.mount_tag@,
        mount_model(mount).availability == mount.availability,
        mount_model(mount).continuity == mount.continuity,
        mount_model(mount).backend_profile == mount.backend_profile@,
        is_received_form(mount, sent) ==> mount_model(mount) == received_model(sent),
{
}

/// A mount breaks the contract where it claims to be restored on another node with content that only
/// its own node has, where its content is shared and nobody says by what, and where its session may
/// move and it cannot; else it keeps it.
pub proof fn law_mount_contract(m: MountModel, movable: bool)
    ensures
        mount_violation(m, movable) is None <==> {
            &&& m.continuity == SharedMountContinuity::RestoreCrossNode ==> m.availability
                == SharedMountAvailability::SharedStorage
            &&& m.availability == SharedMountAvailability::SharedStorage ==> trimmed(
                m.backend_profile,
            ).len() > 0
            &&& movable ==> m.continuity == SharedMountContinuity::RestoreCrossNode
        },
{
}

/// The backends that a session needs are those of its mounts on shared storage, and no others.
pub proof fn law_shared_storage_needs_its_backend(mounts: Seq<MountModel>, i: int, x: Seq<char>)
    ensures
        0 <= i < mounts.len() && mounts[i].availability == SharedMountAvailability::SharedStorage
            && trimmed(mounts[i].backend_profile).len() > 0 ==> needs_profile(
            mounts,
            lowered(trimmed(mounts[i].backend_profile)),
        ),
        (forall|j: int|
            0 <= j < mounts.len() ==> (#[trigger] mounts[j]).availability
                == SharedMountAvailability::NodeLocal) ==> !needs_profile(mounts, x),
        !needs_profile(mounts, Seq::empty()),
{
}

/// Whether `s` holds no opening brace.
pub open spec fn is_braceless(s: Seq<char>) -> bool {
    forall|i: int| 0 <= i < s.len() ==> #[trigger] s[i] != '{'
}

proof fn lemma_braceless_stays(s: Seq<char>, from: Seq<char>, to: Seq<char>)
    requires
        is_braceless(s),
        from.len() > 0,
        from[0] == '{',
    ensures
        replaced(s, from, to) == s,
    decreases s.len(),
{
    if s.len() > 0 {
        assert(!from.is_prefix_of(s)) by {
            if from.is_prefix_of(s) {
                assert(s[0] == from[0]);
            }
        }
        lemma_braceless_stays(s.drop_first(), from, to);
        assert(seq![s[0]] + s.drop_first() =~= s);
    }
}

/// A placeholder in `a`, `word` and `b` after each other is replaced where it is the one that is looked
/// for.
proof fn lemma_placeholder_is_filled(a: Seq<char>, word: Seq<char>, b: Seq<char>, to: Seq<char>)
    requires
        is_braceless(a),
        is_braceless(b),
        word.len() > 0,
        word[0] == '{',
    ensures
        replaced(a + word + b, word, to) == a + to + b,
    decreases a.len(),
{
    let s = a + word + b;
    if a.len() > 0 {
        assert(s[0] == a[0]);
        assert(!word.is_prefix_of(s)) by {
            if word.is_prefix_of(s) {
                assert(s[0] == word[0]);
            }
        }
        let rest = a.drop_first();
        assert(s.drop_first() =~= rest + word + b);
        lemma_placeholder_is_filled(rest, word, b, to);
        assert(seq![s[0]] + (rest + to + b) =~= a + to + b);
    } else {
        assert(word =~= s.take(word.len() as int));
        assert(word.is_prefix_of(s));
        assert(s.skip(word.len() as int) =~= b);
        lemma_braceless_stays(b, word, to);
        assert(a + to + b =~= to + b);
    }
}

/// A placeholder stays where another one is looked for: the two differ at `k`.
proof fn lemma_placeholder_stays(
    a: Seq<char>,
    word: Seq<char>,
    b: Seq<char>,
    from: Seq<char>,
    to: Seq<char>,
    k: int,
)
    requires
        is_braceless(a),
        is_braceless(b),
        0 <= k < word.len(),
        k < from.len(),
        word[k] != from[k],
        is_braceless(word.drop_first()),
        from[0] == '{',
    ensures
        replaced(a + word + b, from, to) == a + word + b,
    decreases a.len(),
{
    let s = a + word + b;
    if a.len() > 0 {
        assert(s[0] == a[0]);
        assert(!from.is_prefix_of(s)) by {
            if from.is_prefix_of(s) {
                assert(s[0] == from[0]);
            }
        }
        let rest = a.drop_first();
        assert(s.drop_first() =~= rest + word + b);
        lemma_placeholder_stays(rest, word, b, from, to, k);
        assert(seq![s[0]] + (rest + word + b) =~= s);
    } else {
        assert(!from.is_prefix_of(s)) by {
            if from.is_prefix_of(s) {
                assert(s[k] == from[k]);
                assert(s[k] == word[k]);
            }
        }
        let tail = word.drop_first() + b;
        assert(s.drop_first() =~= tail);
        assert(is_braceless(tail)) by {
            assert forall|i: int| 0 <= i < tail.len() implies #[trigger] tail[i] != '{' by {
                if i < word.len() - 1 {
                    assert(tail[i] == word.drop_first()[i]);
                } else {
                    assert(tail[i] == b[i - (word.len() - 1)]);
                }
            }
        }
        lemma_braceless_stays(tail, from, to);
        assert(seq![s[0]] + tail =~= s);
    }
}

/// A template without placeholders stays as it is.
proof fn lemma_braceless_template(t: Seq<char>)
    requires
        is_braceless(t),
    ensures
        forall|to: Seq<char>| #[trigger] replaced(t, "{mountpoint}"@, to) == t,
        forall|to: Seq<char>| #[trigger] replaced(t, "{guest_path}"@, to) == t,
        forall|to: Seq<char>| #[trigger] replaced(t, "{mount_tag}"@, to) == t,
        forall|to: Seq<char>| #[trigger] replaced(t, "{backend_profile}"@, to) == t,
        forall|to: Seq<char>| #[trigger] replaced(t, "{vfs_endpoint}"@, to) == t,
        forall|to: Seq<char>| #[trigger] replaced(t, "{vfs_scope_path}"@, to) == t,
        forall|to: Seq<char>| #[trigger] replaced(t, "{read_only}"@, to) == t,
{
    reveal_strlit("{mountpoint}");
    reveal_strlit("{guest_path}");
    reveal_strlit("{mount_tag}");
    reveal_strlit("{backend_profile}");
    reveal_strlit("{vfs_endpoint}");
    reveal_strlit("{vfs_scope_path}");
    reveal_strlit("{read_only}");
    assert forall|to: Seq<char>| #[trigger] replaced(t, "{mountpoint}"@, to) == t by {
        lemma_braceless_stays(t, "{mountpoint}"@, to);
    }
    assert forall|to: Seq<char>| #[trigger] replaced(t, "{guest_path}"@, to) == t by {
        lemma_braceless_stays(t, "{guest_path}"@, to);
    }
    assert forall|to: Seq<char>| #[trigger] replaced(t, "{mount_tag}"@, to) == t by {
        lemma_braceless_stays(t, "{mount_tag}"@, to);
    }
    assert forall|to: Seq<char>| #[trigger] replaced(t, "{backend_profile}"@, to) == t by {
        lemma_braceless_stays(t, "{backend_profile}"@, to);
    }
    assert forall|to: Seq<char>| #[trigger] replaced(t, "{vfs_endpoint}"@, to) == t by {
        lemma_braceless_stays(t, "{vfs_endpoint}"@, to);
    }
    assert forall|to: Seq<char>| #[trigger] replaced(t, "{vfs_scope_path}"@, to) == t by {
        lemma_braceless_stays(t, "{vfs_scope_path}"@, to);
    }
    assert forall|to: Seq<char>| #[trigger] replaced(t, "{read_only}"@, to) == t by {
        lemma_braceless_stays(t, "{read_only}"@, to);
    }
}

proof fn lemma_braceless_sum(a: Seq<char>, v: Seq<char>, b: Seq<char>)
    requires
        is_braceless(a),
        is_braceless(v),
        is_braceless(b),
    ensures
        is_braceless(a + v + b),
{
    let s = a + v + b;
    assert forall|i: int| 0 <= i < s.len() implies #[trigger] s[i] != '{' by {
        if i < a.len() {
            assert(s[i] == a[i]);
        } else if i < a.len() + v.len() {
            assert(s[i] == v[i - a.len()]);
        } else {
            assert(s[i] == b[i - a.len() - v.len()]);
        }
    }
}

/// A launch template is filled in: each placeholder is written as what it stands for, and what stands
/// around it is kept.
pub proof fn law_template_is_filled_in(
    a: Seq<char>,
    b: Seq<char>,
    mount: SharedMount,
    at: Seq<char>,
)
    requires
        is_braceless(a),
        is_braceless(b),
        is_braceless(at),
        is_braceless(mount.guest_path@),
        is_braceless(mount.mount_tag@),
        is_braceless(mount.backend_profile@),
        is_braceless(mount.vfs_endpoint@),
        is_braceless(trimmed_of(mount.vfs_scope_path@, '/')),
    ensures
        rendered_template(a + "{mountpoint}"@ + b, mount, Some(at)) == a + at + b,
        rendered_template(a + "{guest_path}"@ + b, mount, Some(at)) == a + mount.guest_path@ + b,
        rendered_template(a + "{mount_tag}"@ + b, mount, Some(at)) == a + mount.mount_tag@ + b,
        rendered_template(a + "{backend_profile}"@ + b, mount, Some(at)) == a
            + mount.backend_profile@ + b,
        rendered_template(a + "{vfs_endpoint}"@ + b, mount, Some(at)) == a + mount.vfs_endpoint@
            + b,
        rendered_template(a + "{vfs_scope_path}"@ + b, mount, Some(at)) == a + trimmed_of(
            mount.vfs_scope_path@,
            '/',
        ) + b,
        mount.read_only ==> rendered_template(a + "{read_only}"@ + b, mount, Some(at)) == a
            + "true"@ + b,
        !mount.read_only ==> rendered_template(a + "{read_only}"@ + b, mount, Some(at)) == a
            + "false"@ + b,
        rendered_template(a + "{mountpoint}"@ + b, mount, None) == a + "{mountpoint}"@ + b,
        rendered_template(a, mount, Some(at)) == a,
{
    reveal_strlit("{mountpoint}");
    reveal_strlit("{guest_path}");
    reveal_strlit("{mount_tag}");
    reveal_strlit("{backend_profile}");
    reveal_strlit("{vfs_endpoint}");
    reveal_strlit("{vfs_scope_path}");
    reveal_strlit("{read_only}");
    reveal_strlit("true");
    reveal_strlit("false");
    let scope = trimmed_of(mount.vfs_scope_path@, '/');
    let access = if mount.read_only {
        "true"@
    } else {
        "false"@
    };
    lemma_placeholder_is_filled(a, "{mountpoint}"@, b, at);
    lemma_braceless_sum(a, at, b);
    lemma_braceless_template(a + at + b);
    lemma_placeholder_stays(a, "{guest_path}"@, b, "{mountpoint}"@, at, 1);
    lemma_placeholder_is_filled(a, "{guest_path}"@, b, mount.guest_path@);
    lemma_braceless_sum(a, mount.guest_path@, b);
    lemma_braceless_template(a + mount.guest_path@ + b);
    lemma_placeholder_stays(a, "{mount_tag}"@, b, "{mountpoint}"@, at, 6);
    lemma_placeholder_stays(a, "{mount_tag}"@, b, "{guest_path}"@, mount.guest_path@, 1);
    lemma_placeholder_is_filled(a, "{mount_tag}"@, b, mount.mount_tag@);
    lemma_braceless_sum(a, mount.mount_tag@, b);
    lemma_braceless_template(a + mount.mount_tag@ + b);
    lemma_placeholder_stays(a, "{backend_profile}"@, b, "{mountpoint}"@, at, 1);
    lemma_placeholder_stays(a, "{backend_profile}"@, b, "{guest_path}"@, mount.guest_path@, 1);
    lemma_placeholder_stays(a, "{backend_profile}"@, b, "{mount_tag}"@, mount.mount_tag@, 1);
    lemma_placeholder_is_filled(a, "{backend_profile}"@, b, mount.backend_profile@);
    lemma_braceless_sum(a, mount.backend_profile@, b);
    lemma_braceless_template(a + mount.backend_profile@ + b);
    lemma_placeholder_stays(a, "{vfs_endpoint}"@, b, "{mountpoint}"@, at, 1);
    lemma_placeholder_stays(a, "{vfs_endpoint}"@, b, "{guest_path}"@, mount.guest_path@, 1);
    lemma_placeholder_stays(a, "{vfs_endpoint}"@, b, "{mount_tag}"@, mount.mount_tag@, 1);
    lemma_placeholder_stays(a, "{vfs_endpoint}"@, b, "{backend_profile}"@, mount.backend_profile@, 1);
    lemma_placeholder_is_filled(a, "{vfs_endpoint}"@, b, mount.vfs_endpoint@);
    lemma_braceless_sum(a, mount.vfs_endpoint@, b);
    lemma_braceless_template(a + mount.vfs_endpoint@ + b);
    lemma_placeholder_stays(a, "{vfs_scope_path}"@, b, "{mountpoint}"@, at, 1);
    lemma_placeholder_stays(a, "{vfs_scope_path}"@, b, "{guest_path}"@, mount.guest_path@, 1);
    lemma_placeholder_stays(a, "{vfs_scope_path}"@, b, "{mount_tag}"@, mount.mount_tag@, 1);
    lemma_placeholder_stays(a, "{vfs_scope_path}"@, b, "{backend_profile}"@, mount.backend_profile@, 1);
    lemma_placeholder_stays(a, "{vfs_scope_path}"@, b, "{vfs_endpoint}"@, mount.vfs_endpoint@, 5);
    lemma_placeholder_is_filled(a, "{vfs_scope_path}"@, b, scope);
    lemma_braceless_sum(a, scope, b);
    lemma_braceless_template(a + scope + b);
    lemma_placeholder_stays(a, "{read_only}"@, b, "{mountpoint}"@, at, 1);
    lemma_placeholder_stays(a, "{read_only}"@, b, "{guest_path}"@, mount.guest_path@, 1);
    lemma_placeholder_stays(a, "{read_only}"@, b, "{mount_tag}"@, mount.mount_tag@, 1);
    lemma_placeholder_stays(a, "{read_only}"@, b, "{backend_profile}"@, mount.backend_profile@, 1);
    lemma_placeholder_stays(a, "{read_only}"@, b, "{vfs_endpoint}"@, mount.vfs_endpoint@, 1);
    lemma_placeholder_stays(a, "{read_only}"@, b, "{vfs_scope_path}"@, scope, 1);
    lemma_placeholder_is_filled(a, "{read_only}"@, b, access);
    lemma_braceless_sum(a, access, b);
    lemma_braceless_template(a + access + b);
    lemma_placeholder_stays(a, "{mountpoint}"@, b, "{guest_path}"@, mount.guest_path@, 1);
    lemma_placeholder_stays(a, "{mountpoint}"@, b, "{mount_tag}"@, mount.mount_tag@, 6);
    lemma_placeholder_stays(a, "{mountpoint}"@, b, "{backend_profile}"@, mount.backend_profile@, 1);
    lemma_placeholder_stays(a, "{mountpoint}"@, b, "{vfs_endpoint}"@, mount.vfs_endpoint@, 1);
    lemma_placeholder_stays(a, "{mountpoint}"@, b, "{vfs_scope_path}"@, scope, 1);
    lemma_placeholder_stays(a, "{mountpoint}"@, b, "{read_only}"@, access, 1);
    lemma_braceless_template(a);
}

/// A mount that breaks the contract is told by its tag, with the reason.
pub proof fn law_broken_contract_tells_why(m: MountModel, movable: bool)
    ensures
        m.availability is NodeLocal && m.continuity is RestoreCrossNode ==> mount_violation(
            m,
            movable,
        ) == Some(
            "shared mount `"@ + m.mount_tag
                + "` cannot claim cross-node restore continuity with node-local availability"@,
        ),
        m.availability is SharedStorage && trimmed(m.backend_profile).len() == 0
            ==> mount_violation(m, movable) == Some(
            "shared-storage mount `"@ + m.mount_tag
                + "` requires a non-empty backend_profile so distributed placement can verify backend availability"@,
        ),
        m.availability is NodeLocal && m.continuity is RestartSameNode && movable
            ==> mount_violation(m, movable) == Some(
            "tier_b_eligible session requires cross-node-restorable shared mounts; mount `"@
                + m.mount_tag + "` is only `"@ + "restart-same-node"@ + "`"@,
        ),
        continuity_name(SharedMountContinuity::RestoreCrossNode) == "restore-cross-node"@,
        continuity_name(SharedMountContinuity::RestartSameNode) == "restart-same-node"@,
{
}

} // verus!
