//! What nodes report: sessions, durable volumes, desktops and PCI devices.

use crate::endpoint::endpoint_host;
use crate::endpoint::host_of_endpoint;
use crate::error::ErrorView;
use crate::error::GrpcCode;
use crate::error::GrpcStatus;
use crate::error::Result;
use crate::error::SandboxError;
use crate::error::StatusView;
use crate::numeral::signed_decimal;
use crate::numeral::to_signed_decimal;
use crate::order::text_less;
use crate::order::text_lt;
use crate::table::looked_up;
use crate::text::same;
use crate::text::views;
use crate::vm::opt_view;
use crate::vm::Vm;
use crate::vm::VmState;
use crate::vm::META_FORK_ID;
use crate::vm::META_PARENT_SESSION_ID;
use crate::vm::META_SESSION_ID;
use vstd::prelude::*;

verus! {

// ---------------------------------------------------------------------------
// Sessions
// ---------------------------------------------------------------------------
/// A session as it is listed.
#[derive(Debug)]
pub struct SessionInfo {
    pub session_id: String,
    pub vm_id: String,
    pub name: String,
    pub state: VmState,
    pub parent_session_id: Option<String>,
    pub fork_id: Option<String>,
}

/// The model of a `SessionInfo`.
pub struct SessionInfoView {
    pub session_id: Seq<char>,
    pub vm_id: Seq<char>,
    pub name: Seq<char>,
    pub state: VmState,
    pub parent_session_id: Option<Seq<char>>,
    pub fork_id: Option<Seq<char>>,
}

impl View for SessionInfo {
    type V = SessionInfoView;

    open spec fn view(&self) -> SessionInfoView {
        SessionInfoView {
            session_id: self.session_id@,
            vm_id: self.vm_id@,
            name: self.name@,
            state: self.state,
            parent_session_id: opt_view(self.parent_session_id),
            fork_id: opt_view(self.fork_id),
        }
    }
}

/// The models of listed sessions.
pub open spec fn info_views(list: Seq<SessionInfo>) -> Seq<SessionInfoView> {
    list.map_values(|i: SessionInfo| i@)
}

/// The session of a VM, where it has one.
pub open spec fn session_of(vm: Vm) -> Option<SessionInfoView> {
    match looked_up(vm.metadata@, META_SESSION_ID@) {
        None => None,
        Some(session_id) => Some(
            SessionInfoView {
                session_id,
                vm_id: vm.id@,
                name: vm.name@,
                state: vm.state,
                parent_session_id: looked_up(vm.metadata@, META_PARENT_SESSION_ID@),
                fork_id: looked_up(vm.metadata@, META_FORK_ID@),
            },
        ),
    }
}

/// A session with the given id is listed.
pub open spec fn lists_session(list: Seq<SessionInfoView>, id: Seq<char>) -> bool {
    exists|i: int| 0 <= i < list.len() && (#[trigger] list[i]).session_id == id
}

/// The list with a VM's session added, unless it has none or its session is listed.
pub open spec fn with_session(list: Seq<SessionInfoView>, vm: Vm) -> Seq<SessionInfoView> {
    match session_of(vm) {
        None => list,
        Some(info) => if lists_session(list, info.session_id) {
            list
        } else {
            list.push(info)
        },
    }
}

/// The sessions of the VMs, in order; of several with one id the first.
pub open spec fn sessions_of(vms: Seq<Vm>) -> Seq<SessionInfoView>
    decreases vms.len(),
{
    if vms.len() == 0 {
        Seq::empty()
    } else {
        with_session(sessions_of(vms.drop_last()), vms.last())
    }
}

fn opt_clone(s: Option<&String>) -> (r: Option<String>)
    ensures
        match s {
            Some(v) => opt_view(r) == Some(v@),
            None => r is None,
        },
{
    match s {
        Some(v) => Some(v.clone()),
        None => None,
    }
}

/// Adds the session of a VM to a list.
pub fn add_session(list: &mut Vec<SessionInfo>, vm: &Vm)
    ensures
        info_views(final(list)@) == with_session(info_views(old(list)@), *vm),
{
    let session_id = match vm.metadata.get(META_SESSION_ID) {
        Some(id) => id.clone(),
        None => return ,
    };
    let ghost before = info_views(list@);
    let mut i: usize = 0;
    while i < list.len()
        invariant
            i <= list@.len(),
            before == info_views(list@),
            before == info_views(old(list)@),
            looked_up(vm.metadata@, META_SESSION_ID@) == Some(session_id@),
            forall|j: int| 0 <= j < i ==> (#[trigger] before[j]).session_id != session_id@,
        decreases list@.len() - i,
    {
        if same(&list[i].session_id, &session_id) {
            assert(before[i as int].session_id == session_id@);
            return ;
        }
        assert(before[i as int].session_id == list@[i as int].session_id@);
        i += 1;
    }
    assert(!lists_session(before, session_id@));
    list.push(
        SessionInfo {
            session_id,
            vm_id: vm.id.clone(),
            name: vm.name.clone(),
            state: vm.state,
            parent_session_id: opt_clone(vm.metadata.get(META_PARENT_SESSION_ID)),
            fork_id: opt_clone(vm.metadata.get(META_FORK_ID)),
        },
    );
    assert(info_views(list@) =~= before.push(session_of(*vm)->Some_0));
}

/// The sessions of the VMs that nodes report, in order; of several with one id the first.
pub fn list_sessions(vms: &Vec<Vm>) -> (list: Vec<SessionInfo>)
    ensures
        info_views(list@) == sessions_of(vms@),
{
    let mut list: Vec<SessionInfo> = Vec::new();
    let mut i: usize = 0;
    assert(info_views(list@) =~= sessions_of(vms@.take(0)));
    while i < vms.len()
        invariant
            i <= vms@.len(),
            info_views(list@) == sessions_of(vms@.take(i as int)),
        decreases vms@.len() - i,
    {
        add_session(&mut list, &vms[i]);
        i += 1;
        assert(vms@.take(i as int).drop_last() == vms@.take(i - 1));
    }
    assert(vms@.take(vms@.len() as int) == vms@);
    list
}

/// No session is listed twice.
pub proof fn law_sessions_are_distinct(vms: Seq<Vm>)
    ensures
        forall|i: int, j: int|
            0 <= i < j < sessions_of(vms).len() ==> (#[trigger] sessions_of(vms)[i]).session_id != (
            #[trigger] sessions_of(vms)[j]).session_id,
    decreases vms.len(),
{
    if vms.len() > 0 {
        law_sessions_are_distinct(vms.drop_last());
        let head = sessions_of(vms.drop_last());
        let all = sessions_of(vms);
        assert forall|i: int, j: int| 0 <= i < j < all.len() implies (#[trigger] all[i]).session_id
            != (#[trigger] all[j]).session_id by {
            if j < head.len() {
                assert(all[i] == head[i] && all[j] == head[j]);
            } else {
                assert(all[i] == head[i]);
            }
        }
    }
}

// ---------------------------------------------------------------------------
// Looking a session up
// ---------------------------------------------------------------------------
/// The endpoints to ask for a session: the one of its route, then the candidates, unless a
/// cluster that has a route keeps its sessions where they are.
pub open spec fn lookup_list(
    route: Option<Seq<char>>,
    cross_node_recovery: bool,
    candidates: Seq<Seq<char>>,
) -> Seq<Seq<char>> {
    match route {
        None => candidates,
        Some(r) => if cross_node_recovery {
            seq![r] + candidates.filter(differs_from(r))
        } else {
            seq![r]
        },
    }
}

/// The test for any text but one.
pub open spec fn differs_from(r: Seq<char>) -> spec_fn(Seq<char>) -> bool {
    |c: Seq<char>| c != r
}

/// The endpoints to ask for a session, in order.
pub fn lookup_order(
    route: Option<String>,
    cross_node_recovery: bool,
    candidates: &Vec<String>,
) -> (order: Vec<String>)
    ensures
        views(order@) == lookup_list(opt_view(route), cross_node_recovery, views(candidates@)),
{
    let ghost all = views(candidates@);
    let mut order: Vec<String> = Vec::new();
    match route {
        None => {
            crate::text::clone_strings(candidates)
        },
        Some(first) => {
            let ghost keep = differs_from(first@);
            order.push(first.clone());
            if !cross_node_recovery {
                assert(views(order@) =~= seq![first@]);
                return order;
            }
            let mut i: usize = 0;
            assert(all.take(0).filter(keep) =~= Seq::empty()) by {
                reveal(Seq::filter);
            }
            assert(views(order@) =~= seq![first@] + all.take(0).filter(keep));
            while i < candidates.len()
                invariant
                    i <= candidates@.len(),
                    all == views(candidates@),
                    keep == differs_from(first@),
                    views(order@) == seq![first@] + all.take(i as int).filter(keep),
                decreases candidates@.len() - i,
            {
                let ghost before = order@;
                if !same(&candidates[i], &first) {
                    order.push(candidates[i].clone());
                }
                proof {
                    let head = all.take(i as int);
                    let next = all.take(i + 1);
                    assert(next.drop_last() =~= head);
                    assert(next.last() == candidates@[i as int]@);
                    reveal(Seq::filter);
                    if keep(next.last()) {
                        assert(views(order@) =~= views(before).push(next.last()));
                        assert(seq![first@] + head.filter(keep).push(next.last()) =~= (seq![first@]
                            + head.filter(keep)).push(next.last()));
                    }
                }
                i += 1;
            }
            assert(all.take(all.len() as int) =~= all);
            order
        },
    }
}

/// What the endpoints said that do not have the session.
#[derive(Debug)]
pub struct LookupTally {
    missing_somewhere: bool,
    last_error: Option<SandboxError>,
}

/// The model of a `LookupTally`.
pub struct TallyView {
    pub missing_somewhere: bool,
    pub last_error: Option<ErrorView>,
}

impl View for LookupTally {
    type V = TallyView;

    closed spec fn view(&self) -> TallyView {
        TallyView {
            missing_somewhere: self.missing_somewhere,
            last_error: match self.last_error {
                Some(e) => Some(e@),
                None => None,
            },
        }
    }
}

impl LookupTally {
    /// Nothing was asked.
    pub fn new() -> (t: LookupTally)
        ensures
            t@ == (TallyView { missing_somewhere: false, last_error: None }),
    {
        LookupTally { missing_somewhere: false, last_error: None }
    }

    /// An endpoint answered that it does not have the session.
    pub fn missing(&mut self)
        ensures
            final(self)@ == (TallyView { missing_somewhere: true, ..old(self)@ }),
    {
        self.missing_somewhere = true;
    }

    /// An endpoint did not answer.
    pub fn failed(&mut self, error: SandboxError)
        ensures
            final(self)@ == (TallyView { last_error: Some(error@), ..old(self)@ }),
    {
        self.last_error = Some(error);
    }

    /// What is known once no endpoint has the session: that there is none where one endpoint
    /// could tell, else the last error.
    pub fn verdict(self) -> (r: Result<()>)
        ensures
            match r {
                Ok(_) => self@.missing_somewhere,
                Err(e) => !self@.missing_somewhere && e@ == (match self@.last_error {
                    Some(last) => last,
                    None => ErrorView::DaemonUnavailable(
                        "no sandbox endpoint available for session registry lookup"@,
                    ),
                }),
            },
    {
        if self.missing_somewhere {
            return Ok(());
        }
        match self.last_error {
            Some(e) => Err(e),
            None => Err(
                SandboxError::DaemonUnavailable(
                    "no sandbox endpoint available for session registry lookup".to_owned(),
                ),
            ),
        }
    }
}

/// What an answer to a lookup means.
#[derive(Debug)]
pub enum LookupStep {
    /// The endpoint does not have the session.
    Missing,
    /// The endpoint does not know lookups: its list of VMs is to be searched.
    SearchList,
    Fail(SandboxError),
}

/// Decides what a lookup that found nothing means.
pub fn lookup_failure(status: GrpcStatus) -> (step: LookupStep)
    ensures
        match step {
            LookupStep::Missing => status.code == GrpcCode::NotFound,
            LookupStep::SearchList => status.code == GrpcCode::Unimplemented,
            LookupStep::Fail(e) => status.code != GrpcCode::NotFound && status.code
                != GrpcCode::Unimplemented && e@ == ErrorView::Grpc(status@),
        },
{
    match status.code {
        GrpcCode::NotFound => LookupStep::Missing,
        GrpcCode::Unimplemented => LookupStep::SearchList,
        _ => LookupStep::Fail(SandboxError::Grpc(status)),
    }
}

/// The position of the first VM that belongs to the session.
pub fn find_session_vm(vms: &Vec<Vm>, session_id: &str) -> (at: Option<usize>)
    ensures
        match at {
            Some(i) => i < vms@.len() && looked_up(vms@[i as int].metadata@, META_SESSION_ID@)
                == Some(session_id@) && forall|j: int|
                0 <= j < i ==> looked_up((#[trigger] vms@[j]).metadata@, META_SESSION_ID@) != Some(
                    session_id@,
                ),
            None => forall|j: int|
                0 <= j < vms@.len() ==> looked_up((#[trigger] vms@[j]).metadata@, META_SESSION_ID@)
                    != Some(session_id@),
        },
{
    let mut i: usize = 0;
    while i < vms.len()
        invariant
            i <= vms@.len(),
            forall|j: int|
                0 <= j < i ==> looked_up((#[trigger] vms@[j]).metadata@, META_SESSION_ID@) != Some(
                    session_id@,
                ),
        decreases vms@.len() - i,
    {
        match vms[i].metadata.get(META_SESSION_ID) {
            Some(id) => if same(id, session_id) {
                return Some(i);
            },
            None => {},
        }
        i += 1;
    }
    None
}

/// The error of a lookup that was not answered in time.
pub fn lookup_timed_out(endpoint: &str) -> (e: SandboxError)
    ensures
        e@ == ErrorView::DaemonUnavailable(
            "session registry lookup timed out at "@ + endpoint@,
        ),
{
    SandboxError::DaemonUnavailable(
        "session registry lookup timed out at ".to_owned().concat(endpoint),
    )
}

// ---------------------------------------------------------------------------
// Durable volumes
// ---------------------------------------------------------------------------
/// A durable volume as it is listed.
#[derive(Debug)]
pub struct DurableVolumeInfo {
    pub owner_key: String,
    pub volume_id: String,
    pub size_gb: i32,
    pub created_at_ms: i64,
    pub updated_at_ms: i64,
    pub backing_volume_id: Option<String>,
    pub attached_vm_ids: Vec<String>,
}

/// A point in time as a node sends it.
#[derive(Clone, Copy, Debug, PartialEq, Eq, Structural)]
pub struct WireTimestamp {
    pub seconds: i64,
    pub nanos: i32,
}

/// A durable volume as a node reports it.
#[derive(Debug)]
pub struct WireVolume {
    pub owner_key: String,
    pub volume_id: String,
    pub size_gb: i32,
    pub created_at: Option<WireTimestamp>,
    pub updated_at: Option<WireTimestamp>,
    pub backing_volume_id: String,
    pub attached_vm_ids: Vec<String>,
}

/// Seconds in milliseconds, held to the range of 64 bits.
pub open spec fn saturated_millis(seconds: i64) -> int {
    let ms = seconds * 1_000;
    if ms > i64::MAX {
        i64::MAX as int
    } else if ms < i64::MIN {
        i64::MIN as int
    } else {
        ms
    }
}

/// Nanoseconds in whole milliseconds, rounded towards zero.
pub open spec fn nanos_in_millis(nanos: i32) -> int {
    if nanos >= 0 {
        nanos as int / 1_000_000
    } else {
        -((-nanos) / 1_000_000)
    }
}

/// A point in time in milliseconds; zero where none is given.
pub open spec fn millis_of(t: Option<WireTimestamp>) -> int {
    match t {
        Some(t) => saturated_millis(t.seconds) + nanos_in_millis(t.nanos),
        None => 0,
    }
}

/// The point in time can be written in milliseconds.
pub open spec fn has_millis(t: Option<WireTimestamp>) -> bool {
    i64::MIN <= millis_of(t) <= i64::MAX
}

/// A point in time in milliseconds.
pub fn timestamp_ms(t: Option<WireTimestamp>) -> (ms: i64)
    requires
        has_millis(t),
    ensures
        ms == millis_of(t),
{
    match t {
        None => 0,
        Some(t) => {
            let whole: i64 = if t.seconds > 9_223_372_036_854_775 {
                i64::MAX
            } else if t.seconds < -9_223_372_036_854_775 {
                i64::MIN
            } else {
                t.seconds * 1_000
            };
            let part: i64 = if t.nanos >= 0 {
                (t.nanos as i64) / 1_000_000
            } else {
                -((-(t.nanos as i64)) / 1_000_000)
            };
            whole + part
        },
    }
}

/// Whether a point in time can be written in milliseconds.
pub fn timestamp_has_millis(t: Option<WireTimestamp>) -> (yes: bool)
    ensures
        yes == has_millis(t),
{
    match t {
        None => true,
        Some(t) => {
            let whole: i128 = if t.seconds > 9_223_372_036_854_775 {
                i64::MAX as i128
            } else if t.seconds < -9_223_372_036_854_775 {
                i64::MIN as i128
            } else {
                t.seconds as i128 * 1_000
            };
            let part: i128 = if t.nanos >= 0 {
                (t.nanos as i128) / 1_000_000
            } else {
                -((-(t.nanos as i128)) / 1_000_000)
            };
            let total: i128 = whole + part;
            i64::MIN as i128 <= total && total <= i64::MAX as i128
        },
    }
}

/// `info` is what is listed of a volume.
pub open spec fn is_listed_form(info: DurableVolumeInfo, v: WireVolume) -> bool {
    &&& info.owner_key@ == v.owner_key@
    &&& info.volume_id@ == v.volume_id@
    &&& info.size_gb == v.size_gb
    &&& info.created_at_ms == millis_of(v.created_at)
    &&& info.updated_at_ms == millis_of(v.updated_at)
    &&& opt_view(info.backing_volume_id) == (if v.backing_volume_id@.len() > 0 {
        Some(v.backing_volume_id@)
    } else {
        None
    })
    &&& views(info.attached_vm_ids@) == views(v.attached_vm_ids@)
}

/// What is listed of a volume.
pub fn volume_info(v: &WireVolume) -> (info: DurableVolumeInfo)
    requires
        has_millis(v.created_at),
        has_millis(v.updated_at),
    ensures
        is_listed_form(info, *v),
{
    DurableVolumeInfo {
        owner_key: v.owner_key.clone(),
        volume_id: v.volume_id.clone(),
        size_gb: v.size_gb,
        created_at_ms: timestamp_ms(v.created_at),
        updated_at_ms: timestamp_ms(v.updated_at),
        backing_volume_id: if v.backing_volume_id.as_str().is_empty() {
            None
        } else {
            Some(v.backing_volume_id.clone())
        },
        attached_vm_ids: crate::text::clone_strings(&v.attached_vm_ids),
    }
}

/// The position of the first volume with the given owner.
pub open spec fn first_with_owner(volumes: Seq<WireVolume>, owner: Seq<char>) -> Option<int>
    decreases volumes.len(),
{
    if volumes.len() == 0 {
        None
    } else {
        match first_with_owner(volumes.drop_last(), owner) {
            Some(i) => Some(i),
            None => if volumes.last().owner_key@ == owner {
                Some(volumes.len() - 1)
            } else {
                None
            },
        }
    }
}

proof fn lemma_first_with_owner(volumes: Seq<WireVolume>, owner: Seq<char>)
    ensures
        match first_with_owner(volumes, owner) {
            Some(i) => 0 <= i < volumes.len() && volumes[i].owner_key@ == owner && forall|j: int|
                0 <= j < i ==> (#[trigger] volumes[j]).owner_key@ != owner,
            None => forall|j: int|
                0 <= j < volumes.len() ==> (#[trigger] volumes[j]).owner_key@ != owner,
        },
    decreases volumes.len(),
{
    if volumes.len() > 0 {
        let head = volumes.drop_last();
        lemma_first_with_owner(head, owner);
        assert(forall|j: int| 0 <= j < head.len() ==> head[j] == volumes[j]);
        match first_with_owner(head, owner) {
            Some(i) => {
                assert forall|j: int| 0 <= j < i implies (#[trigger] volumes[j]).owner_key@
                    != owner by {
                    assert(head[j].owner_key@ != owner);
                }
            },
            None => {
                assert forall|j: int| 0 <= j < head.len() implies (#[trigger] volumes[j]).owner_key@
                    != owner by {
                    assert(head[j].owner_key@ != owner);
                }
            },
        }
    }
}

/// The list is in the order of owners, and each owner stands in it once.
pub open spec fn by_owner(list: Seq<DurableVolumeInfo>) -> bool {
    forall|i: int, j: int|
        0 <= i < j < list.len() ==> text_lt(
            (#[trigger] list[i]).owner_key@,
            (#[trigger] list[j]).owner_key@,
        )
}

/// `list` holds, of each owner among the volumes, the first of its volumes.
pub open spec fn lists_first_volumes(
    list: Seq<DurableVolumeInfo>,
    volumes: Seq<WireVolume>,
) -> bool {
    &&& by_owner(list)
    &&& forall|k: int|
        0 <= k < list.len() ==> ({
            let at = first_with_owner(volumes, (#[trigger] list[k]).owner_key@);
            at is Some && is_listed_form(list[k], volumes[at->Some_0])
        })
    &&& forall|i: int|
        0 <= i < volumes.len() ==> exists|k: int|
            0 <= k < list.len() && (#[trigger] list[k]).owner_key@ == (
            #[trigger] volumes[i]).owner_key@
}

/// The volumes that nodes report, in the order of their owners; of several with one owner the
/// first.
pub fn list_durable_volumes(volumes: &Vec<WireVolume>) -> (list: Vec<DurableVolumeInfo>)
    requires
        forall|i: int|
            0 <= i < volumes@.len() ==> has_millis((#[trigger] volumes@[i]).created_at)
                && has_millis(volumes@[i].updated_at),
    ensures
        lists_first_volumes(list@, volumes@),
{
    let mut list: Vec<DurableVolumeInfo> = Vec::new();
    let mut i: usize = 0;
    while i < volumes.len()
        invariant
            i <= volumes@.len(),
            forall|k: int|
                0 <= k < volumes@.len() ==> has_millis((#[trigger] volumes@[k]).created_at)
                    && has_millis(volumes@[k].updated_at),
            lists_first_volumes(list@, volumes@.take(i as int)),
        decreases volumes@.len() - i,
    {
        let ghost head = volumes@.take(i as int);
        let ghost next = volumes@.take(i + 1);
        let ghost before = list@;
        let ghost v = volumes@[i as int];
        assert(next.drop_last() == head);
        assert(next.last() == v);
        let mut at: usize = 0;
        while at < list.len() && text_less(&list[at].owner_key, &volumes[i].owner_key)
            invariant
                at <= list@.len(),
                i < volumes@.len(),
                list@ == before,
                forall|k: int|
                    0 <= k < at ==> text_lt(
                        (#[trigger] before[k]).owner_key@,
                        volumes@[i as int].owner_key@,
                    ),
            decreases list@.len() - at,
        {
            at += 1;
        }
        if at < list.len() && same(&list[at].owner_key, &volumes[i].owner_key) {
            proof {
                assert forall|k: int| 0 <= k < before.len() implies ({
                    let p = first_with_owner(next, (#[trigger] before[k]).owner_key@);
                    p is Some && is_listed_form(before[k], next[p->Some_0])
                }) by {
                    let p = first_with_owner(head, before[k].owner_key@);
                    lemma_first_with_owner(head, before[k].owner_key@);
                    assert(next[p->Some_0] == head[p->Some_0]);
                }
                assert forall|j: int| 0 <= j < next.len() implies exists|k: int|
                    0 <= k < before.len() && (#[trigger] before[k]).owner_key@ == (
                    #[trigger] next[j]).owner_key@ by {
                    if j < i {
                        assert(head[j] == next[j]);
                    } else {
                        assert(before[at as int].owner_key@ == next[j].owner_key@);
                    }
                }
            }
        } else {
            let info = volume_info(&volumes[i]);
            list.insert(at, info);
            proof {
                lemma_insert_volume(before, head, v, info, at as int);
                assert(head.push(v) == next);
            }
        }
        i += 1;
    }
    assert(volumes@.take(volumes@.len() as int) == volumes@);
    list
}

proof fn lemma_insert_volume(
    list: Seq<DurableVolumeInfo>,
    volumes: Seq<WireVolume>,
    v: WireVolume,
    info: DurableVolumeInfo,
    at: int,
)
    requires
        lists_first_volumes(list, volumes),
        is_listed_form(info, v),
        0 <= at <= list.len(),
        forall|k: int| 0 <= k < at ==> text_lt((#[trigger] list[k]).owner_key@, v.owner_key@),
        at < list.len() ==> !text_lt(list[at].owner_key@, v.owner_key@) && list[at].owner_key@
            != v.owner_key@,
    ensures
        lists_first_volumes(list.insert(at, info), volumes.push(v)),
{
    let after = list.insert(at, info);
    let next = volumes.push(v);
    assert(next.drop_last() == volumes);
    assert forall|k: int| at <= k < list.len() implies text_lt(
        v.owner_key@,
        (#[trigger] list[k]).owner_key@,
    ) by {
        crate::order::lemma_text_lt_total(list[at].owner_key@, v.owner_key@);
        if at < k {
            crate::order::lemma_text_lt_transitive(
                v.owner_key@,
                list[at].owner_key@,
                list[k].owner_key@,
            );
        }
    }
    assert forall|a: int, b: int| 0 <= a < b < after.len() implies text_lt(
        (#[trigger] after[a]).owner_key@,
        (#[trigger] after[b]).owner_key@,
    ) by {
        if b < at {
            assert(after[a] == list[a] && after[b] == list[b]);
        } else if b == at {
            assert(after[a] == list[a]);
        } else if a < at {
            assert(after[a] == list[a] && after[b] == list[b - 1]);
        } else if a == at {
            assert(after[b] == list[b - 1]);
        } else {
            assert(after[a] == list[a - 1] && after[b] == list[b - 1]);
        }
    }
    // No earlier volume has the owner of the new one.
    lemma_first_with_owner(volumes, v.owner_key@);
    if first_with_owner(volumes, v.owner_key@) is Some {
        let j = first_with_owner(volumes, v.owner_key@)->Some_0;
        let k = choose|k: int|
            0 <= k < list.len() && (#[trigger] list[k]).owner_key@ == volumes[j].owner_key@;
        crate::order::lemma_text_lt_irreflexive(v.owner_key@);
        if k < at {
            assert(text_lt(list[k].owner_key@, v.owner_key@));
        } else {
            assert(text_lt(v.owner_key@, list[k].owner_key@));
        }
    }
    assert forall|k: int| 0 <= k < after.len() implies ({
        let p = first_with_owner(next, (#[trigger] after[k]).owner_key@);
        p is Some && is_listed_form(after[k], next[p->Some_0])
    }) by {
        if k == at {
            assert(next[next.len() - 1] == v);
        } else {
            let old = if k < at {
                list[k]
            } else {
                list[k - 1]
            };
            assert(after[k] == old);
            let o = if k < at {
                k
            } else {
                k - 1
            };
            assert(list[o] == old);
            let p = first_with_owner(volumes, list[o].owner_key@);
            lemma_first_with_owner(volumes, list[o].owner_key@);
            assert(next[p->Some_0] == volumes[p->Some_0]);
        }
    }
    assert forall|j: int| 0 <= j < next.len() implies exists|k: int|
        0 <= k < after.len() && (#[trigger] after[k]).owner_key@ == (#[trigger] next[j]).owner_key@ by {
        if j < volumes.len() {
            assert(next[j] == volumes[j]);
            let k = choose|k: int|
                0 <= k < list.len() && (#[trigger] list[k]).owner_key@ == volumes[j].owner_key@;
            if k < at {
                assert(after[k].owner_key@ == next[j].owner_key@);
            } else {
                assert(after[k + 1].owner_key@ == next[j].owner_key@);
            }
        } else {
            assert(after[at].owner_key@ == next[j].owner_key@);
        }
    }
}

/// What an endpoint that refused to list its volumes means.
#[derive(Debug)]
pub enum VolumeListStep {
    /// It has none to list.
    Skip,
    Fail(SandboxError),
}

/// Decides what a refusal to list volumes means. An endpoint that does not know volumes is passed
/// over; one that ran out of time is reported as such.
pub fn volume_list_failure(status: GrpcStatus) -> (step: VolumeListStep)
    ensures
        match step {
            VolumeListStep::Skip => status.code == GrpcCode::Unimplemented,
            VolumeListStep::Fail(e) => status.code != GrpcCode::Unimplemented && e@ == (
            if status.code == GrpcCode::Cancelled || status.code == GrpcCode::DeadlineExceeded {
                volume_list_timeout()
            } else {
                ErrorView::Grpc(status@)
            }),
        },
{
    match status.code {
        GrpcCode::Unimplemented => VolumeListStep::Skip,
        GrpcCode::Cancelled | GrpcCode::DeadlineExceeded => VolumeListStep::Fail(
            volume_list_timed_out(),
        ),
        _ => VolumeListStep::Fail(SandboxError::Grpc(status)),
    }
}

/// That volumes could not be listed in time.
pub open spec fn volume_list_timeout() -> ErrorView {
    ErrorView::Grpc(
        StatusView {
            code: GrpcCode::DeadlineExceeded,
            message: "durable volume inventory timed out"@,
            source: None,
        },
    )
}

/// That volumes could not be listed in time.
pub fn volume_list_timed_out() -> (e: SandboxError)
    ensures
        e@ == volume_list_timeout(),
{
    SandboxError::Grpc(
        GrpcStatus {
            code: GrpcCode::DeadlineExceeded,
            message: "durable volume inventory timed out".to_owned(),
            source: None,
        },
    )
}

/// What is done with durable volumes on all endpoints.
#[derive(Clone, Copy, Debug, PartialEq, Eq, Structural)]
pub enum VolumeOperation {
    Inventory,
    Deletion,
    Resize,
}

/// How the operation is named where no endpoint is there for it.
pub open spec fn volume_operation_name(operation: VolumeOperation) -> Seq<char> {
    match operation {
        VolumeOperation::Inventory => "inventory"@,
        VolumeOperation::Deletion => "deletion"@,
        VolumeOperation::Resize => "resize"@,
    }
}

/// The error of an operation for which no endpoint could be reached: the last one met, where
/// there is one.
pub fn volume_unreachable(operation: VolumeOperation, last_connect_error: Option<SandboxError>) -> (
e: SandboxError)
    ensures
        match last_connect_error {
            Some(last) => e == last,
            None => e@ == ErrorView::DaemonUnavailable(
                "no sandbox endpoint available for durable volume "@ + volume_operation_name(
                    operation,
                ),
            ),
        },
{
    match last_connect_error {
        Some(last) => last,
        None => {
            let name: &str = match operation {
                VolumeOperation::Inventory => "inventory",
                VolumeOperation::Deletion => "deletion",
                VolumeOperation::Resize => "resize",
            };
            SandboxError::DaemonUnavailable(
                "no sandbox endpoint available for durable volume ".to_owned().concat(name),
            )
        },
    }
}

/// What is known of all volumes once every endpoint was asked: those that were reported, or the error
/// where no endpoint could be reached.
pub fn volume_inventory(
    contacted: bool,
    last_connect_error: Option<SandboxError>,
    volumes: &Vec<WireVolume>,
) -> (r: Result<Vec<DurableVolumeInfo>>)
    requires
        forall|i: int|
            0 <= i < volumes@.len() ==> has_millis((#[trigger] volumes@[i]).created_at)
                && has_millis(volumes@[i].updated_at),
    ensures
        match r {
            Ok(list) => contacted && lists_first_volumes(list@, volumes@),
            Err(e) => !contacted && match last_connect_error {
                Some(last) => e == last,
                None => e@ == ErrorView::DaemonUnavailable(
                    "no sandbox endpoint available for durable volume "@ + volume_operation_name(
                        VolumeOperation::Inventory,
                    ),
                ),
            },
        },
{
    if !contacted {
        return Err(volume_unreachable(VolumeOperation::Inventory, last_connect_error));
    }
    Ok(list_durable_volumes(volumes))
}

/// What an endpoint that did not delete or resize a volume means.
#[derive(Debug)]
pub enum VolumeStep {
    /// The volume is not there; it may be elsewhere.
    Absent,
    Fail(SandboxError),
}

/// Decides what a refusal to delete or resize a volume means.
pub fn volume_failure(status: GrpcStatus) -> (step: VolumeStep)
    ensures
        match step {
            VolumeStep::Absent => status.code == GrpcCode::NotFound,
            VolumeStep::Fail(e) => status.code != GrpcCode::NotFound && e@ == ErrorView::Grpc(
                status@,
            ),
        },
{
    match status.code {
        GrpcCode::NotFound => VolumeStep::Absent,
        _ => VolumeStep::Fail(SandboxError::Grpc(status)),
    }
}

/// What is known of a deletion or a resize once every endpoint was asked.
pub fn volume_verdict(
    operation: VolumeOperation,
    contacted: bool,
    found: bool,
    last_connect_error: Option<SandboxError>,
    owner_key: &str,
) -> (r: Result<()>)
    ensures
        match r {
            Ok(_) => contacted && found,
            Err(e) => if !contacted {
                match last_connect_error {
                    Some(last) => e == last,
                    None => e@ == ErrorView::DaemonUnavailable(
                        "no sandbox endpoint available for durable volume "@
                            + volume_operation_name(operation),
                    ),
                }
            } else {
                !found && e@ == ErrorView::InvalidResponse(
                    "durable volume not found: "@ + owner_key@,
                )
            },
        },
{
    if !contacted {
        return Err(volume_unreachable(operation, last_connect_error));
    }
    if found {
        return Ok(());
    }
    Err(SandboxError::InvalidResponse("durable volume not found: ".to_owned().concat(owner_key)))
}

// ---------------------------------------------------------------------------
// Desktops
// ---------------------------------------------------------------------------
#[derive(Clone, Copy, Debug, PartialEq, Eq, Structural)]
pub enum SessionDesktopKind {
    Vnc,
    NativeWindow,
}

/// How one signs in to a desktop.
#[derive(Clone, Copy, Debug, PartialEq, Eq, Structural)]
pub enum SessionDesktopAuthentication {
    Unprotected,
    Password,
    Account,
}

/// Where a desktop can be seen.
#[derive(Debug)]
pub struct SessionDesktopTarget {
    pub kind: SessionDesktopKind,
    pub host: Option<String>,
    pub port: Option<u16>,
    pub password: Option<String>,
    pub authentication: SessionDesktopAuthentication,
    pub view_only: bool,
}

/// The model of a `SessionDesktopTarget`.
pub struct DesktopTargetView {
    pub kind: SessionDesktopKind,
    pub host: Option<Seq<char>>,
    pub port: Option<u16>,
    pub password: Option<Seq<char>>,
    pub authentication: SessionDesktopAuthentication,
    pub view_only: bool,
}

impl View for SessionDesktopTarget {
    type V = DesktopTargetView;

    open spec fn view(&self) -> DesktopTargetView {
        DesktopTargetView {
            kind: self.kind,
            host: opt_view(self.host),
            port: self.port,
            password: opt_view(self.password),
            authentication: self.authentication,
            view_only: self.view_only,
        }
    }
}

/// The kind of a desktop as a node reports it; a number that a node does not define reads as
/// unspecified.
#[derive(Clone, Copy, Debug, PartialEq, Eq, Structural)]
pub enum DesktopKind {
    Unspecified,
    NativeWindow,
    Vnc,
    GuestVnc,
}

/// A desktop as a node reports it.
#[derive(Debug)]
pub struct WireDesktop {
    pub kind: DesktopKind,
    pub port: i64,
    pub password: String,
    pub view_only: bool,
}

/// What opens a desktop.
#[derive(Debug)]
pub enum DesktopPlan {
    /// Have the node show its window.
    ShowWindow(SessionDesktopTarget),
    /// Connect to it.
    Connect(SessionDesktopTarget),
    /// Forward the guest's port, and connect to the forwarded one.
    Forward(u16),
}

/// A text where it is not empty.
pub open spec fn nonempty(s: Seq<char>) -> Option<Seq<char>> {
    if s.len() > 0 {
        Some(s)
    } else {
        None
    }
}

/// A port as a node reports it, which must be one.
pub open spec fn reported_port(port: i64, guest: bool) -> std::result::Result<u16, ErrorView> {
    let label = if guest {
        "guest desktop port"@
    } else {
        "desktop port"@
    };
    if !(0 <= port <= u16::MAX) {
        Err(
            ErrorView::InvalidResponse(
                "VM reported invalid "@ + label + ": "@ + signed_decimal(port as int),
            ),
        )
    } else if port == 0 {
        Err(ErrorView::InvalidResponse("VM reported zero "@ + label))
    } else {
        Ok(port as u16)
    }
}

fn check_port(port: i64, guest: bool) -> (r: Result<u16>)
    ensures
        match r {
            Ok(p) => reported_port(port, guest) == std::result::Result::<u16, ErrorView>::Ok(p),
            Err(e) => reported_port(port, guest) == std::result::Result::<u16, ErrorView>::Err(e@),
        },
{
    let label: &str = if guest {
        "guest desktop port"
    } else {
        "desktop port"
    };
    if port < 0 || port > 65535 {
        let shown = to_signed_decimal(port);
        return Err(
            SandboxError::InvalidResponse(
                "VM reported invalid ".to_owned().concat(label).concat(": ").concat(&shown),
            ),
        );
    }
    if port == 0 {
        return Err(
            SandboxError::InvalidResponse("VM reported zero ".to_owned().concat(label)),
        );
    }
    Ok(port as u16)
}

/// The window of a node.
pub open spec fn native_window() -> DesktopTargetView {
    DesktopTargetView {
        kind: SessionDesktopKind::NativeWindow,
        host: None,
        port: None,
        password: None,
        authentication: SessionDesktopAuthentication::Unprotected,
        view_only: false,
    }
}

/// The host is the machine itself.
pub open spec fn is_loopback(host: Seq<char>) -> bool {
    host == "127.0.0.1"@ || host == "::1"@
}

/// The model of a `DesktopPlan`.
pub enum DesktopPlanView {
    ShowWindow(DesktopTargetView),
    Connect(DesktopTargetView),
    Forward(u16),
}

/// The model of a `DesktopPlan`.
pub open spec fn plan_view(plan: DesktopPlan) -> DesktopPlanView {
    match plan {
        DesktopPlan::ShowWindow(t) => DesktopPlanView::ShowWindow(t@),
        DesktopPlan::Connect(t) => DesktopPlanView::Connect(t@),
        DesktopPlan::Forward(port) => DesktopPlanView::Forward(port),
    }
}

/// What opens a desktop. The console of a node can be reached from the node itself only.
pub open spec fn desktop_opening(desktop: WireDesktop, node_endpoint: Seq<char>) -> std::result::Result<
    DesktopPlanView,
    ErrorView,
> {
    match desktop.kind {
        DesktopKind::NativeWindow => Ok(DesktopPlanView::ShowWindow(native_window())),
        DesktopKind::Vnc => match reported_port(desktop.port, false) {
            Err(e) => Err(e),
            Ok(port) => match host_of_endpoint(node_endpoint) {
                Err(e) => Err(e),
                Ok(host) => if is_loopback(host) {
                    Ok(
                        DesktopPlanView::Connect(
                            DesktopTargetView {
                                kind: SessionDesktopKind::Vnc,
                                host: Some(host),
                                port: Some(port),
                                password: nonempty(desktop.password@),
                                authentication: if desktop.password@.len() > 0 {
                                    SessionDesktopAuthentication::Password
                                } else {
                                    SessionDesktopAuthentication::Unprotected
                                },
                                view_only: desktop.view_only,
                            },
                        ),
                    )
                } else {
                    Err(
                        ErrorView::Unsupported(
                            "remote-node QEMU desktop relay is not implemented; the VNC console remains node-loopback-only"@,
                        ),
                    )
                },
            },
        },
        DesktopKind::GuestVnc => match reported_port(desktop.port, true) {
            Err(e) => Err(e),
            Ok(port) => Ok(DesktopPlanView::Forward(port)),
        },
        DesktopKind::Unspecified => Err(
            ErrorView::InvalidResponse("VM reported an unspecified desktop kind"@),
        ),
    }
}

fn nonempty_password(password: &str) -> (r: Option<String>)
    ensures
        opt_view(r) == nonempty(password@),
{
    if password.is_empty() {
        None
    } else {
        Some(password.to_owned())
    }
}

/// Decides what opens a desktop.
pub fn plan_desktop(desktop: &WireDesktop, node_endpoint: &str) -> (r: Result<DesktopPlan>)
    ensures
        match r {
            Ok(plan) => desktop_opening(*desktop, node_endpoint@) == std::result::Result::<
                DesktopPlanView,
                ErrorView,
            >::Ok(plan_view(plan)),
            Err(e) => desktop_opening(*desktop, node_endpoint@) == std::result::Result::<
                DesktopPlanView,
                ErrorView,
            >::Err(e@),
        },
{
    match desktop.kind {
        DesktopKind::NativeWindow => Ok(
            DesktopPlan::ShowWindow(
                SessionDesktopTarget {
                    kind: SessionDesktopKind::NativeWindow,
                    host: None,
                    port: None,
                    password: None,
                    authentication: SessionDesktopAuthentication::Unprotected,
                    view_only: false,
                },
            ),
        ),
        DesktopKind::Vnc => {
            let port = match check_port(desktop.port, false) {
                Ok(port) => port,
                Err(e) => return Err(e),
            };
            let host = match endpoint_host(node_endpoint) {
                Ok(host) => host,
                Err(e) => return Err(e),
            };
            if !same(&host, "127.0.0.1") && !same(&host, "::1") {
                return Err(
                    SandboxError::Unsupported(
                        "remote-node QEMU desktop relay is not implemented; the VNC console remains node-loopback-only".to_owned(),
                    ),
                );
            }
            let password = nonempty_password(&desktop.password);
            let authentication = if password.is_some() {
                SessionDesktopAuthentication::Password
            } else {
                SessionDesktopAuthentication::Unprotected
            };
            Ok(
                DesktopPlan::Connect(
                    SessionDesktopTarget {
                        kind: SessionDesktopKind::Vnc,
                        host: Some(host),
                        port: Some(port),
                        password,
                        authentication,
                        view_only: desktop.view_only,
                    },
                ),
            )
        },
        DesktopKind::GuestVnc => match check_port(desktop.port, true) {
            Ok(port) => Ok(DesktopPlan::Forward(port)),
            Err(e) => Err(e),
        },
        DesktopKind::Unspecified => Err(
            SandboxError::InvalidResponse("VM reported an unspecified desktop kind".to_owned()),
        ),
    }
}

/// The desktop of a guest, seen through a forwarded port.
pub fn forwarded_desktop(desktop: &WireDesktop, host_port: u16) -> (target: SessionDesktopTarget)
    ensures
        target@ == (DesktopTargetView {
            kind: SessionDesktopKind::Vnc,
            host: Some("127.0.0.1"@),
            port: Some(host_port),
            password: nonempty(desktop.password@),
            authentication: SessionDesktopAuthentication::Account,
            view_only: desktop.view_only,
        }),
{
    SessionDesktopTarget {
        kind: SessionDesktopKind::Vnc,
        host: Some("127.0.0.1".to_owned()),
        port: Some(host_port),
        password: nonempty_password(&desktop.password),
        authentication: SessionDesktopAuthentication::Account,
        view_only: desktop.view_only,
    }
}

// ---------------------------------------------------------------------------
// Snapshots
// ---------------------------------------------------------------------------
#[derive(Debug)]
pub struct SessionCheckpoint {
    pub id: String,
}

#[derive(Debug)]
pub struct SessionSnapshot {
    pub id: String,
    pub name: String,
    pub label: String,
    pub description: String,
}

/// A checkpoint at a provider that manages its VMs, as a snapshot.
pub fn managed_snapshot(checkpoint_id: String, label: &str, description: &str) -> (s: SessionSnapshot)
    ensures
        s.id == checkpoint_id,
        s.name@ == Seq::<char>::empty(),
        s.label@ == label@,
        s.description@ == description@,
{
    SessionSnapshot {
        id: checkpoint_id,
        name: String::new(),
        label: label.to_owned(),
        description: description.to_owned(),
    }
}

// ---------------------------------------------------------------------------
// PCI devices
// ---------------------------------------------------------------------------
#[derive(Clone, Copy, Debug, PartialEq, Eq, Structural)]
pub enum HostPciDeviceState {
    Disabled,
    Unavailable,
    Host,
    Ready,
    Assigned,
    Error,
    Unknown,
}

#[derive(Debug)]
pub struct HostPciFunction {
    pub bdf: String,
    pub vendor_id: String,
    pub device_id: String,
    pub class_code: String,
    pub driver: String,
    pub iommu_group: String,
}

#[derive(Debug)]
pub struct HostPciDevice {
    pub id: String,
    pub label: String,
    pub functions: Vec<HostPciFunction>,
    pub state: HostPciDeviceState,
    pub assigned_vm_id: String,
    pub managed: bool,
    pub hotplug_capable: bool,
    pub unavailable_reason: String,
}

#[derive(Debug)]
pub struct HostPciInventory {
    pub enabled: bool,
    pub devices: Vec<HostPciDevice>,
}

#[derive(Debug)]
pub struct PciDeviceAction {
    pub device: Option<HostPciDevice>,
    pub restart_required: bool,
    pub detail: String,
    pub vm_state: VmState,
}

/// The state of a PCI device as a node sends it.
#[derive(Clone, Copy, Debug, PartialEq, Eq, Structural)]
pub enum WirePciState {
    Unspecified,
    Disabled,
    Unavailable,
    Host,
    Ready,
    Assigned,
    Error,
}

/// A PCI device as a node reports it; `state` is `None` for a number that names no state.
#[derive(Debug)]
pub struct WirePciDevice {
    pub id: String,
    pub label: String,
    pub functions: Vec<HostPciFunction>,
    pub state: Option<WirePciState>,
    pub assigned_vm_id: String,
    pub managed: bool,
    pub hotplug_capable: bool,
    pub unavailable_reason: String,
}

/// The answer of a node to an attachment or a detachment.
#[derive(Debug)]
pub struct WirePciAction {
    pub device: Option<WirePciDevice>,
    pub restart_required: bool,
    pub detail: String,
    pub vm_state: Option<VmState>,
}

/// What a reported state stands for.
pub open spec fn pci_state(state: Option<WirePciState>) -> HostPciDeviceState {
    match state {
        Some(WirePciState::Disabled) => HostPciDeviceState::Disabled,
        Some(WirePciState::Unavailable) => HostPciDeviceState::Unavailable,
        Some(WirePciState::Host) => HostPciDeviceState::Host,
        Some(WirePciState::Ready) => HostPciDeviceState::Ready,
        Some(WirePciState::Assigned) => HostPciDeviceState::Assigned,
        Some(WirePciState::Error) => HostPciDeviceState::Error,
        Some(WirePciState::Unspecified) => HostPciDeviceState::Unknown,
        None => HostPciDeviceState::Unknown,
    }
}

/// What a reported device stands for.
pub open spec fn pci_device(d: WirePciDevice) -> HostPciDevice {
    HostPciDevice {
        id: d.id,
        label: d.label,
        functions: d.functions,
        state: pci_state(d.state),
        assigned_vm_id: d.assigned_vm_id,
        managed: d.managed,
        hotplug_capable: d.hotplug_capable,
        unavailable_reason: d.unavailable_reason,
    }
}

/// What a reported device stands for.
pub fn map_host_pci_device(device: WirePciDevice) -> (d: HostPciDevice)
    ensures
        d == pci_device(device),
{
    let state = match device.state {
        Some(WirePciState::Disabled) => HostPciDeviceState::Disabled,
        Some(WirePciState::Unavailable) => HostPciDeviceState::Unavailable,
        Some(WirePciState::Host) => HostPciDeviceState::Host,
        Some(WirePciState::Ready) => HostPciDeviceState::Ready,
        Some(WirePciState::Assigned) => HostPciDeviceState::Assigned,
        Some(WirePciState::Error) => HostPciDeviceState::Error,
        Some(WirePciState::Unspecified) => HostPciDeviceState::Unknown,
        None => HostPciDeviceState::Unknown,
    };
    HostPciDevice {
        id: device.id,
        label: device.label,
        functions: device.functions,
        state,
        assigned_vm_id: device.assigned_vm_id,
        managed: device.managed,
        hotplug_capable: device.hotplug_capable,
        unavailable_reason: device.unavailable_reason,
    }
}

/// What the answer of a node stands for. An answer without a VM has the state of number zero.
pub fn map_pci_action(response: WirePciAction) -> (action: PciDeviceAction)
    ensures
        action.device == (match response.device {
            Some(d) => Some(pci_device(d)),
            None => None,
        }),
        action.restart_required == response.restart_required,
        action.detail == response.detail,
        action.vm_state == (match response.vm_state {
            Some(state) => state,
            None => VmState::Other(0),
        }),
{
    PciDeviceAction {
        device: match response.device {
            Some(d) => Some(map_host_pci_device(d)),
            None => None,
        },
        restart_required: response.restart_required,
        detail: response.detail,
        vm_state: match response.vm_state {
            Some(state) => state,
            None => VmState::Other(0),
        },
    }
}

// ---------------------------------------------------------------------------
// What is listed, and where it is looked for
// ---------------------------------------------------------------------------
/// A VM is listed as the session that its metadata names, with its own id, name and state; one that
/// names none is listed as no session.
pub proof fn law_session_is_read_off_its_vm(vm: Vm)
    ensures
        !vm.metadata@.contains_key("chevalier.session_id"@) ==> session_of(vm) is None,
        vm.metadata@.contains_key("chevalier.session_id"@) ==> {
            &&& session_of(vm) is Some
            &&& session_of(vm)->Some_0.session_id == vm.metadata@["chevalier.session_id"@]
            &&& session_of(vm)->Some_0.vm_id == vm.id@
            &&& session_of(vm)->Some_0.name == vm.name@
            &&& session_of(vm)->Some_0.state == vm.state
            &&& vm.metadata@.contains_key("chevalier.parent_session_id"@) ==> session_of(
                vm,
            )->Some_0.parent_session_id == Some(vm.metadata@["chevalier.parent_session_id"@])
            &&& !vm.metadata@.contains_key("chevalier.parent_session_id"@) ==> session_of(
                vm,
            )->Some_0.parent_session_id is None
            &&& vm.metadata@.contains_key("chevalier.fork_id"@) ==> session_of(vm)->Some_0.fork_id
                == Some(vm.metadata@["chevalier.fork_id"@])
            &&& !vm.metadata@.contains_key("chevalier.fork_id"@) ==> session_of(
                vm,
            )->Some_0.fork_id is None
        },
{
}

/// Every session of the VMs is listed, as the first VM of it shows it, and nothing else is.
pub proof fn law_sessions_are_listed_by_first_vm(vms: Seq<Vm>)
    ensures
        forall|i: int|
            0 <= i < vms.len() && session_of(#[trigger] vms[i]) is Some && (forall|j: int|
                0 <= j < i ==> session_of(#[trigger] vms[j]) is None || session_of(
                    vms[j],
                )->Some_0.session_id != session_of(vms[i])->Some_0.session_id) ==> sessions_of(
                vms,
            ).contains(session_of(vms[i])->Some_0),
        forall|k: int|
            0 <= k < sessions_of(vms).len() ==> exists|i: int|
                0 <= i < vms.len() && session_of(#[trigger] vms[i]) == Some(
                    #[trigger] sessions_of(vms)[k],
                ),
    decreases vms.len(),
{
    if vms.len() > 0 {
        let head = vms.drop_last();
        let before = sessions_of(head);
        let all = sessions_of(vms);
        law_sessions_are_listed_by_first_vm(head);
        assert forall|i: int|
            0 <= i < vms.len() && session_of(#[trigger] vms[i]) is Some && (forall|j: int|
                0 <= j < i ==> session_of(#[trigger] vms[j]) is None || session_of(
                    vms[j],
                )->Some_0.session_id != session_of(vms[i])->Some_0.session_id) implies all.contains(
            session_of(vms[i])->Some_0,
        ) by {
            let info = session_of(vms[i])->Some_0;
            if i < head.len() {
                assert(head[i] == vms[i]);
                assert forall|j: int| 0 <= j < i implies session_of(#[trigger] head[j]) is None
                    || session_of(head[j])->Some_0.session_id != info.session_id by {
                    assert(head[j] == vms[j]);
                }
                assert(before.contains(info));
                let k = choose|k: int| 0 <= k < before.len() && before[k] == info;
                assert(all[k] == info);
            } else {
                if lists_session(before, info.session_id) {
                    let k = choose|k: int|
                        0 <= k < before.len() && (#[trigger] before[k]).session_id
                            == info.session_id;
                    let m = choose|m: int|
                        0 <= m < head.len() && session_of(#[trigger] head[m]) == Some(before[k]);
                    assert(vms[m] == head[m]);
                    assert(false);
                }
                assert(all[before.len() as int] == info);
            }
        }
        assert forall|k: int| 0 <= k < all.len() implies exists|i: int|
            0 <= i < vms.len() && session_of(#[trigger] vms[i]) == Some(#[trigger] all[k]) by {
            if k < before.len() {
                assert(all[k] == before[k]);
                let i = choose|i: int|
                    0 <= i < head.len() && session_of(#[trigger] head[i]) == Some(before[k]);
                assert(vms[i] == head[i]);
            } else {
                assert(session_of(vms[vms.len() - 1]) == Some(all[k]));
            }
        }
    }
}

/// What is left of a list was in it.
proof fn lemma_filter_is_from(s: Seq<Seq<char>>, keep: spec_fn(Seq<char>) -> bool, k: int)
    requires
        0 <= k < s.filter(keep).len(),
    ensures
        s.contains(s.filter(keep)[k]),
    decreases s.len(),
{
    reveal(Seq::filter);
    if s.len() > 0 {
        let head = s.drop_last();
        if k < head.filter(keep).len() {
            lemma_filter_is_from(head, keep, k);
            let i = choose|i: int| 0 <= i < head.len() && head[i] == head.filter(keep)[k];
            assert(s[i] == s.filter(keep)[k]);
        } else {
            assert(s[s.len() - 1] == s.filter(keep)[k]);
        }
    }
}

/// A session is looked for where its route leads, first and once; on every other candidate only where
/// sessions may have moved, and on all candidates where no route is known.
pub proof fn law_session_is_looked_for_on_its_route(
    route: Seq<char>,
    candidates: Seq<Seq<char>>,
    x: Seq<char>,
    k: int,
)
    ensures
        lookup_list(None, true, candidates) == candidates,
        lookup_list(None, false, candidates) == candidates,
        lookup_list(Some(route), false, candidates) == seq![route],
        lookup_list(Some(route), true, candidates)[0] == route,
        candidates.contains(x) ==> lookup_list(Some(route), true, candidates).contains(x),
        1 <= k < lookup_list(Some(route), true, candidates).len() ==> {
            &&& lookup_list(Some(route), true, candidates)[k] != route
            &&& candidates.contains(lookup_list(Some(route), true, candidates)[k])
        },
{
    let others = candidates.filter(differs_from(route));
    let list = lookup_list(Some(route), true, candidates);
    if candidates.contains(x) {
        if x == route {
            assert(list[0] == x);
        } else {
            let i = choose|i: int| 0 <= i < candidates.len() && candidates[i] == x;
            candidates.lemma_filter_contains(differs_from(route), i);
            let at = choose|at: int| 0 <= at < others.len() && others[at] == x;
            assert(list[at + 1] == x);
        }
    }
    if 1 <= k < list.len() {
        assert(list[k] == others[k - 1]);
        candidates.lemma_filter_pred(differs_from(route), k - 1);
        lemma_filter_is_from(candidates, differs_from(route), k - 1);
    }
}

/// A time is told in milliseconds; what is less than one is left away, and a time that does not fit is
/// told as the last, or the first, that does.
pub proof fn law_time_is_told_in_milliseconds(t: WireTimestamp)
    ensures
        -9_000_000_000_000_000 <= t.seconds <= 9_000_000_000_000_000 && 0 <= t.nanos < 1_000_000_000
            ==> {
            &&& millis_of(Some(t)) * 1_000_000 <= t.seconds * 1_000_000_000 + t.nanos
            &&& t.seconds * 1_000_000_000 + t.nanos < (millis_of(Some(t)) + 1) * 1_000_000
        },
        t.seconds > 9_223_372_036_854_776 && t.nanos == 0 ==> millis_of(Some(t)) == i64::MAX,
        t.seconds < -9_223_372_036_854_776 && t.nanos == 0 ==> millis_of(Some(t)) == i64::MIN,
        t.seconds == 0 && -1_000_000_000 < t.nanos < 0 ==> -1000 < millis_of(Some(t)) <= 0,
        millis_of(None) == 0,
{
}

/// A volume is listed as what it is. One that backs it is named where there is one.
pub proof fn law_volume_is_listed_as_it_is(info: DurableVolumeInfo, v: WireVolume)
    requires
        is_listed_form(info, v),
    ensures
        info.owner_key@ == v.owner_key@ && info.volume_id@ == v.volume_id@ && info.size_gb
            == v.size_gb,
        info.created_at_ms == millis_of(v.created_at),
        info.updated_at_ms == millis_of(v.updated_at),
        info.backing_volume_id is None <==> v.backing_volume_id@.len() == 0,
        info.backing_volume_id matches Some(b) ==> b@ == v.backing_volume_id@,
        info.attached_vm_ids@.len() == v.attached_vm_ids@.len(),
        forall|i: int|
            0 <= i < v.attached_vm_ids@.len() ==> (#[trigger] info.attached_vm_ids@[i])@
                == v.attached_vm_ids@[i]@,
{
    let told = views(info.attached_vm_ids@);
    let sent = views(v.attached_vm_ids@);
    assert(told.len() == sent.len());
    assert forall|i: int| 0 <= i < v.attached_vm_ids@.len() implies (
    #[trigger] info.attached_vm_ids@[i])@ == v.attached_vm_ids@[i]@ by {
        assert(told[i] == info.attached_vm_ids@[i]@);
        assert(sent[i] == v.attached_vm_ids@[i]@);
    }
}

/// Of several volumes of one owner the first that was reported counts.
pub proof fn law_first_volume_of_owner_counts(volumes: Seq<WireVolume>, owner: Seq<char>)
    ensures
        match first_with_owner(volumes, owner) {
            Some(i) => {
                &&& 0 <= i < volumes.len()
                &&& volumes[i].owner_key@ == owner
                &&& forall|j: int| 0 <= j < i ==> (#[trigger] volumes[j]).owner_key@ != owner
            },
            None => forall|j: int|
                0 <= j < volumes.len() ==> (#[trigger] volumes[j]).owner_key@ != owner,
        },
    decreases volumes.len(),
{
    if volumes.len() > 0 {
        let head = volumes.drop_last();
        law_first_volume_of_owner_counts(head, owner);
        assert(forall|j: int| 0 <= j < head.len() ==> #[trigger] volumes[j] == head[j]);
    }
}

/// Volumes are listed by their owners, in rising order and each owner once, and no owner is left out.
pub proof fn law_volumes_are_listed_by_owner(
    list: Seq<DurableVolumeInfo>,
    volumes: Seq<WireVolume>,
    i: int,
    j: int,
)
    requires
        lists_first_volumes(list, volumes),
    ensures
        0 <= i < j < list.len() ==> text_lt(list[i].owner_key@, list[j].owner_key@),
        0 <= i < volumes.len() ==> exists|k: int|
            0 <= k < list.len() && (#[trigger] list[k]).owner_key@ == volumes[i].owner_key@,
        0 <= i < list.len() ==> exists|k: int|
            0 <= k < volumes.len() && is_listed_form(list[i], #[trigger] volumes[k]) && (forall|
                m: int,
            |
                0 <= m < k ==> (#[trigger] volumes[m]).owner_key@ != list[i].owner_key@),
{
    if 0 <= i < list.len() {
        let at = first_with_owner(volumes, list[i].owner_key@);
        law_first_volume_of_owner_counts(volumes, list[i].owner_key@);
        assert(is_listed_form(list[i], volumes[at->Some_0]));
    }
    if 0 <= i < volumes.len() {
        assert(volumes[i].owner_key@ == volumes[i].owner_key@);
    }
}

/// A desktop is shown in its own window, connected to on this machine, or forwarded from its guest,
/// as its kind says. A VNC console is reached with its password where it has one, and refused where
/// its node is another machine.
pub proof fn law_desktop_is_opened_by_its_kind(desktop: WireDesktop, endpoint: Seq<char>)
    ensures
        desktop.kind is NativeWindow ==> (desktop_opening(desktop, endpoint) matches Ok(
            DesktopPlanView::ShowWindow(target),
        ) && target.kind is NativeWindow && target.host is None && target.port is None
            && target.password is None && target.authentication is Unprotected
            && !target.view_only),
        desktop.kind is Unspecified ==> desktop_opening(desktop, endpoint) is Err,
        desktop.kind is GuestVnc && 1 <= desktop.port <= 65535 ==> desktop_opening(
            desktop,
            endpoint,
        ) == std::result::Result::<DesktopPlanView, ErrorView>::Ok(
            DesktopPlanView::Forward(desktop.port as u16),
        ),
        (desktop.kind is GuestVnc || desktop.kind is Vnc) && !(1 <= desktop.port <= 65535)
            ==> desktop_opening(desktop, endpoint) is Err,
        desktop.kind is Vnc && 1 <= desktop.port <= 65535 ==> match host_of_endpoint(endpoint) {
            Err(e) => desktop_opening(desktop, endpoint) == std::result::Result::<
                DesktopPlanView,
                ErrorView,
            >::Err(e),
            Ok(host) => if host == "127.0.0.1"@ || host == "::1"@ {
                desktop_opening(desktop, endpoint) matches Ok(DesktopPlanView::Connect(target)) && {
                    &&& target.kind is Vnc
                    &&& target.host == Some(host)
                    &&& target.port == Some(desktop.port as u16)
                    &&& target.view_only == desktop.view_only
                    &&& desktop.password@.len() == 0 ==> target.password is None
                        && target.authentication is Unprotected
                    &&& desktop.password@.len() > 0 ==> target.password == Some(desktop.password@)
                        && target.authentication is Password
                }
            } else {
                desktop_opening(desktop, endpoint) matches Err(ErrorView::Unsupported(_))
            },
        },
{
}

/// A PCI device is listed as what it is; a state that has no name is not known.
pub proof fn law_pci_device_is_listed_as_it_is(d: WirePciDevice)
    ensures
        pci_device(d).id == d.id && pci_device(d).label == d.label && pci_device(d).functions
            == d.functions,
        pci_device(d).assigned_vm_id == d.assigned_vm_id && pci_device(d).managed == d.managed,
        pci_device(d).hotplug_capable == d.hotplug_capable && pci_device(d).unavailable_reason
            == d.unavailable_reason,
        pci_device(d).state is Disabled <==> d.state == Some(WirePciState::Disabled),
        pci_device(d).state is Unavailable <==> d.state == Some(WirePciState::Unavailable),
        pci_device(d).state is Host <==> d.state == Some(WirePciState::Host),
        pci_device(d).state is Ready <==> d.state == Some(WirePciState::Ready),
        pci_device(d).state is Assigned <==> d.state == Some(WirePciState::Assigned),
        pci_device(d).state is Error <==> d.state == Some(WirePciState::Error),
        pci_device(d).state is Unknown <==> d.state is None || d.state == Some(
            WirePciState::Unspecified,
        ),
{
}

/// A session and a desktop are seen as what they are.
pub proof fn law_listings_are_seen_as_they_are(info: SessionInfo, target: SessionDesktopTarget)
    ensures
        info@.session_id == info.session_id@ && info@.vm_id == info.vm_id@ && info@.name
            == info.name@ && info@.state == info.state,
        info@.parent_session_id is Some <==> info.parent_session_id is Some,
        info.parent_session_id matches Some(p) ==> info@.parent_session_id == Some(p@),
        info@.fork_id is Some <==> info.fork_id is Some,
        info.fork_id matches Some(p) ==> info@.fork_id == Some(p@),
        target@.kind == target.kind && target@.port == target.port && target@.authentication
            == target.authentication && target@.view_only == target.view_only,
        target@.host is Some <==> target.host is Some,
        target.host matches Some(h) ==> target@.host == Some(h@),
        target@.password is Some <==> target.password is Some,
        target.password matches Some(p) ==> target@.password == Some(p@),
{
}

/// What failed of a volume is told by its name, and a listing that took too long as such.
pub proof fn law_volume_operations_are_named()
    ensures
        volume_operation_name(VolumeOperation::Inventory) == "inventory"@,
        volume_operation_name(VolumeOperation::Deletion) == "deletion"@,
        volume_operation_name(VolumeOperation::Resize) == "resize"@,
        volume_list_timeout() matches ErrorView::Grpc(s) && s.code == GrpcCode::DeadlineExceeded
            && s.message == "durable volume inventory timed out"@ && s.source is None,
{
}

/// A plan for a desktop is seen as what it is.
pub proof fn law_plan_is_seen_as_it_is(target: SessionDesktopTarget, port: u16)
    ensures
        plan_view(DesktopPlan::ShowWindow(target)) == DesktopPlanView::ShowWindow(target@),
        plan_view(DesktopPlan::Connect(target)) == DesktopPlanView::Connect(target@),
        plan_view(DesktopPlan::Forward(port)) == DesktopPlanView::Forward(port),
{
}

/// Sessions are listed in order, each as what it is. A time has milliseconds where they fit.
pub proof fn law_sessions_are_seen_in_order(list: Seq<SessionInfo>, i: int, t: Option<WireTimestamp>)
    ensures
        info_views(list).len() == list.len(),
        0 <= i < list.len() ==> info_views(list)[i] == list[i]@,
        has_millis(t) <==> i64::MIN <= millis_of(t) && millis_of(t) <= i64::MAX,
{
}

/// A desktop that cannot be opened is told why.
pub proof fn law_refused_desktop_tells_why(port: i64, guest: bool, d: WireDesktop, endpoint: Seq<char>)
    ensures
        port == 0 && guest ==> reported_port(port, guest) == std::result::Result::<
            u16,
            ErrorView,
        >::Err(ErrorView::InvalidResponse("VM reported zero "@ + "guest desktop port"@)),
        port == 0 && !guest ==> reported_port(port, guest) == std::result::Result::<
            u16,
            ErrorView,
        >::Err(ErrorView::InvalidResponse("VM reported zero "@ + "desktop port"@)),
        (port < 0 || port > 65535) && guest ==> reported_port(port, guest) == std::result::Result::<
            u16,
            ErrorView,
        >::Err(
            ErrorView::InvalidResponse(
                "VM reported invalid "@ + "guest desktop port"@ + ": "@ + signed_decimal(
                    port as int,
                ),
            ),
        ),
        (port < 0 || port > 65535) && !guest ==> reported_port(port, guest)
            == std::result::Result::<u16, ErrorView>::Err(
            ErrorView::InvalidResponse(
                "VM reported invalid "@ + "desktop port"@ + ": "@ + signed_decimal(port as int),
            ),
        ),
        1 <= port <= 65535 ==> reported_port(port, guest) == std::result::Result::<
            u16,
            ErrorView,
        >::Ok(port as u16),
        d.kind is Unspecified ==> desktop_opening(d, endpoint) == std::result::Result::<
            DesktopPlanView,
            ErrorView,
        >::Err(ErrorView::InvalidResponse("VM reported an unspecified desktop kind"@)),
        d.kind is Vnc && 1 <= d.port <= 65535 && host_of_endpoint(endpoint) is Ok && host_of_endpoint(
            endpoint,
        )->Ok_0 != "127.0.0.1"@ && host_of_endpoint(endpoint)->Ok_0 != "::1"@ ==> desktop_opening(
            d,
            endpoint,
        ) == std::result::Result::<DesktopPlanView, ErrorView>::Err(
            ErrorView::Unsupported(
                "remote-node QEMU desktop relay is not implemented; the VNC console remains node-loopback-only"@,
            ),
        ),
{
}

} // verus!
