//! Where a session's VM is: the search for another endpoint when the current one fails, and the
//! restoring of its execution state there.

use crate::error::rebind_candidate;
use crate::error::ErrorView;
use crate::error::Result;
use crate::error::SandboxError;
use crate::readiness::path_key;
use crate::readiness::ReadyPaths;
use crate::text::same;
use crate::text::trimmed;
use crate::text::views;
use crate::vm::execution_restore_snapshot_id;
use crate::vm::opt_view;
use crate::vm::restore_snapshot_id;
use crate::vm::tier_b_eligible;
use crate::vm::vm_tier_b_eligible;
use crate::vm::Vm;
use crate::vm::VmSnapshot;
use vstd::prelude::*;

verus! {

/// What a move of a session to another endpoint has to restore.
#[derive(Clone, Copy, Debug, PartialEq, Eq, Structural)]
pub enum RebindRestorePolicy {
    RequireTierBRestoreMarker,
    AllowLiveReclaimWithoutRestoreMarker,
}

impl RebindRestorePolicy {
    /// Whether a VM that may move between nodes must name the snapshot to restore from.
    pub fn enforce_tier_b_restore_marker(self) -> (yes: bool)
        ensures
            yes == (self is RequireTierBRestoreMarker),
    {
        match self {
            RebindRestorePolicy::RequireTierBRestoreMarker => true,
            RebindRestorePolicy::AllowLiveReclaimWithoutRestoreMarker => false,
        }
    }

    /// Whether the VM must run and its guest answer before the session moves.
    pub fn preflight_candidate_runtime(self) -> (yes: bool)
        ensures
            yes == (self is RequireTierBRestoreMarker),
    {
        match self {
            RebindRestorePolicy::RequireTierBRestoreMarker => true,
            RebindRestorePolicy::AllowLiveReclaimWithoutRestoreMarker => false,
        }
    }
}

// ---------------------------------------------------------------------------
// Restoring
// ---------------------------------------------------------------------------
/// What is read of a VM to decide what to restore.
pub struct RestoreView {
    pub metadata: Map<Seq<char>, Seq<char>>,
    pub snapshots: Seq<VmSnapshot>,
}

/// What is read of a VM to decide what to restore.
pub open spec fn restore_view(vm: Vm) -> RestoreView {
    RestoreView { metadata: vm.metadata@, snapshots: vm.snapshots@ }
}

/// The snapshot to restore a VM from; none where the VM names none, which is an error for one
/// that must.
pub open spec fn restore_plan(
    session_id: Seq<char>,
    vm: RestoreView,
    enforce_tier_b: bool,
) -> std::result::Result<Option<Seq<char>>, ErrorView> {
    match restore_snapshot_id(vm.metadata, vm.snapshots) {
        Some(id) => Ok(Some(id)),
        None => if enforce_tier_b && tier_b_eligible(vm.metadata) {
            Err(
                ErrorView::InvalidResponse(
                    "tier_b_eligible session `"@ + session_id
                        + "` requires execution restore snapshot marker"@,
                ),
            )
        } else {
            Ok(None)
        },
    }
}

/// The snapshot to restore a VM from.
pub fn restore_execution_state_if_needed(session_id: &str, vm: &Vm, enforce_tier_b: bool) -> (r:
    Result<Option<String>>)
    ensures
        crate::auth::opt_outcome(r) == restore_plan(session_id@, restore_view(*vm), enforce_tier_b),
{
    match execution_restore_snapshot_id(vm) {
        Some(id) => Ok(Some(id)),
        None => {
            if enforce_tier_b && vm_tier_b_eligible(vm) {
                return Err(
                    SandboxError::InvalidResponse(
                        "tier_b_eligible session `".to_owned().concat(session_id).concat(
                            "` requires execution restore snapshot marker",
                        ),
                    ),
                );
            }
            Ok(None)
        },
    }
}

// ---------------------------------------------------------------------------
// The search for another endpoint
// ---------------------------------------------------------------------------
/// What is being done with the candidate at hand.
#[derive(Clone, Copy, Debug, PartialEq, Eq, Structural)]
pub enum RebindPhase {
    /// The VM is being looked up there.
    LookingUp,
    /// Its execution state is being restored.
    Restoring,
    /// It is being brought to run.
    Starting,
    /// Its guest is being probed.
    Probing,
    /// The session is being bound there.
    Binding,
    /// The search is over.
    Over,
}

/// What became of the last action.
#[derive(Debug)]
pub enum RebindEvent {
    VmMissing,
    VmFound(Vm),
    Restored,
    RestoreFailed(SandboxError),
    Running,
    NotRunning,
    GuestReady,
    GuestSilent,
}

/// The model of a `RebindEvent`.
pub enum RebindEventView {
    VmMissing,
    VmFound(RestoreView),
    Restored,
    RestoreFailed(ErrorView),
    Running,
    NotRunning,
    GuestReady,
    GuestSilent,
}

impl View for RebindEvent {
    type V = RebindEventView;

    open spec fn view(&self) -> RebindEventView {
        match self {
            RebindEvent::VmMissing => RebindEventView::VmMissing,
            RebindEvent::VmFound(vm) => RebindEventView::VmFound(restore_view(*vm)),
            RebindEvent::Restored => RebindEventView::Restored,
            RebindEvent::RestoreFailed(e) => RebindEventView::RestoreFailed(e@),
            RebindEvent::Running => RebindEventView::Running,
            RebindEvent::NotRunning => RebindEventView::NotRunning,
            RebindEvent::GuestReady => RebindEventView::GuestReady,
            RebindEvent::GuestSilent => RebindEventView::GuestSilent,
        }
    }
}

/// What to do next.
#[derive(Debug)]
pub enum RebindAction {
    /// Look the VM up on an endpoint.
    LookUp(String),
    /// Restore it there from a snapshot.
    Restore { endpoint: String, snapshot_id: String },
    /// Bring it to run there.
    EnsureRunning(String),
    /// Probe its guest there.
    ProbeGuest(String),
    /// Bind the session to the endpoint.
    Bind(String),
    /// There is no endpoint to move to.
    GiveUp,
    /// The move is forbidden.
    Fail(SandboxError),
}

/// The model of a `RebindAction`.
pub enum RebindActionView {
    LookUp(Seq<char>),
    Restore(Seq<char>, Seq<char>),
    EnsureRunning(Seq<char>),
    ProbeGuest(Seq<char>),
    Bind(Seq<char>),
    GiveUp,
    Fail(ErrorView),
}

impl View for RebindAction {
    type V = RebindActionView;

    open spec fn view(&self) -> RebindActionView {
        match self {
            RebindAction::LookUp(e) => RebindActionView::LookUp(e@),
            RebindAction::Restore { endpoint, snapshot_id } => RebindActionView::Restore(
                endpoint@,
                snapshot_id@,
            ),
            RebindAction::EnsureRunning(e) => RebindActionView::EnsureRunning(e@),
            RebindAction::ProbeGuest(e) => RebindActionView::ProbeGuest(e@),
            RebindAction::Bind(e) => RebindActionView::Bind(e@),
            RebindAction::GiveUp => RebindActionView::GiveUp,
            RebindAction::Fail(e) => RebindActionView::Fail(e@),
        }
    }
}

/// A search through the candidates for an endpoint to move a session to.
#[derive(Debug)]
pub struct RebindSearch {
    session_id: String,
    from_endpoint: String,
    policy: RebindRestorePolicy,
    candidates: Vec<String>,
    at: usize,
    phase: RebindPhase,
}

/// The model of a `RebindSearch`. While the search goes on, `at` is the candidate at hand.
pub struct SearchView {
    pub session_id: Seq<char>,
    pub from_endpoint: Seq<char>,
    pub policy: RebindRestorePolicy,
    pub candidates: Seq<Seq<char>>,
    pub at: nat,
    pub phase: RebindPhase,
}

impl View for RebindSearch {
    type V = SearchView;

    closed spec fn view(&self) -> SearchView {
        SearchView {
            session_id: self.session_id@,
            from_endpoint: self.from_endpoint@,
            policy: self.policy,
            candidates: views(self.candidates@),
            at: self.at as nat,
            phase: self.phase,
        }
    }
}

/// While the search goes on there is a candidate at hand, and it is not the endpoint that is left.
pub open spec fn search_wf(s: SearchView) -> bool {
    s.phase is Over || (s.at < s.candidates.len() && s.candidates[s.at as int] != s.from_endpoint)
}

/// The first candidate from `at` on that is not the endpoint that is left.
pub open spec fn next_candidate(
    candidates: Seq<Seq<char>>,
    from_endpoint: Seq<char>,
    at: nat,
) -> Option<nat>
    decreases candidates.len() - at,
{
    if at >= candidates.len() {
        None
    } else if candidates[at as int] != from_endpoint {
        Some(at)
    } else {
        next_candidate(candidates, from_endpoint, at + 1)
    }
}

/// The search with the first candidate from `at` on at hand.
pub open spec fn look_at(s: SearchView, at: nat) -> (SearchView, RebindActionView) {
    match next_candidate(s.candidates, s.from_endpoint, at) {
        Some(i) => (
            SearchView { at: i, phase: RebindPhase::LookingUp, ..s },
            RebindActionView::LookUp(s.candidates[i as int]),
        ),
        None => (SearchView { phase: RebindPhase::Over, ..s }, RebindActionView::GiveUp),
    }
}

/// What follows once nothing is left to restore.
pub open spec fn after_restoring(s: SearchView) -> (SearchView, RebindActionView) {
    if s.policy is RequireTierBRestoreMarker {
        (
            SearchView { phase: RebindPhase::Starting, ..s },
            RebindActionView::EnsureRunning(s.candidates[s.at as int]),
        )
    } else {
        (
            SearchView { phase: RebindPhase::Binding, ..s },
            RebindActionView::Bind(s.candidates[s.at as int]),
        )
    }
}

/// The event answers the action that is under way.
pub open spec fn expected_event(phase: RebindPhase, event: RebindEventView) -> bool {
    match phase {
        RebindPhase::LookingUp => event is VmMissing || event is VmFound,
        RebindPhase::Restoring => event is Restored || event is RestoreFailed,
        RebindPhase::Starting => event is Running || event is NotRunning,
        RebindPhase::Probing => event is GuestReady || event is GuestSilent,
        RebindPhase::Binding => false,
        RebindPhase::Over => false,
    }
}

/// The search after an event, and what to do next.
pub open spec fn search_step(s: SearchView, event: RebindEventView) -> (
    SearchView,
    RebindActionView,
) {
    match event {
        RebindEventView::VmMissing => look_at(s, s.at + 1),
        RebindEventView::VmFound(vm) => match restore_plan(
            s.session_id,
            vm,
            s.policy is RequireTierBRestoreMarker,
        ) {
            Err(e) => (SearchView { phase: RebindPhase::Over, ..s }, RebindActionView::Fail(e)),
            Ok(None) => after_restoring(s),
            Ok(Some(snapshot)) => (
                SearchView { phase: RebindPhase::Restoring, ..s },
                RebindActionView::Restore(s.candidates[s.at as int], snapshot),
            ),
        },
        RebindEventView::Restored => after_restoring(s),
        RebindEventView::RestoreFailed(e) => if e is InvalidResponse {
            (SearchView { phase: RebindPhase::Over, ..s }, RebindActionView::Fail(e))
        } else {
            look_at(s, s.at + 1)
        },
        RebindEventView::Running => (
            SearchView { phase: RebindPhase::Probing, ..s },
            RebindActionView::ProbeGuest(s.candidates[s.at as int]),
        ),
        RebindEventView::NotRunning => look_at(s, s.at + 1),
        RebindEventView::GuestReady => (
            SearchView { phase: RebindPhase::Binding, ..s },
            RebindActionView::Bind(s.candidates[s.at as int]),
        ),
        RebindEventView::GuestSilent => look_at(s, s.at + 1),
    }
}

proof fn lemma_next_candidate(candidates: Seq<Seq<char>>, from_endpoint: Seq<char>, at: nat)
    ensures
        match next_candidate(candidates, from_endpoint, at) {
            Some(i) => at <= i < candidates.len() && candidates[i as int] != from_endpoint
                && forall|j: int| at <= j < i ==> #[trigger] candidates[j] == from_endpoint,
            None => forall|j: int|
                at <= j < candidates.len() ==> #[trigger] candidates[j] == from_endpoint,
        },
    decreases candidates.len() - at,
{
    if at < candidates.len() && candidates[at as int] == from_endpoint {
        lemma_next_candidate(candidates, from_endpoint, at + 1);
    }
}

impl RebindSearch {
    /// Starts a search, and says what to do first.
    pub fn start(
        session_id: &str,
        from_endpoint: &str,
        policy: RebindRestorePolicy,
        candidates: Vec<String>,
    ) -> (r: (RebindSearch, RebindAction))
        ensures
            search_wf(r.0@),
            (r.0@, r.1@) == look_at(
                SearchView {
                    session_id: session_id@,
                    from_endpoint: from_endpoint@,
                    policy,
                    candidates: views(candidates@),
                    at: 0,
                    phase: RebindPhase::Over,
                },
                0,
            ),
    {
        let mut search = RebindSearch {
            session_id: session_id.to_owned(),
            from_endpoint: from_endpoint.to_owned(),
            policy,
            candidates,
            at: 0,
            phase: RebindPhase::Over,
        };
        let action = search.look_from(0);
        (search, action)
    }

    fn look_from(&mut self, from: usize) -> (action: RebindAction)
        ensures
            search_wf(final(self)@),
            (final(self)@, action@) == look_at(old(self)@, from as nat),
    {
        let ghost before = self@;
        let mut i: usize = from;
        while i < self.candidates.len()
            invariant
                from <= i,
                self@ == before,
                before == old(self)@,
                next_candidate(before.candidates, before.from_endpoint, from as nat)
                    == next_candidate(before.candidates, before.from_endpoint, i as nat),
            decreases self.candidates@.len() - i,
        {
            assert(before.candidates[i as int] == self.candidates@[i as int]@);
            if !same(&self.candidates[i], &self.from_endpoint) {
                self.at = i;
                self.phase = RebindPhase::LookingUp;
                return RebindAction::LookUp(self.candidates[i].clone());
            }
            i += 1;
        }
        self.phase = RebindPhase::Over;
        RebindAction::GiveUp
    }

    fn restored(&mut self) -> (action: RebindAction)
        requires
            search_wf(old(self)@),
            !(old(self)@.phase is Over),
        ensures
            search_wf(final(self)@),
            (final(self)@, action@) == after_restoring(old(self)@),
    {
        assert(self@.candidates[self.at as int] == self.candidates@[self.at as int]@);
        let candidate = self.candidates[self.at].clone();
        if self.policy.preflight_candidate_runtime() {
            self.phase = RebindPhase::Starting;
            RebindAction::EnsureRunning(candidate)
        } else {
            self.phase = RebindPhase::Binding;
            RebindAction::Bind(candidate)
        }
    }

    /// Takes what became of the last action, and says what to do next.
    pub fn step(&mut self, event: RebindEvent) -> (action: RebindAction)
        requires
            search_wf(old(self)@),
            expected_event(old(self)@.phase, event@),
        ensures
            search_wf(final(self)@),
            (final(self)@, action@) == search_step(old(self)@, event@),
    {
        assert(self@.candidates[self.at as int] == self.candidates@[self.at as int]@);
        assert(self.at < self.candidates.len());
        match event {
            RebindEvent::VmMissing => self.look_from(self.at + 1),
            RebindEvent::VmFound(vm) => {
                let enforce = self.policy.enforce_tier_b_restore_marker();
                match restore_execution_state_if_needed(&self.session_id, &vm, enforce) {
                    Err(error) => {
                        self.phase = RebindPhase::Over;
                        RebindAction::Fail(error)
                    },
                    Ok(None) => self.restored(),
                    Ok(Some(snapshot_id)) => {
                        self.phase = RebindPhase::Restoring;
                        RebindAction::Restore {
                            endpoint: self.candidates[self.at].clone(),
                            snapshot_id,
                        }
                    },
                }
            },
            RebindEvent::Restored => self.restored(),
            RebindEvent::RestoreFailed(error) => match error {
                SandboxError::InvalidResponse(_) => {
                    self.phase = RebindPhase::Over;
                    RebindAction::Fail(error)
                },
                _ => self.look_from(self.at + 1),
            },
            RebindEvent::Running => {
                self.phase = RebindPhase::Probing;
                RebindAction::ProbeGuest(self.candidates[self.at].clone())
            },
            RebindEvent::NotRunning => self.look_from(self.at + 1),
            RebindEvent::GuestReady => {
                self.phase = RebindPhase::Binding;
                RebindAction::Bind(self.candidates[self.at].clone())
            },
            RebindEvent::GuestSilent => self.look_from(self.at + 1),
        }
    }

    /// Ends a search that called for the session to be bound to the candidate at hand. A session that
    /// was bound there, with a fence, has moved: what is known of the path to the guest of its VM over
    /// the endpoint that it left is forgotten. One that could not be bound stays, and so does what is
    /// known.
    pub fn bound(&mut self, vm_id: &str, outcome: Result<Option<String>>, paths: &mut ReadyPaths) -> (r:
        Result<Bound>)
        requires
            search_wf(old(self)@),
            old(self)@.phase is Binding,
        ensures
            final(self)@ == (SearchView { phase: RebindPhase::Over, ..old(self)@ }),
            match outcome {
                Ok(fence) => {
                    &&& r is Ok
                    &&& r->Ok_0.endpoint@ == old(self)@.candidates[old(self)@.at as int]
                    &&& r->Ok_0.fence == fence
                    &&& final(paths).ready() == old(paths).ready().remove(
                        path_key(old(self)@.from_endpoint, vm_id@),
                    )
                    &&& final(paths).channels() == old(paths).channels().remove(
                        path_key(old(self)@.from_endpoint, vm_id@),
                    )
                },
                Err(e) => {
                    &&& r == Result::<Bound>::Err(e)
                    &&& final(paths).ready() == old(paths).ready()
                    &&& final(paths).channels() == old(paths).channels()
                },
            },
    {
        self.phase = RebindPhase::Over;
        match outcome {
            Ok(fence) => {
                assert(self@.candidates[self.at as int] == self.candidates@[self.at as int]@);
                paths.invalidate_ready_vm_rpc(vm_id, &self.from_endpoint);
                Ok(Bound { endpoint: self.candidates[self.at].clone(), fence })
            },
            Err(e) => Err(e),
        }
    }
}

/// A search never moves a session to the endpoint that it leaves, nor to one that was no
/// candidate.
pub proof fn law_search_binds_to_another_candidate(s: SearchView, event: RebindEventView)
    requires
        search_wf(s),
        expected_event(s.phase, event),
        search_step(s, event).1 is Bind,
    ensures
        search_step(s, event).1->Bind_0 != s.from_endpoint,
        s.candidates.contains(search_step(s, event).1->Bind_0),
{
    assert(s.candidates[s.at as int] == search_step(s, event).1->Bind_0);
}

/// The candidate at hand has no VM of the session that can be brought to run.
pub open spec fn rules_candidate_out(event: RebindEventView) -> bool {
    ||| event is VmMissing
    ||| event is NotRunning
    ||| event is GuestSilent
    ||| event matches RebindEventView::RestoreFailed(e) && !(e is InvalidResponse)
}

/// A search takes the candidates in their order. It leaves one only where that one is ruled out, then
/// skips nothing but the endpoint that it comes from, and gives up only where no other is left. So it
/// binds to the first candidate that is not ruled out.
pub proof fn law_search_skips_no_candidate(s: SearchView, event: RebindEventView)
    requires
        search_wf(s),
        expected_event(s.phase, event),
    ensures
        ({
            let (next, action) = search_step(s, event);
            &&& next.candidates == s.candidates && next.from_endpoint == s.from_endpoint
            &&& !rules_candidate_out(event) ==> next.at == s.at && !(action is GiveUp)
            &&& rules_candidate_out(event) && !(action is GiveUp) ==> next.at > s.at
            &&& forall|j: int|
                s.at < j < next.at ==> #[trigger] s.candidates[j] == s.from_endpoint
            &&& action is GiveUp ==> forall|j: int|
                s.at < j < s.candidates.len() ==> #[trigger] s.candidates[j] == s.from_endpoint
            &&& action is Bind ==> action->Bind_0 == s.candidates[s.at as int] && next.phase is Binding
        }),
{
    lemma_next_candidate(s.candidates, s.from_endpoint, s.at + 1);
}

/// Under the strict policy a session moves only once the guest at the new place has answered.
pub proof fn law_strict_search_binds_after_probe(s: SearchView, event: RebindEventView)
    requires
        search_wf(s),
        expected_event(s.phase, event),
        s.policy is RequireTierBRestoreMarker,
        search_step(s, event).1 is Bind,
    ensures
        event is GuestReady,
        s.phase is Probing,
{
}

/// Under the strict policy a VM that may move between nodes, but does not name the snapshot to
/// restore from, stops the search with an error.
pub proof fn law_strict_search_needs_marker(s: SearchView, vm: RestoreView)
    requires
        search_wf(s),
        s.phase is LookingUp,
        s.policy is RequireTierBRestoreMarker,
        tier_b_eligible(vm.metadata),
        restore_snapshot_id(vm.metadata, vm.snapshots) is None,
    ensures
        search_step(s, RebindEventView::VmFound(vm)).1 is Fail,
        search_step(s, RebindEventView::VmFound(vm)).0.phase is Over,
{
}

/// How much of a search is left: each step makes it smaller.
pub open spec fn search_left(s: SearchView) -> int {
    match s.phase {
        RebindPhase::Over => 0,
        RebindPhase::LookingUp => (s.candidates.len() - s.at) * 4,
        RebindPhase::Restoring => (s.candidates.len() - s.at) * 4 - 1,
        RebindPhase::Starting => (s.candidates.len() - s.at) * 4 - 2,
        RebindPhase::Probing => (s.candidates.len() - s.at) * 4 - 3,
        RebindPhase::Binding => (s.candidates.len() - s.at) * 4 - 4,
    }
}

/// Every search comes to an end.
pub proof fn law_search_ends(s: SearchView, event: RebindEventView)
    requires
        search_wf(s),
        expected_event(s.phase, event),
    ensures
        0 <= search_left(search_step(s, event).0) < search_left(s),
{
    lemma_next_candidate(s.candidates, s.from_endpoint, s.at + 1);
}

// ---------------------------------------------------------------------------
// Resolving
// ---------------------------------------------------------------------------
/// An endpoint that a session is bound to, and the fence that came with the binding.
#[derive(Debug)]
pub struct Bound {
    pub endpoint: String,
    pub fence: Option<String>,
}

/// The endpoint of a session whose VM could not be brought to run where it was: the one that the
/// search found, else the first error.
pub fn resolve_after_search(initial: SandboxError, found: Result<Option<Bound>>) -> (r: Result<
    Bound,
>)
    ensures
        match found {
            Err(e) => r == Result::<Bound>::Err(e),
            Ok(Some(bound)) => r == Result::<Bound>::Ok(bound),
            Ok(None) => r == Result::<Bound>::Err(initial),
        },
{
    match found {
        Err(e) => Err(e),
        Ok(Some(bound)) => Ok(bound),
        Ok(None) => Err(initial),
    }
}

/// The fence to expect: the newer one where there is one.
pub fn newer_fence(newer: Option<String>, older: Option<String>) -> (fence: Option<String>)
    ensures
        fence == (if newer is Some {
            newer
        } else {
            older
        }),
{
    match newer {
        Some(f) => Some(f),
        None => older,
    }
}

/// Whether a failure to reach the guest makes the session look for another endpoint.
pub fn access_failure_moves_session(error: &SandboxError) -> (moves: bool)
    ensures
        moves == rebind_candidate(error@),
{
    crate::error::is_rebind_candidate_error(error)
}

/// The route of a session: where it is, and the fence under which it is owned there.
#[derive(Debug)]
pub struct RouteState {
    pub endpoint: String,
    pub fence: Option<String>,
}

impl RouteState {
    /// Takes over a resolved endpoint, and a new fence where one came with it.
    pub fn update(&mut self, resolved_endpoint: &str, next_fence: Option<String>)
        ensures
            final(self).endpoint@ == resolved_endpoint@,
            opt_view(final(self).fence) == (if next_fence is Some {
                opt_view(next_fence)
            } else {
                opt_view(old(self).fence)
            }),
    {
        if !same(&self.endpoint, resolved_endpoint) {
            self.endpoint = resolved_endpoint.to_owned();
        }
        match next_fence {
            Some(fence) => {
                self.fence = Some(fence);
            },
            None => {},
        }
    }
}

// ---------------------------------------------------------------------------
// What a move brings along
// ---------------------------------------------------------------------------
/// A VM that names a snapshot is restored from it, on the candidate at hand and before anything else
/// is done there, under either policy.
pub proof fn law_named_snapshot_is_restored_first(s: SearchView, vm: RestoreView)
    requires
        search_wf(s),
        s.phase is LookingUp,
    ensures
        restore_snapshot_id(vm.metadata, vm.snapshots) matches Some(id) ==> search_step(
            s,
            RebindEventView::VmFound(vm),
        ).1 == RebindActionView::Restore(s.candidates[s.at as int], id),
        vm.metadata.contains_key("chevalier.execution_restore_snapshot_id"@) && trimmed(
            vm.metadata["chevalier.execution_restore_snapshot_id"@],
        ).len() > 0 ==> search_step(s, RebindEventView::VmFound(vm)).1 == RebindActionView::Restore(
            s.candidates[s.at as int],
            trimmed(vm.metadata["chevalier.execution_restore_snapshot_id"@]),
        ),
{
    if vm.metadata.contains_key("chevalier.execution_restore_snapshot_id"@) && trimmed(
        vm.metadata["chevalier.execution_restore_snapshot_id"@],
    ).len() > 0 {
        crate::vm::law_snapshot_named_by_id_is_restored(vm.metadata, vm.snapshots);
    }
}

/// Every action of a search concerns the candidate that the search has at hand after it.
pub proof fn law_actions_concern_candidate_at_hand(s: SearchView, event: RebindEventView)
    requires
        search_wf(s),
        expected_event(s.phase, event),
    ensures
        ({
            let (next, action) = search_step(s, event);
            let candidate = next.candidates[next.at as int];
            match action {
                RebindActionView::LookUp(e) => e == candidate && next.phase is LookingUp,
                RebindActionView::Restore(e, _) => e == candidate && next.phase is Restoring,
                RebindActionView::EnsureRunning(e) => e == candidate && next.phase is Starting,
                RebindActionView::ProbeGuest(e) => e == candidate && next.phase is Probing,
                RebindActionView::Bind(e) => e == candidate && next.phase is Binding,
                RebindActionView::GiveUp => next.phase is Over,
                RebindActionView::Fail(_) => next.phase is Over,
            }
        }),
{
}

/// Under the strict policy a restored VM, or one with nothing to restore, is brought to run, then its
/// guest is probed, and only then the session is bound. Under the other policy it is bound at once.
pub proof fn law_strict_search_starts_and_probes(s: SearchView, vm: RestoreView)
    requires
        search_wf(s),
    ensures
        s.policy is RequireTierBRestoreMarker ==> {
            &&& search_step(s, RebindEventView::Restored).1 is EnsureRunning
            &&& search_step(s, RebindEventView::Running).1 is ProbeGuest
            &&& search_step(s, RebindEventView::GuestReady).1 is Bind
            &&& restore_snapshot_id(vm.metadata, vm.snapshots) is None && !tier_b_eligible(
                vm.metadata,
            ) ==> search_step(s, RebindEventView::VmFound(vm)).1 is EnsureRunning
        },
        s.policy is AllowLiveReclaimWithoutRestoreMarker ==> {
            &&& search_step(s, RebindEventView::Restored).1 is Bind
            &&& restore_snapshot_id(vm.metadata, vm.snapshots) is None ==> search_step(
                s,
                RebindEventView::VmFound(vm),
            ).1 is Bind
        },
{
}

/// A restore that the node answers with nonsense ends the search with that error; any other failure
/// of a restore rules the candidate out and no more.
pub proof fn law_restore_failure_is_told(s: SearchView, error: ErrorView)
    requires
        search_wf(s),
        s.phase is Restoring,
    ensures
        error is InvalidResponse ==> search_step(s, RebindEventView::RestoreFailed(error)).1
            == RebindActionView::Fail(error),
        !(error is InvalidResponse) ==> !(search_step(s, RebindEventView::RestoreFailed(error)).1
            is Fail),
{
}

/// The search after events.
pub open spec fn search_after(s: SearchView, events: Seq<RebindEventView>) -> SearchView
    decreases events.len(),
{
    if events.len() == 0 {
        s
    } else {
        search_step(search_after(s, events.drop_last()), events.last()).0
    }
}

/// Each of the events answers the action that is under way.
pub open spec fn answers_actions(s: SearchView, events: Seq<RebindEventView>) -> bool
    decreases events.len(),
{
    events.len() > 0 ==> answers_actions(s, events.drop_last()) && expected_event(
        search_after(s, events.drop_last()).phase,
        events.last(),
    )
}

/// The last VM that was found was found by the event at `k`, on the candidate that the search still has
/// at hand.
pub open spec fn found_last(s: SearchView, events: Seq<RebindEventView>, k: int) -> bool {
    &&& 0 <= k < events.len()
    &&& events[k] is VmFound
    &&& forall|j: int| k < j < events.len() ==> !((#[trigger] events[j]) is VmFound)
    &&& search_after(s, events.take(k)).at == search_after(s, events).at
}

/// The VM that was found by the event at `k` was restored after it, where it names a snapshot.
pub open spec fn restored_since(events: Seq<RebindEventView>, k: int) -> bool {
    let vm = events[k]->VmFound_0;
    restore_snapshot_id(vm.metadata, vm.snapshots) is Some ==> exists|m: int|
        k < m < events.len() && (#[trigger] events[m]) is Restored
}

proof fn lemma_run_restores(s: SearchView, events: Seq<RebindEventView>)
    requires
        search_wf(s),
        s.phase is LookingUp,
        answers_actions(s, events),
    ensures
        search_wf(search_after(s, events)),
        ({
            let phase = search_after(s, events).phase;
            &&& phase is Restoring ==> exists|k: int| #[trigger] found_last(s, events, k)
            &&& phase is Starting || phase is Probing || phase is Binding ==> exists|k: int| #[trigger]
                found_last(s, events, k) && restored_since(events, k)
        }),
    decreases events.len(),
{
    if events.len() > 0 {
        let before = events.drop_last();
        let event = events.last();
        lemma_run_restores(s, before);
        let t = search_after(s, before);
        let next = search_after(s, events);
        lemma_next_candidate(t.candidates, t.from_endpoint, t.at + 1);
        let last = events.len() - 1;
        assert(events.take(last) =~= before);
        if event is VmFound {
            if next.phase is Restoring || next.phase is Starting || next.phase is Binding {
                assert(found_last(s, events, last));
                if !(next.phase is Restoring) {
                    assert(restored_since(events, last));
                }
            }
        } else if next.phase is Restoring || next.phase is Starting || next.phase is Probing
            || next.phase is Binding {
            if t.phase is Restoring {
                let k = choose|k: int| #[trigger] found_last(s, before, k);
                assert(before[k] == events[k]);
                assert(events.take(k) =~= before.take(k));
                assert forall|j: int| k < j < events.len() implies !((
                #[trigger] events[j]) is VmFound) by {
                    if j < last {
                        assert(before[j] == events[j]);
                    }
                }
                assert(found_last(s, events, k));
                assert(events[last] is Restored);
                assert(restored_since(events, k));
            } else {
                let k = choose|k: int| #[trigger]
                    found_last(s, before, k) && restored_since(before, k);
                assert(before[k] == events[k]);
                assert(events.take(k) =~= before.take(k));
                assert forall|j: int| k < j < events.len() implies !((
                #[trigger] events[j]) is VmFound) by {
                    if j < last {
                        assert(before[j] == events[j]);
                    }
                }
                assert(found_last(s, events, k));
                let vm = events[k]->VmFound_0;
                if restore_snapshot_id(vm.metadata, vm.snapshots) is Some {
                    let m = choose|m: int|
                        k < m < before.len() && (#[trigger] before[m]) is Restored;
                    assert(events[m] == before[m]);
                }
                assert(restored_since(events, k));
            }
        }
    }
}

/// A session is bound only where its VM was found, and a VM that names a snapshot was restored there
/// before: the event that found it, on the candidate to which the session is bound, is followed by
/// one that says so.
pub proof fn law_bound_session_was_restored(s: SearchView, events: Seq<RebindEventView>)
    requires
        search_wf(s),
        s.phase is LookingUp,
        events.len() > 0,
        answers_actions(s, events),
        search_step(search_after(s, events.drop_last()), events.last()).1 is Bind,
    ensures
        exists|k: int| #[trigger] found_last(s, events, k) && restored_since(events, k),
{
    lemma_run_restores(s, events);
    lemma_run_restores(s, events.drop_last());
    law_actions_concern_candidate_at_hand(search_after(s, events.drop_last()), events.last());
}

/// A search begins with the first candidate that is not the endpoint that is left.
pub proof fn law_search_begins_with_first_candidate(s: SearchView, at: int)
    requires
        0 <= at < s.candidates.len(),
        s.candidates[at] != s.from_endpoint,
        forall|j: int| 0 <= j < at ==> (#[trigger] s.candidates[j]) == s.from_endpoint,
    ensures
        look_at(s, 0).1 == RebindActionView::LookUp(s.candidates[at]),
        look_at(s, 0).0.at == at,
{
    lemma_next_candidate(s.candidates, s.from_endpoint, 0);
}

/// Events and actions of a search are seen as what they are.
pub proof fn law_search_is_seen_as_it_is(event: RebindEvent, action: RebindAction)
    ensures
        event is VmMissing ==> event@ is VmMissing,
        event matches RebindEvent::VmFound(vm) ==> event@ is VmFound && event@->VmFound_0.metadata
            == vm.metadata@ && event@->VmFound_0.snapshots == vm.snapshots@,
        event is Restored ==> event@ is Restored,
        event matches RebindEvent::RestoreFailed(e) ==> event@
            == RebindEventView::RestoreFailed(e@),
        event is Running ==> event@ is Running,
        event is NotRunning ==> event@ is NotRunning,
        event is GuestReady ==> event@ is GuestReady,
        event is GuestSilent ==> event@ is GuestSilent,
        action matches RebindAction::LookUp(e) ==> action@ == RebindActionView::LookUp(e@),
        action matches RebindAction::Restore { endpoint, snapshot_id } ==> action@
            == RebindActionView::Restore(endpoint@, snapshot_id@),
        action matches RebindAction::EnsureRunning(e) ==> action@
            == RebindActionView::EnsureRunning(e@),
        action matches RebindAction::ProbeGuest(e) ==> action@ == RebindActionView::ProbeGuest(e@),
        action matches RebindAction::Bind(e) ==> action@ == RebindActionView::Bind(e@),
        action is GiveUp ==> action@ is GiveUp,
        action matches RebindAction::Fail(e) ==> action@ == RebindActionView::Fail(e@),
{
}

/// A session that may only move with its memory, and has no snapshot of it, is told so.
pub proof fn law_missing_snapshot_is_told(session_id: Seq<char>, vm: RestoreView)
    ensures
        restore_snapshot_id(vm.metadata, vm.snapshots) is None && tier_b_eligible(vm.metadata)
            ==> restore_plan(session_id, vm, true) == std::result::Result::<
            Option<Seq<char>>,
            ErrorView,
        >::Err(
            ErrorView::InvalidResponse(
                "tier_b_eligible session `"@ + session_id
                    + "` requires execution restore snapshot marker"@,
            ),
        ),
        restore_snapshot_id(vm.metadata, vm.snapshots) is None && !tier_b_eligible(vm.metadata)
            ==> restore_plan(session_id, vm, true) == std::result::Result::<
            Option<Seq<char>>,
            ErrorView,
        >::Ok(None),
        restore_snapshot_id(vm.metadata, vm.snapshots) is None ==> restore_plan(
            session_id,
            vm,
            false,
        ) == std::result::Result::<Option<Seq<char>>, ErrorView>::Ok(None),
{
}

} // verus!
