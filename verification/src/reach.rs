//! The way to the guest of a VM, step by step: over what is known of it, with one restart of a guest
//! that stays silent, and from another endpoint where its own is lost.

use crate::error::error_text;
use crate::error::rebind_candidate;
use crate::error::ErrorView;
use crate::error::Result;
use crate::error::SandboxError;
use crate::readiness::calls_for_restart;
use crate::readiness::failure_after_restart;
use crate::readiness::guest_access;
use crate::readiness::guest_rpc_access_from_vm;
use crate::readiness::readiness_failure;
use crate::readiness::waited_before;
use crate::readiness::AccessView;
use crate::readiness::GuestRpcAccess;
use crate::readiness::ReadinessRecovery;
use crate::readiness::ReadinessStep;
use crate::rebind::access_failure_moves_session;
use crate::rebind::newer_fence;
use crate::rebind::Bound;
use crate::span::Span;
use crate::table::StringMap;
use crate::vm::opt_view;
use crate::vm::Vm;
use vstd::prelude::*;

verus! {

/// The model of how a guest is reached, or of what went wrong.
pub open spec fn access_outcome(r: Result<GuestRpcAccess>) -> std::result::Result<
    AccessView,
    ErrorView,
> {
    match r {
        Ok(access) => Ok(access@),
        Err(e) => Err(e@),
    }
}

// ---------------------------------------------------------------------------
// On one endpoint
// ---------------------------------------------------------------------------
/// How far the way to a guest has come.
#[derive(Debug)]
enum ReachPhase {
    Ensuring,
    Waiting { access: GuestRpcAccess, freshly_started: bool },
    Restarting { cause: SandboxError },
    EnsuringAgain { cause: SandboxError },
    WaitingAgain { cause: SandboxError, access: GuestRpcAccess },
    Over,
}

/// How far the way to a guest has come, with texts as sequences.
pub enum ReachPhaseView {
    /// The VM is being brought to run.
    Ensuring,
    /// It runs, and its guest is waited for.
    Waiting { access: AccessView, freshly_started: bool },
    /// It is being restarted, for this cause.
    Restarting { cause: ErrorView },
    /// It is being brought to run once more.
    EnsuringAgain { cause: ErrorView },
    /// Its guest is waited for once more.
    WaitingAgain { cause: ErrorView, access: AccessView },
    /// Nothing is left to be decided.
    Over,
}

/// What is met on the way to a guest.
#[derive(Debug)]
pub enum ReachEvent {
    /// The VM runs. It was started for that, or it ran before.
    Running { vm: Vm, freshly_started: bool },
    /// The guest answered.
    Answered,
    /// The VM was restarted.
    Restarted,
    /// What was to be done failed.
    Failed(SandboxError),
}

/// The model of a `ReachEvent`.
pub enum ReachEventView {
    Running { vm: Vm, freshly_started: bool },
    Answered,
    Restarted,
    Failed(ErrorView),
}

impl View for ReachEvent {
    type V = ReachEventView;

    open spec fn view(&self) -> ReachEventView {
        match self {
            ReachEvent::Running { vm, freshly_started } => ReachEventView::Running {
                vm: *vm,
                freshly_started: *freshly_started,
            },
            ReachEvent::Answered => ReachEventView::Answered,
            ReachEvent::Restarted => ReachEventView::Restarted,
            ReachEvent::Failed(e) => ReachEventView::Failed(e@),
        }
    }
}

/// What is done next.
#[derive(Debug)]
pub enum ReachAction {
    /// Brings the VM to run.
    EnsureRunning,
    /// Waits for the guest to answer.
    AwaitGuest(GuestRpcAccess),
    /// Forgets what is known of the path to the guest, and restarts the VM for the reason given.
    ForgetPathAndRestart { reason: String },
    /// Ends with the result.
    Done(Result<GuestRpcAccess>),
}

/// The model of a `ReachAction`.
pub enum ReachActionView {
    EnsureRunning,
    AwaitGuest(AccessView),
    ForgetPathAndRestart { reason: Seq<char> },
    Done(std::result::Result<AccessView, ErrorView>),
}

impl View for ReachAction {
    type V = ReachActionView;

    open spec fn view(&self) -> ReachActionView {
        match self {
            ReachAction::EnsureRunning => ReachActionView::EnsureRunning,
            ReachAction::AwaitGuest(access) => ReachActionView::AwaitGuest(access@),
            ReachAction::ForgetPathAndRestart { reason } => ReachActionView::ForgetPathAndRestart {
                reason: reason@,
            },
            ReachAction::Done(result) => ReachActionView::Done(access_outcome(*result)),
        }
    }
}

/// The way to the guest of a VM on an endpoint.
#[derive(Debug)]
pub struct GuestReach {
    endpoint: String,
    recovery: ReadinessRecovery,
    phase: ReachPhase,
}

/// The model of a `GuestReach`.
pub struct ReachView {
    pub endpoint: Seq<char>,
    pub recovery: ReadinessRecovery,
    pub phase: ReachPhaseView,
}

impl View for GuestReach {
    type V = ReachView;

    closed spec fn view(&self) -> ReachView {
        ReachView {
            endpoint: self.endpoint@,
            recovery: self.recovery,
            phase: match self.phase {
                ReachPhase::Ensuring => ReachPhaseView::Ensuring,
                ReachPhase::Waiting { access, freshly_started } => ReachPhaseView::Waiting {
                    access: access@,
                    freshly_started,
                },
                ReachPhase::Restarting { cause } => ReachPhaseView::Restarting { cause: cause@ },
                ReachPhase::EnsuringAgain { cause } => ReachPhaseView::EnsuringAgain {
                    cause: cause@,
                },
                ReachPhase::WaitingAgain { cause, access } => ReachPhaseView::WaitingAgain {
                    cause: cause@,
                    access: access@,
                },
                ReachPhase::Over => ReachPhaseView::Over,
            },
        }
    }
}

/// A wait that an error reports is a well-formed span.
pub open spec fn error_wf(e: ErrorView) -> bool {
    e matches ErrorView::GuestRpcNotReady { waited, .. } ==> waited.wf()
}

/// The error that called for a restart is well-formed.
pub open spec fn reach_wf(s: ReachView) -> bool {
    match s.phase {
        ReachPhaseView::Restarting { cause } => error_wf(cause),
        ReachPhaseView::EnsuringAgain { cause } => error_wf(cause),
        ReachPhaseView::WaitingAgain { cause, .. } => error_wf(cause),
        _ => true,
    }
}

/// The event answers the action that is under way. The waits before and after a restart add up to a
/// span.
pub open spec fn expected_reach_event(s: ReachView, event: ReachEventView) -> bool {
    match s.phase {
        ReachPhaseView::Ensuring => event is Running || event is Failed,
        ReachPhaseView::Waiting { .. } => event is Answered || (event matches ReachEventView::Failed(
            e,
        ) && error_wf(e)),
        ReachPhaseView::Restarting { .. } => event is Restarted || event is Failed,
        ReachPhaseView::EnsuringAgain { .. } => event is Running || event is Failed,
        ReachPhaseView::WaitingAgain { cause, .. } => event is Answered || (
        event matches ReachEventView::Failed(e) && error_wf(e) && waits_add_up(cause, e)),
        ReachPhaseView::Over => false,
    }
}

/// The waits that two errors report add up to a span.
pub open spec fn waits_add_up(cause: ErrorView, error: ErrorView) -> bool {
    error is GuestRpcNotReady ==> waited_before(cause).total() + waited_before(error).total()
        <= Span::max_total()
}

/// Two spans one after the other.
pub open spec fn span_sum(a: Span, b: Span) -> Span {
    let total = a.total() + b.total();
    Span { secs: (total / 1_000_000_000) as u64, nanos: (total % 1_000_000_000) as u32 }
}

/// The error of a guest that could not be reached after a restart: of a silent one the whole wait, and
/// that it was restarted.
pub open spec fn error_after_restart(cause: ErrorView, error: ErrorView) -> ErrorView {
    match error {
        ErrorView::GuestRpcNotReady { vm_id, endpoint, waited, .. } => ErrorView::GuestRpcNotReady {
            vm_id,
            endpoint,
            waited: span_sum(waited_before(cause), waited),
            restarted: true,
        },
        _ => error,
    }
}

/// The end of the way.
pub open spec fn reached(
    s: ReachView,
    result: std::result::Result<AccessView, ErrorView>,
) -> (ReachView, ReachActionView) {
    (ReachView { phase: ReachPhaseView::Over, ..s }, ReachActionView::Done(result))
}

/// What an event makes of the way, and what is done next. A guest that stays silent, on a VM that ran
/// before, is given one restart.
pub open spec fn reach_step(
    s: ReachView,
    overrides: Map<Seq<char>, Seq<char>>,
    event: ReachEventView,
) -> (ReachView, ReachActionView) {
    match (s.phase, event) {
        (ReachPhaseView::Ensuring, ReachEventView::Running { vm, freshly_started }) => {
            match guest_access(overrides, vm, s.endpoint) {
                Ok(access) => (
                    ReachView { phase: ReachPhaseView::Waiting { access, freshly_started }, ..s },
                    ReachActionView::AwaitGuest(access),
                ),
                Err(e) => reached(s, Err(e)),
            }
        },
        (ReachPhaseView::Waiting { access, .. }, ReachEventView::Answered) => reached(
            s,
            Ok(access),
        ),
        (ReachPhaseView::Waiting { freshly_started, .. }, ReachEventView::Failed(e)) => {
            if calls_for_restart(e, freshly_started, s.recovery) {
                (
                    ReachView { phase: ReachPhaseView::Restarting { cause: e }, ..s },
                    ReachActionView::ForgetPathAndRestart { reason: error_text(e) },
                )
            } else {
                reached(s, Err(e))
            }
        },
        (ReachPhaseView::Restarting { cause }, ReachEventView::Restarted) => (
            ReachView { phase: ReachPhaseView::EnsuringAgain { cause }, ..s },
            ReachActionView::EnsureRunning,
        ),
        (ReachPhaseView::EnsuringAgain { cause }, ReachEventView::Running { vm, .. }) => {
            match guest_access(overrides, vm, s.endpoint) {
                Ok(access) => (
                    ReachView { phase: ReachPhaseView::WaitingAgain { cause, access }, ..s },
                    ReachActionView::AwaitGuest(access),
                ),
                Err(e) => reached(s, Err(e)),
            }
        },
        (ReachPhaseView::WaitingAgain { access, .. }, ReachEventView::Answered) => reached(
            s,
            Ok(access),
        ),
        (ReachPhaseView::WaitingAgain { cause, .. }, ReachEventView::Failed(e)) => reached(
            s,
            Err(error_after_restart(cause, e)),
        ),
        (_, ReachEventView::Failed(e)) => reached(s, Err(e)),
        _ => reached(s, Err(ErrorView::InvalidResponse("unexpected event"@))),
    }
}

/// The beginning of the way: where the guest is known to answer, its end.
pub open spec fn reach_start(
    endpoint: Seq<char>,
    recovery: ReadinessRecovery,
    cached: Option<AccessView>,
) -> (ReachView, ReachActionView) {
    let s = ReachView { endpoint, recovery, phase: ReachPhaseView::Ensuring };
    match cached {
        Some(access) => reached(s, Ok(access)),
        None => (s, ReachActionView::EnsureRunning),
    }
}

impl GuestReach {
    /// Begins, with what is known of the guest.
    pub fn start(endpoint: &str, recovery: ReadinessRecovery, cached: Option<GuestRpcAccess>) -> (r: (
        GuestReach,
        ReachAction,
    ))
        ensures
            reach_wf(r.0@),
            (r.0@, r.1@) == reach_start(
                endpoint@,
                recovery,
                match cached {
                    Some(access) => Some(access@),
                    None => None,
                },
            ),
    {
        match cached {
            Some(access) => (
                GuestReach { endpoint: endpoint.to_owned(), recovery, phase: ReachPhase::Over },
                ReachAction::Done(Ok(access)),
            ),
            None => (
                GuestReach { endpoint: endpoint.to_owned(), recovery, phase: ReachPhase::Ensuring },
                ReachAction::EnsureRunning,
            ),
        }
    }

    /// Whether the wait that an error reports can be added to the one before a restart.
    pub fn takes_wait_of(&self, error: &SandboxError) -> (fits: bool)
        requires
            reach_wf(self@),
            error.wf(),
        ensures
            fits == (self@.phase matches ReachPhaseView::WaitingAgain { cause, .. } ==> waits_add_up(
                cause,
                error@,
            )),
    {
        let cause = match &self.phase {
            ReachPhase::WaitingAgain { cause, .. } => cause,
            _ => return true,
        };
        let before: Span = match cause {
            SandboxError::GuestRpcNotReady { waited, .. } => *waited,
            _ => return true,
        };
        match error {
            SandboxError::GuestRpcNotReady { waited, .. } => {
                let carry: u64 = if before.nanos + waited.nanos >= 1_000_000_000 {
                    1
                } else {
                    0
                };
                before.secs as u128 + waited.secs as u128 + carry as u128 <= u64::MAX as u128
            },
            _ => true,
        }
    }

    /// Takes an event in and says what is done next.
    pub fn step(self, overrides: &StringMap, event: ReachEvent) -> (r: (GuestReach, ReachAction))
        requires
            reach_wf(self@),
            expected_reach_event(self@, event@),
        ensures
            reach_wf(r.0@),
            (r.0@, r.1@) == reach_step(self@, overrides@, event@),
    {
        let GuestReach { endpoint, recovery, phase } = self;
        let (phase, action) = match (phase, event) {
            (ReachPhase::Ensuring, ReachEvent::Running { vm, freshly_started }) => {
                match guest_rpc_access_from_vm(overrides, &vm, &endpoint) {
                    Ok(access) => (
                        ReachPhase::Waiting { access: access.copy(), freshly_started },
                        ReachAction::AwaitGuest(access),
                    ),
                    Err(e) => (ReachPhase::Over, ReachAction::Done(Err(e))),
                }
            },
            (ReachPhase::Waiting { access, .. }, ReachEvent::Answered) => (
                ReachPhase::Over,
                ReachAction::Done(Ok(access)),
            ),
            (ReachPhase::Waiting { freshly_started, .. }, ReachEvent::Failed(e)) => {
                match readiness_failure(e, freshly_started, recovery) {
                    ReadinessStep::Report(e) => (ReachPhase::Over, ReachAction::Done(Err(e))),
                    ReadinessStep::RestartOnce(cause) => {
                        let reason = cause.text();
                        (
                            ReachPhase::Restarting { cause },
                            ReachAction::ForgetPathAndRestart { reason },
                        )
                    },
                }
            },
            (ReachPhase::Restarting { cause }, ReachEvent::Restarted) => (
                ReachPhase::EnsuringAgain { cause },
                ReachAction::EnsureRunning,
            ),
            (ReachPhase::EnsuringAgain { cause }, ReachEvent::Running { vm, .. }) => {
                match guest_rpc_access_from_vm(overrides, &vm, &endpoint) {
                    Ok(access) => (
                        ReachPhase::WaitingAgain { cause, access: access.copy() },
                        ReachAction::AwaitGuest(access),
                    ),
                    Err(e) => (ReachPhase::Over, ReachAction::Done(Err(e))),
                }
            },
            (ReachPhase::WaitingAgain { access, .. }, ReachEvent::Answered) => (
                ReachPhase::Over,
                ReachAction::Done(Ok(access)),
            ),
            (ReachPhase::WaitingAgain { cause, .. }, ReachEvent::Failed(e)) => {
                let ghost before = e@;
                let e = failure_after_restart(&cause, e);
                proof {
                    if before is GuestRpcNotReady {
                        lemma_span_of_total(
                            e@->GuestRpcNotReady_waited,
                            waited_before(cause@),
                            before->GuestRpcNotReady_waited,
                        );
                    }
                }
                (ReachPhase::Over, ReachAction::Done(Err(e)))
            },
            (_, ReachEvent::Failed(e)) => (ReachPhase::Over, ReachAction::Done(Err(e))),
            _ => (
                ReachPhase::Over,
                ReachAction::Done(
                    Err(SandboxError::InvalidResponse("unexpected event".to_owned())),
                ),
            ),
        };
        (GuestReach { endpoint, recovery, phase }, action)
    }
}

proof fn lemma_span_of_total(sum: Span, a: Span, b: Span)
    requires
        sum.wf(),
        sum.total() == a.total() + b.total(),
    ensures
        sum == span_sum(a, b),
{
}

/// How far the way has come.
pub open spec fn reach_progress(phase: ReachPhaseView) -> int {
    match phase {
        ReachPhaseView::Ensuring => 0,
        ReachPhaseView::Waiting { .. } => 1,
        ReachPhaseView::Restarting { .. } => 2,
        ReachPhaseView::EnsuringAgain { .. } => 3,
        ReachPhaseView::WaitingAgain { .. } => 4,
        ReachPhaseView::Over => 5,
    }
}

/// A VM is restarted once at most on the way to its guest: every event brings the way further, and the
/// restart stands at one place of it. A VM that was started for the way is not restarted at all.
pub proof fn law_guest_is_restarted_once_at_most(
    s: ReachView,
    overrides: Map<Seq<char>, Seq<char>>,
    event: ReachEventView,
)
    requires
        expected_reach_event(s, event),
    ensures
        reach_progress(reach_step(s, overrides, event).0.phase) > reach_progress(s.phase),
        reach_step(s, overrides, event).1 is ForgetPathAndRestart ==> {
            &&& s.phase is Waiting
            &&& !s.phase->freshly_started
            &&& s.recovery != ReadinessRecovery::FreshBoot
        },
        reach_step(s, overrides, event).1 is Done <==> reach_step(s, overrides, event).0.phase is Over,
{
}

/// A guest that stays silent after the restart lets the session look for another endpoint.
pub proof fn law_silence_after_restart_moves_session(
    s: ReachView,
    overrides: Map<Seq<char>, Seq<char>>,
    error: ErrorView,
)
    requires
        s.phase is WaitingAgain,
        error is GuestRpcNotReady,
    ensures
        reach_step(s, overrides, ReachEventView::Failed(error)).1 matches ReachActionView::Done(Err(e))
            && rebind_candidate(e),
{
}

// ---------------------------------------------------------------------------
// On whichever endpoint
// ---------------------------------------------------------------------------
/// The model of a `Bound`.
pub struct BoundView {
    pub endpoint: Seq<char>,
    pub fence: Option<Seq<char>>,
}

impl View for Bound {
    type V = BoundView;

    open spec fn view(&self) -> BoundView {
        BoundView { endpoint: self.endpoint@, fence: opt_view(self.fence) }
    }
}

/// How far the way to the guest of a session has come.
#[derive(Debug)]
enum SessionPhase {
    Resolving,
    Accessing { bound: Bound },
    Searching { bound: Bound, error: SandboxError },
    AccessingMoved { bound: Bound },
    Over,
}

/// How far the way to the guest of a session has come, with texts as sequences.
pub enum SessionPhaseView {
    /// The endpoint of the session is being resolved.
    Resolving,
    /// Its guest is being reached there.
    Accessing { bound: BoundView },
    /// That failed, and another endpoint is being looked for.
    Searching { bound: BoundView, error: ErrorView },
    /// Its guest is being reached at the other endpoint.
    AccessingMoved { bound: BoundView },
    /// Nothing is left to be decided.
    Over,
}

/// What is met on the way to the guest of a session.
#[derive(Debug)]
pub enum SessionReachEvent {
    /// The endpoint was resolved, or it was not.
    Resolved(Result<Bound>),
    /// The guest was reached, or it was not.
    Accessed(Result<GuestRpcAccess>),
    /// The search found an endpoint to which the session moved, found none, or failed.
    Searched(Result<Option<Bound>>),
}

/// The model of a `SessionReachEvent`.
pub enum SessionReachEventView {
    Resolved(std::result::Result<BoundView, ErrorView>),
    Accessed(std::result::Result<AccessView, ErrorView>),
    Searched(std::result::Result<Option<BoundView>, ErrorView>),
}

impl View for SessionReachEvent {
    type V = SessionReachEventView;

    open spec fn view(&self) -> SessionReachEventView {
        match self {
            SessionReachEvent::Resolved(Ok(bound)) => SessionReachEventView::Resolved(Ok(bound@)),
            SessionReachEvent::Resolved(Err(e)) => SessionReachEventView::Resolved(Err(e@)),
            SessionReachEvent::Accessed(r) => SessionReachEventView::Accessed(access_outcome(*r)),
            SessionReachEvent::Searched(Ok(Some(bound))) => SessionReachEventView::Searched(
                Ok(Some(bound@)),
            ),
            SessionReachEvent::Searched(Ok(None)) => SessionReachEventView::Searched(Ok(None)),
            SessionReachEvent::Searched(Err(e)) => SessionReachEventView::Searched(Err(e@)),
        }
    }
}

/// What is done next.
#[derive(Debug)]
pub enum SessionReachAction {
    /// Resolves the endpoint of the session.
    Resolve,
    /// Reaches the guest on an endpoint.
    Access(String),
    /// Looks for another endpoint than this one, the session being owned under the fence.
    Search { endpoint: String, fence: Option<String> },
    /// Ends with the result.
    Done(Result<(Bound, GuestRpcAccess)>),
}

/// The model of a `SessionReachAction`.
pub enum SessionReachActionView {
    Resolve,
    Access(Seq<char>),
    Search { endpoint: Seq<char>, fence: Option<Seq<char>> },
    Done(std::result::Result<(BoundView, AccessView), ErrorView>),
}

impl View for SessionReachAction {
    type V = SessionReachActionView;

    open spec fn view(&self) -> SessionReachActionView {
        match self {
            SessionReachAction::Resolve => SessionReachActionView::Resolve,
            SessionReachAction::Access(endpoint) => SessionReachActionView::Access(endpoint@),
            SessionReachAction::Search { endpoint, fence } => SessionReachActionView::Search {
                endpoint: endpoint@,
                fence: opt_view(*fence),
            },
            SessionReachAction::Done(Ok((bound, access))) => SessionReachActionView::Done(
                Ok((bound@, access@)),
            ),
            SessionReachAction::Done(Err(e)) => SessionReachActionView::Done(Err(e@)),
        }
    }
}

/// The way to the guest of a session.
#[derive(Debug)]
pub struct SessionReach {
    fence: Option<String>,
    phase: SessionPhase,
}

/// The model of a `SessionReach`: the fence under which the session was last known to be owned.
pub struct SessionReachView {
    pub fence: Option<Seq<char>>,
    pub phase: SessionPhaseView,
}

impl View for SessionReach {
    type V = SessionReachView;

    closed spec fn view(&self) -> SessionReachView {
        SessionReachView {
            fence: opt_view(self.fence),
            phase: match self.phase {
                SessionPhase::Resolving => SessionPhaseView::Resolving,
                SessionPhase::Accessing { bound } => SessionPhaseView::Accessing { bound: bound@ },
                SessionPhase::Searching { bound, error } => SessionPhaseView::Searching {
                    bound: bound@,
                    error: error@,
                },
                SessionPhase::AccessingMoved { bound } => SessionPhaseView::AccessingMoved {
                    bound: bound@,
                },
                SessionPhase::Over => SessionPhaseView::Over,
            },
        }
    }
}

/// The event answers the action that is under way.
pub open spec fn expected_session_event(
    phase: SessionPhaseView,
    event: SessionReachEventView,
) -> bool {
    match phase {
        SessionPhaseView::Resolving => event is Resolved,
        SessionPhaseView::Accessing { .. } => event is Accessed,
        SessionPhaseView::Searching { .. } => event is Searched,
        SessionPhaseView::AccessingMoved { .. } => event is Accessed,
        SessionPhaseView::Over => false,
    }
}

/// The newer fence where there is one.
pub open spec fn newer(newer: Option<Seq<char>>, older: Option<Seq<char>>) -> Option<Seq<char>> {
    if newer is Some {
        newer
    } else {
        older
    }
}

/// The end of the way.
pub open spec fn session_reached(
    s: SessionReachView,
    result: std::result::Result<(BoundView, AccessView), ErrorView>,
) -> (SessionReachView, SessionReachActionView) {
    (SessionReachView { phase: SessionPhaseView::Over, ..s }, SessionReachActionView::Done(result))
}

/// What an event makes of the way, and what is done next. Where the guest cannot be reached and the
/// failure lets the session move, another endpoint is looked for once; where there is none, the failure
/// is the result.
pub open spec fn session_reach_step(s: SessionReachView, event: SessionReachEventView) -> (
    SessionReachView,
    SessionReachActionView,
) {
    match (s.phase, event) {
        (SessionPhaseView::Resolving, SessionReachEventView::Resolved(Ok(bound))) => (
            SessionReachView { phase: SessionPhaseView::Accessing { bound }, ..s },
            SessionReachActionView::Access(bound.endpoint),
        ),
        (SessionPhaseView::Accessing { bound }, SessionReachEventView::Accessed(Ok(access))) => {
            session_reached(s, Ok((bound, access)))
        },
        (SessionPhaseView::Accessing { bound }, SessionReachEventView::Accessed(Err(e))) => {
            if rebind_candidate(e) {
                (
                    SessionReachView {
                        phase: SessionPhaseView::Searching { bound, error: e },
                        ..s
                    },
                    SessionReachActionView::Search {
                        endpoint: bound.endpoint,
                        fence: newer(bound.fence, s.fence),
                    },
                )
            } else {
                session_reached(s, Err(e))
            }
        },
        (
            SessionPhaseView::Searching { bound, .. },
            SessionReachEventView::Searched(Ok(Some(found))),
        ) => (
            SessionReachView {
                phase: SessionPhaseView::AccessingMoved {
                    bound: BoundView {
                        endpoint: found.endpoint,
                        fence: newer(found.fence, bound.fence),
                    },
                },
                ..s
            },
            SessionReachActionView::Access(found.endpoint),
        ),
        (
            SessionPhaseView::Searching { error, .. },
            SessionReachEventView::Searched(Ok(None)),
        ) => session_reached(s, Err(error)),
        (
            SessionPhaseView::AccessingMoved { bound },
            SessionReachEventView::Accessed(Ok(access)),
        ) => session_reached(s, Ok((bound, access))),
        (_, SessionReachEventView::Resolved(Err(e))) => session_reached(s, Err(e)),
        (_, SessionReachEventView::Accessed(Err(e))) => session_reached(s, Err(e)),
        (_, SessionReachEventView::Searched(Err(e))) => session_reached(s, Err(e)),
        _ => session_reached(s, Err(ErrorView::InvalidResponse("unexpected event"@))),
    }
}

/// The beginning of the way. Where the guest is known to answer on the session's own endpoint, it is
/// the end: nothing is resolved, and no fence comes of it.
pub open spec fn session_reach_start(
    endpoint: Seq<char>,
    fence: Option<Seq<char>>,
    cached: Option<AccessView>,
) -> (SessionReachView, SessionReachActionView) {
    let s = SessionReachView { fence, phase: SessionPhaseView::Resolving };
    match cached {
        Some(access) => session_reached(s, Ok((BoundView { endpoint, fence: None }, access))),
        None => (s, SessionReachActionView::Resolve),
    }
}

impl SessionReach {
    /// Begins, with what is known of the guest on the session's own endpoint.
    pub fn start(endpoint: String, fence: Option<String>, cached: Option<GuestRpcAccess>) -> (r: (
        SessionReach,
        SessionReachAction,
    ))
        ensures
            (r.0@, r.1@) == session_reach_start(
                endpoint@,
                opt_view(fence),
                match cached {
                    Some(access) => Some(access@),
                    None => None,
                },
            ),
    {
        match cached {
            Some(access) => (
                SessionReach { fence, phase: SessionPhase::Over },
                SessionReachAction::Done(Ok((Bound { endpoint, fence: None }, access))),
            ),
            None => (
                SessionReach { fence, phase: SessionPhase::Resolving },
                SessionReachAction::Resolve,
            ),
        }
    }

    /// Takes an event in and says what is done next.
    pub fn step(self, event: SessionReachEvent) -> (r: (SessionReach, SessionReachAction))
        requires
            expected_session_event(self@.phase, event@),
        ensures
            (r.0@, r.1@) == session_reach_step(self@, event@),
    {
        let SessionReach { fence, phase } = self;
        let (phase, action) = match (phase, event) {
            (SessionPhase::Resolving, SessionReachEvent::Resolved(Ok(bound))) => {
                let endpoint = bound.endpoint.clone();
                (SessionPhase::Accessing { bound }, SessionReachAction::Access(endpoint))
            },
            (SessionPhase::Accessing { bound }, SessionReachEvent::Accessed(Ok(access))) => (
                SessionPhase::Over,
                SessionReachAction::Done(Ok((bound, access))),
            ),
            (SessionPhase::Accessing { bound }, SessionReachEvent::Accessed(Err(error))) => {
                if access_failure_moves_session(&error) {
                    let action = SessionReachAction::Search {
                        endpoint: bound.endpoint.clone(),
                        fence: newer_fence(bound.fence.clone(), fence.clone()),
                    };
                    (SessionPhase::Searching { bound, error }, action)
                } else {
                    (SessionPhase::Over, SessionReachAction::Done(Err(error)))
                }
            },
            (
                SessionPhase::Searching { bound, .. },
                SessionReachEvent::Searched(Ok(Some(found))),
            ) => {
                let endpoint = found.endpoint.clone();
                let moved = Bound {
                    endpoint: found.endpoint,
                    fence: newer_fence(found.fence, bound.fence),
                };
                (SessionPhase::AccessingMoved { bound: moved }, SessionReachAction::Access(endpoint))
            },
            (SessionPhase::Searching { error, .. }, SessionReachEvent::Searched(Ok(None))) => (
                SessionPhase::Over,
                SessionReachAction::Done(Err(error)),
            ),
            (SessionPhase::AccessingMoved { bound }, SessionReachEvent::Accessed(Ok(access))) => (
                SessionPhase::Over,
                SessionReachAction::Done(Ok((bound, access))),
            ),
            (_, SessionReachEvent::Resolved(Err(e))) => (
                SessionPhase::Over,
                SessionReachAction::Done(Err(e)),
            ),
            (_, SessionReachEvent::Accessed(Err(e))) => (
                SessionPhase::Over,
                SessionReachAction::Done(Err(e)),
            ),
            (_, SessionReachEvent::Searched(Err(e))) => (
                SessionPhase::Over,
                SessionReachAction::Done(Err(e)),
            ),
            _ => (
                SessionPhase::Over,
                SessionReachAction::Done(
                    Err(SandboxError::InvalidResponse("unexpected event".to_owned())),
                ),
            ),
        };
        (SessionReach { fence, phase }, action)
    }
}

/// How far the way has come.
pub open spec fn session_progress(phase: SessionPhaseView) -> int {
    match phase {
        SessionPhaseView::Resolving => 0,
        SessionPhaseView::Accessing { .. } => 1,
        SessionPhaseView::Searching { .. } => 2,
        SessionPhaseView::AccessingMoved { .. } => 3,
        SessionPhaseView::Over => 4,
    }
}

/// A session is moved once at most on the way to its guest, and only for a failure that lets it move.
/// Every event brings the way further.
pub proof fn law_session_moves_once_at_most(s: SessionReachView, event: SessionReachEventView)
    requires
        expected_session_event(s.phase, event),
    ensures
        session_progress(session_reach_step(s, event).0.phase) > session_progress(s.phase),
        session_reach_step(s, event).1 is Search ==> {
            &&& s.phase is Accessing
            &&& event matches SessionReachEventView::Accessed(Err(e))
            &&& rebind_candidate(e)
        },
        session_reach_step(s, event).1 is Done <==> session_reach_step(s, event).0.phase is Over,
{
}

// ---------------------------------------------------------------------------
// What is told of a guest, and when
// ---------------------------------------------------------------------------
/// A guest whose way is known is taken at once; every other VM is first made to run.
pub proof fn law_known_way_is_taken_at_once(
    endpoint: Seq<char>,
    recovery: ReadinessRecovery,
    access: AccessView,
)
    ensures
        reach_start(endpoint, recovery, Some(access)).1 == ReachActionView::Done(Ok(access)),
        reach_start(endpoint, recovery, None).1 == ReachActionView::EnsureRunning,
        reach_start(endpoint, recovery, None).0.phase is Ensuring,
        reach_start(endpoint, recovery, None).0.endpoint == endpoint,
        reach_start(endpoint, recovery, None).0.recovery == recovery,
{
}

/// A guest is said to be reached where it has answered, and only there; the way that is told is the one
/// on which it was awaited.
pub proof fn law_reached_guest_has_answered(
    s: ReachView,
    overrides: Map<Seq<char>, Seq<char>>,
    event: ReachEventView,
)
    requires
        expected_reach_event(s, event),
    ensures
        reach_step(s, overrides, event).1 matches ReachActionView::Done(Ok(access)) ==> {
            &&& event is Answered
            &&& s.phase is Waiting ==> access == s.phase->Waiting_access
            &&& s.phase is WaitingAgain ==> access == s.phase->WaitingAgain_access
        },
        event is Answered ==> reach_step(s, overrides, event).1 is Done && reach_step(
            s,
            overrides,
            event,
        ).1->Done_0 is Ok,
        reach_step(s, overrides, event).0.endpoint == s.endpoint,
        reach_step(s, overrides, event).0.recovery == s.recovery,
{
}

/// A running VM is awaited on the way that its own report names, seen from its endpoint; where its report
/// names none, that is the error.
pub proof fn law_running_vm_is_awaited(
    s: ReachView,
    overrides: Map<Seq<char>, Seq<char>>,
    vm: Vm,
    freshly_started: bool,
)
    requires
        s.phase is Ensuring || s.phase is EnsuringAgain,
    ensures
        ({
            let (next, action) = reach_step(
                s,
                overrides,
                ReachEventView::Running { vm, freshly_started },
            );
            match guest_access(overrides, vm, s.endpoint) {
                Ok(access) => {
                    &&& action == ReachActionView::AwaitGuest(access)
                    &&& s.phase is Ensuring ==> next.phase == (ReachPhaseView::Waiting {
                        access,
                        freshly_started,
                    })
                    &&& s.phase is EnsuringAgain ==> next.phase == (ReachPhaseView::WaitingAgain {
                        cause: s.phase->EnsuringAgain_cause,
                        access,
                    })
                },
                Err(e) => action == ReachActionView::Done(Err(e)),
            }
        }),
{
}

/// A failure is told as it came, but for two: silence of a guest that may be restarted, after which it is
/// restarted and awaited once more, and silence after that, which is told with the time of both waits.
pub proof fn law_failure_is_told_as_it_came(
    s: ReachView,
    overrides: Map<Seq<char>, Seq<char>>,
    e: ErrorView,
)
    requires
        reach_wf(s),
        expected_reach_event(s, ReachEventView::Failed(e)),
    ensures
        s.phase is Ensuring || s.phase is Restarting || s.phase is EnsuringAgain ==> reach_step(
            s,
            overrides,
            ReachEventView::Failed(e),
        ).1 == ReachActionView::Done(Err(e)),
        s.phase matches ReachPhaseView::Waiting { freshly_started, .. } ==> {
            let (next, action) = reach_step(s, overrides, ReachEventView::Failed(e));
            if !freshly_started && s.recovery != ReadinessRecovery::FreshBoot && (
            e is GuestRpcNotReady || rebind_candidate(e)) {
                &&& action == (ReachActionView::ForgetPathAndRestart { reason: error_text(e) })
                &&& next.phase == (ReachPhaseView::Restarting { cause: e })
                &&& reach_step(next, overrides, ReachEventView::Restarted).1
                    == ReachActionView::EnsureRunning
                &&& reach_step(next, overrides, ReachEventView::Restarted).0.phase == (
                ReachPhaseView::EnsuringAgain { cause: e })
            } else {
                action == ReachActionView::Done(Err(e))
            }
        },
        s.phase is WaitingAgain && !(e is GuestRpcNotReady) ==> reach_step(
            s,
            overrides,
            ReachEventView::Failed(e),
        ).1 == ReachActionView::Done(Err(e)),
        s.phase is WaitingAgain && e is GuestRpcNotReady ==> {
            let told = reach_step(s, overrides, ReachEventView::Failed(e)).1->Done_0->Err_0;
            let cause = s.phase->WaitingAgain_cause;
            &&& reach_step(s, overrides, ReachEventView::Failed(e)).1 is Done
            &&& told is GuestRpcNotReady
            &&& told->vm_id == e->vm_id
            &&& told->endpoint == e->endpoint
            &&& told->restarted
            &&& told->waited.total() == e->waited.total() + (if cause is GuestRpcNotReady {
                cause->waited.total()
            } else {
                0
            })
        },
{
    if s.phase is WaitingAgain && e is GuestRpcNotReady {
        let cause = s.phase->WaitingAgain_cause;
        let sum = waited_before(cause).total() + waited_before(e).total();
        assert(0 <= sum <= Span::max_total());
        assert(sum / 1_000_000_000 * 1_000_000_000 + sum % 1_000_000_000 == sum);
    }
}

/// A session is reached on the endpoint that it was resolved to. Where the way there is lost, it is
/// looked for, from that endpoint and under the newest fence, and reached where it was found; where it
/// was found nowhere, the error that was met first is told.
pub proof fn law_session_is_reached_where_it_is(
    s: SessionReachView,
    bound: BoundView,
    found: BoundView,
    access: AccessView,
    e: ErrorView,
)
    ensures
        s.phase is Resolving ==> session_reach_step(
            s,
            SessionReachEventView::Resolved(Ok(bound)),
        ).1 == SessionReachActionView::Access(bound.endpoint) && session_reach_step(
            s,
            SessionReachEventView::Resolved(Ok(bound)),
        ).0.phase == (SessionPhaseView::Accessing { bound }),
        s.phase == (SessionPhaseView::Accessing { bound }) ==> {
            &&& session_reach_step(s, SessionReachEventView::Accessed(Ok(access))).1
                == SessionReachActionView::Done(Ok((bound, access)))
            &&& !rebind_candidate(e) ==> session_reach_step(
                s,
                SessionReachEventView::Accessed(Err(e)),
            ).1 == SessionReachActionView::Done(Err(e))
            &&& rebind_candidate(e) ==> {
                let (next, action) = session_reach_step(
                    s,
                    SessionReachEventView::Accessed(Err(e)),
                );
                let told = session_reach_step(next, SessionReachEventView::Searched(Ok(None))).1;
                let moved = session_reach_step(
                    next,
                    SessionReachEventView::Searched(Ok(Some(found))),
                );
                let there = session_reach_step(
                    moved.0,
                    SessionReachEventView::Accessed(Ok(access)),
                ).1;
                &&& action is Search
                &&& action->endpoint == bound.endpoint
                &&& bound.fence is Some ==> action->fence == bound.fence
                &&& bound.fence is None ==> action->fence == s.fence
                &&& told == SessionReachActionView::Done(Err(e))
                &&& moved.1 == SessionReachActionView::Access(found.endpoint)
                &&& there is Done
                &&& there->Done_0 is Ok
                &&& there->Done_0->Ok_0.0.endpoint == found.endpoint
                &&& there->Done_0->Ok_0.1 == access
                &&& found.fence is Some ==> there->Done_0->Ok_0.0.fence == found.fence
                &&& found.fence is None ==> there->Done_0->Ok_0.0.fence == bound.fence
            }
        },
        session_reach_start(bound.endpoint, bound.fence, Some(access)).1
            == SessionReachActionView::Done(
            Ok((BoundView { endpoint: bound.endpoint, fence: None }, access)),
        ),
        session_reach_start(bound.endpoint, bound.fence, None).1 == SessionReachActionView::Resolve,
        session_reach_start(bound.endpoint, bound.fence, None).0.fence == bound.fence,
{
}

/// Events and actions on the way to a guest are seen as what they are.
pub proof fn law_reach_is_seen_as_it_is(event: ReachEvent, action: ReachAction)
    ensures
        event matches ReachEvent::Running { vm, freshly_started } ==> event@ == (
        ReachEventView::Running { vm, freshly_started }),
        event is Answered ==> event@ is Answered,
        event is Restarted ==> event@ is Restarted,
        event matches ReachEvent::Failed(e) ==> event@ == ReachEventView::Failed(e@),
        action is EnsureRunning ==> action@ is EnsureRunning,
        action matches ReachAction::AwaitGuest(a) ==> action@ == ReachActionView::AwaitGuest(a@),
        action matches ReachAction::ForgetPathAndRestart { reason } ==> action@ == (
        ReachActionView::ForgetPathAndRestart { reason: reason@ }),
        action matches ReachAction::Done(Ok(a)) ==> action@ == ReachActionView::Done(Ok(a@)),
        action matches ReachAction::Done(Err(e)) ==> action@ == ReachActionView::Done(Err(e@)),
{
}

/// Events and actions on the way to a session are seen as what they are.
pub proof fn law_session_reach_is_seen_as_it_is(
    bound: Bound,
    event: SessionReachEvent,
    action: SessionReachAction,
)
    ensures
        bound@.endpoint == bound.endpoint@,
        bound.fence matches Some(f) ==> bound@.fence == Some(f@),
        bound.fence is None ==> bound@.fence is None,
        event matches SessionReachEvent::Resolved(Ok(b)) ==> event@
            == SessionReachEventView::Resolved(Ok(b@)),
        event matches SessionReachEvent::Resolved(Err(e)) ==> event@
            == SessionReachEventView::Resolved(Err(e@)),
        event matches SessionReachEvent::Accessed(Ok(a)) ==> event@
            == SessionReachEventView::Accessed(Ok(a@)),
        event matches SessionReachEvent::Accessed(Err(e)) ==> event@
            == SessionReachEventView::Accessed(Err(e@)),
        event matches SessionReachEvent::Searched(Ok(Some(b))) ==> event@
            == SessionReachEventView::Searched(Ok(Some(b@))),
        event matches SessionReachEvent::Searched(Ok(None)) ==> event@
            == SessionReachEventView::Searched(Ok(None)),
        event matches SessionReachEvent::Searched(Err(e)) ==> event@
            == SessionReachEventView::Searched(Err(e@)),
        action is Resolve ==> action@ is Resolve,
        action matches SessionReachAction::Access(e) ==> action@
            == SessionReachActionView::Access(e@),
        action matches SessionReachAction::Search { endpoint, fence } ==> action@ is Search
            && action@->endpoint == endpoint@ && (fence is None <==> action@->fence is None) && (
        fence is Some ==> action@->fence == Some(fence->Some_0@)),
        action matches SessionReachAction::Done(Ok(done)) ==> action@
            == SessionReachActionView::Done(Ok((done.0@, done.1@))),
        action matches SessionReachAction::Done(Err(e)) ==> action@
            == SessionReachActionView::Done(Err(e@)),
{
}

/// The outcome of a way to a guest is seen as what it is.
pub proof fn law_access_outcome_is_seen_as_it_is(access: GuestRpcAccess, e: SandboxError)
    ensures
        access_outcome(Ok(access)) == std::result::Result::<AccessView, ErrorView>::Ok(access@),
        access_outcome(Err(e)) == std::result::Result::<AccessView, ErrorView>::Err(e@),
{
}

/// Each phase on the way to a guest awaits its own answer, or a failure.
pub proof fn law_reach_awaits_its_answers(s: ReachView, event: ReachEventView, e: ErrorView)
    ensures
        s.phase is Ensuring || s.phase is EnsuringAgain ==> (expected_reach_event(s, event)
            <==> event is Running || event is Failed),
        s.phase is Restarting ==> (expected_reach_event(s, event) <==> event is Restarted || event
            is Failed),
        s.phase is Waiting || s.phase is WaitingAgain ==> expected_reach_event(
            s,
            ReachEventView::Answered,
        ),
        (s.phase is Waiting || s.phase is WaitingAgain) && !(event is Answered) && !(event is Failed)
            ==> !expected_reach_event(s, event),
        s.phase is Waiting && !(e is GuestRpcNotReady) ==> expected_reach_event(
            s,
            ReachEventView::Failed(e),
        ),
        s.phase is Over ==> !expected_reach_event(s, event),
{
}

/// Each phase on the way to a session awaits its own answer.
pub proof fn law_session_reach_awaits_its_answers(
    phase: SessionPhaseView,
    event: SessionReachEventView,
)
    ensures
        phase is Resolving ==> (expected_session_event(phase, event) <==> event is Resolved),
        phase is Accessing || phase is AccessingMoved ==> (expected_session_event(phase, event)
            <==> event is Accessed),
        phase is Searching ==> (expected_session_event(phase, event) <==> event is Searched),
        phase is Over ==> !expected_session_event(phase, event),
{
}

} // verus!
