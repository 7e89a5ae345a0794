//! Bringing a VM to run, and waiting until its guest answers.

use crate::auth::auth_header;
use crate::auth::portproxy_auth_header_from_metadata;
use crate::endpoint::guest_rpc_endpoint;
use crate::endpoint::ready_key;
use crate::endpoint::rpc_endpoint;
use crate::error::is_rebind_candidate_error;
use crate::error::rebind_candidate;
use crate::error::status_text;
use crate::error::ErrorView;
use crate::error::GrpcStatus;
use crate::error::Result;
use crate::error::SandboxError;
use crate::span::Span;
use crate::table::StringMap;
use crate::text::same;
use crate::textmap::TextMap;
use crate::vm::guest_platform;
use crate::vm::metadata_text;
use crate::vm::opt_view;
use crate::vm::vm_guest_platform;
use crate::vm::GuestPlatform;
use crate::vm::Vm;
use crate::vm::VmState;
use crate::vm::META_PORTPROXY_AUTH_TOKEN;
use vstd::prelude::*;

verus! {

// ---------------------------------------------------------------------------
// Running
// ---------------------------------------------------------------------------
/// What brings a VM to run.
#[derive(Clone, Copy, Debug, PartialEq, Eq, Structural)]
pub enum RunAction {
    /// It runs.
    Nothing,
    Resume,
    Start,
}

/// What brings a VM in a given state to run.
pub open spec fn run_action(state: VmState) -> RunAction {
    match state {
        VmState::Running => RunAction::Nothing,
        VmState::Paused => RunAction::Resume,
        _ => RunAction::Start,
    }
}

/// What brings a VM in a given state to run. Anything but `Nothing` counts as a fresh start, and
/// makes what is known of the path to its guest void.
pub fn ensure_running_action(state: VmState) -> (action: RunAction)
    ensures
        action == run_action(state),
{
    match state {
        VmState::Running => RunAction::Nothing,
        VmState::Paused => RunAction::Resume,
        _ => RunAction::Start,
    }
}

// ---------------------------------------------------------------------------
// Access to the guest
// ---------------------------------------------------------------------------
/// How a guest is reached.
#[derive(Debug)]
pub struct GuestRpcAccess {
    pub endpoint: String,
    pub rpc_port: i32,
    pub auth_header: Option<String>,
    pub platform: GuestPlatform,
}

/// The model of a `GuestRpcAccess`.
pub struct AccessView {
    pub endpoint: Seq<char>,
    pub rpc_port: i32,
    pub auth_header: Option<Seq<char>>,
    pub platform: GuestPlatform,
}

impl View for GuestRpcAccess {
    type V = AccessView;

    open spec fn view(&self) -> AccessView {
        AccessView {
            endpoint: self.endpoint@,
            rpc_port: self.rpc_port,
            auth_header: opt_view(self.auth_header),
            platform: self.platform,
        }
    }
}

impl GuestRpcAccess {
    /// A copy.
    pub fn copy(&self) -> (access: GuestRpcAccess)
        ensures
            access@ == self@,
    {
        GuestRpcAccess {
            endpoint: self.endpoint.clone(),
            rpc_port: self.rpc_port,
            auth_header: self.auth_header.clone(),
            platform: self.platform,
        }
    }
}

/// How the guest of a VM on a node is reached: on the RPC port that the VM names, with the token
/// of its metadata.
pub open spec fn guest_access(
    overrides: Map<Seq<char>, Seq<char>>,
    vm: Vm,
    endpoint: Seq<char>,
) -> std::result::Result<AccessView, ErrorView> {
    if vm.ports is Some && vm.ports->Some_0.rpc_port > 0 {
        let rpc_port = vm.ports->Some_0.rpc_port;
        match guest_rpc_endpoint(overrides, endpoint, rpc_port) {
            Err(e) => Err(e),
            Ok(rpc) => match auth_header(metadata_text(vm.metadata@, META_PORTPROXY_AUTH_TOKEN@)) {
                Err(e) => Err(e),
                Ok(header) => Ok(
                    AccessView {
                        endpoint: rpc,
                        rpc_port,
                        auth_header: header,
                        platform: guest_platform(vm),
                    },
                ),
            },
        }
    } else {
        Err(ErrorView::InvalidResponse("VM missing rpc port"@))
    }
}

/// How the guest of a VM on a node is reached.
pub fn guest_rpc_access_from_vm(overrides: &StringMap, vm: &Vm, endpoint: &str) -> (r: Result<
    GuestRpcAccess,
>)
    ensures
        match r {
            Ok(access) => guest_access(overrides@, *vm, endpoint@) == std::result::Result::<
                AccessView,
                ErrorView,
            >::Ok(access@),
            Err(e) => guest_access(overrides@, *vm, endpoint@) == std::result::Result::<
                AccessView,
                ErrorView,
            >::Err(e@),
        },
{
    let rpc_port: i32 = match vm.ports {
        Some(ports) => ports.rpc_port,
        None => 0,
    };
    if rpc_port <= 0 {
        return Err(SandboxError::InvalidResponse("VM missing rpc port".to_owned()));
    }
    let rpc = match rpc_endpoint(overrides, endpoint, rpc_port) {
        Ok(rpc) => rpc,
        Err(e) => return Err(e),
    };
    let header = match portproxy_auth_header_from_metadata(&vm.metadata) {
        Ok(header) => header,
        Err(e) => return Err(e),
    };
    Ok(
        GuestRpcAccess {
            endpoint: rpc,
            rpc_port,
            auth_header: header,
            platform: vm_guest_platform(vm),
        },
    )
}

/// The port of the guest's proxy for forwarded connections.
pub open spec fn proxy_port_of(vm: Vm) -> std::result::Result<u16, ErrorView> {
    match vm.ports {
        None => Err(ErrorView::InvalidResponse("VM missing proxy port"@)),
        Some(ports) => if !(0 <= ports.proxy_port <= u16::MAX) {
            Err(
                ErrorView::InvalidResponse(
                    "VM reported invalid proxy port for forwarding: "@
                        + crate::numeral::signed_decimal(ports.proxy_port as int),
                ),
            )
        } else if ports.proxy_port == 0 {
            Err(ErrorView::InvalidResponse("VM reported zero proxy port for forwarding"@))
        } else {
            Ok(ports.proxy_port as u16)
        },
    }
}

/// The port of the guest's proxy for forwarded connections.
pub fn forward_proxy_port(vm: &Vm) -> (r: Result<u16>)
    ensures
        match r {
            Ok(port) => proxy_port_of(*vm) == std::result::Result::<u16, ErrorView>::Ok(port),
            Err(e) => proxy_port_of(*vm) == std::result::Result::<u16, ErrorView>::Err(e@),
        },
{
    let port: i32 = match vm.ports {
        Some(ports) => ports.proxy_port,
        None => return Err(SandboxError::InvalidResponse("VM missing proxy port".to_owned())),
    };
    if port < 0 || port > 65535 {
        let shown = crate::numeral::to_signed_decimal(port as i64);
        return Err(
            SandboxError::InvalidResponse(
                "VM reported invalid proxy port for forwarding: ".to_owned().concat(&shown),
            ),
        );
    }
    if port == 0 {
        return Err(
            SandboxError::InvalidResponse("VM reported zero proxy port for forwarding".to_owned()),
        );
    }
    Ok(port as u16)
}

// ---------------------------------------------------------------------------
// What is known to be ready
// ---------------------------------------------------------------------------
/// What is known of the paths to guests: which answered, and over which endpoint each is reached.
#[derive(Debug)]
pub struct ReadyPaths {
    ready: TextMap<GuestRpcAccess>,
    channels: TextMap<String>,
}

/// The key of a VM on an endpoint.
pub open spec fn path_key(endpoint: Seq<char>, vm_id: Seq<char>) -> Seq<char> {
    endpoint + "::"@ + vm_id
}

impl ReadyPaths {
    /// The guests that answered, by key.
    pub closed spec fn ready(&self) -> Map<Seq<char>, AccessView> {
        self.ready@.map_values(|a: GuestRpcAccess| a@)
    }

    /// The endpoints to which channels are open, by key.
    pub closed spec fn channels(&self) -> Map<Seq<char>, Seq<char>> {
        self.channels@.map_values(|s: String| s@)
    }

    /// Nothing is known.
    pub fn new() -> (paths: ReadyPaths)
        ensures
            paths.ready() == Map::<Seq<char>, AccessView>::empty(),
            paths.channels() == Map::<Seq<char>, Seq<char>>::empty(),
    {
        let paths = ReadyPaths { ready: TextMap::new(), channels: TextMap::new() };
        assert(paths.ready() =~= Map::<Seq<char>, AccessView>::empty());
        assert(paths.channels() =~= Map::<Seq<char>, Seq<char>>::empty());
        paths
    }

    /// How a guest that answered is reached.
    pub fn cached_guest_rpc_access(&self, vm_id: &str, endpoint: &str) -> (access: Option<
        GuestRpcAccess,
    >)
        ensures
            match access {
                Some(a) => self.ready().contains_key(path_key(endpoint@, vm_id@))
                    && self.ready()[path_key(endpoint@, vm_id@)] == a@,
                None => !self.ready().contains_key(path_key(endpoint@, vm_id@)),
            },
    {
        let key = ready_key(endpoint, vm_id);
        match self.ready.get(&key) {
            Some(access) => Some(access.copy()),
            None => None,
        }
    }

    /// Whether a guest answered over the very path that `access` names.
    pub fn is_ready(&self, vm_id: &str, endpoint: &str, access: &GuestRpcAccess) -> (yes: bool)
        ensures
            yes == (self.ready().contains_key(path_key(endpoint@, vm_id@)) && {
                let cached = self.ready()[path_key(endpoint@, vm_id@)];
                cached.rpc_port == access.rpc_port && cached.endpoint == access.endpoint@
                    && cached.platform == access.platform
            }),
    {
        let key = ready_key(endpoint, vm_id);
        match self.ready.get(&key) {
            Some(cached) => cached.rpc_port == access.rpc_port && same(
                &cached.endpoint,
                &access.endpoint,
            ) && cached.platform == access.platform,
            None => false,
        }
    }

    /// Notes that a guest answered.
    pub fn mark_ready(&mut self, vm_id: &str, endpoint: &str, access: GuestRpcAccess)
        ensures
            final(self).ready() == old(self).ready().insert(path_key(endpoint@, vm_id@), access@),
            final(self).channels() == old(self).channels(),
    {
        let key = ready_key(endpoint, vm_id);
        self.ready.insert(key, access);
        assert(self.ready() =~= old(self).ready().insert(path_key(endpoint@, vm_id@), access@));
    }

    /// Whether the open channel to a guest can be used for an RPC endpoint; where it cannot, the
    /// place is taken for a new one.
    pub fn reuse_channel(&mut self, vm_id: &str, endpoint: &str, rpc_endpoint: &str) -> (reuse: bool)
        ensures
            reuse == (old(self).channels().contains_key(path_key(endpoint@, vm_id@)) && old(
                self,
            ).channels()[path_key(endpoint@, vm_id@)] == rpc_endpoint@),
            final(self).channels() == old(self).channels().insert(
                path_key(endpoint@, vm_id@),
                rpc_endpoint@,
            ),
            final(self).ready() == old(self).ready(),
    {
        let key = ready_key(endpoint, vm_id);
        let reuse: bool = match self.channels.get(&key) {
            Some(open) => same(open, rpc_endpoint),
            None => false,
        };
        if reuse {
            assert(self.channels() =~= old(self).channels().insert(
                path_key(endpoint@, vm_id@),
                rpc_endpoint@,
            ));
            return true;
        }
        self.channels.insert(key, rpc_endpoint.to_owned());
        assert(self.channels() =~= old(self).channels().insert(
            path_key(endpoint@, vm_id@),
            rpc_endpoint@,
        ));
        false
    }

    /// Forgets what is known of the path to a guest.
    pub fn invalidate_ready_vm_rpc(&mut self, vm_id: &str, endpoint: &str)
        ensures
            final(self).ready() == old(self).ready().remove(path_key(endpoint@, vm_id@)),
            final(self).channels() == old(self).channels().remove(path_key(endpoint@, vm_id@)),
    {
        let key = ready_key(endpoint, vm_id);
        let _ = self.ready.remove(&key);
        let _ = self.channels.remove(&key);
        assert(self.ready() =~= old(self).ready().remove(path_key(endpoint@, vm_id@)));
        assert(self.channels() =~= old(self).channels().remove(path_key(endpoint@, vm_id@)));
    }
}

// ---------------------------------------------------------------------------
// Waiting
// ---------------------------------------------------------------------------
/// The number of probes in a row that must succeed.
pub const READY_PROBES: u8 = 2;

/// What to do after a probe.
#[derive(Clone, Copy, Debug, PartialEq, Eq, Structural)]
pub enum ProbeStep {
    Ready,
    /// Wait for this many milliseconds, then probe again.
    WaitMillis(u64),
}

/// The probes of a guest.
#[derive(Clone, Copy, Debug, PartialEq, Eq, Structural)]
pub struct ProbeSeries {
    pub consecutive_successes: u8,
}

impl ProbeSeries {
    /// Fewer probes in a row have succeeded than must.
    pub open spec fn wf(self) -> bool {
        self.consecutive_successes < READY_PROBES
    }

    /// Before the first probe.
    pub fn new() -> (s: ProbeSeries)
        ensures
            s.wf(),
            s.consecutive_successes == 0,
    {
        ProbeSeries { consecutive_successes: 0 }
    }

    /// Takes the outcome of a probe.
    pub fn probed(&mut self, answered: bool) -> (step: ProbeStep)
        requires
            old(self).wf(),
        ensures
            final(self).consecutive_successes == in_a_row(
                old(self).consecutive_successes as nat,
                answered,
            ),
            step is Ready <==> !final(self).wf(),
            step matches ProbeStep::WaitMillis(ms) ==> ms == if answered {
                200u64
            } else {
                250u64
            },
    {
        if answered {
            self.consecutive_successes = self.consecutive_successes + 1;
            if self.consecutive_successes < READY_PROBES {
                return ProbeStep::WaitMillis(200);
            }
            return ProbeStep::Ready;
        }
        self.consecutive_successes = 0;
        ProbeStep::WaitMillis(250)
    }
}

/// How many probes in a row have succeeded after one more.
pub open spec fn in_a_row(before: nat, answered: bool) -> nat {
    if answered {
        before + 1
    } else {
        0
    }
}

/// How many probes in a row have succeeded at the end of a series.
pub open spec fn in_a_row_after(answers: Seq<bool>) -> nat
    decreases answers.len(),
{
    if answers.len() == 0 {
        0
    } else {
        in_a_row(in_a_row_after(answers.drop_last()), answers.last())
    }
}

/// A guest is ready with the first two answers in a row, and not before.
pub proof fn law_ready_guest_has_answered_twice_in_a_row(answers: Seq<bool>)
    requires
        answers.len() > 0 ==> in_a_row_after(answers.drop_last()) < READY_PROBES,
    ensures
        in_a_row_after(answers) >= READY_PROBES <==> answers.len() >= 2 && answers.last()
            && answers[answers.len() - 2],
{
    if answers.len() > 0 {
        let before = answers.drop_last();
        if before.len() > 0 {
            assert(before.last() == answers[answers.len() - 2]);
            reveal_with_fuel(in_a_row_after, 2);
        }
    }
}

/// The error of a guest that stayed silent.
pub fn not_ready_error(vm_id: &str, rpc_endpoint: &str, waited: Span) -> (e: SandboxError)
    ensures
        e@ == (ErrorView::GuestRpcNotReady {
            vm_id: vm_id@,
            endpoint: rpc_endpoint@,
            waited,
            restarted: false,
        }),
        waited.wf() ==> e.wf(),
{
    SandboxError::GuestRpcNotReady {
        vm_id: vm_id.to_owned(),
        endpoint: rpc_endpoint.to_owned(),
        waited,
        restarted: false,
    }
}

/// What may be done about a running VM whose guest stays silent.
#[derive(Clone, Copy, Debug, PartialEq, Eq, Structural)]
pub enum ReadinessRecovery {
    /// The VM was created or started by the operation at hand: report, and let it boot.
    FreshBoot,
    /// The VM may have run for long: one restart, unless this very call started it.
    RestartIfNotFreshlyStarted,
}

/// What follows where a guest could not be reached.
#[derive(Debug)]
pub enum ReadinessStep {
    /// Report the error.
    Report(SandboxError),
    /// Restart the VM once and wait again.
    RestartOnce(SandboxError),
}

/// The error calls for the one local restart.
pub open spec fn calls_for_restart(
    e: ErrorView,
    freshly_started: bool,
    recovery: ReadinessRecovery,
) -> bool {
    &&& !freshly_started
    &&& recovery != ReadinessRecovery::FreshBoot
    &&& (e is GuestRpcNotReady || rebind_candidate(e))
}

/// Decides what follows where a guest could not be reached.
pub fn readiness_failure(
    error: SandboxError,
    freshly_started: bool,
    recovery: ReadinessRecovery,
) -> (step: ReadinessStep)
    ensures
        match step {
            ReadinessStep::Report(e) => e == error && !calls_for_restart(
                error@,
                freshly_started,
                recovery,
            ),
            ReadinessStep::RestartOnce(e) => e == error && calls_for_restart(
                error@,
                freshly_started,
                recovery,
            ),
        },
{
    if freshly_started || recovery == ReadinessRecovery::FreshBoot {
        return ReadinessStep::Report(error);
    }
    let silent: bool = match &error {
        SandboxError::GuestRpcNotReady { .. } => true,
        _ => false,
    };
    if silent || is_rebind_candidate_error(&error) {
        return ReadinessStep::RestartOnce(error);
    }
    ReadinessStep::Report(error)
}

/// A VM that the operation at hand has started is never restarted by it.
pub proof fn law_fresh_boot_is_never_restarted(
    e: ErrorView,
    freshly_started: bool,
    recovery: ReadinessRecovery,
)
    requires
        freshly_started || recovery == ReadinessRecovery::FreshBoot,
    ensures
        !calls_for_restart(e, freshly_started, recovery),
{
}

/// The time that was waited before a restart.
pub open spec fn waited_before(cause: ErrorView) -> Span {
    match cause {
        ErrorView::GuestRpcNotReady { waited, .. } => waited,
        _ => Span { secs: 0, nanos: 0 },
    }
}

/// The error of a VM whose guest could not be reached after the restart: of a silent guest, the
/// whole wait and the note that it was restarted.
pub fn failure_after_restart(cause: &SandboxError, error: SandboxError) -> (e: SandboxError)
    requires
        cause.wf(),
        error.wf(),
        error@ is GuestRpcNotReady ==> waited_before(cause@).total() + waited_before(error@).total()
            <= Span::max_total(),
    ensures
        match error@ {
            ErrorView::GuestRpcNotReady { vm_id, endpoint, waited, .. } => match e@ {
                ErrorView::GuestRpcNotReady {
                    vm_id: v,
                    endpoint: p,
                    waited: w,
                    restarted,
                } => v == vm_id && p == endpoint && restarted && w.wf() && w.total()
                    == waited_before(cause@).total() + waited.total(),
                _ => false,
            },
            _ => e == error,
        },
{
    let already_waited = match cause {
        SandboxError::GuestRpcNotReady { waited, .. } => *waited,
        _ => Span { secs: 0, nanos: 0 },
    };
    match error {
        SandboxError::GuestRpcNotReady { vm_id, endpoint, waited, .. } => {
            SandboxError::GuestRpcNotReady {
                vm_id,
                endpoint,
                waited: already_waited.plus(&waited),
                restarted: true,
            }
        },
        other => other,
    }
}

/// A guest that stays silent after the restart lets the session look for another endpoint; one
/// that is still booting never does.
pub proof fn law_only_restarted_guest_moves(e: ErrorView)
    requires
        e is GuestRpcNotReady,
    ensures
        rebind_candidate(e) == e->GuestRpcNotReady_restarted,
{
}

/// The error of a restart that failed, with what had called for it.
pub fn restart_failure(vm_id: &str, endpoint: &str, reason: &str, status: &GrpcStatus) -> (e:
    SandboxError)
    ensures
        e@ == ErrorView::DaemonUnavailable(
            "restart of vm "@ + vm_id@ + " on "@ + endpoint@ + " (triggered by: "@ + reason@
                + ") failed: "@ + status_text(status@),
        ),
{
    let shown = status.text();
    SandboxError::DaemonUnavailable(
        "restart of vm ".to_owned().concat(vm_id).concat(" on ").concat(endpoint).concat(
            " (triggered by: ",
        ).concat(reason).concat(") failed: ").concat(&shown),
    )
}

// ---------------------------------------------------------------------------
// What brings a guest within reach
// ---------------------------------------------------------------------------
/// A running VM is left alone, a paused one is resumed, and every other one is started.
pub proof fn law_vm_is_brought_to_run(state: VmState)
    ensures
        run_action(VmState::Running) == RunAction::Nothing,
        run_action(VmState::Paused) == RunAction::Resume,
        state != VmState::Running && state != VmState::Paused ==> run_action(state)
            == RunAction::Start,
{
}

/// A guest is reached on the port that its VM names for that, with the token that the VM's metadata
/// holds for it, and as the platform that the VM is.
pub proof fn law_guest_is_reached_as_vm_names(
    overrides: Map<Seq<char>, Seq<char>>,
    vm: Vm,
    endpoint: Seq<char>,
)
    ensures
        vm.ports is None || vm.ports->Some_0.rpc_port <= 0 ==> guest_access(overrides, vm, endpoint)
            is Err,
        guest_access(overrides, vm, endpoint) matches Ok(access) ==> {
            &&& vm.ports is Some
            &&& access.rpc_port == vm.ports->Some_0.rpc_port
            &&& access.rpc_port > 0
            &&& guest_rpc_endpoint(overrides, endpoint, access.rpc_port)
                == std::result::Result::<Seq<char>, ErrorView>::Ok(access.endpoint)
            &&& access.platform == guest_platform(vm)
            &&& !vm.metadata@.contains_key("chevalier.portproxy_auth_token"@) ==> access.auth_header
                is None
            &&& vm.metadata@.contains_key("chevalier.portproxy_auth_token"@)
                && crate::text::trimmed(vm.metadata@["chevalier.portproxy_auth_token"@]).len() > 0
                ==> auth_header(
                Some(crate::text::trimmed(vm.metadata@["chevalier.portproxy_auth_token"@])),
            ) == std::result::Result::<Option<Seq<char>>, ErrorView>::Ok(access.auth_header)
        },
{
}

/// Connections are forwarded to the proxy port that a VM names, and to no other; a VM that names none,
/// or one that is no port, is an error.
pub proof fn law_connections_go_to_proxy_port(vm: Vm)
    ensures
        match proxy_port_of(vm) {
            Ok(port) => vm.ports is Some && port == vm.ports->Some_0.proxy_port && port > 0,
            Err(_) => vm.ports is None || vm.ports->Some_0.proxy_port <= 0
                || vm.ports->Some_0.proxy_port > 65535,
        },
{
}

/// A guest that stays silent, or a broken channel to it, calls for the one restart of a VM that ran
/// before; nothing else does.
pub proof fn law_silent_guest_calls_for_restart(e: ErrorView, recovery: ReadinessRecovery)
    ensures
        e is GuestRpcNotReady ==> calls_for_restart(
            e,
            false,
            ReadinessRecovery::RestartIfNotFreshlyStarted,
        ),
        rebind_candidate(e) ==> calls_for_restart(
            e,
            false,
            ReadinessRecovery::RestartIfNotFreshlyStarted,
        ),
        !(e is GuestRpcNotReady) && !rebind_candidate(e) ==> !calls_for_restart(e, false, recovery),
        !calls_for_restart(e, true, recovery),
        !calls_for_restart(e, false, ReadinessRecovery::FreshBoot),
{
}

/// What is known of a path is kept by its endpoint and VM: two VMs on one endpoint, and one VM on two
/// endpoints of one length, are not mixed up.
pub proof fn law_paths_are_told_apart(
    a: Seq<char>,
    b: Seq<char>,
    x: Seq<char>,
    y: Seq<char>,
)
    ensures
        path_key(a, x) == path_key(a, y) ==> x == y,
        a.len() == b.len() && path_key(a, x) == path_key(b, y) ==> a == b && x == y,
{
    reveal_strlit("::");
    if path_key(a, x) == path_key(a, y) {
        assert(x =~= path_key(a, x).skip((a.len() + 2) as int));
        assert(y =~= path_key(a, y).skip((a.len() + 2) as int));
    }
    if a.len() == b.len() && path_key(a, x) == path_key(b, y) {
        assert(a =~= path_key(a, x).take(a.len() as int));
        assert(b =~= path_key(b, y).take(a.len() as int));
        assert(x =~= path_key(a, x).skip((a.len() + 2) as int));
        assert(y =~= path_key(b, y).skip((a.len() + 2) as int));
    }
}

/// Two answers in a row make a guest ready; a silence in between makes it begin again.
pub proof fn law_silence_begins_again(before: nat)
    ensures
        in_a_row(before, false) == 0,
        in_a_row(before, true) == before + 1,
        READY_PROBES == 2,
{
}

/// The way to a guest is seen as what it is.
pub proof fn law_access_is_seen_as_it_is(a: GuestRpcAccess)
    ensures
        a@.endpoint == a.endpoint@ && a@.rpc_port == a.rpc_port && a@.platform == a.platform,
        a.auth_header matches Some(h) ==> a@.auth_header == Some(h@),
        a.auth_header is None ==> a@.auth_header is None,
{
}

/// The time that was waited before is that of the silence before; another failure took none.
pub proof fn law_silence_before_is_counted(e: ErrorView)
    ensures
        e matches ErrorView::GuestRpcNotReady { waited, .. } ==> waited_before(e) == waited,
        !(e is GuestRpcNotReady) ==> waited_before(e).total() == 0,
{
}

/// A VM whose ports are missing, or are none, is told so.
pub proof fn law_missing_ports_are_told(
    vm: Vm,
    overrides: Map<Seq<char>, Seq<char>>,
    endpoint: Seq<char>,
)
    ensures
        vm.ports is None || vm.ports->Some_0.rpc_port <= 0 ==> guest_access(overrides, vm, endpoint)
            == std::result::Result::<AccessView, ErrorView>::Err(
            ErrorView::InvalidResponse("VM missing rpc port"@),
        ),
        vm.ports is None ==> proxy_port_of(vm) == std::result::Result::<u16, ErrorView>::Err(
            ErrorView::InvalidResponse("VM missing proxy port"@),
        ),
        vm.ports is Some && vm.ports->Some_0.proxy_port == 0 ==> proxy_port_of(vm)
            == std::result::Result::<u16, ErrorView>::Err(
            ErrorView::InvalidResponse("VM reported zero proxy port for forwarding"@),
        ),
        vm.ports is Some && !(0 <= vm.ports->Some_0.proxy_port <= 65535) ==> proxy_port_of(vm)
            == std::result::Result::<u16, ErrorView>::Err(
            ErrorView::InvalidResponse(
                "VM reported invalid proxy port for forwarding: "@ + crate::numeral::signed_decimal(
                    vm.ports->Some_0.proxy_port as int,
                ),
            ),
        ),
{
}

/// A guest is ready with the second answer in a row, not before and not later.
pub proof fn law_second_answer_makes_ready(series: ProbeSeries)
    ensures
        series.wf() <==> series.consecutive_successes < 2,
        series.wf() && in_a_row(series.consecutive_successes as nat, true) >= 2
            ==> series.consecutive_successes == 1,
{
}

} // verus!
