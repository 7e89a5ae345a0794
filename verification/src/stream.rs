//! Commands run through the control plane of a cluster: the stream of their events, which
//! survives the loss of a node, and the sequence of their inputs.

use crate::error::outcome;
use crate::error::ErrorView;
use crate::error::Result;
use crate::error::SandboxError;
use crate::exec::event_model;
use crate::exec::EventModel;
use crate::exec::ExecEvent;
use crate::exec::ExecEventView;
use crate::exec::TIMEOUT_EXIT_CODE;
use crate::numeral::decimal;
use crate::numeral::to_decimal;
use crate::span::Span;
use crate::text::same;
use crate::text::trim;
use crate::text::trimmed;
use crate::vm::opt_view;
use vstd::prelude::*;

verus! {

/// The number of recoveries that may fail in a row; the last of them ends the stream.
pub const MAX_STALL_RECOVERY_ATTEMPTS: u32 = 5;

/// The number of silent intervals in a row after which a recovery starts.
pub const REBIND_IDLE_TIMEOUT_STRIKES: u32 = 3;

/// Where a stream is produced.
#[derive(Debug)]
pub struct StreamRoute {
    pub endpoint: String,
    pub stream_id: String,
    pub target_node_id: String,
    pub producer_epoch: u64,
}

/// The model of a `StreamRoute`.
pub struct RouteView {
    pub endpoint: Seq<char>,
    pub stream_id: Seq<char>,
    pub target_node_id: Seq<char>,
    pub producer_epoch: u64,
}

impl View for StreamRoute {
    type V = RouteView;

    open spec fn view(&self) -> RouteView {
        RouteView {
            endpoint: self.endpoint@,
            stream_id: self.stream_id@,
            target_node_id: self.target_node_id@,
            producer_epoch: self.producer_epoch,
        }
    }
}

/// An event of a stream as its producer sends it. Events are numbered from one; zero marks an
/// event without a number.
#[derive(Debug)]
pub struct ExecStreamEvent {
    pub event_seq: u64,
    pub kind: String,
    pub data: Vec<u8>,
    pub exit_code: Option<i32>,
    pub timed_out: bool,
    pub error: Option<String>,
}

/// The model of an `ExecStreamEvent`.
pub struct StreamEventView {
    pub event_seq: u64,
    pub kind: Seq<char>,
    pub data: Seq<u8>,
    pub exit_code: Option<i32>,
    pub timed_out: bool,
    pub error: Option<Seq<char>>,
}

impl View for ExecStreamEvent {
    type V = StreamEventView;

    open spec fn view(&self) -> StreamEventView {
        StreamEventView {
            event_seq: self.event_seq,
            kind: self.kind@,
            data: self.data@,
            exit_code: self.exit_code,
            timed_out: self.timed_out,
            error: opt_view(self.error),
        }
    }
}

/// What happens to a stream.
#[derive(Debug)]
pub enum StreamInput {
    /// Nothing came for an interval.
    Idle,
    /// The subscription ended.
    Ended,
    /// The subscription failed.
    Failed(SandboxError),
    /// An event came.
    Event(ExecStreamEvent),
    /// The recovery that was asked for found the stream again.
    Rebound(StreamRoute),
    /// The recovery that was asked for did not find it.
    RebindFailed,
}

/// The model of a `StreamInput`.
pub enum StreamInputView {
    Idle,
    Ended,
    Failed(ErrorView),
    Event(StreamEventView),
    Rebound(RouteView),
    RebindFailed,
}

impl View for StreamInput {
    type V = StreamInputView;

    open spec fn view(&self) -> StreamInputView {
        match self {
            StreamInput::Idle => StreamInputView::Idle,
            StreamInput::Ended => StreamInputView::Ended,
            StreamInput::Failed(e) => StreamInputView::Failed(e@),
            StreamInput::Event(e) => StreamInputView::Event(e@),
            StreamInput::Rebound(r) => StreamInputView::Rebound(r@),
            StreamInput::RebindFailed => StreamInputView::RebindFailed,
        }
    }
}

/// What to do next.
#[derive(Clone, Copy, Debug, PartialEq, Eq, Structural)]
pub enum StreamNext {
    /// Wait for the next event, an interval at most.
    Receive,
    /// Look for the stream again, from the last event that was handed on.
    Rebind,
    /// Nothing: the stream is over.
    Stop,
}

/// An event to hand on, where there is one, and what to do next.
#[derive(Debug)]
pub struct StreamStep {
    pub emit: Option<Result<ExecEvent>>,
    pub next: StreamNext,
}

/// Why the stream is being looked for again.
#[derive(Debug)]
pub enum Recovery {
    NotNeeded,
    AfterSilence,
    AfterEnd,
    AfterFailure(SandboxError),
}

/// The model of a `Recovery`.
pub enum RecoveryView {
    NotNeeded,
    AfterSilence,
    AfterEnd,
    AfterFailure(ErrorView),
}

impl View for Recovery {
    type V = RecoveryView;

    open spec fn view(&self) -> RecoveryView {
        match self {
            Recovery::NotNeeded => RecoveryView::NotNeeded,
            Recovery::AfterSilence => RecoveryView::AfterSilence,
            Recovery::AfterEnd => RecoveryView::AfterEnd,
            Recovery::AfterFailure(e) => RecoveryView::AfterFailure(e@),
        }
    }
}

/// The reader's side of a stream.
#[derive(Debug)]
pub struct ExecStream {
    route: StreamRoute,
    last_committed_event_seq: u64,
    stall_recovery_attempts: u32,
    idle_timeout_strikes: u32,
    recovery: Recovery,
}

/// The model of an `ExecStream`.
pub struct StreamView {
    pub route: RouteView,
    pub last_committed_event_seq: u64,
    pub stall_recovery_attempts: u32,
    pub idle_timeout_strikes: u32,
    pub recovery: RecoveryView,
}

impl View for ExecStream {
    type V = StreamView;

    closed spec fn view(&self) -> StreamView {
        StreamView {
            route: self.route@,
            last_committed_event_seq: self.last_committed_event_seq,
            stall_recovery_attempts: self.stall_recovery_attempts,
            idle_timeout_strikes: self.idle_timeout_strikes,
            recovery: self.recovery@,
        }
    }
}

/// The model of a `StreamStep`.
pub struct StepView {
    pub emit: Option<EventModel>,
    pub next: StreamNext,
}

/// The model of a `StreamStep`.
pub open spec fn step_view(step: StreamStep) -> StepView {
    StepView {
        emit: match step.emit {
            Some(e) => Some(event_model(e)),
            None => None,
        },
        next: step.next,
    }
}

// ---------------------------------------------------------------------------
// The transition
// ---------------------------------------------------------------------------
/// The stream takes an event only while it waits for one, and the outcome of a recovery only
/// while it recovers.
pub open spec fn expected_input(s: StreamView, input: StreamInputView) -> bool {
    match input {
        StreamInputView::Rebound(_) | StreamInputView::RebindFailed => !(s.recovery is NotNeeded),
        _ => s.recovery is NotNeeded,
    }
}

/// What an event means for the reader: something to hand on, and whether it is the last.
pub open spec fn delivered(event: StreamEventView) -> StepView {
    if event.kind == "stdout"@ {
        StepView {
            emit: Some(Ok(ExecEventView::Stdout(event.data))),
            next: StreamNext::Receive,
        }
    } else if event.kind == "stderr"@ {
        StepView {
            emit: Some(Ok(ExecEventView::Stderr(event.data))),
            next: StreamNext::Receive,
        }
    } else if event.kind == "timeout"@ {
        StepView { emit: Some(Ok(ExecEventView::Timeout)), next: StreamNext::Receive }
    } else if event.kind == "exit"@ {
        StepView {
            emit: Some(
                match event.exit_code {
                    Some(code) => Ok(ExecEventView::Exit(code)),
                    None => if event.timed_out {
                        Ok(ExecEventView::Exit(TIMEOUT_EXIT_CODE))
                    } else {
                        Err(
                            ErrorView::InvalidResponse(
                                "distributed exec stream exit event missing exit code"@,
                            ),
                        )
                    },
                },
            ),
            next: StreamNext::Stop,
        }
    } else if event.kind == "error"@ {
        StepView {
            emit: Some(
                Err(
                    ErrorView::DaemonUnavailable(
                        match event.error {
                            Some(message) => if trimmed(message).len() > 0 {
                                message
                            } else {
                                "distributed exec stream failed with unspecified error"@
                            },
                            None => "distributed exec stream failed with unspecified error"@,
                        },
                    ),
                ),
            ),
            next: StreamNext::Stop,
        }
    } else {
        StepView { emit: None, next: StreamNext::Receive }
    }
}

/// The event was handed on before.
pub open spec fn is_replay(s: StreamView, event: StreamEventView) -> bool {
    0 < event.event_seq <= s.last_committed_event_seq
}

/// What is reported when the last recovery has failed.
pub open spec fn exhausted(recovery: RecoveryView) -> ErrorView {
    match recovery {
        RecoveryView::AfterFailure(e) => e,
        RecoveryView::AfterEnd => ErrorView::DaemonUnavailable(
            "distributed exec stream ended and recovery exhausted; command was not replayed"@,
        ),
        _ => ErrorView::DaemonUnavailable(
            "distributed exec stream stalled after recovery attempts; command was not replayed"@,
        ),
    }
}

/// The stream after an input, and what follows from it.
pub open spec fn stream_step(s: StreamView, input: StreamInputView) -> (StreamView, StepView) {
    match input {
        StreamInputView::Idle => if s.idle_timeout_strikes + 1 < REBIND_IDLE_TIMEOUT_STRIKES {
            (
                StreamView {
                    idle_timeout_strikes: (s.idle_timeout_strikes + 1) as u32,
                    ..s
                },
                StepView { emit: None, next: StreamNext::Receive },
            )
        } else {
            (
                StreamView {
                    idle_timeout_strikes: 0,
                    recovery: RecoveryView::AfterSilence,
                    ..s
                },
                StepView { emit: None, next: StreamNext::Rebind },
            )
        },
        StreamInputView::Ended => (
            StreamView { idle_timeout_strikes: 0, recovery: RecoveryView::AfterEnd, ..s },
            StepView { emit: None, next: StreamNext::Rebind },
        ),
        StreamInputView::Failed(e) => (
            StreamView {
                idle_timeout_strikes: 0,
                recovery: RecoveryView::AfterFailure(e),
                ..s
            },
            StepView { emit: None, next: StreamNext::Rebind },
        ),
        StreamInputView::Event(event) => if is_replay(s, event) {
            (
                StreamView { idle_timeout_strikes: 0, ..s },
                StepView { emit: None, next: StreamNext::Receive },
            )
        } else {
            (
                StreamView {
                    last_committed_event_seq: if event.event_seq > 0 {
                        event.event_seq
                    } else {
                        s.last_committed_event_seq
                    },
                    stall_recovery_attempts: 0,
                    idle_timeout_strikes: 0,
                    ..s
                },
                delivered(event),
            )
        },
        StreamInputView::Rebound(route) => (
            StreamView {
                route,
                stall_recovery_attempts: 0,
                idle_timeout_strikes: 0,
                recovery: RecoveryView::NotNeeded,
                ..s
            },
            StepView { emit: None, next: StreamNext::Receive },
        ),
        StreamInputView::RebindFailed => if s.stall_recovery_attempts + 1
            >= MAX_STALL_RECOVERY_ATTEMPTS {
            (
                StreamView {
                    stall_recovery_attempts: (s.stall_recovery_attempts + 1) as u32,
                    recovery: RecoveryView::NotNeeded,
                    ..s
                },
                StepView { emit: Some(Err(exhausted(s.recovery))), next: StreamNext::Stop },
            )
        } else {
            (
                StreamView {
                    stall_recovery_attempts: (s.stall_recovery_attempts + 1) as u32,
                    recovery: RecoveryView::NotNeeded,
                    ..s
                },
                StepView {
                    emit: Some(Ok(ExecEventView::Timeout)),
                    next: StreamNext::Receive,
                },
            )
        },
    }
}

/// The counters are below the limits at which they act.
pub open spec fn stream_wf(s: StreamView) -> bool {
    s.stall_recovery_attempts < MAX_STALL_RECOVERY_ATTEMPTS && s.idle_timeout_strikes
        < REBIND_IDLE_TIMEOUT_STRIKES
}

fn deliver(event: ExecStreamEvent) -> (step: StreamStep)
    ensures
        step_view(step) == delivered(event@),
{
    if same(&event.kind, "stdout") {
        return StreamStep {
            emit: Some(Ok(ExecEvent::Stdout(event.data))),
            next: StreamNext::Receive,
        };
    }
    if same(&event.kind, "stderr") {
        return StreamStep {
            emit: Some(Ok(ExecEvent::Stderr(event.data))),
            next: StreamNext::Receive,
        };
    }
    if same(&event.kind, "timeout") {
        return StreamStep { emit: Some(Ok(ExecEvent::Timeout)), next: StreamNext::Receive };
    }
    if same(&event.kind, "exit") {
        let last: Result<ExecEvent> = match event.exit_code {
            Some(code) => Ok(ExecEvent::Exit(code)),
            None => if event.timed_out {
                Ok(ExecEvent::Exit(TIMEOUT_EXIT_CODE))
            } else {
                Err(
                    SandboxError::InvalidResponse(
                        "distributed exec stream exit event missing exit code".to_owned(),
                    ),
                )
            },
        };
        return StreamStep { emit: Some(last), next: StreamNext::Stop };
    }
    if same(&event.kind, "error") {
        let message = match event.error {
            Some(message) => if trim(&message).as_str().is_empty() {
                "distributed exec stream failed with unspecified error".to_owned()
            } else {
                message
            },
            None => "distributed exec stream failed with unspecified error".to_owned(),
        };
        return StreamStep {
            emit: Some(Err(SandboxError::DaemonUnavailable(message))),
            next: StreamNext::Stop,
        };
    }
    StreamStep { emit: None, next: StreamNext::Receive }
}

impl ExecStream {
    /// The stream before its first event.
    pub fn new(route: StreamRoute) -> (s: ExecStream)
        ensures
            stream_wf(s@),
            s@ == (StreamView {
                route: route@,
                last_committed_event_seq: 0,
                stall_recovery_attempts: 0,
                idle_timeout_strikes: 0,
                recovery: RecoveryView::NotNeeded,
            }),
    {
        ExecStream {
            route,
            last_committed_event_seq: 0,
            stall_recovery_attempts: 0,
            idle_timeout_strikes: 0,
            recovery: Recovery::NotNeeded,
        }
    }

    /// Where the stream is produced now.
    pub fn route(&self) -> (route: &StreamRoute)
        ensures
            route@ == self@.route,
    {
        &self.route
    }

    /// The number of the last event that was handed on.
    pub fn last_committed_event_seq(&self) -> (seq: u64)
        ensures
            seq == self@.last_committed_event_seq,
    {
        self.last_committed_event_seq
    }

    /// Takes what happened, and says what follows from it. After `StreamNext::Stop` the stream
    /// takes nothing more.
    pub fn step(&mut self, input: StreamInput) -> (step: StreamStep)
        requires
            stream_wf(old(self)@),
            expected_input(old(self)@, input@),
        ensures
            (final(self)@, step_view(step)) == stream_step(old(self)@, input@),
            !(step.next is Stop) ==> stream_wf(final(self)@),
    {
        match input {
            StreamInput::Idle => {
                self.idle_timeout_strikes = self.idle_timeout_strikes + 1;
                if self.idle_timeout_strikes < REBIND_IDLE_TIMEOUT_STRIKES {
                    return StreamStep { emit: None, next: StreamNext::Receive };
                }
                self.idle_timeout_strikes = 0;
                self.recovery = Recovery::AfterSilence;
                StreamStep { emit: None, next: StreamNext::Rebind }
            },
            StreamInput::Ended => {
                self.idle_timeout_strikes = 0;
                self.recovery = Recovery::AfterEnd;
                StreamStep { emit: None, next: StreamNext::Rebind }
            },
            StreamInput::Failed(error) => {
                self.idle_timeout_strikes = 0;
                self.recovery = Recovery::AfterFailure(error);
                StreamStep { emit: None, next: StreamNext::Rebind }
            },
            StreamInput::Event(event) => {
                self.idle_timeout_strikes = 0;
                if event.event_seq > 0 {
                    if event.event_seq <= self.last_committed_event_seq {
                        return StreamStep { emit: None, next: StreamNext::Receive };
                    }
                    self.last_committed_event_seq = event.event_seq;
                }
                self.stall_recovery_attempts = 0;
                deliver(event)
            },
            StreamInput::Rebound(route) => {
                self.route = route;
                self.stall_recovery_attempts = 0;
                self.idle_timeout_strikes = 0;
                self.recovery = Recovery::NotNeeded;
                StreamStep { emit: None, next: StreamNext::Receive }
            },
            StreamInput::RebindFailed => {
                self.stall_recovery_attempts = self.stall_recovery_attempts + 1;
                let mut reason = Recovery::NotNeeded;
                core::mem::swap(&mut reason, &mut self.recovery);
                if self.stall_recovery_attempts >= MAX_STALL_RECOVERY_ATTEMPTS {
                    let error = match reason {
                        Recovery::AfterFailure(error) => error,
                        Recovery::AfterEnd => SandboxError::DaemonUnavailable(
                            "distributed exec stream ended and recovery exhausted; command was not replayed".to_owned(),
                        ),
                        _ => SandboxError::DaemonUnavailable(
                            "distributed exec stream stalled after recovery attempts; command was not replayed".to_owned(),
                        ),
                    };
                    return StreamStep { emit: Some(Err(error)), next: StreamNext::Stop };
                }
                StreamStep { emit: Some(Ok(ExecEvent::Timeout)), next: StreamNext::Receive }
            },
        }
    }
}

// ---------------------------------------------------------------------------
// What holds of every run
// ---------------------------------------------------------------------------
/// The stream after a run of inputs; it stays as it is once it has stopped.
pub open spec fn after_run(s: StreamView, inputs: Seq<StreamInputView>) -> StreamView
    decreases inputs.len(),
{
    if inputs.len() == 0 {
        s
    } else {
        let (next, step) = stream_step(s, inputs[0]);
        if step.next is Stop {
            next
        } else {
            after_run(next, inputs.drop_first())
        }
    }
}

/// The numbers of the numbered events that a run hands to the reader, in order.
pub open spec fn handed_on(s: StreamView, inputs: Seq<StreamInputView>) -> Seq<u64>
    decreases inputs.len(),
{
    if inputs.len() == 0 {
        Seq::empty()
    } else {
        let (next, step) = stream_step(s, inputs[0]);
        let first = match inputs[0] {
            StreamInputView::Event(e) => if e.event_seq > 0 && !is_replay(s, e) {
                seq![e.event_seq]
            } else {
                Seq::empty()
            },
            _ => Seq::empty(),
        };
        if step.next is Stop {
            first
        } else {
            first + handed_on(next, inputs.drop_first())
        }
    }
}

/// Each number is greater than those before it.
pub open spec fn rising(s: Seq<u64>) -> bool {
    forall|i: int, j: int| 0 <= i < j < s.len() ==> #[trigger] s[i] < #[trigger] s[j]
}

/// Whatever is lost, resent or recovered, no numbered event is handed on twice or out of order.
pub proof fn law_no_event_is_replayed(s: StreamView, inputs: Seq<StreamInputView>)
    ensures
        rising(handed_on(s, inputs)),
        forall|i: int|
            0 <= i < handed_on(s, inputs).len() ==> #[trigger] handed_on(s, inputs)[i]
                > s.last_committed_event_seq,
    decreases inputs.len(),
{
    if inputs.len() > 0 {
        let (next, step) = stream_step(s, inputs[0]);
        let rest = inputs.drop_first();
        law_no_event_is_replayed(next, rest);
        let tail = handed_on(next, rest);
        let all = handed_on(s, inputs);
        match inputs[0] {
            StreamInputView::Event(e) => {
                if e.event_seq > 0 && !is_replay(s, e) {
                    assert(next.last_committed_event_seq == e.event_seq);
                    if !(step.next is Stop) {
                        assert(all == seq![e.event_seq] + tail);
                        assert forall|i: int, j: int| 0 <= i < j < all.len() implies #[trigger] all[i]
                            < #[trigger] all[j] by {
                            assert(all[j] == tail[j - 1]);
                            if i > 0 {
                                assert(all[i] == tail[i - 1]);
                            }
                        }
                        assert forall|i: int| 0 <= i < all.len() implies #[trigger] all[i]
                            > s.last_committed_event_seq by {
                            if i > 0 {
                                assert(all[i] == tail[i - 1]);
                            }
                        }
                    }
                } else {
                    assert(Seq::<u64>::empty() + tail == tail);
                }
            },
            _ => {
                assert(Seq::<u64>::empty() + tail == tail);
            },
        }
    }
}

/// The number of the last event handed on never falls.
pub proof fn law_commit_never_falls(s: StreamView, inputs: Seq<StreamInputView>)
    ensures
        after_run(s, inputs).last_committed_event_seq >= s.last_committed_event_seq,
    decreases inputs.len(),
{
    if inputs.len() > 0 {
        let (next, step) = stream_step(s, inputs[0]);
        if !(step.next is Stop) {
            law_commit_never_falls(next, inputs.drop_first());
        }
    }
}

/// A run of `n` rounds in each of which the subscription ends and is not found again.
pub open spec fn failing_rounds(n: nat) -> Seq<StreamInputView>
    decreases n,
{
    if n == 0 {
        Seq::empty()
    } else {
        seq![StreamInputView::Ended, StreamInputView::RebindFailed] + failing_rounds(
            (n - 1) as nat,
        )
    }
}

/// The run reaches its end.
pub open spec fn stops_within(s: StreamView, inputs: Seq<StreamInputView>) -> bool
    decreases inputs.len(),
{
    if inputs.len() == 0 {
        false
    } else {
        let (next, step) = stream_step(s, inputs[0]);
        step.next is Stop || stops_within(next, inputs.drop_first())
    }
}

/// A stream that is lost for good is given up after as many failed recoveries as are left.
pub proof fn law_lost_stream_is_given_up(s: StreamView, n: nat)
    requires
        stream_wf(s),
        s.recovery is NotNeeded,
        n + s.stall_recovery_attempts >= MAX_STALL_RECOVERY_ATTEMPTS,
    ensures
        stops_within(s, failing_rounds(n)),
    decreases n,
{
    let inputs = failing_rounds(n);
    let rest = failing_rounds((n - 1) as nat);
    assert(inputs[0] is Ended);
    assert(inputs.drop_first()[0] is RebindFailed);
    assert(inputs.drop_first().drop_first() == rest);
    let (s1, step1) = stream_step(s, inputs[0]);
    let (s2, step2) = stream_step(s1, inputs.drop_first()[0]);
    assert(stops_within(s, inputs) == stops_within(s1, inputs.drop_first()));
    if !(step2.next is Stop) {
        law_lost_stream_is_given_up(s2, (n - 1) as nat);
    }
}

// ---------------------------------------------------------------------------
// Starting and finding again
// ---------------------------------------------------------------------------
/// The number of seconds that a command may take: thirty where nothing is said, one at least.
pub open spec fn command_timeout_secs(requested: Option<i32>) -> int {
    let secs = match requested {
        Some(s) => s as int,
        None => 30,
    };
    if secs < 1 {
        1
    } else {
        secs
    }
}

/// The number of seconds that a command may take.
pub fn exec_timeout_secs(requested: Option<i32>) -> (secs: i32)
    ensures
        secs == command_timeout_secs(requested),
{
    let secs: i32 = match requested {
        Some(s) => s,
        None => 30,
    };
    if secs < 1 {
        1
    } else {
        secs
    }
}

/// The waits around a stream.
#[derive(Clone, Copy, Debug, PartialEq, Eq, Structural)]
pub struct StreamWaits {
    /// For the producer to start.
    pub start: Span,
    /// For a silent producer.
    pub idle: Span,
    /// For a recovery.
    pub rebind: Span,
}

/// The waits that follow from the configured timeouts and that of the command.
pub fn stream_waits(connect_timeout: Span, ready_timeout: Span, requested: Option<i32>) -> (w:
    StreamWaits)
    requires
        connect_timeout.wf(),
        ready_timeout.wf(),
        connect_timeout.total() + 35_000_000_000 <= Span::max_total(),
        ready_timeout.total() + 35_000_000_000 <= Span::max_total(),
    ensures
        w.start.wf() && w.idle.wf() && w.rebind.wf(),
        w.start.total() == (if connect_timeout.total() < ready_timeout.total() {
            ready_timeout.total()
        } else {
            connect_timeout.total()
        }) + 30_000_000_000,
        w.idle == (Span { secs: (command_timeout_secs(requested) + 90) as u64, nanos: 0 }),
        w.rebind.total() == w.start.total() + 5_000_000_000,
{
    let longer = if connect_timeout.shorter_than(&ready_timeout) {
        ready_timeout
    } else {
        connect_timeout
    };
    let start = longer.plus(&Span::from_secs(30));
    let idle = Span::from_secs(exec_timeout_secs(requested) as u64 + 90);
    let rebind = start.plus(&Span::from_secs(5));
    StreamWaits { start, idle, rebind }
}

/// Checks that a command says something.
pub fn check_command(command: &str) -> (r: Result<()>)
    ensures
        match r {
            Ok(_) => trimmed(command@).len() > 0,
            Err(e) => trimmed(command@).len() == 0 && e@ == ErrorView::InvalidResponse(
                "exec command must be non-empty"@,
            ),
        },
{
    if trim(command).as_str().is_empty() {
        return Err(SandboxError::InvalidResponse("exec command must be non-empty".to_owned()));
    }
    Ok(())
}

/// The node on which a command runs: that of the endpoint, else that of the session's route.
pub open spec fn exec_target(
    endpoint_node: Option<Seq<char>>,
    route_node: Option<Seq<char>>,
    session_id: Seq<char>,
    endpoint: Seq<char>,
) -> std::result::Result<Seq<char>, ErrorView> {
    match endpoint_node {
        Some(node) => Ok(node),
        None => match route_node {
            Some(node) => Ok(node),
            None => Err(
                ErrorView::InvalidResponse(
                    "unable to resolve target node for distributed exec session_id="@ + session_id
                        + " endpoint="@ + endpoint,
                ),
            ),
        },
    }
}

/// The node on which a command runs.
pub fn resolve_distributed_exec_target(
    endpoint_node: Option<String>,
    route_node: Option<String>,
    session_id: &str,
    endpoint: &str,
) -> (r: Result<String>)
    ensures
        outcome(r) == exec_target(
            opt_view(endpoint_node),
            opt_view(route_node),
            session_id@,
            endpoint@,
        ),
{
    match endpoint_node {
        Some(node) => Ok(node),
        None => match route_node {
            Some(node) => Ok(node),
            None => Err(
                SandboxError::InvalidResponse(
                    "unable to resolve target node for distributed exec session_id=".to_owned().concat(
                    session_id).concat(" endpoint=").concat(endpoint),
                ),
            ),
        },
    }
}

/// Where a stream that is looked for again is produced, and whether its producer has to be told
/// to take it up.
#[derive(Debug)]
pub struct RebindPlan {
    pub route: StreamRoute,
    pub needs_command_resume: bool,
}

/// The route moved to another endpoint or node.
pub open spec fn route_moved(current: RouteView, endpoint: Seq<char>, target: Seq<char>) -> bool {
    endpoint != current.endpoint || target != current.target_node_id
}

/// The route of a stream that is found again. A producer at another place gets the next epoch.
pub open spec fn rebound_route(
    current: RouteView,
    endpoint: Seq<char>,
    target: Seq<char>,
) -> RouteView {
    RouteView {
        endpoint,
        stream_id: current.stream_id,
        target_node_id: target,
        producer_epoch: if route_moved(current, endpoint, target) && current.producer_epoch
            < u64::MAX {
            (current.producer_epoch + 1) as u64
        } else {
            current.producer_epoch
        },
    }
}

/// Decides where a stream is looked for again. A node that cannot be named is an error only
/// where the endpoint changed; else the stream stays with its node.
pub fn plan_rebind(
    current: &StreamRoute,
    resolved_endpoint: String,
    target: Result<String>,
) -> (r: Result<RebindPlan>)
    ensures
        match outcome(target) {
            Ok(node) => match r {
                Ok(plan) => plan.route@ == rebound_route(current@, resolved_endpoint@, node)
                    && plan.needs_command_resume == route_moved(
                    current@,
                    resolved_endpoint@,
                    node,
                ),
                Err(_) => false,
            },
            Err(error) => if resolved_endpoint@ != current.endpoint@ {
                match r {
                    Ok(_) => false,
                    Err(e) => e@ == error,
                }
            } else {
                match r {
                    Ok(plan) => plan.route@ == current@ && !plan.needs_command_resume,
                    Err(_) => false,
                }
            },
        },
{
    let endpoint_changed = !same(&resolved_endpoint, &current.endpoint);
    let target_node_id = match target {
        Ok(node) => node,
        Err(error) => {
            if endpoint_changed {
                return Err(error);
            }
            current.target_node_id.clone()
        },
    };
    let moved = endpoint_changed || !same(&target_node_id, &current.target_node_id);
    let producer_epoch: u64 = if moved && current.producer_epoch < u64::MAX {
        current.producer_epoch + 1
    } else {
        current.producer_epoch
    };
    Ok(
        RebindPlan {
            route: StreamRoute {
                endpoint: resolved_endpoint,
                stream_id: current.stream_id.clone(),
                target_node_id,
                producer_epoch,
            },
            needs_command_resume: moved,
        },
    )
}

/// The order to a producer to start a stream or take it up.
#[derive(Debug)]
pub struct StreamStart {
    pub route: StreamRoute,
    pub resume_after_event_seq: u64,
    pub shell: String,
    pub timeout_secs: i32,
    pub timeout_ms: u64,
    pub idempotency_key: String,
    pub ordering_key: String,
}

/// The shell that runs a command.
pub open spec fn chosen_shell(requested: Option<Seq<char>>, default_shell: Seq<char>) -> Seq<char> {
    match requested {
        Some(shell) => shell,
        None => default_shell,
    }
}

/// What holds of an order whichever way it came about.
pub open spec fn start_basics(
    start: StreamStart,
    route: RouteView,
    requested_shell: Option<Seq<char>>,
    default_shell: Seq<char>,
    timeout: Option<i32>,
) -> bool {
    &&& start.route@ == route
    &&& start.shell@ == chosen_shell(requested_shell, default_shell)
    &&& start.timeout_secs == command_timeout_secs(timeout)
    &&& start.timeout_ms == command_timeout_secs(timeout) * 1000
}

/// The order to start a new stream.
pub fn start_order(
    stream_id: &str,
    endpoint: String,
    target_node_id: String,
    requested_shell: Option<String>,
    default_shell: &str,
    timeout: Option<i32>,
) -> (start: StreamStart)
    ensures
        start_basics(
            start,
            RouteView {
                endpoint: endpoint@,
                stream_id: stream_id@,
                target_node_id: target_node_id@,
                producer_epoch: 0,
            },
            opt_view(requested_shell),
            default_shell@,
            timeout,
        ),
        start.resume_after_event_seq == 0,
        start.idempotency_key@ == "exec-stream-start-"@ + stream_id@,
        start.ordering_key@ == "exec-stream-start:"@ + stream_id@,
{
    let timeout_secs = exec_timeout_secs(timeout);
    StreamStart {
        route: StreamRoute {
            endpoint,
            stream_id: stream_id.to_owned(),
            target_node_id,
            producer_epoch: 0,
        },
        resume_after_event_seq: 0,
        shell: match requested_shell {
            Some(shell) => shell,
            None => default_shell.to_owned(),
        },
        timeout_secs,
        timeout_ms: timeout_secs as u64 * 1000,
        idempotency_key: "exec-stream-start-".to_owned().concat(stream_id),
        ordering_key: "exec-stream-start:".to_owned().concat(stream_id),
    }
}

/// The order to take a stream up after the last event that was handed on.
pub fn resume_order(
    route: StreamRoute,
    resume_after_event_seq: u64,
    requested_shell: Option<String>,
    default_shell: &str,
    timeout: Option<i32>,
) -> (start: StreamStart)
    ensures
        start_basics(start, route@, opt_view(requested_shell), default_shell@, timeout),
        start.resume_after_event_seq == resume_after_event_seq,
        start.idempotency_key@ == "exec-stream-resume-"@ + route.stream_id@ + "-"@ + decimal(
            route.producer_epoch as nat,
        ) + "-"@ + decimal(resume_after_event_seq as nat),
        start.ordering_key@ == "exec-stream-resume:"@ + route.stream_id@ + ":"@ + decimal(
            resume_after_event_seq as nat,
        ),
{
    let timeout_secs = exec_timeout_secs(timeout);
    let epoch = to_decimal(route.producer_epoch);
    let seq = to_decimal(resume_after_event_seq);
    let idempotency_key = "exec-stream-resume-".to_owned().concat(&route.stream_id).concat(
        "-",
    ).concat(&epoch).concat("-").concat(&seq);
    let ordering_key = "exec-stream-resume:".to_owned().concat(&route.stream_id).concat(
        ":",
    ).concat(&seq);
    StreamStart {
        route,
        resume_after_event_seq,
        shell: match requested_shell {
            Some(shell) => shell,
            None => default_shell.to_owned(),
        },
        timeout_secs,
        timeout_ms: timeout_secs as u64 * 1000,
        idempotency_key,
        ordering_key,
    }
}

/// What became of the signal by which a producer says that it has started.
#[derive(Debug)]
pub enum StartSignal {
    Ready,
    Failed(SandboxError),
    Dropped,
    TimedOut,
}

/// Decides whether a new stream is ready.
pub fn start_outcome(signal: StartSignal, command_id: &str, stream_id: &str) -> (r: Result<()>)
    ensures
        match signal {
            StartSignal::Ready => r is Ok,
            StartSignal::Failed(e) => r == Result::<()>::Err(e),
            StartSignal::Dropped => r matches Err(e) && e@ == ErrorView::DaemonUnavailable(
                "distributed exec stream did not become ready (dropped readiness signal) command_id="@
                    + command_id@ + " stream_id="@ + stream_id@,
            ),
            StartSignal::TimedOut => r matches Err(e) && e@ == ErrorView::DaemonUnavailable(
                "distributed exec stream did not become ready before timeout command_id="@
                    + command_id@ + " stream_id="@ + stream_id@,
            ),
        },
{
    match signal {
        StartSignal::Ready => Ok(()),
        StartSignal::Failed(e) => Err(e),
        StartSignal::Dropped => Err(
            SandboxError::DaemonUnavailable(
                "distributed exec stream did not become ready (dropped readiness signal) command_id=".to_owned().concat(
                command_id).concat(" stream_id=").concat(stream_id),
            ),
        ),
        StartSignal::TimedOut => Err(
            SandboxError::DaemonUnavailable(
                "distributed exec stream did not become ready before timeout command_id=".to_owned().concat(
                command_id).concat(" stream_id=").concat(stream_id),
            ),
        ),
    }
}

/// Decides whether a stream that was taken up is ready.
pub fn resume_outcome(signal: StartSignal, command_id: &str, stream_id: &str) -> (r: Result<()>)
    ensures
        match signal {
            StartSignal::Ready => r is Ok,
            StartSignal::Failed(e) => r == Result::<()>::Err(e),
            StartSignal::Dropped => r matches Err(e) && e@ == ErrorView::DaemonUnavailable(
                "distributed exec stream resume did not become ready (dropped readiness signal) logical_stream_id="@
                    + stream_id@ + " command_id="@ + command_id@,
            ),
            StartSignal::TimedOut => r matches Err(e) && e@ == ErrorView::DaemonUnavailable(
                "distributed exec stream resume did not become ready before timeout logical_stream_id="@
                    + stream_id@ + " command_id="@ + command_id@,
            ),
        },
{
    match signal {
        StartSignal::Ready => Ok(()),
        StartSignal::Failed(e) => Err(e),
        StartSignal::Dropped => Err(
            SandboxError::DaemonUnavailable(
                "distributed exec stream resume did not become ready (dropped readiness signal) logical_stream_id=".to_owned().concat(
                stream_id).concat(" command_id=").concat(command_id),
            ),
        ),
        StartSignal::TimedOut => Err(
            SandboxError::DaemonUnavailable(
                "distributed exec stream resume did not become ready before timeout logical_stream_id=".to_owned().concat(
                stream_id).concat(" command_id=").concat(command_id),
            ),
        ),
    }
}

// ---------------------------------------------------------------------------
// Input
// ---------------------------------------------------------------------------
/// Numbers the inputs of a stream, from one for each producer.
#[derive(Debug)]
pub struct InputSequence {
    input_seq: u64,
    previous: Option<(String, u64)>,
}

/// The model of an `InputSequence`: the last number, and the producer that it went to.
pub struct InputSequenceView {
    pub input_seq: u64,
    pub previous: Option<(Seq<char>, u64)>,
}

impl View for InputSequence {
    type V = InputSequenceView;

    closed spec fn view(&self) -> InputSequenceView {
        InputSequenceView {
            input_seq: self.input_seq,
            previous: match self.previous {
                Some(p) => Some((p.0@, p.1)),
                None => None,
            },
        }
    }
}

/// The number of an input and the keys under which it is sent.
#[derive(Debug)]
pub struct NumberedInput {
    pub input_seq: u64,
    pub idempotency_key: String,
    pub ordering_key: String,
}

/// The number that was last given for a producer.
pub open spec fn last_number(s: InputSequenceView, target: Seq<char>, epoch: u64) -> u64 {
    if s.previous == Some((target, epoch)) {
        s.input_seq
    } else {
        0
    }
}

/// The number after `n`; the largest number is its own successor.
pub open spec fn number_after(n: u64) -> u64 {
    if n == u64::MAX {
        n
    } else {
        (n + 1) as u64
    }
}

impl InputSequence {
    /// Before the first input.
    pub fn new() -> (s: InputSequence)
        ensures
            s@ == (InputSequenceView { input_seq: 0, previous: None }),
    {
        InputSequence { input_seq: 0, previous: None }
    }

    /// Notes the producer to which the next input goes; a new one starts anew.
    pub fn observe(&mut self, route: &StreamRoute)
        ensures
            final(self)@ == (InputSequenceView {
                input_seq: last_number(old(self)@, route.target_node_id@, route.producer_epoch),
                previous: Some((route.target_node_id@, route.producer_epoch)),
            }),
    {
        let same_route: bool = match &self.previous {
            Some(p) => same(&p.0, &route.target_node_id) && p.1 == route.producer_epoch,
            None => false,
        };
        if !same_route {
            self.input_seq = 0;
            self.previous = Some((route.target_node_id.clone(), route.producer_epoch));
        }
    }

    /// Numbers the next input that is sent to the producer.
    pub fn next(&mut self, route: &StreamRoute) -> (n: NumberedInput)
        ensures
            n.input_seq == number_after(
                last_number(old(self)@, route.target_node_id@, route.producer_epoch),
            ),
            final(self)@ == (InputSequenceView {
                input_seq: n.input_seq,
                previous: Some((route.target_node_id@, route.producer_epoch)),
            }),
            n.idempotency_key@ == "exec-stream-input-"@ + route.stream_id@ + "-"@ + decimal(
                route.producer_epoch as nat,
            ) + "-"@ + decimal(n.input_seq as nat),
            n.ordering_key@ == "exec-stream-input:"@ + route.stream_id@ + ":"@ + decimal(
                route.producer_epoch as nat,
            ) + ":"@ + decimal(n.input_seq as nat),
    {
        self.observe(route);
        self.input_seq = if self.input_seq == u64::MAX {
            u64::MAX
        } else {
            self.input_seq + 1
        };
        let epoch = to_decimal(route.producer_epoch);
        let number = to_decimal(self.input_seq);
        NumberedInput {
            input_seq: self.input_seq,
            idempotency_key: "exec-stream-input-".to_owned().concat(&route.stream_id).concat(
                "-",
            ).concat(&epoch).concat("-").concat(&number),
            ordering_key: "exec-stream-input:".to_owned().concat(&route.stream_id).concat(
                ":",
            ).concat(&epoch).concat(":").concat(&number),
        }
    }
}

/// The numbers given to inputs that go one after the other to the producers listed.
pub open spec fn given_numbers(s: InputSequenceView, routes: Seq<(Seq<char>, u64)>) -> Seq<u64>
    decreases routes.len(),
{
    if routes.len() == 0 {
        Seq::empty()
    } else {
        let n = number_after(last_number(s, routes[0].0, routes[0].1));
        seq![n] + given_numbers(
            InputSequenceView { input_seq: n, previous: Some(routes[0]) },
            routes.drop_first(),
        )
    }
}

/// Inputs that all go to one producer are numbered without a gap, from one.
pub proof fn law_inputs_are_consecutive(
    s: InputSequenceView,
    routes: Seq<(Seq<char>, u64)>,
    producer: (Seq<char>, u64),
)
    requires
        forall|i: int| 0 <= i < routes.len() ==> #[trigger] routes[i] == producer,
        last_number(s, producer.0, producer.1) + routes.len() <= u64::MAX,
    ensures
        given_numbers(s, routes).len() == routes.len(),
        forall|i: int|
            0 <= i < routes.len() ==> #[trigger] given_numbers(s, routes)[i] == last_number(
                s,
                producer.0,
                producer.1,
            ) + 1 + i,
    decreases routes.len(),
{
    if routes.len() > 0 {
        let n = number_after(last_number(s, producer.0, producer.1));
        let next = InputSequenceView { input_seq: n, previous: Some(routes[0]) };
        let rest = routes.drop_first();
        assert(routes[0] == producer);
        assert forall|i: int| 0 <= i < rest.len() implies #[trigger] rest[i] == producer by {
            assert(rest[i] == routes[i + 1]);
        }
        law_inputs_are_consecutive(next, rest, producer);
        let all = given_numbers(s, routes);
        assert forall|i: int| 0 <= i < routes.len() implies #[trigger] all[i] == last_number(
            s,
            producer.0,
            producer.1,
        ) + 1 + i by {
            if i > 0 {
                assert(all[i] == given_numbers(next, rest)[i - 1]);
            }
        }
    }
}

// ---------------------------------------------------------------------------
// What a reader is told
// ---------------------------------------------------------------------------
/// The event has not been handed on before.
pub open spec fn is_new(s: StreamView, event: StreamEventView) -> bool {
    event.event_seq == 0 || event.event_seq > s.last_committed_event_seq
}

proof fn lemma_kinds_differ()
    ensures
        "stdout"@ != "stderr"@,
        "stdout"@ != "timeout"@,
        "stdout"@ != "exit"@,
        "stdout"@ != "error"@,
        "stderr"@ != "timeout"@,
        "stderr"@ != "exit"@,
        "stderr"@ != "error"@,
        "timeout"@ != "exit"@,
        "timeout"@ != "error"@,
        "exit"@ != "error"@,
{
    reveal_strlit("stdout");
    reveal_strlit("stderr");
    reveal_strlit("timeout");
    reveal_strlit("exit");
    reveal_strlit("error");
    assert("stdout"@[3] != "stderr"@[3]);
    assert("stdout"@.len() == 6 && "stderr"@.len() == 6 && "timeout"@.len() == 7);
    assert("exit"@.len() == 4 && "error"@.len() == 5);
}

/// An exit event tells the reader the very exit code that it carries, whatever that is, and ends the
/// stream. One without a code that ran out of time tells the code of a timeout, and one without either
/// is an error.
pub proof fn law_exit_code_is_told(s: StreamView, event: StreamEventView)
    requires
        event.kind == "exit"@,
        is_new(s, event),
    ensures
        stream_step(s, StreamInputView::Event(event)).1.next == StreamNext::Stop,
        event.exit_code matches Some(code) ==> stream_step(
            s,
            StreamInputView::Event(event),
        ).1.emit == Some(EventModel::Ok(ExecEventView::Exit(code))),
        event.exit_code is None && event.timed_out ==> stream_step(
            s,
            StreamInputView::Event(event),
        ).1.emit == Some(EventModel::Ok(ExecEventView::Exit(124))),
        event.exit_code is None && !event.timed_out ==> {
            &&& stream_step(s, StreamInputView::Event(event)).1.emit is Some
            &&& stream_step(s, StreamInputView::Event(event)).1.emit->Some_0 is Err
        },
{
    lemma_kinds_differ();
}

/// The bytes of an output event reach the reader as they are, under their own kind, and the stream goes
/// on.
pub proof fn law_output_is_told_unchanged(s: StreamView, event: StreamEventView)
    requires
        is_new(s, event),
    ensures
        event.kind == "stdout"@ ==> stream_step(s, StreamInputView::Event(event)).1 == (StepView {
            emit: Some(EventModel::Ok(ExecEventView::Stdout(event.data))),
            next: StreamNext::Receive,
        }),
        event.kind == "stderr"@ ==> stream_step(s, StreamInputView::Event(event)).1 == (StepView {
            emit: Some(EventModel::Ok(ExecEventView::Stderr(event.data))),
            next: StreamNext::Receive,
        }),
        event.kind == "timeout"@ ==> stream_step(s, StreamInputView::Event(event)).1 == (StepView {
            emit: Some(EventModel::Ok(ExecEventView::Timeout)),
            next: StreamNext::Receive,
        }),
{
    lemma_kinds_differ();
}

/// An error event ends the stream with the message that it carries, where it carries one.
pub proof fn law_error_event_ends_stream(s: StreamView, event: StreamEventView)
    requires
        event.kind == "error"@,
        is_new(s, event),
    ensures
        stream_step(s, StreamInputView::Event(event)).1.next == StreamNext::Stop,
        event.error matches Some(message) && trimmed(message).len() > 0 ==> stream_step(
            s,
            StreamInputView::Event(event),
        ).1.emit == Some(EventModel::Err(ErrorView::DaemonUnavailable(event.error->Some_0))),
        stream_step(s, StreamInputView::Event(event)).1.emit matches Some(Err(e)) && e
            is DaemonUnavailable,
{
    lemma_kinds_differ();
}

/// Nothing is told of an event that was handed on before, nor of one of another kind.
pub proof fn law_known_events_are_passed_over(s: StreamView, event: StreamEventView)
    ensures
        !is_new(s, event) || (event.kind != "stdout"@ && event.kind != "stderr"@ && event.kind
            != "timeout"@ && event.kind != "exit"@ && event.kind != "error"@) ==> stream_step(
            s,
            StreamInputView::Event(event),
        ).1 == (StepView { emit: None, next: StreamNext::Receive }),
        !is_new(s, event) ==> stream_step(
            s,
            StreamInputView::Event(event),
        ).0.last_committed_event_seq == s.last_committed_event_seq,
        is_new(s, event) && event.event_seq > 0 ==> stream_step(
            s,
            StreamInputView::Event(event),
        ).0.last_committed_event_seq == event.event_seq,
{
}

/// The bytes that events of a kind bring, in order, each event once.
pub open spec fn brought(
    s: StreamView,
    events: Seq<StreamEventView>,
    kind: Seq<char>,
) -> Seq<u8>
    decreases events.len(),
{
    if events.len() == 0 {
        Seq::empty()
    } else {
        let event = events[0];
        (if event.kind == kind && is_new(s, event) {
            event.data
        } else {
            Seq::empty()
        }) + brought(
            StreamView {
                last_committed_event_seq: if is_new(s, event) && event.event_seq > 0 {
                    event.event_seq
                } else {
                    s.last_committed_event_seq
                },
                ..s
            },
            events.drop_first(),
            kind,
        )
    }
}

/// The bytes of standard output, or of standard error, that a run of events hands to the reader.
pub open spec fn told_bytes(
    s: StreamView,
    events: Seq<StreamEventView>,
    of_stdout: bool,
) -> Seq<u8>
    decreases events.len(),
{
    if events.len() == 0 {
        Seq::empty()
    } else {
        let (next, step) = stream_step(s, StreamInputView::Event(events[0]));
        (match step.emit {
            Some(Ok(ExecEventView::Stdout(data))) => if of_stdout {
                data
            } else {
                Seq::empty()
            },
            Some(Ok(ExecEventView::Stderr(data))) => if of_stdout {
                Seq::empty()
            } else {
                data
            },
            _ => Seq::empty(),
        }) + told_bytes(next, events.drop_first(), of_stdout)
    }
}

proof fn lemma_brought_depends_on_commit(
    a: StreamView,
    b: StreamView,
    events: Seq<StreamEventView>,
    kind: Seq<char>,
)
    requires
        a.last_committed_event_seq == b.last_committed_event_seq,
    ensures
        brought(a, events, kind) == brought(b, events, kind),
    decreases events.len(),
{
    if events.len() > 0 {
        let event = events[0];
        let seq = if is_new(a, event) && event.event_seq > 0 {
            event.event_seq
        } else {
            a.last_committed_event_seq
        };
        lemma_brought_depends_on_commit(
            StreamView { last_committed_event_seq: seq, ..a },
            StreamView { last_committed_event_seq: seq, ..b },
            events.drop_first(),
            kind,
        );
    }
}

/// Of a whole run of events the reader gets exactly the output that they bring, in order, each event
/// once.
pub proof fn law_output_is_told_whole(s: StreamView, events: Seq<StreamEventView>)
    ensures
        told_bytes(s, events, true) == brought(s, events, "stdout"@),
        told_bytes(s, events, false) == brought(s, events, "stderr"@),
    decreases events.len(),
{
    if events.len() > 0 {
        lemma_kinds_differ();
        let event = events[0];
        let next = stream_step(s, StreamInputView::Event(event)).0;
        if is_new(s, event) {
            law_output_is_told_unchanged(s, event);
        }
        law_known_events_are_passed_over(s, event);
        law_output_is_told_whole(next, events.drop_first());
        let seq = if is_new(s, event) && event.event_seq > 0 {
            event.event_seq
        } else {
            s.last_committed_event_seq
        };
        let plain = StreamView { last_committed_event_seq: seq, ..s };
        lemma_brought_depends_on_commit(next, plain, events.drop_first(), "stdout"@);
        lemma_brought_depends_on_commit(next, plain, events.drop_first(), "stderr"@);
    }
}

/// A stream is looked for again when it ends or fails, and after three silent intervals in a row, not
/// before. Nothing that was handed on is forgotten meanwhile.
pub proof fn law_lost_stream_is_looked_for(s: StreamView, error: ErrorView)
    requires
        stream_wf(s),
    ensures
        stream_step(s, StreamInputView::Ended).1.next == StreamNext::Rebind,
        stream_step(s, StreamInputView::Failed(error)).1.next == StreamNext::Rebind,
        ({
            let fresh = StreamView { idle_timeout_strikes: 0, ..s };
            let one = stream_step(fresh, StreamInputView::Idle);
            let two = stream_step(one.0, StreamInputView::Idle);
            let three = stream_step(two.0, StreamInputView::Idle);
            &&& one.1 == (StepView { emit: None, next: StreamNext::Receive })
            &&& two.1 == (StepView { emit: None, next: StreamNext::Receive })
            &&& three.1 == (StepView { emit: None, next: StreamNext::Rebind })
            &&& three.0.last_committed_event_seq == s.last_committed_event_seq
        }),
        stream_step(s, StreamInputView::Ended).0.last_committed_event_seq
            == s.last_committed_event_seq,
        stream_step(s, StreamInputView::Ended).0.route == s.route,
{
}

/// A stream that was found again goes on where it was left, over its new route, and with all its
/// attempts before it.
pub proof fn law_found_stream_goes_on(s: StreamView, route: RouteView)
    ensures
        ({
            let (next, step) = stream_step(s, StreamInputView::Rebound(route));
            &&& step == (StepView { emit: None, next: StreamNext::Receive })
            &&& next.route == route
            &&& next.last_committed_event_seq == s.last_committed_event_seq
            &&& next.stall_recovery_attempts == 0
            &&& next.recovery is NotNeeded
        }),
{
}

/// Four recoveries in a row may fail, each of which the reader learns of as a timeout; the fifth ends
/// the stream, with the error that the stream failed with where it failed with one.
pub proof fn law_fifth_failed_recovery_ends_stream(s: StreamView)
    requires
        stream_wf(s),
        !(s.recovery is NotNeeded),
    ensures
        s.stall_recovery_attempts < 4 ==> stream_step(s, StreamInputView::RebindFailed).1
            == (StepView {
            emit: Some(EventModel::Ok(ExecEventView::Timeout)),
            next: StreamNext::Receive,
        }),
        s.stall_recovery_attempts >= 4 ==> {
            let step = stream_step(s, StreamInputView::RebindFailed).1;
            &&& step.next == StreamNext::Stop
            &&& step.emit matches Some(Err(e)) && (s.recovery matches RecoveryView::AfterFailure(f)
                ==> e == f)
        },
        stream_step(s, StreamInputView::RebindFailed).0.stall_recovery_attempts
            == s.stall_recovery_attempts + 1,
{
}

/// A command gets the time that it asks for, thirty seconds where it asks for none, and a second at
/// least.
pub proof fn law_command_gets_its_time(secs: i32)
    ensures
        command_timeout_secs(None) == 30,
        secs >= 1 ==> command_timeout_secs(Some(secs)) == secs,
        secs < 1 ==> command_timeout_secs(Some(secs)) == 1,
{
}

/// A command is run on the node that serves the endpoint, else on the one that the route names, and
/// nowhere else.
pub proof fn law_command_runs_on_known_node(
    endpoint_node: Option<Seq<char>>,
    route_node: Option<Seq<char>>,
    session_id: Seq<char>,
    endpoint: Seq<char>,
)
    ensures
        match exec_target(endpoint_node, route_node, session_id, endpoint) {
            Ok(node) => endpoint_node == Some(node) || (endpoint_node is None && route_node == Some(
                node,
            )),
            Err(_) => endpoint_node is None && route_node is None,
        },
{
}

/// A route keeps its stream when it is resolved again. Where it moved, to another endpoint or another
/// node, a new epoch begins; where it did not, the epoch stays.
pub proof fn law_moved_route_begins_new_epoch(
    current: RouteView,
    endpoint: Seq<char>,
    target: Seq<char>,
)
    requires
        current.producer_epoch < u64::MAX,
    ensures
        rebound_route(current, endpoint, target).stream_id == current.stream_id,
        rebound_route(current, endpoint, target).endpoint == endpoint,
        rebound_route(current, endpoint, target).target_node_id == target,
        endpoint == current.endpoint && target == current.target_node_id ==> rebound_route(
            current,
            endpoint,
            target,
        ) == current,
        endpoint != current.endpoint || target != current.target_node_id ==> rebound_route(
            current,
            endpoint,
            target,
        ).producer_epoch == current.producer_epoch + 1,
        route_moved(current, endpoint, target) == (endpoint != current.endpoint || target
            != current.target_node_id),
{
}

/// What is sent for a command carries its route, the shell asked for, else the default one, and its
/// time in seconds and in milliseconds alike.
pub proof fn law_stream_start_carries_what_was_asked(
    start: StreamStart,
    route: RouteView,
    shell: Option<Seq<char>>,
    default_shell: Seq<char>,
    timeout: Option<i32>,
)
    requires
        start_basics(start, route, shell, default_shell, timeout),
    ensures
        start.route@ == route,
        shell matches Some(sh) ==> start.shell@ == sh,
        shell is None ==> start.shell@ == default_shell,
        start.timeout_ms == start.timeout_secs * 1000,
        timeout matches Some(secs) && secs >= 1 ==> start.timeout_secs == timeout->Some_0,
        timeout is None ==> start.timeout_secs == 30,
{
}

/// The first input that a producer gets is numbered one, whoever had inputs before.
pub proof fn law_new_producer_counts_from_one(s: InputSequenceView, target: Seq<char>, epoch: u64)
    requires
        s.previous != Some((target, epoch)),
    ensures
        number_after(last_number(s, target, epoch)) == 1,
{
}

/// What comes over a stream is seen as what it is.
pub proof fn law_stream_is_seen_as_it_is(route: StreamRoute, event: ExecStreamEvent, input: StreamInput)
    ensures
        route@.endpoint == route.endpoint@ && route@.stream_id == route.stream_id@
            && route@.target_node_id == route.target_node_id@ && route@.producer_epoch
            == route.producer_epoch,
        event@.event_seq == event.event_seq && event@.kind == event.kind@ && event@.data
            == event.data@ && event@.exit_code == event.exit_code && event@.timed_out
            == event.timed_out,
        event.error matches Some(e) ==> event@.error == Some(e@),
        event.error is None ==> event@.error is None,
        input is Idle ==> input@ is Idle,
        input is Ended ==> input@ is Ended,
        input matches StreamInput::Failed(e) ==> input@ == StreamInputView::Failed(e@),
        input matches StreamInput::Event(e) ==> input@ == StreamInputView::Event(e@),
        input matches StreamInput::Rebound(r) ==> input@ == StreamInputView::Rebound(r@),
        input is RebindFailed ==> input@ is RebindFailed,
{
}

/// What a step tells is seen as it is.
pub proof fn law_step_is_seen_as_it_is(step: StreamStep)
    ensures
        step_view(step).next == step.next,
        step.emit is None ==> step_view(step).emit is None,
        step.emit matches Some(Ok(e)) ==> step_view(step).emit == Some(EventModel::Ok(e@)),
        step.emit matches Some(Err(e)) ==> step_view(step).emit == Some(EventModel::Err(e@)),
{
}

/// A stream that is looked for is told where it was found or that it was not; any other stream is told
/// what came over it.
pub proof fn law_lost_stream_awaits_its_route(s: StreamView, input: StreamInputView)
    ensures
        s.recovery is NotNeeded ==> (expected_input(s, input) <==> !(input is Rebound) && !(
        input is RebindFailed)),
        !(s.recovery is NotNeeded) ==> (expected_input(s, input) <==> input is Rebound || input
            is RebindFailed),
{
}

/// A stream that ends without an exit code, or fails without a word, is told so.
pub proof fn law_unexplained_end_is_told(s: StreamView, event: StreamEventView, r: RecoveryView)
    ensures
        event.kind == "exit"@ && event.exit_code is None && !event.timed_out && is_new(s, event)
            ==> stream_step(s, StreamInputView::Event(event)).1.emit == Some(
            EventModel::Err(
                ErrorView::InvalidResponse(
                    "distributed exec stream exit event missing exit code"@,
                ),
            ),
        ),
        event.kind == "error"@ && (event.error is None || trimmed(event.error->Some_0).len() == 0)
            && is_new(s, event) ==> stream_step(s, StreamInputView::Event(event)).1.emit == Some(
            EventModel::Err(
                ErrorView::DaemonUnavailable(
                    "distributed exec stream failed with unspecified error"@,
                ),
            ),
        ),
        r is AfterEnd ==> exhausted(r) == ErrorView::DaemonUnavailable(
            "distributed exec stream ended and recovery exhausted; command was not replayed"@,
        ),
        r is AfterSilence ==> exhausted(r) == ErrorView::DaemonUnavailable(
            "distributed exec stream stalled after recovery attempts; command was not replayed"@,
        ),
        r matches RecoveryView::AfterFailure(e) ==> exhausted(r) == e,
{
    lemma_kinds_differ();
}

/// A session whose node is not known is told with its endpoint.
pub proof fn law_unknown_node_is_told(session_id: Seq<char>, endpoint: Seq<char>)
    ensures
        exec_target(None, None, session_id, endpoint) == std::result::Result::<
            Seq<char>,
            ErrorView,
        >::Err(
            ErrorView::InvalidResponse(
                "unable to resolve target node for distributed exec session_id="@ + session_id
                    + " endpoint="@ + endpoint,
            ),
        ),
{
}

/// What comes over a stream, and where it is found again, is the end of its silence: the count of silent
/// turns begins anew. An epoch that cannot grow stays.
pub proof fn law_silence_is_counted_anew(
    s: StreamView,
    event: StreamEventView,
    route: RouteView,
    e: ErrorView,
    target: Seq<char>,
)
    ensures
        stream_step(s, StreamInputView::Event(event)).0.idle_timeout_strikes == 0,
        stream_step(s, StreamInputView::Rebound(route)).0.idle_timeout_strikes == 0,
        stream_step(s, StreamInputView::Ended).0.idle_timeout_strikes == 0,
        stream_step(s, StreamInputView::Failed(e)).0.idle_timeout_strikes == 0,
        stream_step(s, StreamInputView::Event(event)).0.route == s.route,
        stream_step(s, StreamInputView::Event(event)).0.recovery == s.recovery,
        is_new(s, event) ==> stream_step(
            s,
            StreamInputView::Event(event),
        ).0.stall_recovery_attempts == 0,
        stream_step(s, StreamInputView::Ended).0.recovery is AfterEnd,
        stream_step(s, StreamInputView::Failed(e)).0.recovery == RecoveryView::AfterFailure(e),
        stream_step(s, StreamInputView::RebindFailed).0.recovery is NotNeeded,
        stream_step(s, StreamInputView::RebindFailed).0.route == s.route,
        route.producer_epoch == u64::MAX ==> rebound_route(
            route,
            s.route.endpoint,
            target,
        ).producer_epoch == u64::MAX,
{
}

} // verus!
