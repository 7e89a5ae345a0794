//! Commands in a guest over its own RPC: how the stream is established, what goes in, and what
//! comes out.

use crate::error::rebind_candidate;
use crate::error::is_rebind_candidate_error;
use crate::error::ErrorView;
use crate::error::GrpcCode;
use crate::error::GrpcStatus;
use crate::error::Result;
use crate::error::SandboxError;
use crate::numeral::decimal;
use crate::numeral::signed_decimal;
use crate::numeral::to_decimal;
use crate::numeral::to_signed_decimal;
use crate::table::StringMap;
use crate::text::same;
use crate::vm::GuestPlatform;
use vstd::prelude::*;

verus! {

/// How a command is to be run.
#[derive(Debug)]
pub struct ExecOptions {
    pub env: StringMap,
    pub timeout_secs: Option<i32>,
    pub detach: bool,
    pub shell: Option<String>,
    pub close_stdin_on_start: bool,
}

impl ExecOptions {
    /// Nothing set.
    pub fn new() -> (opts: ExecOptions)
        ensures
            opts.env@ == Map::<Seq<char>, Seq<char>>::empty(),
            opts.timeout_secs is None,
            !opts.detach,
            opts.shell is None,
            !opts.close_stdin_on_start,
    {
        ExecOptions {
            env: StringMap::new(),
            timeout_secs: None,
            detach: false,
            shell: None,
            close_stdin_on_start: false,
        }
    }
}

/// What a caller sends to a running command.
#[derive(Debug)]
pub enum ExecInput {
    Data(Vec<u8>),
    Eof,
    Signal(i32),
    Resize { cols: u16, rows: u16 },
}

/// What a running command gives back.
#[derive(Debug)]
pub enum ExecEvent {
    Stdout(Vec<u8>),
    Stderr(Vec<u8>),
    Exit(i32),
    Timeout,
}

/// The model of an `ExecEvent`.
pub enum ExecEventView {
    Stdout(Seq<u8>),
    Stderr(Seq<u8>),
    Exit(i32),
    Timeout,
}

impl View for ExecEvent {
    type V = ExecEventView;

    open spec fn view(&self) -> ExecEventView {
        match self {
            ExecEvent::Stdout(data) => ExecEventView::Stdout(data@),
            ExecEvent::Stderr(data) => ExecEventView::Stderr(data@),
            ExecEvent::Exit(code) => ExecEventView::Exit(*code),
            ExecEvent::Timeout => ExecEventView::Timeout,
        }
    }
}

/// The model of an event or the error that came in its place.
pub type EventModel = std::result::Result<ExecEventView, ErrorView>;

/// The model of an event or the error that came in its place.
pub open spec fn event_model(e: Result<ExecEvent>) -> EventModel {
    match e {
        Ok(event) => Ok(event@),
        Err(error) => Err(error@),
    }
}

/// The models of a list of events.
pub open spec fn event_models(events: Seq<Result<ExecEvent>>) -> Seq<EventModel> {
    events.map_values(|e: Result<ExecEvent>| event_model(e))
}

// ---------------------------------------------------------------------------
// Establishing the stream
// ---------------------------------------------------------------------------
/// Why an attempt to establish the stream failed.
#[derive(Debug)]
pub enum EstablishFailure {
    /// The access to the guest, the connection or the call failed.
    Error(SandboxError),
    /// The call did not answer in time.
    TimedOut,
}

/// What to do after a failed attempt.
#[derive(Debug)]
pub enum EstablishStep {
    /// Forget what is known of the path to the guest and try again.
    ForgetPathAndRetry,
    /// Forget what is known of the path, restart the VM and try again.
    RestartAndRetry,
    /// Report the error.
    GiveUp(SandboxError),
}

/// The attempts to establish one stream.
#[derive(Clone, Copy, Debug, PartialEq, Eq, Structural)]
pub struct Establish {
    pub attempt: u32,
}

/// The number of attempts after which there is no other.
pub const ESTABLISH_ATTEMPTS: u32 = 3;

/// The error of a failed attempt.
pub open spec fn establish_error(failure: EstablishFailure) -> ErrorView {
    match failure {
        EstablishFailure::Error(e) => e@,
        EstablishFailure::TimedOut => ErrorView::DaemonUnavailable(
            "timed out establishing exec stream against guest RPC"@,
        ),
    }
}

/// The failure allows another attempt.
pub open spec fn establish_retryable(failure: EstablishFailure) -> bool {
    match failure {
        EstablishFailure::Error(e) => rebind_candidate(e@),
        EstablishFailure::TimedOut => true,
    }
}

impl Establish {
    /// An attempt is under way.
    pub open spec fn wf(self) -> bool {
        self.attempt < ESTABLISH_ATTEMPTS
    }

    /// Before the first attempt.
    pub fn new() -> (e: Establish)
        ensures
            e.wf(),
            e.attempt == 0,
    {
        Establish { attempt: 0 }
    }

    /// Decides what follows a failed attempt: the first failure of the channel makes the path
    /// be looked up anew, the second one restarts the VM, the third one and every other failure
    /// is reported.
    pub fn failed(&mut self, failure: EstablishFailure) -> (step: EstablishStep)
        requires
            old(self).wf(),
        ensures
            final(self).wf(),
            match step {
                EstablishStep::ForgetPathAndRetry => establish_retryable(failure) && old(
                    self,
                ).attempt == 0 && final(self).attempt == 1,
                EstablishStep::RestartAndRetry => establish_retryable(failure) && old(self).attempt
                    == 1 && final(self).attempt == 2,
                EstablishStep::GiveUp(e) => (!establish_retryable(failure) || old(self).attempt
                    == 2) && e@ == establish_error(failure) && *final(self) == *old(self),
            },
    {
        let retryable: bool = match &failure {
            EstablishFailure::Error(e) => is_rebind_candidate_error(e),
            EstablishFailure::TimedOut => true,
        };
        if retryable && self.attempt == 0 {
            self.attempt = 1;
            return EstablishStep::ForgetPathAndRetry;
        }
        if retryable && self.attempt == 1 {
            self.attempt = 2;
            return EstablishStep::RestartAndRetry;
        }
        match failure {
            EstablishFailure::Error(e) => EstablishStep::GiveUp(e),
            EstablishFailure::TimedOut => EstablishStep::GiveUp(
                SandboxError::DaemonUnavailable(
                    "timed out establishing exec stream against guest RPC".to_owned(),
                ),
            ),
        }
    }
}

/// How many of the failures in a run of them are followed by another attempt.
pub open spec fn establish_retries(attempt: u32, failures: Seq<EstablishFailure>) -> nat
    decreases failures.len(),
{
    if failures.len() == 0 || !establish_retryable(failures[0]) || attempt >= 2 {
        0
    } else {
        1 + establish_retries((attempt + 1) as u32, failures.drop_first())
    }
}

/// Whatever fails, a stream is tried at most three times.
pub proof fn law_establish_is_bounded(failures: Seq<EstablishFailure>)
    ensures
        1 + establish_retries(0, failures) <= ESTABLISH_ATTEMPTS,
{
    reveal_with_fuel(establish_retries, 4);
}

// ---------------------------------------------------------------------------
// The command line
// ---------------------------------------------------------------------------
/// The last component of a path that may be written with either kind of slash.
pub open spec fn shell_base_name(path: Seq<char>) -> Seq<char>
    decreases path.len(),
{
    if path.len() == 0 {
        path
    } else if path.last() == '/' || path.last() == '\\' {
        Seq::empty()
    } else {
        shell_base_name(path.drop_last()).push(path.last())
    }
}

/// The path names a `bash`.
pub open spec fn is_bash(path: Seq<char>) -> bool {
    let name = crate::text::lowered(shell_base_name(path));
    name == "bash"@ || name == "bash.exe"@
}

proof fn lemma_base_name_is_tail(path: Seq<char>, at: int)
    requires
        0 <= at <= path.len(),
        forall|i: int| at <= i < path.len() ==> #[trigger] path[i] != '/' && path[i] != '\\',
        0 < at ==> path[at - 1] == '/' || path[at - 1] == '\\',
    ensures
        shell_base_name(path) == path.skip(at),
    decreases path.len() - at,
{
    if at < path.len() {
        lemma_base_name_is_tail(path.drop_last(), at);
        assert(path.skip(at) == path.drop_last().skip(at).push(path.last()));
    } else {
        assert(path.skip(at) == Seq::<char>::empty());
        if at > 0 {
            assert(path.last() == path[at - 1]);
        }
    }
}

fn names_bash(path: &str) -> (yes: bool)
    ensures
        yes == is_bash(path@),
{
    let chars = crate::text::chars_of(path);
    let mut at: usize = chars.len();
    while 0 < at && chars[at - 1] != '/' && chars[at - 1] != '\\'
        invariant
            at <= chars@.len(),
            forall|i: int| at <= i < chars@.len() ==> #[trigger] chars@[i] != '/' && chars@[i] != '\\',
        decreases at,
    {
        at -= 1;
    }
    proof {
        lemma_base_name_is_tail(path@, at as int);
        assert(path@.skip(at as int) == path@.subrange(at as int, path@.len() as int));
        reveal_strlit("bash");
        reveal_strlit("bash.exe");
        assert(crate::text::lowered("bash"@) == "bash"@);
        assert(crate::text::lowered("bash.exe"@) == "bash.exe"@);
    }
    let name = crate::text::string_of_range(&chars, at, chars.len());
    crate::text::same_ignoring_case(&name, "bash") || crate::text::same_ignoring_case(
        &name,
        "bash.exe",
    )
}

/// The shell and its arguments for a command, as the platform of the guest wants them.
pub open spec fn shell_args(
    platform: GuestPlatform,
    requested: Option<Seq<char>>,
    default_shell: Seq<char>,
    command: Seq<char>,
) -> Seq<Seq<char>> {
    if platform == GuestPlatform::Windows {
        if requested is Some && is_bash(requested->Some_0) {
            seq![requested->Some_0, "-lc"@, command]
        } else {
            seq![
                match requested {
                    Some(shell) => shell,
                    None => "C:\\Program Files\\PowerShell\\7\\pwsh.exe"@,
                },
                "-NoLogo"@,
                "-NoProfile"@,
                "-NonInteractive"@,
                "-Command"@,
                command,
            ]
        }
    } else {
        seq![
            match requested {
                Some(shell) => shell,
                None => default_shell,
            },
            "-lc"@,
            command,
        ]
    }
}

/// The text of an optional slice.
pub open spec fn opt_str_view(s: Option<&str>) -> Option<Seq<char>> {
    match s {
        Some(v) => Some(v@),
        None => None,
    }
}

/// The shell and its arguments for a command.
pub fn guest_shell_args(
    platform: GuestPlatform,
    requested_shell: Option<&str>,
    default_shell: &str,
    command: &str,
) -> (args: Vec<String>)
    ensures
        crate::text::views(args@) == shell_args(
            platform,
            opt_str_view(requested_shell),
            default_shell@,
            command@,
        ),
{
    let mut args: Vec<String> = Vec::new();
    if platform == GuestPlatform::Windows {
        match requested_shell {
            Some(shell) => {
                if names_bash(shell) {
                    args.push(shell.to_owned());
                    args.push("-lc".to_owned());
                    args.push(command.to_owned());
                    assert(crate::text::views(args@) =~= seq![shell@, "-lc"@, command@]);
                    return args;
                }
                args.push(shell.to_owned());
            },
            None => {
                args.push("C:\\Program Files\\PowerShell\\7\\pwsh.exe".to_owned());
            },
        }
        args.push("-NoLogo".to_owned());
        args.push("-NoProfile".to_owned());
        args.push("-NonInteractive".to_owned());
        args.push("-Command".to_owned());
        args.push(command.to_owned());
        assert(crate::text::views(args@) =~= shell_args(
            platform,
            opt_str_view(requested_shell),
            default_shell@,
            command@,
        ));
        return args;
    }
    match requested_shell {
        Some(shell) => args.push(shell.to_owned()),
        None => args.push(default_shell.to_owned()),
    }
    args.push("-lc".to_owned());
    args.push(command.to_owned());
    assert(crate::text::views(args@) =~= shell_args(
        platform,
        opt_str_view(requested_shell),
        default_shell@,
        command@,
    ));
    args
}

// ---------------------------------------------------------------------------
// Input
// ---------------------------------------------------------------------------
/// Whether an input goes past the queue of standard input, so that it need not wait for space
/// there.
pub fn bypasses_stdin_queue(input: &ExecInput) -> (bypass: bool)
    ensures
        bypass == (*input is Signal),
{
    match input {
        ExecInput::Signal(_) => true,
        _ => false,
    }
}

/// What becomes of an input.
#[derive(Debug)]
pub enum InputAction {
    /// It is written to standard input.
    Stdin(Vec<u8>),
    /// Standard input is ended, and no other input is read.
    StdinEof,
    /// The signal goes to the control channel.
    Control(i32),
    /// The error is reported among the events.
    Report(SandboxError),
    /// Nothing.
    Drop,
}

/// That a command cannot be resized.
pub open spec fn resize_unsupported(cols: u16, rows: u16) -> ErrorView {
    ErrorView::Unsupported(
        "exec resize not supported by portproxy API: "@ + decimal(cols as nat) + "x"@ + decimal(
            rows as nat,
        ),
    )
}

/// That a command cannot be resized.
pub fn resize_error(cols: u16, rows: u16) -> (e: SandboxError)
    ensures
        e@ == resize_unsupported(cols, rows),
{
    let c = to_decimal(cols as u64);
    let r = to_decimal(rows as u64);
    SandboxError::Unsupported(
        "exec resize not supported by portproxy API: ".to_owned().concat(&c).concat("x").concat(
            &r,
        ),
    )
}

/// Decides what becomes of an input. Where standard input was closed at the start, data and its
/// end are passed over.
pub fn exec_input_action(input: ExecInput, stdin_open: bool) -> (action: InputAction)
    ensures
        match input {
            ExecInput::Data(data) => if stdin_open {
                action == InputAction::Stdin(data)
            } else {
                action is Drop
            },
            ExecInput::Eof => if stdin_open {
                action is StdinEof
            } else {
                action is Drop
            },
            ExecInput::Signal(signal) => action == InputAction::Control(signal),
            ExecInput::Resize { cols, rows } => match action {
                InputAction::Report(e) => e@ == resize_unsupported(cols, rows),
                _ => false,
            },
        },
{
    match input {
        ExecInput::Data(data) => if stdin_open {
            InputAction::Stdin(data)
        } else {
            InputAction::Drop
        },
        ExecInput::Eof => if stdin_open {
            InputAction::StdinEof
        } else {
            InputAction::Drop
        },
        ExecInput::Signal(signal) => InputAction::Control(signal),
        ExecInput::Resize { cols, rows } => InputAction::Report(resize_error(cols, rows)),
    }
}

/// The command had ended before the signal came.
pub open spec fn already_exited(code: GrpcCode, message: Seq<char>) -> bool {
    code == GrpcCode::NotFound || (code == GrpcCode::FailedPrecondition && message
        == "execution has exited"@)
}

/// Numbers the signals of a command, from one.
#[derive(Debug)]
pub struct SignalSequence {
    last: u64,
}

impl View for SignalSequence {
    type V = u64;

    /// The number of the last signal; zero before the first.
    closed spec fn view(&self) -> u64 {
        self.last
    }
}

impl SignalSequence {
    /// No signal yet.
    pub fn new() -> (s: SignalSequence)
        ensures
            s@ == 0,
    {
        SignalSequence { last: 0 }
    }

    /// The number of the last signal.
    pub fn last(&self) -> (number: u64)
        ensures
            number == self@,
    {
        self.last
    }

    /// The number of the next signal.
    pub fn next(&mut self) -> (number: u64)
        requires
            old(self)@ < u64::MAX,
        ensures
            number == old(self)@ + 1,
            final(self)@ == number,
    {
        self.last = self.last + 1;
        self.last
    }
}

/// The error to report for a signal that was refused; none where the command had ended before.
pub fn signal_failure(status: GrpcStatus) -> (e: Option<SandboxError>)
    ensures
        match e {
            Some(error) => !already_exited(status.code, status.message@) && error@
                == ErrorView::Grpc(status@),
            None => already_exited(status.code, status.message@),
        },
{
    if status.code == GrpcCode::NotFound {
        return None;
    }
    if status.code == GrpcCode::FailedPrecondition && same(&status.message, "execution has exited") {
        return None;
    }
    Some(SandboxError::Grpc(status))
}

// ---------------------------------------------------------------------------
// Output
// ---------------------------------------------------------------------------
/// What the guest sends while a command runs.
#[derive(Debug)]
pub enum ExecFrame {
    Stdout(Vec<u8>),
    Stderr(Vec<u8>),
    ExitCode(i32),
    Other,
    End,
    Failed(GrpcStatus),
}

/// The events that a frame gives, and whether it is the last.
#[derive(Debug)]
pub struct FrameOutcome {
    pub events: Vec<Result<ExecEvent>>,
    pub done: bool,
}

/// The exit code by which a guest says that a command ran out of time.
pub const TIMEOUT_EXIT_CODE: i32 = 124;

/// The events that a frame gives.
pub open spec fn frame_events(frame: ExecFrame) -> Seq<EventModel> {
    match frame {
        ExecFrame::Stdout(data) => seq![Ok(ExecEventView::Stdout(data@))],
        ExecFrame::Stderr(data) => seq![Ok(ExecEventView::Stderr(data@))],
        ExecFrame::ExitCode(code) => if code == TIMEOUT_EXIT_CODE {
            seq![Ok(ExecEventView::Timeout), Ok(ExecEventView::Exit(code))]
        } else {
            seq![Ok(ExecEventView::Exit(code))]
        },
        ExecFrame::Other => seq![],
        ExecFrame::End => seq![],
        ExecFrame::Failed(status) => seq![Err(ErrorView::Grpc(status@))],
    }
}

/// Decides what a frame gives.
pub fn exec_frame(frame: ExecFrame) -> (outcome: FrameOutcome)
    ensures
        event_models(outcome.events@) == frame_events(frame),
        outcome.done == (frame is ExitCode || frame is End || frame is Failed),
{
    let mut events: Vec<Result<ExecEvent>> = Vec::new();
    let ghost expected = frame_events(frame);
    match frame {
        ExecFrame::Stdout(data) => {
            events.push(Ok(ExecEvent::Stdout(data)));
            assert(event_models(events@) =~= expected);
            FrameOutcome { events, done: false }
        },
        ExecFrame::Stderr(data) => {
            events.push(Ok(ExecEvent::Stderr(data)));
            assert(event_models(events@) =~= expected);
            FrameOutcome { events, done: false }
        },
        ExecFrame::ExitCode(code) => {
            if code == TIMEOUT_EXIT_CODE {
                events.push(Ok(ExecEvent::Timeout));
            }
            events.push(Ok(ExecEvent::Exit(code)));
            assert(event_models(events@) =~= expected);
            FrameOutcome { events, done: true }
        },
        ExecFrame::Other => {
            assert(event_models(events@) =~= expected);
            FrameOutcome { events, done: false }
        },
        ExecFrame::End => {
            assert(event_models(events@) =~= expected);
            FrameOutcome { events, done: true }
        },
        ExecFrame::Failed(status) => {
            events.push(Err(SandboxError::Grpc(status)));
            assert(event_models(events@) =~= expected);
            FrameOutcome { events, done: true }
        },
    }
}

/// Whether the frames of a probe command show that the guest answers: it said an exit code.
pub fn probe_answered(frames: &Vec<ExecFrame>) -> (ready: bool)
    ensures
        ready == probe_ready(frames@),
{
    let mut i: usize = 0;
    assert(frames@.skip(0) == frames@);
    while i < frames.len()
        invariant
            i <= frames@.len(),
            probe_ready(frames@) == probe_ready(frames@.skip(i as int)),
        decreases frames@.len() - i,
    {
        match &frames[i] {
            ExecFrame::ExitCode(_) => return true,
            ExecFrame::Failed(_) => return false,
            ExecFrame::End => return false,
            _ => {},
        }
        assert(frames@.skip(i as int).drop_first() == frames@.skip(i + 1));
        i += 1;
    }
    false
}

/// The frames hold an exit code before any failure and before their end.
pub open spec fn probe_ready(frames: Seq<ExecFrame>) -> bool
    decreases frames.len(),
{
    if frames.len() == 0 {
        false
    } else {
        match frames[0] {
            ExecFrame::ExitCode(_) => true,
            ExecFrame::Failed(_) => false,
            ExecFrame::End => false,
            _ => probe_ready(frames.drop_first()),
        }
    }
}

// ---------------------------------------------------------------------------
// Commands run for their exit status
// ---------------------------------------------------------------------------
/// A command that the library itself runs in a guest.
#[derive(Clone, Copy, Debug, PartialEq, Eq, Structural)]
pub enum InternalCommand {
    /// Flushes the guest's file systems before a snapshot.
    FilesystemSync,
    /// Puts the staged parts of a file together.
    StagedWrite,
}

/// How a command is named where it exits with an error or ends without a status.
pub open spec fn internal_name(command: InternalCommand) -> Seq<char> {
    match command {
        InternalCommand::FilesystemSync => "guest filesystem sync"@,
        InternalCommand::StagedWrite => "legacy streamed guest write"@,
    }
}

/// What is said where a command runs out of time.
pub open spec fn internal_timeout(command: InternalCommand) -> Seq<char> {
    match command {
        InternalCommand::FilesystemSync => "guest filesystem sync timed out before snapshot"@,
        InternalCommand::StagedWrite => "legacy streamed guest write timed out"@,
    }
}

/// What an event of such a command, or the end of its events, settles; `None` where it settles
/// nothing.
pub open spec fn internal_verdict(
    command: InternalCommand,
    event: Option<EventModel>,
) -> Option<std::result::Result<(), ErrorView>> {
    match event {
        None => Some(
            Err(
                ErrorView::InvalidResponse(
                    internal_name(command) + " ended without an exit status"@,
                ),
            ),
        ),
        Some(Err(e)) => Some(Err(e)),
        Some(Ok(ExecEventView::Exit(code))) => if code == 0 {
            Some(Ok(()))
        } else {
            Some(
                Err(
                    ErrorView::InvalidResponse(
                        internal_name(command) + " exited with status "@ + signed_decimal(
                            code as int,
                        ),
                    ),
                ),
            )
        },
        Some(Ok(ExecEventView::Timeout)) => Some(
            Err(ErrorView::DaemonUnavailable(internal_timeout(command))),
        ),
        Some(Ok(_)) => None,
    }
}

/// Decides what an event of such a command, or the end of its events, settles.
pub fn internal_command_verdict(command: InternalCommand, event: Option<Result<ExecEvent>>) -> (v:
    Option<Result<()>>)
    ensures
        match v {
            None => internal_verdict(
                command,
                match event {
                    Some(e) => Some(event_model(e)),
                    None => None,
                },
            ) is None,
            Some(Ok(_)) => internal_verdict(
                command,
                match event {
                    Some(e) => Some(event_model(e)),
                    None => None,
                },
            ) == Some(std::result::Result::<(), ErrorView>::Ok(())),
            Some(Err(e)) => internal_verdict(
                command,
                match event {
                    Some(e) => Some(event_model(e)),
                    None => None,
                },
            ) == Some(std::result::Result::<(), ErrorView>::Err(e@)),
        },
{
    let name: &str = match command {
        InternalCommand::FilesystemSync => "guest filesystem sync",
        InternalCommand::StagedWrite => "legacy streamed guest write",
    };
    match event {
        None => Some(
            Err(
                SandboxError::InvalidResponse(
                    name.to_owned().concat(" ended without an exit status"),
                ),
            ),
        ),
        Some(Err(e)) => Some(Err(e)),
        Some(Ok(ExecEvent::Exit(code))) => {
            if code == 0 {
                return Some(Ok(()));
            }
            let shown = to_signed_decimal(code as i64);
            Some(
                Err(
                    SandboxError::InvalidResponse(
                        name.to_owned().concat(" exited with status ").concat(&shown),
                    ),
                ),
            )
        },
        Some(Ok(ExecEvent::Timeout)) => {
            let message: &str = match command {
                InternalCommand::FilesystemSync => "guest filesystem sync timed out before snapshot",
                InternalCommand::StagedWrite => "legacy streamed guest write timed out",
            };
            Some(Err(SandboxError::DaemonUnavailable(message.to_owned())))
        },
        Some(Ok(ExecEvent::Stdout(_))) => None,
        Some(Ok(ExecEvent::Stderr(_))) => None,
    }
}

// ---------------------------------------------------------------------------
// What runs in a guest, and what comes of it
// ---------------------------------------------------------------------------
/// A command is run by the shell that was asked for. The command itself is the last argument, as it was
/// given; before it stands the flag by which that shell takes a command.
pub proof fn law_command_is_run_by_shell(
    platform: GuestPlatform,
    requested: Option<Seq<char>>,
    default_shell: Seq<char>,
    command: Seq<char>,
)
    ensures
        shell_args(platform, requested, default_shell, command).last() == command,
        requested matches Some(shell) ==> shell_args(platform, requested, default_shell, command)[0]
            == shell,
        platform != GuestPlatform::Windows ==> {
            &&& shell_args(platform, requested, default_shell, command).len() == 3
            &&& shell_args(platform, requested, default_shell, command)[1] == "-lc"@
            &&& requested is None ==> shell_args(platform, requested, default_shell, command)[0]
                == default_shell
        },
        platform == GuestPlatform::Windows && requested is None ==> {
            &&& shell_args(platform, requested, default_shell, command)[0]
                == "C:\\Program Files\\PowerShell\\7\\pwsh.exe"@
            &&& shell_args(platform, requested, default_shell, command).len() == 6
            &&& shell_args(platform, requested, default_shell, command)[4] == "-Command"@
        },
        platform == GuestPlatform::Windows && requested is Some && is_bash(requested->Some_0)
            ==> shell_args(platform, requested, default_shell, command)[1] == "-lc"@,
{
}

/// A shell is Bash by the last name of its path, whatever stands before it and in whichever case.
pub proof fn law_bash_is_known_by_its_name(dir: Seq<char>, sign: char)
    requires
        sign == '/' || sign == '\\',
    ensures
        is_bash("bash"@),
        is_bash(dir + seq![sign] + "bash"@),
        is_bash(dir + seq![sign] + "bash.exe"@),
        !is_bash("sh"@),
        !is_bash("pwsh.exe"@),
{
    reveal_strlit("bash");
    reveal_strlit("bash.exe");
    reveal_strlit("sh");
    reveal_strlit("pwsh.exe");
    let empty = Seq::<char>::empty();
    assert(empty + "bash"@ =~= "bash"@);
    assert(empty + "sh"@ =~= "sh"@);
    assert(empty + "pwsh.exe"@ =~= "pwsh.exe"@);
    lemma_base_name(empty, "bash"@);
    lemma_base_name(empty, "sh"@);
    lemma_base_name(empty, "pwsh.exe"@);
    lemma_base_name(dir + seq![sign], "bash"@);
    lemma_base_name(dir + seq![sign], "bash.exe"@);
    assert(shell_base_name(dir + seq![sign]) == empty) by {
        assert((dir + seq![sign]).last() == sign);
    }
    assert(empty + "bash.exe"@ =~= "bash.exe"@);
    assert(crate::text::lowered("bash"@) =~= "bash"@);
    assert(crate::text::lowered("bash.exe"@) =~= "bash.exe"@);
    assert(crate::text::lowered("sh"@).len() == 2);
    assert(crate::text::lowered("pwsh.exe"@)[0] == 'p');
    assert("bash.exe"@[0] == 'b' && "bash"@.len() == 4);
}

proof fn lemma_base_name(dir: Seq<char>, name: Seq<char>)
    requires
        forall|i: int| 0 <= i < name.len() ==> #[trigger] name[i] != '/' && name[i] != '\\',
    ensures
        shell_base_name(dir + name) == shell_base_name(dir) + name,
    decreases name.len(),
{
    let path = dir + name;
    if name.len() == 0 {
        assert(path =~= dir);
        assert(shell_base_name(dir) + name =~= shell_base_name(dir));
    } else {
        let head = name.drop_last();
        assert(path.drop_last() =~= dir + head);
        assert(path.last() == name.last() && name.last() == name[name.len() - 1]);
        lemma_base_name(dir, head);
        assert((shell_base_name(dir) + head).push(name.last()) =~= shell_base_name(dir) + name);
    }
}

/// What a command writes reaches its caller as it is, under its own kind. Its exit code is told as it
/// is, and told of as a timeout before that where it is the code of one.
pub proof fn law_frames_are_told_unchanged(frame: ExecFrame)
    ensures
        frame matches ExecFrame::Stdout(data) ==> frame_events(frame) == seq![
            EventModel::Ok(ExecEventView::Stdout(data@)),
        ],
        frame matches ExecFrame::Stderr(data) ==> frame_events(frame) == seq![
            EventModel::Ok(ExecEventView::Stderr(data@)),
        ],
        frame matches ExecFrame::ExitCode(code) ==> {
            &&& frame_events(frame).last() == EventModel::Ok(ExecEventView::Exit(code))
            &&& code != 124 ==> frame_events(frame).len() == 1
            &&& code == 124 ==> frame_events(frame) == seq![
                EventModel::Ok(ExecEventView::Timeout),
                EventModel::Ok(ExecEventView::Exit(124)),
            ]
        },
        frame is Other || frame is End ==> frame_events(frame).len() == 0,
        frame matches ExecFrame::Failed(status) ==> frame_events(frame) == seq![
            EventModel::Err(ErrorView::Grpc(status@)),
        ],
{
}

/// A guest answers a probe where an exit code comes before any failure and before the end.
pub proof fn law_probe_needs_exit_code(frames: Seq<ExecFrame>)
    ensures
        probe_ready(frames) <==> exists|i: int|
            0 <= i < frames.len() && (#[trigger] frames[i]) is ExitCode && forall|j: int|
                0 <= j < i ==> !((#[trigger] frames[j]) is Failed) && !(frames[j] is End),
    decreases frames.len(),
{
    if frames.len() > 0 {
        let rest = frames.drop_first();
        law_probe_needs_exit_code(rest);
        if frames[0] is ExitCode {
            assert(probe_ready(frames));
        } else if frames[0] is Failed || frames[0] is End {
            assert(!probe_ready(frames));
        } else {
            if probe_ready(rest) {
                let i = choose|i: int|
                    0 <= i < rest.len() && (#[trigger] rest[i]) is ExitCode && forall|j: int|
                        0 <= j < i ==> !((#[trigger] rest[j]) is Failed) && !(rest[j] is End);
                assert(frames[i + 1] == rest[i]);
                assert forall|j: int| 0 <= j < i + 1 implies !((
                #[trigger] frames[j]) is Failed) && !(frames[j] is End) by {
                    if j > 0 {
                        assert(rest[j - 1] == frames[j]);
                    }
                }
            }
            if exists|i: int|
                0 <= i < frames.len() && (#[trigger] frames[i]) is ExitCode && forall|j: int|
                    0 <= j < i ==> !((#[trigger] frames[j]) is Failed) && !(frames[j] is End) {
                let i = choose|i: int|
                    0 <= i < frames.len() && (#[trigger] frames[i]) is ExitCode && forall|j: int|
                        0 <= j < i ==> !((#[trigger] frames[j]) is Failed) && !(frames[j] is End);
                assert(rest[i - 1] == frames[i]);
                assert forall|j: int| 0 <= j < i - 1 implies !((
                #[trigger] rest[j]) is Failed) && !(rest[j] is End) by {
                    assert(frames[j + 1] == rest[j]);
                }
            }
        }
    }
}

/// A command that the library runs succeeded where it exited with zero, and only there. Its output says
/// nothing of that; any other exit, a timeout, an error and the end of its events are failures.
pub proof fn law_internal_command_succeeds_with_zero(
    command: InternalCommand,
    code: i32,
    data: Seq<u8>,
    error: ErrorView,
)
    ensures
        internal_verdict(command, Some(EventModel::Ok(ExecEventView::Exit(code)))) is Some,
        internal_verdict(command, Some(EventModel::Ok(ExecEventView::Exit(code))))->Some_0 is Ok
            <==> code == 0,
        internal_verdict(command, Some(EventModel::Ok(ExecEventView::Stdout(data)))) is None,
        internal_verdict(command, Some(EventModel::Ok(ExecEventView::Stderr(data)))) is None,
        internal_verdict(command, Some(EventModel::Err(error))) == Some(
            std::result::Result::<(), ErrorView>::Err(error),
        ),
        internal_verdict(command, None) matches Some(Err(_)),
        internal_verdict(command, Some(EventModel::Ok(ExecEventView::Timeout))) matches Some(
            Err(ErrorView::DaemonUnavailable(_)),
        ),
{
}

/// A signal that comes too late, for a command that has ended, is no error; every other refusal is.
pub proof fn law_late_signal_is_no_error(code: GrpcCode, message: Seq<char>)
    ensures
        already_exited(GrpcCode::NotFound, message),
        already_exited(GrpcCode::FailedPrecondition, "execution has exited"@),
        code != GrpcCode::NotFound && code != GrpcCode::FailedPrecondition ==> !already_exited(
            code,
            message,
        ),
        message != "execution has exited"@ ==> !already_exited(
            GrpcCode::FailedPrecondition,
            message,
        ),
{
}

/// A stream is established again after a broken channel or where time ran out, and after no other
/// failure; the error that is told is the one that was met.
pub proof fn law_establishing_is_retried(failure: EstablishFailure)
    ensures
        failure is TimedOut ==> establish_retryable(failure) && establish_error(failure)
            is DaemonUnavailable,
        failure matches EstablishFailure::Error(e) ==> establish_retryable(failure)
            == rebind_candidate(e@) && establish_error(failure) == e@,
{
}

/// An event is seen as what it is, and an error in its place as that error.
pub proof fn law_events_are_seen_as_they_are(event: ExecEvent, error: SandboxError)
    ensures
        event matches ExecEvent::Stdout(data) ==> event@ == ExecEventView::Stdout(data@),
        event matches ExecEvent::Stderr(data) ==> event@ == ExecEventView::Stderr(data@),
        event matches ExecEvent::Exit(code) ==> event@ == ExecEventView::Exit(code),
        event is Timeout ==> event@ is Timeout,
        event_model(Ok(event)) == EventModel::Ok(event@),
        event_model(Err(error)) == EventModel::Err(error@),
{
}

/// Events keep their order and their number.
pub proof fn law_events_are_seen_in_order(events: Seq<Result<ExecEvent>>, i: int)
    ensures
        event_models(events).len() == events.len(),
        0 <= i < events.len() ==> event_models(events)[i] == event_model(events[i]),
{
}

/// What a failed command of the library's own is called.
pub proof fn law_own_commands_are_named(command: InternalCommand, cols: u16, rows: u16)
    ensures
        command is FilesystemSync ==> internal_name(command) == "guest filesystem sync"@
            && internal_timeout(command) == "guest filesystem sync timed out before snapshot"@,
        command is StagedWrite ==> internal_name(command) == "legacy streamed guest write"@
            && internal_timeout(command) == "legacy streamed guest write timed out"@,
        resize_unsupported(cols, rows) == ErrorView::Unsupported(
            "exec resize not supported by portproxy API: "@ + decimal(cols as nat) + "x"@ + decimal(
                rows as nat,
            ),
        ),
{
}

/// A shell that was asked for is seen as it was named.
pub proof fn law_asked_shell_is_seen_as_named(shell: &str)
    ensures
        opt_str_view(Some(shell)) == Some(shell@),
        opt_str_view(None) is None,
{
}

/// A command for another PowerShell is run without a logo, a profile or questions; a stream that could not
/// be established in time, and a command that failed, are told as such.
pub proof fn law_failed_commands_are_told(
    shell: Seq<char>,
    default_shell: Seq<char>,
    command: Seq<char>,
    own: InternalCommand,
    code: i32,
)
    ensures
        !is_bash(shell) ==> shell_args(
            GuestPlatform::Windows,
            Some(shell),
            default_shell,
            command,
        ) == seq![shell, "-NoLogo"@, "-NoProfile"@, "-NonInteractive"@, "-Command"@, command],
        establish_error(EstablishFailure::TimedOut) == ErrorView::DaemonUnavailable(
            "timed out establishing exec stream against guest RPC"@,
        ),
        code != 0 ==> internal_verdict(own, Some(EventModel::Ok(ExecEventView::Exit(code))))
            == Some(
            std::result::Result::<(), ErrorView>::Err(
                ErrorView::InvalidResponse(
                    internal_name(own) + " exited with status "@ + signed_decimal(code as int),
                ),
            ),
        ),
        internal_verdict(own, None) == Some(
            std::result::Result::<(), ErrorView>::Err(
                ErrorView::InvalidResponse(internal_name(own) + " ended without an exit status"@),
            ),
        ),
{
}

} // verus!
