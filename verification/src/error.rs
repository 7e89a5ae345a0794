//! What can go wrong, and which failures allow another attempt.

use crate::span::duration_text;
use crate::span::Span;
use crate::text::contains;
use crate::text::lowered;
use crate::text::occurs;
use crate::text::same_ignoring_case;
use crate::text::to_lower;
use vstd::prelude::*;

verus! {

/// The status codes of gRPC.
#[derive(Clone, Copy, Debug, PartialEq, Eq, Structural)]
pub enum GrpcCode {
    Success,
    Cancelled,
    Unknown,
    InvalidArgument,
    DeadlineExceeded,
    NotFound,
    AlreadyExists,
    PermissionDenied,
    ResourceExhausted,
    FailedPrecondition,
    Aborted,
    OutOfRange,
    Unimplemented,
    Internal,
    Unavailable,
    DataLoss,
    Unauthenticated,
}

impl GrpcCode {
    /// The number by which gRPC sends a code.
    pub open spec fn spec_number(self) -> i32 {
        match self {
            GrpcCode::Success => 0,
            GrpcCode::Cancelled => 1,
            GrpcCode::Unknown => 2,
            GrpcCode::InvalidArgument => 3,
            GrpcCode::DeadlineExceeded => 4,
            GrpcCode::NotFound => 5,
            GrpcCode::AlreadyExists => 6,
            GrpcCode::PermissionDenied => 7,
            GrpcCode::ResourceExhausted => 8,
            GrpcCode::FailedPrecondition => 9,
            GrpcCode::Aborted => 10,
            GrpcCode::OutOfRange => 11,
            GrpcCode::Unimplemented => 12,
            GrpcCode::Internal => 13,
            GrpcCode::Unavailable => 14,
            GrpcCode::DataLoss => 15,
            GrpcCode::Unauthenticated => 16,
        }
    }

    /// The number by which gRPC sends a code.
    pub fn number(&self) -> (n: i32)
        ensures
            n == self.spec_number(),
    {
        match self {
            GrpcCode::Success => 0,
            GrpcCode::Cancelled => 1,
            GrpcCode::Unknown => 2,
            GrpcCode::InvalidArgument => 3,
            GrpcCode::DeadlineExceeded => 4,
            GrpcCode::NotFound => 5,
            GrpcCode::AlreadyExists => 6,
            GrpcCode::PermissionDenied => 7,
            GrpcCode::ResourceExhausted => 8,
            GrpcCode::FailedPrecondition => 9,
            GrpcCode::Aborted => 10,
            GrpcCode::OutOfRange => 11,
            GrpcCode::Unimplemented => 12,
            GrpcCode::Internal => 13,
            GrpcCode::Unavailable => 14,
            GrpcCode::DataLoss => 15,
            GrpcCode::Unauthenticated => 16,
        }
    }
}

/// The status with which a gRPC call failed. Where an error of this side stands behind it, its
/// `source` holds the debug text of that error.
#[derive(Debug)]
pub struct GrpcStatus {
    pub code: GrpcCode,
    pub message: String,
    pub source: Option<String>,
}

/// The model of a `GrpcStatus`.
pub struct StatusView {
    pub code: GrpcCode,
    pub message: Seq<char>,
    pub source: Option<Seq<char>>,
}

impl View for GrpcStatus {
    type V = StatusView;

    open spec fn view(&self) -> StatusView {
        StatusView {
            code: self.code,
            message: self.message@,
            source: match self.source {
                Some(source) => Some(source@),
                None => None,
            },
        }
    }
}

/// The text that `tonic::Status` displays, of a status with the given code number and message and
/// no source.
pub uninterp spec fn grpc_status_text(code: i32, message: Seq<char>) -> Seq<char>;

/// Calls the `Display` impl of `tonic::Status`, whose result depends on the code and the message
/// alone for a status that was made from these two.
#[verifier::external_body]
fn show_status(code: i32, message: &str) -> (text: String)
    ensures
        text@ == grpc_status_text(code, message@),
{
    tonic::Status::new(tonic::Code::from_i32(code), message).to_string()
}

/// What the text of a status says of the error behind it.
pub open spec fn source_note(source: Option<Seq<char>>) -> Seq<char> {
    match source {
        Some(source) => ", source: "@ + source,
        None => Seq::empty(),
    }
}

/// The text of a status: its code and message, and behind them its source.
pub open spec fn status_text(s: StatusView) -> Seq<char> {
    grpc_status_text(s.code.spec_number(), s.message) + source_note(s.source)
}

impl GrpcStatus {
    /// The text of the status: its code and message, and behind them its source.
    pub fn text(&self) -> (text: String)
        ensures
            text@ == status_text(self@),
    {
        let shown = show_status(self.code.number(), &self.message);
        match &self.source {
            Some(source) => shown.concat(", source: ").concat(source),
            None => shown,
        }
    }
}

/// What can go wrong in the sandbox.
#[derive(Debug)]
pub enum SandboxError {
    Io(String),
    Transport(String),
    Grpc(GrpcStatus),
    InvalidEndpoint(String),
    InvalidResponse(String),
    SessionNotFound(String),
    DaemonUnavailable(String),
    /// The VM runs, but its guest RPC sidecar did not answer in time. Without `restarted` the
    /// guest was created or started by the current operation and is still booting; with it, a VM
    /// that was running before stayed silent after one bounded local restart.
    GuestRpcNotReady { vm_id: String, endpoint: String, waited: Span, restarted: bool },
    ResourceExhausted(String),
    FenceConflict(String),
    Unsupported(String),
    InvalidConfig(String),
}

/// The model of a `SandboxError`.
pub enum ErrorView {
    Io(Seq<char>),
    Transport(Seq<char>),
    Grpc(StatusView),
    InvalidEndpoint(Seq<char>),
    InvalidResponse(Seq<char>),
    SessionNotFound(Seq<char>),
    DaemonUnavailable(Seq<char>),
    GuestRpcNotReady { vm_id: Seq<char>, endpoint: Seq<char>, waited: Span, restarted: bool },
    ResourceExhausted(Seq<char>),
    FenceConflict(Seq<char>),
    Unsupported(Seq<char>),
    InvalidConfig(Seq<char>),
}

impl View for SandboxError {
    type V = ErrorView;

    open spec fn view(&self) -> ErrorView {
        match self {
            SandboxError::Io(m) => ErrorView::Io(m@),
            SandboxError::Transport(m) => ErrorView::Transport(m@),
            SandboxError::Grpc(s) => ErrorView::Grpc(s@),
            SandboxError::InvalidEndpoint(m) => ErrorView::InvalidEndpoint(m@),
            SandboxError::InvalidResponse(m) => ErrorView::InvalidResponse(m@),
            SandboxError::SessionNotFound(m) => ErrorView::SessionNotFound(m@),
            SandboxError::DaemonUnavailable(m) => ErrorView::DaemonUnavailable(m@),
            SandboxError::GuestRpcNotReady { vm_id, endpoint, waited, restarted } => {
                ErrorView::GuestRpcNotReady {
                    vm_id: vm_id@,
                    endpoint: endpoint@,
                    waited: *waited,
                    restarted: *restarted,
                }
            },
            SandboxError::ResourceExhausted(m) => ErrorView::ResourceExhausted(m@),
            SandboxError::FenceConflict(m) => ErrorView::FenceConflict(m@),
            SandboxError::Unsupported(m) => ErrorView::Unsupported(m@),
            SandboxError::InvalidConfig(m) => ErrorView::InvalidConfig(m@),
        }
    }
}

pub type Result<T> = std::result::Result<T, SandboxError>;

/// The model of a result that holds text.
pub open spec fn outcome(r: Result<String>) -> std::result::Result<Seq<char>, ErrorView> {
    match r {
        Ok(s) => Ok(s@),
        Err(e) => Err(e@),
    }
}

/// What is said of a guest that stayed silent after a restart.
pub open spec fn restart_note(restarted: bool) -> Seq<char> {
    if restarted {
        " (still not ready after one bounded local restart)"@
    } else {
        ""@
    }
}

/// What is said of a guest that stayed silent after a restart.
pub fn guest_rpc_restart_note(restarted: &bool) -> (note: &'static str)
    ensures
        note@ == restart_note(*restarted),
{
    if *restarted {
        " (still not ready after one bounded local restart)"
    } else {
        ""
    }
}

/// The text of an error.
pub open spec fn error_text(e: ErrorView) -> Seq<char> {
    match e {
        ErrorView::Io(m) => "io error: "@ + m,
        ErrorView::Transport(m) => "transport error: "@ + m,
        ErrorView::Grpc(s) => "gRPC status: "@ + status_text(s),
        ErrorView::InvalidEndpoint(m) => "invalid endpoint: "@ + m,
        ErrorView::InvalidResponse(m) => "invalid response: "@ + m,
        ErrorView::SessionNotFound(m) => "session not found: "@ + m,
        ErrorView::DaemonUnavailable(m) => "daemon unavailable: "@ + m,
        ErrorView::GuestRpcNotReady { vm_id, endpoint, waited, restarted } => {
            "guest RPC not ready for vm "@ + vm_id + " on "@ + endpoint + " after "@
                + duration_text(waited.secs, waited.nanos) + restart_note(restarted)
        },
        ErrorView::ResourceExhausted(m) => "resource exhausted: "@ + m,
        ErrorView::FenceConflict(m) => "ownership fence conflict: "@ + m,
        ErrorView::Unsupported(m) => "unsupported operation: "@ + m,
        ErrorView::InvalidConfig(m) => "invalid config: "@ + m,
    }
}

impl SandboxError {
    /// A wait that an error reports is a well-formed span.
    pub open spec fn wf(&self) -> bool {
        match self {
            SandboxError::GuestRpcNotReady { waited, .. } => waited.wf(),
            _ => true,
        }
    }

    /// The text of the error.
    pub fn text(&self) -> (text: String)
        requires
            self.wf(),
        ensures
            text@ == error_text(self@),
    {
        match self {
            SandboxError::Io(m) => "io error: ".to_owned().concat(m),
            SandboxError::Transport(m) => "transport error: ".to_owned().concat(m),
            SandboxError::Grpc(s) => {
                let shown = s.text();
                "gRPC status: ".to_owned().concat(&shown)
            },
            SandboxError::InvalidEndpoint(m) => "invalid endpoint: ".to_owned().concat(m),
            SandboxError::InvalidResponse(m) => "invalid response: ".to_owned().concat(m),
            SandboxError::SessionNotFound(m) => "session not found: ".to_owned().concat(m),
            SandboxError::DaemonUnavailable(m) => "daemon unavailable: ".to_owned().concat(m),
            SandboxError::GuestRpcNotReady { vm_id, endpoint, waited, restarted } => {
                let span = waited.text();
                "guest RPC not ready for vm ".to_owned().concat(vm_id).concat(" on ").concat(
                    endpoint,
                ).concat(" after ").concat(&span).concat(guest_rpc_restart_note(restarted))
            },
            SandboxError::ResourceExhausted(m) => "resource exhausted: ".to_owned().concat(m),
            SandboxError::FenceConflict(m) => "ownership fence conflict: ".to_owned().concat(m),
            SandboxError::Unsupported(m) => "unsupported operation: ".to_owned().concat(m),
            SandboxError::InvalidConfig(m) => "invalid config: ".to_owned().concat(m),
        }
    }
}

/// The text speaks of a channel that broke.
pub open spec fn tells_of_broken_channel(lower: Seq<char>) -> bool {
    ||| occurs(lower, "connection reset"@)
    ||| occurs(lower, "broken pipe"@)
    ||| occurs(lower, "connection closed"@)
    ||| occurs(lower, "operation was canceled"@)
    ||| occurs(lower, "canceled"@)
    ||| occurs(lower, "connection refused"@)
}

fn mentions_broken_channel(lower: &str) -> (yes: bool)
    ensures
        yes == tells_of_broken_channel(lower@),
{
    contains(lower, "connection reset") || contains(lower, "broken pipe") || contains(
        lower,
        "connection closed",
    ) || contains(lower, "operation was canceled") || contains(lower, "canceled") || contains(
        lower,
        "connection refused",
    )
}

/// The error authorizes a move of the session to another endpoint: a channel failure, in
/// whichever form it came, or a guest that stayed silent after its one local restart.
pub open spec fn rebind_candidate(e: ErrorView) -> bool {
    match e {
        ErrorView::Transport(_) => true,
        ErrorView::Grpc(status) => {
            ||| status.code == GrpcCode::Unavailable
            ||| status.code == GrpcCode::Unknown
            ||| status.code == GrpcCode::Cancelled
            ||| occurs(lowered(status.message), "transport error"@)
            ||| tells_of_broken_channel(lowered(status.message))
        },
        ErrorView::GuestRpcNotReady { restarted, .. } => restarted,
        ErrorView::DaemonUnavailable(message) => {
            ||| occurs(lowered(message), "transport"@)
            ||| tells_of_broken_channel(lowered(message))
        },
        _ => false,
    }
}

/// Whether an error authorizes a move of the session to another endpoint.
pub fn is_rebind_candidate_error(err: &SandboxError) -> (yes: bool)
    ensures
        yes == rebind_candidate(err@),
{
    match err {
        SandboxError::Transport(_) => true,
        SandboxError::Grpc(status) => {
            let message = to_lower(&status.message);
            status.code == GrpcCode::Unavailable || status.code == GrpcCode::Unknown || status.code
                == GrpcCode::Cancelled || contains(&message, "transport error")
                || mentions_broken_channel(&message)
        },
        SandboxError::GuestRpcNotReady { restarted, .. } => *restarted,
        SandboxError::DaemonUnavailable(message) => {
            let lower = to_lower(message);
            contains(&lower, "transport") || mentions_broken_channel(&lower)
        },
        _ => false,
    }
}

/// The guest does not know the method: it says so by its code, or by the message of an older
/// build, in any case of its letters.
pub open spec fn method_unimplemented(code: GrpcCode, message: Seq<char>) -> bool {
    code == GrpcCode::Unimplemented || lowered(message) == lowered(
        "operation is not implemented or not supported"@,
    )
}

/// Whether a status says that the guest does not know the method.
pub fn portproxy_method_is_unimplemented(status: &GrpcStatus) -> (yes: bool)
    ensures
        yes == method_unimplemented(status.code, status.message@),
{
    status.code == GrpcCode::Unimplemented || same_ignoring_case(
        &status.message,
        "operation is not implemented or not supported",
    )
}

// ---------------------------------------------------------------------------
// What errors tell
// ---------------------------------------------------------------------------
/// A broken channel lets a session move, in whichever form it comes; a refused request does not.
pub proof fn law_broken_channel_moves_session(status: StatusView, message: Seq<char>)
    ensures
        rebind_candidate(ErrorView::Transport(message)),
        status.code == GrpcCode::Unavailable || status.code == GrpcCode::Unknown || status.code
            == GrpcCode::Cancelled ==> rebind_candidate(ErrorView::Grpc(status)),
        status.code == GrpcCode::NotFound && status.message.len() == 0 ==> !rebind_candidate(
            ErrorView::Grpc(status),
        ),
        status.code == GrpcCode::InvalidArgument && status.message.len() == 0 ==> !rebind_candidate(
            ErrorView::Grpc(status),
        ),
        status.code == GrpcCode::PermissionDenied && status.message.len() == 0
            ==> !rebind_candidate(ErrorView::Grpc(status)),
        occurs(lowered(status.message), "connection refused"@) || occurs(
            lowered(status.message),
            "connection reset"@,
        ) || occurs(lowered(status.message), "broken pipe"@) || occurs(
            lowered(status.message),
            "transport error"@,
        ) ==> rebind_candidate(ErrorView::Grpc(status)),
        occurs(lowered(message), "connection refused"@) || occurs(
            lowered(message),
            "connection reset"@,
        ) || occurs(lowered(message), "broken pipe"@) || occurs(lowered(message), "transport"@)
            ==> rebind_candidate(ErrorView::DaemonUnavailable(message)),
        !rebind_candidate(ErrorView::InvalidResponse(message)),
        !rebind_candidate(ErrorView::InvalidConfig(message)),
        !rebind_candidate(ErrorView::SessionNotFound(message)),
        !rebind_candidate(ErrorView::FenceConflict(message)),
        !rebind_candidate(ErrorView::Unsupported(message)),
        !rebind_candidate(ErrorView::ResourceExhausted(message)),
        !rebind_candidate(ErrorView::InvalidEndpoint(message)),
        !rebind_candidate(ErrorView::Io(message)),
{
    reveal_strlit("connection reset");
    reveal_strlit("broken pipe");
    reveal_strlit("connection closed");
    reveal_strlit("operation was canceled");
    reveal_strlit("canceled");
    reveal_strlit("connection refused");
    reveal_strlit("transport error");
    assert(lowered(status.message).len() == status.message.len());
}

/// The text of an error holds its message, behind what kind of error it is.
pub proof fn law_error_text_holds_message(m: Seq<char>)
    ensures
        error_text(ErrorView::Io(m)) == "io error: "@ + m,
        error_text(ErrorView::Transport(m)) == "transport error: "@ + m,
        error_text(ErrorView::InvalidEndpoint(m)) == "invalid endpoint: "@ + m,
        error_text(ErrorView::InvalidResponse(m)) == "invalid response: "@ + m,
        error_text(ErrorView::SessionNotFound(m)) == "session not found: "@ + m,
        error_text(ErrorView::DaemonUnavailable(m)) == "daemon unavailable: "@ + m,
        error_text(ErrorView::ResourceExhausted(m)) == "resource exhausted: "@ + m,
        error_text(ErrorView::FenceConflict(m)) == "ownership fence conflict: "@ + m,
        error_text(ErrorView::Unsupported(m)) == "unsupported operation: "@ + m,
        error_text(ErrorView::InvalidConfig(m)) == "invalid config: "@ + m,
{
}

/// A guest does not know a method where it says so by its code, or by the words of an older build.
pub proof fn law_unknown_method_is_recognized(code: GrpcCode, message: Seq<char>)
    ensures
        method_unimplemented(GrpcCode::Unimplemented, message),
        method_unimplemented(code, "operation is not implemented or not supported"@),
        code != GrpcCode::Unimplemented && message.len() == 0 ==> !method_unimplemented(
            code,
            message,
        ),
{
    reveal_strlit("operation is not implemented or not supported");
    assert(lowered(message).len() == message.len());
}

/// Each code has its own number.
pub proof fn law_codes_have_numbers(a: GrpcCode, b: GrpcCode)
    ensures
        a.spec_number() == b.spec_number() ==> a == b,
        0 <= a.spec_number() <= 16,
        GrpcCode::Success.spec_number() == 0,
        GrpcCode::NotFound.spec_number() == 5,
        GrpcCode::Unimplemented.spec_number() == 12,
        GrpcCode::Unavailable.spec_number() == 14,
        GrpcCode::DeadlineExceeded.spec_number() == 4,
{
}

/// An error is seen as what it is: its kind, its message and all that it holds.
pub proof fn law_errors_are_seen_as_they_are(e: SandboxError, s: GrpcStatus)
    ensures
        e matches SandboxError::Io(m) ==> e@ == ErrorView::Io(m@),
        e matches SandboxError::Transport(m) ==> e@ == ErrorView::Transport(m@),
        e matches SandboxError::Grpc(m) ==> e@ == ErrorView::Grpc(m@),
        e matches SandboxError::InvalidEndpoint(m) ==> e@ == ErrorView::InvalidEndpoint(m@),
        e matches SandboxError::InvalidResponse(m) ==> e@ == ErrorView::InvalidResponse(m@),
        e matches SandboxError::SessionNotFound(m) ==> e@ == ErrorView::SessionNotFound(m@),
        e matches SandboxError::DaemonUnavailable(m) ==> e@ == ErrorView::DaemonUnavailable(m@),
        e matches SandboxError::ResourceExhausted(m) ==> e@ == ErrorView::ResourceExhausted(m@),
        e matches SandboxError::FenceConflict(m) ==> e@ == ErrorView::FenceConflict(m@),
        e matches SandboxError::Unsupported(m) ==> e@ == ErrorView::Unsupported(m@),
        e matches SandboxError::InvalidConfig(m) ==> e@ == ErrorView::InvalidConfig(m@),
        e matches SandboxError::GuestRpcNotReady { vm_id, endpoint, waited, restarted } ==> e@ == (
        ErrorView::GuestRpcNotReady { vm_id: vm_id@, endpoint: endpoint@, waited, restarted }),
        s@.code == s.code && s@.message == s.message@,
        s.source matches Some(source) ==> s@.source == Some(source@),
        s.source is None ==> s@.source is None,
{
}

/// A channel is broken where a lost connection, or a call that was given up for one, is told of.
pub proof fn law_words_of_broken_channels(a: Seq<char>, b: Seq<char>)
    ensures
        tells_of_broken_channel(a + "connection reset"@ + b),
        tells_of_broken_channel(a + "broken pipe"@ + b),
        tells_of_broken_channel(a + "connection closed"@ + b),
        tells_of_broken_channel(a + "operation was canceled"@ + b),
        tells_of_broken_channel(a + "canceled"@ + b),
        tells_of_broken_channel(a + "connection refused"@ + b),
        !tells_of_broken_channel(Seq::empty()),
{
    lemma_stands_between(a, "connection reset"@, b);
    lemma_stands_between(a, "broken pipe"@, b);
    lemma_stands_between(a, "connection closed"@, b);
    lemma_stands_between(a, "operation was canceled"@, b);
    lemma_stands_between(a, "canceled"@, b);
    lemma_stands_between(a, "connection refused"@, b);
    reveal_strlit("connection reset");
    reveal_strlit("broken pipe");
    reveal_strlit("connection closed");
    reveal_strlit("operation was canceled");
    reveal_strlit("canceled");
    reveal_strlit("connection refused");
}

proof fn lemma_stands_between(a: Seq<char>, word: Seq<char>, b: Seq<char>)
    ensures
        occurs(a + word + b, word),
{
    let s = a + word + b;
    assert(s.subrange(a.len() as int, (a.len() + word.len()) as int) =~= word);
    assert(crate::text::occurs_at(s, word, a.len() as int));
}

/// What is said of a restart is said only where there was one, and what is said of a source only where
/// there is one.
pub proof fn law_notes_are_told_where_they_hold(source: Seq<char>)
    ensures
        restart_note(true) == " (still not ready after one bounded local restart)"@,
        restart_note(false).len() == 0,
        source_note(Some(source)) == ", source: "@ + source,
        source_note(None).len() == 0,
{
    reveal_strlit("");
    assert(""@.len() == 0);
}

/// An outcome is seen as what it is.
pub proof fn law_outcome_is_seen_as_it_is(text: String, e: SandboxError)
    ensures
        outcome(Ok(text)) == std::result::Result::<Seq<char>, ErrorView>::Ok(text@),
        outcome(Err(e)) == std::result::Result::<Seq<char>, ErrorView>::Err(e@),
{
}

/// The text of a status, and of a guest that stays silent, hold all that is known of them.
pub proof fn law_status_and_silence_are_told_whole(
    s: StatusView,
    vm_id: Seq<char>,
    endpoint: Seq<char>,
    waited: Span,
    restarted: bool,
)
    ensures
        error_text(ErrorView::Grpc(s)) == "gRPC status: "@ + (grpc_status_text(
            s.code.spec_number(),
            s.message,
        ) + source_note(s.source)),
        error_text(ErrorView::GuestRpcNotReady { vm_id, endpoint, waited, restarted })
            == "guest RPC not ready for vm "@ + vm_id + " on "@ + endpoint + " after "@
            + duration_text(waited.secs, waited.nanos) + restart_note(restarted),
{
}

} // verus!
