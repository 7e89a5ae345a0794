//! Freestyle: interactive shells over its terminal WebSocket.

use crate::error::ErrorView;
use crate::error::Result;
use crate::error::SandboxError;
use crate::exec::opt_str_view;
use crate::freestyle::websocket_api_url;
use crate::freestyle::websocket_url;
use crate::freestyle::FreestyleControl;
use crate::freestyle_api::http_status_text;
use crate::freestyle_api::show_http_status;
use crate::json::integer_field;
use crate::json::json_integer_field;
use crate::json::json_string_field;
use crate::json::string_field;
use crate::numeral::decimal;
use crate::numeral::to_decimal;
use crate::shell::quoted;
use crate::shell::quoted_all;
use crate::shell::shell_quote;
use crate::shell::shell_words_join;
use crate::shell::ShellEvent;
use crate::shell::ShellFrameOutcome;
use crate::shell::ShellInput;
use crate::shell::ShellOptions;
use crate::table::lists;
use crate::table::StringMap;
use crate::text::join;
use crate::text::joined;
use crate::text::same;
use crate::text::trim;
use crate::text::trimmed;
use crate::text::views;
use crate::vm::opt_view;
use crate::wire::percent_encode;
use crate::wire::percent_encoded;
use vstd::prelude::*;

verus! {

// ---------------------------------------------------------------------------
// The command line and the URL
// ---------------------------------------------------------------------------
/// An environment variable as a word for `env`.
pub open spec fn assignment(entry: (String, String)) -> Seq<char> {
    entry.0@ + "="@ + quoted(entry.1@)
}

/// Environment variables as words for `env`.
pub open spec fn assignments(entries: Seq<(String, String)>) -> Seq<Seq<char>> {
    entries.map_values(|e: (String, String)| assignment(e))
}

/// The program of a shell and its arguments, each quoted.
pub open spec fn program_line(opts: ShellOptions) -> Seq<char> {
    let program = match opts.shell {
        Some(s) => s@,
        None => "bash"@,
    };
    joined(quoted_all(seq![program] + views(opts.args@)), " "@)
}

/// The program of a shell, in its directory where one is given.
pub open spec fn program_in_directory(opts: ShellOptions) -> Seq<char> {
    match opts.cwd {
        Some(cwd) => if trimmed(cwd@).len() > 0 {
            "cd "@ + quoted(cwd@) + " && exec "@ + program_line(opts)
        } else {
            program_line(opts)
        },
        None => program_line(opts),
    }
}

/// The command line of a shell, the environment being listed in some order.
pub open spec fn shell_line(opts: ShellOptions, entries: Seq<(String, String)>) -> Seq<char> {
    if entries.len() > 0 {
        "env "@ + joined(assignments(entries), " "@) + " "@ + program_in_directory(opts)
    } else {
        program_in_directory(opts)
    }
}

/// A parameter of a query, with its value percent-encoded.
pub open spec fn parameter(key: Seq<char>, value: Seq<char>) -> Seq<char> {
    key + "="@ + percent_encoded(value)
}

/// A parameter with a number, where there is one.
pub open spec fn number_parameter(key: Seq<char>, n: Option<u16>) -> Seq<Seq<char>> {
    match n {
        Some(n) => seq![parameter(key, decimal(n as nat))],
        None => Seq::empty(),
    }
}

/// The parameters that open a terminal.
pub open spec fn terminal_parameters(
    line: Seq<char>,
    cols: Option<u16>,
    rows: Option<u16>,
    linux_user: Option<Seq<char>>,
) -> Seq<Seq<char>> {
    seq![parameter("exec"@, line)] + number_parameter("cols"@, cols) + number_parameter(
        "rows"@,
        rows,
    ) + (match linux_user {
        Some(user) => seq![parameter("linuxUser"@, user)],
        None => Seq::<Seq<char>>::empty(),
    })
}

fn write_assignments(env: &StringMap) -> (words: Vec<String>)
    ensures
        views(words@) == assignments(env.listed()),
{
    let n: usize = env.len();
    let ghost all = assignments(env.listed());
    let mut words: Vec<String> = Vec::new();
    let mut i: usize = 0;
    assert(views(words@) =~= all.take(0));
    while i < n
        invariant
            i <= n,
            n == env.listed().len(),
            all == assignments(env.listed()),
            views(words@) == all.take(i as int),
        decreases n - i,
    {
        let ghost before = views(words@);
        let value = shell_quote(env.value_at(i));
        words.push(env.key_at(i).clone().concat("=").concat(&value));
        assert(views(words@) =~= before.push(assignment(env.listed()[i as int])));
        assert(all.take(i + 1) =~= all.take(i as int).push(all[i as int]));
        i += 1;
    }
    assert(all.take(all.len() as int) =~= all);
    words
}

fn write_program(opts: &ShellOptions) -> (line: String)
    ensures
        line@ == program_in_directory(*opts),
{
    let mut words: Vec<String> = Vec::new();
    words.push(
        match &opts.shell {
            Some(s) => s.clone(),
            None => "bash".to_owned(),
        },
    );
    let ghost program = words@[0]@;
    let ghost all = seq![program] + views(opts.args@);
    let mut i: usize = 0;
    assert(views(words@) =~= all.take(1));
    while i < opts.args.len()
        invariant
            i <= opts.args@.len(),
            all == seq![program] + views(opts.args@),
            views(words@) == all.take(i + 1),
        decreases opts.args@.len() - i,
    {
        let ghost before = views(words@);
        words.push(opts.args[i].clone());
        assert(views(words@) =~= before.push(opts.args@[i as int]@));
        assert(all.take(i + 2) =~= all.take(i + 1).push(all[i + 1]));
        i += 1;
    }
    assert(all.take(all.len() as int) =~= all);
    let line = shell_words_join(&words);
    match &opts.cwd {
        Some(cwd) => if trim(cwd).as_str().is_empty() {
            line
        } else {
            let directory = shell_quote(cwd);
            "cd ".to_owned().concat(&directory).concat(" && exec ").concat(&line)
        },
        None => line,
    }
}

/// The command line of a shell. The environment is listed in no particular order.
pub fn pty_exec_line(opts: &ShellOptions) -> (line: String)
    ensures
        exists|entries: Seq<(String, String)>|
            #![trigger shell_line(*opts, entries)]
            lists(entries, opts.env@) && line@ == shell_line(*opts, entries),
{
    let program = write_program(opts);
    let n: usize = opts.env.len();
    assert(lists(opts.env.listed(), opts.env@));
    if n == 0 {
        assert(program@ == shell_line(*opts, opts.env.listed()));
        return program;
    }
    let words = write_assignments(&opts.env);
    let words = join(&words, " ");
    let line = "env ".to_owned().concat(&words).concat(" ").concat(&program);
    assert(line@ == shell_line(*opts, opts.env.listed()));
    line
}

fn write_parameter(key: &str, value: &str) -> (p: String)
    ensures
        p@ == parameter(key@, value@),
{
    let value = percent_encode(value);
    key.to_owned().concat("=").concat(&value)
}

/// The query that opens a terminal for a command line.
pub fn pty_query(line: &str, cols: Option<u16>, rows: Option<u16>, linux_user: &Option<String>) -> (q:
    String)
    ensures
        q@ == joined(terminal_parameters(line@, cols, rows, opt_view(*linux_user)), "&"@),
{
    let mut parameters: Vec<String> = Vec::new();
    parameters.push(write_parameter("exec", line));
    match cols {
        Some(n) => {
            let n = to_decimal(n as u64);
            parameters.push(write_parameter("cols", &n));
        },
        None => {},
    }
    match rows {
        Some(n) => {
            let n = to_decimal(n as u64);
            parameters.push(write_parameter("rows", &n));
        },
        None => {},
    }
    match linux_user {
        Some(user) => parameters.push(write_parameter("linuxUser", user)),
        None => {},
    }
    assert(views(parameters@) =~= terminal_parameters(line@, cols, rows, opt_view(*linux_user)));
    join(&parameters, "&")
}

impl FreestyleControl {
    /// The URL of a terminal of a VM in which a shell runs.
    pub fn pty_url(&self, vm_id: &str, opts: &ShellOptions) -> (url: String)
        ensures
            exists|entries: Seq<(String, String)>|
                #![trigger shell_line(*opts, entries)]
                lists(entries, opts.env@) && url@ == websocket_url(self.settings().api_url@)
                    + "/v5/vms/"@ + percent_encoded(vm_id@) + "/pty?"@ + joined(
                    terminal_parameters(
                        shell_line(*opts, entries),
                        opts.cols,
                        opts.rows,
                        opt_view(self.settings().linux_user),
                    ),
                    "&"@,
                ),
    {
        let line = pty_exec_line(opts);
        let query = pty_query(&line, opts.cols, opts.rows, &self.config().linux_user);
        let vm = percent_encode(vm_id);
        websocket_api_url(&self.config().api_url).concat("/v5/vms/").concat(&vm).concat(
            "/pty?",
        ).concat(&query)
    }
}

/// What can fail before a terminal is open, and while it is.
#[derive(Clone, Copy, Debug, PartialEq, Eq, Structural)]
pub enum PtyFailure {
    Url,
    KeyHeader,
    Connection,
    Stream,
}

/// The error of a terminal that failed.
pub fn pty_error(failure: PtyFailure, detail: &str) -> (e: SandboxError)
    ensures
        e@ == (match failure {
            PtyFailure::Url => ErrorView::InvalidEndpoint("Freestyle pty url: "@ + detail@),
            PtyFailure::KeyHeader => ErrorView::InvalidConfig(
                "Freestyle api key header: "@ + detail@,
            ),
            PtyFailure::Connection => ErrorView::DaemonUnavailable(
                "Freestyle pty ws: "@ + detail@,
            ),
            PtyFailure::Stream => ErrorView::DaemonUnavailable(
                "Freestyle pty websocket failed: "@ + detail@,
            ),
        }),
{
    match failure {
        PtyFailure::Url => SandboxError::InvalidEndpoint(
            "Freestyle pty url: ".to_owned().concat(detail),
        ),
        PtyFailure::KeyHeader => SandboxError::InvalidConfig(
            "Freestyle api key header: ".to_owned().concat(detail),
        ),
        PtyFailure::Connection => SandboxError::DaemonUnavailable(
            "Freestyle pty ws: ".to_owned().concat(detail),
        ),
        PtyFailure::Stream => SandboxError::DaemonUnavailable(
            "Freestyle pty websocket failed: ".to_owned().concat(detail),
        ),
    }
}

/// The status of an answer that opens a WebSocket.
pub const SWITCHING_PROTOCOLS: u16 = 101;

/// Whether the answer to the request for a terminal opened it.
pub fn pty_opened(status: u16) -> (r: Result<()>)
    requires
        100 <= status < 1000,
    ensures
        match r {
            Ok(_) => status == SWITCHING_PROTOCOLS,
            Err(e) => status != SWITCHING_PROTOCOLS && e@ == ErrorView::InvalidResponse(
                "Freestyle pty websocket returned "@ + http_status_text(status)->Some_0,
            ),
        },
{
    if status == SWITCHING_PROTOCOLS {
        return Ok(());
    }
    match show_http_status(status) {
        Some(text) => Err(
            SandboxError::InvalidResponse(
                "Freestyle pty websocket returned ".to_owned().concat(&text),
            ),
        ),
        None => Ok(()),
    }
}

// ---------------------------------------------------------------------------
// Frames
// ---------------------------------------------------------------------------
/// What is sent to a terminal.
#[derive(Debug)]
pub enum PtyFrame {
    Binary(Vec<u8>),
    Text(String),
}

/// The control message that resizes a terminal.
pub open spec fn resize_message(cols: u16, rows: u16) -> Seq<char> {
    "{\"cols\":"@ + decimal(cols as nat) + ",\"rows\":"@ + decimal(rows as nat)
        + ",\"type\":\"resize\"}"@
}

/// What is sent to a terminal for an input. A terminal cannot be half closed: the end of the
/// input of a shell is the end-of-transmission byte.
pub fn pty_input(input: ShellInput) -> (frame: PtyFrame)
    ensures
        match input {
            ShellInput::Data(data) => frame == PtyFrame::Binary(data),
            ShellInput::Resize { cols, rows } => frame is Text && frame->Text_0@ == resize_message(
                cols,
                rows,
            ),
            ShellInput::Eof => frame is Binary && frame->Binary_0@ == seq![4u8],
        },
{
    match input {
        ShellInput::Data(data) => PtyFrame::Binary(data),
        ShellInput::Resize { cols, rows } => {
            let cols = to_decimal(cols as u64);
            let rows = to_decimal(rows as u64);
            PtyFrame::Text(
                "{\"cols\":".to_owned().concat(&cols).concat(",\"rows\":").concat(&rows).concat(
                    ",\"type\":\"resize\"}",
                ),
            )
        },
        ShellInput::Eof => {
            let mut data: Vec<u8> = Vec::new();
            data.push(4);
            assert(data@ =~= seq![4u8]);
            PtyFrame::Binary(data)
        },
    }
}

/// A control message of a terminal.
#[derive(Debug)]
pub enum PtyControl {
    Exited(i32),
    Error(String),
    SessionInfo,
}

/// The meaning of a control message.
pub enum PtyControlView {
    Exited(i32),
    Error(Seq<char>),
    SessionInfo,
}

impl View for PtyControl {
    type V = PtyControlView;

    open spec fn view(&self) -> PtyControlView {
        match self {
            PtyControl::Exited(code) => PtyControlView::Exited(*code),
            PtyControl::Error(message) => PtyControlView::Error(message@),
            PtyControl::SessionInfo => PtyControlView::SessionInfo,
        }
    }
}

/// An optional control message.
pub open spec fn control_view(control: Option<PtyControl>) -> Option<PtyControlView> {
    match control {
        Some(c) => Some(c@),
        None => None,
    }
}

/// The exit code of a message: its number, where it has one of 32 bits, else zero.
pub open spec fn exit_code(code: Option<i64>) -> i32 {
    match code {
        Some(n) => if i32::MIN <= n <= i32::MAX {
            n as i32
        } else {
            0
        },
        None => 0,
    }
}

/// The control message with these fields, where they are one.
pub open spec fn control_of(
    kind: Option<Seq<char>>,
    code: Option<i64>,
    message: Option<Seq<char>>,
) -> Option<PtyControlView> {
    match kind {
        Some(kind) => if kind == "exited"@ {
            Some(PtyControlView::Exited(exit_code(code)))
        } else if kind == "error"@ {
            Some(
                PtyControlView::Error(
                    match message {
                        Some(m) => m,
                        None => "unknown error"@,
                    },
                ),
            )
        } else if kind == "sessionInfo"@ {
            Some(PtyControlView::SessionInfo)
        } else {
            None
        },
        None => None,
    }
}

/// The control message with these fields, where they are one.
pub fn pty_control_from(kind: Option<&str>, code: Option<i64>, message: Option<&str>) -> (control:
    Option<PtyControl>)
    ensures
        control_view(control) == control_of(opt_str_view(kind), code, opt_str_view(message)),
{
    let kind = match kind {
        Some(kind) => kind,
        None => return None,
    };
    if same(kind, "exited") {
        let code: i32 = match code {
            Some(n) => if n >= i32::MIN as i64 && n <= i32::MAX as i64 {
                n as i32
            } else {
                0
            },
            None => 0,
        };
        Some(PtyControl::Exited(code))
    } else if same(kind, "error") {
        Some(
            PtyControl::Error(
                match message {
                    Some(m) => m.to_owned(),
                    None => "unknown error".to_owned(),
                },
            ),
        )
    } else if same(kind, "sessionInfo") {
        Some(PtyControl::SessionInfo)
    } else {
        None
    }
}

/// The control message that a text frame holds.
pub open spec fn control_in(text: Seq<char>) -> Option<PtyControlView> {
    control_of(
        json_string_field(text, "type"@),
        json_integer_field(text, "exitCode"@),
        json_string_field(text, "message"@),
    )
}

/// Reads a text frame.
pub fn pty_control_event(text: &str) -> (control: Option<PtyControl>)
    ensures
        control_view(control) == control_in(text@),
{
    let kind = string_field(text, "type");
    let code = integer_field(text, "exitCode");
    let message = string_field(text, "message");
    let kind: Option<&str> = match &kind {
        Some(k) => Some(k.as_str()),
        None => None,
    };
    let message: Option<&str> = match &message {
        Some(m) => Some(m.as_str()),
        None => None,
    };
    pty_control_from(kind, code, message)
}

/// What comes from a terminal.
#[derive(Debug)]
pub enum PtyMessage {
    Binary(Vec<u8>),
    Text(String),
    Close,
    Other,
    Failed(String),
}

/// What comes of a control message: an exit and an error are the last.
pub open spec fn is_control_outcome(
    outcome: ShellFrameOutcome,
    control: Option<PtyControlView>,
) -> bool {
    match control {
        Some(PtyControlView::Exited(code)) => outcome.done && outcome.event == Some(
            Result::<ShellEvent>::Ok(ShellEvent::Exit(code)),
        ),
        Some(PtyControlView::Error(message)) => outcome.done && outcome.event is Some
            && outcome.event->Some_0 is Err && outcome.event->Some_0->Err_0@
            == ErrorView::InvalidResponse("Freestyle pty: "@ + message),
        Some(PtyControlView::SessionInfo) => !outcome.done && outcome.event is None,
        None => !outcome.done && outcome.event is None,
    }
}

/// Decides what comes of a control message.
pub fn pty_control_outcome(control: Option<PtyControl>) -> (outcome: ShellFrameOutcome)
    ensures
        is_control_outcome(outcome, control_view(control)),
{
    match control {
        Some(PtyControl::Exited(code)) => ShellFrameOutcome {
            event: Some(Ok(ShellEvent::Exit(code))),
            done: true,
        },
        Some(PtyControl::Error(message)) => ShellFrameOutcome {
            event: Some(
                Err(
                    SandboxError::InvalidResponse("Freestyle pty: ".to_owned().concat(&message)),
                ),
            ),
            done: true,
        },
        Some(PtyControl::SessionInfo) => ShellFrameOutcome { event: None, done: false },
        None => ShellFrameOutcome { event: None, done: false },
    }
}

/// Decides what comes of a message of a terminal.
pub fn pty_message(message: PtyMessage) -> (outcome: ShellFrameOutcome)
    ensures
        match message {
            PtyMessage::Binary(data) => !outcome.done && outcome.event == Some(
                Result::<ShellEvent>::Ok(ShellEvent::Output(data)),
            ),
            PtyMessage::Text(text) => is_control_outcome(outcome, control_in(text@)),
            PtyMessage::Close => outcome.done && outcome.event == Some(
                Result::<ShellEvent>::Ok(ShellEvent::Exit(0)),
            ),
            PtyMessage::Other => !outcome.done && outcome.event is None,
            PtyMessage::Failed(detail) => outcome.done && outcome.event is Some
                && outcome.event->Some_0 is Err && outcome.event->Some_0->Err_0@
                == ErrorView::DaemonUnavailable("Freestyle pty websocket failed: "@ + detail@),
        },
{
    match message {
        PtyMessage::Binary(data) => ShellFrameOutcome {
            event: Some(Ok(ShellEvent::Output(data))),
            done: false,
        },
        PtyMessage::Text(text) => pty_control_outcome(pty_control_event(&text)),
        PtyMessage::Close => ShellFrameOutcome {
            event: Some(Ok(ShellEvent::Exit(0))),
            done: true,
        },
        PtyMessage::Other => ShellFrameOutcome { event: None, done: false },
        PtyMessage::Failed(detail) => ShellFrameOutcome {
            event: Some(Err(pty_error(PtyFailure::Stream, &detail))),
            done: true,
        },
    }
}

// ---------------------------------------------------------------------------
// What a terminal runs, and what it says
// ---------------------------------------------------------------------------
/// A terminal runs the shell that was asked for, else Bash, with its arguments behind it, each word
/// quoted.
pub proof fn law_terminal_runs_asked_shell(opts: ShellOptions)
    ensures
        opts.shell is Some && opts.args@.len() == 0 ==> program_line(opts) == quoted(
            opts.shell->Some_0@,
        ),
        opts.shell is None && opts.args@.len() == 0 ==> program_line(opts) == quoted("bash"@),
        opts.args@.len() > 0 && opts.shell is Some ==> program_line(opts) == quoted(
            opts.shell->Some_0@,
        ) + " "@ + joined(opts.args@.map_values(|w: String| quoted(w@)), " "@),
        opts.args@.len() > 0 && opts.shell is None ==> program_line(opts) == quoted("bash"@) + " "@
            + joined(opts.args@.map_values(|w: String| quoted(w@)), " "@),
{
    let program = match opts.shell {
        Some(s) => s@,
        None => "bash"@,
    };
    let words = quoted_all(seq![program] + views(opts.args@));
    if opts.args@.len() == 0 {
        assert(words =~= seq![quoted(program)]);
        crate::text::law_texts_are_joined_in_order(Seq::empty(), quoted(program), " "@);
    }
    if opts.args@.len() > 0 {
        let rest = opts.args@.map_values(|w: String| quoted(w@));
        assert(words =~= seq![quoted(program)] + rest) by {
            assert forall|i: int| 0 <= i < rest.len() implies words[i + 1] == #[trigger] rest[i] by {
                assert(views(opts.args@)[i] == opts.args@[i]@);
            }
        }
        lemma_joined_behind(quoted(program), rest, " "@);
    }
}

proof fn lemma_joined_behind(first: Seq<char>, rest: Seq<Seq<char>>, separator: Seq<char>)
    requires
        rest.len() > 0,
    ensures
        joined(seq![first] + rest, separator) == first + separator + joined(rest, separator),
    decreases rest.len(),
{
    let head = rest.drop_last();
    let last = rest.last();
    let all = seq![first] + rest;
    assert(all =~= (seq![first] + head).push(last));
    crate::text::law_texts_are_joined_in_order(seq![first] + head, last, separator);
    crate::text::law_texts_are_joined_in_order(Seq::empty(), first, separator);
    crate::text::law_texts_are_joined_in_order(Seq::empty(), last, separator);
    if head.len() == 0 {
        assert(seq![first] + head =~= seq![first]);
        assert(rest =~= seq![last]);
    } else {
        lemma_joined_behind(first, head, separator);
        assert(rest =~= head.push(last));
        crate::text::law_texts_are_joined_in_order(head, last, separator);
        assert(first + separator + joined(head, separator) + separator + last =~= first + separator
            + (joined(head, separator) + separator + last));
    }
}

/// It runs in the directory that was asked for, and with the variables that were given; a blank
/// directory is none.
pub proof fn law_terminal_runs_where_asked(opts: ShellOptions, entries: Seq<(String, String)>)
    ensures
        opts.cwd is Some && trimmed(opts.cwd->Some_0@).len() > 0 ==> shell_line(opts, Seq::empty())
            == "cd "@ + quoted(opts.cwd->Some_0@) + " && exec "@ + program_line(opts),
        opts.cwd is None || trimmed(opts.cwd->Some_0@).len() == 0 ==> shell_line(
            opts,
            Seq::empty(),
        ) == program_line(opts),
        entries.len() > 0 ==> shell_line(opts, entries) == "env "@ + joined(
            entries.map_values(|e: (String, String)| e.0@ + "="@ + quoted(e.1@)),
            " "@,
        ) + " "@ + shell_line(opts, Seq::empty()),
{
    assert(assignments(entries) =~= entries.map_values(
        |e: (String, String)| e.0@ + "="@ + quoted(e.1@),
    ));
}

/// The line, the size and the user of a terminal are told by their names, encoded; what was not given is
/// not told.
pub proof fn law_terminal_is_asked_for_by_parameters(
    line: Seq<char>,
    cols: u16,
    rows: u16,
    user: Seq<char>,
)
    ensures
        terminal_parameters(line, None, None, None) == seq!["exec"@ + "="@ + percent_encoded(line)],
        terminal_parameters(line, Some(cols), Some(rows), Some(user)) == seq![
            "exec"@ + "="@ + percent_encoded(line),
            "cols"@ + "="@ + percent_encoded(decimal(cols as nat)),
            "rows"@ + "="@ + percent_encoded(decimal(rows as nat)),
            "linuxUser"@ + "="@ + percent_encoded(user),
        ],
        terminal_parameters(line, None, None, Some(user)) == seq![
            "exec"@ + "="@ + percent_encoded(line),
            "linuxUser"@ + "="@ + percent_encoded(user),
        ],
        resize_message(cols, rows) == "{\"cols\":"@ + decimal(cols as nat) + ",\"rows\":"@
            + decimal(rows as nat) + ",\"type\":\"resize\"}"@,
{
    assert(terminal_parameters(line, None, None, None) =~= seq![
        "exec"@ + "="@ + percent_encoded(line),
    ]);
}

/// A terminal that ends tells its exit code, zero where it names none that is one; one that fails tells
/// its message. Other messages that it sends change nothing.
pub proof fn law_terminal_tells_its_end(
    kind: Seq<char>,
    code: i64,
    message: Seq<char>,
)
    ensures
        i32::MIN <= code <= i32::MAX ==> control_of(Some("exited"@), Some(code), None) == Some(
            PtyControlView::Exited(code as i32),
        ),
        !(i32::MIN <= code <= i32::MAX) ==> control_of(Some("exited"@), Some(code), None) == Some(
            PtyControlView::Exited(0),
        ),
        control_of(Some("exited"@), None, None) == Some(PtyControlView::Exited(0)),
        control_of(Some("error"@), None, Some(message)) == Some(PtyControlView::Error(message)),
        control_of(Some("error"@), None, None) == Some(PtyControlView::Error("unknown error"@)),
        control_of(Some("sessionInfo"@), None, None) == Some(PtyControlView::SessionInfo),
        kind != "exited"@ && kind != "error"@ && kind != "sessionInfo"@ ==> control_of(
            Some(kind),
            None,
            None,
        ) is None,
        control_of(None, Some(code), Some(message)) is None,
{
    reveal_strlit("exited");
    reveal_strlit("error");
    reveal_strlit("sessionInfo");
    assert("exited"@.len() == 6 && "error"@.len() == 5 && "sessionInfo"@.len() == 11);
}

/// An end ends the terminal and is told; a failure ends it with the message; anything else keeps it open
/// and tells nothing.
pub proof fn law_end_of_terminal_is_told(outcome: ShellFrameOutcome, code: i32, message: Seq<char>)
    ensures
        is_control_outcome(outcome, Some(PtyControlView::Exited(code))) ==> outcome.done
            && (outcome.event matches Some(Ok(ShellEvent::Exit(told))) && told == code),
        is_control_outcome(outcome, Some(PtyControlView::Error(message))) ==> outcome.done
            && (outcome.event matches Some(Err(e)) && e@ == ErrorView::InvalidResponse(
            "Freestyle pty: "@ + message,
        )),
        is_control_outcome(outcome, Some(PtyControlView::SessionInfo)) ==> !outcome.done
            && outcome.event is None,
        is_control_outcome(outcome, None) ==> !outcome.done && outcome.event is None,
{
}

/// What a terminal says is seen as it is, and read off the fields that it is written in.
pub proof fn law_terminal_messages_are_seen_as_they_are(c: PtyControl, text: Seq<char>)
    ensures
        c matches PtyControl::Exited(code) ==> c@ == PtyControlView::Exited(code),
        c matches PtyControl::Error(m) ==> c@ == PtyControlView::Error(m@),
        c is SessionInfo ==> c@ is SessionInfo,
        json_string_field(text, "type"@) == Some("exited"@) && json_integer_field(
            text,
            "exitCode"@,
        ) is None ==> control_in(text) == Some(PtyControlView::Exited(0)),
        json_string_field(text, "type"@) == Some("error"@) && json_string_field(
            text,
            "message"@,
        ) is Some ==> control_in(text) == Some(
            PtyControlView::Error(json_string_field(text, "message"@)->Some_0),
        ),
        json_string_field(text, "type"@) is None ==> control_in(text) is None,
{
    reveal_strlit("exited");
    reveal_strlit("error");
    reveal_strlit("sessionInfo");
    assert("exited"@.len() == 6 && "error"@.len() == 5 && "sessionInfo"@.len() == 11);
}

/// A message that may be there is seen as what it is.
pub proof fn law_optional_message_is_seen_as_it_is(c: PtyControl)
    ensures
        control_view(Some(c)) == Some(c@),
        control_view(None) is None,
{
}

/// A terminal is open where the protocol was switched.
pub proof fn law_open_terminal_has_switched_protocols()
    ensures
        SWITCHING_PROTOCOLS == 101,
{
}

} // verus!
