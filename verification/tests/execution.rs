//! Commands, shells, files and forwarded ports.

use chevalier_sandbox::error::GrpcCode;
use chevalier_sandbox::error::GrpcStatus;
use chevalier_sandbox::error::SandboxError;
use chevalier_sandbox::exec::SignalSequence;
use chevalier_sandbox::exec::bypasses_stdin_queue;
use chevalier_sandbox::exec::exec_frame;
use chevalier_sandbox::exec::exec_input_action;
use chevalier_sandbox::exec::guest_shell_args;
use chevalier_sandbox::exec::internal_command_verdict;
use chevalier_sandbox::exec::probe_answered;
use chevalier_sandbox::exec::signal_failure;
use chevalier_sandbox::exec::Establish;
use chevalier_sandbox::exec::EstablishFailure;
use chevalier_sandbox::exec::EstablishStep;
use chevalier_sandbox::exec::ExecEvent;
use chevalier_sandbox::exec::ExecFrame;
use chevalier_sandbox::exec::ExecInput;
use chevalier_sandbox::exec::InputAction;
use chevalier_sandbox::exec::InternalCommand;
use chevalier_sandbox::forward::forward_preamble;
use chevalier_sandbox::forward::ForwardHandle;
use chevalier_sandbox::forward::Forwards;
use chevalier_sandbox::forward::PortSearch;
use chevalier_sandbox::parts::PartsAction;
use chevalier_sandbox::parts::PartsEvent;
use chevalier_sandbox::parts::PartsWrite;
use chevalier_sandbox::shell::assemble_file;
use chevalier_sandbox::shell::file_name;
use chevalier_sandbox::shell::parent_path;
use chevalier_sandbox::shell::part_path;
use chevalier_sandbox::shell::LEGACY_CHUNK_BYTES;
use chevalier_sandbox::shell::shell_frame;
use chevalier_sandbox::shell::shell_quote;
use chevalier_sandbox::shell::shell_request;
use chevalier_sandbox::shell::shell_single_quote;
use chevalier_sandbox::shell::shell_start;
use chevalier_sandbox::shell::shell_words_join;
use chevalier_sandbox::shell::staging_path;
use chevalier_sandbox::shell::ShellEvent;
use chevalier_sandbox::shell::ShellFrame;
use chevalier_sandbox::shell::ShellInput;
use chevalier_sandbox::shell::ShellOptions;
use chevalier_sandbox::shell::ShellRequest;
use chevalier_sandbox::span::Span;
use chevalier_sandbox::stream::check_command;
use chevalier_sandbox::stream::exec_timeout_secs;
use chevalier_sandbox::stream::plan_rebind;
use chevalier_sandbox::stream::resolve_distributed_exec_target;
use chevalier_sandbox::stream::resume_order;
use chevalier_sandbox::stream::resume_outcome;
use chevalier_sandbox::stream::start_order;
use chevalier_sandbox::stream::start_outcome;
use chevalier_sandbox::stream::stream_waits;
use chevalier_sandbox::stream::ExecStream;
use chevalier_sandbox::stream::ExecStreamEvent;
use chevalier_sandbox::stream::InputSequence;
use chevalier_sandbox::stream::StartSignal;
use chevalier_sandbox::stream::StreamInput;
use chevalier_sandbox::stream::StreamNext;
use chevalier_sandbox::stream::StreamRoute;
use chevalier_sandbox::stream::MAX_STALL_RECOVERY_ATTEMPTS;
use chevalier_sandbox::transfer::after_write_stream;
use chevalier_sandbox::transfer::FeedAction;
use chevalier_sandbox::transfer::FeedEvent;
use chevalier_sandbox::transfer::FileFeed;
use chevalier_sandbox::transfer::STREAM_CHUNK_BYTES;
use chevalier_sandbox::transfer::write_start;
use chevalier_sandbox::transfer::write_stream_closed;
use chevalier_sandbox::transfer::write_stream_outcome;
use chevalier_sandbox::transfer::Producer;
use chevalier_sandbox::transfer::WriteRequest;
use chevalier_sandbox::vm::GuestPlatform;
use chevalier_sandbox::wire::given_or_new_id;
use chevalier_sandbox::wire::new_id;

fn texts(list: &[&str]) -> Vec<String> {
    list.iter().map(|s| s.to_string()).collect()
}

fn status(code: GrpcCode) -> GrpcStatus {
    GrpcStatus { code, message: "m".to_string(), source: None }
}

#[test]
fn exec_signal_bypasses_a_full_stdin_queue() {
    assert!(!bypasses_stdin_queue(&ExecInput::Data(vec![1])));
    assert!(bypasses_stdin_queue(&ExecInput::Signal(9)));
}

#[test]
fn shell_single_quote_preserves_posix_paths() {
    assert_eq!(shell_single_quote("/tmp/a b"), "'/tmp/a b'");
    assert_eq!(shell_single_quote("/tmp/ian's"), "'/tmp/ian'\"'\"'s'");
}

#[test]
fn guest_shell_args_are_platform_native() {
    assert_eq!(
        guest_shell_args(GuestPlatform::Linux, None, "/bin/sh", "printf ok"),
        vec!["/bin/sh", "-lc", "printf ok"]
    );
    assert_eq!(
        guest_shell_args(GuestPlatform::Windows, None, "/bin/sh", "Write-Output ok"),
        vec![
            r"C:\Program Files\PowerShell\7\pwsh.exe",
            "-NoLogo",
            "-NoProfile",
            "-NonInteractive",
            "-Command",
            "Write-Output ok",
        ]
    );
    assert_eq!(
        guest_shell_args(
            GuestPlatform::Windows,
            Some(r"C:\Program Files\Git\bin\bash.exe"),
            "/bin/sh",
            "printf ok",
        ),
        vec![r"C:\Program Files\Git\bin\bash.exe", "-lc", "printf ok"]
    );
}

#[test]
fn words_are_quoted_and_joined() {
    assert_eq!(shell_quote("it's"), "'it'\\''s'");
    assert_eq!(shell_words_join(&texts(&["a", "b c"])), "'a' 'b c'");
}

#[test]
fn establishing_is_tried_a_bounded_number_of_times() {
    let lost = || EstablishFailure::Error(SandboxError::Transport("t".to_string()));
    let mut establish = Establish::new();
    assert!(matches!(establish.failed(lost()), EstablishStep::ForgetPathAndRetry));
    let second = establish.failed(lost());
    assert!(!matches!(second, EstablishStep::GiveUp(_)), "{second:?}");
    assert!(matches!(establish.failed(lost()), EstablishStep::GiveUp(SandboxError::Transport(_))));
    let mut establish = Establish::new();
    assert!(matches!(
        establish.failed(EstablishFailure::Error(SandboxError::InvalidConfig("c".to_string()))),
        EstablishStep::GiveUp(SandboxError::InvalidConfig(_))
    ));
}

#[test]
fn input_is_sorted_out() {
    assert!(matches!(
        exec_input_action(ExecInput::Data(vec![1]), true),
        InputAction::Stdin(d) if d == vec![1]
    ));
    assert!(matches!(exec_input_action(ExecInput::Data(vec![1]), false), InputAction::Drop));
    assert!(matches!(exec_input_action(ExecInput::Eof, true), InputAction::StdinEof));
    assert!(matches!(exec_input_action(ExecInput::Signal(15), false), InputAction::Control(15)));
    assert!(matches!(
        exec_input_action(ExecInput::Resize { cols: 80, rows: 24 }, true),
        InputAction::Report(_)
    ));
    assert!(signal_failure(status(GrpcCode::Internal)).is_some());
}

#[test]
fn frames_become_events() {
    let out = exec_frame(ExecFrame::Stdout(vec![1]));
    assert!(!out.done);
    assert!(matches!(&out.events[0], Ok(ExecEvent::Stdout(d)) if d == &vec![1]));
    let exit = exec_frame(ExecFrame::ExitCode(3));
    assert!(exit.done);
    assert!(matches!(exit.events.last().unwrap(), Ok(ExecEvent::Exit(3))));
    let failed = exec_frame(ExecFrame::Failed(status(GrpcCode::Internal)));
    assert!(failed.done);
    assert!(matches!(failed.events[0], Err(SandboxError::Grpc(_))));
    assert!(exec_frame(ExecFrame::End).done);
    assert!(!exec_frame(ExecFrame::Other).done);
}

#[test]
fn a_probe_needs_an_exit_status() {
    assert!(probe_answered(&vec![ExecFrame::Stdout(vec![]), ExecFrame::ExitCode(0)]));
    assert!(!probe_answered(&vec![ExecFrame::Stdout(vec![]), ExecFrame::End]));
    assert!(!probe_answered(&vec![ExecFrame::Failed(status(GrpcCode::Internal))]));
}

#[test]
fn internal_commands_are_judged_by_their_exit() {
    let verdict =
        |event| internal_command_verdict(InternalCommand::FilesystemSync, event);
    assert!(matches!(verdict(Some(Ok(ExecEvent::Exit(0)))), Some(Ok(()))));
    assert!(matches!(
        verdict(Some(Ok(ExecEvent::Exit(2)))),
        Some(Err(SandboxError::InvalidResponse(m))) if m == "guest filesystem sync exited with status 2"
    ));
    assert!(matches!(
        verdict(Some(Ok(ExecEvent::Timeout))),
        Some(Err(SandboxError::DaemonUnavailable(m))) if m == "guest filesystem sync timed out before snapshot"
    ));
    assert!(matches!(
        internal_command_verdict(InternalCommand::StagedWrite, None),
        Some(Err(SandboxError::InvalidResponse(m))) if m == "legacy streamed guest write ended without an exit status"
    ));
    assert!(verdict(Some(Ok(ExecEvent::Stdout(vec![])))).is_none());
}

// ---------------------------------------------------------------------------
// Streams of a cluster
// ---------------------------------------------------------------------------
fn route(stream_id: &str, epoch: u64) -> StreamRoute {
    StreamRoute {
        endpoint: "http://n".to_string(),
        stream_id: stream_id.to_string(),
        target_node_id: "node".to_string(),
        producer_epoch: epoch,
    }
}

fn event(seq: u64, kind: &str, data: &[u8]) -> StreamInput {
    StreamInput::Event(ExecStreamEvent {
        event_seq: seq,
        kind: kind.to_string(),
        data: data.to_vec(),
        exit_code: if kind == "exit" { Some(0) } else { None },
        timed_out: false,
        error: None,
    })
}

#[test]
fn no_event_is_replayed() {
    let mut stream = ExecStream::new(route("st", 1));
    let step = stream.step(event(1, "stdout", b"a"));
    assert!(matches!(step.emit, Some(Ok(ExecEvent::Stdout(_)))));
    assert_eq!(stream.last_committed_event_seq(), 1);
    let again = stream.step(event(1, "stdout", b"a"));
    assert!(again.emit.is_none());
    assert_eq!(again.next, StreamNext::Receive);
    assert!(stream.step(event(2, "stdout", b"b")).emit.is_some());
}

#[test]
fn a_lost_stream_is_given_up() {
    let mut stream = ExecStream::new(route("st", 1));
    let mut rounds = 0;
    loop {
        let step = stream.step(StreamInput::Ended);
        match step.next {
            StreamNext::Rebind => {
                let after = stream.step(StreamInput::RebindFailed);
                if after.next == StreamNext::Stop {
                    break;
                }
            },
            StreamNext::Stop => break,
            StreamNext::Receive => {},
        }
        rounds += 1;
        assert!(rounds <= 10 * MAX_STALL_RECOVERY_ATTEMPTS);
    }
}

#[test]
fn a_moved_stream_goes_on_where_it_was() {
    let mut stream = ExecStream::new(route("st", 1));
    stream.step(event(7, "stdout", b"a"));
    let step = stream.step(StreamInput::Ended);
    assert_eq!(step.next, StreamNext::Rebind);
    let step = stream.step(StreamInput::Rebound(route("st", 2)));
    assert_eq!(step.next, StreamNext::Receive);
    assert_eq!(stream.route().producer_epoch, 2);
    assert_eq!(stream.last_committed_event_seq(), 7);
}

#[test]
fn waits_follow_the_settings() {
    assert_eq!(exec_timeout_secs(Some(7)), 7);
    let waits = stream_waits(Span::from_secs(5), Span::from_secs(90), Some(7));
    assert!(!waits.start.shorter_than(&Span::from_secs(5)));
    assert!(check_command("true").is_ok());
    assert!(check_command("  ").is_err());
}

#[test]
fn targets_are_the_node_of_the_endpoint_or_of_the_route() {
    let by = |a: Option<&str>, b: Option<&str>| {
        resolve_distributed_exec_target(a.map(str::to_string), b.map(str::to_string), "s", "http://n")
    };
    assert_eq!(by(Some("a"), Some("b")).unwrap(), "a");
    assert_eq!(by(None, Some("b")).unwrap(), "b");
    assert!(by(None, None).is_err());
}

#[test]
fn orders_name_stream_and_shell() {
    let start = start_order(
        "st",
        "http://n".to_string(),
        "node".to_string(),
        None,
        "/bin/sh",
        Some(7),
    );
    assert_eq!(start.shell, "/bin/sh");
    assert_eq!(start.timeout_secs, 7);
    assert_eq!(start.resume_after_event_seq, 0);
    let resume = resume_order(route("st", 3), 9, Some("/bin/bash".to_string()), "/bin/sh", None);
    assert_eq!(resume.resume_after_event_seq, 9);
    assert_eq!(resume.shell, "/bin/bash");
    assert_ne!(start.idempotency_key, resume.idempotency_key);
    assert!(start_outcome(StartSignal::Ready, "c", "st").is_ok());
    assert!(start_outcome(StartSignal::TimedOut, "c", "st").is_err());
    assert!(start_outcome(StartSignal::Dropped, "c", "st").is_err());
    assert!(resume_outcome(StartSignal::Ready, "c", "st").is_ok());
    assert!(resume_outcome(StartSignal::TimedOut, "c", "st").is_err());
    assert!(matches!(
        resume_outcome(StartSignal::Failed(SandboxError::Transport("t".to_string())), "c", "st"),
        Err(SandboxError::Transport(_))
    ));
}

#[test]
fn a_stream_on_the_same_node_is_resumed_by_command() {
    let moved = plan_rebind(&route("st", 1), "http://m".to_string(), Ok("other".to_string()))
        .unwrap();
    assert_eq!(moved.route.endpoint, "http://m");
    assert_eq!(moved.route.target_node_id, "other");
    assert!(plan_rebind(
        &route("st", 1),
        "http://m".to_string(),
        Err(SandboxError::Transport("t".to_string()))
    )
    .is_err());
}

#[test]
fn inputs_are_numbered_in_a_row() {
    let mut inputs = InputSequence::new();
    let r = route("st", 1);
    inputs.observe(&r);
    let a = inputs.next(&r);
    let b = inputs.next(&r);
    assert_eq!(b.input_seq, a.input_seq + 1);
    assert_ne!(a.idempotency_key, b.idempotency_key);
    let other = route("st", 2);
    let c = inputs.next(&other);
    assert_eq!(c.input_seq, 1);
}

// ---------------------------------------------------------------------------
// Shells and files
// ---------------------------------------------------------------------------
#[test]
fn shells_start_with_defaults() {
    let start = shell_start(ShellOptions::new(), "/bin/sh");
    assert_eq!(start.shell, "/bin/sh");
    assert!(start.args.is_empty());
    assert!(matches!(
        shell_request(ShellInput::Resize { cols: 80, rows: 24 }),
        ShellRequest::Resize { cols: 80, rows: 24 }
    ));
    assert!(matches!(shell_request(ShellInput::Eof), ShellRequest::Close));
    let exit = shell_frame(ShellFrame::ExitCode(0));
    assert!(exit.done);
    assert!(matches!(exit.event, Some(Ok(ShellEvent::Exit(0)))));
    assert!(!shell_frame(ShellFrame::Other).done);
    assert!(shell_frame(ShellFrame::Failed(status(GrpcCode::Internal))).done);
}

#[test]
fn paths_have_parents_and_names() {
    assert_eq!(parent_path("/a/b").as_deref(), Some("/a"));
    assert_eq!(parent_path("/a").as_deref(), Some("/"));
    assert_eq!(parent_path("/"), None);
    assert_eq!(file_name("/a/b").as_deref(), Some("b"));
    assert_eq!(file_name("/a/.."), None);
}

#[test]
fn files_are_put_together_from_parts() {
    let staging = staging_path("/w/out.txt", "id").unwrap();
    assert_eq!(staging, "/w/.out.txt.openbracket-write-legacy-id");
    assert!(matches!(
        staging_path("out.txt", "id"),
        Err(SandboxError::InvalidConfig(_))
    ));
    let parts = vec![part_path("id", 0), part_path("id", 1)];
    assert_eq!(parts[1], "/tmp/chevalier-file-id-1");
    assert_eq!(
        assemble_file("/w/out.txt", &staging, &parts, 5, Some(0o100755)),
        "set -eu; mkdir -p '/w'; cat '/tmp/chevalier-file-id-0' '/tmp/chevalier-file-id-1' > '/w/.out.txt.openbracket-write-legacy-id'; test \"$(wc -c < '/w/.out.txt.openbracket-write-legacy-id')\" = 5; chmod 755 '/w/.out.txt.openbracket-write-legacy-id'; mv -f '/w/.out.txt.openbracket-write-legacy-id' '/w/out.txt'; rm -f '/tmp/chevalier-file-id-0' '/tmp/chevalier-file-id-1'"
    );
    assert_eq!(
        assemble_file("/out", "/.s", &Vec::new(), 0, None),
        "set -eu; mkdir -p '/'; : > '/.s'; test \"$(wc -c < '/.s')\" = 0; if [ -e '/out' ]; then chmod --reference='/out' '/.s'; fi; mv -f '/.s' '/out'; :"
    );
}

#[test]
fn write_streams_fall_back_to_parts() {
    match write_start("/p", 7, None) {
        WriteRequest::Start { path, create_parents, expected_bytes, mode } => {
            assert_eq!(path, "/p");
            assert!(create_parents);
            assert_eq!(expected_bytes, 7);
            assert_eq!(mode, None);
        },
        WriteRequest::Data(_) => panic!("a stream starts with its start"),
    }
    let unknown = || SandboxError::Grpc(status(GrpcCode::Unimplemented));
    assert!(after_write_stream(Err(unknown())).is_none());
    assert!(matches!(after_write_stream(Ok(())), Some(Ok(()))));
    assert!(matches!(
        after_write_stream(Err(SandboxError::Grpc(status(GrpcCode::Internal)))),
        Some(Err(SandboxError::Grpc(_)))
    ));
    assert!(matches!(
        write_stream_outcome(Err(unknown()), Producer::Lost("x".to_string())),
        Err(SandboxError::Grpc(_))
    ));
    assert!(matches!(
        write_stream_outcome(Ok(()), Producer::Lost("x".to_string())),
        Err(SandboxError::InvalidResponse(m)) if m == "file stream task failed: x"
    ));
    assert!(write_stream_outcome(Ok(()), Producer::Ran(Ok(()))).is_ok());
    assert!(write_stream_closed(false).text().ends_with("file stream closed before start"));
    assert!(write_stream_closed(true).text().ends_with("file stream closed before completion"));
}

#[test]
fn ids_are_given_or_new() {
    assert_eq!(given_or_new_id(Some("s".to_string())), "s");
    let id = new_id();
    assert_eq!(id.len(), 36);
    assert_eq!(id.matches('-').count(), 4);
    assert_ne!(id, new_id());
    assert_ne!(given_or_new_id(None), given_or_new_id(None));
}

// ---------------------------------------------------------------------------
// Forwarded ports
// ---------------------------------------------------------------------------
#[test]
fn ports_of_a_range_are_tried_in_order() {
    let mut search = PortSearch::new(Some((65534, 65535)));
    assert_eq!(search.next_port(), Some(65534));
    search.refused("first".to_string());
    assert_eq!(search.next_port(), Some(65535));
    search.refused("second".to_string());
    assert_eq!(search.next_port(), None);
    search.refused("third".to_string());
    assert_eq!(search.failure("127.0.0.1").text(), "io error: second");
    let mut any = PortSearch::new(None);
    assert_eq!(any.next_port(), Some(0));
    any.refused("busy".to_string());
    assert_eq!(any.next_port(), None);
    let empty = PortSearch::new(Some((5, 3)));
    assert_eq!(empty.next_port(), None);
    assert_eq!(
        empty.failure("127.0.0.1").text(),
        "io error: no available forward port in range 5-3 on 127.0.0.1"
    );
}

#[test]
fn connections_start_with_the_port_of_the_guest() {
    assert_eq!(forward_preamble(8080), 8080u16.to_be_bytes());
}

#[test]
fn a_forward_is_released_once() {
    let mut forwards = Forwards::new();
    forwards.register(40000, "task");
    let mut handle = ForwardHandle::new(80, 40000, "registration");
    assert_eq!(handle.close(), Some("registration"));
    assert_eq!(handle.close(), None);
    assert_eq!((handle.guest_port, handle.host_port), (80, 40000));
    assert_eq!(forwards.unregister(40000), Some("task"));
    assert_eq!(forwards.unregister(40000), None);
}

fn parts_write() -> PartsWrite {
    let mut write = PartsWrite::new("/w/out.txt", Some(0o755), "id".to_string()).unwrap();
    assert!(asks_for_a_part(write.step(PartsEvent::Opened(5))));
    write
}

fn asks_for_a_part(action: PartsAction) -> bool {
    matches!(action, PartsAction::Read { limit: LEGACY_CHUNK_BYTES })
}

fn write_part(write: &mut PartsWrite, index: usize, length: usize) {
    let bytes: Vec<u8> = vec![index as u8; length];
    match write.step(PartsEvent::Read(Ok(bytes.clone()))) {
        PartsAction::Write { part, data } => {
            assert_eq!(part, part_path("id", index));
            assert_eq!(data, bytes);
        }
        other => panic!("{other:?}"),
    }
}

#[test]
fn a_file_in_parts_is_put_together_and_cleaned_up() {
    let staging = "/w/.out.txt.openbracket-write-legacy-id".to_string();
    for fails in [false, true] {
        let mut write = parts_write();
        write_part(&mut write, 0, 3);
        assert!(asks_for_a_part(write.step(PartsEvent::Written(Ok(())))));
        write_part(&mut write, 1, 2);
        assert!(asks_for_a_part(write.step(PartsEvent::Written(Ok(())))));
        let parts = vec![part_path("id", 0), part_path("id", 1)];
        match write.step(PartsEvent::Read(Ok(Vec::new()))) {
            PartsAction::Run(command) => assert_eq!(
                command,
                assemble_file("/w/out.txt", &staging, &parts, 5, Some(0o755))
            ),
            other => panic!("{other:?}"),
        }
        let ran = if fails { Err(SandboxError::Unsupported("x".to_string())) } else { Ok(()) };
        match write.step(PartsEvent::Ran(ran)) {
            PartsAction::Finish { remove, result } => {
                assert_eq!(remove, vec![part_path("id", 0), part_path("id", 1), staging.clone()]);
                assert_eq!(result.is_err(), fails);
            }
            other => panic!("{other:?}"),
        }
    }
}

#[test]
fn a_part_that_fails_takes_those_before_it_away() {
    let mut write = parts_write();
    write_part(&mut write, 0, 3);
    assert!(asks_for_a_part(write.step(PartsEvent::Written(Ok(())))));
    write_part(&mut write, 1, 2);
    let failed = Err(SandboxError::DaemonUnavailable("gone".to_string()));
    match write.step(PartsEvent::Written(failed)) {
        PartsAction::Finish { remove, result } => {
            assert_eq!(remove, vec![part_path("id", 0)]);
            assert!(matches!(result, Err(SandboxError::DaemonUnavailable(_))));
        }
        other => panic!("{other:?}"),
    }
    let mut write = parts_write();
    match write.step(PartsEvent::Read(Err(SandboxError::Io("disk".to_string())))) {
        PartsAction::Finish { remove, result } => {
            assert!(remove.is_empty());
            assert!(matches!(result, Err(SandboxError::Io(_))));
        }
        other => panic!("{other:?}"),
    }
    assert!(matches!(
        PartsWrite::new("out.txt", None, "id".to_string()),
        Err(SandboxError::InvalidConfig(_))
    ));
}

#[test]
fn signals_are_numbered_from_one() {
    let mut sequence = SignalSequence::new();
    assert_eq!(sequence.last(), 0);
    assert_eq!(sequence.next(), 1);
    assert_eq!(sequence.next(), 2);
    assert_eq!(sequence.last(), 2);
}

#[test]
fn a_file_is_sent_in_bounded_pieces() {
    let reads = |action: &FeedAction| {
        matches!(action, FeedAction::Read { limit: STREAM_CHUNK_BYTES })
    };
    let (mut feed, announced) = FileFeed::start("/p", 3, Some(0o644));
    assert!(matches!(
        announced,
        FeedAction::Send(WriteRequest::Start { expected_bytes: 3, create_parents: true, .. })
    ));
    assert!(reads(&feed.step(FeedEvent::Sent { taken: true })));
    match feed.step(FeedEvent::Read(Ok(vec![1, 2, 3]))) {
        FeedAction::Send(WriteRequest::Data(data)) => assert_eq!(data, vec![1, 2, 3]),
        other => panic!("{other:?}"),
    }
    assert!(reads(&feed.step(FeedEvent::Sent { taken: true })));
    assert!(matches!(feed.step(FeedEvent::Read(Ok(Vec::new()))), FeedAction::End(Ok(()))));
    let (mut feed, _) = FileFeed::start("/p", 3, None);
    match feed.step(FeedEvent::Sent { taken: false }) {
        FeedAction::End(Err(error)) => assert_eq!(error.text(), write_stream_closed(false).text()),
        other => panic!("{other:?}"),
    }
    let (mut feed, _) = FileFeed::start("/p", 3, None);
    feed.step(FeedEvent::Sent { taken: true });
    feed.step(FeedEvent::Read(Ok(vec![1])));
    match feed.step(FeedEvent::Sent { taken: false }) {
        FeedAction::End(Err(error)) => assert_eq!(error.text(), write_stream_closed(true).text()),
        other => panic!("{other:?}"),
    }
    let (mut feed, _) = FileFeed::start("/p", 3, None);
    feed.step(FeedEvent::Sent { taken: true });
    assert!(matches!(
        feed.step(FeedEvent::Read(Err(SandboxError::Io("disk".to_string())))),
        FeedAction::End(Err(SandboxError::Io(_)))
    ));
}
