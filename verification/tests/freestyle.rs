//! The Freestyle backend.

use chevalier_sandbox::config::allowlist_from_parsed;
use chevalier_sandbox::config::FreestyleBackendConfig;
use chevalier_sandbox::config::ManagedMountConfig;
use chevalier_sandbox::config::OpenComputerBackendConfig;
use chevalier_sandbox::config::ResourceLimits;
use chevalier_sandbox::exec::ExecOptions;
use chevalier_sandbox::error::SandboxError;
use chevalier_sandbox::exec::ExecEvent;
use chevalier_sandbox::freestyle::metadata_within_limits;
use chevalier_sandbox::freestyle::normalize_api_url;
use chevalier_sandbox::freestyle::session_slug;
use chevalier_sandbox::freestyle::session_slug_with;
use chevalier_sandbox::freestyle::text_slug;
use chevalier_sandbox::freestyle::vm_actions;
use chevalier_sandbox::freestyle::websocket_api_url;
use chevalier_sandbox::freestyle::FreestyleControl;
use chevalier_sandbox::freestyle::FreestyleVm;
use chevalier_sandbox::freestyle::FreestyleVmAction;
use chevalier_sandbox::freestyle::FreestyleVmState;
use chevalier_sandbox::freestyle_api::action_request;
use chevalier_sandbox::freestyle_api::created;
use chevalier_sandbox::freestyle_api::delete_outcome;
use chevalier_sandbox::freestyle_api::directory_entries;
use chevalier_sandbox::freestyle_api::exec_events;
use chevalier_sandbox::freestyle_api::exec_timeout_ms;
use chevalier_sandbox::freestyle_api::find_by_session_id;
use chevalier_sandbox::freestyle_api::fork_checkpoint;
use chevalier_sandbox::freestyle_api::fork_checkpoint_with;
use chevalier_sandbox::freestyle_api::freestyle_error_with;
use chevalier_sandbox::freestyle_api::freestyle_response_error;
use chevalier_sandbox::freestyle_api::managed_filter;
use chevalier_sandbox::freestyle_api::missing_directory;
use chevalier_sandbox::freestyle_api::next_page;
use chevalier_sandbox::freestyle_api::preview_exists;
use chevalier_sandbox::freestyle_api::preview_rule;
use chevalier_sandbox::freestyle_api::resize_body;
use chevalier_sandbox::freestyle_api::resize_response;
use chevalier_sandbox::freestyle_api::response_outcome;
use chevalier_sandbox::freestyle_api::session_filter;
use chevalier_sandbox::freestyle_api::sessions_of_page;
use chevalier_sandbox::freestyle_api::wrap_command;
use chevalier_sandbox::freestyle_api::ActionRequest;
use chevalier_sandbox::freestyle_api::CreateVmBody;
use chevalier_sandbox::freestyle_api::DirEntry;
use chevalier_sandbox::freestyle_api::ExecAwaitResponse;
use chevalier_sandbox::freestyle_api::FirewallSpec;
use chevalier_sandbox::freestyle_api::TlsEndpoint;
use chevalier_sandbox::freestyle_api::TlsRule;
use chevalier_sandbox::freestyle_api::TlsSpec;
use chevalier_sandbox::freestyle_mounts::bootstrap_verdict;
use chevalier_sandbox::freestyle_mounts::mount_script;
use chevalier_sandbox::freestyle_mounts::mount_work;
use chevalier_sandbox::freestyle_mounts::replay_verdict;
use chevalier_sandbox::freestyle_mounts::sanitize_tag;
use chevalier_sandbox::freestyle_mounts::MountWork;
use chevalier_sandbox::freestyle_mounts::RenderedMount;
use chevalier_sandbox::freestyle_pty::pty_control_event;
use chevalier_sandbox::freestyle_pty::pty_control_from;
use chevalier_sandbox::freestyle_pty::pty_error;
use chevalier_sandbox::freestyle_pty::pty_input;
use chevalier_sandbox::freestyle_pty::pty_message;
use chevalier_sandbox::freestyle_pty::pty_opened;
use chevalier_sandbox::freestyle_pty::PtyControl;
use chevalier_sandbox::freestyle_pty::PtyFailure;
use chevalier_sandbox::freestyle_pty::PtyFrame;
use chevalier_sandbox::freestyle_pty::PtyMessage;
use chevalier_sandbox::mounts::SharedMount;
use chevalier_sandbox::mounts::SharedMountAvailability;
use chevalier_sandbox::mounts::SharedMountContinuity;
use chevalier_sandbox::session::SessionVmAction;
use chevalier_sandbox::shell::detached_command;
use chevalier_sandbox::shell::shell_command;
use chevalier_sandbox::shell::ShellEvent;
use chevalier_sandbox::shell::ShellInput;
use chevalier_sandbox::shell::ShellOptions;
use chevalier_sandbox::table::StringMap;
use chevalier_sandbox::vm::VmState;

fn shared_mount() -> SharedMount {
    SharedMount {
        host_path: String::new(),
        guest_path: "/mnt/nymfs".to_string(),
        mount_tag: "nymfs-root".to_string(),
        read_only: false,
        availability: SharedMountAvailability::SharedStorage,
        continuity: SharedMountContinuity::RestoreCrossNode,
        backend_profile: "gcs-vfs-fuse".to_string(),
        vfs_endpoint: "https://api.example.com/v1/runtime/internal/vfs/owner".to_string(),
        vfs_scope_path: "/nyms/abc/".to_string(),
    }
}

fn control() -> FreestyleControl {
    FreestyleControl::new(FreestyleBackendConfig {
        api_key: "k".to_string(),
        ..FreestyleBackendConfig::default()
    })
    .unwrap()
}

fn vm(id: &str, state: FreestyleVmState, metadata: &[(&str, &str)]) -> FreestyleVm {
    let mut table = StringMap::new();
    for (key, value) in metadata {
        table.insert(key.to_string(), value.to_string());
    }
    FreestyleVm { id: id.to_string(), state, metadata: table, display_name: None }
}

#[test]
fn api_urls_are_absolute_and_websocket_scheme_follows() {
    assert_eq!(
        normalize_api_url("https://api.freestyle.sh/").unwrap(),
        "https://api.freestyle.sh"
    );
    assert!(normalize_api_url("api.freestyle.sh").is_err());
    assert_eq!(websocket_api_url("https://api.freestyle.sh"), "wss://api.freestyle.sh");
}

#[test]
fn create_body_uses_v5_shape_with_open_egress_by_default() {
    let mut metadata = StringMap::new();
    metadata.insert("chevalier.session_id".to_string(), "abc".to_string());
    let body = CreateVmBody {
        snapshot_id: Some("sh-1".to_string()),
        slug: Some("nym-abc".to_string()),
        reassign_slug: true,
        display_name: None,
        metadata,
        firewall: FirewallSpec::for_egress(&None),
        tls: TlsSpec::for_egress_domains(&None),
        idle_timeout_seconds: Some(900),
        auto_delete_seconds: None,
        automatic_restart: Some(true),
    };
    assert_eq!(body.snapshot_id.as_deref(), Some("sh-1"));
    assert_eq!(body.slug.as_deref(), Some("nym-abc"));
    assert!(body.reassign_slug);
    assert!(body.display_name.is_none());
    assert_eq!(body.metadata.get("chevalier.session_id").unwrap(), "abc");
    assert_eq!(body.metadata.len(), 1);
    assert_eq!(body.firewall.rules.len(), 1);
    let rule = &body.firewall.rules[0];
    assert_eq!(rule.action, "allow");
    assert_eq!(rule.source.public, None);
    assert_eq!(rule.source.cidr, None);
    assert_eq!(rule.destination.public, Some(true));
    assert_eq!(rule.destination.cidr, None);
    assert!(body.tls.is_none());
    assert_eq!(body.idle_timeout_seconds, Some(900));
    assert_eq!(body.auto_delete_seconds, None);
    assert_eq!(body.automatic_restart, Some(true));
}

#[test]
fn egress_allowlist_closes_l3_and_opens_named_tls_sessions() {
    let allow = Some(vec![
        "api.openai.com".to_string(),
        "__chevalier_no_hosts_allowed__".to_string(),
    ]);
    let firewall = FirewallSpec::for_egress(&allow);
    assert!(firewall.rules.is_empty());
    let tls = TlsSpec::for_egress_domains(&allow).unwrap();
    assert_eq!(tls.rules.len(), 1);
    assert_eq!(tls.rules[0].domain, "api.openai.com");
    assert_eq!(tls.rules[0].destination.public, Some(true));
    assert_eq!(tls.rules[0].destination.vm_id, None);
    assert_eq!(tls.rules[0].destination.port, None);
}

#[test]
fn a_session_opens_the_hosts_that_it_names() {
    let hosts = Some(vec!["api.openai.com".to_string()]);
    let body = control().create_body(None, StringMap::new(), hosts);
    assert!(body.firewall.rules.is_empty());
    let tls = body.tls.unwrap();
    assert_eq!(tls.rules.len(), 1);
    assert_eq!(tls.rules[0].domain, "api.openai.com");
    let open = control().create_body(None, StringMap::new(), None);
    assert_eq!(open.firewall.rules.len(), 1);
    assert!(open.tls.is_none());
    assert_eq!(open.metadata.get("chevalier.managed_by").unwrap(), "chevalier-sandbox");
}

#[test]
fn exec_wrapping_quotes_through_the_login_shell() {
    assert_eq!(
        shell_command("/bin/sh", "echo 'hi'"),
        "'/bin/sh' -lc 'echo '\\''hi'\\'''"
    );
    assert!(
        detached_command("/bin/bash", "sleep 100")
            .starts_with("nohup '/bin/bash' -lc 'sleep 100' >/dev/null")
    );
}

#[test]
fn session_slugs_follow_freestyle_rules() {
    assert_eq!(session_slug("3F1A-2B__x"), "3f1a-2b-x");
    assert_eq!(session_slug("--Nym--"), "nym");
    assert_eq!(session_slug(&"a".repeat(100)).len(), 63);
    assert!(session_slug("!!!").starts_with("s-"));
}

#[test]
fn a_slug_is_its_own_slug() {
    for id in ["3F1A-2B__x", "--Nym--", "\u{c4}\u{130}b c", "!!!"] {
        let slug = session_slug(id);
        assert_eq!(session_slug(&slug), slug);
        assert_eq!(text_slug(&slug), slug);
    }
    assert_eq!(text_slug("nym-9"), "nym-9");
}

#[test]
fn slugs_of_nothing_are_random() {
    assert_eq!(session_slug_with("!!!", "0123"), "s-0123");
    assert_eq!(session_slug_with("nym", "0123"), "nym");
    let random = session_slug("!!!");
    assert_eq!(random.len(), 34);
    assert!(random[2..].chars().all(|c| c.is_ascii_hexdigit() && !c.is_ascii_uppercase()));
    assert_ne!(random, session_slug("!!!"));
}

#[test]
fn mount_launch_script_is_idempotent_per_boot_and_carries_secrets_as_env() {
    let mut template = ManagedMountConfig::command(
        String::new(),
        [
            "sh",
            "-lc",
            "exec /usr/local/bin/chevalier-vfs-fuse --endpoint {vfs_endpoint} --scope {vfs_scope_path} --tag {mount_tag} {mountpoint}",
        ]
        .iter()
        .map(|word| word.to_string())
        .collect(),
    );
    template.secrets.insert(
        "CHEVALIER_SANDBOX_VFS_INTERNAL_SERVICE_TOKEN".to_string(),
        "tok".to_string(),
    );
    let rendered = RenderedMount::render(&template, &shared_mount());
    assert_eq!(rendered.mountpoint, "/mnt/nymfs");
    assert_eq!(
        rendered.command[2],
        "exec /usr/local/bin/chevalier-vfs-fuse --endpoint https://api.example.com/v1/runtime/internal/vfs/owner --scope nyms/abc --tag nymfs-root /mnt/nymfs"
    );
    let script = rendered.launch_script();
    assert!(script.contains("if [ ! -e '/run/chevalier/mounts/nymfs-root' ]"));
    assert!(script.contains("export CHEVALIER_SANDBOX_VFS_INTERNAL_SERVICE_TOKEN='tok'"));
    assert!(script.contains("export CHEVALIER_VFS_READ_ONLY=false"));
    assert!(script.contains("nohup 'sh' '-lc'"));
}

#[test]
fn launch_scripts_do_not_depend_on_the_order_of_settings() {
    let render = |keys: &[&str]| {
        let mut template =
            ManagedMountConfig::command(String::new(), vec!["mount-it".to_string()]);
        for key in keys {
            template.env.insert(key.to_string(), format!("value of {key}"));
        }
        RenderedMount::render(&template, &shared_mount()).launch_script()
    };
    assert_eq!(render(&["B", "A", "C"]), render(&["C", "B", "A"]));
}

#[test]
fn mounts_are_replayed_or_set_up() {
    match mount_work(&Vec::new()) {
        MountWork::Replay { .. } => {},
        MountWork::Bootstrap { .. } => panic!("without mounts the stored script is replayed"),
    }
    let template = ManagedMountConfig::command(String::new(), vec!["mount-it".to_string()]);
    let mounts = vec![RenderedMount::render(&template, &shared_mount())];
    let script = mount_script(&mounts);
    assert!(script.contains(&mounts[0].launch_script()));
    assert!(matches!(mount_work(&mounts), MountWork::Bootstrap { .. }));
    assert_eq!(sanitize_tag("a b/c.d_e-F"), "a_b_c_d_e-F");
    let answer = |status_code: Option<i32>| ExecAwaitResponse {
        status_code,
        stdout: None,
        stderr: Some("boom".to_string()),
    };
    assert!(replay_verdict(&answer(Some(0))).is_ok());
    assert!(replay_verdict(&answer(Some(1))).is_err());
    assert!(bootstrap_verdict(&answer(Some(0))).is_ok());
    assert!(bootstrap_verdict(&answer(Some(3))).is_err());
}

#[test]
fn mounts_need_a_template() {
    let with = |name: &str| {
        let mut cfg = FreestyleBackendConfig { api_key: "k".to_string(), ..Default::default() };
        cfg.shared_mounts.insert(
            name.to_string(),
            ManagedMountConfig::command(String::new(), vec!["mount-it".to_string()]),
        );
        FreestyleControl::new(cfg).unwrap()
    };
    let mounts = vec![shared_mount()];
    assert!(control().resolve_mounts(&mounts).is_err());
    assert_eq!(with("gcs-vfs-fuse").resolve_mounts(&mounts).unwrap().len(), 1);
}

#[test]
fn pty_control_frames_decode() {
    assert!(matches!(
        pty_control_event(r#"{"type":"exited","exitCode":3}"#),
        Some(PtyControl::Exited(3))
    ));
    assert!(
        matches!(pty_control_event(r#"{"type":"error","message":"boom"}"#), Some(PtyControl::Error(m)) if m == "boom")
    );
    assert!(matches!(
        pty_control_event(r#"{"type":"sessionInfo","sessionId":"x"}"#),
        Some(PtyControl::SessionInfo)
    ));
    assert!(pty_control_event("not json").is_none());
}

#[test]
fn pty_control_fields_decide() {
    assert!(matches!(
        pty_control_from(Some("exited"), Some(7), None),
        Some(PtyControl::Exited(7))
    ));
    assert!(pty_control_from(Some("other"), None, None).is_none());
    assert!(pty_control_from(None, Some(1), None).is_none());
}

#[test]
fn pty_frames_become_events() {
    let out = pty_message(PtyMessage::Binary(vec![1, 2]));
    assert!(!out.done);
    assert!(matches!(out.event, Some(Ok(ShellEvent::Output(data))) if data == vec![1, 2]));
    let exit = pty_message(PtyMessage::Text(r#"{"type":"exited","exitCode":3}"#.to_string()));
    assert!(exit.done);
    assert!(matches!(exit.event, Some(Ok(ShellEvent::Exit(3)))));
    let error = pty_message(PtyMessage::Text(r#"{"type":"error","message":"boom"}"#.to_string()));
    assert!(matches!(error.event, Some(Err(_))));
    assert!(pty_message(PtyMessage::Close).done);
    assert!(!pty_message(PtyMessage::Other).done);
    let lost = pty_message(PtyMessage::Failed("reset".to_string()));
    assert!(lost.done);
    assert!(matches!(lost.event, Some(Err(_))));
}

#[test]
fn pty_input_becomes_frames() {
    assert!(matches!(pty_input(ShellInput::Data(vec![9])), PtyFrame::Binary(d) if d == vec![9]));
    match pty_input(ShellInput::Resize { cols: 80, rows: 24 }) {
        PtyFrame::Text(text) => {
            let value: serde_json::Value = serde_json::from_str(&text).unwrap();
            assert_eq!(value["type"], "resize");
            assert_eq!(value["cols"], 80);
            assert_eq!(value["rows"], 24);
        },
        PtyFrame::Binary(_) => panic!("a new size is text"),
    }
}

#[test]
fn pty_urls_name_the_command() {
    let mut opts = ShellOptions::new();
    opts.shell = Some("/bin/bash".to_string());
    opts.cols = Some(120);
    opts.rows = Some(40);
    let url = control().pty_url("vm 1", &opts);
    assert!(url.starts_with("wss://"), "{url}");
    assert!(url.contains("vm%201"), "{url}");
    assert!(url.contains("cols=120"), "{url}");
    assert!(url.contains("rows=40"), "{url}");
    assert!(!url.contains(' '), "{url}");
}

#[test]
fn pty_failures_are_told_apart() {
    assert!(pty_opened(101).is_ok());
    assert!(pty_opened(500).is_err());
    let shown = pty_error(PtyFailure::Connection, "refused").text();
    assert!(shown.contains("refused"), "{shown}");
}

#[test]
fn vm_states_map_onto_vmd_states() {
    assert_eq!(FreestyleVmState::Running.as_proto_state(), VmState::Running);
    assert_eq!(FreestyleVmState::Paused.as_proto_state(), VmState::Paused);
    assert_eq!(FreestyleVmState::Stopped.as_proto_state(), VmState::Stopped);
    assert_eq!(FreestyleVmState::named("pausing"), Some(FreestyleVmState::Pausing));
}

#[test]
fn vm_states_have_names() {
    assert_eq!(FreestyleVmState::named("running"), Some(FreestyleVmState::Running));
    assert_eq!(FreestyleVmState::named("Running"), None);
    assert!(FreestyleVmState::Paused.needs_start());
    assert!(!FreestyleVmState::Starting.needs_start());
    assert_eq!(FreestyleVmState::Starting.as_proto_state(), VmState::Creating);
}

#[test]
fn metadata_is_trimmed_to_platform_limits() {
    let mut metadata = StringMap::new();
    for index in 0..70 {
        metadata.insert(format!("k{index}"), "v".to_string());
    }
    metadata.insert("too-long".to_string(), "x".repeat(64));
    let kept = metadata_within_limits(&metadata);
    assert_eq!(kept.len(), 64);
    assert!(!kept.contains_key("too-long"));
}

#[test]
fn preview_domains_are_stable_per_vm_and_port() {
    assert_eq!(control().preview_domain("vm-0f3a-9b", 8080), "nym-0f3a9b-p8080.style.dev");
}

#[test]
fn controls_need_a_key_and_an_absolute_url() {
    assert!(matches!(
        FreestyleControl::new(FreestyleBackendConfig::default()),
        Err(SandboxError::InvalidConfig(_))
    ));
    assert!(FreestyleControl::new(FreestyleBackendConfig {
        api_key: "k".to_string(),
        api_url: "api.freestyle.sh".to_string(),
        ..Default::default()
    })
    .is_err());
}

#[test]
fn urls_encode_ids() {
    let url = control().vm_url("a/b c", "/start");
    assert!(url.contains("a%2Fb%20c"), "{url}");
    assert!(url.ends_with("/start"), "{url}");
    assert!(control().snapshot_url("s/1").ends_with("s%2F1"));
}

#[test]
fn previews_are_found_among_rules() {
    let rules = vec![TlsRule {
        domain: "d".to_string(),
        destination: TlsEndpoint::vm_port("vm-1", 8080),
    }];
    assert!(preview_exists(&rules, "d", "vm-1", 8080));
    assert!(!preview_exists(&rules, "d", "vm-1", 8081));
    assert!(!preview_exists(&rules, "d", "vm-2", 8080));
    assert!(!preview_exists(&rules, "e", "vm-1", 8080));
    let rule = preview_rule("d", "vm-1", 8080, &Some("auth-1".to_string()));
    assert_eq!(rule.domain, "d");
    assert_eq!(rule.destination.port, Some(8080));
    assert_eq!(rule.forward_auth.as_deref(), Some("auth-1"));
}

#[test]
fn responses_map_onto_errors() {
    assert!(response_outcome(200, "").is_ok());
    assert!(response_outcome(204, "").is_ok());
    assert!(matches!(
        freestyle_response_error(404, "gone"),
        SandboxError::SessionNotFound(m) if m == "Freestyle: gone"
    ));
    match freestyle_response_error(500, "oops") {
        SandboxError::InvalidResponse(m) => {
            assert_eq!(m, "Freestyle request failed with 500 Internal Server Error: oops");
        },
        other => panic!("{other:?}"),
    }
    match freestyle_response_error(500, r#"{"code":"E_X"}"#) {
        SandboxError::InvalidResponse(m) => assert!(m.contains(" [E_X]: "), "{m}"),
        other => panic!("{other:?}"),
    }
    assert!(matches!(
        freestyle_error_with(404, &None, "b"),
        SandboxError::SessionNotFound(_)
    ));
    assert!(delete_outcome(404, "gone").is_ok());
    assert!(delete_outcome(500, "oops").is_err());
}

#[test]
fn bodies_carry_bytes_as_base64() {
    let body = control().exec_await_body(
        "cat",
        None,
        Some(1000),
        Some(b"hello".to_vec()),
        Some("root"),
    );
    assert_eq!(body.stdin.as_deref(), Some("aGVsbG8="));
    let stdin = |bytes: &[u8]| {
        control().exec_await_body("cat", None, None, Some(bytes.to_vec()), None).stdin.unwrap()
    };
    assert_eq!(stdin(&[]), "");
    assert_eq!(stdin(&[0]), "AA==");
    assert_eq!(stdin(&[0xfb, 0xff, 0xfe]), "+//+");
    assert_eq!(stdin(b"Verus 42"), "VmVydXMgNDI=");
    assert_eq!(body.linux_user.as_deref(), Some("root"));
    assert_eq!(body.timeout_ms, Some(1000));
    assert_eq!(body.command, "cat");
}

#[test]
fn commands_run_as_asked_for() {
    let mut opts = ExecOptions::new();
    let body = control().exec_body("ls", opts);
    assert!(body.env.is_none());
    assert_eq!(body.timeout_ms, Some(30_000));
    assert_eq!(body.stdin, None);
    assert!(body.command.contains("/bin/sh"), "{}", body.command);
    opts = ExecOptions::new();
    opts.env.insert("A".to_string(), "1".to_string());
    opts.timeout_secs = Some(10);
    opts.shell = Some("/bin/bash".to_string());
    let body = control().exec_body("ls", opts);
    assert_eq!(body.env.unwrap().get("A").map(|v| v.to_string()), Some("1".to_string()));
    assert_eq!(body.timeout_ms, Some(10_000));
    assert!(body.command.contains("/bin/bash"), "{}", body.command);
}

#[test]
fn timeouts_of_commands_are_bounded() {
    assert_eq!(exec_timeout_ms(None), 30_000);
    assert_eq!(exec_timeout_ms(Some(10)), 10_000);
    assert_eq!(exec_timeout_ms(Some(100_000)), 300_000);
}

#[test]
fn answers_become_events() {
    let events = exec_events(&ExecAwaitResponse {
        status_code: Some(2),
        stdout: Some("out".to_string()),
        stderr: Some(String::new()),
    });
    assert_eq!(events.len(), 2);
    assert!(matches!(&events[0], Ok(ExecEvent::Stdout(d)) if d == b"out"));
    assert!(matches!(&events[1], Ok(ExecEvent::Exit(2))));
    let none = exec_events(&ExecAwaitResponse { status_code: None, stdout: None, stderr: None });
    assert_eq!(none.len(), 1);
}

#[test]
fn commands_are_wrapped() {
    assert_eq!(wrap_command(&None, "true", false), "'/bin/sh' -lc 'true'");
    assert!(wrap_command(&Some("/bin/bash".to_string()), "true", true).starts_with("nohup "));
}

#[test]
fn actions_are_requests() {
    assert_eq!(action_request(FreestyleVmAction::Start), ActionRequest::PostStart);
    assert_eq!(action_request(FreestyleVmAction::Pause), ActionRequest::PostPause);
    assert_eq!(action_request(FreestyleVmAction::Stop), ActionRequest::PowerOff);
    assert_eq!(
        vm_actions(SessionVmAction::Restart),
        vec![FreestyleVmAction::Stop, FreestyleVmAction::Start]
    );
    assert_eq!(vm_actions(SessionVmAction::Resume), vec![FreestyleVmAction::Start]);
}

#[test]
fn pages_of_sessions() {
    let vms = vec![
        vm("vm-1", FreestyleVmState::Running, &[("chevalier.session_id", "s-1")]),
        vm("vm-2", FreestyleVmState::Paused, &[]),
    ];
    let list = sessions_of_page(&vms);
    assert_eq!(list.len(), 1);
    assert_eq!(list[0].session_id, "s-1");
    assert_eq!(list[0].vm_id, "vm-1");
    assert_eq!(find_by_session_id(&vms, "s-1"), Some(0));
    assert_eq!(find_by_session_id(&vms, "s-2"), None);
    assert_eq!(next_page(0, 100, 250), Some(100));
    assert_eq!(next_page(200, 50, 250), None);
    assert_eq!(next_page(0, 0, 250), None);
    assert!(managed_filter().contains("chevalier.managed_by"));
    assert!(session_filter("s 1").contains("s 1") || session_filter("s 1").contains("s%201"));
}

#[test]
fn resizes_that_shrink_are_left_alone() {
    let body = resize_body(ResourceLimits { vcpu: 4, memory_mb: 8192, disk_gb: 20 }).unwrap();
    assert_eq!(body.cpu, Some(4));
    assert!(resize_body(ResourceLimits { vcpu: 0, memory_mb: 0, disk_gb: 0 }).is_none());
    assert!(resize_response(200, "").is_ok());
    assert!(resize_response(400, "{\"code\":\"TOO_SMALL\"}").is_ok());
    assert!(resize_response(500, "oops").is_err());
    assert!(resize_response(500, "error 400 inside").is_err());
    assert!(matches!(resize_response(404, "400"), Err(SandboxError::SessionNotFound(_))));
}

#[test]
fn a_vm_that_cannot_be_set_up_is_deleted() {
    let good = created(vm("vm-1", FreestyleVmState::Running, &[]), Ok(()));
    assert!(!good.delete);
    assert_eq!(good.result.unwrap().id, "vm-1");
    let bad = created(
        vm("vm-1", FreestyleVmState::Running, &[]),
        Err(SandboxError::InvalidResponse("mount".to_string())),
    );
    assert!(bad.delete);
    assert!(bad.result.is_err());
}

#[test]
fn listings_keep_kinds() {
    let entries = directory_entries(vec![
        DirEntry { name: "a".to_string(), kind: "directory".to_string() },
        DirEntry { name: "b".to_string(), kind: "symlink".to_string() },
        DirEntry { name: "c".to_string(), kind: "file".to_string() },
    ]);
    assert!(entries[0].is_dir && !entries[0].is_symlink);
    assert!(entries[1].is_symlink && !entries[1].is_dir);
    assert!(!entries[2].is_dir && !entries[2].is_symlink);
    assert_eq!(missing_directory("/a/b/c.txt").as_deref(), Some("/a/b"));
    assert_eq!(missing_directory("/c.txt"), None);
}

#[test]
fn forks_have_names() {
    assert_eq!(
        fork_checkpoint_with(&Some("child".to_string()), "0123"),
        fork_checkpoint(&Some("child".to_string()))
    );
    let random = fork_checkpoint(&None);
    assert_ne!(random, fork_checkpoint(&None));
    assert!(fork_checkpoint_with(&None, "0123").contains("0123"));
}

#[test]
fn allowlists_are_json_lists() {
    let env = |text: &str| {
        let mut env = StringMap::new();
        env.insert("FREESTYLE_EGRESS_ALLOWLIST_JSON".to_string(), text.to_string());
        FreestyleBackendConfig::from_env(&env, None)
    };
    assert_eq!(
        env(r#"["a.example","b.example"]"#).unwrap().egress_allowlist,
        Some(vec!["a.example".to_string(), "b.example".to_string()])
    );
    match env("not json") {
        Err(SandboxError::InvalidConfig(m)) => {
            assert!(m.starts_with("invalid FREESTYLE_EGRESS_ALLOWLIST_JSON: "), "{m}");
        },
        _ => panic!("no list"),
    }
    assert!(matches!(
        allowlist_from_parsed("NAME", Err("bad".to_string())),
        Err(SandboxError::InvalidConfig(m)) if m == "invalid NAME: bad"
    ));
}

#[test]
fn opencomputer_settings_have_defaults() {
    let cfg = OpenComputerBackendConfig::from_env(&StringMap::new(), None, None).unwrap();
    let default = OpenComputerBackendConfig::default();
    assert_eq!(cfg.api_url, default.api_url);
    assert_eq!(cfg.timeout_secs, default.timeout_secs);
    let mut env = StringMap::new();
    env.insert("OPENCOMPUTER_API_KEY".to_string(), "key".to_string());
    assert_eq!(OpenComputerBackendConfig::from_env(&env, None, None).unwrap().api_key, "key");
}
