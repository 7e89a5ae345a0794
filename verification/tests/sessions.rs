//! Configuration, sessions, readiness and the move of a session to another endpoint.

use chevalier_sandbox::config::changed_resources;
use chevalier_sandbox::config::detect_host_architecture_label;
use chevalier_sandbox::config::normalize_architecture_label;
use chevalier_sandbox::config::tls_domain;
use chevalier_sandbox::config::warm_pool_key;
use chevalier_sandbox::config::DistributedControlConfig;
use chevalier_sandbox::config::FreestyleBackendConfig;
use chevalier_sandbox::config::ManagedMountConfig;
use chevalier_sandbox::config::ResourceLimits;
use chevalier_sandbox::config::SandboxProviderConfig;
use chevalier_sandbox::config::TlsClientConfig;
use chevalier_sandbox::config::WarmPoolProfile;
use chevalier_sandbox::endpoint::normalize_endpoint;
use chevalier_sandbox::error::GrpcCode;
use chevalier_sandbox::error::GrpcStatus;
use chevalier_sandbox::error::SandboxError;
use chevalier_sandbox::inventory::find_session_vm;
use chevalier_sandbox::inventory::forwarded_desktop;
use chevalier_sandbox::inventory::list_durable_volumes;
use chevalier_sandbox::inventory::list_sessions;
use chevalier_sandbox::inventory::lookup_failure;
use chevalier_sandbox::inventory::lookup_order;
use chevalier_sandbox::inventory::managed_snapshot;
use chevalier_sandbox::inventory::map_host_pci_device;
use chevalier_sandbox::inventory::map_pci_action;
use chevalier_sandbox::inventory::plan_desktop;
use chevalier_sandbox::inventory::timestamp_has_millis;
use chevalier_sandbox::inventory::timestamp_ms;
use chevalier_sandbox::inventory::volume_list_failure;
use chevalier_sandbox::inventory::volume_failure;
use chevalier_sandbox::inventory::volume_inventory;
use chevalier_sandbox::inventory::VolumeStep;
use chevalier_sandbox::inventory::volume_verdict;
use chevalier_sandbox::inventory::DesktopKind;
use chevalier_sandbox::inventory::DesktopPlan;
use chevalier_sandbox::inventory::HostPciDeviceState;
use chevalier_sandbox::inventory::LookupStep;
use chevalier_sandbox::inventory::LookupTally;
use chevalier_sandbox::inventory::SessionDesktopAuthentication;
use chevalier_sandbox::inventory::SessionDesktopKind;
use chevalier_sandbox::inventory::VolumeListStep;
use chevalier_sandbox::inventory::VolumeOperation;
use chevalier_sandbox::inventory::WireDesktop;
use chevalier_sandbox::inventory::WirePciAction;
use chevalier_sandbox::inventory::WirePciDevice;
use chevalier_sandbox::inventory::WirePciState;
use chevalier_sandbox::inventory::WireTimestamp;
use chevalier_sandbox::inventory::WireVolume;
use chevalier_sandbox::managed::build_control_backend;
use chevalier_sandbox::managed::check_delete_checkpoint;
use chevalier_sandbox::managed::check_vm_action;
use chevalier_sandbox::managed::discard_step;
use chevalier_sandbox::managed::domain_url;
use chevalier_sandbox::managed::forked_vm;
use chevalier_sandbox::managed::found_session;
use chevalier_sandbox::managed::logical_session_id;
use chevalier_sandbox::managed::managed_attach_steps;
use chevalier_sandbox::managed::managed_lookup;
use chevalier_sandbox::managed::session_scope;
use chevalier_sandbox::managed::ControlKind;
use chevalier_sandbox::managed::DiscardStep;
use chevalier_sandbox::managed::ManagedAttachStep;
use chevalier_sandbox::managed::ManagedLookup;
use chevalier_sandbox::managed::ManagedProvider;
use chevalier_sandbox::mounts::proto_shared_mount;
use chevalier_sandbox::mounts::received_mount;
use chevalier_sandbox::mounts::required_shared_mount_profiles;
use chevalier_sandbox::mounts::validate_shared_mount_contract;
use chevalier_sandbox::mounts::SharedMount;
use chevalier_sandbox::mounts::SharedMountAvailability;
use chevalier_sandbox::mounts::SharedMountContinuity;
use chevalier_sandbox::readiness::ensure_running_action;
use chevalier_sandbox::readiness::failure_after_restart;
use chevalier_sandbox::readiness::forward_proxy_port;
use chevalier_sandbox::readiness::guest_rpc_access_from_vm;
use chevalier_sandbox::readiness::not_ready_error;
use chevalier_sandbox::readiness::readiness_failure;
use chevalier_sandbox::readiness::restart_failure;
use chevalier_sandbox::readiness::GuestRpcAccess;
use chevalier_sandbox::readiness::ProbeSeries;
use chevalier_sandbox::readiness::ProbeStep;
use chevalier_sandbox::readiness::ReadinessRecovery;
use chevalier_sandbox::readiness::ReadinessStep;
use chevalier_sandbox::readiness::ReadyPaths;
use chevalier_sandbox::readiness::RunAction;
use chevalier_sandbox::rebind::access_failure_moves_session;
use chevalier_sandbox::rebind::newer_fence;
use chevalier_sandbox::rebind::resolve_after_search;
use chevalier_sandbox::rebind::restore_execution_state_if_needed;
use chevalier_sandbox::reach::GuestReach;
use chevalier_sandbox::reach::ReachAction;
use chevalier_sandbox::reach::ReachEvent;
use chevalier_sandbox::reach::SessionReach;
use chevalier_sandbox::reach::SessionReachAction;
use chevalier_sandbox::reach::SessionReachEvent;
use chevalier_sandbox::rebind::Bound;
use chevalier_sandbox::session::fidelity_requirement;
use chevalier_sandbox::rebind::RebindAction;
use chevalier_sandbox::rebind::RebindEvent;
use chevalier_sandbox::rebind::RebindRestorePolicy;
use chevalier_sandbox::rebind::RebindSearch;
use chevalier_sandbox::sandbox::after_failed_health_checks;
use chevalier_sandbox::sandbox::daemon_args;
use chevalier_sandbox::sandbox::prepare_config;
use chevalier_sandbox::sandbox::prewarm_wanted;
use chevalier_sandbox::sandbox::resolved_warm_pool_profiles;
use chevalier_sandbox::sandbox::DaemonStep;
use chevalier_sandbox::sandbox::SandboxConfig;
use chevalier_sandbox::sandbox::SessionAliases;
use chevalier_sandbox::sandbox::WarmPool;
use chevalier_sandbox::session::attach_steps;
use chevalier_sandbox::session::check_operation;
use chevalier_sandbox::session::clustered_endpoint;
use chevalier_sandbox::session::create_steps;
use chevalier_sandbox::session::create_vm_order;
use chevalier_sandbox::session::created_vm;
use chevalier_sandbox::session::first_healthy_endpoint;
use chevalier_sandbox::session::fork_metadata;
use chevalier_sandbox::session::managed_session_metadata;
use chevalier_sandbox::session::plan_session;
use chevalier_sandbox::session::preview_only;
use chevalier_sandbox::session::remount_plan;
use chevalier_sandbox::session::running_steps;
use chevalier_sandbox::session::session_attach_is_endpoint_handoff;
use chevalier_sandbox::session::session_can_be_named;
use chevalier_sandbox::session::vm_action_plan;
use chevalier_sandbox::session::Session;
use chevalier_sandbox::session::SessionDefaults;
use chevalier_sandbox::session::SessionOptions;
use chevalier_sandbox::session::SessionSourceType;
use chevalier_sandbox::session::SessionStep;
use chevalier_sandbox::session::SessionVmAction;
use chevalier_sandbox::session::SpecialOperation;
use chevalier_sandbox::session::VMD_RESTART_TIMEOUT_SECS;
use chevalier_sandbox::span::Span;
use chevalier_sandbox::table::StringMap;
use chevalier_sandbox::vm::execution_restore_snapshot_id;
use chevalier_sandbox::vm::resolve_tier_b_eligibility;
use chevalier_sandbox::vm::vm_guest_platform;
use chevalier_sandbox::vm::vm_workspace_root;
use chevalier_sandbox::vm::GuestPlatform;
use chevalier_sandbox::vm::GuestProfile;
use chevalier_sandbox::vm::ProxyPorts;
use chevalier_sandbox::vm::Vm;
use chevalier_sandbox::vm::VmSnapshot;
use chevalier_sandbox::vm::VmState;
use chevalier_sandbox::vm::META_EXEC_RESTORE_SNAPSHOT_ID;
use chevalier_sandbox::vm::META_SESSION_ID;
use chevalier_sandbox::vm::META_TIER_B_ELIGIBLE;

fn texts(list: &[&str]) -> Vec<String> {
    list.iter().map(|s| s.to_string()).collect()
}

fn table(entries: &[(&str, &str)]) -> StringMap {
    let mut map = StringMap::new();
    for (key, value) in entries {
        map.insert(key.to_string(), value.to_string());
    }
    map
}

fn vm(id: &str, state: VmState, metadata: &[(&str, &str)]) -> Vm {
    Vm {
        id: id.to_string(),
        name: format!("name of {id}"),
        state,
        metadata: table(metadata),
        snapshots: Vec::new(),
        ports: Some(ProxyPorts { rpc_port: 4001, proxy_port: 4002 }),
        guest_profile: None,
        workspace_root: None,
        shared_mounts: Vec::new(),
    }
}

fn mount(availability: SharedMountAvailability, continuity: SharedMountContinuity) -> SharedMount {
    SharedMount {
        host_path: "/host".to_string(),
        guest_path: "/guest".to_string(),
        mount_tag: "tag".to_string(),
        read_only: false,
        availability,
        continuity,
        backend_profile: "gcs-vfs-fuse".to_string(),
        vfs_endpoint: "https://api.example.com/vfs".to_string(),
        vfs_scope_path: "scope".to_string(),
    }
}

#[test]
fn restart_deadline_covers_graceful_stop() {
    // The daemon waits up to 180 s for a graceful guest shutdown before it force-stops.
    assert!(VMD_RESTART_TIMEOUT_SECS >= 180 + 30);
}

#[test]
fn chevalier_provider_requires_an_explicit_default_image() {
    let config = SandboxConfig {
        default_image: "  ".to_string(),
        auto_spawn: false,
        prewarm_on_start: false,
        endpoint: normalize_endpoint("http://127.0.0.1:1").unwrap(),
        ..SandboxConfig::default()
    };

    let error = match prepare_config(config) {
        Ok(_) => panic!("missing default image should fail before connecting"),
        Err(error) => error,
    };
    assert!(matches!(error, SandboxError::InvalidConfig(_)));
    assert!(error.text().contains("default image is required"));
}

#[test]
fn prepared_configs_hold_headers() {
    let config = SandboxConfig {
        default_image: " ubuntu ".to_string(),
        endpoint: "node:1".to_string(),
        control_gateway_endpoints: texts(&["b:1", "node:1", "a:1", ""]),
        auth_token: Some("t".to_string()),
        pci_access_token: Some("p".to_string()),
        ..SandboxConfig::default()
    };
    let prepared = prepare_config(config).unwrap();
    assert_eq!(prepared.config.default_image, "ubuntu");
    assert_eq!(prepared.config.endpoint, "http://node:1");
    assert_eq!(
        prepared.config.control_gateway_endpoints,
        texts(&["http://a:1", "http://b:1"])
    );
    assert_eq!(prepared.auth_header.as_deref(), Some("Bearer t"));
    assert_eq!(prepared.pci_auth_header.as_deref(), Some("p"));
}

#[test]
fn opencomputer_session_alias_resolves_and_clears_requested_ids() {
    let mut aliases = SessionAliases::new();
    aliases.bind_managed_session_alias("requested-session", "provider-session");
    assert_eq!(aliases.managed_provider_session_id("requested-session"), "provider-session");

    aliases.clear_managed_session_aliases("requested-session", "provider-session");
    assert_eq!(aliases.managed_provider_session_id("requested-session"), "requested-session");
}

#[test]
fn portproxy_channels_are_single_flight_per_vm_route_and_invalidated() {
    let mut paths = ReadyPaths::new();
    // The first use of a path opens a channel, the next ones share it.
    assert!(!paths.reuse_channel("vm-1", "node-1", "http://127.0.0.1:3001"));
    assert!(paths.reuse_channel("vm-1", "node-1", "http://127.0.0.1:3001"));
    // A path over another endpoint opens its own.
    assert!(!paths.reuse_channel("vm-1", "node-1", "http://127.0.0.1:3002"));
    paths.invalidate_ready_vm_rpc("vm-1", "node-1");
    assert!(!paths.reuse_channel("vm-1", "node-1", "http://127.0.0.1:3002"));
}

#[test]
fn ready_paths_are_remembered_until_they_are_void() {
    let mut paths = ReadyPaths::new();
    let access = |port: i32| GuestRpcAccess {
        endpoint: format!("http://n:{port}"),
        rpc_port: port,
        auth_header: None,
        platform: GuestPlatform::Linux,
    };
    assert!(!paths.is_ready("vm-1", "n", &access(1)));
    paths.mark_ready("vm-1", "n", access(1));
    assert!(paths.is_ready("vm-1", "n", &access(1)));
    assert!(!paths.is_ready("vm-1", "n", &access(2)));
    assert_eq!(paths.cached_guest_rpc_access("vm-1", "n").unwrap().rpc_port, 1);
    paths.invalidate_ready_vm_rpc("vm-1", "n");
    assert!(paths.cached_guest_rpc_access("vm-1", "n").is_none());
}

#[test]
fn two_probes_in_a_row_make_a_guest_ready() {
    let mut series = ProbeSeries::new();
    assert_eq!(series.probed(true), ProbeStep::WaitMillis(200));
    assert_eq!(series.probed(false), ProbeStep::WaitMillis(250));
    assert_eq!(series.probed(true), ProbeStep::WaitMillis(200));
    assert_eq!(series.probed(true), ProbeStep::Ready);
}

#[test]
fn a_fresh_boot_is_never_restarted() {
    let silent = || not_ready_error("vm-1", "http://n:1", Span::from_secs(90));
    assert!(matches!(
        readiness_failure(silent(), true, ReadinessRecovery::RestartIfNotFreshlyStarted),
        ReadinessStep::Report(_)
    ));
    assert!(matches!(
        readiness_failure(silent(), false, ReadinessRecovery::FreshBoot),
        ReadinessStep::Report(_)
    ));
    assert!(matches!(
        readiness_failure(silent(), false, ReadinessRecovery::RestartIfNotFreshlyStarted),
        ReadinessStep::RestartOnce(_)
    ));
    assert!(matches!(
        readiness_failure(
            SandboxError::InvalidResponse("x".to_string()),
            false,
            ReadinessRecovery::RestartIfNotFreshlyStarted
        ),
        ReadinessStep::Report(_)
    ));
    let e = failure_after_restart(&silent(), silent());
    match e {
        SandboxError::GuestRpcNotReady { waited, restarted, .. } => {
            assert_eq!(waited, Span::from_secs(180));
            assert!(restarted);
        },
        other => panic!("{other:?}"),
    }
    let status =
        GrpcStatus { code: GrpcCode::Internal, message: "no".to_string(), source: None };
    assert_eq!(
        restart_failure("vm-1", "http://n", "silent", &status).text(),
        format!(
            "daemon unavailable: restart of vm vm-1 on http://n (triggered by: silent) failed: {}",
            status.text()
        )
    );
}

#[test]
fn vms_are_brought_to_run() {
    assert_eq!(ensure_running_action(VmState::Running), RunAction::Nothing);
    assert_eq!(ensure_running_action(VmState::Paused), RunAction::Resume);
    assert_eq!(ensure_running_action(VmState::Stopped), RunAction::Start);
}

#[test]
fn guests_are_reached_over_their_ports() {
    let machine = vm("vm-1", VmState::Running, &[("chevalier.portproxy_auth_token", "g")]);
    let access = guest_rpc_access_from_vm(&StringMap::new(), &machine, "http://n:1").unwrap();
    assert_eq!(access.endpoint, "http://n:4001");
    assert_eq!(access.auth_header.as_deref(), Some("Bearer g"));
    assert_eq!(access.platform, GuestPlatform::Linux);
    assert_eq!(forward_proxy_port(&machine).unwrap(), 4002);
    let mut no_ports = vm("vm-1", VmState::Running, &[]);
    no_ports.ports = None;
    assert!(guest_rpc_access_from_vm(&StringMap::new(), &no_ports, "http://n:1").is_err());
    assert!(forward_proxy_port(&no_ports).is_err());
    no_ports.ports = Some(ProxyPorts { rpc_port: 0, proxy_port: 0 });
    assert!(guest_rpc_access_from_vm(&StringMap::new(), &no_ports, "http://n:1").is_err());
    assert!(forward_proxy_port(&no_ports).is_err());
    no_ports.ports = Some(ProxyPorts { rpc_port: 1, proxy_port: 70000 });
    assert!(forward_proxy_port(&no_ports).is_err());
}

#[test]
fn defaults_are_those_of_a_local_daemon() {
    let config = SandboxConfig::with_image(Some("ubuntu:24.04".to_string()));
    assert_eq!(config.endpoint, "http://127.0.0.1:8052");
    assert_eq!(config.default_image, "ubuntu:24.04");
    assert_eq!(config.provider.provider_name(), "chevalier");
    assert_eq!(config.default_shell, "/bin/sh");
    let profiles = resolved_warm_pool_profiles(&config, Some("arm64".to_string()));
    assert_eq!(profiles.len(), 1);
    assert_eq!(profiles[0].image, "ubuntu:24.04");
    assert_eq!(profiles[0].architecture.as_deref(), Some("arm64"));
    assert_eq!(daemon_args("127.0.0.1:1", Some("/d")), texts(&[
        "--listen",
        "127.0.0.1:1",
        "--disable-node-registry",
        "--disable-control-bus",
        "--data-dir",
        "/d",
    ]));
}

#[test]
fn architectures_have_labels() {
    assert_eq!(normalize_architecture_label(" AMD64 "), "amd64");
    assert_eq!(normalize_architecture_label("x86_64"), "amd64");
    assert_eq!(normalize_architecture_label("aarch64"), "arm64");
    assert_eq!(detect_host_architecture_label("x86_64").as_deref(), Some("amd64"));
    assert_eq!(warm_pool_key("e", "i", "a"), "e::i::a");
}

#[test]
fn unreachable_daemons_are_spawned_or_reported() {
    assert!(matches!(after_failed_health_checks(true, "http://p", None), DaemonStep::Spawn));
    match after_failed_health_checks(false, "http://p", Some("refused")) {
        DaemonStep::Fail(e) => assert_eq!(
            e.text(),
            "daemon unavailable: unable to connect to sandbox daemon at any configured control endpoint (primary: http://p); last health error: refused"
        ),
        DaemonStep::Spawn => panic!("nothing may be spawned"),
    }
}

#[test]
fn warm_pools_prepare_each_image_once() {
    let mut pool = WarmPool::new();
    let profile = WarmPoolProfile {
        image: "ubuntu".to_string(),
        architecture: Some("x86_64".to_string()),
        min_inventory: 1,
    };
    let task = pool.task("http://n", &profile, &None).unwrap();
    assert_eq!(task.architecture, "amd64");
    assert!(!pool.contains(&task.key));
    pool.mark_ready(task.key);
    assert!(pool.task("http://n", &profile, &None).is_none());
    let blank = WarmPoolProfile { image: " ".to_string(), architecture: None, min_inventory: 1 };
    assert!(pool.task("http://n", &blank, &None).is_none());
    assert!(prewarm_wanted(false, true, false));
    assert!(!prewarm_wanted(true, true, true));
    assert!(!prewarm_wanted(false, false, false));
}

#[test]
fn managed_mounts_have_builders() {
    let rclone = ManagedMountConfig::rclone(
        "/m".to_string(),
        "bucket:dir".to_string(),
        "s3".to_string(),
        table(&[("access_key_id", "a")]),
    );
    assert_eq!(rclone.path, "/m");
    assert_eq!(rclone.remote, "bucket:dir");
    assert_eq!(rclone.backend.as_deref(), Some("s3"));
    assert_eq!(rclone.creds.get("access_key_id").unwrap(), "a");
    let with = ManagedMountConfig::with_rclone_config(
        "/m".to_string(),
        "r".to_string(),
        "[r]".to_string(),
    );
    assert_eq!(with.rclone_config.as_deref(), Some("[r]"));
    let command = ManagedMountConfig::command("/m".to_string(), texts(&["a", "b"]));
    assert_eq!(command.command, texts(&["a", "b"]));
}

#[test]
fn client_certificates_come_in_pairs() {
    let tls = |cert: Option<&str>, key: Option<&str>| TlsClientConfig {
        ca_cert_path: None,
        client_cert_path: cert.map(str::to_string),
        client_key_path: key.map(str::to_string),
        domain_name: None,
    };
    assert!(tls(None, None).identity().unwrap().is_none());
    assert_eq!(
        tls(Some("c"), Some("k")).identity().unwrap(),
        Some(("c".to_string(), "k".to_string()))
    );
    assert!(matches!(tls(Some("c"), None).identity(), Err(SandboxError::InvalidConfig(_))));
    assert_eq!(tls_domain(Some(" d "), "http://n:1").unwrap().as_deref(), Some("d"));
    assert_eq!(tls_domain(None, "https://n:1").unwrap().as_deref(), Some("n"));
}

#[test]
fn resources_change_where_asked() {
    let now = ResourceLimits { vcpu: 2, memory_mb: 2048, disk_gb: 10 };
    assert_eq!(
        changed_resources(now, Some(4), None),
        ResourceLimits { vcpu: 4, memory_mb: 2048, disk_gb: 10 }
    );
}

#[test]
fn metadata_of_managed_sessions() {
    let metadata = managed_session_metadata(
        SessionSourceType::Docker,
        table(&[("tenant_id", "t")]),
        &Some("s-1".to_string()),
        &Some("name".to_string()),
    )
    .unwrap();
    assert_eq!(metadata.get("tenant_id").unwrap(), "t");
    assert_eq!(metadata.get("workspace_id").unwrap(), "default");
    assert_eq!(metadata.get("chevalier.requested_session_id").unwrap(), "s-1");
    assert_eq!(metadata.get(META_SESSION_ID).unwrap(), "s-1");
    assert_eq!(metadata.get("chevalier.name").unwrap(), "name");
    assert_eq!(metadata.get(META_TIER_B_ELIGIBLE).unwrap(), "false");
    assert!(matches!(
        managed_session_metadata(SessionSourceType::Snapshot, StringMap::new(), &None, &None),
        Err(SandboxError::InvalidConfig(_))
    ));
}

#[test]
fn sessions_are_planned() {
    let plan = plan_session(table(&[("tier_b_eligible", "yes")]), &Vec::new()).unwrap();
    assert!(plan.tier_b_eligible);
    assert_eq!(plan.tenant_id, "default");
    assert_eq!(
        plan.metadata.get("chevalier.execution_fidelity_requirement").unwrap(),
        "disk+memory"
    );
    assert!(resolve_tier_b_eligibility(&plan.metadata));
    let local = mount(SharedMountAvailability::NodeLocal, SharedMountContinuity::RestartSameNode);
    assert!(plan_session(table(&[("tier_b_eligible", "yes")]), &vec![local]).is_err());
}

#[test]
fn orders_for_a_vm() {
    let mut opts = SessionOptions::default();
    opts.source_type = SessionSourceType::MacosTemplate;
    let defaults = SessionDefaults {
        image: "image".to_string(),
        architecture: None,
        host_architecture: Some("amd64".to_string()),
        resources: ResourceLimits { vcpu: 2, memory_mb: 2048, disk_gb: 10 },
    };
    assert!(session_can_be_named("0123456789"));
    assert!(!session_can_be_named("0123"));
    let order = create_vm_order(opts, "0123456789", StringMap::new(), &defaults);
    assert_eq!(order.name, "chevalier-session-01234567");
    assert_eq!(order.image, "image");
    assert_eq!(order.architecture, "arm64");
    assert_eq!(order.guest_profile, Some((GuestPlatform::Macos, 1)));
    assert_eq!(order.metadata.get(META_SESSION_ID).unwrap(), "0123456789");
    assert!(!order.needs_pci_access());
    assert!(created_vm(None).is_err());
}

#[test]
fn sessions_are_taken_up_step_by_step() {
    assert_eq!(attach_steps(false, VmState::Running), vec![SessionStep::EnsureRunning]);
    assert_eq!(
        attach_steps(true, VmState::Running),
        vec![SessionStep::Restore { enforce_tier_b: true }, SessionStep::EnsureRunning]
    );
    assert_eq!(
        attach_steps(false, VmState::Stopped),
        vec![SessionStep::Restore { enforce_tier_b: false }, SessionStep::EnsureRunning]
    );
    let machine = vm("vm-1", VmState::Running, &[]);
    assert_eq!(
        running_steps(&machine, false),
        vec![
            SessionStep::AwaitGuest(ReadinessRecovery::RestartIfNotFreshlyStarted),
            SessionStep::Bind,
        ]
    );
    assert_eq!(running_steps(&machine, true), vec![SessionStep::Bind]);
    assert_eq!(
        create_steps(false, &machine, false, false),
        vec![
            SessionStep::Bind,
            SessionStep::AwaitGuest(ReadinessRecovery::FreshBoot),
            SessionStep::RefillWarmPool,
        ]
    );
    assert_eq!(
        create_steps(false, &vm("vm-1", VmState::Stopped, &[]), false, true),
        vec![SessionStep::Bind]
    );
}

#[test]
fn handoffs_compare_normalized_endpoints() {
    assert!(!session_attach_is_endpoint_handoff(None, "n:1", "http://n:1").unwrap());
    assert!(session_attach_is_endpoint_handoff(Some("m:1"), "n:1", "http://n:1").unwrap());
    assert!(!session_attach_is_endpoint_handoff(Some(" "), "n:1", "http://n:1").unwrap());
    assert!(session_attach_is_endpoint_handoff(None, "n:1", "").is_err());
    assert_eq!(clustered_endpoint(Some("m:1"), "n:1").unwrap(), "http://m:1");
    assert_eq!(clustered_endpoint(None, "n:1").unwrap(), "http://n:1");
    assert_eq!(
        first_healthy_endpoint(&texts(&["a", "b"]), &vec![false, true], "p"),
        "b"
    );
    assert_eq!(first_healthy_endpoint(&texts(&["a"]), &vec![false], "p"), "p");
}

#[test]
fn sessions_hold_their_route() {
    let mut session = Session::on_node(
        "s-1".to_string(),
        &vm("vm-1", VmState::Running, &[]),
        "http://n:1".to_string(),
        None,
        Vec::new(),
    );
    assert_eq!(session.session_id(), "s-1");
    assert_eq!(session.vm_id(), "vm-1");
    assert_eq!(session.endpoint(), "http://n:1");
    session.update_route_state("http://m:1", Some("f".to_string()));
    assert_eq!(session.endpoint(), "http://m:1");
    assert_eq!(session.ownership_fence().as_deref(), Some("f"));
    session.update_route_state("http://m:1", None);
    assert_eq!(session.ownership_fence().as_deref(), Some("f"));
    assert!(session.shared_mounts().is_empty());
}

#[test]
fn actions_have_deadlines() {
    let connect = Span::from_secs(5);
    let start = vm_action_plan(SessionVmAction::Start, connect);
    assert_eq!(start.timeout, Span::from_secs(600));
    assert!(!start.invalidates_path);
    let stop = vm_action_plan(SessionVmAction::Stop, connect);
    assert_eq!(stop.timeout, Span::from_secs(150));
    assert!(stop.invalidates_path);
    assert_eq!(vm_action_plan(SessionVmAction::Pause, connect).timeout, connect);
    let paused = remount_plan(VmState::Paused);
    assert!(paused.stop_first && paused.start_after && paused.pause_after);
    let stopped = remount_plan(VmState::Stopped);
    assert!(!stopped.stop_first && !stopped.start_after && !stopped.pause_after);
}

#[test]
fn some_operations_are_for_some_sessions() {
    assert!(check_operation(SpecialOperation::Desktop, false).is_ok());
    assert!(matches!(
        check_operation(SpecialOperation::Desktop, true),
        Err(SandboxError::Unsupported(m)) if m == "VM desktops are only available for vmd-backed sandboxes"
    ));
    assert!(check_operation(SpecialOperation::RestoreCheckpoint, true).is_ok());
    assert!(check_operation(SpecialOperation::RestoreCheckpoint, false).is_err());
    assert_eq!(
        preview_only("freestyle", 80, "https://x").text(),
        "unsupported operation: freestyle exposes guest port 80 at https://x; the current ForwardHandle API returns local host ports only"
    );
    let forked = fork_metadata(table(&[("a", "b")]), "child", "parent", "vm-1");
    assert_eq!(forked.get(META_SESSION_ID).unwrap(), "child");
    assert_eq!(forked.get("chevalier.parent_session_id").unwrap(), "parent");
    assert_eq!(forked.get("chevalier.parent_vm_id").unwrap(), "vm-1");
    assert_eq!(forked.get("a").unwrap(), "b");
}

#[test]
fn providers_are_chosen_by_configuration() {
    let config = SandboxConfig::default();
    assert_eq!(build_control_backend(&config, false).unwrap(), ControlKind::Direct);
    let clustered = SandboxConfig {
        distributed_control: Some(DistributedControlConfig::default()),
        ..SandboxConfig::default()
    };
    assert_eq!(build_control_backend(&clustered, true).unwrap(), ControlKind::Clustered);
    assert!(matches!(
        build_control_backend(&clustered, false),
        Err(SandboxError::Unsupported(_))
    ));
    let managed = SandboxConfig {
        provider: SandboxProviderConfig::Freestyle(FreestyleBackendConfig::default()),
        ..SandboxConfig::default()
    };
    assert_eq!(
        build_control_backend(&managed, false).unwrap(),
        ControlKind::Managed(ManagedProvider::Freestyle)
    );
    assert_eq!(ManagedProvider::OpenComputer.provider_name(), "opencomputer");
}

#[test]
fn opencomputer_lacks_some_operations() {
    assert!(matches!(
        check_vm_action(ManagedProvider::OpenComputer, SessionVmAction::Pause),
        Err(SandboxError::Unsupported(m)) if m == "Pause is not available for OpenComputer sandboxes"
    ));
    assert!(check_vm_action(ManagedProvider::Freestyle, SessionVmAction::Pause).is_ok());
    assert!(check_delete_checkpoint(ManagedProvider::OpenComputer).is_err());
    assert_eq!(domain_url(Some("d".to_string())).unwrap(), "https://d");
    assert!(domain_url(None).is_err());
}

#[test]
fn lost_aliases_are_looked_up_by_metadata() {
    let missing = || Err(SandboxError::SessionNotFound("x".to_string()));
    assert!(matches!(managed_lookup("s", "s", missing()), ManagedLookup::ByMetadata));
    assert!(matches!(managed_lookup("s", "p", missing()), ManagedLookup::Failed(_)));
    assert!(matches!(
        managed_lookup("s", "s", Ok("vm".to_string())),
        ManagedLookup::Found(id) if id == "vm"
    ));
    assert!(matches!(
        found_session::<u8>("s", None),
        Err(SandboxError::SessionNotFound(m)) if m == "s"
    ));
    assert_eq!(logical_session_id(None, "p"), "p");
    assert_eq!(logical_session_id(Some("s".to_string()), "p"), "s");
    assert!(forked_vm(None).is_err());
    assert_eq!(session_scope(None), ("default".to_string(), "default".to_string()));
}

#[test]
fn sessions_end_by_vm_or_by_route() {
    let found = Some(("vm".to_string(), "e".to_string()));
    assert_eq!(
        discard_step(found, Some("other".to_string())),
        DiscardStep::DeleteVm { vm_id: "vm".to_string(), endpoint: "e".to_string() }
    );
    assert_eq!(
        discard_step(None, Some("vm".to_string())),
        DiscardStep::ClearRoute { vm_id: "vm".to_string() }
    );
    assert_eq!(discard_step(None, None), DiscardStep::Nothing);
}

#[test]
fn mounts_survive_the_wire() {
    let sent = proto_shared_mount(mount(
        SharedMountAvailability::SharedStorage,
        SharedMountContinuity::RestoreCrossNode,
    ));
    let back = received_mount(&sent);
    assert_eq!(back.guest_path, "/guest");
    assert_eq!(back.availability, SharedMountAvailability::SharedStorage);
    assert_eq!(back.continuity, SharedMountContinuity::RestoreCrossNode);
}

#[test]
fn movable_sessions_need_movable_mounts() {
    let shared = || {
        mount(SharedMountAvailability::SharedStorage, SharedMountContinuity::RestoreCrossNode)
    };
    let local = || {
        mount(SharedMountAvailability::NodeLocal, SharedMountContinuity::RestartSameNode)
    };
    assert!(validate_shared_mount_contract(&vec![shared()], true).is_ok());
    assert!(validate_shared_mount_contract(&vec![local()], false).is_ok());
    assert!(validate_shared_mount_contract(&vec![shared(), local()], true).is_err());
    assert_eq!(
        required_shared_mount_profiles(&vec![shared(), local(), shared()]),
        texts(&["gcs-vfs-fuse"])
    );
}

#[test]
fn restores_name_their_snapshot() {
    let mut machine = vm(
        "vm-1",
        VmState::Running,
        &[(META_EXEC_RESTORE_SNAPSHOT_ID, "snap-1"), (META_TIER_B_ELIGIBLE, "true")],
    );
    machine.snapshots = vec![VmSnapshot { id: "snap-1".to_string(), name: "n".to_string() }];
    assert_eq!(execution_restore_snapshot_id(&machine).as_deref(), Some("snap-1"));
    assert_eq!(
        restore_execution_state_if_needed("s", &machine, true).unwrap().as_deref(),
        Some("snap-1")
    );
    let bare = vm("vm-1", VmState::Running, &[(META_TIER_B_ELIGIBLE, "true")]);
    assert!(matches!(
        restore_execution_state_if_needed("s", &bare, true),
        Err(SandboxError::InvalidResponse(m)) if m == "tier_b_eligible session `s` requires execution restore snapshot marker"
    ));
    assert_eq!(restore_execution_state_if_needed("s", &bare, false).unwrap(), None);
}

#[test]
fn a_search_moves_to_the_first_usable_candidate() {
    let (mut search, action) = RebindSearch::start(
        "s",
        "http://a",
        RebindRestorePolicy::RequireTierBRestoreMarker,
        texts(&["http://a", "http://b", "http://c"]),
    );
    assert!(matches!(action, RebindAction::LookUp(e) if e == "http://b"));
    let next = search.step(RebindEvent::VmMissing);
    assert!(matches!(next, RebindAction::LookUp(e) if e == "http://c"));
    let machine = vm("vm-1", VmState::Running, &[(META_TIER_B_ELIGIBLE, "false")]);
    let next = search.step(RebindEvent::VmFound(machine));
    assert!(matches!(next, RebindAction::EnsureRunning(e) if e == "http://c"));
    let next = search.step(RebindEvent::Running);
    assert!(matches!(next, RebindAction::ProbeGuest(e) if e == "http://c"));
    let next = search.step(RebindEvent::GuestReady);
    assert!(matches!(next, RebindAction::Bind(e) if e == "http://c"));
}

#[test]
fn a_search_without_candidates_gives_up() {
    let (_, action) = RebindSearch::start(
        "s",
        "http://a",
        RebindRestorePolicy::AllowLiveReclaimWithoutRestoreMarker,
        texts(&["http://a"]),
    );
    assert!(matches!(action, RebindAction::GiveUp));
    let initial = SandboxError::Transport("t".to_string());
    assert!(matches!(resolve_after_search(initial, Ok(None)), Err(SandboxError::Transport(_))));
    assert_eq!(newer_fence(None, Some("old".to_string())).as_deref(), Some("old"));
    assert!(access_failure_moves_session(&SandboxError::Transport("t".to_string())));
}

#[test]
fn live_streams_move_without_a_marker() {
    let (mut search, _) = RebindSearch::start(
        "s",
        "http://a",
        RebindRestorePolicy::AllowLiveReclaimWithoutRestoreMarker,
        texts(&["http://b"]),
    );
    let machine = vm("vm-1", VmState::Running, &[(META_TIER_B_ELIGIBLE, "true")]);
    let next = search.step(RebindEvent::VmFound(machine));
    assert!(matches!(next, RebindAction::Bind(e) if e == "http://b"));
}

#[test]
fn sessions_are_listed_once() {
    let vms = vec![
        vm("vm-1", VmState::Running, &[(META_SESSION_ID, "s-1")]),
        vm("vm-2", VmState::Running, &[]),
        vm("vm-3", VmState::Stopped, &[(META_SESSION_ID, "s-1")]),
        vm("vm-4", VmState::Paused, &[(META_SESSION_ID, "s-2"), ("chevalier.fork_id", "f")]),
    ];
    let list = list_sessions(&vms);
    assert_eq!(list.len(), 2);
    assert_eq!(list[0].vm_id, "vm-1");
    assert_eq!(list[1].fork_id.as_deref(), Some("f"));
    assert_eq!(find_session_vm(&vms, "s-2"), Some(3));
    assert_eq!(find_session_vm(&vms, "s-3"), None);
}

#[test]
fn lookups_ask_the_route_first() {
    let candidates = texts(&["a", "b", "c"]);
    assert_eq!(lookup_order(Some("b".to_string()), true, &candidates), texts(&["b", "a", "c"]));
    assert_eq!(lookup_order(Some("b".to_string()), false, &candidates), texts(&["b"]));
    assert_eq!(lookup_order(None, false, &candidates), candidates);
    let mut tally = LookupTally::new();
    tally.failed(SandboxError::Transport("t".to_string()));
    tally.missing();
    assert!(tally.verdict().is_ok());
    let mut tally = LookupTally::new();
    tally.failed(SandboxError::Transport("t".to_string()));
    assert!(matches!(tally.verdict(), Err(SandboxError::Transport(_))));
    assert!(matches!(LookupTally::new().verdict(), Err(SandboxError::DaemonUnavailable(_))));
    let status = |code: GrpcCode| GrpcStatus { code, message: String::new(), source: None };
    assert!(matches!(lookup_failure(status(GrpcCode::NotFound)), LookupStep::Missing));
    assert!(matches!(lookup_failure(status(GrpcCode::Unimplemented)), LookupStep::SearchList));
    assert!(matches!(lookup_failure(status(GrpcCode::Internal)), LookupStep::Fail(_)));
}

#[test]
fn volumes_are_listed_by_owner() {
    let volume = |owner: &str, id: &str, backing: &str| WireVolume {
        owner_key: owner.to_string(),
        volume_id: id.to_string(),
        size_gb: 10,
        created_at: Some(WireTimestamp { seconds: 2, nanos: 5_000_000 }),
        updated_at: None,
        backing_volume_id: backing.to_string(),
        attached_vm_ids: Vec::new(),
    };
    let list = list_durable_volumes(&vec![
        volume("b", "1", ""),
        volume("a", "2", "x"),
        volume("b", "3", ""),
    ]);
    assert_eq!(list.len(), 2);
    assert_eq!(list[0].owner_key, "a");
    assert_eq!(list[0].backing_volume_id.as_deref(), Some("x"));
    assert_eq!(list[1].volume_id, "1");
    assert_eq!(list[1].created_at_ms, 2005);
    assert_eq!(list[1].updated_at_ms, 0);
    assert_eq!(timestamp_ms(Some(WireTimestamp { seconds: -1, nanos: 0 })), -1000);
    assert!(!timestamp_has_millis(Some(WireTimestamp { seconds: i64::MAX, nanos: i32::MAX })));
}

#[test]
fn volume_operations_end_with_a_verdict() {
    let verdict = |contacted: bool, found: bool| {
        volume_verdict(VolumeOperation::Deletion, contacted, found, None, "key")
    };
    assert!(verdict(true, true).is_ok());
    assert!(matches!(
        verdict(true, false),
        Err(SandboxError::InvalidResponse(m)) if m == "durable volume not found: key"
    ));
    assert!(matches!(
        verdict(false, false),
        Err(SandboxError::DaemonUnavailable(m)) if m == "no sandbox endpoint available for durable volume deletion"
    ));
    let status = |code: GrpcCode| GrpcStatus { code, message: String::new(), source: None };
    assert!(matches!(volume_list_failure(status(GrpcCode::Unimplemented)), VolumeListStep::Skip));
    match volume_list_failure(status(GrpcCode::Cancelled)) {
        VolumeListStep::Fail(SandboxError::Grpc(s)) => {
            assert_eq!(s.code, GrpcCode::DeadlineExceeded);
            assert_eq!(s.message, "durable volume inventory timed out");
        },
        other => panic!("{other:?}"),
    }
}

#[test]
fn volumes_are_listed_only_where_an_endpoint_answers() {
    assert_eq!(volume_inventory(true, None, &Vec::new()).unwrap().len(), 0);
    match volume_inventory(false, None, &Vec::new()) {
        Err(error) => assert_eq!(
            error.text(),
            "daemon unavailable: no sandbox endpoint available for durable volume inventory"
        ),
        other => panic!("{other:?}"),
    }
    let last = SandboxError::Transport("refused".to_string());
    assert!(matches!(
        volume_inventory(false, Some(last), &Vec::new()),
        Err(SandboxError::Transport(m)) if m == "refused"
    ));
}

#[test]
fn a_volume_that_is_not_there_may_be_elsewhere() {
    let status = |code: GrpcCode| GrpcStatus { code, message: String::new(), source: None };
    assert!(matches!(volume_failure(status(GrpcCode::NotFound)), VolumeStep::Absent));
    assert!(matches!(
        volume_failure(status(GrpcCode::Internal)),
        VolumeStep::Fail(SandboxError::Grpc(s)) if s.code == GrpcCode::Internal
    ));
}

#[test]
fn desktops_are_planned_by_kind() {
    let desktop = |kind: DesktopKind, port: i64, password: &str| WireDesktop {
        kind,
        port,
        password: password.to_string(),
        view_only: true,
    };
    match plan_desktop(&desktop(DesktopKind::Vnc, 5900, "pw"), "http://127.0.0.1:1").unwrap() {
        DesktopPlan::Connect(target) => {
            assert_eq!(target.kind, SessionDesktopKind::Vnc);
            assert_eq!(target.port, Some(5900));
            assert_eq!(target.authentication, SessionDesktopAuthentication::Password);
            assert!(target.view_only);
        },
        other => panic!("{other:?}"),
    }
    assert!(matches!(
        plan_desktop(&desktop(DesktopKind::Vnc, 5900, ""), "http://remote:1"),
        Err(SandboxError::Unsupported(_))
    ));
    assert!(plan_desktop(&desktop(DesktopKind::Vnc, 0, ""), "http://127.0.0.1:1").is_err());
    assert!(plan_desktop(&desktop(DesktopKind::GuestVnc, 70000, ""), "http://n:1").is_err());
    assert!(matches!(
        plan_desktop(&desktop(DesktopKind::GuestVnc, 5901, ""), "http://n:1").unwrap(),
        DesktopPlan::Forward(5901)
    ));
    assert!(matches!(
        plan_desktop(&desktop(DesktopKind::NativeWindow, 0, ""), "http://n:1").unwrap(),
        DesktopPlan::ShowWindow(_)
    ));
    assert!(plan_desktop(&desktop(DesktopKind::Unspecified, 1, ""), "http://n:1").is_err());
    let target = forwarded_desktop(&desktop(DesktopKind::GuestVnc, 5901, "pw"), 40000);
    assert_eq!(target.host.as_deref(), Some("127.0.0.1"));
    assert_eq!(target.port, Some(40000));
    assert_eq!(target.authentication, SessionDesktopAuthentication::Account);
}

#[test]
fn pci_devices_are_shown() {
    let device = |state: Option<WirePciState>| WirePciDevice {
        id: "d".to_string(),
        label: "GPU".to_string(),
        functions: Vec::new(),
        state,
        assigned_vm_id: String::new(),
        managed: true,
        hotplug_capable: false,
        unavailable_reason: String::new(),
    };
    assert_eq!(
        map_host_pci_device(device(Some(WirePciState::Ready))).state,
        HostPciDeviceState::Ready
    );
    assert_eq!(map_host_pci_device(device(None)).state, HostPciDeviceState::Unknown);
    let action = map_pci_action(WirePciAction {
        device: Some(device(Some(WirePciState::Assigned))),
        restart_required: true,
        detail: "x".to_string(),
        vm_state: Some(VmState::Running),
    });
    assert_eq!(action.device.unwrap().state, HostPciDeviceState::Assigned);
    assert_eq!(action.vm_state, VmState::Running);
    let snapshot = managed_snapshot("c".to_string(), "label", "text");
    assert_eq!(snapshot.id, "c");
    assert_eq!(snapshot.name, "");
    assert_eq!(snapshot.label, "label");
}

#[test]
fn guests_have_platforms_and_workspaces() {
    let mut machine = vm("vm-1", VmState::Running, &[]);
    assert_eq!(vm_guest_platform(&machine), GuestPlatform::Linux);
    machine.guest_profile = Some(GuestProfile { platform: Some(GuestPlatform::Windows) });
    assert_eq!(vm_guest_platform(&machine), GuestPlatform::Windows);
    machine.workspace_root = Some("/work".to_string());
    assert_eq!(vm_workspace_root(&machine), "/work");
}

#[test]
fn passive_attach_leaves_a_managed_vm_alone() {
    assert_eq!(managed_attach_steps(true), Vec::new());
    assert_eq!(
        managed_attach_steps(false),
        vec![ManagedAttachStep::EnsureRunning, ManagedAttachStep::EnsureMounts]
    );
}

fn guest_path(port: i32) -> GuestRpcAccess {
    GuestRpcAccess {
        endpoint: format!("http://n:{port}"),
        rpc_port: port,
        auth_header: None,
        platform: GuestPlatform::Linux,
    }
}

#[test]
fn a_session_that_moved_forgets_its_old_path() {
    let search = || {
        let (mut search, _) = RebindSearch::start(
            "s-1",
            "http://a:1",
            RebindRestorePolicy::AllowLiveReclaimWithoutRestoreMarker,
            vec!["http://a:1".to_string(), "http://b:1".to_string()],
        );
        let found = RebindEvent::VmFound(vm("vm-1", VmState::Running, &[]));
        assert!(matches!(search.step(found), RebindAction::Bind(e) if e == "http://b:1"));
        search
    };
    let mut paths = ReadyPaths::new();
    paths.mark_ready("vm-1", "http://a:1", guest_path(1));
    paths.mark_ready("vm-1", "http://b:1", guest_path(2));
    let refused = Err(SandboxError::FenceConflict("stale".to_string()));
    assert!(matches!(
        search().bound("vm-1", refused, &mut paths),
        Err(SandboxError::FenceConflict(_))
    ));
    assert!(paths.cached_guest_rpc_access("vm-1", "http://a:1").is_some());
    let moved = search().bound("vm-1", Ok(Some("f-2".to_string())), &mut paths).unwrap();
    assert_eq!(moved.endpoint, "http://b:1");
    assert_eq!(moved.fence.as_deref(), Some("f-2"));
    assert!(paths.cached_guest_rpc_access("vm-1", "http://a:1").is_none());
    assert!(paths.cached_guest_rpc_access("vm-1", "http://b:1").is_some());
}

#[test]
fn a_silent_guest_is_restarted_once() {
    let overrides = StringMap::new();
    let running = |freshly_started: bool| ReachEvent::Running {
        vm: vm("vm-1", VmState::Running, &[]),
        freshly_started,
    };
    let silent = || not_ready_error("vm-1", "http://n:1", Span::from_secs(90));
    let recovery = ReadinessRecovery::RestartIfNotFreshlyStarted;
    let begin = |freshly_started: bool| {
        let (reach, action) = GuestReach::start("http://n:1", recovery, None);
        assert!(matches!(action, ReachAction::EnsureRunning));
        let (reach, action) = reach.step(&overrides, running(freshly_started));
        assert!(matches!(action, ReachAction::AwaitGuest(access) if access.rpc_port == 4001));
        reach
    };
    let (_, action) = begin(false).step(&overrides, ReachEvent::Answered);
    assert!(matches!(action, ReachAction::Done(Ok(_))));
    // A VM that was just started is left to boot.
    let (_, action) = begin(true).step(&overrides, ReachEvent::Failed(silent()));
    assert!(matches!(action, ReachAction::Done(Err(_))));
    let (reach, action) = begin(false).step(&overrides, ReachEvent::Failed(silent()));
    match action {
        ReachAction::ForgetPathAndRestart { reason } => assert_eq!(reason, silent().text()),
        other => panic!("{other:?}"),
    }
    let (reach, action) = reach.step(&overrides, ReachEvent::Restarted);
    assert!(matches!(action, ReachAction::EnsureRunning));
    let (reach, action) = reach.step(&overrides, running(true));
    assert!(matches!(action, ReachAction::AwaitGuest(_)));
    assert!(reach.takes_wait_of(&silent()));
    let endless =
        not_ready_error("vm-1", "http://n:1", Span { secs: u64::MAX, nanos: 0 });
    assert!(!reach.takes_wait_of(&endless));
    let (_, action) = reach.step(&overrides, ReachEvent::Failed(silent()));
    match action {
        ReachAction::Done(Err(SandboxError::GuestRpcNotReady { waited, restarted, .. })) => {
            assert_eq!(waited, Span::from_secs(180));
            assert!(restarted);
        }
        other => panic!("{other:?}"),
    }
    let (_, action) = GuestReach::start("http://n:1", recovery, Some(guest_path(7)));
    assert!(matches!(action, ReachAction::Done(Ok(access)) if access.rpc_port == 7));
}

#[test]
fn a_session_out_of_reach_moves_once() {
    let bound = |endpoint: &str, fence: Option<&str>| Bound {
        endpoint: endpoint.to_string(),
        fence: fence.map(|f| f.to_string()),
    };
    let begin = || {
        let (reach, action) =
            SessionReach::start("http://a:1".to_string(), Some("f-0".to_string()), None);
        assert!(matches!(action, SessionReachAction::Resolve));
        let (reach, action) =
            reach.step(SessionReachEvent::Resolved(Ok(bound("http://a:1", None))));
        assert!(matches!(action, SessionReachAction::Access(e) if e == "http://a:1"));
        reach
    };
    let lost = || SandboxError::Transport("lost".to_string());
    let (_, action) = begin().step(SessionReachEvent::Accessed(Ok(guest_path(1))));
    assert!(matches!(action, SessionReachAction::Done(Ok((b, _))) if b.endpoint == "http://a:1"));
    let other = SandboxError::InvalidResponse("x".to_string());
    let (_, action) = begin().step(SessionReachEvent::Accessed(Err(other)));
    assert!(matches!(action, SessionReachAction::Done(Err(SandboxError::InvalidResponse(_)))));
    let search = || {
        let (reach, action) = begin().step(SessionReachEvent::Accessed(Err(lost())));
        match action {
            SessionReachAction::Search { endpoint, fence } => {
                assert_eq!(endpoint, "http://a:1");
                assert_eq!(fence.as_deref(), Some("f-0"));
            }
            other => panic!("{other:?}"),
        }
        reach
    };
    let (_, action) = search().step(SessionReachEvent::Searched(Ok(None)));
    assert!(matches!(action, SessionReachAction::Done(Err(SandboxError::Transport(_)))));
    let found = SessionReachEvent::Searched(Ok(Some(bound("http://b:1", Some("f-1")))));
    let (reach, action) = search().step(found);
    assert!(matches!(action, SessionReachAction::Access(e) if e == "http://b:1"));
    let (_, action) = reach.step(SessionReachEvent::Accessed(Ok(guest_path(2))));
    match action {
        SessionReachAction::Done(Ok((b, access))) => {
            assert_eq!(b.endpoint, "http://b:1");
            assert_eq!(b.fence.as_deref(), Some("f-1"));
            assert_eq!(access.rpc_port, 2);
        }
        other => panic!("{other:?}"),
    }
    let (_, action) =
        SessionReach::start("http://a:1".to_string(), None, Some(guest_path(3)));
    assert!(matches!(action, SessionReachAction::Done(Ok((b, _))) if b.fence.is_none()));
}

#[test]
fn what_must_survive_a_move_has_a_name() {
    assert_eq!(fidelity_requirement(true), "disk+memory");
    assert_eq!(fidelity_requirement(false), "best-effort");
}
