//! The virtual file system: paths, modes, listings, ranges and requests.

use chevalier_sandbox::vfs::VfsResult;
use chevalier_sandbox::vfs::affected_paths;
use chevalier_sandbox::vfs::deserialize_required_vfs_mode;
use chevalier_sandbox::vfs::deserialize_vfs_mode;
use chevalier_sandbox::vfs::immediate_parent;
use chevalier_sandbox::vfs::mask_vfs_mode;
use chevalier_sandbox::vfs::namespace_snapshot_paths;
use chevalier_sandbox::vfs::owner_vfs_endpoint;
use chevalier_sandbox::vfs::parse_vfs_range_header;
use chevalier_sandbox::vfs::paths_of_mutations;
use chevalier_sandbox::vfs::scoped_vfs_path;
use chevalier_sandbox::vfs::serialize_vfs_mode;
use chevalier_sandbox::vfs::VfsCasPredicate;
use chevalier_sandbox::vfs::VfsDirEntry;
use chevalier_sandbox::vfs::VfsGatewayError;
use chevalier_sandbox::vfs::VfsHeaderAliases;
use chevalier_sandbox::vfs::VfsLeaseAcquireRequest;
use chevalier_sandbox::vfs::VfsListDirOptions;
use chevalier_sandbox::vfs::VfsMetadata;
use chevalier_sandbox::vfs::VfsNamespaceMutation;
use chevalier_sandbox::vfs::VfsNamespaceMutationBatchRequest;
use chevalier_sandbox::vfs::VfsReadRange;
use chevalier_sandbox::vfs::VfsSubtreeMetadataEntry;
use chevalier_sandbox::vfs::VfsTime;
use chevalier_sandbox::vfs::VfsWriteManyItem;
use chevalier_sandbox::vfs::VfsWritePrecondition;
use chevalier_sandbox::vfs::VfsWriteScope;
use chevalier_sandbox::vfs::CHEVALIER_VFS_LOCK_OWNER_TOKEN_HEADER;
use chevalier_sandbox::vfs::CHEVALIER_VFS_MODE_HEADER;
use chevalier_sandbox::vfs::CHEVALIER_VFS_OPERATION_HEADER;
use chevalier_sandbox::vfs::CHEVALIER_VFS_PRECONDITION_FILE_ID_HEADER;
use chevalier_sandbox::vfs::CHEVALIER_VFS_PRECONDITION_FINGERPRINT_HEADER;
use chevalier_sandbox::vfs::CHEVALIER_VFS_PRECONDITION_SECONDARY_FINGERPRINT_HEADER;
use chevalier_sandbox::vfs::CHEVALIER_VFS_RESOURCE_KEY_HEADER;
use chevalier_sandbox::vfs::CHEVALIER_VFS_ROUTE_PREFIX;
use chevalier_sandbox::vfs::VFS_ENTRY_KIND_DIRECTORY;
use chevalier_sandbox::vfs::VFS_ENTRY_KIND_FILE;
use chevalier_sandbox::vfs::VFS_OPERATION_SETATTR_SIZE;
use chevalier_sandbox::vfs::VFS_OPERATION_WRITE_THROUGH;
use chevalier_sandbox::vfs::VFS_SURFACE_KIND_VM_WORKSPACE;
use chevalier_sandbox::vfs_gateway::apply_namespace_batch;
use chevalier_sandbox::vfs_gateway::change_parts;
use chevalier_sandbox::vfs_gateway::check_alias_file_id;
use chevalier_sandbox::vfs_gateway::check_symlink_target;
use chevalier_sandbox::vfs_gateway::content_range;
use chevalier_sandbox::vfs_gateway::lease_acquire;
use chevalier_sandbox::vfs_gateway::lease_order;
use chevalier_sandbox::vfs_gateway::batch_start;
use chevalier_sandbox::vfs_gateway::batch_step;
use chevalier_sandbox::vfs_gateway::mutation_answer;
use chevalier_sandbox::vfs_gateway::BatchStep;
use chevalier_sandbox::vfs_gateway::MutationAnswer;
use chevalier_sandbox::vfs_gateway::many_entry;
use chevalier_sandbox::vfs_gateway::normalize_route_prefix;
use chevalier_sandbox::vfs_gateway::not_offered;
use chevalier_sandbox::vfs_gateway::plan_namespace_many;
use chevalier_sandbox::vfs_gateway::plan_write_many;
use chevalier_sandbox::vfs_gateway::publication_snapshot;
use chevalier_sandbox::vfs_gateway::raw_read_range;
use chevalier_sandbox::vfs_gateway::raw_read_status;
use chevalier_sandbox::vfs_gateway::required_path;
use chevalier_sandbox::vfs_gateway::vfs_route;
use chevalier_sandbox::vfs_gateway::write_file_request;
use chevalier_sandbox::vfs_gateway::OptionalOperation;
use chevalier_sandbox::vfs_gateway::ScopeWalk;
use chevalier_sandbox::vfs_gateway::VfsBackendCall;
use chevalier_sandbox::vfs_gateway::VfsRoute;
use chevalier_sandbox::vfs_gateway::CROSS_SCOPE_MESSAGE;
use chevalier_sandbox::vfs_headers::parse_required_uuid_header;
use chevalier_sandbox::vfs_headers::parse_write_headers;
use chevalier_sandbox::vfs_headers::parse_write_precondition_headers;
use chevalier_sandbox::vfs_headers::validate_declared_resource_key;
use chevalier_sandbox::vfs_headers::RequestHeader;
use chevalier_sandbox::vfs_listing::filter_dir_entries;
use chevalier_sandbox::vfs_listing::sql_like_match;

const TOKEN: &str = "67e55044-10b1-426f-9247-bb680e5fe0c8";
const TOKEN_NUMBER: u128 = 0x67e5504410b1426f9247bb680e5fe0c8;

fn texts(list: &[&str]) -> Vec<String> {
    list.iter().map(|s| s.to_string()).collect()
}

fn headers(list: &[(&str, &str)]) -> Vec<RequestHeader> {
    list.iter()
        .map(|(name, value)| RequestHeader {
            name: name.to_string(),
            value: Some(value.to_string()),
        })
        .collect()
}

fn scope() -> VfsWriteScope {
    VfsWriteScope {
        resource_key: "owner:owner-1:workspace".to_string(),
        default_surface_kind: VFS_SURFACE_KIND_VM_WORKSPACE.to_string(),
        task_id: None,
    }
}

fn metadata(kind: &str, size_bytes: u64, mode: Option<u32>, executable: bool) -> VfsMetadata {
    VfsMetadata {
        kind: kind.to_string(),
        size_bytes,
        file_id: None,
        link_count: 1,
        link_target: None,
        content_hash: None,
        executable,
        mode,
        updated_at: None,
    }
}

fn entry(name: &str, kind: &str, secs: i64) -> VfsDirEntry {
    VfsDirEntry {
        name: name.to_string(),
        kind: kind.to_string(),
        size_bytes: 0,
        file_id: None,
        link_count: 1,
        link_target: None,
        content_hash: None,
        executable: false,
        mode: None,
        updated_at: Some(VfsTime { secs, nanos: 0 }),
    }
}

fn names(list: Vec<VfsDirEntry>) -> Vec<String> {
    list.into_iter().map(|e| e.name).collect()
}

#[test]
fn endpoint_helper_uses_generic_chevalier_vfs_route() {
    assert_eq!(
        owner_vfs_endpoint("http://internal-api/", "owner-1"),
        "http://internal-api/v1/internal/chevalier/vfs/owner-1"
    );
}

#[test]
fn scoped_path_joins_without_double_slashes() {
    assert_eq!(scoped_vfs_path("workspace/", "/logs/out.txt"), "workspace/logs/out.txt");
    assert_eq!(scoped_vfs_path("", "/logs/out.txt"), "logs/out.txt");
    assert_eq!(scoped_vfs_path("workspace", ""), "workspace");
}

#[test]
fn metadata_without_exact_mode_retains_legacy_executable_fallback() {
    let mode = deserialize_vfs_mode(None).unwrap();
    let read = metadata("file", 1, mode, true);
    assert_eq!(read.mode, None);
    assert!(read.executable);
}

#[test]
fn metadata_exact_mode_is_accepted_on_decode_and_masked_on_trusted_encode() {
    let mut read = metadata("file", 1, deserialize_vfs_mode(Some(0o755)).unwrap(), true);
    assert_eq!(read.mode, Some(0o755));

    read.mode = Some(0o106755);
    assert_eq!(serialize_vfs_mode(read.mode), Some(0o6755));
}

#[test]
fn subtree_metadata_supports_legacy_executable_and_optional_exact_mode() {
    let entry = |executable: bool, mode: Option<u32>| VfsSubtreeMetadataEntry {
        path: "script".to_string(),
        kind: "file".to_string(),
        size_bytes: 1,
        file_id: None,
        link_count: 1,
        link_target: None,
        content_hash: None,
        executable,
        mode,
        token_count: None,
        version: None,
        updated_at: None,
        object_state: None,
    };
    let legacy = entry(false, deserialize_vfs_mode(None).unwrap());
    assert!(!legacy.executable);
    assert_eq!(legacy.mode, None);

    let exact = entry(true, deserialize_vfs_mode(Some(0o6755)).unwrap());
    assert!(exact.executable);
    assert_eq!(exact.mode, Some(0o6755));
}

#[test]
fn directory_mutation_mode_is_optional_and_exact() {
    let read = |mode: Option<u32>| VfsNamespaceMutation::CreateDirectory {
        path: "tree".to_string(),
        mode: deserialize_vfs_mode(mode).unwrap(),
    };
    assert_eq!(
        read(None),
        VfsNamespaceMutation::CreateDirectory { path: "tree".to_string(), mode: None }
    );
    assert_eq!(
        read(Some(0o4775)),
        VfsNamespaceMutation::CreateDirectory { path: "tree".to_string(), mode: Some(0o4775) }
    );
}

#[test]
fn set_mode_mutation_accepts_exact_permission_bits() {
    let mutation = VfsNamespaceMutation::SetMode {
        path: "script".to_string(),
        mode: deserialize_required_vfs_mode(0o6755).unwrap(),
    };
    assert_eq!(
        mutation,
        VfsNamespaceMutation::SetMode { path: "script".to_string(), mode: 0o6755 }
    );
    assert_eq!(mask_vfs_mode(0o6755), 0o6755);
}

#[test]
fn external_exact_modes_reject_negative_or_out_of_range_values() {
    assert!(deserialize_vfs_mode(Some(0o100755)).is_err());
    assert!(deserialize_vfs_mode(Some(u32::MAX)).is_err());
    assert!(deserialize_required_vfs_mode(0o100755).is_err());
}

#[test]
fn written_modes_are_read_back() {
    for mode in [0, 0o644, 0o7777, 0o100644, u32::MAX] {
        let written = serialize_vfs_mode(Some(mode));
        assert_eq!(deserialize_vfs_mode(written).unwrap(), Some(mode & 0o7777));
    }
}

#[test]
fn parse_range_header_open_ended_consumes_to_eof() {
    assert_eq!(
        parse_vfs_range_header("bytes=100-", 1000).unwrap(),
        VfsReadRange { offset: 100, length: 900 }
    );
}

#[test]
fn parse_range_header_rejects_start_beyond_eof() {
    assert!(matches!(
        parse_vfs_range_header("bytes=100-", 100),
        Err(VfsGatewayError::BadRequest(_))
    ));
}

#[test]
fn ranges_are_cut_at_the_end_of_the_file() {
    assert_eq!(
        parse_vfs_range_header("bytes=2-4", 6).unwrap(),
        VfsReadRange { offset: 2, length: 3 }
    );
    assert_eq!(
        parse_vfs_range_header("bytes=2-400", 6).unwrap(),
        VfsReadRange { offset: 2, length: 4 }
    );
    for bad in ["bytes=4-2", "bytes=-5", "lines=1-2", "bytes=a-b", "bytes=1"] {
        assert!(parse_vfs_range_header(bad, 6).is_err(), "{bad}");
    }
}

#[test]
fn errors_have_texts_and_statuses() {
    let m = || "m".to_string();
    assert_eq!(VfsGatewayError::NotFound(m()).status(), 404);
    assert_eq!(VfsGatewayError::BadRequest(m()).status(), 400);
    assert_eq!(VfsGatewayError::Unauthorized(m()).status(), 401);
    assert_eq!(VfsGatewayError::Forbidden(m()).status(), 403);
    assert_eq!(VfsGatewayError::Conflict(m()).status(), 409);
    assert_eq!(VfsGatewayError::Internal(m()).status(), 500);
    assert!(VfsGatewayError::Internal(m()).text().ends_with("m"));
}

#[test]
fn changes_touch_paths_and_their_parents() {
    let rename = VfsNamespaceMutation::Rename { from: "a/x".to_string(), to: "b/y".to_string() };
    assert_eq!(rename.paths(), ["a/x", "b/y"]);
    let list = vec![
        VfsNamespaceMutation::CreateDirectory { path: "a".to_string(), mode: None },
        rename,
    ];
    assert_eq!(immediate_parent("a/x"), "a");
    assert_eq!(immediate_parent("a"), "");
    let touched = namespace_snapshot_paths(&list);
    for path in ["a", "a/x", "b/y", "b", ""] {
        assert!(touched.contains(&path.to_string()), "{path} in {touched:?}");
    }
    assert_eq!(affected_paths(&paths_of_mutations(&list)), touched);
}

#[test]
fn preconditions_have_an_effect() {
    let precondition = |predicate: Option<VfsCasPredicate>, fingerprint: Option<&str>| {
        VfsWritePrecondition {
            predicate,
            fingerprint: fingerprint.map(str::to_string),
            secondary_fingerprint: None,
            expected_file_id: None,
        }
    };
    assert_eq!(precondition(None, None).effective_predicate(), Some(VfsCasPredicate::Absent));
    let mut by_id = precondition(None, None);
    by_id.expected_file_id = Some("id".to_string());
    assert_eq!(by_id.effective_predicate(), None);
    assert_eq!(
        precondition(None, Some("absent")).effective_predicate(),
        Some(VfsCasPredicate::Absent)
    );
    assert_eq!(
        precondition(Some(VfsCasPredicate::Absent), Some("f")).effective_predicate(),
        Some(VfsCasPredicate::Absent)
    );
    assert_eq!(
        precondition(None, Some("f")).effective_predicate(),
        Some(VfsCasPredicate::ContentFingerprint { fingerprint: "f".to_string() })
    );
}

#[test]
fn patterns_match_like_sql() {
    assert!(sql_like_match("%", ""));
    assert!(sql_like_match("a%c", "abbc"));
    assert!(sql_like_match("a_c", "abc"));
    assert!(!sql_like_match("a_c", "abbc"));
    assert!(sql_like_match("plain", "plain"));
    assert!(!sql_like_match("plain", "plainer"));
}

#[test]
fn listings_are_filtered_ordered_and_cut() {
    let all = || vec![
        entry("b.txt", VFS_ENTRY_KIND_FILE, 1),
        entry("a.txt", VFS_ENTRY_KIND_FILE, 3),
        entry("dir", VFS_ENTRY_KIND_DIRECTORY, 2),
    ];
    let with = |change: fn(&mut VfsListDirOptions)| {
        let mut options = VfsListDirOptions::default();
        change(&mut options);
        names(filter_dir_entries(all(), &options))
    };
    assert_eq!(with(|o| o.name_like = Some("%.txt".to_string())), texts(&["a.txt", "b.txt"]));
    assert_eq!(with(|o| o.name_not_like = Some("%.txt".to_string())), texts(&["dir"]));
    assert_eq!(with(|o| o.entry_kind = Some("directory".to_string())), texts(&["dir"]));
    assert_eq!(
        with(|o| o.order = Some("name_desc".to_string())),
        texts(&["dir", "b.txt", "a.txt"])
    );
    assert_eq!(with(|o| o.limit = Some(1)).len(), 1);
}

// ---------------------------------------------------------------------------
// The gateway
// ---------------------------------------------------------------------------
#[test]
fn routes_lie_under_the_owner() {
    assert_eq!(
        vfs_route(CHEVALIER_VFS_ROUTE_PREFIX, VfsRoute::Watch),
        "/internal/chevalier/vfs/{owner_id}/watch"
    );
    assert_eq!(
        vfs_route(CHEVALIER_VFS_ROUTE_PREFIX, VfsRoute::FileRaw),
        "/internal/chevalier/vfs/{owner_id}/file/raw"
    );
    assert_eq!(normalize_route_prefix(" internal/vfs/ "), "/internal/vfs");
    assert_eq!(normalize_route_prefix(""), "/");
}

#[test]
fn paths_are_required() {
    assert!(matches!(required_path(None), Err(VfsGatewayError::BadRequest(_))));
    assert!(required_path(Some("a")).is_ok());
    assert!(check_symlink_target("t").is_ok());
    assert!(check_symlink_target("").is_err());
    assert!(check_alias_file_id("").is_err());
    assert!(matches!(
        not_offered(OptionalOperation::WriteMany),
        VfsGatewayError::BadRequest(_) | VfsGatewayError::Internal(_)
    ));
}

#[test]
fn gateway_metadata_many_preserves_order_and_missing_entries() {
    let looked = [
        Ok(metadata("file", 5, None, false)),
        Err(VfsGatewayError::NotFound("missing".to_string())),
    ];
    let entries: Vec<Option<VfsMetadata>> =
        looked.into_iter().map(|r| many_entry(r).unwrap()).collect();
    assert_eq!(entries[0].as_ref().unwrap().size_bytes, 5);
    assert!(entries[1].is_none());
    assert!(many_entry::<u8>(Err(VfsGatewayError::Forbidden("no".to_string()))).is_err());
}

#[test]
fn gateway_read_many_preserves_order_and_missing_entries() {
    let files = [("first.txt", b"one".to_vec()), ("second.txt", b"two".to_vec())];
    let read = |path: &str| match files.iter().find(|(name, _)| *name == path) {
        Some((_, bytes)) => Ok(bytes.clone()),
        None => Err(VfsGatewayError::NotFound(path.to_string())),
    };
    let entries: Vec<Option<Vec<u8>>> = ["first.txt", "missing.txt", "second.txt"]
        .iter()
        .map(|path| many_entry(read(path)).unwrap())
        .collect();
    assert_eq!(entries, vec![Some(b"one".to_vec()), None, Some(b"two".to_vec())]);
    let failed: VfsResult<Option<Vec<u8>>> =
        many_entry(Err(VfsGatewayError::Internal("disk".to_string())));
    assert_eq!(failed.unwrap_err().status(), 500);
}

#[test]
fn gateway_namespace_metadata_mutations_return_json_when_requested() {
    assert_eq!(mutation_answer(Some(true)), MutationAnswer::Metadata);
    assert_eq!(mutation_answer(Some(true)).status(), 200);
    assert_eq!(mutation_answer(Some(false)).status(), 204);
    assert_eq!(mutation_answer(None).status(), 204);
}

#[test]
fn gateway_surfaces_read_only_and_stale_lease_rejections() {
    let request = headers(&[
        (CHEVALIER_VFS_RESOURCE_KEY_HEADER, "owner:owner-1:workspace"),
        (CHEVALIER_VFS_LOCK_OWNER_TOKEN_HEADER, TOKEN),
    ]);
    // The request itself is in order: it is the backend that refuses it.
    let parts = change_parts(
        &request,
        &VfsHeaderAliases::default(),
        &scope(),
        VFS_OPERATION_WRITE_THROUGH,
    );
    assert!(parts.is_ok());
    assert_eq!(VfsGatewayError::Forbidden("read-only mount".to_string()).status(), 403);
    assert_eq!(VfsGatewayError::Conflict("stale lease".to_string()).status(), 409);
}

#[test]
fn a_batch_ends_at_its_first_failure() {
    assert!(matches!(batch_start(0), BatchStep::End(Ok(()))));
    assert!(matches!(batch_start(2), BatchStep::Call(0)));
    assert!(matches!(batch_step(Ok(()), 0, 2), BatchStep::Call(1)));
    assert!(matches!(batch_step(Ok(()), 1, 2), BatchStep::End(Ok(()))));
    let stale = || Err(VfsGatewayError::Conflict("stale".to_string()));
    for at in 0..2 {
        match batch_step(stale(), at, 2) {
            BatchStep::End(Err(error)) => assert_eq!(error.status(), 409),
            other => panic!("{other:?}"),
        }
    }
}

#[test]
fn gateway_range_reads_emit_partial_content() {
    let range = raw_read_range(
        &headers(&[("range", "bytes=2-4")]),
        "asset.bin",
        &metadata("file", 6, None, false),
    )
    .unwrap();
    assert_eq!(range, Some(VfsReadRange { offset: 2, length: 3 }));
    assert_eq!(raw_read_status(range), 206);
    assert_eq!(content_range(range, 3, 6).as_deref(), Some("bytes 2-4/6"));
    assert_eq!(raw_read_status(None), 200);
    assert_eq!(content_range(None, 6, 6), None);
    assert!(raw_read_range(&Vec::new(), "dir", &metadata("directory", 0, None, false)).is_err());
}

#[test]
fn gateway_write_and_namespace_mutations_forward_validated_requests() {
    let common = [
        (CHEVALIER_VFS_RESOURCE_KEY_HEADER, "owner:owner-1:workspace"),
        (CHEVALIER_VFS_LOCK_OWNER_TOKEN_HEADER, TOKEN),
    ];
    let mut put = headers(&common);
    put.extend(headers(&[
        (CHEVALIER_VFS_MODE_HEADER, "488"),
        (CHEVALIER_VFS_PRECONDITION_FILE_ID_HEADER, "file-new"),
    ]));
    let parts = change_parts(
        &put,
        &VfsHeaderAliases::default(),
        &scope(),
        VFS_OPERATION_WRITE_THROUGH,
    )
    .unwrap();
    let request = write_file_request(
        "owner-1".to_string(),
        "new.txt".to_string(),
        b"new".to_vec(),
        scope(),
        parts,
    );
    assert_eq!(request.headers.mode, Some(0o750));
    assert_eq!(request.headers.owner_token, TOKEN_NUMBER);
    assert_eq!(request.headers.surface_kind, VFS_SURFACE_KIND_VM_WORKSPACE);
    assert_eq!(
        request.precondition.as_ref().and_then(|p| p.expected_file_id.as_deref()),
        Some("file-new")
    );

    let mut delete = headers(&common);
    delete.extend(headers(&[
        (CHEVALIER_VFS_PRECONDITION_FINGERPRINT_HEADER, "version-new"),
        (CHEVALIER_VFS_PRECONDITION_SECONDARY_FINGERPRINT_HEADER, "secondary-new"),
    ]));
    let precondition = parse_write_precondition_headers(&delete).unwrap().unwrap();
    assert_eq!(precondition.fingerprint.as_deref(), Some("version-new"));
    assert_eq!(precondition.secondary_fingerprint.as_deref(), Some("secondary-new"));
}

#[test]
fn gateway_rejects_invalid_external_mode_headers() {
    for mode in ["not-a-mode", "-1", "33256"] {
        let request = headers(&[
            (CHEVALIER_VFS_RESOURCE_KEY_HEADER, "owner:owner-1:workspace"),
            (CHEVALIER_VFS_LOCK_OWNER_TOKEN_HEADER, TOKEN),
            (CHEVALIER_VFS_MODE_HEADER, mode),
        ]);
        let error = change_parts(
            &request,
            &VfsHeaderAliases::default(),
            &scope(),
            VFS_OPERATION_WRITE_THROUGH,
        )
        .unwrap_err();
        assert_eq!(error.status(), 400);
    }
}

#[test]
fn gateway_rejects_resource_key_mismatch_before_write() {
    let request = headers(&[
        (CHEVALIER_VFS_RESOURCE_KEY_HEADER, "wrong"),
        (CHEVALIER_VFS_LOCK_OWNER_TOKEN_HEADER, TOKEN),
    ]);
    let error = change_parts(
        &request,
        &VfsHeaderAliases::default(),
        &scope(),
        VFS_OPERATION_WRITE_THROUGH,
    )
    .unwrap_err();
    assert_eq!(error.status(), 409);
    assert!(validate_declared_resource_key(&request, &VfsHeaderAliases::default(), "wrong").is_ok());
}

#[test]
fn gateway_forwards_setattr_size_operation_header() {
    let request = headers(&[
        (CHEVALIER_VFS_RESOURCE_KEY_HEADER, "owner:owner-1:workspace"),
        (CHEVALIER_VFS_LOCK_OWNER_TOKEN_HEADER, TOKEN),
        (CHEVALIER_VFS_OPERATION_HEADER, VFS_OPERATION_SETATTR_SIZE),
    ]);
    let read = parse_write_headers(
        &request,
        &VfsHeaderAliases::default(),
        VFS_SURFACE_KIND_VM_WORKSPACE,
        VFS_OPERATION_WRITE_THROUGH,
    )
    .unwrap();
    assert_eq!(read.operation, VFS_OPERATION_SETATTR_SIZE);
}

#[test]
fn gateway_rejects_missing_owner_token_before_write() {
    let request = headers(&[(CHEVALIER_VFS_RESOURCE_KEY_HEADER, "owner:owner-1:workspace")]);
    let error = change_parts(
        &request,
        &VfsHeaderAliases::default(),
        &scope(),
        VFS_OPERATION_WRITE_THROUGH,
    )
    .unwrap_err();
    assert_eq!(error.status(), 400);
    assert!(parse_required_uuid_header("x", None).is_err());
    assert!(parse_required_uuid_header("x", Some(Err("bad".to_string()))).is_err());
    assert_eq!(parse_required_uuid_header("x", Some(Ok(7))).unwrap(), 7);
}

#[test]
fn tokens_that_are_no_uuid_are_refused() {
    let request = headers(&[(CHEVALIER_VFS_LOCK_OWNER_TOKEN_HEADER, "not-a-uuid")]);
    let error = parse_write_headers(
        &request,
        &VfsHeaderAliases::default(),
        VFS_SURFACE_KIND_VM_WORKSPACE,
        VFS_OPERATION_WRITE_THROUGH,
    )
    .unwrap_err();
    assert_eq!(error.status(), 400);
    assert!(error.text().contains(CHEVALIER_VFS_LOCK_OWNER_TOKEN_HEADER), "{}", error.text());
}

#[test]
fn gateway_write_many_forwards_one_atomic_request() {
    let writes = vec![
        VfsWriteManyItem {
            path: "first.txt".to_string(),
            body: vec![111, 110, 101],
            precondition: None,
        },
        VfsWriteManyItem {
            path: "second.txt".to_string(),
            body: vec![116, 119, 111],
            precondition: None,
        },
    ];
    let mut walk = plan_write_many(&writes).unwrap();
    assert_eq!(walk.question().unwrap().as_deref(), Some("first.txt"));
    walk.answer(scope(), CROSS_SCOPE_MESSAGE).unwrap();
    assert_eq!(walk.question().unwrap().as_deref(), Some("second.txt"));
    walk.answer(scope(), CROSS_SCOPE_MESSAGE).unwrap();
    assert_eq!(walk.question().unwrap(), None);
    assert_eq!(walk.scope(), Some(scope()));
    assert!(plan_write_many(&Vec::new()).is_none());
}

#[test]
fn batches_stay_within_one_scope() {
    let mut walk = ScopeWalk::new(texts(&["a", "b"]), false);
    walk.answer(scope(), CROSS_SCOPE_MESSAGE).unwrap();
    let mut other = scope();
    other.resource_key = "other".to_string();
    let error = walk.answer(other, CROSS_SCOPE_MESSAGE).unwrap_err();
    assert!(error.text().contains(CROSS_SCOPE_MESSAGE), "{}", error.text());
}

#[test]
fn gateway_namespace_many_forwards_one_ordered_batch() {
    let mutations = || vec![
        VfsNamespaceMutation::CreateDirectory { path: "tree".to_string(), mode: Some(0o775) },
        VfsNamespaceMutation::Rename {
            from: "source.txt".to_string(),
            to: "tree/result.txt".to_string(),
        },
        VfsNamespaceMutation::SetMode { path: "tree/result.txt".to_string(), mode: 0o6755 },
        VfsNamespaceMutation::DeleteFile {
            path: "tree/result.txt".to_string(),
            precondition: Some(VfsWritePrecondition {
                predicate: None,
                fingerprint: Some("version-1".to_string()),
                secondary_fingerprint: None,
                expected_file_id: None,
            }),
        },
    ];
    let ids = texts(&["mkdir-tree", "rename-result", "chmod-result", "delete-result"]);
    assert!(plan_namespace_many(&ids, &mutations()).unwrap().is_some());
    assert!(plan_namespace_many(&texts(&["one"]), &mutations()).is_err());
    assert!(plan_namespace_many(&Vec::new(), &Vec::new()).unwrap().is_none());

    let read = parse_write_headers(
        &headers(&[(CHEVALIER_VFS_LOCK_OWNER_TOKEN_HEADER, TOKEN)]),
        &VfsHeaderAliases::default(),
        VFS_SURFACE_KIND_VM_WORKSPACE,
        "vfs_namespace_batch",
    )
    .unwrap();
    let calls = apply_namespace_batch(&VfsNamespaceMutationBatchRequest {
        owner_id: "owner-1".to_string(),
        mutations: mutations(),
        headers: read,
        scope: scope(),
    });
    assert_eq!(calls.len(), 4);
    assert!(matches!(&calls[0], VfsBackendCall::Mkdir(r) if r.headers.mode == Some(0o775)));
    assert!(matches!(&calls[1], VfsBackendCall::Rename(r) if r.to == "tree/result.txt"));
    assert!(matches!(&calls[2], VfsBackendCall::SetMode(r) if r.headers.mode == Some(0o6755)));
    assert!(matches!(
        &calls[3],
        VfsBackendCall::DeleteFile(r)
            if r.precondition.as_ref().unwrap().fingerprint.as_deref() == Some("version-1")
    ));
}

#[test]
fn snapshots_pair_paths_with_metadata() {
    let entries = publication_snapshot(
        &texts(&["tree", "tree/result.txt"]),
        vec![Some(metadata("directory", 0, None, false)), None],
    )
    .unwrap();
    assert_eq!(entries[0].path, "tree");
    assert!(entries[0].metadata.is_some());
    assert!(entries[1].metadata.is_none());
    assert!(publication_snapshot(&texts(&["a"]), Vec::new()).is_err());
}

#[test]
fn gateway_lease_round_trip_uses_backend_scope() {
    let body = || VfsLeaseAcquireRequest {
        path: "asset.bin".to_string(),
        mutation_count: Some(2),
        component: None,
        run_id: None,
        reason: None,
    };
    let lease = lease_order("owner-1".to_string(), body(), scope(), 9);
    assert_eq!(lease.scope.resource_key, "owner:owner-1:workspace");
    assert_eq!(lease.mutation_count, 2);
    assert_eq!(lease.owner_token, 9);
    let first = lease_acquire("owner-1".to_string(), body(), scope());
    let second = lease_acquire("owner-1".to_string(), body(), scope());
    assert_ne!(first.owner_token, second.owner_token);
    assert_eq!((first.owner_token >> 76) & 0xf, 4);
    assert_eq!((first.owner_token >> 62) & 0x3, 2);
}
