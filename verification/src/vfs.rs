//! The protocol by which guests reach files through a gateway: its names, its values, and the
//! rules about paths, ranges, modes and preconditions.

use crate::auth::explain_u64;
use crate::auth::u64_parse_error;
use crate::numeral::decimal;
use crate::numeral::parse_u64;
use crate::numeral::to_decimal;
use crate::numeral::u64_numeral;
use crate::text::occurs;
use crate::text::occurs_at;
use crate::text::rsplit_once;
use crate::text::same;
use crate::text::split_at_first;
use crate::text::split_at_last;
use crate::text::split_once;
use crate::text::strip_back;
use crate::text::strip_front;
use crate::text::strip_prefix;
use crate::text::trim;
use crate::text::trim_end_of;
use crate::text::trim_of;
use crate::text::trimmed;
use crate::text::trimmed_end_of;
use crate::text::trimmed_of;
use crate::text::views;
use crate::unique::distinct;
use crate::unique::lemma_distinct_push;
use crate::unique::push_new;
use crate::vm::opt_view;
use vstd::prelude::*;

verus! {

// ---------------------------------------------------------------------------
// Names
// ---------------------------------------------------------------------------
pub const CHEVALIER_VFS_ROUTE_PREFIX: &'static str = "/internal/chevalier/vfs";

pub const CHEVALIER_VFS_ENDPOINT_PATH_PREFIX: &'static str = "/v1/internal/chevalier/vfs";

pub const CHEVALIER_VFS_RUN_ID_HEADER: &'static str = "x-chevalier-vfs-run-id";

pub const CHEVALIER_VFS_COMPONENT_HEADER: &'static str = "x-chevalier-vfs-component";

pub const CHEVALIER_VFS_SURFACE_KIND_HEADER: &'static str = "x-chevalier-vfs-surface-kind";

pub const CHEVALIER_VFS_OPERATION_HEADER: &'static str = "x-chevalier-vfs-operation";

pub const CHEVALIER_VFS_REASON_HEADER: &'static str = "x-chevalier-vfs-reason";

pub const CHEVALIER_VFS_RESOURCE_KEY_HEADER: &'static str = "x-chevalier-vfs-resource-key";

pub const CHEVALIER_VFS_LOCK_OWNER_TOKEN_HEADER: &'static str = "x-chevalier-vfs-lock-owner-token";

/// Tells how a gateway puts mutations in order. Where it is `implicit`, the mutation itself does
/// so, and leases need be neither acquired nor released.
pub const CHEVALIER_VFS_LEASE_MODE_HEADER: &'static str = "x-chevalier-vfs-lease-mode";

pub const CHEVALIER_VFS_LEASE_MODE_IMPLICIT: &'static str = "implicit";

pub const CHEVALIER_VFS_PRECONDITION_KIND_HEADER: &'static str =
    "x-chevalier-vfs-precondition-kind";

pub const CHEVALIER_VFS_PRECONDITION_FINGERPRINT_HEADER: &'static str =
    "x-chevalier-vfs-precondition-fingerprint";

pub const CHEVALIER_VFS_PRECONDITION_SECONDARY_FINGERPRINT_HEADER: &'static str =
    "x-chevalier-vfs-precondition-secondary-fingerprint";

pub const CHEVALIER_VFS_PRECONDITION_FILE_ID_HEADER: &'static str =
    "x-chevalier-vfs-precondition-file-id";

pub const CHEVALIER_VFS_EXECUTABLE_HEADER: &'static str = "x-chevalier-vfs-executable";

pub const CHEVALIER_VFS_MODE_HEADER: &'static str = "x-chevalier-vfs-mode";

pub const CHEVALIER_VFS_NAMESPACE_REVISION_HEADER: &'static str =
    "x-chevalier-vfs-namespace-revision";

pub const VFS_COMPONENT_VM_RUNTIME: &'static str = "vm_runtime";

pub const VFS_ENTRY_KIND_FILE: &'static str = "file";

pub const VFS_ENTRY_KIND_DIRECTORY: &'static str = "directory";

pub const VFS_ENTRY_KIND_SYMLINK: &'static str = "symlink";

pub const VFS_SURFACE_KIND_VM_SHARED: &'static str = "vm_shared_vfs";

pub const VFS_SURFACE_KIND_VM_WORKSPACE: &'static str = "vm_workspace_vfs";

pub const VFS_OPERATION_WRITE_THROUGH: &'static str = "vfs_write_through";

pub const VFS_OPERATION_SETATTR_SIZE: &'static str = "vfs_setattr_size";

pub const VFS_OPERATION_SETATTR_MODE: &'static str = "vfs_setattr_mode";

pub const VFS_OPERATION_MKDIR: &'static str = "vfs_mkdir";

pub const VFS_OPERATION_UNLINK: &'static str = "vfs_unlink";

pub const VFS_OPERATION_RMDIR: &'static str = "vfs_rmdir";

pub const VFS_OPERATION_RENAME: &'static str = "vfs_rename";

pub const VFS_OPERATION_LINK: &'static str = "vfs_hard_link";

pub const VFS_OPERATION_SYMLINK: &'static str = "vfs_symlink";

pub const VFS_OPERATION_NAMESPACE_BATCH: &'static str = "vfs_namespace_batch";

/// The largest body that a gateway takes.
pub const DEFAULT_VFS_BODY_LIMIT_BYTES: usize = 67_108_864;

/// The number of links of an entry that does not tell it.
pub const DEFAULT_VFS_LINK_COUNT: u64 = 1;

// ---------------------------------------------------------------------------
// Values
// ---------------------------------------------------------------------------
/// A point in time: seconds since 1970, and nanoseconds on top. In a leap second the nanoseconds
/// go beyond a second.
#[derive(Clone, Copy, Debug, PartialEq, Eq, Structural)]
pub struct VfsTime {
    pub secs: i64,
    pub nanos: u32,
}

/// An entry of a directory.
#[derive(Debug, PartialEq, Eq)]
pub struct VfsDirEntry {
    pub name: String,
    pub kind: String,
    pub size_bytes: u64,
    pub file_id: Option<String>,
    pub link_count: u64,
    pub link_target: Option<String>,
    pub content_hash: Option<String>,
    pub executable: bool,
    pub mode: Option<u32>,
    pub updated_at: Option<VfsTime>,
}

/// What is known of a file, a directory or a link.
#[derive(Debug, PartialEq, Eq)]
pub struct VfsMetadata {
    pub kind: String,
    pub size_bytes: u64,
    pub file_id: Option<String>,
    pub link_count: u64,
    pub link_target: Option<String>,
    pub content_hash: Option<String>,
    pub executable: bool,
    pub mode: Option<u32>,
    pub updated_at: Option<VfsTime>,
}

#[derive(Debug, PartialEq, Eq)]
pub struct VfsMetadataManyRequest {
    pub paths: Vec<String>,
}

#[derive(Debug, PartialEq, Eq)]
pub struct VfsMetadataManyResponse {
    pub entries: Vec<Option<VfsMetadata>>,
}

#[derive(Debug, PartialEq, Eq)]
pub struct VfsDeleteMetadataResponse {
    pub previous: Option<VfsMetadata>,
}

#[derive(Debug, PartialEq, Eq)]
pub struct VfsRenameMetadataResponse {
    pub previous: Option<VfsMetadata>,
    pub current: Option<VfsMetadata>,
}

#[derive(Debug, PartialEq, Eq)]
pub struct VfsHardLinkBody {
    pub source_path: String,
    pub destination_path: String,
}

#[derive(Debug, PartialEq, Eq)]
pub struct VfsHardLinkMetadataResponse {
    pub source: VfsMetadata,
    pub destination: VfsMetadata,
}

#[derive(Debug, PartialEq, Eq)]
pub struct VfsHardLinkAliasBody {
    pub file_id: String,
    pub excluding_path: String,
}

#[derive(Debug, PartialEq, Eq)]
pub struct VfsHardLinkAliasResponse {
    pub path: Option<String>,
}

/// Mutations that are made together, each with an id of its own.
#[derive(Debug, PartialEq, Eq)]
pub struct VfsNamespaceMutationBatchBody {
    pub operation_ids: Vec<String>,
    pub mutations: Vec<VfsNamespaceMutation>,
}

/// A change of the namespace.
#[allow(inconsistent_fields)]
#[derive(Debug, PartialEq, Eq)]
pub enum VfsNamespaceMutation {
    CreateFile { path: String, mode: Option<u32> },
    CreateDirectory { path: String, mode: Option<u32> },
    CreateSymlink { path: String, target: String },
    CreateHardLink { source_path: String, destination_path: String },
    DeleteFile { path: String, precondition: Option<VfsWritePrecondition> },
    RemoveDirectory { path: String },
    Rename { from: String, to: String },
    SetMode { path: String, mode: u32 },
}

#[derive(Debug, PartialEq, Eq)]
pub struct VfsReadManyRequest {
    pub paths: Vec<String>,
}

#[derive(Debug, PartialEq, Eq)]
pub struct VfsReadManyResponse {
    pub entries: Vec<Option<Vec<u8>>>,
}

/// Which entries of a directory are listed, and in which order.
#[derive(Debug, PartialEq, Eq)]
pub struct VfsListDirOptions {
    pub name_like: Option<String>,
    pub name_not_like: Option<String>,
    pub entry_kind: Option<String>,
    pub limit: Option<i64>,
    pub order: Option<String>,
    pub max_hash_bytes: Option<u64>,
}

impl Default for VfsListDirOptions {
    /// Every entry, in the usual order.
    fn default() -> (options: VfsListDirOptions)
        ensures
            options.name_like is None,
            options.name_not_like is None,
            options.entry_kind is None,
            options.limit is None,
            options.order is None,
            options.max_hash_bytes is None,
    {
        VfsListDirOptions {
            name_like: None,
            name_not_like: None,
            entry_kind: None,
            limit: None,
            order: None,
            max_hash_bytes: None,
        }
    }
}

#[derive(Debug, PartialEq, Eq)]
pub struct VfsObjectState {
    pub size_bytes: u64,
    pub pack_key: String,
    pub pack_slot_offset: i64,
    pub pack_slot_length: i64,
    pub pack_slot_compression: i16,
}

#[derive(Debug, PartialEq, Eq)]
pub struct VfsSubtreeMetadataEntry {
    pub path: String,
    pub kind: String,
    pub size_bytes: u64,
    pub file_id: Option<String>,
    pub link_count: u64,
    pub link_target: Option<String>,
    pub content_hash: Option<String>,
    pub executable: bool,
    pub mode: Option<u32>,
    pub token_count: Option<i32>,
    pub version: Option<String>,
    pub updated_at: Option<VfsTime>,
    pub object_state: Option<VfsObjectState>,
}

#[derive(Debug, PartialEq, Eq)]
pub struct VfsSubtreeMetadataRequest {
    pub prefix: String,
    pub include_object_state: bool,
    pub include_token_count: bool,
    pub limit: Option<i64>,
    pub max_hash_bytes: Option<u64>,
}

#[derive(Debug, PartialEq, Eq)]
pub struct VfsSubtreeMetadataResponse {
    pub entries: Vec<VfsSubtreeMetadataEntry>,
}

#[derive(Debug, PartialEq, Eq)]
pub struct VfsPrefetchSubtreeRequest {
    pub prefix: String,
    pub include_small_file_bytes: bool,
    pub max_entries: Option<i64>,
    pub max_pack_bytes: Option<u64>,
}

#[derive(Debug, PartialEq, Eq)]
pub struct VfsPrefetchFileBytes {
    pub path: String,
    pub body: Vec<u8>,
}

#[derive(Debug, PartialEq, Eq)]
pub struct VfsPrefetchSubtreeResponse {
    pub warmed_file_bytes: Vec<VfsPrefetchFileBytes>,
}

/// What must hold of a file before it is changed.
#[derive(Debug, PartialEq, Eq)]
pub enum VfsCasPredicate {
    Absent,
    ContentFingerprint { fingerprint: String },
}

/// A precondition of a change. Older clients give fingerprints; newer ones give the predicate.
#[derive(Debug, PartialEq, Eq)]
pub struct VfsWritePrecondition {
    pub predicate: Option<VfsCasPredicate>,
    pub fingerprint: Option<String>,
    pub secondary_fingerprint: Option<String>,
    pub expected_file_id: Option<String>,
}

#[derive(Debug, PartialEq, Eq)]
pub struct VfsWriteManyItem {
    pub path: String,
    pub body: Vec<u8>,
    pub precondition: Option<VfsWritePrecondition>,
}

#[derive(Debug, PartialEq, Eq)]
pub struct VfsWriteManyBody {
    pub writes: Vec<VfsWriteManyItem>,
}

#[derive(Debug, PartialEq, Eq)]
pub struct VfsWriteManyResult {
    pub path: String,
    pub content_hash: String,
    pub previous_hash: Option<String>,
    pub changed: bool,
}

#[derive(Debug, PartialEq, Eq)]
pub struct VfsWriteManyResponse {
    pub results: Vec<VfsWriteManyResult>,
}

#[derive(Debug, PartialEq, Eq)]
pub struct VfsPublicationSnapshotEntry {
    pub path: String,
    pub metadata: Option<VfsMetadata>,
}

#[derive(Debug, PartialEq, Eq)]
pub struct VfsNamespaceMutationBatchResponse {
    pub entries: Vec<VfsPublicationSnapshotEntry>,
}

#[derive(Debug, PartialEq, Eq)]
pub struct VfsWriteManyPublicationResponse {
    pub results: Vec<VfsWriteManyResult>,
    pub entries: Vec<VfsPublicationSnapshotEntry>,
}

/// A lease that was granted. A UUID is held as its number, here and in every value of this
/// module.
#[derive(Debug, PartialEq, Eq)]
pub struct VfsLeaseGrant {
    pub resource_key: String,
    pub owner_token: u128,
    pub task_id: Option<u128>,
}

#[derive(Debug, PartialEq, Eq)]
pub struct VfsLeaseAcquireRequest {
    pub path: String,
    pub mutation_count: Option<i32>,
    pub component: Option<String>,
    pub run_id: Option<u128>,
    pub reason: Option<String>,
}

#[derive(Debug, PartialEq, Eq)]
pub struct VfsLeaseReleaseRequest {
    pub resource_key: String,
    pub owner_token: u128,
}

/// The part of a file that is read.
#[derive(Clone, Copy, Debug, PartialEq, Eq, Structural)]
pub struct VfsReadRange {
    pub offset: u64,
    pub length: u64,
}

/// What a change falls under.
#[derive(Debug, PartialEq, Eq)]
pub struct VfsWriteScope {
    pub resource_key: String,
    pub default_surface_kind: String,
    pub task_id: Option<u128>,
}

/// What the headers of a change say.
#[derive(Debug, PartialEq, Eq)]
pub struct VfsWriteHeaders {
    pub run_id: Option<u128>,
    pub component: String,
    pub surface_kind: String,
    pub operation: String,
    pub reason: String,
    pub executable: Option<bool>,
    pub mode: Option<u32>,
    pub owner_token: u128,
}

#[derive(Debug, PartialEq, Eq)]
pub struct VfsWriteRequest {
    pub owner_id: String,
    pub path: String,
    pub body: Vec<u8>,
    pub headers: VfsWriteHeaders,
    pub scope: VfsWriteScope,
    pub precondition: Option<VfsWritePrecondition>,
}

#[derive(Debug, PartialEq, Eq)]
pub struct VfsWriteManyRequest {
    pub owner_id: String,
    pub writes: Vec<VfsWriteManyItem>,
    pub headers: VfsWriteHeaders,
    pub scope: VfsWriteScope,
}

#[derive(Debug, PartialEq, Eq)]
pub struct VfsNamespaceMutationRequest {
    pub owner_id: String,
    pub path: String,
    pub headers: VfsWriteHeaders,
    pub scope: VfsWriteScope,
    pub precondition: Option<VfsWritePrecondition>,
}

#[derive(Debug, PartialEq, Eq)]
pub struct VfsNamespaceMutationBatchRequest {
    pub owner_id: String,
    pub mutations: Vec<VfsNamespaceMutation>,
    pub headers: VfsWriteHeaders,
    pub scope: VfsWriteScope,
}

#[derive(Debug, PartialEq, Eq)]
pub struct VfsRenameRequest {
    pub owner_id: String,
    pub from: String,
    pub to: String,
    pub headers: VfsWriteHeaders,
    pub scope: VfsWriteScope,
}

#[derive(Debug, PartialEq, Eq)]
pub struct VfsSymlinkRequest {
    pub owner_id: String,
    pub path: String,
    pub target: String,
    pub headers: VfsWriteHeaders,
    pub scope: VfsWriteScope,
}

#[derive(Debug, PartialEq, Eq)]
pub struct VfsHardLinkRequest {
    pub owner_id: String,
    pub source_path: String,
    pub destination_path: String,
    pub headers: VfsWriteHeaders,
    pub scope: VfsWriteScope,
}

#[derive(Debug, PartialEq, Eq)]
pub struct VfsLeaseAcquire {
    pub owner_id: String,
    pub path: String,
    pub mutation_count: i32,
    pub component: String,
    pub run_id: Option<u128>,
    pub reason: Option<String>,
    pub owner_token: u128,
    pub scope: VfsWriteScope,
}

/// Other names under which a gateway takes headers.
#[derive(Debug, PartialEq, Eq)]
pub struct VfsHeaderAliases {
    pub run_id: Vec<String>,
    pub component: Vec<String>,
    pub surface_kind: Vec<String>,
    pub operation: Vec<String>,
    pub reason: Vec<String>,
    pub resource_key: Vec<String>,
    pub lock_owner_token: Vec<String>,
}

impl Default for VfsHeaderAliases {
    /// No other names.
    fn default() -> (aliases: VfsHeaderAliases)
        ensures
            aliases.run_id@.len() == 0,
            aliases.component@.len() == 0,
            aliases.surface_kind@.len() == 0,
            aliases.operation@.len() == 0,
            aliases.reason@.len() == 0,
            aliases.resource_key@.len() == 0,
            aliases.lock_owner_token@.len() == 0,
    {
        VfsHeaderAliases {
            run_id: Vec::new(),
            component: Vec::new(),
            surface_kind: Vec::new(),
            operation: Vec::new(),
            reason: Vec::new(),
            resource_key: Vec::new(),
            lock_owner_token: Vec::new(),
        }
    }
}

// ---------------------------------------------------------------------------
// Errors
// ---------------------------------------------------------------------------
/// The errors of a gateway.
#[derive(Debug, PartialEq, Eq)]
pub enum VfsGatewayError {
    NotFound(String),
    BadRequest(String),
    Unauthorized(String),
    Forbidden(String),
    Conflict(String),
    Internal(String),
}

pub type VfsResult<T> = std::result::Result<T, VfsGatewayError>;

/// An error of a gateway, with its message as a sequence.
pub enum VfsErrorView {
    NotFound(Seq<char>),
    BadRequest(Seq<char>),
    Unauthorized(Seq<char>),
    Forbidden(Seq<char>),
    Conflict(Seq<char>),
    Internal(Seq<char>),
}

impl View for VfsGatewayError {
    type V = VfsErrorView;

    open spec fn view(&self) -> VfsErrorView {
        match self {
            VfsGatewayError::NotFound(m) => VfsErrorView::NotFound(m@),
            VfsGatewayError::BadRequest(m) => VfsErrorView::BadRequest(m@),
            VfsGatewayError::Unauthorized(m) => VfsErrorView::Unauthorized(m@),
            VfsGatewayError::Forbidden(m) => VfsErrorView::Forbidden(m@),
            VfsGatewayError::Conflict(m) => VfsErrorView::Conflict(m@),
            VfsGatewayError::Internal(m) => VfsErrorView::Internal(m@),
        }
    }
}

/// The text of an error.
pub open spec fn vfs_error_text(e: VfsErrorView) -> Seq<char> {
    match e {
        VfsErrorView::NotFound(m) => "not found: "@ + m,
        VfsErrorView::BadRequest(m) => "bad request: "@ + m,
        VfsErrorView::Unauthorized(m) => "unauthorized: "@ + m,
        VfsErrorView::Forbidden(m) => "forbidden: "@ + m,
        VfsErrorView::Conflict(m) => "conflict: "@ + m,
        VfsErrorView::Internal(m) => "internal error: "@ + m,
    }
}

impl VfsGatewayError {
    /// The error as text.
    pub fn text(&self) -> (text: String)
        ensures
            text@ == vfs_error_text(self@),
    {
        match self {
            VfsGatewayError::NotFound(m) => "not found: ".to_owned().concat(m),
            VfsGatewayError::BadRequest(m) => "bad request: ".to_owned().concat(m),
            VfsGatewayError::Unauthorized(m) => "unauthorized: ".to_owned().concat(m),
            VfsGatewayError::Forbidden(m) => "forbidden: ".to_owned().concat(m),
            VfsGatewayError::Conflict(m) => "conflict: ".to_owned().concat(m),
            VfsGatewayError::Internal(m) => "internal error: ".to_owned().concat(m),
        }
    }

    /// The HTTP status with which the error is answered.
    pub fn status(&self) -> (status: u16)
        ensures
            status == (match self {
                VfsGatewayError::NotFound(_) => 404u16,
                VfsGatewayError::BadRequest(_) => 400u16,
                VfsGatewayError::Unauthorized(_) => 401u16,
                VfsGatewayError::Forbidden(_) => 403u16,
                VfsGatewayError::Conflict(_) => 409u16,
                VfsGatewayError::Internal(_) => 500u16,
            }),
    {
        match self {
            VfsGatewayError::NotFound(_) => 404,
            VfsGatewayError::BadRequest(_) => 400,
            VfsGatewayError::Unauthorized(_) => 401,
            VfsGatewayError::Forbidden(_) => 403,
            VfsGatewayError::Conflict(_) => 409,
            VfsGatewayError::Internal(_) => 500,
        }
    }
}

// ---------------------------------------------------------------------------
// Modes
// ---------------------------------------------------------------------------
/// The largest mode: the permission bits, the set-id bits and the sticky bit.
pub const VFS_MODE_LIMIT: u32 = 0o7777;

/// Why a mode from outside is refused.
pub const VFS_MODE_REFUSED: &'static str = "vfs mode must be an integer between 0 and 0o7777";

/// A mode as it is written: without the bits beyond the limit.
pub open spec fn written_mode(mode: u32) -> u32 {
    mode % 4096
}

/// A mode as it is written.
pub fn mask_vfs_mode(mode: u32) -> (masked: u32)
    ensures
        masked == written_mode(mode),
        masked <= VFS_MODE_LIMIT,
        mode <= VFS_MODE_LIMIT ==> masked == mode,
{
    assert(mode & 0o7777 == mode % 4096) by (bit_vector);
    mode & 0o7777
}

/// An optional mode as it is written.
pub open spec fn opt_written_mode(mode: Option<u32>) -> Option<u32> {
    match mode {
        Some(m) => Some(written_mode(m)),
        None => None,
    }
}

/// An optional mode as it is written.
pub fn serialize_vfs_mode(mode: Option<u32>) -> (masked: Option<u32>)
    ensures
        masked == opt_written_mode(mode),
{
    match mode {
        Some(m) => Some(mask_vfs_mode(m)),
        None => None,
    }
}

/// A mode as it is read: one beyond the limit is refused.
pub fn deserialize_required_vfs_mode(mode: u32) -> (r: std::result::Result<u32, String>)
    ensures
        match r {
            Ok(m) => mode <= VFS_MODE_LIMIT && m == mode,
            Err(message) => mode > VFS_MODE_LIMIT && message@ == VFS_MODE_REFUSED@,
        },
{
    if mode > VFS_MODE_LIMIT {
        Err(VFS_MODE_REFUSED.to_owned())
    } else {
        Ok(mode)
    }
}

/// An optional mode as it is read: one beyond the limit is refused.
pub fn deserialize_vfs_mode(mode: Option<u32>) -> (r: std::result::Result<Option<u32>, String>)
    ensures
        match r {
            Ok(m) => m == mode && (mode is Some ==> mode->Some_0 <= VFS_MODE_LIMIT),
            Err(message) => mode is Some && mode->Some_0 > VFS_MODE_LIMIT && message@
                == VFS_MODE_REFUSED@,
        },
{
    match mode {
        Some(m) => match deserialize_required_vfs_mode(m) {
            Ok(m) => Ok(Some(m)),
            Err(message) => Err(message),
        },
        None => Ok(None),
    }
}

/// What is written of a mode is read back as it was written, and a mode that could be read is
/// written unchanged.
pub proof fn law_written_mode_is_read_back(mode: u32)
    ensures
        written_mode(mode) <= VFS_MODE_LIMIT,
        mode <= VFS_MODE_LIMIT ==> written_mode(mode) == mode,
        written_mode(written_mode(mode)) == written_mode(mode),
{
}

// ---------------------------------------------------------------------------
// Preconditions
// ---------------------------------------------------------------------------
/// A predicate, with its fingerprint as a sequence.
pub enum PredicateView {
    Absent,
    ContentFingerprint(Seq<char>),
}

impl View for VfsCasPredicate {
    type V = PredicateView;

    open spec fn view(&self) -> PredicateView {
        match self {
            VfsCasPredicate::Absent => PredicateView::Absent,
            VfsCasPredicate::ContentFingerprint {
                fingerprint,
            } => PredicateView::ContentFingerprint(fingerprint@),
        }
    }
}

/// An optional predicate, with its fingerprint as a sequence.
pub open spec fn predicate_view(p: Option<VfsCasPredicate>) -> Option<PredicateView> {
    match p {
        Some(p) => Some(p@),
        None => None,
    }
}

/// The predicate for which a fingerprint stands.
pub open spec fn fingerprint_predicate(fingerprint: Seq<char>) -> PredicateView {
    if fingerprint == "absent"@ {
        PredicateView::Absent
    } else {
        PredicateView::ContentFingerprint(fingerprint)
    }
}

/// The predicate of the first fingerprint, else of the second.
pub open spec fn fingerprints_predicate(
    fingerprint: Option<Seq<char>>,
    secondary: Option<Seq<char>>,
) -> Option<PredicateView> {
    match fingerprint {
        Some(f) => Some(fingerprint_predicate(f)),
        None => match secondary {
            Some(f) => Some(fingerprint_predicate(f)),
            None => None,
        },
    }
}

/// The predicate of a precondition: its own, else that of its fingerprints; one that says nothing
/// at all asks that there be no file.
pub open spec fn effective(
    predicate: Option<PredicateView>,
    fingerprint: Option<Seq<char>>,
    secondary: Option<Seq<char>>,
    expected_file_id: Option<Seq<char>>,
) -> Option<PredicateView> {
    if predicate is Some {
        predicate
    } else if fingerprints_predicate(fingerprint, secondary) is Some {
        fingerprints_predicate(fingerprint, secondary)
    } else if expected_file_id is None {
        Some(PredicateView::Absent)
    } else {
        None
    }
}

impl VfsCasPredicate {
    /// The same predicate once more.
    pub fn copy(&self) -> (p: VfsCasPredicate)
        ensures
            p@ == self@,
    {
        match self {
            VfsCasPredicate::Absent => VfsCasPredicate::Absent,
            VfsCasPredicate::ContentFingerprint {
                fingerprint,
            } => VfsCasPredicate::ContentFingerprint { fingerprint: fingerprint.clone() },
        }
    }

    /// The predicate for which a fingerprint stands.
    pub fn of_fingerprint(fingerprint: &str) -> (p: VfsCasPredicate)
        ensures
            p@ == fingerprint_predicate(fingerprint@),
    {
        if same(fingerprint, "absent") {
            VfsCasPredicate::Absent
        } else {
            VfsCasPredicate::ContentFingerprint { fingerprint: fingerprint.to_owned() }
        }
    }

    /// The predicate of the first fingerprint, else of the second.
    pub fn of_fingerprints(fingerprint: &Option<String>, secondary: &Option<String>) -> (p: Option<
        VfsCasPredicate,
    >)
        ensures
            predicate_view(p) == fingerprints_predicate(
                opt_view(*fingerprint),
                opt_view(*secondary),
            ),
    {
        match fingerprint {
            Some(f) => Some(VfsCasPredicate::of_fingerprint(f)),
            None => match secondary {
                Some(f) => Some(VfsCasPredicate::of_fingerprint(f)),
                None => None,
            },
        }
    }
}

impl VfsWritePrecondition {
    /// The predicate of the precondition.
    pub fn effective_predicate(&self) -> (p: Option<VfsCasPredicate>)
        ensures
            predicate_view(p) == effective(
                predicate_view(self.predicate),
                opt_view(self.fingerprint),
                opt_view(self.secondary_fingerprint),
                opt_view(self.expected_file_id),
            ),
    {
        match &self.predicate {
            Some(p) => return Some(p.copy()),
            None => {},
        }
        match VfsCasPredicate::of_fingerprints(&self.fingerprint, &self.secondary_fingerprint) {
            Some(p) => Some(p),
            None => if self.expected_file_id.is_none() {
                Some(VfsCasPredicate::Absent)
            } else {
                None
            },
        }
    }
}

// ---------------------------------------------------------------------------
// Paths
// ---------------------------------------------------------------------------
/// The URL under which a gateway serves an owner.
pub fn owner_vfs_endpoint(base_url: &str, owner_id: &str) -> (url: String)
    ensures
        url@ == trimmed_end_of(trimmed(base_url@), '/') + CHEVALIER_VFS_ENDPOINT_PATH_PREFIX@
            + "/"@ + owner_id@,
{
    let base = trim(base_url);
    trim_end_of(&base, '/').concat(CHEVALIER_VFS_ENDPOINT_PATH_PREFIX).concat("/").concat(owner_id)
}

/// A path below a scope.
pub open spec fn scoped_path(scope_path: Seq<char>, relative: Seq<char>) -> Seq<char> {
    let scope = trimmed_of(scope_path, '/');
    let rel = trimmed_of(relative, '/');
    if scope.len() == 0 {
        rel
    } else if rel.len() == 0 {
        scope
    } else {
        scope + "/"@ + rel
    }
}

/// A path below a scope.
pub fn scoped_vfs_path(scope_path: &str, relative: &str) -> (path: String)
    ensures
        path@ == scoped_path(scope_path@, relative@),
{
    let scope = trim_of(scope_path, '/');
    let rel = trim_of(relative, '/');
    if scope.as_str().is_empty() {
        rel
    } else if rel.as_str().is_empty() {
        scope
    } else {
        scope.concat("/").concat(&rel)
    }
}

/// What is left of a text without the slashes at its ends stands in it from `i` on.
proof fn lemma_strip_slashes(s: Seq<char>) -> (i: int)
    ensures
        trimmed_of(s, '/').len() > 0 ==> trimmed_of(s, '/')[0] != '/' && trimmed_of(s, '/').last()
            != '/',
        0 <= i && i + trimmed_of(s, '/').len() <= s.len(),
        trimmed_of(s, '/') == s.subrange(i, i + trimmed_of(s, '/').len()),
{
    let drop = crate::text::is_char('/');
    let front = strip_front(s, drop);
    lemma_strip_front(s, drop);
    lemma_strip_back(front, drop);
    let back = strip_back(front, drop);
    assert(trimmed_of(s, '/') == back);
    let i = s.len() - front.len();
    assert(back =~= s.subrange(i, i + back.len()));
    if back.len() > 0 {
        assert(back[0] == front[0]);
    }
    i
}

proof fn lemma_strip_front(s: Seq<char>, drop: spec_fn(char) -> bool)
    ensures
        strip_front(s, drop).len() <= s.len(),
        strip_front(s, drop) == s.skip(s.len() - strip_front(s, drop).len()),
        strip_front(s, drop).len() > 0 ==> !drop(strip_front(s, drop)[0]),
    decreases s.len(),
{
    if s.len() > 0 && drop(s[0]) {
        lemma_strip_front(s.drop_first(), drop);
        let r = strip_front(s, drop);
        assert(r =~= s.skip(s.len() - r.len()));
    } else {
        assert(s =~= s.skip(0));
    }
}

proof fn lemma_strip_back(s: Seq<char>, drop: spec_fn(char) -> bool)
    ensures
        strip_back(s, drop).len() <= s.len(),
        strip_back(s, drop) == s.take(strip_back(s, drop).len() as int),
        strip_back(s, drop).len() > 0 ==> !drop(strip_back(s, drop).last()),
    decreases s.len(),
{
    if s.len() > 0 && drop(s.last()) {
        lemma_strip_back(s.drop_last(), drop);
        let r = strip_back(s, drop);
        assert(r =~= s.take(r.len() as int));
    } else {
        assert(s =~= s.take(s.len() as int));
    }
}

/// A scoped path neither starts nor ends with a slash, and where two slashes follow one another in
/// it, they do so in the scope or in the relative path.
pub proof fn law_scoped_path_has_no_new_double_slash(scope_path: Seq<char>, relative: Seq<char>)
    ensures
        scoped_path(scope_path, relative).len() > 0 ==> scoped_path(scope_path, relative)[0] != '/'
            && scoped_path(scope_path, relative).last() != '/',
        occurs(scoped_path(scope_path, relative), "//"@) ==> occurs(scope_path, "//"@) || occurs(
            relative,
            "//"@,
        ),
{
    reveal_strlit("/");
    reveal_strlit("//");
    let i = lemma_strip_slashes(scope_path);
    let j = lemma_strip_slashes(relative);
    let scope = trimmed_of(scope_path, '/');
    let rel = trimmed_of(relative, '/');
    let path = scoped_path(scope_path, relative);
    if occurs(path, "//"@) {
        let at = choose|at: int| #[trigger] occurs_at(path, "//"@, at);
        let pair = path.subrange(at, at + 2);
        assert(pair[0] == path[at] && pair[1] == path[at + 1]);
        if scope.len() == 0 {
            assert(relative.subrange(j + at, j + at + 2) =~= "//"@);
            assert(occurs_at(relative, "//"@, j + at));
        } else if rel.len() == 0 {
            assert(scope_path.subrange(i + at, i + at + 2) =~= "//"@);
            assert(occurs_at(scope_path, "//"@, i + at));
        } else if at + 2 <= scope.len() {
            assert(path[at] == scope[at] && path[at + 1] == scope[at + 1]);
            assert(scope_path.subrange(i + at, i + at + 2) =~= "//"@);
            assert(occurs_at(scope_path, "//"@, i + at));
        } else if at >= scope.len() + 1 {
            let b = at - scope.len() - 1;
            assert(path[at] == rel[b] && path[at + 1] == rel[b + 1]);
            assert(relative.subrange(j + b, j + b + 2) =~= "//"@);
            assert(occurs_at(relative, "//"@, j + b));
        } else if at + 1 == scope.len() {
            assert(path[at] == scope.last());
        } else {
            assert(path[at + 1] == rel[0]);
        }
    }
}

/// The directory that a path stands in; none at the top.
pub open spec fn parent_of(path: Seq<char>) -> Seq<char> {
    match split_at_last(trimmed_of(path, '/'), '/') {
        Some((parent, _)) => parent,
        None => Seq::empty(),
    }
}

/// The directory that a path stands in.
pub fn immediate_parent(path: &str) -> (parent: String)
    ensures
        parent@ == parent_of(path@),
{
    let path = trim_of(path, '/');
    match rsplit_once(&path, '/') {
        Some((parent, _)) => parent,
        None => String::new(),
    }
}

/// The paths that a mutation names; the second is empty where it names one.
pub open spec fn mutation_paths(m: VfsNamespaceMutation) -> (Seq<char>, Seq<char>) {
    match m {
        VfsNamespaceMutation::CreateFile { path, .. } => (path@, ""@),
        VfsNamespaceMutation::CreateDirectory { path, .. } => (path@, ""@),
        VfsNamespaceMutation::CreateSymlink { path, .. } => (path@, ""@),
        VfsNamespaceMutation::DeleteFile { path, .. } => (path@, ""@),
        VfsNamespaceMutation::RemoveDirectory { path } => (path@, ""@),
        VfsNamespaceMutation::SetMode { path, .. } => (path@, ""@),
        VfsNamespaceMutation::CreateHardLink { source_path, destination_path } => (
            source_path@,
            destination_path@,
        ),
        VfsNamespaceMutation::Rename { from, to } => (from@, to@),
    }
}

impl VfsNamespaceMutation {
    /// The paths that the mutation names.
    pub fn paths(&self) -> (paths: [&str; 2])
        ensures
            paths@[0]@ == mutation_paths(*self).0,
            paths@[1]@ == mutation_paths(*self).1,
    {
        match self {
            VfsNamespaceMutation::CreateFile { path, .. } => [path.as_str(), ""],
            VfsNamespaceMutation::CreateDirectory { path, .. } => [path.as_str(), ""],
            VfsNamespaceMutation::CreateSymlink { path, .. } => [path.as_str(), ""],
            VfsNamespaceMutation::DeleteFile { path, .. } => [path.as_str(), ""],
            VfsNamespaceMutation::RemoveDirectory { path } => [path.as_str(), ""],
            VfsNamespaceMutation::SetMode { path, .. } => [path.as_str(), ""],
            VfsNamespaceMutation::CreateHardLink { source_path, destination_path } => [
                source_path.as_str(),
                destination_path.as_str(),
            ],
            VfsNamespaceMutation::Rename { from, to } => [from.as_str(), to.as_str()],
        }
    }
}

/// A path where it is not empty.
pub open spec fn nonempty(path: Seq<char>) -> Seq<Seq<char>> {
    if path.len() > 0 {
        seq![path]
    } else {
        Seq::empty()
    }
}

/// The paths that mutations name, in order.
pub open spec fn named_paths(mutations: Seq<VfsNamespaceMutation>) -> Seq<Seq<char>>
    decreases mutations.len(),
{
    if mutations.len() == 0 {
        Seq::empty()
    } else {
        let (a, b) = mutation_paths(mutations.last());
        named_paths(mutations.drop_last()) + nonempty(a) + nonempty(b)
    }
}

/// Each path, followed by the directory that it stands in.
pub open spec fn with_parents(paths: Seq<Seq<char>>) -> Seq<Seq<char>>
    decreases paths.len(),
{
    if paths.len() == 0 {
        Seq::empty()
    } else {
        with_parents(paths.drop_last()).push(paths.last()).push(parent_of(paths.last()))
    }
}

/// The paths that mutations name, in order.
pub fn paths_of_mutations(mutations: &Vec<VfsNamespaceMutation>) -> (paths: Vec<String>)
    ensures
        views(paths@) == named_paths(mutations@),
{
    let mut paths: Vec<String> = Vec::new();
    let mut i: usize = 0;
    assert(views(paths@) =~= named_paths(mutations@.take(0)));
    while i < mutations.len()
        invariant
            i <= mutations@.len(),
            views(paths@) == named_paths(mutations@.take(i as int)),
        decreases mutations@.len() - i,
    {
        let ghost before = views(paths@);
        let ghost (a, b) = mutation_paths(mutations@[i as int]);
        let named = mutations[i].paths();
        if !named[0].is_empty() {
            paths.push(named[0].to_owned());
        }
        assert(views(paths@) =~= before + nonempty(a));
        let ghost middle = views(paths@);
        if !named[1].is_empty() {
            paths.push(named[1].to_owned());
        }
        assert(views(paths@) =~= middle + nonempty(b));
        assert(mutations@.take(i + 1).drop_last() =~= mutations@.take(i as int));
        assert(mutations@.take(i + 1).last() == mutations@[i as int]);
        i += 1;
    }
    assert(mutations@.take(mutations@.len() as int) =~= mutations@);
    paths
}

/// The paths that mutations affect: those that they name and the directories that these stand in,
/// each once.
pub fn namespace_snapshot_paths(mutations: &Vec<VfsNamespaceMutation>) -> (paths: Vec<String>)
    ensures
        views(paths@) == distinct(with_parents(named_paths(mutations@))),
{
    let named = paths_of_mutations(mutations);
    affected_paths(&named)
}

/// The paths that a change of some paths affects: the paths and the directories that these stand
/// in, each once.
pub fn affected_paths(named: &Vec<String>) -> (paths: Vec<String>)
    ensures
        views(paths@) == distinct(with_parents(views(named@))),
{
    let ghost all = views(named@);
    let mut paths: Vec<String> = Vec::new();
    let mut i: usize = 0;
    assert(with_parents(all.take(0)) =~= Seq::empty());
    assert(views(paths@) =~= distinct(with_parents(all.take(0))));
    while i < named.len()
        invariant
            i <= named@.len(),
            all == views(named@),
            views(paths@) == distinct(with_parents(all.take(i as int))),
        decreases named@.len() - i,
    {
        push_new(&mut paths, &named[i]);
        let parent = immediate_parent(&named[i]);
        push_new(&mut paths, &parent);
        proof {
            let so_far = with_parents(all.take(i as int));
            let x = named@[i as int]@;
            lemma_distinct_push(so_far, x);
            lemma_distinct_push(so_far.push(x), parent_of(x));
            assert(all.take(i + 1).drop_last() =~= all.take(i as int));
            assert(all.take(i + 1).last() == x);
        }
        i += 1;
    }
    assert(all.take(all.len() as int) =~= all);
    paths
}

// ---------------------------------------------------------------------------
// Ranges
// ---------------------------------------------------------------------------
/// The error of a range that starts beyond the end.
pub open spec fn beyond_end(offset: u64, total_size: u64) -> VfsErrorView {
    VfsErrorView::BadRequest(
        "range start "@ + decimal(offset as nat) + " is beyond EOF "@ + decimal(total_size as nat),
    )
}

/// The last byte of a file; that of an empty file is counted as its first.
pub open spec fn last_byte(total_size: u64) -> u64 {
    if total_size == 0 {
        0
    } else {
        (total_size - 1) as u64
    }
}

/// The part that a start and an end, both texts, name of a file of a size.
pub open spec fn range_between(
    header: Seq<char>,
    start: Seq<char>,
    end: Seq<char>,
    total_size: u64,
) -> std::result::Result<VfsReadRange, VfsErrorView> {
    match u64_numeral(start) {
        None => Err(
            VfsErrorView::BadRequest("invalid range start: "@ + u64_parse_error(start)),
        ),
        Some(offset) => if trimmed(end).len() == 0 {
            if total_size <= offset {
                Err(beyond_end(offset, total_size))
            } else {
                Ok(VfsReadRange { offset, length: (total_size - offset) as u64 })
            }
        } else {
            match u64_numeral(end) {
                None => Err(
                    VfsErrorView::BadRequest("invalid range end: "@ + u64_parse_error(end)),
                ),
                Some(last) => {
                    let last = if last < last_byte(total_size) {
                        last
                    } else {
                        last_byte(total_size)
                    };
                    if last < offset {
                        Err(VfsErrorView::BadRequest("invalid range header: "@ + header))
                    } else {
                        Ok(VfsReadRange { offset, length: (last - offset + 1) as u64 })
                    }
                },
            }
        },
    }
}

/// The part that a range header names of a file of a size.
pub open spec fn range_of(value: Seq<char>, total_size: u64) -> std::result::Result<
    VfsReadRange,
    VfsErrorView,
> {
    let header = trimmed(value);
    if !"bytes="@.is_prefix_of(header) {
        Err(VfsErrorView::BadRequest("unsupported range header: "@ + header))
    } else {
        match split_at_first(header.skip("bytes="@.len() as int), "-"@) {
            None => Err(VfsErrorView::BadRequest("invalid range header: "@ + header)),
            Some((start, end)) => range_between(header, start, end, total_size),
        }
    }
}

/// A result of the gateway, with its error as a view.
pub open spec fn vfs_outcome<T>(r: VfsResult<T>) -> std::result::Result<T, VfsErrorView> {
    match r {
        Ok(v) => Ok(v),
        Err(e) => Err(e@),
    }
}

fn beyond_eof(offset: u64, total_size: u64) -> (e: VfsGatewayError)
    ensures
        e@ == beyond_end(offset, total_size),
{
    let offset = to_decimal(offset);
    let total_size = to_decimal(total_size);
    VfsGatewayError::BadRequest(
        "range start ".to_owned().concat(&offset).concat(" is beyond EOF ").concat(&total_size),
    )
}

/// The part that a range header names of a file of a size.
pub fn parse_vfs_range_header(value: &str, total_size: u64) -> (r: VfsResult<VfsReadRange>)
    ensures
        vfs_outcome(r) == range_of(value@, total_size),
{
    let header = trim(value);
    let range = match strip_prefix(&header, "bytes=") {
        Some(range) => range,
        None => return Err(
            VfsGatewayError::BadRequest("unsupported range header: ".to_owned().concat(&header)),
        ),
    };
    proof {
        reveal_strlit("-");
    }
    let (start, end) = match split_once(&range, "-") {
        Some(parts) => parts,
        None => return Err(
            VfsGatewayError::BadRequest("invalid range header: ".to_owned().concat(&header)),
        ),
    };
    let offset: u64 = match parse_u64(&start) {
        Some(n) => n,
        None => {
            let reason = explain_u64(&start);
            return Err(
                VfsGatewayError::BadRequest("invalid range start: ".to_owned().concat(&reason)),
            );
        },
    };
    if trim(&end).as_str().is_empty() {
        if total_size <= offset {
            return Err(beyond_eof(offset, total_size));
        }
        return Ok(VfsReadRange { offset, length: total_size - offset });
    }
    let last: u64 = match parse_u64(&end) {
        Some(n) => n,
        None => {
            let reason = explain_u64(&end);
            return Err(
                VfsGatewayError::BadRequest("invalid range end: ".to_owned().concat(&reason)),
            );
        },
    };
    let file_end: u64 = if total_size == 0 {
        0
    } else {
        total_size - 1
    };
    let last: u64 = if last < file_end {
        last
    } else {
        file_end
    };
    if last < offset {
        return Err(
            VfsGatewayError::BadRequest("invalid range header: ".to_owned().concat(&header)),
        );
    }
    assert(last < u64::MAX);
    Ok(VfsReadRange { offset, length: last - offset + 1 })
}

/// A range of a file that is not empty is not empty itself, and lies within the file.
pub proof fn law_range_lies_within_file(value: Seq<char>, total_size: u64)
    requires
        total_size > 0,
    ensures
        match range_of(value, total_size) {
            Ok(range) => range.length > 0 && range.offset + range.length <= total_size,
            Err(e) => e is BadRequest,
        },
{
}

// ---------------------------------------------------------------------------
// What requests and paths mean
// ---------------------------------------------------------------------------
/// A refusal is told by what kind it is, with its message behind.
pub proof fn law_refusals_are_told_by_kind(m: Seq<char>)
    ensures
        vfs_error_text(VfsErrorView::NotFound(m)) == "not found: "@ + m,
        vfs_error_text(VfsErrorView::BadRequest(m)) == "bad request: "@ + m,
        vfs_error_text(VfsErrorView::Unauthorized(m)) == "unauthorized: "@ + m,
        vfs_error_text(VfsErrorView::Forbidden(m)) == "forbidden: "@ + m,
        vfs_error_text(VfsErrorView::Conflict(m)) == "conflict: "@ + m,
        vfs_error_text(VfsErrorView::Internal(m)) == "internal error: "@ + m,
{
}

/// Of a mode the lowest twelve bits are kept.
pub proof fn law_mode_has_twelve_bits(mode: u32)
    ensures
        mode < 4096 ==> written_mode(mode) == mode,
        written_mode(mode) < 4096,
        (mode - written_mode(mode)) % 4096 == 0,
        opt_written_mode(Some(mode)) == Some(written_mode(mode)),
        opt_written_mode(None) is None,
{
}

/// A fingerprint stands for content of that fingerprint, and `absent` for no content. The first of two
/// fingerprints counts, and a predicate that is named counts before both. Where nothing is named, not
/// even a file, a write makes a file that must not be there yet.
pub proof fn law_write_is_made_on_what_was_seen(
    p: PredicateView,
    f: Seq<char>,
    g: Option<Seq<char>>,
    id: Option<Seq<char>>,
)
    ensures
        effective(Some(p), Some(f), g, id) == Some(p),
        effective(Some(p), None, g, id) == Some(p),
        f != "absent"@ ==> effective(None, Some(f), g, id) == Some(
            PredicateView::ContentFingerprint(f),
        ),
        f == "absent"@ ==> effective(None, Some(f), g, id) == Some(PredicateView::Absent),
        f != "absent"@ ==> effective(None, None, Some(f), id) == Some(
            PredicateView::ContentFingerprint(f),
        ),
        f == "absent"@ ==> effective(None, None, Some(f), id) == Some(PredicateView::Absent),
        id is None ==> effective(None, None, None, id) == Some(PredicateView::Absent),
        id is Some ==> effective(None, None, None, id) is None,
{
}

/// A path is taken below its scope, with one slash between the two; slashes around either do not count,
/// and where one of the two is empty the path is the other.
pub proof fn law_path_is_taken_below_its_scope(scope: Seq<char>, rel: Seq<char>)
    requires
        scope.len() == 0 || (scope[0] != '/' && scope.last() != '/'),
        rel.len() == 0 || (rel[0] != '/' && rel.last() != '/'),
    ensures
        scope.len() > 0 && rel.len() > 0 ==> scoped_path(scope, rel) == scope + "/"@ + rel,
        scope.len() > 0 && rel.len() > 0 ==> scoped_path(seq!['/'] + scope, seq!['/'] + rel)
            == scope + "/"@ + rel,
        scope.len() == 0 ==> scoped_path(scope, rel) == rel,
        rel.len() == 0 ==> scoped_path(scope, rel) == scope,
{
    crate::text::law_sign_at_end_is_taken(scope, '/');
    crate::text::law_sign_at_end_is_taken(rel, '/');
}

/// The parent of a path is what stands before its last slash; a path without one has the root as its
/// parent.
pub proof fn law_parent_stands_before_last_slash(dir: Seq<char>, name: Seq<char>)
    requires
        name.len() > 0,
        !name.contains('/'),
        dir.len() > 0,
        dir[0] != '/',
    ensures
        parent_of(dir + seq!['/'] + name) == dir,
        parent_of(name).len() == 0,
{
    let path = dir + seq!['/'] + name;
    assert(name[0] != '/' && name.last() != '/') by {
        if name[0] == '/' {
            assert(name.contains('/'));
        }
        if name.last() == '/' {
            assert(name[name.len() - 1] == '/');
            assert(name.contains('/'));
        }
    }
    assert(path[0] == dir[0] && path.last() == name.last());
    crate::text::law_sign_at_end_is_taken(path, '/');
    crate::text::law_sign_at_end_is_taken(name, '/');
    crate::text::law_split_is_at_last(path, '/');
    crate::text::law_split_is_at_last(name, '/');
    assert(path[dir.len() as int] == '/');
    assert(path.contains('/'));
    if let Some((head, tail)) = split_at_last(path, '/') {
        if head.len() < dir.len() {
            let k = dir.len() - head.len() - 1;
            assert(tail[k] == path[dir.len() as int]);
            assert(tail.contains('/'));
        }
        if head.len() > dir.len() {
            let k = head.len() - dir.len() - 1;
            assert(path[head.len() as int] == '/');
            assert(name[k] == path[head.len() as int]);
            assert(name.contains('/'));
        }
        assert(head =~= path.take(head.len() as int));
        assert(dir =~= path.take(dir.len() as int));
    } else {
        assert(false);
    }
    if let Some((head, tail)) = split_at_last(name, '/') {
        assert(name[head.len() as int] == '/');
        assert(name.contains('/'));
    }
}

/// A change of the namespace concerns the path that it names; a link and a renaming concern both of
/// theirs.
pub proof fn law_change_concerns_its_paths(m: VfsNamespaceMutation)
    ensures
        m matches VfsNamespaceMutation::CreateFile { path, .. } ==> mutation_paths(m).0 == path@,
        m matches VfsNamespaceMutation::CreateDirectory { path, .. } ==> mutation_paths(m).0
            == path@,
        m matches VfsNamespaceMutation::CreateSymlink { path, .. } ==> mutation_paths(m).0 == path@,
        m matches VfsNamespaceMutation::DeleteFile { path, .. } ==> mutation_paths(m).0 == path@,
        m matches VfsNamespaceMutation::RemoveDirectory { path } ==> mutation_paths(m).0 == path@,
        m matches VfsNamespaceMutation::SetMode { path, .. } ==> mutation_paths(m).0 == path@,
        m matches VfsNamespaceMutation::CreateHardLink { source_path, destination_path }
            ==> mutation_paths(m) == (source_path@, destination_path@),
        m matches VfsNamespaceMutation::Rename { from, to } ==> mutation_paths(m) == (from@, to@),
        !(m is CreateHardLink) && !(m is Rename) ==> mutation_paths(m).1.len() == 0,
{
    reveal_strlit("");
    assert(""@.len() == 0);
}

/// Every path that a change names is among the paths of the changes.
pub proof fn law_paths_of_changes_are_all_named(ms: Seq<VfsNamespaceMutation>, i: int)
    requires
        0 <= i < ms.len(),
    ensures
        mutation_paths(ms[i]).0.len() > 0 ==> named_paths(ms).contains(mutation_paths(ms[i]).0),
        mutation_paths(ms[i]).1.len() > 0 ==> named_paths(ms).contains(mutation_paths(ms[i]).1),
    decreases ms.len(),
{
    let head = ms.drop_last();
    let before = named_paths(head);
    let (a, b) = mutation_paths(ms.last());
    let all = named_paths(ms);
    if i < head.len() {
        law_paths_of_changes_are_all_named(head, i);
        assert(head[i] == ms[i]);
        assert forall|x: Seq<char>| before.contains(x) implies all.contains(x) by {
            let k = choose|k: int| 0 <= k < before.len() && before[k] == x;
            assert(all[k] == x);
        }
    } else {
        if a.len() > 0 {
            assert(all[before.len() as int] == a);
        }
        if b.len() > 0 {
            assert(all[(before.len() + nonempty(a).len()) as int] == b);
        }
    }
}

/// With each path its parent is told, right behind it.
pub proof fn law_parent_is_told_with_path(paths: Seq<Seq<char>>, i: int)
    requires
        0 <= i < paths.len(),
    ensures
        with_parents(paths).len() == 2 * paths.len(),
        with_parents(paths)[2 * i] == paths[i],
        with_parents(paths)[2 * i + 1] == parent_of(paths[i]),
    decreases paths.len(),
{
    let head = paths.drop_last();
    if head.len() > 0 {
        if i < head.len() {
            law_parent_is_told_with_path(head, i);
        } else {
            law_parent_is_told_with_path(head, 0);
        }
    } else {
        assert(with_parents(head).len() == 0);
    }
}

proof fn lemma_range_text(a: Seq<char>, b: Seq<char>)
    requires
        a.len() > 0,
        forall|i: int| 0 <= i < a.len() ==> '0' <= #[trigger] a[i] <= '9',
        forall|i: int| 0 <= i < b.len() ==> '0' <= #[trigger] b[i] <= '9',
    ensures
        ({
            let value = "bytes="@ + (a + "-"@ + b);
            &&& trimmed(value) == value
            &&& "bytes="@.is_prefix_of(value)
            &&& split_at_first(value.skip("bytes="@.len() as int), "-"@) == Some((a, b))
        }),
        b.len() > 0 ==> trimmed(b) == b,
{
    reveal_strlit("bytes=");
    reveal_strlit("-");
    let rest = a + "-"@ + b;
    let value = "bytes="@ + rest;
    assert(value[0] == 'b');
    assert(value.last() == rest.last());
    if b.len() > 0 {
        assert(rest.last() == b[b.len() - 1]);
        assert('0' <= b[0] <= '9' && '0' <= b[b.len() - 1] <= '9');
        crate::text::law_text_without_outer_white_space_stays(b);
    } else {
        assert(rest.last() == '-');
    }
    crate::text::law_text_without_outer_white_space_stays(value);
    assert("bytes="@ =~= value.take(6));
    assert(value.skip(6) =~= rest);
    crate::text::law_split_is_at_first(rest, "-"@);
    let n = a.len() as int;
    assert(rest.subrange(n, n + 1) =~= "-"@);
    assert(occurs_at(rest, "-"@, n));
    if let Some((head, tail)) = split_at_first(rest, "-"@) {
        let k = head.len() as int;
        assert(rest[k] == '-');
        if k < n {
            assert(rest[k] == a[k]);
        }
        assert(k == n);
        assert(head =~= rest.take(k));
        assert(a =~= rest.take(n));
        assert(tail =~= rest.skip(k + 1));
        assert(b =~= rest.skip(n + 1));
    }
}

/// A range names its first and its last byte: from `bytes=a-b` of a file as much is read as stands between
/// them, both counted and not beyond the end; from `bytes=a-` all to the end is.
pub proof fn law_range_names_its_bytes(a: u64, b: u64, size: u64)
    ensures
        a <= b < size ==> range_of("bytes="@ + (decimal(a as nat) + "-"@ + decimal(b as nat)), size)
            == std::result::Result::<VfsReadRange, VfsErrorView>::Ok(
            VfsReadRange { offset: a, length: (b - a + 1) as u64 },
        ),
        a < size <= b ==> range_of("bytes="@ + (decimal(a as nat) + "-"@ + decimal(b as nat)), size)
            == std::result::Result::<VfsReadRange, VfsErrorView>::Ok(
            VfsReadRange { offset: a, length: (size - a) as u64 },
        ),
        b < a ==> range_of("bytes="@ + (decimal(a as nat) + "-"@ + decimal(b as nat)), size) is Err,
        a < size ==> range_of("bytes="@ + (decimal(a as nat) + "-"@ + Seq::<char>::empty()), size)
            == std::result::Result::<VfsReadRange, VfsErrorView>::Ok(
            VfsReadRange { offset: a, length: (size - a) as u64 },
        ),
        a >= size ==> range_of(
            "bytes="@ + (decimal(a as nat) + "-"@ + Seq::<char>::empty()),
            size,
        ) == std::result::Result::<VfsReadRange, VfsErrorView>::Err(
            VfsErrorView::BadRequest(
                "range start "@ + decimal(a as nat) + " is beyond EOF "@ + decimal(size as nat),
            ),
        ),
{
    let x = decimal(a as nat);
    let y = decimal(b as nat);
    crate::numeral::law_number_is_written_in_digits(a as nat, 0);
    crate::numeral::law_number_is_written_in_digits(b as nat, 0);
    assert forall|i: int| 0 <= i < x.len() implies '0' <= #[trigger] x[i] <= '9' by {
        crate::numeral::law_number_is_written_in_digits(a as nat, i);
    }
    assert forall|i: int| 0 <= i < y.len() implies '0' <= #[trigger] y[i] <= '9' by {
        crate::numeral::law_number_is_written_in_digits(b as nat, i);
    }
    crate::numeral::law_written_number_is_read_back(a);
    crate::numeral::law_written_number_is_read_back(b);
    lemma_range_text(x, y);
    lemma_range_text(x, Seq::empty());
    assert(trimmed(Seq::<char>::empty()).len() == 0);
}

/// Names that clients and gateways agree on.
pub proof fn law_agreed_names(size: u64)
    ensures
        CHEVALIER_VFS_ROUTE_PREFIX@ == "/internal/chevalier/vfs"@,
        CHEVALIER_VFS_ENDPOINT_PATH_PREFIX@ == "/v1"@ + CHEVALIER_VFS_ROUTE_PREFIX@,
        DEFAULT_VFS_BODY_LIMIT_BYTES == 64 * 1024 * 1024,
        VFS_MODE_LIMIT == 4095,
        DEFAULT_VFS_LINK_COUNT == 1,
        size > 0 ==> last_byte(size) == size - 1,
        last_byte(0) == 0,
{
    reveal_strlit("/internal/chevalier/vfs");
    reveal_strlit("/v1");
    reveal_strlit("/v1/internal/chevalier/vfs");
    assert("/v1/internal/chevalier/vfs"@ =~= "/v1"@ + "/internal/chevalier/vfs"@);
}

/// Refusals and predicates are seen as what they are.
pub proof fn law_refusals_are_seen_as_they_are(e: VfsGatewayError, p: VfsCasPredicate)
    ensures
        e matches VfsGatewayError::NotFound(m) ==> e@ == VfsErrorView::NotFound(m@),
        e matches VfsGatewayError::BadRequest(m) ==> e@ == VfsErrorView::BadRequest(m@),
        e matches VfsGatewayError::Unauthorized(m) ==> e@ == VfsErrorView::Unauthorized(m@),
        e matches VfsGatewayError::Forbidden(m) ==> e@ == VfsErrorView::Forbidden(m@),
        e matches VfsGatewayError::Conflict(m) ==> e@ == VfsErrorView::Conflict(m@),
        e matches VfsGatewayError::Internal(m) ==> e@ == VfsErrorView::Internal(m@),
        p is Absent ==> p@ is Absent,
        p matches VfsCasPredicate::ContentFingerprint { fingerprint } ==> p@
            == PredicateView::ContentFingerprint(fingerprint@),
        predicate_view(Some(p)) == Some(p@),
        predicate_view(None) is None,
{
}

/// An outcome is seen as what it is.
pub proof fn law_vfs_outcome_is_seen_as_it_is<T>(value: T, e: VfsGatewayError)
    ensures
        vfs_outcome(Ok(value)) == std::result::Result::<T, VfsErrorView>::Ok(value),
        vfs_outcome::<T>(Err(e)) == std::result::Result::<T, VfsErrorView>::Err(e@),
{
}

/// A range that cannot be read tells why.
pub proof fn law_refused_range_tells_why(
    header: Seq<char>,
    start: Seq<char>,
    end: Seq<char>,
    size: u64,
)
    ensures
        u64_numeral(start) is None ==> range_between(header, start, end, size)
            == std::result::Result::<VfsReadRange, VfsErrorView>::Err(
            VfsErrorView::BadRequest("invalid range start: "@ + u64_parse_error(start)),
        ),
        u64_numeral(start) is Some && trimmed(end).len() > 0 && u64_numeral(end) is None
            ==> range_between(header, start, end, size) == std::result::Result::<
            VfsReadRange,
            VfsErrorView,
        >::Err(VfsErrorView::BadRequest("invalid range end: "@ + u64_parse_error(end))),
        u64_numeral(start) is Some && trimmed(end).len() > 0 && u64_numeral(end) is Some
            && u64_numeral(end)->Some_0 < u64_numeral(start)->Some_0 ==> range_between(
            header,
            start,
            end,
            size,
        ) == std::result::Result::<VfsReadRange, VfsErrorView>::Err(
            VfsErrorView::BadRequest("invalid range header: "@ + header),
        ),
        !"bytes="@.is_prefix_of(trimmed(header)) ==> range_of(header, size)
            == std::result::Result::<VfsReadRange, VfsErrorView>::Err(
            VfsErrorView::BadRequest("unsupported range header: "@ + trimmed(header)),
        ),
        "bytes="@.is_prefix_of(trimmed(header)) && !occurs(
            trimmed(header).skip("bytes="@.len() as int),
            "-"@,
        ) ==> range_of(header, size) == std::result::Result::<VfsReadRange, VfsErrorView>::Err(
            VfsErrorView::BadRequest("invalid range header: "@ + trimmed(header)),
        ),
{
    let rest = trimmed(header).skip("bytes="@.len() as int);
    crate::text::law_split_is_at_first(rest, "-"@);
    if let Some((a, b)) = split_at_first(rest, "-"@) {
        assert(rest.subrange(a.len() as int, (a.len() + "-"@.len()) as int) =~= "-"@);
        assert(occurs_at(rest, "-"@, a.len() as int));
    }
}

/// The names of headers, surfaces and operations.
pub proof fn law_names_of_headers_and_operations()
    ensures
        CHEVALIER_VFS_LEASE_MODE_HEADER@ == "x-chevalier-vfs-lease-mode"@,
        CHEVALIER_VFS_LEASE_MODE_IMPLICIT@ == "implicit"@,
        CHEVALIER_VFS_NAMESPACE_REVISION_HEADER@ == "x-chevalier-vfs-namespace-revision"@,
        VFS_SURFACE_KIND_VM_SHARED@ == "vm_shared_vfs"@,
        VFS_SURFACE_KIND_VM_WORKSPACE@ == "vm_workspace_vfs"@,
        VFS_OPERATION_WRITE_THROUGH@ == "vfs_write_through"@,
        VFS_OPERATION_SETATTR_SIZE@ == "vfs_setattr_size"@,
        VFS_OPERATION_SETATTR_MODE@ == "vfs_setattr_mode"@,
        VFS_OPERATION_MKDIR@ == "vfs_mkdir"@,
        VFS_OPERATION_UNLINK@ == "vfs_unlink"@,
        VFS_OPERATION_RMDIR@ == "vfs_rmdir"@,
        VFS_OPERATION_RENAME@ == "vfs_rename"@,
        VFS_OPERATION_LINK@ == "vfs_hard_link"@,
        VFS_OPERATION_SYMLINK@ == "vfs_symlink"@,
        VFS_OPERATION_NAMESPACE_BATCH@ == "vfs_namespace_batch"@,
        VFS_ENTRY_KIND_FILE@ == "file"@ && VFS_ENTRY_KIND_DIRECTORY@ == "directory"@
            && VFS_ENTRY_KIND_SYMLINK@ == "symlink"@,
        VFS_MODE_REFUSED@ == "vfs mode must be an integer between 0 and 0o7777"@,
{
}

} // verus!
