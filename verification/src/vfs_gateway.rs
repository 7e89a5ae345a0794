//! What a gateway does for each request, up to the calls of its backend and the answer.

use crate::exec::opt_str_view;
use crate::numeral::decimal;
use crate::numeral::to_decimal;
use crate::text::same;
use crate::text::trim;
use crate::text::trim_of;
use crate::text::trimmed;
use crate::text::trimmed_of;
use crate::text::views;
use crate::unique::holds;
use crate::vfs::mask_vfs_mode;
use crate::vfs::named_paths;
use crate::vfs::parse_vfs_range_header;
use crate::vfs::paths_of_mutations;
use crate::vfs::range_of;
use crate::vfs::vfs_outcome;
use crate::vfs::written_mode;
use crate::vfs::PredicateView;
use crate::vfs::VfsCasPredicate;
use crate::vfs::VfsErrorView;
use crate::vfs::VfsGatewayError;
use crate::vfs::VfsHardLinkRequest;
use crate::vfs::VfsHeaderAliases;
use crate::vfs::VfsLeaseAcquire;
use crate::vfs::VfsLeaseAcquireRequest;
use crate::vfs::VfsListDirOptions;
use crate::vfs::VfsMetadata;
use crate::vfs::VfsNamespaceMutation;
use crate::vfs::VfsNamespaceMutationBatchRequest;
use crate::vfs::VfsNamespaceMutationRequest;
use crate::vfs::VfsPublicationSnapshotEntry;
use crate::vfs::VfsReadRange;
use crate::vfs::VfsRenameRequest;
use crate::vfs::VfsResult;
use crate::vfs::VfsSymlinkRequest;
use crate::vfs::VfsWriteHeaders;
use crate::vfs::VfsWriteManyItem;
use crate::vfs::VfsWritePrecondition;
use crate::vfs::VfsWriteRequest;
use crate::vfs::VfsWriteScope;
use crate::vfs::VFS_COMPONENT_VM_RUNTIME;
use crate::vfs::VFS_ENTRY_KIND_FILE;
use crate::vfs_headers::find_header;
use crate::vfs_headers::header_text;
use crate::vfs_headers::parse_write_headers;
use crate::vfs_headers::parse_write_precondition_headers;
use crate::vfs_headers::precondition_in;
use crate::vfs_headers::resource_key_error;
use crate::vfs_headers::validate_declared_resource_key;
use crate::vfs_headers::value_or_alias;
use crate::vfs_headers::write_headers_in;
use crate::vfs_headers::HeadersView;
use crate::vfs_headers::PreconditionView;
use crate::vfs_headers::RequestHeader;
use crate::vm::opt_view;
use crate::wire::random_uuid_number;
use vstd::prelude::*;

verus! {

// ---------------------------------------------------------------------------
// Routes
// ---------------------------------------------------------------------------
/// The normal form of the prefix of routes.
pub open spec fn route_prefix(prefix: Seq<char>) -> Seq<char> {
    let given = if trimmed(prefix).len() == 0 {
        "/"@
    } else {
        trimmed(prefix)
    };
    "/"@ + trimmed_of(given, '/')
}

/// The normal form of the prefix of routes.
pub fn normalize_route_prefix(prefix: &str) -> (r: String)
    ensures
        r@ == route_prefix(prefix@),
{
    let given = trim(prefix);
    let given = if given.as_str().is_empty() {
        "/".to_owned()
    } else {
        given
    };
    let bare = trim_of(&given, '/');
    "/".to_owned().concat(&bare)
}

/// What a gateway serves for an owner.
#[derive(Clone, Copy, Debug, PartialEq, Eq, Structural)]
pub enum VfsRoute {
    Tree,
    FileRaw,
    Stat,
    Watch,
    MetadataMany,
    ReadMany,
    SubtreeMetadata,
    PrefetchSubtree,
    WriteMany,
    NamespaceMany,
    File,
    Dir,
    Symlink,
    HardLink,
    HardLinkAlias,
    Rename,
    Lease,
}

/// The last part of a route.
pub open spec fn route_name(route: VfsRoute) -> Seq<char> {
    match route {
        VfsRoute::Tree => "tree"@,
        VfsRoute::FileRaw => "file/raw"@,
        VfsRoute::Stat => "stat"@,
        VfsRoute::Watch => "watch"@,
        VfsRoute::MetadataMany => "metadata-many"@,
        VfsRoute::ReadMany => "read-many"@,
        VfsRoute::SubtreeMetadata => "subtree-metadata"@,
        VfsRoute::PrefetchSubtree => "prefetch-subtree"@,
        VfsRoute::WriteMany => "write-many"@,
        VfsRoute::NamespaceMany => "namespace-many"@,
        VfsRoute::File => "file"@,
        VfsRoute::Dir => "dir"@,
        VfsRoute::Symlink => "symlink"@,
        VfsRoute::HardLink => "hard-link/v1"@,
        VfsRoute::HardLinkAlias => "hard-link-alias/v1"@,
        VfsRoute::Rename => "rename"@,
        VfsRoute::Lease => "lease"@,
    }
}

fn name_of_route(route: VfsRoute) -> (name: &'static str)
    ensures
        name@ == route_name(route),
{
    match route {
        VfsRoute::Tree => "tree",
        VfsRoute::FileRaw => "file/raw",
        VfsRoute::Stat => "stat",
        VfsRoute::Watch => "watch",
        VfsRoute::MetadataMany => "metadata-many",
        VfsRoute::ReadMany => "read-many",
        VfsRoute::SubtreeMetadata => "subtree-metadata",
        VfsRoute::PrefetchSubtree => "prefetch-subtree",
        VfsRoute::WriteMany => "write-many",
        VfsRoute::NamespaceMany => "namespace-many",
        VfsRoute::File => "file",
        VfsRoute::Dir => "dir",
        VfsRoute::Symlink => "symlink",
        VfsRoute::HardLink => "hard-link/v1",
        VfsRoute::HardLinkAlias => "hard-link-alias/v1",
        VfsRoute::Rename => "rename",
        VfsRoute::Lease => "lease",
    }
}

/// The pattern of a route below a prefix. Every route names an owner.
pub fn vfs_route(owner_route_prefix: &str, route: VfsRoute) -> (pattern: String)
    ensures
        pattern@ == route_prefix(owner_route_prefix@) + "/{owner_id}/"@ + route_name(route),
{
    let name = name_of_route(route);
    normalize_route_prefix(owner_route_prefix).concat("/{owner_id}/").concat(name)
}

// ---------------------------------------------------------------------------
// Parameters
// ---------------------------------------------------------------------------
/// A path that must be there.
pub open spec fn required(path: Option<Seq<char>>) -> std::result::Result<Seq<char>, VfsErrorView> {
    match path {
        Some(p) => if trimmed(p).len() > 0 {
            Ok(trimmed(p))
        } else {
            Err(VfsErrorView::BadRequest("missing path"@))
        },
        None => Err(VfsErrorView::BadRequest("missing path"@)),
    }
}

/// A result that holds a text, with its parts as views.
pub open spec fn text_outcome(r: VfsResult<String>) -> std::result::Result<
    Seq<char>,
    VfsErrorView,
> {
    match r {
        Ok(s) => Ok(s@),
        Err(e) => Err(e@),
    }
}

/// A path that must be there.
pub fn required_path(path: Option<&str>) -> (r: VfsResult<String>)
    ensures
        text_outcome(r) == required(opt_str_view(path)),
{
    match path {
        Some(p) => {
            let p = trim(p);
            if p.as_str().is_empty() {
                Err(VfsGatewayError::BadRequest("missing path".to_owned()))
            } else {
                Ok(p)
            }
        },
        None => Err(VfsGatewayError::BadRequest("missing path".to_owned())),
    }
}

/// Checks that a symbolic link has a target.
pub fn check_symlink_target(target: &str) -> (r: VfsResult<()>)
    ensures
        match r {
            Ok(_) => target@.len() > 0,
            Err(e) => target@.len() == 0 && e@ == VfsErrorView::BadRequest(
                "symlink target is required"@,
            ),
        },
{
    if target.is_empty() {
        Err(VfsGatewayError::BadRequest("symlink target is required".to_owned()))
    } else {
        Ok(())
    }
}

/// Checks that a search for another name of a file names the file.
pub fn check_alias_file_id(file_id: &str) -> (r: VfsResult<()>)
    ensures
        match r {
            Ok(_) => trimmed(file_id@).len() > 0,
            Err(e) => trimmed(file_id@).len() == 0 && e@ == VfsErrorView::BadRequest(
                "hard-link alias resolution requires file_id"@,
            ),
        },
{
    if trim(file_id).as_str().is_empty() {
        Err(
            VfsGatewayError::BadRequest("hard-link alias resolution requires file_id".to_owned()),
        )
    } else {
        Ok(())
    }
}

/// The parameters of a listing.
#[derive(Debug)]
pub struct TreeQuery {
    pub path: Option<String>,
    pub name_like: Option<String>,
    pub name_not_like: Option<String>,
    pub entry_kind: Option<String>,
    pub limit: Option<i64>,
    pub order: Option<String>,
    pub max_hash_bytes: Option<u64>,
}

impl TreeQuery {
    /// What is listed, and in which order.
    pub fn options(&self) -> (options: VfsListDirOptions)
        ensures
            opt_view(options.name_like) == opt_view(self.name_like),
            opt_view(options.name_not_like) == opt_view(self.name_not_like),
            opt_view(options.entry_kind) == opt_view(self.entry_kind),
            options.limit == self.limit,
            opt_view(options.order) == opt_view(self.order),
            options.max_hash_bytes == self.max_hash_bytes,
    {
        VfsListDirOptions {
            name_like: self.name_like.clone(),
            name_not_like: self.name_not_like.clone(),
            entry_kind: self.entry_kind.clone(),
            limit: self.limit,
            order: self.order.clone(),
            max_hash_bytes: self.max_hash_bytes,
        }
    }
}

// ---------------------------------------------------------------------------
// What a backend does not offer
// ---------------------------------------------------------------------------
/// Something that a backend need not offer.
#[derive(Clone, Copy, Debug, PartialEq, Eq, Structural)]
pub enum OptionalOperation {
    SubtreeMetadata,
    WriteMany,
    SetMode,
    CreateSymlink,
    CreateHardLink,
    FindHardLinkAlias,
}

/// The error of a backend that does not offer an operation.
pub fn not_offered(operation: OptionalOperation) -> (e: VfsGatewayError)
    ensures
        e@ == VfsErrorView::BadRequest(
            match operation {
                OptionalOperation::SubtreeMetadata =>
                    "gateway backend does not support subtree metadata"@,
                OptionalOperation::WriteMany =>
                    "gateway backend does not support atomic write_many"@,
                OptionalOperation::SetMode =>
                    "gateway backend does not support exact mode changes"@,
                OptionalOperation::CreateSymlink =>
                    "gateway backend does not support symlink creation"@,
                OptionalOperation::CreateHardLink =>
                    "gateway backend does not support hard-link creation"@,
                OptionalOperation::FindHardLinkAlias =>
                    "gateway backend does not support hard-link alias resolution"@,
            },
        ),
{
    VfsGatewayError::BadRequest(
        match operation {
            OptionalOperation::SubtreeMetadata =>
                "gateway backend does not support subtree metadata".to_owned(),
            OptionalOperation::WriteMany =>
                "gateway backend does not support atomic write_many".to_owned(),
            OptionalOperation::SetMode =>
                "gateway backend does not support exact mode changes".to_owned(),
            OptionalOperation::CreateSymlink =>
                "gateway backend does not support symlink creation".to_owned(),
            OptionalOperation::CreateHardLink =>
                "gateway backend does not support hard-link creation".to_owned(),
            OptionalOperation::FindHardLinkAlias =>
                "gateway backend does not support hard-link alias resolution".to_owned(),
        },
    )
}

/// The message about a change that reaches beyond its scope, where a backend has none of its own.
pub const CROSS_SCOPE_MESSAGE: &'static str =
    "cross-scope rename is not supported for this vfs mount";

/// One of many lookups: what is not there is an entry of its own, and every other error ends them
/// all.
pub fn many_entry<T>(looked_up: VfsResult<T>) -> (entry: VfsResult<Option<T>>)
    ensures
        entry == (match looked_up {
            Ok(value) => VfsResult::<Option<T>>::Ok(Some(value)),
            Err(VfsGatewayError::NotFound(_)) => VfsResult::<Option<T>>::Ok(None),
            Err(e) => VfsResult::<Option<T>>::Err(e),
        }),
{
    match looked_up {
        Ok(value) => Ok(Some(value)),
        Err(VfsGatewayError::NotFound(_)) => Ok(None),
        Err(e) => Err(e),
    }
}

/// How a change is answered.
#[derive(Clone, Copy, Debug, PartialEq, Eq, Structural)]
pub enum MutationAnswer {
    /// With what is known of the paths that it touched.
    Metadata,
    /// With nothing.
    NoContent,
}

/// How a change is answered: with metadata only where the caller asks for it.
pub fn mutation_answer(return_metadata: Option<bool>) -> (answer: MutationAnswer)
    ensures
        answer == (if return_metadata == Some(true) {
            MutationAnswer::Metadata
        } else {
            MutationAnswer::NoContent
        }),
{
    match return_metadata {
        Some(true) => MutationAnswer::Metadata,
        _ => MutationAnswer::NoContent,
    }
}

impl MutationAnswer {
    /// The HTTP status of the answer.
    pub fn status(self) -> (status: u16)
        ensures
            status == (match self {
                MutationAnswer::Metadata => 200u16,
                MutationAnswer::NoContent => 204u16,
            }),
    {
        match self {
            MutationAnswer::Metadata => 200,
            MutationAnswer::NoContent => 204,
        }
    }
}

// ---------------------------------------------------------------------------
// Scopes
// ---------------------------------------------------------------------------
/// A scope, with texts as sequences.
pub struct ScopeView {
    pub resource_key: Seq<char>,
    pub default_surface_kind: Seq<char>,
    pub task_id: Option<u128>,
}

impl View for VfsWriteScope {
    type V = ScopeView;

    open spec fn view(&self) -> ScopeView {
        ScopeView {
            resource_key: self.resource_key@,
            default_surface_kind: self.default_surface_kind@,
            task_id: self.task_id,
        }
    }
}

impl VfsWriteScope {
    /// The same scope once more.
    pub fn copy(&self) -> (s: VfsWriteScope)
        ensures
            s@ == self@,
    {
        VfsWriteScope {
            resource_key: self.resource_key.clone(),
            default_surface_kind: self.default_surface_kind.clone(),
            task_id: self.task_id,
        }
    }
}

/// A walk over the paths of a change, which must all fall under one resource key: the backend
/// derives the scope of each, and the first is the scope of the change.
#[derive(Debug)]
pub struct ScopeWalk {
    paths: Vec<String>,
    trimmed: bool,
    at: usize,
    first: Option<VfsWriteScope>,
}

/// How far a walk has got.
pub struct WalkView {
    pub paths: Seq<Seq<char>>,
    /// The paths are trimmed, and must not be blank.
    pub trimmed: bool,
    pub at: nat,
    pub first: Option<ScopeView>,
}

impl View for ScopeWalk {
    type V = WalkView;

    closed spec fn view(&self) -> WalkView {
        WalkView {
            paths: views(self.paths@),
            trimmed: self.trimmed,
            at: self.at as nat,
            first: match self.first {
                Some(s) => Some(s@),
                None => None,
            },
        }
    }
}

impl WalkView {
    /// There is a scope once the first path is behind.
    pub open spec fn wf(self) -> bool {
        &&& self.at <= self.paths.len()
        &&& self.first is Some <==> self.at > 0
    }
}

/// What is asked of the backend next.
pub open spec fn next_question(walk: WalkView) -> std::result::Result<
    Option<Seq<char>>,
    VfsErrorView,
> {
    if walk.at >= walk.paths.len() {
        Ok(None)
    } else if walk.trimmed {
        match required(Some(walk.paths[walk.at as int])) {
            Ok(path) => Ok(Some(path)),
            Err(e) => Err(e),
        }
    } else {
        Ok(Some(walk.paths[walk.at as int]))
    }
}

/// The walk after the scope of a path has been derived.
pub open spec fn after_scope(walk: WalkView, scope: ScopeView, message: Seq<char>) -> std::result::Result<
    WalkView,
    VfsErrorView,
> {
    match walk.first {
        None => Ok(WalkView { at: walk.at + 1, first: Some(scope), ..walk }),
        Some(first) => if scope.resource_key == first.resource_key {
            Ok(WalkView { at: walk.at + 1, ..walk })
        } else {
            Err(VfsErrorView::Conflict(message))
        },
    }
}

/// The walk after the scopes of several paths have been derived.
pub open spec fn walked(walk: WalkView, scopes: Seq<ScopeView>, message: Seq<char>) -> std::result::Result<
    WalkView,
    VfsErrorView,
>
    decreases scopes.len(),
{
    if scopes.len() == 0 {
        Ok(walk)
    } else {
        match walked(walk, scopes.drop_last(), message) {
            Ok(w) => after_scope(w, scopes.last(), message),
            Err(e) => Err(e),
        }
    }
}

/// A walk that comes through has met one resource key only: that of its scope.
pub proof fn law_walk_has_one_key(walk: WalkView, scopes: Seq<ScopeView>, message: Seq<char>)
    requires
        walk.first is None,
    ensures
        match walked(walk, scopes, message) {
            Ok(w) => {
                &&& w.first is Some <==> scopes.len() > 0
                &&& scopes.len() > 0 ==> w.first == Some(scopes[0])
                &&& forall|i: int|
                    0 <= i < scopes.len() ==> (#[trigger] scopes[i]).resource_key
                        == scopes[0].resource_key
            },
            Err(e) => e == VfsErrorView::Conflict(message) && exists|i: int|
                0 <= i < scopes.len() && (#[trigger] scopes[i]).resource_key
                    != scopes[0].resource_key,
        },
    decreases scopes.len(),
{
    if scopes.len() > 0 {
        let head = scopes.drop_last();
        law_walk_has_one_key(walk, head, message);
        assert(forall|i: int| 0 <= i < head.len() ==> head[i] == scopes[i]);
        match walked(walk, head, message) {
            Ok(w) => {
                if walked(walk, scopes, message) is Err {
                    assert(scopes[scopes.len() - 1].resource_key != scopes[0].resource_key);
                }
            },
            Err(e) => {
                let i = choose|i: int|
                    0 <= i < head.len() && (#[trigger] head[i]).resource_key
                        != head[0].resource_key;
                assert(scopes[i].resource_key != scopes[0].resource_key);
            },
        }
    }
}

/// A result that may hold a text, with its parts as views.
pub open spec fn opt_text_outcome(r: VfsResult<Option<String>>) -> std::result::Result<
    Option<Seq<char>>,
    VfsErrorView,
> {
    match r {
        Ok(s) => Ok(opt_view(s)),
        Err(e) => Err(e@),
    }
}

impl ScopeWalk {
    /// A walk over paths. Where they are to be trimmed, a blank one is an error.
    pub fn new(paths: Vec<String>, trimmed: bool) -> (walk: ScopeWalk)
        ensures
            walk@ == (WalkView { paths: views(paths@), trimmed, at: 0, first: None }),
            walk@.wf(),
    {
        ScopeWalk { paths, trimmed, at: 0, first: None }
    }

    /// The path whose scope the backend derives next; none where the walk is over.
    pub fn question(&self) -> (r: VfsResult<Option<String>>)
        requires
            self@.wf(),
        ensures
            opt_text_outcome(r) == next_question(self@),
    {
        if self.at >= self.paths.len() {
            return Ok(None);
        }
        if self.trimmed {
            match required_path(Some(self.paths[self.at].as_str())) {
                Ok(path) => Ok(Some(path)),
                Err(e) => Err(e),
            }
        } else {
            Ok(Some(self.paths[self.at].clone()))
        }
    }

    /// Takes the scope that the backend derived.
    pub fn answer(&mut self, scope: VfsWriteScope, cross_scope_message: &str) -> (r: VfsResult<()>)
        requires
            old(self)@.wf(),
            old(self)@.at < old(self)@.paths.len(),
        ensures
            match r {
                Ok(_) => final(self)@.wf() && after_scope(
                    old(self)@,
                    scope@,
                    cross_scope_message@,
                ) == std::result::Result::<WalkView, VfsErrorView>::Ok(final(self)@),
                Err(e) => final(self)@ == old(self)@ && after_scope(
                    old(self)@,
                    scope@,
                    cross_scope_message@,
                ) == std::result::Result::<WalkView, VfsErrorView>::Err(e@),
            },
    {
        let agrees: bool = match &self.first {
            Some(first) => same(&scope.resource_key, &first.resource_key),
            None => true,
        };
        if !agrees {
            return Err(VfsGatewayError::Conflict(cross_scope_message.to_owned()));
        }
        if self.first.is_none() {
            self.first = Some(scope);
        }
        assert(self.at < self.paths.len());
        self.at += 1;
        Ok(())
    }

    /// The scope of the change, once the walk is over.
    pub fn scope(self) -> (scope: Option<VfsWriteScope>)
        ensures
            match scope {
                Some(s) => self@.first == Some(s@),
                None => self@.first is None,
            },
    {
        self.first
    }
}

// ---------------------------------------------------------------------------
// Changes of one path or two
// ---------------------------------------------------------------------------
/// What the request for a change says beyond its paths.
#[derive(Debug)]
pub struct ChangeParts {
    pub headers: VfsWriteHeaders,
    pub precondition: Option<VfsWritePrecondition>,
}

/// An optional precondition, with texts as sequences.
pub open spec fn opt_precondition(p: Option<VfsWritePrecondition>) -> Option<PreconditionView> {
    match p {
        Some(p) => Some(p@),
        None => None,
    }
}

/// The error of the headers of a change; what comes first is refused first.
pub open spec fn headers_error(
    headers: Seq<RequestHeader>,
    aliases: VfsHeaderAliases,
    scope: ScopeView,
    default_operation: Seq<char>,
) -> Option<VfsErrorView> {
    match write_headers_in(headers, aliases, scope.default_surface_kind, default_operation) {
        Err(e) => Some(e),
        Ok(_) => resource_key_error(
            value_or_alias(
                headers,
                crate::vfs::CHEVALIER_VFS_RESOURCE_KEY_HEADER@,
                views(aliases.resource_key@),
            ),
            scope.resource_key,
        ),
    }
}

/// The headers of a change, which must declare the key of its scope.
pub fn change_headers(
    headers: &Vec<RequestHeader>,
    aliases: &VfsHeaderAliases,
    scope: &VfsWriteScope,
    default_operation: &str,
) -> (r: VfsResult<VfsWriteHeaders>)
    ensures
        match r {
            Ok(h) => headers_error(headers@, *aliases, scope@, default_operation@) is None
                && write_headers_in(
                headers@,
                *aliases,
                scope@.default_surface_kind,
                default_operation@,
            ) == std::result::Result::<HeadersView, VfsErrorView>::Ok(h@),
            Err(e) => headers_error(headers@, *aliases, scope@, default_operation@) == Some(e@),
        },
{
    let parsed = match parse_write_headers(
        headers,
        aliases,
        &scope.default_surface_kind,
        default_operation,
    ) {
        Ok(h) => h,
        Err(e) => return Err(e),
    };
    match validate_declared_resource_key(headers, aliases, &scope.resource_key) {
        Ok(_) => Ok(parsed),
        Err(e) => Err(e),
    }
}

/// The headers and the precondition of a change.
pub fn change_parts(
    headers: &Vec<RequestHeader>,
    aliases: &VfsHeaderAliases,
    scope: &VfsWriteScope,
    default_operation: &str,
) -> (r: VfsResult<ChangeParts>)
    ensures
        match r {
            Ok(parts) => {
                &&& headers_error(headers@, *aliases, scope@, default_operation@) is None
                &&& write_headers_in(
                    headers@,
                    *aliases,
                    scope@.default_surface_kind,
                    default_operation@,
                ) == std::result::Result::<HeadersView, VfsErrorView>::Ok(parts.headers@)
                &&& precondition_in(headers@) == std::result::Result::<
                    Option<PreconditionView>,
                    VfsErrorView,
                >::Ok(opt_precondition(parts.precondition))
            },
            Err(e) => match headers_error(headers@, *aliases, scope@, default_operation@) {
                Some(first) => e@ == first,
                None => precondition_in(headers@) == std::result::Result::<
                    Option<PreconditionView>,
                    VfsErrorView,
                >::Err(e@),
            },
        },
{
    let parsed = match change_headers(headers, aliases, scope, default_operation) {
        Ok(h) => h,
        Err(e) => return Err(e),
    };
    match parse_write_precondition_headers(headers) {
        Ok(precondition) => Ok(ChangeParts { headers: parsed, precondition }),
        Err(e) => Err(e),
    }
}

/// The request that writes a file.
pub fn write_file_request(
    owner_id: String,
    path: String,
    body: Vec<u8>,
    scope: VfsWriteScope,
    parts: ChangeParts,
) -> (request: VfsWriteRequest)
    ensures
        request == (VfsWriteRequest {
            owner_id,
            path,
            body,
            headers: parts.headers,
            scope,
            precondition: parts.precondition,
        }),
{
    VfsWriteRequest {
        owner_id,
        path,
        body,
        headers: parts.headers,
        scope,
        precondition: parts.precondition,
    }
}

/// The request that changes one name of the namespace.
pub fn namespace_mutation_request(
    owner_id: String,
    path: String,
    scope: VfsWriteScope,
    parts: ChangeParts,
) -> (request: VfsNamespaceMutationRequest)
    ensures
        request == (VfsNamespaceMutationRequest {
            owner_id,
            path,
            headers: parts.headers,
            scope,
            precondition: parts.precondition,
        }),
{
    VfsNamespaceMutationRequest {
        owner_id,
        path,
        headers: parts.headers,
        scope,
        precondition: parts.precondition,
    }
}

// ---------------------------------------------------------------------------
// Changes of many paths
// ---------------------------------------------------------------------------
/// The paths of writes.
pub open spec fn write_paths(writes: Seq<VfsWriteManyItem>) -> Seq<Seq<char>> {
    writes.map_values(|w: VfsWriteManyItem| w.path@)
}

/// The paths that writes are about to affect.
pub fn paths_of_writes(writes: &Vec<VfsWriteManyItem>) -> (paths: Vec<String>)
    ensures
        views(paths@) == write_paths(writes@),
{
    let ghost all = write_paths(writes@);
    let mut paths: Vec<String> = Vec::new();
    let mut i: usize = 0;
    assert(views(paths@) =~= all.take(0));
    while i < writes.len()
        invariant
            i <= writes@.len(),
            all == write_paths(writes@),
            views(paths@) == all.take(i as int),
        decreases writes@.len() - i,
    {
        let ghost before = views(paths@);
        paths.push(writes[i].path.clone());
        assert(views(paths@) =~= before.push(all[i as int]));
        assert(all.take(i + 1) =~= all.take(i as int).push(all[i as int]));
        i += 1;
    }
    assert(all.take(all.len() as int) =~= all);
    paths
}

/// How writes are begun: without any, nothing is published; else their scopes are derived first.
pub fn plan_write_many(writes: &Vec<VfsWriteManyItem>) -> (walk: Option<ScopeWalk>)
    ensures
        match walk {
            Some(w) => writes@.len() > 0 && w@.wf() && w@ == (WalkView {
                paths: write_paths(writes@),
                trimmed: true,
                at: 0,
                first: None,
            }),
            None => writes@.len() == 0,
        },
{
    if writes.len() == 0 {
        None
    } else {
        Some(ScopeWalk::new(paths_of_writes(writes), true))
    }
}

/// The most mutations that are made together.
pub const NAMESPACE_BATCH_LIMIT: usize = 4096;

/// The ids are not blank, and none occurs twice.
pub open spec fn are_operation_ids(ids: Seq<Seq<char>>) -> bool {
    &&& ids.no_duplicates()
    &&& forall|i: int| 0 <= i < ids.len() ==> trimmed(#[trigger] ids[i]).len() > 0
}

fn check_operation_ids(ids: &Vec<String>) -> (fine: bool)
    ensures
        fine == are_operation_ids(views(ids@)),
{
    let ghost all = views(ids@);
    let mut seen: Vec<String> = Vec::new();
    let mut i: usize = 0;
    assert(views(seen@) =~= all.take(0));
    while i < ids.len()
        invariant
            i <= ids@.len(),
            all == views(ids@),
            views(seen@) == all.take(i as int),
            are_operation_ids(all.take(i as int)),
        decreases ids@.len() - i,
    {
        let ghost before = all.take(i as int);
        let ghost more = all.take(i + 1);
        assert(more =~= before.push(all[i as int]));
        if trim(&ids[i]).as_str().is_empty() {
            assert(trimmed(all[i as int]).len() == 0);
            return false;
        }
        if holds(&seen, &ids[i]) {
            proof {
                let k = choose|k: int| 0 <= k < before.len() && before[k] == all[i as int];
                assert(all[k] == all[i as int]);
            }
            return false;
        }
        proof {
            assert forall|a: int, b: int|
                0 <= a < more.len() && 0 <= b < more.len() && a != b implies more[a] != more[b] by {
                if a == i {
                    assert(before.contains(before[b]));
                } else if b == i {
                    assert(before.contains(before[a]));
                } else {
                    assert(before[a] == more[a] && before[b] == more[b]);
                }
            }
            assert forall|a: int| 0 <= a < more.len() implies trimmed(#[trigger] more[a]).len()
                > 0 by {
                if a < i {
                    assert(before[a] == more[a]);
                }
            }
        }
        let ghost seen_before = views(seen@);
        seen.push(ids[i].clone());
        assert(views(seen@) =~= seen_before.push(all[i as int]));
        i += 1;
    }
    assert(all.take(all.len() as int) =~= all);
    true
}

/// The first path that a mutation names.
pub open spec fn first_named(m: VfsNamespaceMutation) -> Option<Seq<char>> {
    let (a, b) = crate::vfs::mutation_paths(m);
    if a.len() > 0 {
        Some(a)
    } else if b.len() > 0 {
        Some(b)
    } else {
        None
    }
}

/// The error of mutations that are to be made together.
pub open spec fn batch_error(ids: Seq<Seq<char>>, mutations: Seq<VfsNamespaceMutation>) -> Option<
    VfsErrorView,
> {
    if ids.len() != mutations.len() {
        Some(
            VfsErrorView::BadRequest("namespace-many requires one operation_id per mutation"@),
        )
    } else if !are_operation_ids(ids) {
        Some(
            VfsErrorView::BadRequest("namespace-many operation_ids must be non-empty and unique"@),
        )
    } else if mutations.len() > NAMESPACE_BATCH_LIMIT {
        Some(VfsErrorView::BadRequest("namespace-many accepts at most 4096 mutations"@))
    } else if mutations.len() > 0 && first_named(mutations[0]) is None {
        Some(VfsErrorView::BadRequest("namespace mutation has no path"@))
    } else {
        None
    }
}

/// How mutations that are made together are begun: without any, nothing is published; else the
/// scopes of all their paths are derived first, the one of the first path before all.
pub fn plan_namespace_many(
    operation_ids: &Vec<String>,
    mutations: &Vec<VfsNamespaceMutation>,
) -> (r: VfsResult<Option<ScopeWalk>>)
    ensures
        match r {
            Ok(walk) => {
                &&& batch_error(views(operation_ids@), mutations@) is None
                &&& match walk {
                    Some(w) => mutations@.len() > 0 && w@.wf() && w@ == (WalkView {
                        paths: seq![first_named(mutations@[0])->Some_0] + named_paths(mutations@),
                        trimmed: false,
                        at: 0,
                        first: None,
                    }),
                    None => mutations@.len() == 0,
                }
            },
            Err(e) => batch_error(views(operation_ids@), mutations@) == Some(e@),
        },
{
    if operation_ids.len() != mutations.len() {
        return Err(
            VfsGatewayError::BadRequest(
                "namespace-many requires one operation_id per mutation".to_owned(),
            ),
        );
    }
    if !check_operation_ids(operation_ids) {
        return Err(
            VfsGatewayError::BadRequest(
                "namespace-many operation_ids must be non-empty and unique".to_owned(),
            ),
        );
    }
    if mutations.len() == 0 {
        return Ok(None);
    }
    if mutations.len() > NAMESPACE_BATCH_LIMIT {
        return Err(
            VfsGatewayError::BadRequest("namespace-many accepts at most 4096 mutations".to_owned()),
        );
    }
    let named = mutations[0].paths();
    let first: &str = if !named[0].is_empty() {
        named[0]
    } else if !named[1].is_empty() {
        named[1]
    } else {
        return Err(VfsGatewayError::BadRequest("namespace mutation has no path".to_owned()));
    };
    let mut paths: Vec<String> = Vec::new();
    paths.push(first.to_owned());
    let mut rest = paths_of_mutations(mutations);
    let ghost tail = rest@;
    paths.append(&mut rest);
    assert(views(paths@) =~= seq![first@] + views(tail));
    Ok(Some(ScopeWalk::new(paths, false)))
}

/// What a backend is asked to do.
#[derive(Debug)]
pub enum VfsBackendCall {
    WriteFile(VfsWriteRequest),
    Mkdir(VfsNamespaceMutationRequest),
    CreateSymlink(VfsSymlinkRequest),
    CreateHardLink(VfsHardLinkRequest),
    DeleteFile(VfsNamespaceMutationRequest),
    Rmdir(VfsNamespaceMutationRequest),
    Rename(VfsRenameRequest),
    SetMode(VfsNamespaceMutationRequest),
}

/// Headers with another mode.
pub open spec fn with_mode(headers: HeadersView, mode: Option<u32>) -> HeadersView {
    HeadersView { mode, ..headers }
}

/// The headers with the mode of a mutation, where it names one.
pub open spec fn with_own_mode(headers: HeadersView, mode: Option<u32>) -> HeadersView {
    match mode {
        Some(m) => with_mode(headers, Some(written_mode(m))),
        None => headers,
    }
}

/// The precondition that there be no file.
pub open spec fn is_absent_precondition(p: Option<VfsWritePrecondition>) -> bool {
    opt_precondition(p) == Some(
        PreconditionView {
            predicate: Some(PredicateView::Absent),
            fingerprint: None,
            secondary_fingerprint: None,
            expected_file_id: None,
        },
    )
}

/// The request changes a name of the namespace of an owner.
pub open spec fn is_request_for(
    request: VfsNamespaceMutationRequest,
    owner_id: Seq<char>,
    path: Seq<char>,
    headers: HeadersView,
    scope: ScopeView,
    precondition: Option<PreconditionView>,
) -> bool {
    &&& request.owner_id@ == owner_id
    &&& request.path@ == path
    &&& request.headers@ == headers
    &&& request.scope@ == scope
    &&& opt_precondition(request.precondition) == precondition
}

/// The call makes a mutation.
pub open spec fn is_call_for(
    call: VfsBackendCall,
    mutation: VfsNamespaceMutation,
    owner_id: Seq<char>,
    headers: HeadersView,
    scope: ScopeView,
) -> bool {
    match mutation {
        VfsNamespaceMutation::CreateFile { path, mode } => call matches VfsBackendCall::WriteFile(
            r,
        ) && r.owner_id@ == owner_id && r.path@ == path@ && r.body@.len() == 0 && r.headers@
            == with_own_mode(headers, mode) && r.scope@ == scope && is_absent_precondition(
            r.precondition,
        ),
        VfsNamespaceMutation::CreateDirectory { path, mode } => call matches VfsBackendCall::Mkdir(
            r,
        ) && is_request_for(r, owner_id, path@, with_own_mode(headers, mode), scope, None),
        VfsNamespaceMutation::CreateSymlink {
            path,
            target,
        } => call matches VfsBackendCall::CreateSymlink(r) && r.owner_id@ == owner_id && r.path@
            == path@ && r.target@ == target@ && r.headers@ == headers && r.scope@ == scope,
        VfsNamespaceMutation::CreateHardLink {
            source_path,
            destination_path,
        } => call matches VfsBackendCall::CreateHardLink(r) && r.owner_id@ == owner_id
            && r.source_path@ == source_path@ && r.destination_path@ == destination_path@
            && r.headers@ == headers && r.scope@ == scope,
        VfsNamespaceMutation::DeleteFile {
            path,
            precondition,
        } => call matches VfsBackendCall::DeleteFile(r) && is_request_for(
            r,
            owner_id,
            path@,
            headers,
            scope,
            opt_precondition(precondition),
        ),
        VfsNamespaceMutation::RemoveDirectory { path } => call matches VfsBackendCall::Rmdir(r)
            && is_request_for(r, owner_id, path@, headers, scope, None),
        VfsNamespaceMutation::Rename { from, to } => call matches VfsBackendCall::Rename(r)
            && r.owner_id@ == owner_id && r.from@ == from@ && r.to@ == to@ && r.headers@ == headers
            && r.scope@ == scope,
        VfsNamespaceMutation::SetMode { path, mode } => call matches VfsBackendCall::SetMode(r)
            && is_request_for(
            r,
            owner_id,
            path@,
            with_mode(headers, Some(written_mode(mode))),
            scope,
            None,
        ),
    }
}

fn copy_precondition(p: &Option<VfsWritePrecondition>) -> (copy: Option<VfsWritePrecondition>)
    ensures
        opt_precondition(copy) == opt_precondition(*p),
{
    match p {
        Some(p) => Some(
            VfsWritePrecondition {
                predicate: match &p.predicate {
                    Some(predicate) => Some(predicate.copy()),
                    None => None,
                },
                fingerprint: p.fingerprint.clone(),
                secondary_fingerprint: p.secondary_fingerprint.clone(),
                expected_file_id: p.expected_file_id.clone(),
            },
        ),
        None => None,
    }
}

fn plain_request(
    owner_id: &str,
    path: &str,
    headers: VfsWriteHeaders,
    scope: &VfsWriteScope,
    precondition: Option<VfsWritePrecondition>,
) -> (request: VfsNamespaceMutationRequest)
    ensures
        is_request_for(
            request,
            owner_id@,
            path@,
            headers@,
            scope@,
            opt_precondition(precondition),
        ),
{
    VfsNamespaceMutationRequest {
        owner_id: owner_id.to_owned(),
        path: path.to_owned(),
        headers,
        scope: scope.copy(),
        precondition,
    }
}

fn headers_with_own_mode(headers: &VfsWriteHeaders, mode: Option<u32>) -> (h: VfsWriteHeaders)
    ensures
        h@ == with_own_mode(headers@, mode),
{
    let mut copy = headers.copy();
    match mode {
        Some(m) => {
            copy.mode = Some(mask_vfs_mode(m));
        },
        None => {},
    }
    copy
}

/// The call that makes a mutation.
pub fn backend_call(
    mutation: &VfsNamespaceMutation,
    owner_id: &str,
    headers: &VfsWriteHeaders,
    scope: &VfsWriteScope,
) -> (call: VfsBackendCall)
    ensures
        is_call_for(call, *mutation, owner_id@, headers@, scope@),
{
    match mutation {
        VfsNamespaceMutation::CreateFile { path, mode } => VfsBackendCall::WriteFile(
            VfsWriteRequest {
                owner_id: owner_id.to_owned(),
                path: path.clone(),
                body: Vec::new(),
                headers: headers_with_own_mode(headers, *mode),
                scope: scope.copy(),
                precondition: Some(
                    VfsWritePrecondition {
                        predicate: Some(VfsCasPredicate::Absent),
                        fingerprint: None,
                        secondary_fingerprint: None,
                        expected_file_id: None,
                    },
                ),
            },
        ),
        VfsNamespaceMutation::CreateDirectory { path, mode } => VfsBackendCall::Mkdir(
            plain_request(owner_id, path, headers_with_own_mode(headers, *mode), scope, None),
        ),
        VfsNamespaceMutation::CreateSymlink { path, target } => VfsBackendCall::CreateSymlink(
            VfsSymlinkRequest {
                owner_id: owner_id.to_owned(),
                path: path.clone(),
                target: target.clone(),
                headers: headers.copy(),
                scope: scope.copy(),
            },
        ),
        VfsNamespaceMutation::CreateHardLink {
            source_path,
            destination_path,
        } => VfsBackendCall::CreateHardLink(
            VfsHardLinkRequest {
                owner_id: owner_id.to_owned(),
                source_path: source_path.clone(),
                destination_path: destination_path.clone(),
                headers: headers.copy(),
                scope: scope.copy(),
            },
        ),
        VfsNamespaceMutation::DeleteFile { path, precondition } => VfsBackendCall::DeleteFile(
            plain_request(owner_id, path, headers.copy(), scope, copy_precondition(precondition)),
        ),
        VfsNamespaceMutation::RemoveDirectory { path } => VfsBackendCall::Rmdir(
            plain_request(owner_id, path, headers.copy(), scope, None),
        ),
        VfsNamespaceMutation::Rename { from, to } => VfsBackendCall::Rename(
            VfsRenameRequest {
                owner_id: owner_id.to_owned(),
                from: from.clone(),
                to: to.clone(),
                headers: headers.copy(),
                scope: scope.copy(),
            },
        ),
        VfsNamespaceMutation::SetMode { path, mode } => VfsBackendCall::SetMode(
            plain_request(owner_id, path, headers_with_own_mode(headers, Some(*mode)), scope, None),
        ),
    }
}

/// The calls that make mutations together, in their order, for a backend that has no other way than to
/// make them one after the other.
pub fn apply_namespace_batch(request: &VfsNamespaceMutationBatchRequest) -> (calls: Vec<
    VfsBackendCall,
>)
    ensures
        calls@.len() == request.mutations@.len(),
        forall|i: int|
            0 <= i < calls@.len() ==> is_call_for(
                #[trigger] calls@[i],
                request.mutations@[i],
                request.owner_id@,
                request.headers@,
                request.scope@,
            ),
{
    let mut calls: Vec<VfsBackendCall> = Vec::new();
    let mut i: usize = 0;
    while i < request.mutations.len()
        invariant
            i <= request.mutations@.len(),
            calls@.len() == i,
            forall|j: int|
                0 <= j < i ==> is_call_for(
                    #[trigger] calls@[j],
                    request.mutations@[j],
                    request.owner_id@,
                    request.headers@,
                    request.scope@,
                ),
        decreases request.mutations@.len() - i,
    {
        calls.push(
            backend_call(
                &request.mutations[i],
                &request.owner_id,
                &request.headers,
                &request.scope,
            ),
        );
        i += 1;
    }
    calls
}

/// What comes next in a batch of calls.
#[derive(Debug)]
pub enum BatchStep {
    /// The call at this position is made.
    Call(usize),
    /// The batch ends with this result.
    End(VfsResult<()>),
}

/// The beginning of a batch: its first call, where it has one.
pub fn batch_start(count: usize) -> (step: BatchStep)
    ensures
        step == (if count > 0 {
            BatchStep::Call(0)
        } else {
            BatchStep::End(Ok(()))
        }),
{
    if count > 0 {
        BatchStep::Call(0)
    } else {
        BatchStep::End(Ok(()))
    }
}

/// What follows the call at `at`. One that failed ends the batch with its error; after the last the
/// batch ends well.
pub open spec fn next_in_batch(outcome: VfsResult<()>, at: int, count: int) -> BatchStep {
    match outcome {
        Err(e) => BatchStep::End(Err(e)),
        Ok(_) => if at + 1 < count {
            BatchStep::Call((at + 1) as usize)
        } else {
            BatchStep::End(Ok(()))
        },
    }
}

/// What follows the call at `at`.
pub fn batch_step(outcome: VfsResult<()>, at: usize, count: usize) -> (step: BatchStep)
    requires
        at < count,
    ensures
        step == next_in_batch(outcome, at as int, count as int),
{
    match outcome {
        Err(e) => BatchStep::End(Err(e)),
        Ok(_) => {
            if at + 1 < count {
                BatchStep::Call(at + 1)
            } else {
                BatchStep::End(Ok(()))
            }
        },
    }
}

/// How many calls are made of a batch, and its result, from the call at `at` on, where the calls would
/// have these outcomes.
pub open spec fn batch_run(outcomes: Seq<VfsResult<()>>, at: int) -> (int, VfsResult<()>)
    decreases outcomes.len() - at,
{
    if 0 <= at < outcomes.len() {
        match next_in_batch(outcomes[at], at, outcomes.len() as int) {
            BatchStep::Call(_) => batch_run(outcomes, at + 1),
            BatchStep::End(result) => (at + 1, result),
        }
    } else {
        (at, Ok(()))
    }
}

proof fn lemma_batch_run(outcomes: Seq<VfsResult<()>>, at: int)
    requires
        0 <= at <= outcomes.len(),
    ensures
        ({
            let (made, result) = batch_run(outcomes, at);
            &&& at <= made <= outcomes.len()
            &&& forall|i: int| at <= i < made - 1 ==> (#[trigger] outcomes[i]) is Ok
            &&& result is Err ==> made > at && outcomes[made - 1] == result
            &&& result is Ok ==> made == outcomes.len() && forall|i: int|
                at <= i < made ==> (#[trigger] outcomes[i]) is Ok
        }),
    decreases outcomes.len() - at,
{
    if at < outcomes.len() && next_in_batch(outcomes[at], at, outcomes.len() as int) is Call {
        lemma_batch_run(outcomes, at + 1);
    }
}

/// The calls of a batch are made one after the other, up to the first that fails, and its error is the
/// result; where none fails all are made, and the batch ends well.
pub proof fn law_batch_ends_at_first_failure(outcomes: Seq<VfsResult<()>>)
    ensures
        ({
            let (made, result) = batch_run(outcomes, 0);
            &&& 0 <= made <= outcomes.len()
            &&& forall|i: int| 0 <= i < made - 1 ==> (#[trigger] outcomes[i]) is Ok
            &&& result is Err ==> made > 0 && outcomes[made - 1] == result
            &&& result is Ok ==> made == outcomes.len() && forall|i: int|
                0 <= i < outcomes.len() ==> (#[trigger] outcomes[i]) is Ok
        }),
{
    lemma_batch_run(outcomes, 0);
}

/// The entries of a snapshot stand for its paths in order.
pub open spec fn is_snapshot(
    entries: Seq<VfsPublicationSnapshotEntry>,
    paths: Seq<String>,
    metadata: Seq<Option<VfsMetadata>>,
) -> bool {
    &&& entries.len() == paths.len()
    &&& forall|i: int|
        0 <= i < entries.len() ==> (#[trigger] entries[i]).path@ == paths[i]@
            && entries[i].metadata == metadata[i]
}

/// What is published of a change: its paths, each with what the backend knows of it now. The
/// backend must have answered for each path.
pub fn publication_snapshot(paths: &Vec<String>, metadata: Vec<Option<VfsMetadata>>) -> (r: VfsResult<
    Vec<VfsPublicationSnapshotEntry>,
>)
    ensures
        match r {
            Ok(entries) => metadata@.len() == paths@.len() && is_snapshot(
                entries@,
                paths@,
                metadata@,
            ),
            Err(e) => metadata@.len() != paths@.len() && e@ == VfsErrorView::Internal(
                "publication snapshot returned "@ + decimal(metadata@.len()) + " entries for "@
                    + decimal(paths@.len()) + " paths"@,
            ),
        },
{
    if metadata.len() != paths.len() {
        let got = to_decimal(metadata.len() as u64);
        let wanted = to_decimal(paths.len() as u64);
        return Err(
            VfsGatewayError::Internal(
                "publication snapshot returned ".to_owned().concat(&got).concat(
                    " entries for ",
                ).concat(&wanted).concat(" paths"),
            ),
        );
    }
    let ghost all = metadata@;
    let mut rest = metadata;
    let mut entries: Vec<VfsPublicationSnapshotEntry> = Vec::new();
    let mut i: usize = 0;
    assert(all.skip(0) =~= all);
    while i < paths.len()
        invariant
            i <= paths@.len(),
            all.len() == paths@.len(),
            rest@ == all.skip(i as int),
            entries@.len() == i,
            forall|j: int|
                0 <= j < i ==> (#[trigger] entries@[j]).path@ == paths@[j]@ && entries@[j].metadata
                    == all[j],
        decreases paths@.len() - i,
    {
        let known = rest.remove(0);
        assert(rest@ =~= all.skip(i + 1));
        entries.push(VfsPublicationSnapshotEntry { path: paths[i].clone(), metadata: known });
        i += 1;
    }
    Ok(entries)
}

// ---------------------------------------------------------------------------
// Reading
// ---------------------------------------------------------------------------
/// The part of a file that a request asks for.
pub fn raw_read_range(headers: &Vec<RequestHeader>, path: &str, metadata: &VfsMetadata) -> (r:
    VfsResult<Option<VfsReadRange>>)
    ensures
        vfs_outcome(r) == (if metadata.kind@ != VFS_ENTRY_KIND_FILE@ {
            std::result::Result::<Option<VfsReadRange>, VfsErrorView>::Err(
                VfsErrorView::BadRequest("vfs path "@ + path@ + " is not a file"@),
            )
        } else {
            match header_text(headers@, "range"@) {
                None => Ok(None),
                Some(value) => match range_of(value, metadata.size_bytes) {
                    Ok(range) => Ok(Some(range)),
                    Err(e) => Err(e),
                },
            }
        }),
{
    if !same(&metadata.kind, VFS_ENTRY_KIND_FILE) {
        return Err(
            VfsGatewayError::BadRequest(
                "vfs path ".to_owned().concat(path).concat(" is not a file"),
            ),
        );
    }
    match find_header(headers, "range") {
        None => Ok(None),
        Some(value) => match parse_vfs_range_header(&value, metadata.size_bytes) {
            Ok(range) => Ok(Some(range)),
            Err(e) => Err(e),
        },
    }
}

/// The last byte of a part that was read.
pub open spec fn last_read(range: VfsReadRange, bytes_len: u64) -> int {
    let end = if range.offset + bytes_len <= u64::MAX {
        range.offset + bytes_len
    } else {
        u64::MAX as int
    };
    if end > 0 {
        end - 1
    } else {
        0
    }
}

/// The status of the answer to a read.
pub fn raw_read_status(range: Option<VfsReadRange>) -> (status: u16)
    ensures
        status == (if range is Some {
            206u16
        } else {
            200u16
        }),
{
    if range.is_some() {
        206
    } else {
        200
    }
}

/// The content range of the answer to a read of a part.
pub fn content_range(range: Option<VfsReadRange>, bytes_len: u64, size_bytes: u64) -> (value: Option<
    String,
>)
    ensures
        match range {
            Some(r) => opt_view(value) == Some(
                "bytes "@ + decimal(r.offset as nat) + "-"@ + decimal(
                    last_read(r, bytes_len) as nat,
                ) + "/"@ + decimal(size_bytes as nat),
            ),
            None => value is None,
        },
{
    match range {
        Some(r) => {
            let end: u64 = r.offset.saturating_add(bytes_len).saturating_sub(1);
            let offset = to_decimal(r.offset);
            let end = to_decimal(end);
            let size = to_decimal(size_bytes);
            Some(
                "bytes ".to_owned().concat(&offset).concat("-").concat(&end).concat("/").concat(
                    &size,
                ),
            )
        },
        None => None,
    }
}

/// A read that gives all bytes of its range is answered with the range itself.
pub proof fn law_full_read_covers_range(range: VfsReadRange)
    requires
        range.length > 0,
        range.offset + range.length <= u64::MAX,
    ensures
        last_read(range, range.length) == range.offset + range.length - 1,
{
}

// ---------------------------------------------------------------------------
// Leases
// ---------------------------------------------------------------------------
/// The order to acquire a lease, its token being given.
pub fn lease_order(
    owner_id: String,
    body: VfsLeaseAcquireRequest,
    scope: VfsWriteScope,
    owner_token: u128,
) -> (order: VfsLeaseAcquire)
    ensures
        order.owner_id == owner_id,
        order.path == body.path,
        order.mutation_count == (match body.mutation_count {
            Some(n) => if n > 1 {
                n
            } else {
                1i32
            },
            None => 1i32,
        }),
        order.component@ == (match body.component {
            Some(c) => c@,
            None => VFS_COMPONENT_VM_RUNTIME@,
        }),
        order.run_id == body.run_id,
        order.reason == body.reason,
        order.owner_token == owner_token,
        order.scope == scope,
{
    VfsLeaseAcquire {
        owner_id,
        path: body.path,
        mutation_count: match body.mutation_count {
            Some(n) => if n > 1 {
                n
            } else {
                1
            },
            None => 1,
        },
        component: match body.component {
            Some(c) => c,
            None => VFS_COMPONENT_VM_RUNTIME.to_owned(),
        },
        run_id: body.run_id,
        reason: body.reason,
        owner_token,
        scope,
    }
}

/// The order to acquire a lease, with a new random token.
pub fn lease_acquire(owner_id: String, body: VfsLeaseAcquireRequest, scope: VfsWriteScope) -> (order:
    VfsLeaseAcquire)
    ensures
        order.owner_id == owner_id,
        order.path == body.path,
        order.mutation_count >= 1,
        body.mutation_count is Some && body.mutation_count->Some_0 >= 1 ==> order.mutation_count
            == body.mutation_count->Some_0,
        body.mutation_count is None || body.mutation_count->Some_0 < 1 ==> order.mutation_count
            == 1,
        order.component@ == (match body.component {
            Some(c) => c@,
            None => VFS_COMPONENT_VM_RUNTIME@,
        }),
        order.run_id == body.run_id,
        order.reason == body.reason,
        order.owner_token / 0x1000_0000_0000_0000_0000 % 16 == 4,
        8 <= order.owner_token / 0x1000_0000_0000_0000 % 16 <= 11,
        order.scope == scope,
{
    let owner_token: u128 = random_uuid_number();
    lease_order(owner_id, body, scope, owner_token)
}

// ---------------------------------------------------------------------------
// Which requests are served, and how
// ---------------------------------------------------------------------------
/// A prefix of routes stands behind one slash and before none, whatever slashes and white space were
/// given around it.
pub proof fn law_prefix_stands_behind_one_slash(prefix: Seq<char>)
    requires
        prefix.len() > 0,
        prefix[0] != '/',
        prefix.last() != '/',
        !crate::text::is_white_space(prefix[0]),
        !crate::text::is_white_space(prefix.last()),
    ensures
        route_prefix(prefix) == "/"@ + prefix,
        route_prefix(seq!['/'] + prefix) == "/"@ + prefix,
        route_prefix((seq!['/'] + prefix).push('/')) == "/"@ + prefix,
        route_prefix(Seq::empty()) == "/"@,
{
    reveal_strlit("/");
    crate::text::law_text_without_outer_white_space_stays(prefix);
    let a = seq!['/'] + prefix;
    assert(a[0] == '/' && a.last() == prefix.last());
    crate::text::law_text_without_outer_white_space_stays(a);
    crate::text::law_text_without_outer_white_space_stays(a.push('/'));
    crate::text::law_sign_at_end_is_taken(prefix, '/');
    crate::text::law_sign_at_end_is_taken(prefix.push('/'), '/');
    assert(a.push('/') =~= seq!['/'] + prefix.push('/'));
    assert(crate::text::trimmed_start_of(prefix.push('/'), '/') == prefix.push('/'));
    let none = Seq::<char>::empty();
    assert(trimmed(none).len() == 0);
    crate::text::law_sign_at_end_is_taken(none, '/');
    assert("/"@ =~= seq!['/'] + none);
    assert("/"@ + none =~= "/"@);
}

/// Each kind of request has its own route.
pub proof fn law_requests_have_own_routes()
    ensures
        route_name(VfsRoute::Tree) == "tree"@ && route_name(VfsRoute::FileRaw) == "file/raw"@,
        route_name(VfsRoute::Stat) == "stat"@ && route_name(VfsRoute::Watch) == "watch"@,
        route_name(VfsRoute::MetadataMany) == "metadata-many"@ && route_name(VfsRoute::ReadMany)
            == "read-many"@,
        route_name(VfsRoute::SubtreeMetadata) == "subtree-metadata"@ && route_name(
            VfsRoute::PrefetchSubtree,
        ) == "prefetch-subtree"@,
        route_name(VfsRoute::WriteMany) == "write-many"@ && route_name(VfsRoute::NamespaceMany)
            == "namespace-many"@,
        route_name(VfsRoute::File) == "file"@ && route_name(VfsRoute::Dir) == "dir"@,
        route_name(VfsRoute::Symlink) == "symlink"@ && route_name(VfsRoute::HardLink)
            == "hard-link/v1"@,
        route_name(VfsRoute::HardLinkAlias) == "hard-link-alias/v1"@ && route_name(VfsRoute::Rename)
            == "rename"@,
        route_name(VfsRoute::Lease) == "lease"@,
{
}

/// A path that is owed must be there, and counts without the white space around it.
pub proof fn law_owed_path_must_be_there(path: Seq<char>)
    ensures
        trimmed(path).len() > 0 ==> required(Some(path)) == std::result::Result::<
            Seq<char>,
            VfsErrorView,
        >::Ok(trimmed(path)),
        trimmed(path).len() == 0 ==> required(Some(path)) matches Err(VfsErrorView::BadRequest(_)),
        required(None) matches Err(VfsErrorView::BadRequest(_)),
{
}

/// The scope of each path is asked for, one after the other and none left out; blank paths are refused
/// where paths are trimmed.
pub proof fn law_scope_of_each_path_is_asked_for(
    walk: WalkView,
    scope: ScopeView,
    message: Seq<char>,
)
    ensures
        walk.at >= walk.paths.len() ==> (next_question(walk) matches Ok(q) && q is None),
        walk.at < walk.paths.len() && !walk.trimmed ==> (next_question(walk) matches Ok(q) && q
            == Some(walk.paths[walk.at as int])),
        walk.at < walk.paths.len() && walk.trimmed && trimmed(walk.paths[walk.at as int]).len() > 0
            ==> (next_question(walk) matches Ok(q) && q == Some(
            trimmed(walk.paths[walk.at as int]),
        )),
        walk.at < walk.paths.len() && walk.trimmed && trimmed(walk.paths[walk.at as int]).len() == 0
            ==> next_question(walk) is Err,
        after_scope(walk, scope, message) matches Ok(w) ==> w.at == walk.at + 1 && w.paths
            == walk.paths && w.trimmed == walk.trimmed,
        after_scope(walk, scope, message) matches Ok(w) ==> w.first == Some(
            if walk.first is Some {
                walk.first->Some_0
            } else {
                scope
            },
        ),
{
}

/// A change is refused where its headers are, and where it declares another resource than its own.
pub proof fn law_change_declares_its_resource(
    headers: Seq<RequestHeader>,
    aliases: VfsHeaderAliases,
    scope: ScopeView,
    operation: Seq<char>,
)
    ensures
        headers_error(headers, aliases, scope, operation) is None <==> write_headers_in(
            headers,
            aliases,
            scope.default_surface_kind,
            operation,
        ) is Ok && value_or_alias(
            headers,
            "x-chevalier-vfs-resource-key"@,
            views(aliases.resource_key@),
        ) == Some(scope.resource_key),
{
}

/// A batch needs one id for each change; ids are not blank and no two are the same. It has at most 4096
/// changes, and its first change names a path.
pub proof fn law_batch_is_checked(ids: Seq<Seq<char>>, ms: Seq<VfsNamespaceMutation>)
    ensures
        batch_error(ids, ms) is None <==> {
            &&& ids.len() == ms.len()
            &&& forall|i: int, j: int|
                0 <= i < ids.len() && 0 <= j < ids.len() && i != j ==> ids[i] != ids[j]
            &&& forall|i: int| 0 <= i < ids.len() ==> trimmed(#[trigger] ids[i]).len() > 0
            &&& ms.len() <= 4096
            &&& ms.len() > 0 ==> crate::vfs::mutation_paths(ms[0]).0.len() > 0
                || crate::vfs::mutation_paths(ms[0]).1.len() > 0
        },
        batch_error(ids, ms) is Some ==> batch_error(ids, ms)->Some_0 is BadRequest,
{
}

/// A change is made with the mode that it names, else with the one of the request; nothing else of the
/// request changes.
pub proof fn law_change_names_its_mode(headers: HeadersView, mode: u32)
    ensures
        with_own_mode(headers, None) == headers,
        with_own_mode(headers, Some(mode)).mode == Some((mode % 4096) as u32),
        with_own_mode(headers, Some(mode)) == (HeadersView {
            mode: with_own_mode(headers, Some(mode)).mode,
            ..headers
        }),
{
}

/// Each change is one call of its own kind, on its own path and for its owner; a new file is written
/// empty and only where none is.
pub proof fn law_change_is_call_of_its_kind(
    call: VfsBackendCall,
    m: VfsNamespaceMutation,
    owner: Seq<char>,
    headers: HeadersView,
    scope: ScopeView,
)
    requires
        is_call_for(call, m, owner, headers, scope),
    ensures
        m matches VfsNamespaceMutation::CreateFile { path, .. } ==> (
        call matches VfsBackendCall::WriteFile(r) && r.owner_id@ == owner && r.path@ == path@
            && r.body@.len() == 0 && r.scope@ == scope && r.precondition is Some
            && r.precondition->Some_0@.predicate == Some(PredicateView::Absent)
            && r.precondition->Some_0@.expected_file_id is None),
        m matches VfsNamespaceMutation::CreateDirectory { path, .. } ==> (
        call matches VfsBackendCall::Mkdir(r) && r.owner_id@ == owner && r.path@ == path@ && r.scope@
            == scope && r.precondition is None),
        m matches VfsNamespaceMutation::CreateSymlink { path, target } ==> (
        call matches VfsBackendCall::CreateSymlink(r) && r.owner_id@ == owner && r.path@ == path@
            && r.target@ == target@ && r.scope@ == scope && r.headers@ == headers),
        m matches VfsNamespaceMutation::CreateHardLink { source_path, destination_path } ==> (
        call matches VfsBackendCall::CreateHardLink(r) && r.owner_id@ == owner && r.source_path@
            == source_path@ && r.destination_path@ == destination_path@ && r.scope@ == scope
            && r.headers@ == headers),
        m matches VfsNamespaceMutation::DeleteFile { path, precondition } ==> (
        call matches VfsBackendCall::DeleteFile(r) && r.owner_id@ == owner && r.path@ == path@
            && r.scope@ == scope && r.headers@ == headers && (precondition is None
            <==> r.precondition is None) && (precondition is Some ==> r.precondition->Some_0@
            == precondition->Some_0@)),
        m matches VfsNamespaceMutation::RemoveDirectory { path } ==> (
        call matches VfsBackendCall::Rmdir(r) && r.owner_id@ == owner && r.path@ == path@ && r.scope@
            == scope && r.headers@ == headers),
        m matches VfsNamespaceMutation::Rename { from, to } ==> (
        call matches VfsBackendCall::Rename(r) && r.owner_id@ == owner && r.from@ == from@ && r.to@
            == to@ && r.scope@ == scope && r.headers@ == headers),
        m matches VfsNamespaceMutation::SetMode { path, mode } ==> (
        call matches VfsBackendCall::SetMode(r) && r.owner_id@ == owner && r.path@ == path@
            && r.scope@ == scope && r.headers@.mode == Some((mode % 4096) as u32)),
{
}

/// What is published of a change is each of its paths, in their order, with what is known of that path.
pub proof fn law_publication_names_each_path(
    entries: Seq<VfsPublicationSnapshotEntry>,
    paths: Seq<String>,
    metadata: Seq<Option<VfsMetadata>>,
    i: int,
)
    requires
        is_snapshot(entries, paths, metadata),
    ensures
        entries.len() == paths.len(),
        0 <= i < paths.len() ==> entries[i].path@ == paths[i]@ && entries[i].metadata
            == metadata[i],
{
}

/// After a change that was made comes the next one, and after the last the end; one that failed ends
/// the batch with its failure.
pub proof fn law_batch_goes_on_after_success(e: VfsGatewayError, at: int, count: int)
    requires
        0 <= at < count <= usize::MAX,
    ensures
        at + 1 < count ==> next_in_batch(Ok(()), at, count) == BatchStep::Call((at + 1) as usize),
        at + 1 == count ==> next_in_batch(Ok(()), at, count) == BatchStep::End(Ok(())),
        next_in_batch(Err(e), at, count) == BatchStep::End(Err(e)),
{
}

/// The last byte of a read stands as many bytes behind its first as were read, itself counted.
pub proof fn law_last_byte_of_read(range: VfsReadRange, n: u64)
    ensures
        n > 0 && range.offset + n <= u64::MAX ==> last_read(range, n) == range.offset + n - 1,
        n == 0 && range.offset > 0 ==> last_read(range, n) == range.offset - 1,
        n == 0 && range.offset == 0 ==> last_read(range, n) == 0,
{
}

/// A scope is seen as what it is, and a write is found under its path.
pub proof fn law_scope_is_seen_as_it_is(
    s: VfsWriteScope,
    writes: Seq<VfsWriteManyItem>,
    i: int,
)
    ensures
        s@.resource_key == s.resource_key@ && s@.default_surface_kind == s.default_surface_kind@
            && s@.task_id == s.task_id,
        write_paths(writes).len() == writes.len(),
        0 <= i < writes.len() ==> write_paths(writes)[i] == writes[i].path@,
{
}

/// A text that was asked for is seen as what it is.
pub proof fn law_text_outcome_is_seen_as_it_is(text: String, e: VfsGatewayError)
    ensures
        text_outcome(Ok(text)) == std::result::Result::<Seq<char>, VfsErrorView>::Ok(text@),
        text_outcome(Err(e)) == std::result::Result::<Seq<char>, VfsErrorView>::Err(e@),
        opt_text_outcome(Ok(Some(text))) == std::result::Result::<
            Option<Seq<char>>,
            VfsErrorView,
        >::Ok(Some(text@)),
        opt_text_outcome(Ok(None)) == std::result::Result::<Option<Seq<char>>, VfsErrorView>::Ok(
            None,
        ),
        opt_text_outcome(Err(e)) == std::result::Result::<Option<Seq<char>>, VfsErrorView>::Err(
            e@,
        ),
{
}

/// Refused requests tell why.
pub proof fn law_refused_requests_tell_why(
    path: Seq<char>,
    ids: Seq<Seq<char>>,
    ms: Seq<VfsNamespaceMutation>,
)
    ensures
        trimmed(path).len() == 0 ==> required(Some(path)) == std::result::Result::<
            Seq<char>,
            VfsErrorView,
        >::Err(VfsErrorView::BadRequest("missing path"@)),
        required(None) == std::result::Result::<Seq<char>, VfsErrorView>::Err(
            VfsErrorView::BadRequest("missing path"@),
        ),
        ids.len() != ms.len() ==> batch_error(ids, ms) == Some(
            VfsErrorView::BadRequest("namespace-many requires one operation_id per mutation"@),
        ),
        ids.len() == ms.len() && !are_operation_ids(ids) ==> batch_error(ids, ms) == Some(
            VfsErrorView::BadRequest("namespace-many operation_ids must be non-empty and unique"@),
        ),
        ids.len() == ms.len() && are_operation_ids(ids) && ms.len() > 4096 ==> batch_error(ids, ms)
            == Some(
            VfsErrorView::BadRequest("namespace-many accepts at most 4096 mutations"@),
        ),
        ids.len() == ms.len() && are_operation_ids(ids) && 0 < ms.len() <= 4096
            && crate::vfs::mutation_paths(ms[0]).0.len() == 0 && crate::vfs::mutation_paths(
            ms[0],
        ).1.len() == 0 ==> batch_error(ids, ms) == Some(
            VfsErrorView::BadRequest("namespace mutation has no path"@),
        ),
        CROSS_SCOPE_MESSAGE@ == "cross-scope rename is not supported for this vfs mount"@,
{
}

} // verus!
