//! The headers of a gateway's requests.

use crate::numeral::numeral_value;
use crate::numeral::parse_u64;
use crate::text::lowered;
use crate::text::same;
use crate::text::to_lower;
use crate::text::trim;
use crate::text::trimmed;
use crate::text::views;
use crate::vfs::effective;
use crate::vfs::fingerprints_predicate;
use crate::vfs::predicate_view;
use crate::vfs::PredicateView;
use crate::vfs::VfsCasPredicate;
use crate::vfs::VfsErrorView;
use crate::vfs::VfsGatewayError;
use crate::vfs::VfsHeaderAliases;
use crate::vfs::VfsResult;
use crate::vfs::VfsWriteHeaders;
use crate::vfs::VfsWritePrecondition;
use crate::vfs::CHEVALIER_VFS_COMPONENT_HEADER;
use crate::vfs::CHEVALIER_VFS_EXECUTABLE_HEADER;
use crate::vfs::CHEVALIER_VFS_LOCK_OWNER_TOKEN_HEADER;
use crate::vfs::CHEVALIER_VFS_MODE_HEADER;
use crate::vfs::CHEVALIER_VFS_OPERATION_HEADER;
use crate::vfs::CHEVALIER_VFS_PRECONDITION_FILE_ID_HEADER;
use crate::vfs::CHEVALIER_VFS_PRECONDITION_FINGERPRINT_HEADER;
use crate::vfs::CHEVALIER_VFS_PRECONDITION_KIND_HEADER;
use crate::vfs::CHEVALIER_VFS_PRECONDITION_SECONDARY_FINGERPRINT_HEADER;
use crate::vfs::CHEVALIER_VFS_REASON_HEADER;
use crate::vfs::CHEVALIER_VFS_RESOURCE_KEY_HEADER;
use crate::vfs::CHEVALIER_VFS_RUN_ID_HEADER;
use crate::vfs::CHEVALIER_VFS_SURFACE_KIND_HEADER;
use crate::vfs::VFS_COMPONENT_VM_RUNTIME;
use crate::vfs::VFS_MODE_LIMIT;
use crate::vm::opt_view;
use crate::wire::parse_uuid;
use crate::wire::uuid_read;
use vstd::prelude::*;

verus! {

// ---------------------------------------------------------------------------
// Looking headers up
// ---------------------------------------------------------------------------
/// A header of a request.
#[derive(Debug)]
pub struct RequestHeader {
    /// Its name in small letters.
    pub name: String,
    /// Its value, where that is visible text.
    pub value: Option<String>,
}

/// The value of the first header of a name, where that is visible text.
pub open spec fn header_text(headers: Seq<RequestHeader>, name: Seq<char>) -> Option<Seq<char>>
    decreases headers.len(),
{
    if headers.len() == 0 {
        None
    } else if headers[0].name@ == lowered(name) {
        opt_view(headers[0].value)
    } else {
        header_text(headers.drop_first(), name)
    }
}

/// The value of the first header of a name, where that is visible text.
pub fn find_header(headers: &Vec<RequestHeader>, name: &str) -> (value: Option<String>)
    ensures
        opt_view(value) == header_text(headers@, name@),
{
    let name_lowered = to_lower(name);
    let mut i: usize = 0;
    assert(headers@.skip(0) =~= headers@);
    while i < headers.len()
        invariant
            i <= headers@.len(),
            name_lowered@ == lowered(name@),
            header_text(headers@, name@) == header_text(headers@.skip(i as int), name@),
        decreases headers@.len() - i,
    {
        let ghost rest = headers@.skip(i as int);
        assert(rest[0] == headers@[i as int]);
        assert(rest.drop_first() =~= headers@.skip(i + 1));
        if same(&headers[i].name, &name_lowered) {
            return headers[i].value.clone();
        }
        i += 1;
    }
    None
}

/// The value of a header, trimmed, where it is not blank.
pub open spec fn value_under(headers: Seq<RequestHeader>, name: Seq<char>) -> Option<Seq<char>> {
    match header_text(headers, name) {
        Some(text) => if trimmed(text).len() > 0 {
            Some(trimmed(text))
        } else {
            None
        },
        None => None,
    }
}

/// The value under the first of several names that has one.
pub open spec fn value_under_any(headers: Seq<RequestHeader>, names: Seq<Seq<char>>) -> Option<
    Seq<char>,
>
    decreases names.len(),
{
    if names.len() == 0 {
        None
    } else if value_under(headers, names[0]) is Some {
        value_under(headers, names[0])
    } else {
        value_under_any(headers, names.drop_first())
    }
}

/// The value under a name, else under its other names.
pub open spec fn value_or_alias(
    headers: Seq<RequestHeader>,
    name: Seq<char>,
    aliases: Seq<Seq<char>>,
) -> Option<Seq<char>> {
    if value_under(headers, name) is Some {
        value_under(headers, name)
    } else {
        value_under_any(headers, aliases)
    }
}

fn find_value(headers: &Vec<RequestHeader>, name: &str) -> (value: Option<String>)
    ensures
        opt_view(value) == value_under(headers@, name@),
{
    match find_header(headers, name) {
        Some(text) => {
            let text = trim(&text);
            if text.as_str().is_empty() {
                None
            } else {
                Some(text)
            }
        },
        None => None,
    }
}

/// The value under a name, else under its other names.
pub fn header_value(headers: &Vec<RequestHeader>, name: &str, aliases: &Vec<String>) -> (value:
    Option<String>)
    ensures
        opt_view(value) == value_or_alias(headers@, name@, views(aliases@)),
{
    match find_value(headers, name) {
        Some(value) => return Some(value),
        None => {},
    }
    let ghost all = views(aliases@);
    let mut i: usize = 0;
    assert(all.skip(0) =~= all);
    while i < aliases.len()
        invariant
            i <= aliases@.len(),
            all == views(aliases@),
            value_under(headers@, name@) is None,
            value_under_any(headers@, all) == value_under_any(headers@, all.skip(i as int)),
        decreases aliases@.len() - i,
    {
        let ghost rest = all.skip(i as int);
        assert(rest[0] == aliases@[i as int]@);
        assert(rest.drop_first() =~= all.skip(i + 1));
        match find_value(headers, &aliases[i]) {
            Some(value) => return Some(value),
            None => {},
        }
        i += 1;
    }
    None
}

// ---------------------------------------------------------------------------
// UUIDs
// ---------------------------------------------------------------------------
/// What a UUID header holds: nothing, a number, or a text that is no UUID and why.
pub type UuidText = Option<std::result::Result<u128, String>>;

/// What a UUID header holds, with the reason as a sequence.
pub type UuidTextView = Option<std::result::Result<u128, Seq<char>>>;

/// What a UUID header holds, with the reason as a sequence.
pub open spec fn uuid_text_view(text: UuidText) -> UuidTextView {
    match text {
        Some(Ok(n)) => Some(Ok(n)),
        Some(Err(reason)) => Some(Err(reason@)),
        None => None,
    }
}

/// What a UUID header holds.
pub open spec fn uuid_under(
    headers: Seq<RequestHeader>,
    name: Seq<char>,
    aliases: Seq<Seq<char>>,
) -> UuidTextView {
    match value_or_alias(headers, name, aliases) {
        Some(text) => Some(uuid_read(text)),
        None => None,
    }
}

fn read_uuid(headers: &Vec<RequestHeader>, name: &str, aliases: &Vec<String>) -> (text: UuidText)
    ensures
        uuid_text_view(text) == uuid_under(headers@, name@, views(aliases@)),
{
    match header_value(headers, name, aliases) {
        Some(value) => Some(parse_uuid(&value)),
        None => None,
    }
}

/// The UUID of a header that may be missing.
pub open spec fn optional_uuid(name: Seq<char>, text: UuidTextView) -> std::result::Result<
    Option<u128>,
    VfsErrorView,
> {
    match text {
        None => Ok(None),
        Some(Ok(n)) => Ok(Some(n)),
        Some(Err(reason)) => Err(
            VfsErrorView::BadRequest("invalid "@ + name + ": "@ + reason),
        ),
    }
}

/// The UUID of a header that may be missing.
pub fn parse_optional_uuid_header(name: &str, text: UuidText) -> (r: VfsResult<Option<u128>>)
    ensures
        crate::vfs::vfs_outcome(r) == optional_uuid(name@, uuid_text_view(text)),
{
    match text {
        None => Ok(None),
        Some(Ok(n)) => Ok(Some(n)),
        Some(Err(reason)) => Err(
            VfsGatewayError::BadRequest(
                "invalid ".to_owned().concat(name).concat(": ").concat(&reason),
            ),
        ),
    }
}

/// The UUID of a header that must be there.
pub open spec fn required_uuid(name: Seq<char>, text: UuidTextView) -> std::result::Result<
    u128,
    VfsErrorView,
> {
    match optional_uuid(name, text) {
        Ok(Some(n)) => Ok(n),
        Ok(None) => Err(VfsErrorView::BadRequest("missing "@ + name)),
        Err(e) => Err(e),
    }
}

/// The UUID of a header that must be there.
pub fn parse_required_uuid_header(name: &str, text: UuidText) -> (r: VfsResult<u128>)
    ensures
        crate::vfs::vfs_outcome(r) == required_uuid(name@, uuid_text_view(text)),
{
    match parse_optional_uuid_header(name, text) {
        Ok(Some(n)) => Ok(n),
        Ok(None) => Err(VfsGatewayError::BadRequest("missing ".to_owned().concat(name))),
        Err(e) => Err(e),
    }
}

// ---------------------------------------------------------------------------
// The headers of a change
// ---------------------------------------------------------------------------
/// What the headers of a change say, with texts as sequences.
pub struct HeadersView {
    pub run_id: Option<u128>,
    pub component: Seq<char>,
    pub surface_kind: Seq<char>,
    pub operation: Seq<char>,
    pub reason: Seq<char>,
    pub executable: Option<bool>,
    pub mode: Option<u32>,
    pub owner_token: u128,
}

impl View for VfsWriteHeaders {
    type V = HeadersView;

    open spec fn view(&self) -> HeadersView {
        HeadersView {
            run_id: self.run_id,
            component: self.component@,
            surface_kind: self.surface_kind@,
            operation: self.operation@,
            reason: self.reason@,
            executable: self.executable,
            mode: self.mode,
            owner_token: self.owner_token,
        }
    }
}

impl VfsWriteHeaders {
    /// The same headers once more.
    pub fn copy(&self) -> (h: VfsWriteHeaders)
        ensures
            h@ == self@,
    {
        VfsWriteHeaders {
            run_id: self.run_id,
            component: self.component.clone(),
            surface_kind: self.surface_kind.clone(),
            operation: self.operation.clone(),
            reason: self.reason.clone(),
            executable: self.executable,
            mode: self.mode,
            owner_token: self.owner_token,
        }
    }
}

/// A text, or what stands in for it.
pub open spec fn or_else(text: Option<Seq<char>>, default: Seq<char>) -> Seq<char> {
    match text {
        Some(t) => t,
        None => default,
    }
}

fn text_or(text: Option<String>, default: &str) -> (r: String)
    ensures
        r@ == or_else(opt_view(text), default@),
{
    match text {
        Some(t) => t,
        None => default.to_owned(),
    }
}

/// Whether a file is executable, where the header says so.
pub open spec fn executable_of(text: Option<Seq<char>>) -> std::result::Result<
    Option<bool>,
    VfsErrorView,
> {
    match text {
        None => Ok(None),
        Some(t) => if t == "true"@ {
            Ok(Some(true))
        } else if t == "false"@ {
            Ok(Some(false))
        } else {
            Err(
                VfsErrorView::BadRequest(
                    "invalid "@ + CHEVALIER_VFS_EXECUTABLE_HEADER@ + ": "@ + t,
                ),
            )
        },
    }
}

fn read_executable(text: Option<String>) -> (r: VfsResult<Option<bool>>)
    ensures
        crate::vfs::vfs_outcome(r) == executable_of(opt_view(text)),
{
    match text {
        None => Ok(None),
        Some(t) => if same(&t, "true") {
            Ok(Some(true))
        } else if same(&t, "false") {
            Ok(Some(false))
        } else {
            Err(
                VfsGatewayError::BadRequest(
                    "invalid ".to_owned().concat(CHEVALIER_VFS_EXECUTABLE_HEADER).concat(
                        ": ",
                    ).concat(&t),
                ),
            )
        },
    }
}

/// The mode of a file, where the header names one; it must be within the limit.
pub open spec fn mode_of(text: Option<Seq<char>>) -> std::result::Result<
    Option<u32>,
    VfsErrorView,
> {
    match text {
        None => Ok(None),
        Some(t) => if numeral_value(t) is Some && numeral_value(t)->Some_0 <= VFS_MODE_LIMIT {
            Ok(Some(numeral_value(t)->Some_0 as u32))
        } else {
            Err(
                VfsErrorView::BadRequest(
                    "invalid "@ + CHEVALIER_VFS_MODE_HEADER@
                        + ": expected an integer from 0 to 4095"@,
                ),
            )
        },
    }
}

fn read_mode(text: Option<String>) -> (r: VfsResult<Option<u32>>)
    ensures
        crate::vfs::vfs_outcome(r) == mode_of(opt_view(text)),
{
    match text {
        None => Ok(None),
        Some(t) => {
            let mode: u64 = match parse_u64(&t) {
                Some(n) => n,
                None => 4096,
            };
            if mode <= VFS_MODE_LIMIT as u64 {
                Ok(Some(mode as u32))
            } else {
                Err(
                    VfsGatewayError::BadRequest(
                        "invalid ".to_owned().concat(CHEVALIER_VFS_MODE_HEADER).concat(
                            ": expected an integer from 0 to 4095",
                        ),
                    ),
                )
            }
        },
    }
}

/// What the headers of a change say, given what its two UUID headers hold. What is said first is
/// refused first.
pub open spec fn write_headers_of(
    headers: Seq<RequestHeader>,
    aliases: VfsHeaderAliases,
    default_surface_kind: Seq<char>,
    default_operation: Seq<char>,
    run_id: UuidTextView,
    owner_token: UuidTextView,
) -> std::result::Result<HeadersView, VfsErrorView> {
    let none = Seq::<Seq<char>>::empty();
    match (
        optional_uuid(CHEVALIER_VFS_RUN_ID_HEADER@, run_id),
        executable_of(value_or_alias(headers, CHEVALIER_VFS_EXECUTABLE_HEADER@, none)),
        mode_of(value_or_alias(headers, CHEVALIER_VFS_MODE_HEADER@, none)),
        required_uuid(CHEVALIER_VFS_LOCK_OWNER_TOKEN_HEADER@, owner_token),
    ) {
        (Err(e), _, _, _) => Err(e),
        (Ok(_), Err(e), _, _) => Err(e),
        (Ok(_), Ok(_), Err(e), _) => Err(e),
        (Ok(_), Ok(_), Ok(_), Err(e)) => Err(e),
        (Ok(run_id), Ok(executable), Ok(mode), Ok(owner_token)) => Ok(
            HeadersView {
                run_id,
                component: or_else(
                    value_or_alias(
                        headers,
                        CHEVALIER_VFS_COMPONENT_HEADER@,
                        views(aliases.component@),
                    ),
                    VFS_COMPONENT_VM_RUNTIME@,
                ),
                surface_kind: or_else(
                    value_or_alias(
                        headers,
                        CHEVALIER_VFS_SURFACE_KIND_HEADER@,
                        views(aliases.surface_kind@),
                    ),
                    default_surface_kind,
                ),
                operation: or_else(
                    value_or_alias(
                        headers,
                        CHEVALIER_VFS_OPERATION_HEADER@,
                        views(aliases.operation@),
                    ),
                    default_operation,
                ),
                reason: or_else(
                    value_or_alias(headers, CHEVALIER_VFS_REASON_HEADER@, views(aliases.reason@)),
                    default_operation,
                ),
                executable,
                mode,
                owner_token,
            },
        ),
    }
}

/// A result that holds headers, with its parts as views.
pub open spec fn headers_outcome(r: VfsResult<VfsWriteHeaders>) -> std::result::Result<
    HeadersView,
    VfsErrorView,
> {
    match r {
        Ok(h) => Ok(h@),
        Err(e) => Err(e@),
    }
}

/// Reads the headers of a change, given what its two UUID headers hold.
pub fn write_headers_from(
    headers: &Vec<RequestHeader>,
    aliases: &VfsHeaderAliases,
    default_surface_kind: &str,
    default_operation: &str,
    run_id: UuidText,
    owner_token: UuidText,
) -> (r: VfsResult<VfsWriteHeaders>)
    ensures
        headers_outcome(r) == write_headers_of(
            headers@,
            *aliases,
            default_surface_kind@,
            default_operation@,
            uuid_text_view(run_id),
            uuid_text_view(owner_token),
        ),
{
    let none: Vec<String> = Vec::new();
    assert(views(none@) =~= Seq::<Seq<char>>::empty());
    let run_id = match parse_optional_uuid_header(CHEVALIER_VFS_RUN_ID_HEADER, run_id) {
        Ok(id) => id,
        Err(e) => return Err(e),
    };
    let executable = match read_executable(
        header_value(headers, CHEVALIER_VFS_EXECUTABLE_HEADER, &none),
    ) {
        Ok(executable) => executable,
        Err(e) => return Err(e),
    };
    let mode = match read_mode(header_value(headers, CHEVALIER_VFS_MODE_HEADER, &none)) {
        Ok(mode) => mode,
        Err(e) => return Err(e),
    };
    let owner_token: u128 = match parse_required_uuid_header(
        CHEVALIER_VFS_LOCK_OWNER_TOKEN_HEADER,
        owner_token,
    ) {
        Ok(token) => token,
        Err(e) => return Err(e),
    };
    Ok(
        VfsWriteHeaders {
            run_id,
            component: text_or(
                header_value(headers, CHEVALIER_VFS_COMPONENT_HEADER, &aliases.component),
                VFS_COMPONENT_VM_RUNTIME,
            ),
            surface_kind: text_or(
                header_value(headers, CHEVALIER_VFS_SURFACE_KIND_HEADER, &aliases.surface_kind),
                default_surface_kind,
            ),
            operation: text_or(
                header_value(headers, CHEVALIER_VFS_OPERATION_HEADER, &aliases.operation),
                default_operation,
            ),
            reason: text_or(
                header_value(headers, CHEVALIER_VFS_REASON_HEADER, &aliases.reason),
                default_operation,
            ),
            executable,
            mode,
            owner_token,
        },
    )
}

/// What the headers of a change say.
pub open spec fn write_headers_in(
    headers: Seq<RequestHeader>,
    aliases: VfsHeaderAliases,
    default_surface_kind: Seq<char>,
    default_operation: Seq<char>,
) -> std::result::Result<HeadersView, VfsErrorView> {
    write_headers_of(
        headers,
        aliases,
        default_surface_kind,
        default_operation,
        uuid_under(headers, CHEVALIER_VFS_RUN_ID_HEADER@, views(aliases.run_id@)),
        uuid_under(
            headers,
            CHEVALIER_VFS_LOCK_OWNER_TOKEN_HEADER@,
            views(aliases.lock_owner_token@),
        ),
    )
}

/// Reads the headers of a change.
pub fn parse_write_headers(
    headers: &Vec<RequestHeader>,
    aliases: &VfsHeaderAliases,
    default_surface_kind: &str,
    default_operation: &str,
) -> (r: VfsResult<VfsWriteHeaders>)
    ensures
        headers_outcome(r) == write_headers_in(
            headers@,
            *aliases,
            default_surface_kind@,
            default_operation@,
        ),
{
    let run_id = read_uuid(headers, CHEVALIER_VFS_RUN_ID_HEADER, &aliases.run_id);
    let owner_token = read_uuid(
        headers,
        CHEVALIER_VFS_LOCK_OWNER_TOKEN_HEADER,
        &aliases.lock_owner_token,
    );
    write_headers_from(
        headers,
        aliases,
        default_surface_kind,
        default_operation,
        run_id,
        owner_token,
    )
}

/// The error of a change whose declared resource key is missing or not the derived one.
pub open spec fn resource_key_error(declared: Option<Seq<char>>, derived: Seq<char>) -> Option<
    VfsErrorView,
> {
    match declared {
        None => Some(VfsErrorView::BadRequest("missing x-chevalier-vfs-resource-key"@)),
        Some(value) => if value != derived {
            Some(
                VfsErrorView::Conflict(
                    "vfs resource key mismatch: declared "@ + value + ", derived "@ + derived,
                ),
            )
        } else {
            None
        },
    }
}

/// Checks that a change declares the resource key that is derived from its path.
pub fn validate_declared_resource_key(
    headers: &Vec<RequestHeader>,
    aliases: &VfsHeaderAliases,
    derived: &str,
) -> (r: VfsResult<()>)
    ensures
        ({
            let declared = value_or_alias(
                headers@,
                CHEVALIER_VFS_RESOURCE_KEY_HEADER@,
                views(aliases.resource_key@),
            );
            match r {
                Ok(_) => resource_key_error(declared, derived@) is None,
                Err(e) => resource_key_error(declared, derived@) == Some(e@),
            }
        }),
{
    match header_value(headers, CHEVALIER_VFS_RESOURCE_KEY_HEADER, &aliases.resource_key) {
        None => Err(
            VfsGatewayError::BadRequest("missing x-chevalier-vfs-resource-key".to_owned()),
        ),
        Some(value) => if same(&value, derived) {
            Ok(())
        } else {
            Err(
                VfsGatewayError::Conflict(
                    "vfs resource key mismatch: declared ".to_owned().concat(&value).concat(
                        ", derived ",
                    ).concat(derived),
                ),
            )
        },
    }
}

// ---------------------------------------------------------------------------
// Preconditions
// ---------------------------------------------------------------------------
/// A precondition, with texts as sequences.
pub struct PreconditionView {
    pub predicate: Option<PredicateView>,
    pub fingerprint: Option<Seq<char>>,
    pub secondary_fingerprint: Option<Seq<char>>,
    pub expected_file_id: Option<Seq<char>>,
}

impl View for VfsWritePrecondition {
    type V = PreconditionView;

    open spec fn view(&self) -> PreconditionView {
        PreconditionView {
            predicate: predicate_view(self.predicate),
            fingerprint: opt_view(self.fingerprint),
            secondary_fingerprint: opt_view(self.secondary_fingerprint),
            expected_file_id: opt_view(self.expected_file_id),
        }
    }
}

/// The predicate that the headers of a precondition name.
pub open spec fn named_predicate(
    kind: Option<Seq<char>>,
    fingerprint: Option<Seq<char>>,
    secondary: Option<Seq<char>>,
) -> std::result::Result<Option<PredicateView>, VfsErrorView> {
    match kind {
        Some(kind) => if kind == "absent"@ {
            if fingerprint is Some || secondary is Some {
                Err(
                    VfsErrorView::BadRequest(
                        "absent VFS precondition cannot include a fingerprint"@,
                    ),
                )
            } else {
                Ok(Some(PredicateView::Absent))
            }
        } else if kind == "content_fingerprint"@ {
            match fingerprint {
                Some(f) => Ok(Some(PredicateView::ContentFingerprint(f))),
                None => Err(
                    VfsErrorView::BadRequest(
                        "content_fingerprint VFS precondition requires a fingerprint"@,
                    ),
                ),
            }
        } else {
            Err(VfsErrorView::BadRequest("unsupported VFS precondition kind: "@ + kind))
        },
        None => Ok(fingerprints_predicate(fingerprint, secondary)),
    }
}

/// The precondition that headers name: none where they name neither a predicate nor a file.
pub open spec fn precondition_of(
    kind: Option<Seq<char>>,
    fingerprint: Option<Seq<char>>,
    secondary_fingerprint: Option<Seq<char>>,
    expected_file_id: Option<Seq<char>>,
) -> std::result::Result<Option<PreconditionView>, VfsErrorView> {
    match named_predicate(kind, fingerprint, secondary_fingerprint) {
        Err(e) => Err(e),
        Ok(predicate) => if predicate is Some || expected_file_id is Some {
            Ok(
                Some(
                    PreconditionView {
                        predicate,
                        fingerprint,
                        secondary_fingerprint,
                        expected_file_id,
                    },
                ),
            )
        } else {
            Ok(None)
        },
    }
}

/// The precondition that the headers of a request name.
pub open spec fn precondition_in(headers: Seq<RequestHeader>) -> std::result::Result<
    Option<PreconditionView>,
    VfsErrorView,
> {
    precondition_of(
        value_under(headers, CHEVALIER_VFS_PRECONDITION_KIND_HEADER@),
        value_under(headers, CHEVALIER_VFS_PRECONDITION_FINGERPRINT_HEADER@),
        value_under(headers, CHEVALIER_VFS_PRECONDITION_SECONDARY_FINGERPRINT_HEADER@),
        value_under(headers, CHEVALIER_VFS_PRECONDITION_FILE_ID_HEADER@),
    )
}

/// A result that may hold a precondition, with its parts as views.
pub open spec fn precondition_outcome(
    r: VfsResult<Option<VfsWritePrecondition>>,
) -> std::result::Result<Option<PreconditionView>, VfsErrorView> {
    match r {
        Ok(Some(p)) => Ok(Some(p@)),
        Ok(None) => Ok(None),
        Err(e) => Err(e@),
    }
}

/// Reads the precondition of a change from its headers.
pub fn parse_write_precondition_headers(headers: &Vec<RequestHeader>) -> (r: VfsResult<
    Option<VfsWritePrecondition>,
>)
    ensures
        precondition_outcome(r) == precondition_in(headers@),
{
    let kind = find_value(headers, CHEVALIER_VFS_PRECONDITION_KIND_HEADER);
    let fingerprint = find_value(headers, CHEVALIER_VFS_PRECONDITION_FINGERPRINT_HEADER);
    let secondary_fingerprint = find_value(
        headers,
        CHEVALIER_VFS_PRECONDITION_SECONDARY_FINGERPRINT_HEADER,
    );
    let expected_file_id = find_value(headers, CHEVALIER_VFS_PRECONDITION_FILE_ID_HEADER);
    let predicate = match &kind {
        Some(kind) => if same(kind, "absent") {
            if fingerprint.is_some() || secondary_fingerprint.is_some() {
                return Err(
                    VfsGatewayError::BadRequest(
                        "absent VFS precondition cannot include a fingerprint".to_owned(),
                    ),
                );
            }
            Some(VfsCasPredicate::Absent)
        } else if same(kind, "content_fingerprint") {
            match &fingerprint {
                Some(f) => Some(VfsCasPredicate::ContentFingerprint { fingerprint: f.clone() }),
                None => return Err(
                    VfsGatewayError::BadRequest(
                        "content_fingerprint VFS precondition requires a fingerprint".to_owned(),
                    ),
                ),
            }
        } else {
            return Err(
                VfsGatewayError::BadRequest(
                    "unsupported VFS precondition kind: ".to_owned().concat(kind),
                ),
            );
        },
        None => VfsCasPredicate::of_fingerprints(&fingerprint, &secondary_fingerprint),
    };
    if predicate.is_some() || expected_file_id.is_some() {
        Ok(
            Some(
                VfsWritePrecondition {
                    predicate,
                    fingerprint,
                    secondary_fingerprint,
                    expected_file_id,
                },
            ),
        )
    } else {
        Ok(None)
    }
}

/// The effective predicate of a precondition that came from headers is the one that they name.
pub proof fn law_header_predicate_is_effective(
    kind: Option<Seq<char>>,
    fingerprint: Option<Seq<char>>,
    secondary: Option<Seq<char>>,
    expected_file_id: Option<Seq<char>>,
)
    ensures
        match precondition_of(kind, fingerprint, secondary, expected_file_id) {
            Ok(Some(p)) => effective(
                p.predicate,
                p.fingerprint,
                p.secondary_fingerprint,
                p.expected_file_id,
            ) == p.predicate,
            _ => true,
        },
{
}

// ---------------------------------------------------------------------------
// What a request says of itself
// ---------------------------------------------------------------------------
/// A header is found by its name in small letters, and the first one of a name counts.
pub proof fn law_first_header_of_name_counts(
    header: RequestHeader,
    rest: Seq<RequestHeader>,
    name: Seq<char>,
)
    ensures
        header.name@ == lowered(name) && header.value is Some ==> header_text(
            seq![header] + rest,
            name,
        ) == Some(header.value->Some_0@),
        header.name@ == lowered(name) && header.value is None ==> header_text(
            seq![header] + rest,
            name,
        ) is None,
        header.name@ != lowered(name) ==> header_text(seq![header] + rest, name) == header_text(
            rest,
            name,
        ),
        header_text(Seq::empty(), name) is None,
{
    assert((seq![header] + rest).drop_first() =~= rest);
}

/// A value counts without the white space around it, and a blank one is none. The header of the agreed
/// name comes before its other names, and these in their order.
pub proof fn law_blank_header_is_none(
    headers: Seq<RequestHeader>,
    name: Seq<char>,
    names: Seq<Seq<char>>,
)
    ensures
        value_under(headers, name) matches Some(v) ==> v.len() > 0 && header_text(headers, name)
            is Some && v == trimmed(header_text(headers, name)->Some_0),
        header_text(headers, name) is Some && trimmed(header_text(headers, name)->Some_0).len() > 0
            ==> value_under(headers, name) is Some,
        value_under(headers, name) is Some ==> value_or_alias(headers, name, names) == value_under(
            headers,
            name,
        ),
        value_under(headers, name) is None ==> value_or_alias(headers, name, names)
            == value_under_any(headers, names),
        value_under_any(headers, Seq::empty()) is None,
        value_under(headers, name) is Some ==> value_under_any(headers, seq![name] + names)
            == value_under(headers, name),
        value_under(headers, name) is None ==> value_under_any(headers, seq![name] + names)
            == value_under_any(headers, names),
{
    assert((seq![name] + names).drop_first() =~= names);
}

/// An id that is there must be one, and one that is owed must be there.
pub proof fn law_ids_are_checked(name: Seq<char>, n: u128, reason: Seq<char>)
    ensures
        optional_uuid(name, None) == std::result::Result::<Option<u128>, VfsErrorView>::Ok(None),
        optional_uuid(name, Some(Ok(n))) == std::result::Result::<Option<u128>, VfsErrorView>::Ok(
            Some(n),
        ),
        optional_uuid(name, Some(Err(reason))) is Err,
        required_uuid(name, None) == std::result::Result::<u128, VfsErrorView>::Err(
            VfsErrorView::BadRequest("missing "@ + name),
        ),
        required_uuid(name, Some(Ok(n))) == std::result::Result::<u128, VfsErrorView>::Ok(n),
        required_uuid(name, Some(Err(reason))) == std::result::Result::<u128, VfsErrorView>::Err(
            VfsErrorView::BadRequest("invalid "@ + name + ": "@ + reason),
        ),
{
}

/// Whether a file is executable is said by `true` or `false`, its mode by a number up to 4095; anything
/// else is refused, and what is not said is left open.
pub proof fn law_mode_and_flag_are_read(t: Seq<char>, mode: u32)
    ensures
        executable_of(None) == std::result::Result::<Option<bool>, VfsErrorView>::Ok(None),
        t == "true"@ ==> executable_of(Some(t)) == std::result::Result::<
            Option<bool>,
            VfsErrorView,
        >::Ok(Some(true)),
        t == "false"@ ==> executable_of(Some(t)) == std::result::Result::<
            Option<bool>,
            VfsErrorView,
        >::Ok(Some(false)),
        t != "true"@ && t != "false"@ ==> executable_of(Some(t)) matches Err(
            VfsErrorView::BadRequest(_),
        ),
        mode_of(None) == std::result::Result::<Option<u32>, VfsErrorView>::Ok(None),
        mode <= 4095 ==> mode_of(Some(crate::numeral::decimal(mode as nat)))
            == std::result::Result::<Option<u32>, VfsErrorView>::Ok(Some(mode)),
        mode > 4095 ==> mode_of(Some(crate::numeral::decimal(mode as nat))) is Err,
        numeral_value(t) is None ==> mode_of(Some(t)) is Err,
{
    reveal_strlit("true");
    reveal_strlit("false");
    assert("true"@.len() == 4 && "false"@.len() == 5);
    crate::numeral::law_written_number_is_read_back(mode as u64);
}

/// A write is told of by the headers that are agreed on; what they do not say is said by the defaults,
/// and the reason of a write is its operation where none is given.
pub proof fn law_write_is_told_of_by_its_headers(
    headers: Seq<RequestHeader>,
    aliases: VfsHeaderAliases,
    surface: Seq<char>,
    operation: Seq<char>,
    h: HeadersView,
)
    requires
        write_headers_in(headers, aliases, surface, operation) == std::result::Result::<
            HeadersView,
            VfsErrorView,
        >::Ok(h),
    ensures
        h.component == or_else(
            value_or_alias(headers, "x-chevalier-vfs-component"@, views(aliases.component@)),
            "vm_runtime"@,
        ),
        h.surface_kind == or_else(
            value_or_alias(headers, "x-chevalier-vfs-surface-kind"@, views(aliases.surface_kind@)),
            surface,
        ),
        h.operation == or_else(
            value_or_alias(headers, "x-chevalier-vfs-operation"@, views(aliases.operation@)),
            operation,
        ),
        h.reason == or_else(
            value_or_alias(headers, "x-chevalier-vfs-reason"@, views(aliases.reason@)),
            operation,
        ),
        value_under(headers, "x-chevalier-vfs-executable"@) is None ==> h.executable is None,
        value_under(headers, "x-chevalier-vfs-executable"@) == Some("true"@) ==> h.executable
            == Some(true),
        value_under(headers, "x-chevalier-vfs-executable"@) == Some("false"@) ==> h.executable
            == Some(false),
        value_under(headers, "x-chevalier-vfs-mode"@) is None ==> h.mode is None,
        value_under(headers, "x-chevalier-vfs-mode"@) is Some ==> h.mode is Some && numeral_value(
            value_under(headers, "x-chevalier-vfs-mode"@)->Some_0,
        ) == Some(h.mode->Some_0 as nat),
        value_or_alias(headers, "x-chevalier-vfs-run-id"@, views(aliases.run_id@)) is None
            ==> h.run_id is None,
        value_or_alias(headers, "x-chevalier-vfs-run-id"@, views(aliases.run_id@)) matches Some(t)
            ==> (uuid_read(t) matches Ok(n) && h.run_id == Some(n)),
        value_or_alias(
            headers,
            "x-chevalier-vfs-lock-owner-token"@,
            views(aliases.lock_owner_token@),
        ) matches Some(t) && (uuid_read(t) matches Ok(n) && h.owner_token == n),
{
    reveal_strlit("true");
    reveal_strlit("false");
    assert("true"@.len() == 4 && "false"@.len() == 5);
    assert(value_under_any(headers, Seq::empty()) is None);
}

/// What is said counts before what is usual.
pub proof fn law_said_counts_before_usual(text: Seq<char>, usual: Seq<char>)
    ensures
        or_else(Some(text), usual) == text,
        or_else(None, usual) == usual,
{
}

/// The resource that a write declares must be the one that it is made on.
pub proof fn law_resource_must_be_declared(declared: Seq<char>, derived: Seq<char>)
    ensures
        resource_key_error(None, derived) matches Some(VfsErrorView::BadRequest(_)),
        resource_key_error(Some(derived), derived) is None,
        declared != derived ==> resource_key_error(Some(declared), derived) matches Some(
            VfsErrorView::Conflict(_),
        ),
{
}

/// A precondition that is named must fit its fingerprints: none of them with `absent`, the first with
/// `content_fingerprint`. Without a name the fingerprints themselves are the precondition, and nothing at
/// all is none.
pub proof fn law_precondition_is_as_named(
    f: Option<Seq<char>>,
    g: Option<Seq<char>>,
    id: Option<Seq<char>>,
    kind: Seq<char>,
)
    ensures
        f is None && g is None ==> (precondition_of(Some("absent"@), f, g, id) matches Ok(Some(p))
            && p.predicate == Some(PredicateView::Absent) && p.expected_file_id == id),
        f is Some || g is Some ==> precondition_of(Some("absent"@), f, g, id) is Err,
        f is Some ==> (precondition_of(Some("content_fingerprint"@), f, g, id) matches Ok(Some(p))
            && p.predicate == Some(PredicateView::ContentFingerprint(f->Some_0)) && p.fingerprint
            == f && p.secondary_fingerprint == g && p.expected_file_id == id),
        f is None ==> precondition_of(Some("content_fingerprint"@), f, g, id) is Err,
        kind != "absent"@ && kind != "content_fingerprint"@ ==> precondition_of(
            Some(kind),
            f,
            g,
            id,
        ) is Err,
        f is None && g is None && id is None ==> precondition_of(None, f, g, id)
            == std::result::Result::<Option<PreconditionView>, VfsErrorView>::Ok(None),
        f is None && g is None && id is Some ==> (precondition_of(None, f, g, id) matches Ok(
            Some(p),
        ) && p.predicate is None && p.expected_file_id == id),
        f is Some && f->Some_0 != "absent"@ ==> (precondition_of(None, f, g, id) matches Ok(Some(p))
            && p.predicate == Some(PredicateView::ContentFingerprint(f->Some_0))),
{
    reveal_strlit("absent");
    reveal_strlit("content_fingerprint");
    assert("absent"@.len() == 6 && "content_fingerprint"@.len() == 19);
}

/// A precondition is read off its four headers.
pub proof fn law_precondition_is_read_off_headers(headers: Seq<RequestHeader>)
    ensures
        precondition_in(headers) == precondition_of(
            value_under(headers, "x-chevalier-vfs-precondition-kind"@),
            value_under(headers, "x-chevalier-vfs-precondition-fingerprint"@),
            value_under(headers, "x-chevalier-vfs-precondition-secondary-fingerprint"@),
            value_under(headers, "x-chevalier-vfs-precondition-file-id"@),
        ),
{
}

/// The headers and the precondition of a write are seen as what they are.
pub proof fn law_headers_are_seen_as_they_are(h: VfsWriteHeaders, p: VfsWritePrecondition)
    ensures
        h@.run_id == h.run_id && h@.component == h.component@ && h@.surface_kind == h.surface_kind@
            && h@.operation == h.operation@ && h@.reason == h.reason@ && h@.executable
            == h.executable && h@.mode == h.mode && h@.owner_token == h.owner_token,
        p@.predicate == predicate_view(p.predicate),
        p.fingerprint matches Some(f) ==> p@.fingerprint == Some(f@),
        p.fingerprint is None ==> p@.fingerprint is None,
        p.secondary_fingerprint matches Some(f) ==> p@.secondary_fingerprint == Some(f@),
        p.secondary_fingerprint is None ==> p@.secondary_fingerprint is None,
        p.expected_file_id matches Some(f) ==> p@.expected_file_id == Some(f@),
        p.expected_file_id is None ==> p@.expected_file_id is None,
{
}

/// What was read off the headers is seen as what it is.
pub proof fn law_headers_outcome_is_seen_as_it_is(
    h: VfsWriteHeaders,
    p: VfsWritePrecondition,
    e: VfsGatewayError,
    reason: String,
    n: u128,
)
    ensures
        headers_outcome(Ok(h)) == std::result::Result::<HeadersView, VfsErrorView>::Ok(h@),
        headers_outcome(Err(e)) == std::result::Result::<HeadersView, VfsErrorView>::Err(e@),
        precondition_outcome(Ok(Some(p))) == std::result::Result::<
            Option<PreconditionView>,
            VfsErrorView,
        >::Ok(Some(p@)),
        precondition_outcome(Ok(None)) == std::result::Result::<
            Option<PreconditionView>,
            VfsErrorView,
        >::Ok(None),
        precondition_outcome(Err(e)) == std::result::Result::<
            Option<PreconditionView>,
            VfsErrorView,
        >::Err(e@),
        uuid_text_view(Some(Ok(n))) == Some(std::result::Result::<u128, Seq<char>>::Ok(n)),
        uuid_text_view(Some(Err(reason))) == Some(
            std::result::Result::<u128, Seq<char>>::Err(reason@),
        ),
        uuid_text_view(None) is None,
{
}

/// Refused headers tell why.
pub proof fn law_refused_headers_tell_why(t: Seq<char>, declared: Seq<char>, derived: Seq<char>)
    ensures
        numeral_value(t) is None ==> mode_of(Some(t)) == std::result::Result::<
            Option<u32>,
            VfsErrorView,
        >::Err(
            VfsErrorView::BadRequest(
                "invalid "@ + "x-chevalier-vfs-mode"@ + ": expected an integer from 0 to 4095"@,
            ),
        ),
        t != "true"@ && t != "false"@ ==> executable_of(Some(t)) == std::result::Result::<
            Option<bool>,
            VfsErrorView,
        >::Err(
            VfsErrorView::BadRequest("invalid "@ + "x-chevalier-vfs-executable"@ + ": "@ + t),
        ),
        resource_key_error(None, derived) == Some(
            VfsErrorView::BadRequest("missing x-chevalier-vfs-resource-key"@),
        ),
        declared != derived ==> resource_key_error(Some(declared), derived) == Some(
            VfsErrorView::Conflict(
                "vfs resource key mismatch: declared "@ + declared + ", derived "@ + derived,
            ),
        ),
        t != "absent"@ && t != "content_fingerprint"@ ==> (named_predicate(
            Some(t),
            None,
            None,
        ) matches Err(e) && e == VfsErrorView::BadRequest(
            "unsupported VFS precondition kind: "@ + t,
        )),
        named_predicate(Some("absent"@), Some(t), None) matches Err(e) && e
            == VfsErrorView::BadRequest("absent VFS precondition cannot include a fingerprint"@),
        named_predicate(Some("content_fingerprint"@), None, Some(t)) matches Err(e) && e
            == VfsErrorView::BadRequest(
            "content_fingerprint VFS precondition requires a fingerprint"@,
        ),
{
    reveal_strlit("absent");
    reveal_strlit("content_fingerprint");
    assert("absent"@.len() == 6 && "content_fingerprint"@.len() == 19);
}

} // verus!
