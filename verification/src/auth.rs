//! Tokens and the headers that carry them.

use crate::error::ErrorView;
use crate::error::Result;
use crate::error::SandboxError;
use crate::numeral::parse_u64;
use crate::numeral::u64_numeral;
use crate::span::Span;
use crate::table::StringMap;
use crate::text::starts_with;
use crate::text::trim;
use crate::text::trimmed;
use crate::vm::metadata_text;
use crate::vm::nonblank_metadata;
use crate::vm::META_PORTPROXY_AUTH_TOKEN;
use vstd::prelude::*;

verus! {

/// The header that carries the token for PCI operations.
pub const PCI_CAPABILITY_HEADER: &'static str = "x-chevalier-pci-token";

/// The text can stand in a metadata value: it holds no control character but the tabulator.
pub open spec fn is_metadata_text(s: Seq<char>) -> bool {
    forall|i: int|
        0 <= i < s.len() ==> (#[trigger] s[i] as u32 >= 32 && s[i] as u32 != 127) || s[i] == '\t'
}

/// Calls `MetadataValue::<Ascii>::try_from` of tonic, which takes a text whose bytes are the
/// tabulator or no control characters, keeps it as it is, and refuses every other with one fixed
/// message.
#[verifier::external_body]
fn metadata_value(text: &str) -> (r: std::result::Result<String, String>)
    ensures
        match r {
            Ok(value) => is_metadata_text(text@) && value@ == text@,
            Err(message) => !is_metadata_text(text@) && message@
                == "failed to parse metadata value"@,
        },
{
    match tonic::metadata::MetadataValue::<tonic::metadata::Ascii>::try_from(text) {
        Ok(value) => Ok(String::from_utf8_lossy(value.as_bytes()).into_owned()),
        Err(error) => Err(error.to_string()),
    }
}

/// A token as the value of the authorization header: with the word `Bearer` before it, unless
/// it stands there.
pub open spec fn bearer(token: Seq<char>) -> Seq<char> {
    if "Bearer "@.is_prefix_of(token) {
        token
    } else {
        "Bearer "@ + token
    }
}

/// The header for an optional token: none for a blank token, an error for one that no header can
/// carry.
pub open spec fn auth_header(raw: Option<Seq<char>>) -> std::result::Result<
    Option<Seq<char>>,
    ErrorView,
> {
    match raw {
        None => Ok(None),
        Some(token) => {
            let value = trimmed(token);
            if value.len() == 0 {
                Ok(None)
            } else if is_metadata_text(bearer(value)) {
                Ok(Some(bearer(value)))
            } else {
                Err(
                    ErrorView::InvalidConfig(
                        "authorization token is not valid ASCII: failed to parse metadata value"@,
                    ),
                )
            }
        },
    }
}

/// The model of a result that may hold text.
pub open spec fn opt_outcome(r: Result<Option<String>>) -> std::result::Result<
    Option<Seq<char>>,
    ErrorView,
> {
    match r {
        Ok(s) => Ok(crate::vm::opt_view(s)),
        Err(e) => Err(e@),
    }
}

/// The authorization header for an optional token.
pub fn compile_auth_header(raw_token: Option<&str>) -> (r: Result<Option<String>>)
    ensures
        opt_outcome(r) == auth_header(crate::exec::opt_str_view(raw_token)),
{
    let token = match raw_token {
        Some(token) => trim(token),
        None => return Ok(None),
    };
    if token.as_str().is_empty() {
        return Ok(None);
    }
    let value = if starts_with(&token, "Bearer ") {
        token
    } else {
        "Bearer ".to_owned().concat(&token)
    };
    match metadata_value(&value) {
        Ok(header) => Ok(Some(header)),
        Err(message) => {
            proof {
                reveal_strlit("authorization token is not valid ASCII: ");
                reveal_strlit("failed to parse metadata value");
                reveal_strlit(
                    "authorization token is not valid ASCII: failed to parse metadata value",
                );
                assert("authorization token is not valid ASCII: "@
                    + "failed to parse metadata value"@
                    =~= "authorization token is not valid ASCII: failed to parse metadata value"@);
            }
            Err(
                SandboxError::InvalidConfig(
                    "authorization token is not valid ASCII: ".to_owned().concat(&message),
                ),
            )
        },
    }
}

/// The header for an optional token that goes out as it is.
pub open spec fn plain_header(raw: Option<Seq<char>>, label: Seq<char>) -> std::result::Result<
    Option<Seq<char>>,
    ErrorView,
> {
    match raw {
        None => Ok(None),
        Some(token) => {
            let value = trimmed(token);
            if value.len() == 0 {
                Ok(None)
            } else if is_metadata_text(value) {
                Ok(Some(value))
            } else {
                Err(
                    ErrorView::InvalidConfig(
                        label + " is not valid ASCII: "@ + "failed to parse metadata value"@,
                    ),
                )
            }
        },
    }
}

/// The header for an optional token that goes out as it is.
pub fn compile_metadata_token(raw_token: Option<&str>, label: &str) -> (r: Result<Option<String>>)
    ensures
        opt_outcome(r) == plain_header(crate::exec::opt_str_view(raw_token), label@),
{
    let token = match raw_token {
        Some(token) => trim(token),
        None => return Ok(None),
    };
    if token.as_str().is_empty() {
        return Ok(None);
    }
    match metadata_value(&token) {
        Ok(header) => Ok(Some(header)),
        Err(message) => Err(
            SandboxError::InvalidConfig(
                label.to_owned().concat(" is not valid ASCII: ").concat(&message),
            ),
        ),
    }
}

/// The authorization header for the guest of a VM, from the token in its metadata.
pub fn portproxy_auth_header_from_metadata(metadata: &StringMap) -> (r: Result<Option<String>>)
    ensures
        opt_outcome(r) == auth_header(metadata_text(metadata@, META_PORTPROXY_AUTH_TOKEN@)),
{
    match nonblank_metadata(metadata, META_PORTPROXY_AUTH_TOKEN) {
        Some(token) => compile_auth_header(Some(&token)),
        None => compile_auth_header(None),
    }
}

/// The headers of a request to a node: the authorization where there is one, then the PCI token
/// where it is asked for and there is one.
pub open spec fn request_headers(
    auth: Option<Seq<char>>,
    pci: Option<Seq<char>>,
    with_pci: bool,
) -> Seq<(Seq<char>, Seq<char>)> {
    let base = match auth {
        Some(value) => seq![("authorization"@, value)],
        None => Seq::empty(),
    };
    match pci {
        Some(value) => if with_pci {
            base.push((PCI_CAPABILITY_HEADER@, value))
        } else {
            base
        },
        None => base,
    }
}

/// The names and values of headers.
pub open spec fn header_views(headers: Seq<(String, String)>) -> Seq<(Seq<char>, Seq<char>)> {
    headers.map_values(|h: (String, String)| (h.0@, h.1@))
}

fn headers_with(auth: &Option<String>, pci: &Option<String>, with_pci: bool) -> (headers: Vec<
    (String, String),
>)
    ensures
        header_views(headers@) == request_headers(
            crate::vm::opt_view(*auth),
            crate::vm::opt_view(*pci),
            with_pci,
        ),
{
    let mut headers: Vec<(String, String)> = Vec::new();
    match auth {
        Some(value) => headers.push(("authorization".to_owned(), value.clone())),
        None => {},
    }
    match pci {
        Some(value) => if with_pci {
            headers.push((PCI_CAPABILITY_HEADER.to_owned(), value.clone()));
        },
        None => {},
    }
    assert(header_views(headers@) =~= request_headers(
        crate::vm::opt_view(*auth),
        crate::vm::opt_view(*pci),
        with_pci,
    ));
    headers
}

/// The headers of an ordinary request.
pub fn request_with_optional_auth(auth: &Option<String>) -> (headers: Vec<(String, String)>)
    ensures
        header_views(headers@) == request_headers(crate::vm::opt_view(*auth), None, false),
{
    headers_with(auth, &None, false)
}

/// The headers of a request that shows the PCI token where there is one.
pub fn request_with_optional_pci_auth(auth: &Option<String>, pci: &Option<String>) -> (headers: Vec<
    (String, String),
>)
    ensures
        header_views(headers@) == request_headers(
            crate::vm::opt_view(*auth),
            crate::vm::opt_view(*pci),
            true,
        ),
{
    headers_with(auth, pci, true)
}

/// The headers of a request that needs the PCI token.
pub fn request_with_pci_auth(auth: &Option<String>, pci: &Option<String>) -> (r: Result<
    Vec<(String, String)>,
>)
    ensures
        match r {
            Ok(headers) => *pci is Some && header_views(headers@) == request_headers(
                crate::vm::opt_view(*auth),
                crate::vm::opt_view(*pci),
                true,
            ),
            Err(e) => *pci is None && e@ == ErrorView::InvalidConfig(
                "PCI operation requires SandboxConfig.pci_access_token"@,
            ),
        },
{
    if pci.is_none() {
        return Err(
            SandboxError::InvalidConfig(
                "PCI operation requires SandboxConfig.pci_access_token".to_owned(),
            ),
        );
    }
    Ok(headers_with(auth, pci, true))
}

// ---------------------------------------------------------------------------
// Timeouts from settings
// ---------------------------------------------------------------------------
/// The text of the error with which `str::parse::<u64>` refuses a text.
pub uninterp spec fn u64_parse_error(s: Seq<char>) -> Seq<char>;

/// Calls `str::parse::<u64>` on a text that is no such number, and gives the text of its error,
/// which depends on the given text alone.
#[verifier::external_body]
pub(crate) fn explain_u64(s: &str) -> (message: String)
    requires
        u64_numeral(s@) is None,
    ensures
        message@ == u64_parse_error(s@),
{
    s.parse::<u64>().err().map(|error| error.to_string()).unwrap_or_default()
}

/// The number of milliseconds that a setting names; it must be a number above zero.
pub open spec fn timeout_setting(name: Seq<char>, raw: Option<Seq<char>>) -> std::result::Result<
    Option<u64>,
    ErrorView,
> {
    match raw {
        None => Ok(None),
        Some(text) => match u64_numeral(trimmed(text)) {
            None => Err(
                ErrorView::InvalidConfig(
                    "invalid "@ + name + ": "@ + u64_parse_error(trimmed(text)),
                ),
            ),
            Some(millis) => if millis == 0 {
                Err(
                    ErrorView::InvalidConfig(
                        "invalid "@ + name + ": timeout must be greater than zero"@,
                    ),
                )
            } else {
                Ok(Some(millis))
            },
        },
    }
}

/// The timeout that a setting names, or the default where it is not set.
pub fn configured_portproxy_timeout(name: &str, raw: Option<&str>, default: Span) -> (r: Result<
    Span,
>)
    requires
        default.wf(),
    ensures
        match timeout_setting(name@, crate::exec::opt_str_view(raw)) {
            Ok(None) => r == Result::<Span>::Ok(default),
            Ok(Some(millis)) => r matches Ok(span) && span.wf() && span.total() == millis
                * 1_000_000,
            Err(error) => r matches Err(e) && e@ == error,
        },
{
    let text = match raw {
        Some(text) => trim(text),
        None => return Ok(default),
    };
    match parse_u64(&text) {
        None => {
            let reason = explain_u64(&text);
            Err(
                SandboxError::InvalidConfig(
                    "invalid ".to_owned().concat(name).concat(": ").concat(&reason),
                ),
            )
        },
        Some(millis) => {
            if millis == 0 {
                return Err(
                    SandboxError::InvalidConfig(
                        "invalid ".to_owned().concat(name).concat(
                            ": timeout must be greater than zero",
                        ),
                    ),
                );
            }
            Ok(Span::from_millis(millis))
        },
    }
}

// ---------------------------------------------------------------------------
// What requests carry
// ---------------------------------------------------------------------------
/// A token is sent as a bearer token, whether or not it says so itself; a blank one is not sent.
pub proof fn law_token_is_sent_as_bearer(token: Seq<char>)
    ensures
        auth_header(None) == std::result::Result::<Option<Seq<char>>, ErrorView>::Ok(None),
        trimmed(token).len() == 0 ==> auth_header(Some(token)) == std::result::Result::<
            Option<Seq<char>>,
            ErrorView,
        >::Ok(None),
        trimmed(token).len() > 0 ==> (auth_header(Some(token)) matches Ok(header) ==> {
            &&& header is Some
            &&& "Bearer "@.is_prefix_of(header->Some_0)
            &&& header->Some_0 == trimmed(token) || header->Some_0 == "Bearer "@ + trimmed(token)
            &&& header->Some_0 == trimmed(token) ==> "Bearer "@.is_prefix_of(trimmed(token))
        }),
{
    let t = trimmed(token);
    assert("Bearer "@ =~= ("Bearer "@ + t).take("Bearer "@.len() as int));
    if "Bearer "@.is_prefix_of(t) && t == "Bearer "@ + t {
        reveal_strlit("Bearer ");
        assert(t.len() != ("Bearer "@ + t).len());
    }
}

/// A token of printable ASCII characters is accepted, and one with a line end in it is refused.
pub proof fn law_printable_token_is_accepted(token: Seq<char>, i: int)
    requires
        trimmed(token).len() > 0,
    ensures
        (forall|k: int| 0 <= k < trimmed(token).len() ==> 32 <= #[trigger] trimmed(token)[k] as u32
            <= 126) ==> auth_header(Some(token)) is Ok,
        0 <= i < trimmed(token).len() && (trimmed(token)[i] == '\n' || trimmed(token)[i] == '\r')
            ==> auth_header(Some(token)) is Err,
{
    reveal_strlit("Bearer ");
    let t = trimmed(token);
    let b = bearer(t);
    if forall|k: int| 0 <= k < t.len() ==> 32 <= #[trigger] t[k] as u32 <= 126 {
        assert forall|k: int| 0 <= k < b.len() implies (#[trigger] b[k] as u32 >= 32 && b[k] as u32
            != 127) || b[k] == '\t' by {
            if b != t && k >= 7 {
                assert(b[k] == t[k - 7]);
            } else if b == t {
                assert(32 <= t[k] as u32 <= 126);
            }
        }
    }
    if 0 <= i < t.len() && (t[i] == '\n' || t[i] == '\r') {
        if b == t {
            assert(b[i] == t[i]);
        } else {
            assert(b[i + 7] == t[i]);
        }
    }
}

/// A request carries the token of the caller, and that for devices only where it is meant for them.
pub proof fn law_request_carries_tokens(auth: Option<Seq<char>>, pci: Option<Seq<char>>)
    ensures
        auth matches Some(value) ==> request_headers(auth, pci, false) == seq![
            ("authorization"@, value),
        ],
        auth is None ==> request_headers(auth, pci, false).len() == 0,
        pci matches Some(value) ==> request_headers(auth, pci, true) == request_headers(
            auth,
            pci,
            false,
        ).push(("x-chevalier-pci-token"@, value)),
        pci is None ==> request_headers(auth, pci, true) == request_headers(auth, pci, false),
{
}

/// A limit of time is read in milliseconds; none is set where it is missing, and one of zero, or one
/// that is no number, is an error.
pub proof fn law_time_limit_is_read(name: Seq<char>, raw: Seq<char>)
    ensures
        timeout_setting(name, None) == std::result::Result::<Option<u64>, ErrorView>::Ok(None),
        match u64_numeral(trimmed(raw)) {
            Some(n) => if n > 0 {
                timeout_setting(name, Some(raw)) == std::result::Result::<
                    Option<u64>,
                    ErrorView,
                >::Ok(Some(n))
            } else {
                timeout_setting(name, Some(raw)) is Err
            },
            None => timeout_setting(name, Some(raw)) is Err,
        },
{
}

/// A token that is sent as it is goes without white space around it; a blank one is not sent, and one
/// that cannot be sent is refused.
pub proof fn law_plain_token_is_sent_as_it_is(token: Seq<char>, label: Seq<char>)
    ensures
        plain_header(None, label) == std::result::Result::<Option<Seq<char>>, ErrorView>::Ok(None),
        trimmed(token).len() == 0 ==> plain_header(Some(token), label) == std::result::Result::<
            Option<Seq<char>>,
            ErrorView,
        >::Ok(None),
        trimmed(token).len() > 0 && is_metadata_text(trimmed(token)) ==> plain_header(
            Some(token),
            label,
        ) == std::result::Result::<Option<Seq<char>>, ErrorView>::Ok(Some(trimmed(token))),
        trimmed(token).len() > 0 && !is_metadata_text(trimmed(token)) ==> plain_header(
            Some(token),
            label,
        ) == std::result::Result::<Option<Seq<char>>, ErrorView>::Err(
            ErrorView::InvalidConfig(
                label + " is not valid ASCII: "@ + "failed to parse metadata value"@,
            ),
        ),
{
}

/// What can be sent has no control character in it but the tab.
pub proof fn law_control_characters_are_not_sent(s: Seq<char>, i: int)
    ensures
        is_metadata_text(s) && 0 <= i < s.len() && s[i] != '\t' ==> s[i] as u32 >= 32 && s[i] as u32
            != 127,
        0 <= i < s.len() && (s[i] as u32) < 32 && s[i] != '\t' ==> !is_metadata_text(s),
        0 <= i < s.len() && s[i] as u32 == 127 ==> !is_metadata_text(s),
{
}

/// An outcome is seen as what it is.
pub proof fn law_header_outcome_is_seen_as_it_is(text: String, e: SandboxError)
    ensures
        opt_outcome(Ok(Some(text))) == std::result::Result::<Option<Seq<char>>, ErrorView>::Ok(
            Some(text@),
        ),
        opt_outcome(Ok(None)) == std::result::Result::<Option<Seq<char>>, ErrorView>::Ok(None),
        opt_outcome(Err(e)) == std::result::Result::<Option<Seq<char>>, ErrorView>::Err(e@),
{
}

/// A token that cannot be sent, and a time limit of zero, are refused with their reason.
pub proof fn law_refused_settings_tell_why(token: Seq<char>, name: Seq<char>, text: Seq<char>)
    ensures
        trimmed(token).len() > 0 && !is_metadata_text(bearer(trimmed(token))) ==> auth_header(
            Some(token),
        ) == std::result::Result::<Option<Seq<char>>, ErrorView>::Err(
            ErrorView::InvalidConfig(
                "authorization token is not valid ASCII: failed to parse metadata value"@,
            ),
        ),
        u64_numeral(trimmed(text)) == Some(0u64) ==> timeout_setting(name, Some(text))
            == std::result::Result::<Option<u64>, ErrorView>::Err(
            ErrorView::InvalidConfig("invalid "@ + name + ": timeout must be greater than zero"@),
        ),
        u64_numeral(trimmed(text)) is None ==> timeout_setting(name, Some(text))
            == std::result::Result::<Option<u64>, ErrorView>::Err(
            ErrorView::InvalidConfig(
                "invalid "@ + name + ": "@ + u64_parse_error(trimmed(text)),
            ),
        ),
{
}

} // verus!
