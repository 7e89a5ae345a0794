//! Endpoints: their normal form, the host that they name, and the addresses derived from it.

use crate::error::outcome;
use crate::error::ErrorView;
use crate::error::Result;
use crate::error::SandboxError;
use crate::numeral::decimal;
use crate::numeral::parse_u64;
use crate::numeral::signed_decimal;
use crate::numeral::to_decimal;
use crate::numeral::to_signed_decimal;
use crate::numeral::u64_numeral;
use crate::order::increasing;
use crate::order::sorted_distinct;
use crate::table::looked_up;
use crate::table::StringMap;
use crate::text::after_last;
use crate::text::before_first;
use crate::text::chars_of;
use crate::text::contains;
use crate::text::contains_char;
use crate::text::find_from;
use crate::text::head_before_first;
use crate::text::is_white_space;
use crate::text::lemma_find_from;
use crate::text::occurs;
use crate::text::occurs_at;
use crate::text::replace;
use crate::text::replaced;
use crate::text::rsplit_once;
use crate::text::same;
use crate::text::split_at_first;
use crate::text::split_at_last;
use crate::text::split_once;
use crate::text::string_of_range;
use crate::text::strip_back;
use crate::text::strip_front;
use crate::text::tail_after_last;
use crate::text::trim;
use crate::text::trimmed;
use crate::text::views;
use vstd::prelude::*;

verus! {

// ---------------------------------------------------------------------------
// Normal form
// ---------------------------------------------------------------------------
/// The normal form of an endpoint: trimmed, and with a scheme.
pub open spec fn normalized_endpoint(raw: Seq<char>) -> std::result::Result<Seq<char>, ErrorView> {
    let value = trimmed(raw);
    if value.len() == 0 {
        Err(ErrorView::InvalidEndpoint("endpoint must not be empty"@))
    } else if occurs(value, "://"@) {
        Ok(value)
    } else {
        Ok("http://"@ + value)
    }
}

/// The normal form of an endpoint.
pub fn normalize_endpoint(raw: &str) -> (r: Result<String>)
    ensures
        outcome(r) == normalized_endpoint(raw@),
{
    let value = trim(raw);
    if value.as_str().is_empty() {
        return Err(SandboxError::InvalidEndpoint("endpoint must not be empty".to_owned()));
    }
    if contains(&value, "://") {
        return Ok(value);
    }
    Ok("http://".to_owned().concat(&value))
}

/// The normal form of an endpoint that may be missing or blank.
pub fn optional_endpoint(raw: Option<&str>) -> (r: Option<String>)
    ensures
        match r {
            Some(e) => raw is Some && normalized_endpoint(raw->Some_0@) == std::result::Result::<
                Seq<char>,
                ErrorView,
            >::Ok(e@),
            None => raw is None || trimmed(raw->Some_0@).len() == 0,
        },
{
    match raw {
        Some(raw) => match normalize_endpoint(raw) {
            Ok(endpoint) => Some(endpoint),
            Err(_) => None,
        },
        None => None,
    }
}

proof fn lemma_strip_back_ends(s: Seq<char>, drop: spec_fn(char) -> bool)
    ensures
        strip_back(s, drop).is_prefix_of(s),
        strip_back(s, drop).len() > 0 ==> !drop(strip_back(s, drop).last()),
    decreases s.len(),
{
    if s.len() > 0 && drop(s.last()) {
        lemma_strip_back_ends(s.drop_last(), drop);
        let t = strip_back(s, drop);
        assert(t == s.drop_last().subrange(0, t.len() as int));
        assert(t == s.subrange(0, t.len() as int));
    } else {
        assert(s == s.subrange(0, s.len() as int));
    }
}

proof fn lemma_strip_front_starts(s: Seq<char>, drop: spec_fn(char) -> bool)
    ensures
        strip_front(s, drop).len() > 0 ==> !drop(strip_front(s, drop)[0]),
    decreases s.len(),
{
    if s.len() > 0 && drop(s[0]) {
        lemma_strip_front_starts(s.drop_first(), drop);
    }
}

/// Trimmed text neither starts nor ends with white space.
pub proof fn lemma_trimmed_edges(s: Seq<char>)
    ensures
        trimmed(s).len() > 0 ==> !is_white_space(trimmed(s)[0]) && !is_white_space(
            trimmed(s).last(),
        ),
{
    let white = |c: char| is_white_space(c);
    let front = strip_front(s, white);
    lemma_strip_front_starts(s, white);
    lemma_strip_back_ends(front, white);
    if trimmed(s).len() > 0 {
        assert(trimmed(s)[0] == front[0]);
    }
}

/// Text without white space at its ends is what trimming leaves of it.
pub proof fn lemma_trimmed_fixed(s: Seq<char>)
    requires
        s.len() > 0 ==> !is_white_space(s[0]) && !is_white_space(s.last()),
    ensures
        trimmed(s) == s,
{
}

/// The normal form of an endpoint is its own normal form.
pub proof fn law_normalize_endpoint_idempotent(raw: Seq<char>)
    requires
        normalized_endpoint(raw) is Ok,
    ensures
        normalized_endpoint(normalized_endpoint(raw)->Ok_0) == normalized_endpoint(raw),
{
    let value = trimmed(raw);
    let normal = normalized_endpoint(raw)->Ok_0;
    lemma_trimmed_edges(raw);
    if occurs(value, "://"@) {
        lemma_trimmed_fixed(value);
    } else {
        reveal_strlit("http://");
        reveal_strlit("://");
        assert(normal[0] == 'h');
        assert(normal.last() == value.last());
        lemma_trimmed_fixed(normal);
        assert(normal.subrange(4, 7) == "://"@);
        assert(occurs_at(normal, "://"@, 4));
    }
}

/// The normal form of an endpoint always names a scheme.
pub proof fn law_normalized_endpoint_has_scheme(raw: Seq<char>)
    requires
        normalized_endpoint(raw) is Ok,
    ensures
        occurs(normalized_endpoint(raw)->Ok_0, "://"@),
{
    let value = trimmed(raw);
    if !occurs(value, "://"@) {
        reveal_strlit("http://");
        reveal_strlit("://");
        let normal = "http://"@ + value;
        assert(normal.subrange(4, 7) == "://"@);
        assert(occurs_at(normal, "://"@, 4));
    }
}

// ---------------------------------------------------------------------------
// Host
// ---------------------------------------------------------------------------
/// The host to dial: the loopback address in place of the unspecified one.
pub open spec fn dial_host(host: Seq<char>) -> Seq<char> {
    if host == "0.0.0.0"@ {
        "127.0.0.1"@
    } else if host == "::"@ {
        "::1"@
    } else {
        host
    }
}

/// The host to dial: the loopback address in place of the unspecified one.
pub fn normalize_dial_host(host: &str) -> (r: &str)
    ensures
        r@ == dial_host(host@),
{
    if same(host, "0.0.0.0") {
        "127.0.0.1"
    } else if same(host, "::") {
        "::1"
    } else {
        host
    }
}

/// The part of an endpoint between its scheme and its path.
pub open spec fn authority(normalized: Seq<char>) -> Seq<char> {
    before_first(
        match split_at_first(normalized, "://"@) {
            Some((_, rest)) => rest,
            None => normalized,
        },
        '/',
    )
}

/// The host that an authority names, the user before an `@` left out: what stands in brackets,
/// else what stands before the only colon, else all of it.
pub open spec fn host_of_authority(
    normalized: Seq<char>,
    with_user: Seq<char>,
) -> std::result::Result<Seq<char>, ErrorView> {
    let a = after_last(with_user, '@');
    if a.len() > 0 && a[0] == '[' {
        match find_from(a, seq![']'], 0) {
            Some(close) => if close == 1 {
                Err(ErrorView::InvalidEndpoint("endpoint has empty host: "@ + normalized))
            } else {
                Ok(dial_host(a.subrange(1, close)))
            },
            None => Err(
                ErrorView::InvalidEndpoint("endpoint has malformed ipv6 host: "@ + normalized),
            ),
        }
    } else {
        match split_at_last(a, ':') {
            Some((host, _)) => if host.len() > 0 && !host.contains(':') {
                Ok(dial_host(host))
            } else {
                Ok(dial_host(a))
            },
            None => Ok(dial_host(a)),
        }
    }
}

/// The host that an endpoint names.
pub open spec fn host_of_endpoint(endpoint: Seq<char>) -> std::result::Result<
    Seq<char>,
    ErrorView,
> {
    match normalized_endpoint(endpoint) {
        Err(e) => Err(e),
        Ok(normalized) => {
            let a = authority(normalized);
            if a.len() == 0 {
                Err(ErrorView::InvalidEndpoint("endpoint missing authority: "@ + normalized))
            } else {
                host_of_authority(normalized, a)
            }
        },
    }
}

/// The host that an endpoint names.
pub fn endpoint_host(endpoint: &str) -> (r: Result<String>)
    ensures
        outcome(r) == host_of_endpoint(endpoint@),
{
    let normalized = match normalize_endpoint(endpoint) {
        Ok(value) => value,
        Err(error) => return Err(error),
    };
    let without_scheme = match split_once(&normalized, "://") {
        Some(parts) => parts.1,
        None => normalized.clone(),
    };
    let whole = head_before_first(&without_scheme, '/');
    if whole.as_str().is_empty() {
        return Err(
            SandboxError::InvalidEndpoint(
                "endpoint missing authority: ".to_owned().concat(&normalized),
            ),
        );
    }
    let authority = tail_after_last(&whole, '@');
    let chars = chars_of(&authority);
    if chars.len() > 0 && chars[0] == '[' {
        let close: Vec<char> = vec![']'];
        assert(close@ == seq![']']);
        proof {
            lemma_find_from(authority@, seq![']'], 0);
        }
        match crate::text::find_chars(&chars, &close, 0) {
            Some(at) => {
                assert(authority@.subrange(at as int, at + 1)[0] == ']');
                assert(at > 0);
                if at == 1 {
                    return Err(
                        SandboxError::InvalidEndpoint(
                            "endpoint has empty host: ".to_owned().concat(&normalized),
                        ),
                    );
                }
                let host = string_of_range(&chars, 1, at);
                return Ok(normalize_dial_host(&host).to_owned());
            },
            None => {
                return Err(
                    SandboxError::InvalidEndpoint(
                        "endpoint has malformed ipv6 host: ".to_owned().concat(&normalized),
                    ),
                );
            },
        }
    }
    match rsplit_once(&authority, ':') {
        Some(parts) => {
            if !parts.0.as_str().is_empty() && !contains_char(&parts.0, ':') {
                return Ok(normalize_dial_host(&parts.0).to_owned());
            }
        },
        None => {},
    }
    Ok(normalize_dial_host(&authority).to_owned())
}

// ---------------------------------------------------------------------------
// Derived addresses
// ---------------------------------------------------------------------------
/// The endpoint that takes the place of `normalized`, where one does.
pub open spec fn overridden(
    overrides: Map<Seq<char>, Seq<char>>,
    normalized: Seq<char>,
) -> Seq<char> {
    match looked_up(overrides, normalized) {
        Some(other) => other,
        None => normalized,
    }
}

/// An endpoint in normal form, or the normal form of the one that takes its place.
pub open spec fn rewritten_endpoint(
    overrides: Map<Seq<char>, Seq<char>>,
    endpoint: Seq<char>,
) -> std::result::Result<Seq<char>, ErrorView> {
    match normalized_endpoint(endpoint) {
        Err(e) => Err(e),
        Ok(normalized) => match looked_up(overrides, normalized) {
            Some(other) => normalized_endpoint(other),
            None => Ok(normalized),
        },
    }
}

/// An endpoint in normal form, or the normal form of the one that takes its place.
pub fn rewrite_endpoint(overrides: &StringMap, endpoint: &str) -> (r: Result<String>)
    ensures
        outcome(r) == rewritten_endpoint(overrides@, endpoint@),
{
    let normalized = match normalize_endpoint(endpoint) {
        Ok(value) => value,
        Err(error) => return Err(error),
    };
    match overrides.get(&normalized) {
        Some(other) => normalize_endpoint(other),
        None => Ok(normalized),
    }
}

/// A host and a port; the host in brackets where it holds a colon.
pub open spec fn host_and_port(host: Seq<char>, port: u16) -> Seq<char> {
    if host.contains(':') {
        "["@ + host + "]:"@ + decimal(port as nat)
    } else {
        host + ":"@ + decimal(port as nat)
    }
}

/// The address of a port on the host of an endpoint.
pub open spec fn server_addr(
    overrides: Map<Seq<char>, Seq<char>>,
    endpoint: Seq<char>,
    port: u16,
) -> std::result::Result<Seq<char>, ErrorView> {
    match normalized_endpoint(endpoint) {
        Err(e) => Err(e),
        Ok(normalized) => match host_of_endpoint(overridden(overrides, normalized)) {
            Err(e) => Err(e),
            Ok(host) => Ok(host_and_port(host, port)),
        },
    }
}

/// The address of a port on the host of an endpoint.
pub fn portproxy_server_addr(
    endpoint_overrides: &StringMap,
    endpoint: &str,
    proxy_port: u16,
) -> (r: Result<String>)
    ensures
        outcome(r) == server_addr(endpoint_overrides@, endpoint@, proxy_port),
{
    let normalized = match normalize_endpoint(endpoint) {
        Ok(value) => value,
        Err(error) => return Err(error),
    };
    let found = match endpoint_overrides.get(&normalized) {
        Some(other) => endpoint_host(other),
        None => endpoint_host(&normalized),
    };
    let host = match found {
        Ok(value) => value,
        Err(error) => return Err(error),
    };
    let port = to_decimal(proxy_port as u64);
    if contains_char(&host, ':') {
        return Ok("[".to_owned().concat(&host).concat("]:").concat(&port));
    }
    Ok(host.concat(":").concat(&port))
}

/// The endpoint of the guest RPC that listens on `rpc_port`.
pub open spec fn guest_rpc_endpoint(
    overrides: Map<Seq<char>, Seq<char>>,
    daemon_endpoint: Seq<char>,
    rpc_port: i32,
) -> std::result::Result<Seq<char>, ErrorView> {
    if 0 <= rpc_port <= u16::MAX {
        match server_addr(overrides, daemon_endpoint, rpc_port as u16) {
            Ok(addr) => Ok("http://"@ + addr),
            Err(e) => Err(e),
        }
    } else {
        Err(
            ErrorView::InvalidResponse(
                "invalid rpc port from vm metadata: "@ + signed_decimal(rpc_port as int),
            ),
        )
    }
}

/// The endpoint of the guest RPC that listens on `rpc_port`.
pub fn rpc_endpoint(endpoint_overrides: &StringMap, daemon_endpoint: &str, rpc_port: i32) -> (r:
    Result<String>)
    ensures
        outcome(r) == guest_rpc_endpoint(endpoint_overrides@, daemon_endpoint@, rpc_port),
{
    if rpc_port < 0 || rpc_port > 65535 {
        let port = to_signed_decimal(rpc_port as i64);
        return Err(
            SandboxError::InvalidResponse(
                "invalid rpc port from vm metadata: ".to_owned().concat(&port),
            ),
        );
    }
    match portproxy_server_addr(endpoint_overrides, daemon_endpoint, rpc_port as u16) {
        Ok(addr) => Ok("http://".to_owned().concat(&addr)),
        Err(error) => Err(error),
    }
}

/// The key under which what is known of a VM on an endpoint is kept.
pub fn ready_key(endpoint: &str, vm_id: &str) -> (key: String)
    ensures
        key@ == endpoint@ + "::"@ + vm_id@,
{
    endpoint.to_owned().concat("::").concat(vm_id)
}

// ---------------------------------------------------------------------------
// Lists of endpoints
// ---------------------------------------------------------------------------
/// The error of the first gateway endpoint that has one.
pub open spec fn first_gateway_error(gateways: Seq<Seq<char>>) -> Option<ErrorView>
    decreases gateways.len(),
{
    if gateways.len() == 0 {
        None
    } else {
        match first_gateway_error(gateways.drop_last()) {
            Some(e) => Some(e),
            None => if trimmed(gateways.last()).len() == 0 {
                None
            } else {
                match normalized_endpoint(gateways.last()) {
                    Err(e) => Some(e),
                    Ok(_) => None,
                }
            },
        }
    }
}

/// `x` is the normal form of one of the gateway endpoints.
pub open spec fn names_gateway(gateways: Seq<Seq<char>>, x: Seq<char>) -> bool {
    exists|i: int|
        0 <= i < gateways.len() && trimmed(#[trigger] gateways[i]).len() > 0
            && normalized_endpoint(gateways[i]) == std::result::Result::<Seq<char>, ErrorView>::Ok(x)
}

/// The normal forms of the gateway endpoints other than `primary`, in increasing order, each
/// once. Blank entries are passed over.
pub fn normalize_gateways(gateways: &Vec<String>, primary: &str) -> (r: Result<Vec<String>>)
    ensures
        match r {
            Ok(list) => {
                &&& first_gateway_error(views(gateways@)) is None
                &&& increasing(views(list@))
                &&& forall|x: Seq<char>| #[trigger]
                    views(list@).contains(x) <==> names_gateway(views(gateways@), x) && x
                        != primary@
            },
            Err(e) => first_gateway_error(views(gateways@)) == Some(e@),
        },
{
    let ghost all = views(gateways@);
    let mut normal: Vec<String> = Vec::new();
    let mut i: usize = 0;
    assert(all.take(0).len() == 0);
    while i < gateways.len()
        invariant
            i <= gateways@.len(),
            all == views(gateways@),
            first_gateway_error(all.take(i as int)) is None,
            forall|x: Seq<char>| #[trigger]
                views(normal@).contains(x) <==> names_gateway(all.take(i as int), x) && x
                    != primary@,
        decreases gateways@.len() - i,
    {
        let ghost head = all.take(i as int);
        let ghost next = all.take(i + 1);
        proof {
            assert(next.drop_last() == head);
            assert(next.last() == gateways@[i as int]@);
        }
        let ghost before = views(normal@);
        let blank: bool = trim(&gateways[i]).as_str().is_empty();
        let mut pushed: bool = false;
        if !blank {
            match normalize_endpoint(&gateways[i]) {
                Ok(endpoint) => {
                    if !same(&endpoint, primary) {
                        normal.push(endpoint);
                        pushed = true;
                    }
                    proof {
                        assert forall|x: Seq<char>| #[trigger]
                            views(normal@).contains(x) <==> before.contains(x) || (x == endpoint@
                                && x != primary@) by {
                            if before.contains(x) {
                                let k = choose|k: int| 0 <= k < before.len() && before[k] == x;
                                assert(views(normal@)[k] == x);
                            }
                            if x == endpoint@ && x != primary@ {
                                assert(views(normal@)[normal@.len() - 1] == x);
                            }
                            if views(normal@).contains(x) && pushed {
                                let k = choose|k: int|
                                    0 <= k < normal@.len() && views(normal@)[k] == x;
                                if k < before.len() {
                                    assert(before[k] == x);
                                }
                            }
                        }
                    }
                },
                Err(error) => {
                    proof {
                        lemma_gateway_error_stays(all, i + 1);
                    }
                    return Err(error);
                },
            }
        }
        proof {
            assert forall|x: Seq<char>| #[trigger]
                views(normal@).contains(x) <==> names_gateway(next, x) && x != primary@ by {
                if names_gateway(head, x) {
                    let k = choose|k: int|
                        0 <= k < head.len() && trimmed(#[trigger] head[k]).len() > 0
                            && normalized_endpoint(head[k]) == std::result::Result::<
                            Seq<char>,
                            ErrorView,
                        >::Ok(x);
                    assert(next[k] == head[k]);
                    assert(names_gateway(next, x));
                }
                if !blank && normalized_endpoint(gateways@[i as int]@) == std::result::Result::<
                    Seq<char>,
                    ErrorView,
                >::Ok(x) {
                    assert(trimmed(next[i as int]).len() > 0);
                    assert(names_gateway(next, x));
                }
                if names_gateway(next, x) {
                    let k = choose|k: int|
                        0 <= k < next.len() && trimmed(#[trigger] next[k]).len() > 0
                            && normalized_endpoint(next[k]) == std::result::Result::<
                            Seq<char>,
                            ErrorView,
                        >::Ok(x);
                    if k < i {
                        assert(head[k] == next[k]);
                        assert(names_gateway(head, x));
                    }
                }
            }
        }
        i += 1;
    }
    assert(all.take(all.len() as int) == all);
    Ok(sorted_distinct(&normal))
}

proof fn lemma_gateway_error_stays(gateways: Seq<Seq<char>>, n: int)
    requires
        0 <= n <= gateways.len(),
        first_gateway_error(gateways.take(n)) is Some,
    ensures
        first_gateway_error(gateways) == first_gateway_error(gateways.take(n)),
    decreases gateways.len() - n,
{
    if n < gateways.len() {
        assert(gateways.take(n + 1).drop_last() == gateways.take(n));
        lemma_gateway_error_stays(gateways, n + 1);
    } else {
        assert(gateways.take(n) == gateways);
    }
}

/// All endpoints that may be tried: the primary one, the gateways and the nodes that a
/// distributed control plane lists, in increasing order, each once.
pub fn candidate_endpoints(primary: &str, gateways: &Vec<String>, nodes: &Vec<String>) -> (list:
    Vec<String>)
    ensures
        increasing(views(list@)),
        forall|x: Seq<char>| #[trigger]
            views(list@).contains(x) <==> x == primary@ || views(gateways@).contains(x) || views(
                nodes@,
            ).contains(x),
{
    let mut list = sorted_distinct(gateways);
    crate::order::insert_increasing(&mut list, primary.to_owned());
    let ghost base = views(list@);
    let ghost all = views(nodes@);
    let mut i: usize = 0;
    assert(all.take(0).len() == 0);
    while i < nodes.len()
        invariant
            i <= nodes@.len(),
            all == views(nodes@),
            increasing(views(list@)),
            forall|x: Seq<char>| #[trigger]
                views(list@).contains(x) <==> base.contains(x) || all.take(i as int).contains(x),
        decreases nodes@.len() - i,
    {
        let ghost before = views(list@);
        crate::order::insert_increasing(&mut list, nodes[i].clone());
        proof {
            let head = all.take(i as int);
            let next = all.take(i + 1);
            assert(next == head.push(all[i as int]));
            assert forall|x: Seq<char>| #[trigger]
                views(list@).contains(x) <==> base.contains(x) || next.contains(x) by {
                if head.contains(x) {
                    let k = choose|k: int| 0 <= k < head.len() && head[k] == x;
                    assert(next[k] == x);
                }
                if x == all[i as int] {
                    assert(next[i as int] == x);
                }
                assert(views(list@).contains(x) <==> before.contains(x) || x == all[i as int]);
            }
        }
        i += 1;
    }
    assert(all.take(all.len() as int) == all);
    list
}

// ---------------------------------------------------------------------------
// Forwarded ports
// ---------------------------------------------------------------------------
/// The port that a decimal numeral stands for.
pub open spec fn port_numeral(s: Seq<char>) -> Option<u16> {
    match u64_numeral(s) {
        Some(n) => if n <= u16::MAX {
            Some(n as u16)
        } else {
            None
        },
        None => None,
    }
}

fn parse_port(s: &str) -> (port: Option<u16>)
    ensures
        port == port_numeral(s@),
{
    match parse_u64(s) {
        Some(n) => if n <= 65535 {
            Some(n as u16)
        } else {
            None
        },
        None => None,
    }
}

/// The range of ports that a setting such as `20000-20100` or `20000:20100` names, the smaller
/// one first; `None` where it names none.
pub open spec fn port_range(raw: Seq<char>) -> Option<(u16, u16)> {
    let normalized = replaced(trimmed(raw), ":"@, "-"@);
    match split_at_first(normalized, "-"@) {
        None => None,
        Some((start, end)) => match (port_numeral(trimmed(start)), port_numeral(trimmed(end))) {
            (Some(a), Some(b)) => if a == 0 || b == 0 {
                None
            } else if a <= b {
                Some((a, b))
            } else {
                Some((b, a))
            },
            _ => None,
        },
    }
}

/// The range of ports that the setting names.
pub fn configured_forward_port_range(raw: Option<&str>) -> (range: Option<(u16, u16)>)
    ensures
        range == match raw {
            Some(text) => port_range(text@),
            None => None,
        },
        range matches Some(r) ==> 0 < r.0 <= r.1,
{
    let text = match raw {
        Some(text) => trim(text),
        None => return None,
    };
    proof {
        reveal_strlit(":");
    }
    let normalized = replace(&text, ":", "-");
    let parts = match split_once(&normalized, "-") {
        Some(parts) => parts,
        None => return None,
    };
    let start = match parse_port(&trim(&parts.0)) {
        Some(port) => port,
        None => return None,
    };
    let end = match parse_port(&trim(&parts.1)) {
        Some(port) => port,
        None => return None,
    };
    if start == 0 || end == 0 {
        return None;
    }
    if start <= end {
        Some((start, end))
    } else {
        Some((end, start))
    }
}

/// The address on which forwarded ports listen: the setting where it is not blank, else the
/// loopback address.
pub fn configured_forward_bind_addr(raw: Option<&str>) -> (addr: String)
    ensures
        addr@ == match raw {
            Some(text) => if trimmed(text@).len() > 0 {
                trimmed(text@)
            } else {
                "127.0.0.1"@
            },
            None => "127.0.0.1"@,
        },
{
    match raw {
        Some(text) => {
            let value = trim(text);
            if value.as_str().is_empty() {
                "127.0.0.1".to_owned()
            } else {
                value
            }
        },
        None => "127.0.0.1".to_owned(),
    }
}

// ---------------------------------------------------------------------------
// What endpoints mean
// ---------------------------------------------------------------------------
/// An endpoint that names a scheme is taken as it stands, without the space around it; one that names
/// none is one of HTTP; and a blank one is an error.
pub proof fn law_endpoint_without_scheme_is_http(raw: Seq<char>)
    ensures
        trimmed(raw).len() == 0 <==> normalized_endpoint(raw) is Err,
        trimmed(raw).len() > 0 && occurs(trimmed(raw), "://"@) ==> normalized_endpoint(raw)
            == std::result::Result::<Seq<char>, ErrorView>::Ok(trimmed(raw)),
        trimmed(raw).len() > 0 && !occurs(trimmed(raw), "://"@) ==> normalized_endpoint(raw)
            == std::result::Result::<Seq<char>, ErrorView>::Ok("http://"@ + trimmed(raw)),
{
}

/// Wildcard addresses are dialled on this host, and every other host as it is named.
pub proof fn law_wildcard_is_dialled_here(host: Seq<char>)
    ensures
        dial_host("0.0.0.0"@) == "127.0.0.1"@,
        dial_host("::"@) == "::1"@,
        host != "0.0.0.0"@ && host != "::"@ ==> dial_host(host) == host,
{
    reveal_strlit("0.0.0.0");
    reveal_strlit("::");
    assert("0.0.0.0"@.len() == 7 && "::"@.len() == 2);
}

/// The text holds none of the signs that part an endpoint, and no space.
pub open spec fn is_bare(s: Seq<char>) -> bool {
    forall|i: int|
        0 <= i < s.len() ==> (#[trigger] s[i]) != ':' && s[i] != '/' && s[i] != '@' && s[i] != '['
            && s[i] != ']' && !is_white_space(s[i])
}

/// The host of an endpoint is what stands between the scheme and the port.
pub proof fn law_host_stands_before_port(
    scheme: Seq<char>,
    host: Seq<char>,
    port: Seq<char>,
)
    requires
        is_bare(scheme),
        is_bare(host),
        is_bare(port),
        scheme.len() > 0,
        host.len() > 0,
        port.len() > 0,
    ensures
        host_of_endpoint(scheme + "://"@ + host + ":"@ + port) == std::result::Result::<
            Seq<char>,
            ErrorView,
        >::Ok(dial_host(host)),
{
    reveal_strlit("://");
    reveal_strlit(":");
    let sep = "://"@;
    let rest = host + ":"@ + port;
    let e = scheme + sep + host + ":"@ + port;
    assert(e =~= scheme + sep + rest);
    assert(e[0] == scheme[0]);
    assert(e.last() == port.last() && port.last() == port[port.len() - 1]);
    lemma_trimmed_fixed(e);
    let n = scheme.len() as int;
    assert(e.subrange(n, n + 3) =~= sep);
    assert(occurs_at(e, sep, n));
    assert(occurs(e, sep));
    // The scheme ends at the first sign.
    crate::text::law_split_is_at_first(e, sep);
    lemma_find_from(e, sep, 0);
    let at = find_from(e, sep, 0)->Some_0;
    assert(at == n) by {
        if at < n {
            assert(e.subrange(at, at + 3)[0] == e[at]);
            assert(sep[0] == ':');
            assert(scheme[at] == e[at]);
        }
        if at > n {
            assert(!occurs_at(e, sep, n));
        }
    }
    assert(e.skip(n + 3) =~= rest);
    // No slash stands behind it.
    assert(!occurs(rest, seq!['/'])) by {
        if occurs(rest, seq!['/']) {
            let k = choose|k: int| #[trigger] occurs_at(rest, seq!['/'], k);
            assert(rest.subrange(k, k + 1)[0] == '/');
            lemma_signs_of_authority(host, port, k);
        }
    }
    crate::text::law_split_is_at_first(rest, seq!['/']);
    lemma_find_from(rest, seq!['/'], 0);
    if find_from(rest, seq!['/'], 0) is Some {
        assert(occurs_at(rest, seq!['/'], find_from(rest, seq!['/'], 0)->Some_0));
    }
    assert(authority(e) == rest);
    // Nor does a user.
    crate::text::law_split_is_at_last(rest, '@');
    if let Some((head, tail)) = split_at_last(rest, '@') {
        assert((head + seq!['@'] + tail)[head.len() as int] == '@');
        lemma_signs_of_authority(host, port, head.len() as int);
    }
    assert(after_last(rest, '@') == rest);
    assert(rest[0] == host[0]);
    // The port begins at the last colon.
    crate::text::law_split_is_at_last(rest, ':');
    assert(rest[host.len() as int] == ':');
    assert(rest.contains(':'));
    let (head, tail) = split_at_last(rest, ':')->Some_0;
    assert(rest == head + seq![':'] + tail);
    assert(head.len() == host.len()) by {
        assert(rest[head.len() as int] == ':');
        lemma_signs_of_authority(host, port, head.len() as int);
    }
    assert(head =~= host) by {
        assert forall|i: int| 0 <= i < head.len() implies head[i] == host[i] by {
            assert(rest[i] == head[i] && rest[i] == host[i]);
        }
    }
    assert(!host.contains(':'));
}

proof fn lemma_signs_of_authority(host: Seq<char>, port: Seq<char>, k: int)
    requires
        is_bare(host),
        is_bare(port),
        0 <= k < (host + ":"@ + port).len(),
    ensures
        (host + ":"@ + port)[k] != '/',
        (host + ":"@ + port)[k] != '@',
        (host + ":"@ + port)[k] == ':' ==> k == host.len(),
{
    reveal_strlit(":");
    let rest = host + ":"@ + port;
    if k < host.len() {
        assert(rest[k] == host[k]);
    } else if k > host.len() {
        assert(rest[k] == port[k - host.len() - 1]);
    }
}

/// An address names its host and its port, the host in brackets where it is one of IPv6.
pub proof fn law_address_names_host_and_port(host: Seq<char>, port: u16)
    ensures
        !host.contains(':') ==> host_and_port(host, port) == host + ":"@ + decimal(port as nat),
        host.contains(':') ==> host_and_port(host, port) == "["@ + host + "]:"@ + decimal(
            port as nat,
        ),
{
}

/// An endpoint that is overridden is replaced by the other one, and every other endpoint stays.
pub proof fn law_override_replaces_endpoint(
    overrides: Map<Seq<char>, Seq<char>>,
    endpoint: Seq<char>,
    normal: Seq<char>,
)
    requires
        normalized_endpoint(endpoint) == std::result::Result::<Seq<char>, ErrorView>::Ok(normal),
    ensures
        overrides.contains_key(normal) ==> rewritten_endpoint(overrides, endpoint)
            == normalized_endpoint(overrides[normal]),
        !overrides.contains_key(normal) ==> rewritten_endpoint(overrides, endpoint)
            == std::result::Result::<Seq<char>, ErrorView>::Ok(normal),
        overrides.contains_key(normal) ==> overridden(overrides, normal) == overrides[normal],
        !overrides.contains_key(normal) ==> overridden(overrides, normal) == normal,
{
}

/// The guest of a VM is reached over HTTP on the host of its node, on the port that the VM names.
pub proof fn law_guest_is_reached_on_host_of_node(
    overrides: Map<Seq<char>, Seq<char>>,
    endpoint: Seq<char>,
    normal: Seq<char>,
    host: Seq<char>,
    port: i32,
)
    requires
        normalized_endpoint(endpoint) == std::result::Result::<Seq<char>, ErrorView>::Ok(normal),
        host_of_endpoint(overridden(overrides, normal)) == std::result::Result::<
            Seq<char>,
            ErrorView,
        >::Ok(host),
    ensures
        0 <= port <= 65535 && !host.contains(':') ==> guest_rpc_endpoint(overrides, endpoint, port)
            == std::result::Result::<Seq<char>, ErrorView>::Ok(
            "http://"@ + (host + ":"@ + decimal(port as nat)),
        ),
        port < 0 || port > 65535 ==> guest_rpc_endpoint(overrides, endpoint, port) is Err,
{
}

/// A range of ports is read with its smaller end first, from either sign between its ends. No end of it
/// is zero.
pub proof fn law_port_range_is_read(raw: Seq<char>, start: Seq<char>, end: Seq<char>, a: u16, b: u16)
    requires
        split_at_first(replaced(trimmed(raw), ":"@, "-"@), "-"@) == Some((start, end)),
        u64_numeral(trimmed(start)) == Some(a as u64),
        u64_numeral(trimmed(end)) == Some(b as u64),
    ensures
        a > 0 && b > 0 && a <= b ==> port_range(raw) == Some((a, b)),
        a > 0 && b > 0 && a > b ==> port_range(raw) == Some((b, a)),
        a == 0 || b == 0 ==> port_range(raw) is None,
{
}

/// The first gateway that is no endpoint is the error; a blank one is passed over.
pub proof fn law_first_bad_gateway_is_told(gateways: Seq<Seq<char>>, last: Seq<char>)
    ensures
        first_gateway_error(Seq::<Seq<char>>::empty()) is None,
        first_gateway_error(gateways) is Some ==> first_gateway_error(gateways.push(last))
            == first_gateway_error(gateways),
        first_gateway_error(gateways) is None && trimmed(last).len() == 0 ==> first_gateway_error(
            gateways.push(last),
        ) is None,
        first_gateway_error(gateways) is None && trimmed(last).len() > 0 ==> match normalized_endpoint(
            last,
        ) {
            Ok(_) => first_gateway_error(gateways.push(last)) is None,
            Err(e) => first_gateway_error(gateways.push(last)) == Some(e),
        },
{
    assert(gateways.push(last).drop_last() =~= gateways);
}

/// A gateway is named where one that is not blank comes to it.
pub proof fn law_gateways_are_named(gateways: Seq<Seq<char>>, i: int, x: Seq<char>)
    ensures
        0 <= i < gateways.len() && trimmed(gateways[i]).len() > 0 && normalized_endpoint(
            gateways[i],
        ) == std::result::Result::<Seq<char>, ErrorView>::Ok(x) ==> names_gateway(gateways, x),
        (forall|k: int|
            0 <= k < gateways.len() ==> trimmed(#[trigger] gateways[k]).len() == 0)
            ==> !names_gateway(gateways, x),
        !names_gateway(Seq::empty(), x),
{
}

/// An endpoint that is blank, and one without a host, are refused with their reason; so is a port that
/// is none.
pub proof fn law_refused_endpoints_tell_why(
    raw: Seq<char>,
    overrides: Map<Seq<char>, Seq<char>>,
    port: i32,
)
    ensures
        trimmed(raw).len() == 0 ==> normalized_endpoint(raw) == std::result::Result::<
            Seq<char>,
            ErrorView,
        >::Err(ErrorView::InvalidEndpoint("endpoint must not be empty"@)),
        trimmed(raw).len() == 0 ==> host_of_endpoint(raw) is Err,
        normalized_endpoint(raw) is Ok && authority(normalized_endpoint(raw)->Ok_0).len() == 0
            ==> host_of_endpoint(raw) == std::result::Result::<Seq<char>, ErrorView>::Err(
            ErrorView::InvalidEndpoint(
                "endpoint missing authority: "@ + normalized_endpoint(raw)->Ok_0,
            ),
        ),
        port < 0 || port > 65535 ==> guest_rpc_endpoint(overrides, raw, port)
            == std::result::Result::<Seq<char>, ErrorView>::Err(
            ErrorView::InvalidResponse(
                "invalid rpc port from vm metadata: "@ + signed_decimal(port as int),
            ),
        ),
{
}

/// The host of an address in brackets is what stands between them; none there, or no closing bracket, is
/// an error. What stands before an `@` is no part of the host.
pub proof fn law_host_stands_in_brackets(
    normalized: Seq<char>,
    user: Seq<char>,
    host: Seq<char>,
    rest: Seq<char>,
)
    requires
        !host.contains(']'),
        !host.contains('@'),
        !rest.contains('@'),
    ensures
        host.len() > 0 ==> host_of_authority(normalized, seq!['['] + host + seq![']'] + rest)
            == std::result::Result::<Seq<char>, ErrorView>::Ok(dial_host(host)),
        host.len() == 0 ==> host_of_authority(normalized, seq!['['] + host + seq![']'] + rest)
            == std::result::Result::<Seq<char>, ErrorView>::Err(
            ErrorView::InvalidEndpoint("endpoint has empty host: "@ + normalized),
        ),
        host_of_authority(normalized, seq!['['] + host) == std::result::Result::<
            Seq<char>,
            ErrorView,
        >::Err(ErrorView::InvalidEndpoint("endpoint has malformed ipv6 host: "@ + normalized)),
        host_of_authority(normalized, user + seq!['@'] + host) == host_of_authority(
            normalized,
            host,
        ),
{
    let whole = seq!['['] + host + seq![']'] + rest;
    let n = host.len() as int;
    assert(!whole.contains('@')) by {
        if whole.contains('@') {
            let i = choose|i: int| 0 <= i < whole.len() && whole[i] == '@';
            if 1 <= i < n + 1 {
                assert(host[i - 1] == '@');
            } else if i > n + 1 {
                assert(rest[i - n - 2] == '@');
            }
        }
    }
    lemma_after_last_of_none(whole);
    assert(whole.subrange(n + 1, n + 2) =~= seq![']']);
    assert(occurs_at(whole, seq![']'], n + 1));
    lemma_find_from(whole, seq![']'], 0);
    let at = find_from(whole, seq![']'], 0)->Some_0;
    assert(whole.subrange(at, at + 1)[0] == whole[at]);
    if 1 <= at < n + 1 {
        assert(host[at - 1] == ']');
    }
    assert(at == n + 1);
    assert(whole.subrange(1, at) =~= host);
    let open = seq!['['] + host;
    assert(!open.contains('@')) by {
        if open.contains('@') {
            let i = choose|i: int| 0 <= i < open.len() && open[i] == '@';
            if i >= 1 {
                assert(host[i - 1] == '@');
            }
        }
    }
    lemma_after_last_of_none(open);
    lemma_find_from(open, seq![']'], 0);
    if let Some(k) = find_from(open, seq![']'], 0) {
        assert(open.subrange(k, k + 1)[0] == open[k]);
        if k >= 1 {
            assert(host[k - 1] == ']');
        }
    }
    let full = user + seq!['@'] + host;
    crate::text::law_split_is_at_last(full, '@');
    crate::text::law_split_is_at_last(host, '@');
    assert(full[user.len() as int] == '@');
    assert(full.contains('@'));
    lemma_after_last_of_none(host);
    if let Some((head, tail)) = split_at_last(full, '@') {
        if head.len() < user.len() {
            assert(tail[user.len() - head.len() - 1] == '@');
        }
        if head.len() > user.len() {
            assert(full[head.len() as int] == '@');
            assert(host[head.len() - user.len() - 1] == '@');
        }
        assert(tail =~= full.skip(head.len() as int + 1));
        assert(host =~= full.skip(user.len() as int + 1));
    }
}

proof fn lemma_after_last_of_none(s: Seq<char>)
    requires
        !s.contains('@'),
    ensures
        after_last(s, '@') == s,
{
    crate::text::law_split_is_at_last(s, '@');
    if let Some((head, tail)) = split_at_last(s, '@') {
        assert(s[head.len() as int] == '@');
    }
}

/// A host without a port is the whole address.
pub proof fn law_host_may_stand_alone(normalized: Seq<char>, host: Seq<char>)
    requires
        host.len() > 0,
        host[0] != '[',
        !host.contains('@'),
        !host.contains(':'),
    ensures
        host_of_authority(normalized, host) == std::result::Result::<Seq<char>, ErrorView>::Ok(
            dial_host(host),
        ),
{
    lemma_after_last_of_none(host);
    crate::text::law_split_is_at_last(host, ':');
    if let Some((head, tail)) = split_at_last(host, ':') {
        assert(host[head.len() as int] == ':');
    }
}

} // verus!
