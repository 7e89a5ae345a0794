//! Ports of a guest that are forwarded to ports of this host.

use crate::error::ErrorView;
use crate::error::SandboxError;
use crate::numeral::decimal;
use crate::numeral::to_decimal;
use crate::vm::opt_view;
use std::collections::HashMap;
use vstd::prelude::*;

verus! {

// ---------------------------------------------------------------------------
// Finding a port
// ---------------------------------------------------------------------------
/// The ports to try, in order: those of the range, or the one by which the system picks a free
/// one.
pub open spec fn ports_to_try(range: Option<(u16, u16)>) -> Seq<u16> {
    match range {
        None => seq![0u16],
        Some((first, last)) => if first <= last {
            Seq::new((last - first + 1) as nat, |i: int| (first + i) as u16)
        } else {
            Seq::empty()
        },
    }
}

/// What is said where a range has no port to try.
pub open spec fn no_port_text(range: (u16, u16), bind_addr: Seq<char>) -> Seq<char> {
    "no available forward port in range "@ + decimal(range.0 as nat) + "-"@ + decimal(
        range.1 as nat,
    ) + " on "@ + bind_addr
}

/// The search for a port of this host that can be listened on.
#[derive(Debug)]
pub struct PortSearch {
    range: Option<(u16, u16)>,
    tried: u32,
    last_error: Option<String>,
}

/// The model of a `PortSearch`.
pub struct PortSearchView {
    pub range: Option<(u16, u16)>,
    pub tried: nat,
    pub last_error: Option<Seq<char>>,
}

impl View for PortSearch {
    type V = PortSearchView;

    closed spec fn view(&self) -> PortSearchView {
        PortSearchView {
            range: self.range,
            tried: self.tried as nat,
            last_error: opt_view(self.last_error),
        }
    }
}

impl PortSearchView {
    /// The port to try next.
    pub open spec fn next_port(self) -> Option<u16> {
        let ports = ports_to_try(self.range);
        if self.tried < ports.len() {
            Some(ports[self.tried as int])
        } else {
            None
        }
    }

    /// The search after the next port could not be listened on.
    pub open spec fn after_refusal(self, error: Seq<char>) -> PortSearchView {
        if self.next_port() is Some {
            PortSearchView {
                range: self.range,
                tried: self.tried + 1,
                last_error: Some(error),
            }
        } else {
            self
        }
    }
}

impl PortSearch {
    /// A search over a range, or for any free port.
    pub fn new(range: Option<(u16, u16)>) -> (search: PortSearch)
        ensures
            search@ == (PortSearchView { range, tried: 0, last_error: None }),
    {
        PortSearch { range, tried: 0, last_error: None }
    }

    /// The port to try next; `None` where every port has been tried.
    pub fn next_port(&self) -> (port: Option<u16>)
        ensures
            port == self@.next_port(),
    {
        match self.range {
            None => {
                if self.tried == 0 {
                    Some(0)
                } else {
                    None
                }
            },
            Some((first, last)) => {
                if first <= last && self.tried <= (last - first) as u32 {
                    Some((first as u32 + self.tried) as u16)
                } else {
                    None
                }
            },
        }
    }

    /// Notes that the port to try next could not be listened on.
    pub fn refused(&mut self, error: String)
        ensures
            final(self)@ == old(self)@.after_refusal(error@),
    {
        match self.next_port() {
            Some(_) => {
                assert(self.tried < 65536);
                self.tried += 1;
                self.last_error = Some(error);
            },
            None => {},
        }
    }

    /// The error of a search that has found no port: the one of the last try.
    pub fn failure(self, bind_addr: &str) -> (e: SandboxError)
        ensures
            e@ == ErrorView::Io(
                match self@.last_error {
                    Some(m) => m,
                    None => match self@.range {
                        Some(range) => no_port_text(range, bind_addr@),
                        None => ""@,
                    },
                },
            ),
    {
        match self.last_error {
            Some(m) => SandboxError::Io(m),
            None => match self.range {
                Some((first, last)) => {
                    let first = to_decimal(first as u64);
                    let last = to_decimal(last as u64);
                    SandboxError::Io(
                        "no available forward port in range ".to_owned().concat(&first).concat(
                            "-",
                        ).concat(&last).concat(" on ").concat(bind_addr),
                    )
                },
                None => SandboxError::Io("".to_owned()),
            },
        }
    }
}

/// The search after a number of ports in turn could not be listened on.
pub open spec fn after_refusals(s: PortSearchView, errors: Seq<Seq<char>>) -> PortSearchView
    decreases errors.len(),
{
    if errors.len() == 0 {
        s
    } else {
        after_refusals(s, errors.drop_last()).after_refusal(errors.last())
    }
}

/// A search over a range tries its ports from the first to the last, each once; once all have been
/// refused there is none left, and the last refusal is the one reported.
pub proof fn law_ports_are_tried_in_order(first: u16, last: u16, errors: Seq<Seq<char>>)
    requires
        first <= last,
    ensures
        ({
            let start = PortSearchView {
                range: Some((first, last)),
                tried: 0,
                last_error: None,
            };
            let s = after_refusals(start, errors);
            &&& errors.len() <= last - first ==> s.next_port() == Some(
                (first + errors.len()) as u16,
            )
            &&& errors.len() > last - first ==> s.next_port() is None
            &&& 0 < errors.len() <= last - first + 1 ==> s.last_error == Some(errors.last())
        }),
    decreases errors.len(),
{
    let start = PortSearchView { range: Some((first, last)), tried: 0, last_error: None };
    lemma_refusals_count(start, errors);
}

proof fn lemma_refusals_count(start: PortSearchView, errors: Seq<Seq<char>>)
    requires
        start.tried == 0,
    ensures
        ({
            let s = after_refusals(start, errors);
            let all = ports_to_try(start.range).len();
            &&& s.range == start.range
            &&& s.tried == if errors.len() <= all {
                errors.len()
            } else {
                all
            }
            &&& 0 < errors.len() <= all ==> s.last_error == Some(errors.last())
        }),
    decreases errors.len(),
{
    if errors.len() > 0 {
        lemma_refusals_count(start, errors.drop_last());
    }
}

// ---------------------------------------------------------------------------
// The forwards of a node
// ---------------------------------------------------------------------------
/// What a forwarded connection starts with: the port of the guest, its high byte first.
pub open spec fn preamble(guest_port: u16) -> Seq<u8> {
    seq![(guest_port / 256) as u8, (guest_port % 256) as u8]
}

/// What a forwarded connection starts with.
pub fn forward_preamble(guest_port: u16) -> (bytes: [u8; 2])
    ensures
        bytes@ == preamble(guest_port),
{
    let bytes: [u8; 2] = [(guest_port / 256) as u8, (guest_port % 256) as u8];
    assert(bytes@ =~= preamble(guest_port));
    bytes
}

/// The port of the guest can be read from the first two bytes of a forwarded connection.
pub proof fn law_preamble_names_the_port(guest_port: u16)
    ensures
        preamble(guest_port).len() == 2,
        preamble(guest_port)[0] * 256 + preamble(guest_port)[1] == guest_port,
{
}

/// The ports of this host that are forwarded, each with what serves it.
#[verifier::reject_recursive_types(T)]
#[derive(Debug)]
pub struct Forwards<T> {
    tasks: HashMap<u16, T>,
}

impl<T> View for Forwards<T> {
    type V = Map<u16, T>;

    closed spec fn view(&self) -> Map<u16, T> {
        self.tasks@
    }
}

impl<T> Forwards<T> {
    /// No forwards.
    pub fn new() -> (forwards: Forwards<T>)
        ensures
            forwards@ == Map::<u16, T>::empty(),
    {
        Forwards { tasks: HashMap::new() }
    }

    /// Notes what serves a port.
    pub fn register(&mut self, host_port: u16, task: T)
        ensures
            final(self)@ == old(self)@.insert(host_port, task),
    {
        broadcast use vstd::std_specs::hash::group_hash_axioms;

        let _ = self.tasks.insert(host_port, task);
    }

    /// Hands out what serves a port, which is then forwarded no more.
    pub fn unregister(&mut self, host_port: u16) -> (task: Option<T>)
        ensures
            final(self)@ == old(self)@.remove(host_port),
            match task {
                Some(t) => old(self)@.contains_key(host_port) && old(self)@[host_port] == t,
                None => !old(self)@.contains_key(host_port),
            },
    {
        broadcast use vstd::std_specs::hash::group_hash_axioms;

        let task = self.tasks.remove(&host_port);
        assert(self@ =~= old(self)@.remove(host_port));
        task
    }
}

/// A forwarded port, with what has to be given back when it is closed.
#[derive(Debug)]
pub struct ForwardHandle<R> {
    pub guest_port: u16,
    pub host_port: u16,
    /// What has to be given back when the port is closed; `None` once it has been.
    pub registration: Option<R>,
}

impl<R> ForwardHandle<R> {
    /// A port that is forwarded.
    pub fn new(guest_port: u16, host_port: u16, registration: R) -> (handle: ForwardHandle<R>)
        ensures
            handle == (ForwardHandle {
                guest_port,
                host_port,
                registration: Some(registration),
            }),
    {
        ForwardHandle { guest_port, host_port, registration: Some(registration) }
    }

    /// Hands out what has to be given back. A handle that has been closed has nothing more to
    /// give, so a port is released once.
    pub fn close(&mut self) -> (registration: Option<R>)
        ensures
            registration == old(self).registration,
            *final(self) == (ForwardHandle {
                guest_port: old(self).guest_port,
                host_port: old(self).host_port,
                registration: None::<R>,
            }),
    {
        self.registration.take()
    }
}

/// A forwarded port is any free one where no range is set; where one is set, every port of it is tried,
/// each once and from the smallest up.
pub proof fn law_whole_range_is_tried(first: u16, last: u16, i: int)
    requires
        first <= last,
    ensures
        ports_to_try(None) == seq![0u16],
        ports_to_try(Some((first, last))).len() == last - first + 1,
        0 <= i <= last - first ==> ports_to_try(Some((first, last)))[i] == first + i,
{
}

/// The port goes to the guest as two bytes, the larger one first.
pub proof fn law_port_is_sent_in_network_order(port: u16)
    ensures
        preamble(port).len() == 2,
        preamble(port)[0] * 256 + preamble(port)[1] == port,
{
}

/// Where no port of a range is free, the range and the address are told.
pub proof fn law_full_range_is_told(first: u16, last: u16, address: Seq<char>)
    ensures
        no_port_text((first, last), address) == "no available forward port in range "@ + decimal(
            first as nat,
        ) + "-"@ + decimal(last as nat) + " on "@ + address,
{
}

} // verus!
