//! Publications: how changes of a namespace are numbered, how watchers learn of them, and how
//! long a change waits until they have.

use crate::numeral::i64_numeral;
use crate::numeral::parse_i64;
use crate::numeral::parse_u64;
use crate::numeral::u64_numeral;
use crate::span::Span;
use crate::text::trim;
use crate::text::trimmed;
use crate::text::views;
use crate::textmap::keys_differ;
use crate::textmap::lemma_map_of_entries;
use crate::textmap::map_of_entries;
use crate::textmap::TextMap;
use crate::unique::distinct;
use crate::unique::law_distinct;
use crate::unique::lemma_distinct_push;
use crate::unique::push_new;
use vstd::prelude::*;

verus! {

// ---------------------------------------------------------------------------
// Settings and clocks
// ---------------------------------------------------------------------------
/// How long a publication waits for its watchers, in milliseconds, where nothing else is set. It
/// is close to the time that a healthy watcher takes: one that takes longer will miss any limit,
/// and all of the wait is charged to the writer.
pub const DEFAULT_ACK_TIMEOUT_MS: u64 = 25;

/// The number of milliseconds that a setting names; an unreadable setting counts as none.
pub open spec fn ack_timeout_millis(raw: Option<Seq<char>>) -> u64 {
    match raw {
        Some(text) => match u64_numeral(trimmed(text)) {
            Some(n) => n,
            None => DEFAULT_ACK_TIMEOUT_MS,
        },
        None => DEFAULT_ACK_TIMEOUT_MS,
    }
}

/// How long a publication waits for its watchers.
pub fn publication_ack_timeout(raw: Option<&str>) -> (timeout: Span)
    ensures
        timeout.wf(),
        timeout.total() == ack_timeout_millis(crate::exec::opt_str_view(raw)) * 1_000_000,
{
    let millis: u64 = match raw {
        Some(text) => match parse_u64(&trim(text)) {
            Some(n) => n,
            None => DEFAULT_ACK_TIMEOUT_MS,
        },
        None => DEFAULT_ACK_TIMEOUT_MS,
    };
    Span::from_millis(millis)
}

/// The revision that a wall clock gives: its microseconds since 1970, none before that.
pub open spec fn clock_revision(since_epoch: Option<Span>) -> u64 {
    match since_epoch {
        Some(t) => if t.total() / 1_000 <= u64::MAX {
            (t.total() / 1_000) as u64
        } else {
            u64::MAX
        },
        None => 0,
    }
}

/// The revision that a wall clock gives.
pub fn namespace_revision(since_epoch: Option<Span>) -> (revision: u64)
    requires
        since_epoch is Some ==> since_epoch->Some_0.wf(),
    ensures
        revision == clock_revision(since_epoch),
{
    match since_epoch {
        Some(t) => {
            let micros: u128 = t.secs as u128 * 1_000_000 + (t.nanos / 1_000) as u128;
            proof {
                let s = t.secs as int;
                let n = t.nanos as int;
                assert((s * 1_000_000_000 + n) / 1_000 == s * 1_000_000 + n / 1_000);
            }
            if micros > u64::MAX as u128 {
                u64::MAX
            } else {
                micros as u64
            }
        },
        None => 0,
    }
}

/// The nanoseconds of a span.
fn nanos_of(span: Span) -> (n: u128)
    ensures
        n == span.total(),
{
    span.secs as u128 * 1_000_000_000 + span.nanos as u128
}

// ---------------------------------------------------------------------------
// The state of an owner
// ---------------------------------------------------------------------------
/// How many publications an owner remembers. A watcher polls all the time, so it is normally one
/// publication behind; this covers one that missed a burst.
pub const PUBLICATION_HISTORY_LIMIT: usize = 256;

/// The most paths with which a watch is answered. Beyond that it is cheaper for the watcher to
/// drop all that it holds.
pub const WATCH_PATHS_LIMIT: usize = 1024;

/// The longest, in nanoseconds, that a watcher counts after its last poll.
pub const WATCHER_GRACE_LIMIT_NS: u128 = 60_000_000_000;

/// How often, in microseconds, lagging watchers are reported at most.
pub const ACK_WARN_INTERVAL_US: u64 = 1_000_000;

/// How far a watcher has got: the highest revision that it has seen, and the time, in nanoseconds
/// of the monotonic clock, until which it counts without a further poll.
#[derive(Clone, Copy, Debug, PartialEq, Eq, Structural)]
pub struct WatcherAck {
    pub acked_revision: u64,
    pub expires_at_ns: u128,
}

/// A publication and the paths that it affected.
#[derive(Debug)]
pub struct PublishedPaths {
    pub revision: u64,
    pub paths: Vec<String>,
}

/// A publication, with its paths as sequences.
pub struct PublicationView {
    pub revision: u64,
    pub paths: Seq<Seq<char>>,
}

impl View for PublishedPaths {
    type V = PublicationView;

    open spec fn view(&self) -> PublicationView {
        PublicationView { revision: self.revision, paths: views(self.paths@) }
    }
}

/// Publications, with their paths as sequences.
pub open spec fn publication_views(s: Seq<PublishedPaths>) -> Seq<PublicationView> {
    s.map_values(|p: PublishedPaths| p@)
}

/// The namespace of an owner: its revision, its latest publications, and its watchers.
#[derive(Debug)]
pub struct OwnerState {
    revision: u64,
    history: Vec<PublishedPaths>,
    acks: TextMap<WatcherAck>,
    last_ack_warn_us: u64,
    ack_timeout: Span,
}

/// What an owner's namespace comes to.
pub struct OwnerView {
    pub revision: u64,
    /// The latest publications, the newest last.
    pub history: Seq<PublicationView>,
    /// The watchers that were named, each with how far it has got.
    pub acks: Map<Seq<char>, WatcherAck>,
    pub last_ack_warn_us: u64,
    pub ack_timeout: Span,
}

impl View for OwnerState {
    type V = OwnerView;

    closed spec fn view(&self) -> OwnerView {
        OwnerView {
            revision: self.revision,
            history: publication_views(self.history@),
            acks: self.acks@,
            last_ack_warn_us: self.last_ack_warn_us,
            ack_timeout: self.ack_timeout,
        }
    }
}

/// The revisions of the publications rise.
pub open spec fn revisions_rise(s: Seq<PublicationView>) -> bool {
    forall|i: int, j: int|
        0 <= i < j < s.len() ==> (#[trigger] s[i]).revision < (#[trigger] s[j]).revision
}

impl OwnerView {
    /// The history is within its limit, its revisions rise, and none is beyond the current one.
    pub open spec fn wf(self) -> bool {
        &&& self.history.len() <= PUBLICATION_HISTORY_LIMIT
        &&& revisions_rise(self.history)
        &&& forall|i: int|
            0 <= i < self.history.len() ==> (#[trigger] self.history[i]).revision <= self.revision
        &&& self.ack_timeout.wf()
    }
}

/// The latest publications, up to the limit.
pub open spec fn retained(log: Seq<PublicationView>) -> Seq<PublicationView> {
    if log.len() > PUBLICATION_HISTORY_LIMIT {
        log.skip(log.len() - PUBLICATION_HISTORY_LIMIT)
    } else {
        log
    }
}

/// The revision of the next publication: one more than the current one, and not behind the clock.
pub open spec fn next_revision(current: u64, now_us: u64) -> int {
    if current + 1 > now_us {
        current + 1
    } else {
        now_us as int
    }
}

/// The paths of the publications after a revision, in order.
pub open spec fn paths_after(history: Seq<PublicationView>, since: u64) -> Seq<Seq<char>>
    decreases history.len(),
{
    if history.len() == 0 {
        Seq::empty()
    } else if history.last().revision > since {
        paths_after(history.drop_last(), since) + history.last().paths
    } else {
        paths_after(history.drop_last(), since)
    }
}

/// The paths published after a revision, each once. None where that is not known: the history does
/// not reach back to the revision, or the paths are too many.
pub open spec fn published_since(history: Seq<PublicationView>, since: u64) -> Option<
    Seq<Seq<char>>,
> {
    if history.len() == 0 || since < history[0].revision {
        None
    } else if distinct(paths_after(history, since)).len() > WATCH_PATHS_LIMIT {
        None
    } else {
        Some(distinct(paths_after(history, since)))
    }
}

/// Optional paths as sequences.
pub open spec fn opt_paths(paths: Option<Vec<String>>) -> Option<Seq<Seq<char>>> {
    match paths {
        Some(p) => Some(views(p@)),
        None => None,
    }
}

/// How long, in nanoseconds, a watcher counts after a poll: twice the time that it polls for, up
/// to the limit.
pub open spec fn grace(timeout: Span) -> int {
    if 2 * timeout.total() < WATCHER_GRACE_LIMIT_NS {
        2 * timeout.total()
    } else {
        WATCHER_GRACE_LIMIT_NS as int
    }
}

/// The watchers after a poll. A watcher without a name is told of changes and never counts.
pub open spec fn acknowledged(
    acks: Map<Seq<char>, WatcherAck>,
    watcher_id: Seq<char>,
    since: u64,
    expires_at_ns: u128,
) -> Map<Seq<char>, WatcherAck> {
    if watcher_id.len() == 0 {
        acks
    } else {
        let acked_revision = if acks.contains_key(watcher_id)
            && acks[watcher_id].acked_revision > since {
            acks[watcher_id].acked_revision
        } else {
            since
        };
        acks.insert(watcher_id, WatcherAck { acked_revision, expires_at_ns })
    }
}

/// A state after a watcher has polled, for a time and at a time: what it has seen is noted, and it counts
/// until its grace is over.
pub open spec fn after_poll(
    owner: OwnerView,
    watcher_id: Seq<char>,
    since: u64,
    timeout: Span,
    now: Span,
) -> OwnerView {
    OwnerView {
        acks: acknowledged(
            owner.acks,
            watcher_id,
            since,
            (now.total() + grace(timeout)) as u128,
        ),
        ..owner
    }
}

/// The watcher still counts.
pub open spec fn counts_at(acks: Map<Seq<char>, WatcherAck>, now_ns: int) -> spec_fn(
    Seq<char>,
) -> bool {
    |id: Seq<char>| acks[id].expires_at_ns > now_ns
}

/// The watchers that still count.
pub open spec fn live(acks: Map<Seq<char>, WatcherAck>, now_ns: int) -> Map<Seq<char>, WatcherAck> {
    acks.restrict(acks.dom().filter(counts_at(acks, now_ns)))
}

/// The watcher has not seen a revision.
pub open spec fn lags_behind(acks: Map<Seq<char>, WatcherAck>, revision: u64) -> spec_fn(
    Seq<char>,
) -> bool {
    |id: Seq<char>| acks[id].acked_revision < revision
}

/// The watchers that have not seen a revision.
pub open spec fn laggards(acks: Map<Seq<char>, WatcherAck>, revision: u64) -> Set<Seq<char>> {
    acks.dom().filter(lags_behind(acks, revision))
}

impl OwnerState {
    /// The state of an owner that the gateway has not seen before.
    pub fn new(now_us: u64, ack_timeout: Span) -> (owner: OwnerState)
        requires
            ack_timeout.wf(),
        ensures
            owner@.wf(),
            owner@.revision == now_us,
            owner@.history == Seq::<PublicationView>::empty(),
            owner@.acks == Map::<Seq<char>, WatcherAck>::empty(),
            owner@.last_ack_warn_us == 0,
            owner@.ack_timeout == ack_timeout,
    {
        let owner = OwnerState {
            revision: now_us,
            history: Vec::new(),
            acks: TextMap::new(),
            last_ack_warn_us: 0,
            ack_timeout,
        };
        assert(owner@.history =~= Seq::<PublicationView>::empty());
        owner
    }

    /// The current revision.
    pub fn revision(&self) -> (revision: u64)
        ensures
            revision == self@.revision,
    {
        self.revision
    }

    /// Publishes a change that affected some paths, and gives its revision.
    pub fn commit(&mut self, now_us: u64, paths: Vec<String>) -> (published: u64)
        requires
            old(self)@.wf(),
            old(self)@.revision < u64::MAX,
        ensures
            final(self)@.wf(),
            published == next_revision(old(self)@.revision, now_us),
            published > old(self)@.revision,
            final(self)@ == (OwnerView {
                revision: published,
                history: retained(
                    old(self)@.history.push(
                        PublicationView { revision: published, paths: views(paths@) },
                    ),
                ),
                ..old(self)@
            }),
    {
        let ghost before = self@;
        let next: u64 = self.revision + 1;
        let published: u64 = if next > now_us {
            next
        } else {
            now_us
        };
        self.revision = published;
        let ghost added = PublicationView { revision: published, paths: views(paths@) };
        self.history.push(PublishedPaths { revision: published, paths });
        let ghost longer = before.history.push(added);
        assert(publication_views(self.history@) =~= longer);
        if self.history.len() > PUBLICATION_HISTORY_LIMIT {
            let _ = self.history.remove(0);
            assert(publication_views(self.history@) =~= retained(longer));
        }
        proof {
            let start = longer.len() - retained(longer).len();
            assert forall|i: int, j: int| 0 <= i < j < retained(longer).len() implies (
            #[trigger] retained(longer)[i]).revision < (#[trigger] retained(longer)[j]).revision by {
                assert(retained(longer)[i] == longer[start + i]);
                assert(retained(longer)[j] == longer[start + j]);
                assert(longer[start + i] == before.history[start + i]);
                if start + j < before.history.len() {
                    assert(longer[start + j] == before.history[start + j]);
                }
            }
            assert forall|i: int| 0 <= i < retained(longer).len() implies (
            #[trigger] retained(longer)[i]).revision <= published by {
                assert(retained(longer)[i] == longer[start + i]);
                if start + i < before.history.len() {
                    assert(longer[start + i] == before.history[start + i]);
                }
            }
        }
        published
    }

    /// The paths published after a revision.
    pub fn paths_published_since(&self, since: u64) -> (paths: Option<Vec<String>>)
        ensures
            opt_paths(paths) == published_since(self@.history, since),
    {
        let ghost h = self@.history;
        if self.history.len() == 0 {
            return None;
        }
        assert(h[0] == self.history@[0]@);
        if since < self.history[0].revision {
            return None;
        }
        let mut list: Vec<String> = Vec::new();
        let mut i: usize = 0;
        assert(paths_after(h.take(0), since) =~= Seq::empty());
        assert(views(list@) =~= distinct(paths_after(h.take(0), since)));
        while i < self.history.len()
            invariant
                i <= self.history@.len(),
                h == publication_views(self.history@),
                h.len() > 0,
                since >= h[0].revision,
                views(list@) == distinct(paths_after(h.take(i as int), since)),
                list@.len() <= WATCH_PATHS_LIMIT,
            decreases self.history@.len() - i,
        {
            let ghost so_far = paths_after(h.take(i as int), since);
            let entry = &self.history[i];
            let ghost added = views(entry.paths@);
            proof {
                assert(h.take(i + 1).drop_last() =~= h.take(i as int));
                assert(h.take(i + 1).last() == entry@);
                lemma_paths_after_prefix(h, since, i + 1);
            }
            if entry.revision > since {
                let mut j: usize = 0;
                assert(so_far + added.take(0) =~= so_far);
                while j < entry.paths.len()
                    invariant
                        j <= entry.paths@.len(),
                        i < self.history@.len(),
                        h == publication_views(self.history@),
                        h.len() > 0,
                        since >= h[0].revision,
                        added == views(entry.paths@),
                        so_far + added == paths_after(h.take(i + 1), since),
                        paths_after(h.take(i + 1), since).is_prefix_of(paths_after(h, since)),
                        views(list@) == distinct(so_far + added.take(j as int)),
                        list@.len() <= WATCH_PATHS_LIMIT,
                    decreases entry.paths@.len() - j,
                {
                    push_new(&mut list, &entry.paths[j]);
                    proof {
                        let x = entry.paths@[j as int]@;
                        lemma_distinct_push(so_far + added.take(j as int), x);
                        assert((so_far + added.take(j as int)).push(x) =~= so_far + added.take(
                            j + 1,
                        ));
                    }
                    j += 1;
                    if list.len() > WATCH_PATHS_LIMIT {
                        proof {
                            let part = so_far + added.take(j as int);
                            let whole = paths_after(h, since);
                            assert(part =~= (so_far + added).take(part.len() as int));
                            assert(part =~= whole.take(part.len() as int));
                            lemma_distinct_grows(whole, part.len() as int);
                        }
                        return None;
                    }
                }
                assert(added.take(added.len() as int) =~= added);
            }
            i += 1;
        }
        assert(h.take(h.len() as int) =~= h);
        Some(list)
    }

    /// Notes that a watcher has seen a revision and polls again, for `timeout`, at the time `now`
    /// of the monotonic clock.
    pub fn record_watcher_ack(&mut self, watcher_id: &str, since: u64, timeout: Span, now: Span)
        requires
            timeout.wf(),
            now.wf(),
        ensures
            final(self)@ == after_poll(old(self)@, watcher_id@, since, timeout, now),
    {
        if watcher_id.is_empty() {
            return;
        }
        let doubled: u128 = 2 * nanos_of(timeout);
        let allowed: u128 = if doubled < WATCHER_GRACE_LIMIT_NS {
            doubled
        } else {
            WATCHER_GRACE_LIMIT_NS
        };
        let expires_at_ns: u128 = nanos_of(now) + allowed;
        let acked_revision: u64 = match self.acks.get(watcher_id) {
            Some(ack) => if ack.acked_revision > since {
                ack.acked_revision
            } else {
                since
            },
            None => since,
        };
        self.acks.insert(watcher_id.to_owned(), WatcherAck { acked_revision, expires_at_ns });
    }

    /// Drops the watchers that no longer count.
    fn prune(&mut self, now: Span)
        ensures
            final(self)@ == (OwnerView { acks: live(old(self)@.acks, now.total()), ..old(self)@ }),
    {
        let now_ns: u128 = nanos_of(now);
        let ghost before = self.acks@;
        let ghost entries = self.acks.listed();
        let ghost counts = counts_at(before, now.total());
        let mut kept: TextMap<WatcherAck> = TextMap::new();
        let n: usize = self.acks.len();
        let mut i: usize = 0;
        while i < n
            invariant
                i <= n,
                n == entries.len(),
                entries == self.acks.listed(),
                before == self.acks@,
                before == map_of_entries(entries),
                keys_differ(entries),
                now_ns == now.total(),
                counts == counts_at(before, now.total()),
                forall|k: Seq<char>| #[trigger]
                    kept@.contains_key(k) <==> counts(k) && exists|j: int|
                        0 <= j < i && (#[trigger] entries[j]).0@ == k,
                forall|k: Seq<char>| #[trigger] kept@.contains_key(k) ==> kept@[k] == before[k],
            decreases n - i,
        {
            let ack: WatcherAck = *self.acks.value_at(i);
            let ghost key = entries[i as int].0@;
            let ghost so_far = kept@;
            proof {
                lemma_map_of_entries(entries, key);
                assert(before[key] == ack);
            }
            if ack.expires_at_ns > now_ns {
                kept.insert(self.acks.key_at(i).clone(), ack);
            }
            proof {
                assert forall|k: Seq<char>| #[trigger]
                    kept@.contains_key(k) <==> counts(k) && exists|j: int|
                        0 <= j < i + 1 && (#[trigger] entries[j]).0@ == k by {
                    assert(so_far.contains_key(k) <==> counts(k) && exists|j: int|
                        0 <= j < i && (#[trigger] entries[j]).0@ == k);
                    if k == key {
                        assert(entries[i as int].0@ == k);
                    }
                    if exists|j: int| 0 <= j < i && (#[trigger] entries[j]).0@ == k {
                        let j = choose|j: int| 0 <= j < i && (#[trigger] entries[j]).0@ == k;
                        assert(0 <= j < i + 1 && entries[j].0@ == k);
                    }
                    if exists|j: int| 0 <= j < i + 1 && (#[trigger] entries[j]).0@ == k {
                        let j = choose|j: int| 0 <= j < i + 1 && (#[trigger] entries[j]).0@ == k;
                        if j < i {
                            assert(0 <= j < i && entries[j].0@ == k);
                        }
                    }
                }
            }
            i += 1;
        }
        proof {
            let want = live(before, now.total());
            assert forall|k: Seq<char>| #[trigger] kept@.contains_key(k) <==> want.contains_key(
                k,
            ) by {
                lemma_map_of_entries(entries, k);
                if want.contains_key(k) {
                    assert(before.contains_key(k));
                    let j = choose|j: int| 0 <= j < entries.len() && (#[trigger] entries[j]).0@ == k;
                    assert(0 <= j < n && entries[j].0@ == k);
                }
            }
            assert(kept@ =~= want);
        }
        self.acks = kept;
    }

    /// Counts the watchers that have not seen a revision. Those that no longer count are dropped
    /// first.
    pub fn unacked_watchers(&mut self, revision: u64, now: Span) -> (count: usize)
        ensures
            final(self)@ == (OwnerView { acks: live(old(self)@.acks, now.total()), ..old(self)@ }),
            laggards(final(self)@.acks, revision).finite(),
            count == laggards(final(self)@.acks, revision).len(),
    {
        self.prune(now);
        let ghost acks = self.acks@;
        let ghost entries = self.acks.listed();
        let ghost lags = lags_behind(acks, revision);
        let ghost mut counted: Set<Seq<char>> = Set::empty();
        let n: usize = self.acks.len();
        let mut count: usize = 0;
        let mut i: usize = 0;
        while i < n
            invariant
                i <= n,
                count <= i,
                n == entries.len(),
                entries == self.acks.listed(),
                acks == self.acks@,
                acks == map_of_entries(entries),
                keys_differ(entries),
                lags == lags_behind(acks, revision),
                counted.finite(),
                counted.len() == count,
                forall|k: Seq<char>| #[trigger]
                    counted.contains(k) <==> lags(k) && exists|j: int|
                        0 <= j < i && (#[trigger] entries[j]).0@ == k,
            decreases n - i,
        {
            let ghost key = entries[i as int].0@;
            let ghost so_far = counted;
            proof {
                lemma_map_of_entries(entries, key);
                assert(!so_far.contains(key));
            }
            if self.acks.value_at(i).acked_revision < revision {
                count += 1;
                proof {
                    counted = counted.insert(key);
                }
            }
            proof {
                assert forall|k: Seq<char>| #[trigger]
                    counted.contains(k) <==> lags(k) && exists|j: int|
                        0 <= j < i + 1 && (#[trigger] entries[j]).0@ == k by {
                    assert(so_far.contains(k) <==> lags(k) && exists|j: int|
                        0 <= j < i && (#[trigger] entries[j]).0@ == k);
                    if k == key {
                        assert(entries[i as int].0@ == k);
                    }
                    if exists|j: int| 0 <= j < i && (#[trigger] entries[j]).0@ == k {
                        let j = choose|j: int| 0 <= j < i && (#[trigger] entries[j]).0@ == k;
                        assert(0 <= j < i + 1 && entries[j].0@ == k);
                    }
                    if exists|j: int| 0 <= j < i + 1 && (#[trigger] entries[j]).0@ == k {
                        let j = choose|j: int| 0 <= j < i + 1 && (#[trigger] entries[j]).0@ == k;
                        if j < i {
                            assert(0 <= j < i && entries[j].0@ == k);
                        }
                    }
                }
            }
            i += 1;
        }
        proof {
            let want = laggards(acks, revision);
            assert forall|k: Seq<char>| #[trigger] counted.contains(k) <==> want.contains(k) by {
                lemma_map_of_entries(entries, k);
                if want.contains(k) {
                    let j = choose|j: int| 0 <= j < entries.len() && (#[trigger] entries[j]).0@ == k;
                    assert(0 <= j < n && entries[j].0@ == k);
                }
            }
            assert(counted =~= want);
        }
        count
    }
}

proof fn lemma_paths_after_prefix(h: Seq<PublicationView>, since: u64, n: int)
    requires
        0 <= n <= h.len(),
    ensures
        paths_after(h.take(n), since).is_prefix_of(paths_after(h, since)),
    decreases h.len(),
{
    let part = paths_after(h.take(n), since);
    let whole = paths_after(h, since);
    if n == h.len() {
        assert(h.take(n) =~= h);
        assert(part =~= whole.take(part.len() as int));
    } else {
        let head = h.drop_last();
        lemma_paths_after_prefix(head, since, n);
        assert(head.take(n) =~= h.take(n));
        let inner = paths_after(head, since);
        assert(part =~= inner.take(part.len() as int));
        assert(part =~= whole.take(part.len() as int));
    }
}

proof fn lemma_distinct_grows(s: Seq<Seq<char>>, n: int)
    requires
        0 <= n <= s.len(),
    ensures
        distinct(s.take(n)).len() <= distinct(s).len(),
    decreases s.len(),
{
    if n == s.len() {
        assert(s.take(n) =~= s);
    } else {
        lemma_distinct_grows(s.drop_last(), n);
        assert(s.drop_last().take(n) =~= s.take(n));
    }
}

// ---------------------------------------------------------------------------
// Laws
// ---------------------------------------------------------------------------
/// The history is always made of the latest publications.
pub proof fn law_history_is_the_latest(log: Seq<PublicationView>, next: PublicationView)
    ensures
        retained(retained(log).push(next)) == retained(log.push(next)),
{
    assert(retained(retained(log).push(next)) =~= retained(log.push(next)));
}

/// The path was published after a revision.
pub open spec fn was_published_after(log: Seq<PublicationView>, since: u64, path: Seq<char>) -> bool {
    exists|i: int|
        #![trigger log[i]]
        0 <= i < log.len() && log[i].revision > since && log[i].paths.contains(path)
}

proof fn lemma_paths_after(h: Seq<PublicationView>, since: u64, path: Seq<char>)
    ensures
        paths_after(h, since).contains(path) == was_published_after(h, since, path),
    decreases h.len(),
{
    if h.len() > 0 {
        let head = h.drop_last();
        let last = h.last();
        lemma_paths_after(head, since, path);
        let inner = paths_after(head, since);
        let whole = paths_after(h, since);
        assert(forall|i: int| 0 <= i < head.len() ==> head[i] == h[i]);
        if was_published_after(head, since, path) {
            let i = choose|i: int|
                #![trigger head[i]]
                0 <= i < head.len() && head[i].revision > since && head[i].paths.contains(path);
            assert(h[i].paths.contains(path));
        }
        if was_published_after(h, since, path) {
            let i = choose|i: int|
                #![trigger h[i]]
                0 <= i < h.len() && h[i].revision > since && h[i].paths.contains(path);
            if i < head.len() {
                assert(head[i].paths.contains(path));
            }
        }
        if last.revision > since {
            if inner.contains(path) {
                let k = choose|k: int| 0 <= k < inner.len() && inner[k] == path;
                assert(whole[k] == path);
            }
            if last.paths.contains(path) {
                let k = choose|k: int| 0 <= k < last.paths.len() && last.paths[k] == path;
                assert(whole[inner.len() + k] == path);
                assert(h[h.len() - 1].paths.contains(path));
            }
            if whole.contains(path) {
                let k = choose|k: int| 0 <= k < whole.len() && whole[k] == path;
                if k < inner.len() {
                    assert(inner[k] == path);
                } else {
                    assert(last.paths[k - inner.len()] == path);
                }
            }
        }
    }
}

/// What a watcher is told is exact: of all publications that an owner ever made, its answer holds
/// the paths of those after the watcher's revision and no others, each once. There is no answer only
/// where the owner no longer remembers all of them, or they are too many.
pub proof fn law_watch_answer_is_exact(log: Seq<PublicationView>, since: u64)
    requires
        revisions_rise(log),
    ensures
        match published_since(retained(log), since) {
            Some(paths) => paths.no_duplicates() && paths.len() <= WATCH_PATHS_LIMIT && forall|
                path: Seq<char>,
            | #[trigger] paths.contains(path) == was_published_after(log, since, path),
            None => retained(log).len() == 0 || since < retained(log)[0].revision || distinct(
                paths_after(retained(log), since),
            ).len() > WATCH_PATHS_LIMIT,
        },
{
    let h = retained(log);
    let start = log.len() - h.len();
    match published_since(h, since) {
        Some(paths) => {
            let all = paths_after(h, since);
            law_distinct(all);
            assert forall|path: Seq<char>| #[trigger]
                paths.contains(path) == was_published_after(log, since, path) by {
                lemma_paths_after(h, since, path);
                assert(paths.to_set().contains(path) == all.to_set().contains(path));
                if was_published_after(h, since, path) {
                    let i = choose|i: int|
                        #![trigger h[i]]
                        0 <= i < h.len() && h[i].revision > since && h[i].paths.contains(path);
                    assert(log[start + i] == h[i]);
                    assert(log[start + i].paths.contains(path));
                }
                if was_published_after(log, since, path) {
                    let i = choose|i: int|
                        #![trigger log[i]]
                        0 <= i < log.len() && log[i].revision > since && log[i].paths.contains(path);
                    assert(h[0] == log[start]);
                    if i < start {
                        assert(log[i].revision < log[start].revision);
                    }
                    assert(h[i - start] == log[i]);
                    assert(h[i - start].paths.contains(path));
                }
            }
        },
        None => {},
    }
}

/// A watcher that polls with a revision has seen it, whatever it polled with before; nobody falls
/// back by polling, and a watcher without a name changes nothing.
pub proof fn law_poll_is_an_ack(
    acks: Map<Seq<char>, WatcherAck>,
    watcher_id: Seq<char>,
    since: u64,
    expires_at_ns: u128,
    revision: u64,
)
    ensures
        ({
            let after = acknowledged(acks, watcher_id, since, expires_at_ns);
            &&& watcher_id.len() == 0 ==> after == acks
            &&& since >= revision ==> !laggards(after, revision).contains(watcher_id)
                || watcher_id.len() == 0
            &&& forall|id: Seq<char>|
                acks.contains_key(id) ==> #[trigger] after.contains_key(id)
                    && after[id].acked_revision >= acks[id].acked_revision
            &&& forall|id: Seq<char>|
                acks.contains_key(id) && !laggards(acks, revision).contains(id)
                    ==> !#[trigger] laggards(after, revision).contains(id)
        }),
{
}

/// A watcher that no longer counts keeps no publication waiting.
pub proof fn law_gone_watcher_does_not_gate(
    acks: Map<Seq<char>, WatcherAck>,
    id: Seq<char>,
    now_ns: int,
    revision: u64,
)
    requires
        acks.contains_key(id),
        acks[id].expires_at_ns <= now_ns,
    ensures
        !laggards(live(acks, now_ns), revision).contains(id),
{
}

// ---------------------------------------------------------------------------
// Waiting for watchers
// ---------------------------------------------------------------------------
/// What a publication that waits for its watchers meets.
#[derive(Clone, Copy, Debug, PartialEq, Eq, Structural)]
pub enum AckEvent {
    /// A watcher has polled.
    Progress,
    /// The state of the owner is gone.
    OwnerGone,
    /// The publication has waited as long as it may.
    CapElapsed,
}

/// What a publication does next.
#[derive(Clone, Copy, Debug, PartialEq, Eq, Structural)]
pub enum AckStep {
    Answer,
    Wait,
    /// It is answered although watchers lag.
    AnswerLate,
}

/// Every watcher has seen a revision.
pub open spec fn coherent(acks: Map<Seq<char>, WatcherAck>, revision: u64) -> bool {
    forall|id: Seq<char>| #[trigger] acks.contains_key(id) ==> acks[id].acked_revision >= revision
}

/// What a publication does first: it waits where a watcher that counts has not seen it and there
/// is time.
pub open spec fn first_ack_step(owner: OwnerView, revision: u64, now_ns: int) -> AckStep {
    if coherent(live(owner.acks, now_ns), revision) || owner.ack_timeout.total() == 0 {
        AckStep::Answer
    } else {
        AckStep::Wait
    }
}

/// What a waiting publication does after an event.
pub open spec fn next_ack_step(
    owner: OwnerView,
    revision: u64,
    event: AckEvent,
    now_ns: int,
) -> AckStep {
    match event {
        AckEvent::Progress => if coherent(live(owner.acks, now_ns), revision) {
            AckStep::Answer
        } else {
            AckStep::Wait
        },
        AckEvent::OwnerGone => AckStep::Answer,
        AckEvent::CapElapsed => AckStep::AnswerLate,
    }
}

proof fn lemma_coherent_without_laggards(acks: Map<Seq<char>, WatcherAck>, revision: u64)
    requires
        laggards(acks, revision).finite(),
    ensures
        coherent(acks, revision) == (laggards(acks, revision).len() == 0),
{
    if laggards(acks, revision).len() == 0 {
        laggards(acks, revision).lemma_len0_is_empty();
        assert forall|id: Seq<char>| #[trigger] acks.contains_key(id) implies acks[id].acked_revision
            >= revision by {
            assert(!laggards(acks, revision).contains(id));
        }
    } else {
        let id = laggards(acks, revision).choose();
        assert(laggards(acks, revision).contains(id));
        assert(acks.contains_key(id));
    }
}

/// A writer is answered in time only once every watcher that still counts has seen what it
/// published, unless publications do not wait at all or the owner is gone. Nothing keeps a writer
/// waiting beyond its time.
pub proof fn law_writer_waits_for_its_watchers(
    owner: OwnerView,
    revision: u64,
    event: AckEvent,
    now_ns: int,
)
    ensures
        owner.ack_timeout.total() > 0 && first_ack_step(owner, revision, now_ns) == AckStep::Answer
            ==> forall|id: Seq<char>| #[trigger]
            owner.acks.contains_key(id) && owner.acks[id].expires_at_ns > now_ns
                ==> owner.acks[id].acked_revision >= revision,
        event != AckEvent::OwnerGone && next_ack_step(owner, revision, event, now_ns)
            == AckStep::Answer ==> forall|id: Seq<char>| #[trigger]
            owner.acks.contains_key(id) && owner.acks[id].expires_at_ns > now_ns
                ==> owner.acks[id].acked_revision >= revision,
        event != AckEvent::Progress ==> next_ack_step(owner, revision, event, now_ns)
            != AckStep::Wait,
{
    let counting = live(owner.acks, now_ns);
    if coherent(counting, revision) {
        assert forall|id: Seq<char>| #[trigger]
            owner.acks.contains_key(id) && owner.acks[id].expires_at_ns > now_ns implies
            owner.acks[id].acked_revision >= revision by {
            assert(counts_at(owner.acks, now_ns)(id));
            assert(counting.contains_key(id));
        }
    }
}

impl OwnerState {
    /// How long a publication waits for its watchers.
    pub fn ack_timeout(&self) -> (timeout: Span)
        ensures
            timeout == self@.ack_timeout,
    {
        self.ack_timeout
    }

    /// Decides whether a publication waits: it does where a watcher lags and there is time.
    pub fn start_ack_wait(&mut self, revision: u64, now: Span) -> (step: AckStep)
        requires
            old(self)@.wf(),
        ensures
            final(self)@ == (OwnerView { acks: live(old(self)@.acks, now.total()), ..old(self)@ }),
            step == first_ack_step(old(self)@, revision, now.total()),
    {
        let unacked: usize = self.unacked_watchers(revision, now);
        proof {
            lemma_coherent_without_laggards(self@.acks, revision);
        }
        if unacked == 0 {
            return AckStep::Answer;
        }
        if self.ack_timeout.secs == 0 && self.ack_timeout.nanos == 0 {
            AckStep::Answer
        } else {
            AckStep::Wait
        }
    }

    /// Decides what a waiting publication does next. It is answered in time where no watcher lags
    /// any more or the owner is gone, and late where its time is over.
    pub fn continue_ack_wait(&mut self, revision: u64, event: AckEvent, now: Span) -> (step: AckStep)
        ensures
            step == next_ack_step(old(self)@, revision, event, now.total()),
            final(self)@ == (match event {
                AckEvent::Progress => OwnerView {
                    acks: live(old(self)@.acks, now.total()),
                    ..old(self)@
                },
                AckEvent::OwnerGone => old(self)@,
                AckEvent::CapElapsed => old(self)@,
            }),
    {
        match event {
            AckEvent::Progress => {
                let unacked: usize = self.unacked_watchers(revision, now);
                proof {
                    lemma_coherent_without_laggards(self@.acks, revision);
                }
                if unacked == 0 {
                    AckStep::Answer
                } else {
                    AckStep::Wait
                }
            },
            AckEvent::OwnerGone => AckStep::Answer,
            AckEvent::CapElapsed => AckStep::AnswerLate,
        }
    }

    /// The number of lagging watchers to report after a late answer: none where nobody lags by now,
    /// or where lagging watchers were reported a moment ago.
    pub fn warn_publication_lag(&mut self, revision: u64, now: Span, now_us: u64) -> (report: Option<
        usize,
    >)
        ensures
            ({
                let acks = live(old(self)@.acks, now.total());
                let count = laggards(acks, revision).len();
                let due = count > 0 && now_us - old(self)@.last_ack_warn_us
                    >= ACK_WARN_INTERVAL_US;
                &&& report == (if due {
                    Some(count as usize)
                } else {
                    None
                })
                &&& report is Some ==> report->Some_0 == count
                &&& final(self)@ == (OwnerView {
                    acks,
                    last_ack_warn_us: if due {
                        now_us
                    } else {
                        old(self)@.last_ack_warn_us
                    },
                    ..old(self)@
                })
            }),
    {
        let count: usize = self.unacked_watchers(revision, now);
        if count == 0 {
            return None;
        }
        if now_us < self.last_ack_warn_us || now_us - self.last_ack_warn_us
            < ACK_WARN_INTERVAL_US {
            return None;
        }
        self.last_ack_warn_us = now_us;
        Some(count)
    }
}

// ---------------------------------------------------------------------------
// Watching
// ---------------------------------------------------------------------------
pub const WATCH_TIMEOUT_MIN_MS: i64 = 1_000;

pub const WATCH_TIMEOUT_MAX_MS: i64 = 30_000;

pub const WATCH_TIMEOUT_DEFAULT_MS: u64 = 25_000;

/// A parameter, trimmed, where it is not blank.
pub open spec fn given(raw: Option<Seq<char>>) -> Option<Seq<char>> {
    match raw {
        Some(text) => if trimmed(text).len() > 0 {
            Some(trimmed(text))
        } else {
            None
        },
        None => None,
    }
}

fn read_given(raw: Option<&str>) -> (text: Option<String>)
    ensures
        crate::vm::opt_view(text) == given(crate::exec::opt_str_view(raw)),
{
    match raw {
        Some(text) => {
            let text = trim(text);
            if text.as_str().is_empty() {
                None
            } else {
                Some(text)
            }
        },
        None => None,
    }
}

/// The name of a watcher; a watcher without one has an empty name.
pub fn watch_watcher_id(raw: Option<&str>) -> (id: String)
    ensures
        id@ == (match given(crate::exec::opt_str_view(raw)) {
            Some(text) => text,
            None => Seq::<char>::empty(),
        }),
{
    match read_given(raw) {
        Some(text) => text,
        None => String::new(),
    }
}

/// The revision after which a watcher asks; zero where it is missing or no number.
pub fn watch_since(raw: Option<&str>) -> (since: u64)
    ensures
        since == (match given(crate::exec::opt_str_view(raw)) {
            Some(text) => match u64_numeral(text) {
                Some(n) => n,
                None => 0u64,
            },
            None => 0u64,
        }),
{
    match read_given(raw) {
        Some(text) => match parse_u64(&text) {
            Some(n) => n,
            None => 0,
        },
        None => 0,
    }
}

/// How long, in milliseconds, a watcher polls: what it asks for, held to the limits.
pub open spec fn watch_millis(raw: Option<Seq<char>>) -> int {
    match given(raw) {
        Some(text) => match i64_numeral(text) {
            Some(n) => if n < WATCH_TIMEOUT_MIN_MS {
                WATCH_TIMEOUT_MIN_MS as int
            } else if n > WATCH_TIMEOUT_MAX_MS {
                WATCH_TIMEOUT_MAX_MS as int
            } else {
                n as int
            },
            None => WATCH_TIMEOUT_DEFAULT_MS as int,
        },
        None => WATCH_TIMEOUT_DEFAULT_MS as int,
    }
}

/// How long a watcher polls.
pub fn watch_timeout(raw: Option<&str>) -> (timeout: Span)
    ensures
        timeout.wf(),
        timeout.total() == watch_millis(crate::exec::opt_str_view(raw)) * 1_000_000,
        WATCH_TIMEOUT_MIN_MS * 1_000_000 <= timeout.total() <= WATCH_TIMEOUT_MAX_MS * 1_000_000,
{
    let millis: u64 = match read_given(raw) {
        Some(text) => match parse_i64(&text) {
            Some(n) => if n < WATCH_TIMEOUT_MIN_MS {
                WATCH_TIMEOUT_MIN_MS as u64
            } else if n > WATCH_TIMEOUT_MAX_MS {
                WATCH_TIMEOUT_MAX_MS as u64
            } else {
                n as u64
            },
            None => WATCH_TIMEOUT_DEFAULT_MS,
        },
        None => WATCH_TIMEOUT_DEFAULT_MS,
    };
    Span::from_millis(millis)
}

/// The answer to a watch. Where it is truncated, its paths do not count.
#[derive(Debug)]
pub struct WatchAnswer {
    pub revision: u64,
    pub paths: Vec<String>,
    pub truncated: bool,
}

/// What a watch does next.
#[derive(Debug)]
pub enum WatchTurn {
    Answer(WatchAnswer),
    /// Nothing has changed, at this revision, and the time is over.
    Idle(u64),
    Park,
}

/// What wakes a parked watch.
#[derive(Clone, Copy, Debug, PartialEq, Eq, Structural)]
pub enum WatchWake {
    Published,
    OwnerGone,
    TimedOut,
}

impl OwnerState {
    /// Decides what a watch does next.
    pub fn watch_turn(&self, since: u64, remaining: Span) -> (turn: WatchTurn)
        ensures
            match turn {
                WatchTurn::Answer(answer) => {
                    &&& self@.revision > since
                    &&& answer.revision == self@.revision
                    &&& match published_since(self@.history, since) {
                        Some(paths) => !answer.truncated && views(answer.paths@) == paths,
                        None => answer.truncated && answer.paths@.len() == 0,
                    }
                },
                WatchTurn::Idle(revision) => self@.revision <= since && remaining.total() == 0
                    && revision == self@.revision,
                WatchTurn::Park => self@.revision <= since && remaining.total() != 0,
            },
    {
        if self.revision > since {
            let (paths, truncated) = match self.paths_published_since(since) {
                Some(paths) => (paths, false),
                None => (Vec::new(), true),
            };
            return WatchTurn::Answer(WatchAnswer { revision: self.revision, paths, truncated });
        }
        if remaining.secs == 0 && remaining.nanos == 0 {
            WatchTurn::Idle(self.revision)
        } else {
            WatchTurn::Park
        }
    }

    /// Decides what a parked watch does when it is woken: it looks again after a publication, else
    /// it is answered with the current revision as nothing new.
    pub fn watch_woken(&self, wake: WatchWake) -> (idle: Option<u64>)
        ensures
            idle == (match wake {
                WatchWake::Published => None,
                WatchWake::OwnerGone => Some(self@.revision),
                WatchWake::TimedOut => Some(self@.revision),
            }),
    {
        match wake {
            WatchWake::Published => None,
            WatchWake::OwnerGone => Some(self.revision),
            WatchWake::TimedOut => Some(self.revision),
        }
    }
}

// ---------------------------------------------------------------------------
// What publications and watches come to
// ---------------------------------------------------------------------------
/// A watcher that polls for a time, between one second and thirty, counts until twice that time is
/// over, and not longer. So as long as it may be parked, a publication that it has not seen waits for
/// it.
pub proof fn law_parked_watcher_counts(
    owner: OwnerView,
    watcher_id: Seq<char>,
    since: u64,
    timeout: Span,
    polled: Span,
    now_ns: int,
    revision: u64,
)
    requires
        watcher_id.len() > 0,
        timeout.wf(),
        polled.wf(),
        1_000_000_000 <= timeout.total() <= 30_000_000_000,
    ensures
        ({
            let after = after_poll(owner, watcher_id, since, timeout, polled);
            let acks = after.acks;
            &&& now_ns < polled.total() + 2 * timeout.total() ==> live(acks, now_ns).contains_key(
                watcher_id,
            )
            &&& now_ns >= polled.total() + 2 * timeout.total() ==> !live(
                acks,
                now_ns,
            ).contains_key(watcher_id)
            &&& now_ns < polled.total() + 2 * timeout.total() && since < revision && (
            owner.acks.contains_key(watcher_id) ==> owner.acks[watcher_id].acked_revision
                < revision) && owner.ack_timeout.total() > 0 ==> {
                &&& laggards(live(acks, now_ns), revision).contains(watcher_id)
                &&& first_ack_step(after, revision, now_ns) == AckStep::Wait
                &&& next_ack_step(after, revision, AckEvent::Progress, now_ns) == AckStep::Wait
            }
        }),
{
    let expires = polled.total() + grace(timeout);
    let acks = acknowledged(owner.acks, watcher_id, since, expires as u128);
    assert(0 <= expires <= u128::MAX);
    assert(acks.contains_key(watcher_id));
    assert(acks[watcher_id].expires_at_ns == expires);
    assert(counts_at(acks, now_ns)(watcher_id) == (expires > now_ns));
    if now_ns < expires {
        let counting = live(acks, now_ns);
        assert(counting.contains_key(watcher_id));
        assert(counting[watcher_id] == acks[watcher_id]);
        assert(lags_behind(counting, revision)(watcher_id) == (acks[watcher_id].acked_revision
            < revision));
    }
}

/// A watcher that has not polled for a minute does not count, whatever time it polled for.
pub proof fn law_watcher_is_forgotten_after_a_minute(
    acks: Map<Seq<char>, WatcherAck>,
    watcher_id: Seq<char>,
    since: u64,
    timeout: Span,
    polled: Span,
    now_ns: int,
)
    requires
        watcher_id.len() > 0,
        timeout.wf(),
        polled.wf(),
        now_ns >= polled.total() + 60_000_000_000,
    ensures
        !live(
            acknowledged(acks, watcher_id, since, (polled.total() + grace(timeout)) as u128),
            now_ns,
        ).contains_key(watcher_id),
{
    let after = acknowledged(acks, watcher_id, since, (polled.total() + grace(timeout)) as u128);
    assert(after[watcher_id].expires_at_ns == polled.total() + grace(timeout));
    assert(!counts_at(after, now_ns)(watcher_id));
}

/// Of the watchers that are known, those lag that still count and have seen only what came before a
/// revision; no others do.
pub proof fn law_laggards_are_live_and_behind(
    acks: Map<Seq<char>, WatcherAck>,
    now_ns: int,
    revision: u64,
    id: Seq<char>,
)
    ensures
        laggards(live(acks, now_ns), revision).contains(id) <==> acks.contains_key(id)
            && acks[id].expires_at_ns > now_ns && acks[id].acked_revision < revision,
        live(acks, now_ns).contains_key(id) ==> live(acks, now_ns)[id] == acks[id],
{
    assert(counts_at(acks, now_ns)(id) == (acks[id].expires_at_ns > now_ns));
    if live(acks, now_ns).contains_key(id) {
        assert(lags_behind(live(acks, now_ns), revision)(id) == (acks[id].acked_revision
            < revision));
    }
}

/// A poll notes the highest revision that the watcher has ever asked after, and leaves the other
/// watchers as they are.
pub proof fn law_poll_notes_highest_revision(
    acks: Map<Seq<char>, WatcherAck>,
    watcher_id: Seq<char>,
    since: u64,
    expires_at_ns: u128,
    other: Seq<char>,
)
    requires
        watcher_id.len() > 0,
        other != watcher_id,
    ensures
        ({
            let after = acknowledged(acks, watcher_id, since, expires_at_ns);
            &&& after.contains_key(watcher_id)
            &&& after[watcher_id].expires_at_ns == expires_at_ns
            &&& after[watcher_id].acked_revision >= since
            &&& acks.contains_key(watcher_id) ==> after[watcher_id].acked_revision
                >= acks[watcher_id].acked_revision
            &&& after[watcher_id].acked_revision == since || (acks.contains_key(watcher_id)
                && after[watcher_id].acked_revision == acks[watcher_id].acked_revision)
            &&& after.contains_key(other) == acks.contains_key(other)
            &&& acks.contains_key(other) ==> after[other] == acks[other]
        }),
{
}

/// Revisions rise with every publication, by one or to the clock, whichever is further.
pub proof fn law_revisions_rise(current: u64, now_us: u64)
    ensures
        next_revision(current, now_us) > current,
        next_revision(current, now_us) >= now_us,
        next_revision(current, now_us) == current + 1 || next_revision(current, now_us) == now_us,
{
}

/// The clock gives the microseconds since 1970, and nothing before that.
pub proof fn law_clock_counts_microseconds(t: Span)
    requires
        t.wf(),
        t.secs < 1_000_000_000_000,
    ensures
        clock_revision(Some(t)) == t.secs * 1_000_000 + t.nanos / 1_000,
        clock_revision(None) == 0,
{
    let s = t.secs as int;
    let n = t.nanos as int;
    assert((s * 1_000_000_000 + n) / 1_000 == s * 1_000_000 + n / 1_000);
}

/// The latest 256 publications are remembered, in their order.
pub proof fn law_latest_publications_are_remembered(log: Seq<PublicationView>, i: int)
    ensures
        log.len() <= 256 ==> retained(log) == log,
        log.len() > 256 ==> retained(log).len() == 256,
        0 <= i < retained(log).len() ==> retained(log)[i] == log[log.len() - retained(log).len()
            + i],
{
}

/// A watcher whose revision is still remembered, and that is not behind by more than 1024 paths, is
/// told exactly the paths that were published after its revision, each once.
pub proof fn law_watcher_is_told_every_path(
    history: Seq<PublicationView>,
    since: u64,
    path: Seq<char>,
)
    requires
        history.len() > 0,
        since >= history[0].revision,
        paths_after(history, since).len() <= 1024,
    ensures
        published_since(history, since) is Some,
        published_since(history, since)->Some_0.no_duplicates(),
        published_since(history, since)->Some_0.contains(path) <==> exists|i: int|
            0 <= i < history.len() && (#[trigger] history[i]).revision > since
                && history[i].paths.contains(path),
{
    law_distinct(paths_after(history, since));
    lemma_paths_after(history, since, path);
    assert(distinct(paths_after(history, since)).to_set().contains(path) == paths_after(
        history,
        since,
    ).to_set().contains(path));
    assert(was_published_after(history, since, path) <==> exists|i: int|
        0 <= i < history.len() && (#[trigger] history[i]).revision > since
            && history[i].paths.contains(path));
}

/// A watcher is not told paths that may be incomplete: where the history no longer reaches back to its
/// revision, it is told that it has missed some.
pub proof fn law_forgotten_revision_is_told(history: Seq<PublicationView>, since: u64)
    ensures
        history.len() == 0 ==> published_since(history, since) is None,
        history.len() > 0 && since < history[0].revision ==> published_since(history, since) is None,
{
}

/// A watcher waits for what it asks for, between one second and thirty, and twenty-five seconds where
/// it asks for nothing that can be read.
pub proof fn law_watch_time_is_held(raw: Seq<char>, n: i64)
    ensures
        watch_millis(None) == 25_000,
        1_000 <= watch_millis(Some(raw)) <= 30_000,
        trimmed(raw).len() > 0 && i64_numeral(trimmed(raw)) == Some(n) && 1_000 <= n <= 30_000
            ==> watch_millis(Some(raw)) == n,
        trimmed(raw).len() > 0 && i64_numeral(trimmed(raw)) == Some(n) && n > 30_000
            ==> watch_millis(Some(raw)) == 30_000,
        trimmed(raw).len() > 0 && i64_numeral(trimmed(raw)) == Some(n) && n < 1_000
            ==> watch_millis(Some(raw)) == 1_000,
        trimmed(raw).len() == 0 || i64_numeral(trimmed(raw)) is None ==> watch_millis(Some(raw))
            == 25_000,
{
}

/// A publication waits for the milliseconds that the setting names, and for twenty-five where it names
/// none that can be read.
pub proof fn law_ack_time_is_as_set(raw: Seq<char>)
    ensures
        ack_timeout_millis(None) == 25,
        match u64_numeral(trimmed(raw)) {
            Some(n) => ack_timeout_millis(Some(raw)) == n,
            None => ack_timeout_millis(Some(raw)) == 25,
        },
{
}

/// Paths and publications are seen as what they are, in their order.
pub proof fn law_publications_are_seen_as_they_are(
    list: Seq<PublishedPaths>,
    i: int,
    paths: Vec<String>,
)
    ensures
        opt_paths(Some(paths)) == Some(views(paths@)),
        opt_paths(None) is None,
        publication_views(list).len() == list.len(),
        0 <= i < list.len() ==> publication_views(list)[i].revision == list[i].revision
            && publication_views(list)[i].paths == views(list[i].paths@),
{
}

/// A parameter counts without the white space around it, and a blank one is none.
pub proof fn law_blank_parameter_is_none(text: Seq<char>)
    ensures
        given(None) is None,
        trimmed(text).len() == 0 ==> given(Some(text)) is None,
        trimmed(text).len() > 0 ==> given(Some(text)) == Some(trimmed(text)),
{
}

} // verus!
