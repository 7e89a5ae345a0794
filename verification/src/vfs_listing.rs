//! Directory listings: which entries are shown, and in which order.

use crate::order::lemma_text_lt_irreflexive;
use crate::order::lemma_text_lt_total;
use crate::order::lemma_text_lt_transitive;
use crate::order::text_less;
use crate::order::text_lt;
use crate::text::chars_of;
use crate::text::same;
use crate::vfs::VfsDirEntry;
use crate::vfs::VfsListDirOptions;
use crate::vfs::VfsTime;
use crate::vfs::VFS_ENTRY_KIND_FILE;
use vstd::prelude::*;

verus! {

// ---------------------------------------------------------------------------
// Patterns
// ---------------------------------------------------------------------------
/// A value matches a pattern as `LIKE` of SQL has it: a percent sign stands for any text, an
/// underscore for any character, and every other character for itself.
pub open spec fn like(pattern: Seq<char>, value: Seq<char>) -> bool
    decreases pattern.len() + value.len(),
{
    if pattern.len() == 0 {
        value.len() == 0
    } else if pattern[0] == '%' {
        like(pattern.drop_first(), value) || (value.len() > 0 && like(pattern, value.drop_first()))
    } else {
        value.len() > 0 && (pattern[0] == '_' || pattern[0] == value[0]) && like(
            pattern.drop_first(),
            value.drop_first(),
        )
    }
}

fn like_from(pattern: &Vec<char>, p: usize, value: &Vec<char>, v: usize) -> (yes: bool)
    requires
        p <= pattern@.len(),
        v <= value@.len(),
    ensures
        yes == like(pattern@.skip(p as int), value@.skip(v as int)),
    decreases pattern@.len() - p + value@.len() - v,
{
    let ghost ps = pattern@.skip(p as int);
    let ghost vs = value@.skip(v as int);
    if p == pattern.len() {
        return v == value.len();
    }
    assert(ps[0] == pattern@[p as int]);
    assert(ps.drop_first() =~= pattern@.skip(p + 1));
    if v == value.len() {
        if pattern[p] == '%' {
            return like_from(pattern, p + 1, value, v);
        }
        return false;
    }
    assert(vs[0] == value@[v as int]);
    assert(vs.drop_first() =~= value@.skip(v + 1));
    if pattern[p] == '%' {
        like_from(pattern, p + 1, value, v) || like_from(pattern, p, value, v + 1)
    } else if pattern[p] == '_' || pattern[p] == value[v] {
        like_from(pattern, p + 1, value, v + 1)
    } else {
        false
    }
}

/// Whether a value matches a pattern.
pub fn sql_like_match(pattern: &str, value: &str) -> (yes: bool)
    ensures
        yes == like(pattern@, value@),
{
    let pattern_chars = chars_of(pattern);
    let value_chars = chars_of(value);
    assert(pattern@.skip(0) =~= pattern@);
    assert(value@.skip(0) =~= value@);
    like_from(&pattern_chars, 0, &value_chars, 0)
}

/// The pattern holds neither a percent sign nor an underscore.
pub open spec fn is_plain(pattern: Seq<char>) -> bool {
    forall|i: int| 0 <= i < pattern.len() ==> #[trigger] pattern[i] != '%' && pattern[i] != '_'
}

/// A percent sign alone matches everything.
pub proof fn law_percent_matches_everything(value: Seq<char>)
    ensures
        like(seq!['%'], value),
    decreases value.len(),
{
    reveal_with_fuel(like, 2);
    let p = seq!['%'];
    assert(p.drop_first().len() == 0);
    if value.len() > 0 {
        law_percent_matches_everything(value.drop_first());
    }
}

/// A pattern without signs of its own matches itself and nothing else; with a percent sign after
/// it, it matches what starts with it.
pub proof fn law_plain_pattern(pattern: Seq<char>, value: Seq<char>)
    requires
        is_plain(pattern),
    ensures
        like(pattern, value) == (pattern == value),
        like(pattern.push('%'), value) == pattern.is_prefix_of(value),
    decreases pattern.len(),
{
    let starred = pattern.push('%');
    if pattern.len() == 0 {
        assert(pattern =~= Seq::<char>::empty());
        assert(starred =~= seq!['%']);
        law_percent_matches_everything(value);
        assert(value.len() == 0 ==> value =~= pattern);
    } else {
        let c = pattern[0];
        assert(c != '%' && c != '_');
        let rest = pattern.drop_first();
        assert(forall|i: int| 0 <= i < rest.len() ==> rest[i] == pattern[i + 1]);
        assert(starred.drop_first() =~= rest.push('%'));
        assert(starred[0] == c);
        if value.len() > 0 {
            let tail = value.drop_first();
            law_plain_pattern(rest, tail);
            assert(pattern =~= seq![c] + rest);
            assert(value =~= seq![value[0]] + tail);
            if c == value[0] && rest.is_prefix_of(tail) {
                assert(pattern =~= value.take(pattern.len() as int));
            }
            if pattern.is_prefix_of(value) {
                assert(value[0] == c);
                assert(rest =~= tail.take(rest.len() as int));
            }
            if pattern == value {
                assert(rest =~= tail);
            }
        }
    }
}

// ---------------------------------------------------------------------------
// Orders
// ---------------------------------------------------------------------------
/// An order of entries.
#[derive(Clone, Copy, Debug, PartialEq, Eq, Structural)]
pub enum EntryOrder {
    NameAscending,
    NameDescending,
    NewestFirst,
    /// Everything that is not a file before the files, each by name.
    KindThenName,
}

/// The order that a listing asks for.
pub open spec fn order_named(name: Option<Seq<char>>) -> EntryOrder {
    match name {
        Some(n) => if n == "name_asc"@ {
            EntryOrder::NameAscending
        } else if n == "name_desc"@ {
            EntryOrder::NameDescending
        } else if n == "updated_desc"@ {
            EntryOrder::NewestFirst
        } else {
            EntryOrder::KindThenName
        },
        None => EntryOrder::KindThenName,
    }
}

fn read_order(name: &Option<String>) -> (order: EntryOrder)
    ensures
        order == order_named(crate::vm::opt_view(*name)),
{
    match name {
        Some(n) => if same(n, "name_asc") {
            EntryOrder::NameAscending
        } else if same(n, "name_desc") {
            EntryOrder::NameDescending
        } else if same(n, "updated_desc") {
            EntryOrder::NewestFirst
        } else {
            EntryOrder::KindThenName
        },
        None => EntryOrder::KindThenName,
    }
}

/// A time comes before another; an unknown time comes before every known one.
pub open spec fn time_lt(a: Option<VfsTime>, b: Option<VfsTime>) -> bool {
    match (a, b) {
        (None, None) => false,
        (None, Some(_)) => true,
        (Some(_), None) => false,
        (Some(a), Some(b)) => a.secs < b.secs || (a.secs == b.secs && a.nanos < b.nanos),
    }
}

fn time_less(a: Option<VfsTime>, b: Option<VfsTime>) -> (less: bool)
    ensures
        less == time_lt(a, b),
{
    match (a, b) {
        (None, None) => false,
        (None, Some(_)) => true,
        (Some(_), None) => false,
        (Some(a), Some(b)) => a.secs < b.secs || (a.secs == b.secs && a.nanos < b.nanos),
    }
}

/// The entry is a file.
pub open spec fn is_file(entry: VfsDirEntry) -> bool {
    entry.kind@ == VFS_ENTRY_KIND_FILE@
}

/// An entry comes before another.
pub open spec fn entry_lt(a: VfsDirEntry, b: VfsDirEntry, order: EntryOrder) -> bool {
    match order {
        EntryOrder::NameAscending => text_lt(a.name@, b.name@),
        EntryOrder::NameDescending => text_lt(b.name@, a.name@),
        EntryOrder::NewestFirst => time_lt(b.updated_at, a.updated_at) || (a.updated_at
            == b.updated_at && text_lt(a.name@, b.name@)),
        EntryOrder::KindThenName => (!is_file(a) && is_file(b)) || (is_file(a) == is_file(b)
            && text_lt(a.name@, b.name@)),
    }
}

fn same_time(a: Option<VfsTime>, b: Option<VfsTime>) -> (yes: bool)
    ensures
        yes == (a == b),
{
    match (a, b) {
        (None, None) => true,
        (Some(a), Some(b)) => a.secs == b.secs && a.nanos == b.nanos,
        _ => false,
    }
}

fn entry_less(a: &VfsDirEntry, b: &VfsDirEntry, order: EntryOrder) -> (less: bool)
    ensures
        less == entry_lt(*a, *b, order),
{
    match order {
        EntryOrder::NameAscending => text_less(&a.name, &b.name),
        EntryOrder::NameDescending => text_less(&b.name, &a.name),
        EntryOrder::NewestFirst => time_less(b.updated_at, a.updated_at) || (same_time(
            a.updated_at,
            b.updated_at,
        ) && text_less(&a.name, &b.name)),
        EntryOrder::KindThenName => {
            let a_file: bool = same(&a.kind, VFS_ENTRY_KIND_FILE);
            let b_file: bool = same(&b.kind, VFS_ENTRY_KIND_FILE);
            (!a_file && b_file) || (a_file == b_file && text_less(&a.name, &b.name))
        },
    }
}

proof fn lemma_text_order(a: Seq<char>, b: Seq<char>, c: Seq<char>)
    ensures
        text_lt(a, b) ==> !text_lt(b, a),
        !text_lt(b, a) && !text_lt(c, b) ==> !text_lt(c, a),
{
    lemma_text_lt_irreflexive(a);
    lemma_text_lt_irreflexive(b);
    if text_lt(a, b) && text_lt(b, a) {
        lemma_text_lt_transitive(a, b, a);
    }
    if !text_lt(b, a) && !text_lt(c, b) && text_lt(c, a) {
        lemma_text_lt_total(a, b);
        lemma_text_lt_total(b, c);
        if a != b && b != c {
            lemma_text_lt_transitive(c, a, b);
        }
    }
}

proof fn lemma_entry_order(a: VfsDirEntry, b: VfsDirEntry, c: VfsDirEntry, order: EntryOrder)
    ensures
        entry_lt(a, b, order) ==> !entry_lt(b, a, order),
        !entry_lt(b, a, order) && !entry_lt(c, b, order) ==> !entry_lt(c, a, order),
{
    lemma_text_order(a.name@, b.name@, c.name@);
    lemma_text_order(c.name@, b.name@, a.name@);
    lemma_text_order(b.name@, a.name@, b.name@);
}

/// The entries with one more, put behind every entry that it does not come before.
pub open spec fn put_entry(s: Seq<VfsDirEntry>, x: VfsDirEntry, order: EntryOrder) -> Seq<
    VfsDirEntry,
>
    decreases s.len(),
{
    if s.len() == 0 {
        seq![x]
    } else if entry_lt(x, s.last(), order) {
        put_entry(s.drop_last(), x, order).push(s.last())
    } else {
        s.push(x)
    }
}

/// The entries in order; of two that the order does not tell apart, the first stays first.
pub open spec fn sorted_entries(s: Seq<VfsDirEntry>, order: EntryOrder) -> Seq<VfsDirEntry>
    decreases s.len(),
{
    if s.len() == 0 {
        Seq::empty()
    } else {
        put_entry(sorted_entries(s.drop_last(), order), s.last(), order)
    }
}

/// No entry comes before one that stands earlier.
pub open spec fn entries_in_order(s: Seq<VfsDirEntry>, order: EntryOrder) -> bool {
    forall|i: int, j: int|
        0 <= i < j < s.len() ==> !entry_lt(#[trigger] s[j], #[trigger] s[i], order)
}

proof fn lemma_put_entry(s: Seq<VfsDirEntry>, x: VfsDirEntry, order: EntryOrder)
    requires
        entries_in_order(s, order),
    ensures
        entries_in_order(put_entry(s, x, order), order),
        put_entry(s, x, order).to_multiset() == s.to_multiset().insert(x),
        put_entry(s, x, order).len() == s.len() + 1,
        forall|i: int|
            0 <= i < put_entry(s, x, order).len() ==> (#[trigger] put_entry(s, x, order)[i]) == x
                || s.contains(put_entry(s, x, order)[i]),
    decreases s.len(),
{
    broadcast use vstd::seq_lib::group_to_multiset_ensures;

    let r = put_entry(s, x, order);
    if s.len() == 0 {
        assert(r =~= s.push(x));
    } else if entry_lt(x, s.last(), order) {
        let head = s.drop_last();
        let inner = put_entry(head, x, order);
        assert(forall|i: int| 0 <= i < head.len() ==> head[i] == s[i]);
        assert(entries_in_order(head, order));
        lemma_put_entry(head, x, order);
        lemma_entry_order(x, s.last(), x, order);
        assert forall|i: int, j: int| 0 <= i < j < r.len() implies !entry_lt(
            #[trigger] r[j],
            #[trigger] r[i],
            order,
        ) by {
            if j == r.len() - 1 {
                assert(r[i] == inner[i]);
                if inner[i] != x {
                    assert(head.contains(inner[i]));
                    let k = choose|k: int| 0 <= k < head.len() && head[k] == inner[i];
                    assert(s[k] == inner[i]);
                    assert(!entry_lt(s[s.len() - 1], s[k], order));
                }
            } else {
                assert(r[i] == inner[i] && r[j] == inner[j]);
            }
        }
        assert forall|i: int| 0 <= i < r.len() implies (#[trigger] r[i]) == x || s.contains(
            r[i],
        ) by {
            if i < r.len() - 1 {
                assert(r[i] == inner[i]);
                if inner[i] != x {
                    let k = choose|k: int| 0 <= k < head.len() && head[k] == inner[i];
                    assert(s[k] == r[i]);
                }
            } else {
                assert(s[s.len() - 1] == r[i]);
            }
        }
        assert(s =~= head.push(s.last()));
        assert(r.to_multiset() =~= s.to_multiset().insert(x));
    } else {
        let last = s.len() - 1;
        assert forall|i: int, j: int| 0 <= i < j < r.len() implies !entry_lt(
            #[trigger] r[j],
            #[trigger] r[i],
            order,
        ) by {
            if j == r.len() - 1 {
                if i < last {
                    assert(!entry_lt(s[last], s[i], order));
                    lemma_entry_order(s[i], s[last], x, order);
                }
            } else {
                assert(r[i] == s[i] && r[j] == s[j]);
            }
        }
        assert forall|i: int| 0 <= i < r.len() implies (#[trigger] r[i]) == x || s.contains(
            r[i],
        ) by {
            if i < s.len() {
                assert(s[i] == r[i]);
            }
        }
    }
}

/// Sorting keeps the entries and puts them in order.
pub proof fn law_sorted_entries(s: Seq<VfsDirEntry>, order: EntryOrder)
    ensures
        entries_in_order(sorted_entries(s, order), order),
        sorted_entries(s, order).to_multiset() == s.to_multiset(),
        sorted_entries(s, order).len() == s.len(),
    decreases s.len(),
{
    broadcast use vstd::seq_lib::group_to_multiset_ensures;

    if s.len() > 0 {
        law_sorted_entries(s.drop_last(), order);
        lemma_put_entry(sorted_entries(s.drop_last(), order), s.last(), order);
        assert(s =~= s.drop_last().push(s.last()));
    } else {
        assert(sorted_entries(s, order) =~= s);
    }
}

proof fn lemma_put_entry_at(s: Seq<VfsDirEntry>, x: VfsDirEntry, order: EntryOrder, at: int)
    requires
        0 <= at <= s.len(),
        forall|k: int| at <= k < s.len() ==> entry_lt(x, #[trigger] s[k], order),
        0 < at ==> !entry_lt(x, s[at - 1], order),
    ensures
        put_entry(s, x, order) == s.insert(at, x),
    decreases s.len() - at,
{
    if at == s.len() {
        if s.len() == 0 {
            assert(s.insert(at, x) =~= seq![x]);
        } else {
            assert(s.insert(at, x) =~= s.push(x));
        }
    } else {
        assert(entry_lt(x, s[s.len() - 1], order));
        lemma_put_entry_at(s.drop_last(), x, order, at);
        assert(s.insert(at, x) =~= s.drop_last().insert(at, x).push(s.last()));
    }
}

// ---------------------------------------------------------------------------
// Listings
// ---------------------------------------------------------------------------
/// The listing shows the entry.
pub open spec fn is_wanted(entry: VfsDirEntry, options: VfsListDirOptions) -> bool {
    &&& (match options.entry_kind {
        Some(kind) => entry.kind@ == kind@,
        None => true,
    })
    &&& (match options.name_like {
        Some(pattern) => like(pattern@, entry.name@),
        None => true,
    })
    &&& (match options.name_not_like {
        Some(pattern) => !like(pattern@, entry.name@),
        None => true,
    })
}

/// The entries that a listing shows.
pub open spec fn wanted_entries(s: Seq<VfsDirEntry>, options: VfsListDirOptions) -> Seq<VfsDirEntry>
    decreases s.len(),
{
    if s.len() == 0 {
        Seq::empty()
    } else if is_wanted(s.last(), options) {
        wanted_entries(s.drop_last(), options).push(s.last())
    } else {
        wanted_entries(s.drop_last(), options)
    }
}

/// The first entries, up to a limit; a limit below zero shows none.
pub open spec fn first_entries(s: Seq<VfsDirEntry>, limit: Option<i64>) -> Seq<VfsDirEntry> {
    match limit {
        Some(n) => if n <= 0 {
            Seq::empty()
        } else if n < s.len() {
            s.take(n as int)
        } else {
            s
        },
        None => s,
    }
}

/// A listing: the entries that it shows, in its order, up to its limit.
pub open spec fn listing(s: Seq<VfsDirEntry>, options: VfsListDirOptions) -> Seq<VfsDirEntry> {
    first_entries(
        sorted_entries(
            wanted_entries(s, options),
            order_named(crate::vm::opt_view(options.order)),
        ),
        options.limit,
    )
}

fn wanted(entry: &VfsDirEntry, options: &VfsListDirOptions) -> (yes: bool)
    ensures
        yes == is_wanted(*entry, *options),
{
    let kind: bool = match &options.entry_kind {
        Some(kind) => same(&entry.kind, kind),
        None => true,
    };
    let matching: bool = match &options.name_like {
        Some(pattern) => sql_like_match(pattern, &entry.name),
        None => true,
    };
    let unlike: bool = match &options.name_not_like {
        Some(pattern) => !sql_like_match(pattern, &entry.name),
        None => true,
    };
    kind && matching && unlike
}

/// A listing.
pub fn filter_dir_entries(entries: Vec<VfsDirEntry>, options: &VfsListDirOptions) -> (list: Vec<
    VfsDirEntry,
>)
    ensures
        list@ == listing(entries@, *options),
{
    let order = read_order(&options.order);
    let ghost all = entries@;
    let mut rest = entries;
    let mut list: Vec<VfsDirEntry> = Vec::new();
    let ghost mut done: int = 0;
    assert(all.skip(0) =~= all);
    assert(wanted_entries(all.take(0), *options) =~= Seq::empty());
    while rest.len() > 0
        invariant
            0 <= done <= all.len(),
            rest@ == all.skip(done),
            list@ == sorted_entries(wanted_entries(all.take(done), *options), order),
        decreases rest@.len(),
    {
        let entry = rest.remove(0);
        let ghost x = all[done];
        let ghost shown = wanted_entries(all.take(done), *options);
        proof {
            assert(entry == x);
            assert(rest@ =~= all.skip(done + 1));
            assert(all.take(done + 1).drop_last() =~= all.take(done));
            assert(all.take(done + 1).last() == x);
        }
        if wanted(&entry, options) {
            let ghost before = list@;
            let mut at: usize = list.len();
            while 0 < at && entry_less(&entry, &list[at - 1], order)
                invariant
                    at <= list@.len(),
                    before == list@,
                    entry == x,
                    forall|k: int| at <= k < before.len() ==> entry_lt(x, #[trigger] before[k], order),
                decreases at,
            {
                at -= 1;
            }
            proof {
                lemma_put_entry_at(before, x, order, at as int);
                assert(shown.push(x).drop_last() =~= shown);
            }
            list.insert(at, entry);
        }
        proof {
            done = done + 1;
        }
    }
    assert(all.take(done) =~= all);
    match options.limit {
        Some(n) => if n <= 0 {
            list.truncate(0);
            assert(list@ =~= Seq::empty());
        } else if (n as u64) < list.len() as u64 {
            list.truncate(n as usize);
        },
        None => {},
    }
    list
}

// ---------------------------------------------------------------------------
// What a listing shows
// ---------------------------------------------------------------------------
/// The signs of a pattern: a percent sign stands for any text, also for none; an underscore stands for
/// one character; every other character stands for itself.
pub proof fn law_pattern_signs(rest: Seq<char>, value: Seq<char>, c: char)
    ensures
        like(seq!['%'] + rest, value) <==> exists|k: int|
            0 <= k <= value.len() && #[trigger] like(rest, value.skip(k)),
        like(seq!['_'] + rest, value) <==> value.len() > 0 && like(rest, value.skip(1)),
        c != '%' && c != '_' ==> (like(seq![c] + rest, value) <==> value.len() > 0 && value[0] == c
            && like(rest, value.skip(1))),
        like(Seq::empty(), value) <==> value.len() == 0,
    decreases value.len(),
{
    let percent = seq!['%'] + rest;
    let underscore = seq!['_'] + rest;
    let plain = seq![c] + rest;
    assert(percent.drop_first() =~= rest);
    assert(underscore.drop_first() =~= rest);
    assert(plain.drop_first() =~= rest);
    assert(value.skip(0) =~= value);
    assert(percent[0] == '%' && underscore[0] == '_' && plain[0] == c);
    assert(like(percent, value) <==> like(rest, value.skip(0)) || (value.len() > 0 && like(
        percent,
        value.drop_first(),
    )));
    if value.len() > 0 {
        let tail = value.drop_first();
        assert(value.skip(1) =~= tail);
        law_pattern_signs(rest, tail, c);
        if like(percent, tail) {
            let k = choose|k: int| 0 <= k <= tail.len() && #[trigger] like(rest, tail.skip(k));
            assert(value.skip(k + 1) =~= tail.skip(k));
            assert(like(rest, value.skip(k + 1)));
        }
        if exists|k: int| 0 <= k <= value.len() && #[trigger] like(rest, value.skip(k)) {
            let k = choose|k: int| 0 <= k <= value.len() && #[trigger] like(rest, value.skip(k));
            if k > 0 {
                assert(tail.skip(k - 1) =~= value.skip(k));
                assert(like(rest, tail.skip(k - 1)));
                assert(like(percent, tail));
            }
        }
    }
}

proof fn lemma_wanted_entries(s: Seq<VfsDirEntry>, options: VfsListDirOptions)
    ensures
        forall|e: VfsDirEntry| #[trigger]
            wanted_entries(s, options).contains(e) <==> s.contains(e) && is_wanted(e, options),
        wanted_entries(s, options).len() <= s.len(),
    decreases s.len(),
{
    if s.len() > 0 {
        let head = s.drop_last();
        lemma_wanted_entries(head, options);
        let w = wanted_entries(s, options);
        assert forall|e: VfsDirEntry| #[trigger] w.contains(e) <==> s.contains(e) && is_wanted(
            e,
            options,
        ) by {
            if w.contains(e) {
                let i = choose|i: int| 0 <= i < w.len() && w[i] == e;
                if is_wanted(s.last(), options) && i == w.len() - 1 {
                    assert(s[s.len() - 1] == e);
                } else {
                    assert(wanted_entries(head, options)[i] == e);
                    assert(wanted_entries(head, options).contains(e));
                    let j = choose|j: int| 0 <= j < head.len() && head[j] == e;
                    assert(s[j] == e);
                }
            }
            if s.contains(e) && is_wanted(e, options) {
                let j = choose|j: int| 0 <= j < s.len() && s[j] == e;
                if j < head.len() {
                    assert(head[j] == e);
                    assert(wanted_entries(head, options).contains(e));
                    let i = choose|i: int|
                        0 <= i < wanted_entries(head, options).len() && wanted_entries(
                            head,
                            options,
                        )[i] == e;
                    assert(w[i] == e);
                } else {
                    assert(w[w.len() - 1] == e);
                }
            }
        }
    }
}

proof fn lemma_listing_in_order(s: Seq<VfsDirEntry>, options: VfsListDirOptions)
    ensures
        entries_in_order(
            listing(s, options),
            order_named(crate::vm::opt_view(options.order)),
        ),
        forall|i: int|
            0 <= i < listing(s, options).len() ==> s.contains(#[trigger] listing(s, options)[i])
                && is_wanted(listing(s, options)[i], options),
{
    broadcast use vstd::seq_lib::group_to_multiset_ensures;

    let order = order_named(crate::vm::opt_view(options.order));
    let shown = wanted_entries(s, options);
    let sorted = sorted_entries(shown, order);
    let list = listing(s, options);
    law_sorted_entries(shown, order);
    lemma_wanted_entries(s, options);
    assert forall|i: int| 0 <= i < list.len() implies s.contains(#[trigger] list[i]) && is_wanted(
        list[i],
        options,
    ) by {
        assert(list[i] == sorted[i]);
        assert(sorted.contains(sorted[i]));
        assert(sorted.to_multiset().contains(sorted[i]));
        assert(shown.contains(sorted[i]));
    }
    assert forall|i: int, j: int| 0 <= i < j < list.len() implies !entry_lt(
        #[trigger] list[j],
        #[trigger] list[i],
        order,
    ) by {
        assert(list[i] == sorted[i] && list[j] == sorted[j]);
    }
}

/// The second of two times is later than the first; an unknown time is the earliest.
pub open spec fn is_later(first: Option<VfsTime>, second: Option<VfsTime>) -> bool {
    second is Some && (first is None || second->Some_0.secs > first->Some_0.secs || (
    second->Some_0.secs == first->Some_0.secs && second->Some_0.nanos > first->Some_0.nanos))
}

proof fn lemma_order_names()
    ensures
        "name_asc"@ != "name_desc"@,
        "name_asc"@ != "updated_desc"@,
        "name_desc"@ != "updated_desc"@,
{
    reveal_strlit("name_asc");
    reveal_strlit("name_desc");
    reveal_strlit("updated_desc");
    assert("name_asc"@.len() == 8 && "name_desc"@.len() == 9 && "updated_desc"@.len() == 12);
}

/// In a listing by time no entry was updated later than one that stands before it; those of one time
/// are in the order of their names.
pub proof fn law_newest_entries_come_first(
    s: Seq<VfsDirEntry>,
    options: VfsListDirOptions,
    i: int,
    j: int,
)
    requires
        crate::vm::opt_view(options.order) == Some("updated_desc"@),
        0 <= i < j < listing(s, options).len(),
    ensures
        ({
            let a = listing(s, options)[i];
            let b = listing(s, options)[j];
            &&& !is_later(a.updated_at, b.updated_at)
            &&& a.updated_at == b.updated_at ==> a.name@ == b.name@ || text_lt(a.name@, b.name@)
        }),
{
    lemma_order_names();
    lemma_listing_in_order(s, options);
    let a = listing(s, options)[i];
    let b = listing(s, options)[j];
    assert(!entry_lt(b, a, EntryOrder::NewestFirst));
    lemma_text_lt_total(a.name@, b.name@);
}

/// In a listing by name the names rise, or fall where that is asked for.
pub proof fn law_names_rise_or_fall(
    s: Seq<VfsDirEntry>,
    options: VfsListDirOptions,
    i: int,
    j: int,
)
    requires
        0 <= i < j < listing(s, options).len(),
    ensures
        ({
            let a = listing(s, options)[i].name@;
            let b = listing(s, options)[j].name@;
            &&& crate::vm::opt_view(options.order) == Some("name_asc"@) ==> a == b || text_lt(a, b)
            &&& crate::vm::opt_view(options.order) == Some("name_desc"@) ==> a == b || text_lt(b, a)
        }),
{
    lemma_order_names();
    lemma_listing_in_order(s, options);
    let a = listing(s, options)[i];
    let b = listing(s, options)[j];
    assert(!entry_lt(b, a, order_named(crate::vm::opt_view(options.order))));
    lemma_text_lt_total(a.name@, b.name@);
}

/// A listing that asks for no order, or for one that is not known, has everything that is no file
/// before the files, and each of the two by name.
pub proof fn law_files_come_last(s: Seq<VfsDirEntry>, options: VfsListDirOptions, i: int, j: int)
    requires
        options.order is None || (options.order->Some_0@ != "name_asc"@ && options.order->Some_0@
            != "name_desc"@ && options.order->Some_0@ != "updated_desc"@),
        0 <= i < j < listing(s, options).len(),
    ensures
        ({
            let a = listing(s, options)[i];
            let b = listing(s, options)[j];
            &&& a.kind@ == "file"@ ==> b.kind@ == "file"@
            &&& (a.kind@ == "file"@) == (b.kind@ == "file"@) ==> a.name@ == b.name@ || text_lt(
                a.name@,
                b.name@,
            )
        }),
{
    lemma_listing_in_order(s, options);
    let a = listing(s, options)[i];
    let b = listing(s, options)[j];
    assert(!entry_lt(b, a, EntryOrder::KindThenName));
    lemma_text_lt_total(a.name@, b.name@);
}

/// What a listing shows is in the directory, is of the kind asked for, matches the one pattern and does
/// not match the other.
pub proof fn law_listing_shows_what_was_asked_for(
    s: Seq<VfsDirEntry>,
    options: VfsListDirOptions,
    i: int,
)
    requires
        0 <= i < listing(s, options).len(),
    ensures
        ({
            let e = listing(s, options)[i];
            &&& s.contains(e)
            &&& options.entry_kind matches Some(kind) ==> e.kind@ == kind@
            &&& options.name_like matches Some(pattern) ==> like(pattern@, e.name@)
            &&& options.name_not_like matches Some(pattern) ==> !like(pattern@, e.name@)
        }),
{
    lemma_listing_in_order(s, options);
}

/// A listing without a limit leaves out nothing that was asked for. One with a limit is the beginning
/// of that listing, and no longer than the limit; below zero it is empty.
pub proof fn law_listing_is_whole_up_to_limit(
    s: Seq<VfsDirEntry>,
    options: VfsListDirOptions,
    unlimited: VfsListDirOptions,
    e: VfsDirEntry,
)
    requires
        unlimited == (VfsListDirOptions { limit: None, ..options }),
        s.contains(e),
        options.entry_kind matches Some(kind) ==> e.kind@ == kind@,
        options.name_like matches Some(pattern) ==> like(pattern@, e.name@),
        options.name_not_like matches Some(pattern) ==> !like(pattern@, e.name@),
    ensures
        listing(s, unlimited).contains(e),
        listing(s, unlimited).len() <= s.len(),
        listing(s, options).is_prefix_of(listing(s, unlimited)),
        options.limit is None ==> listing(s, options) == listing(s, unlimited),
        options.limit matches Some(n) ==> listing(s, options).len() == (if n <= 0 {
            0
        } else if n < listing(s, unlimited).len() {
            n as int
        } else {
            listing(s, unlimited).len() as int
        }),
{
    broadcast use vstd::seq_lib::group_to_multiset_ensures;

    let order = order_named(crate::vm::opt_view(options.order));
    lemma_same_entries_wanted(s, options, unlimited);
    let shown = wanted_entries(s, unlimited);
    law_sorted_entries(shown, order);
    lemma_wanted_entries(s, unlimited);
    assert(is_wanted(e, unlimited));
    assert(shown.contains(e));
    assert(shown.to_multiset().contains(e));
    assert(sorted_entries(shown, order).to_multiset().contains(e));
    let whole = listing(s, unlimited);
    assert(whole == sorted_entries(shown, order));
    assert(listing(s, options) =~= whole.take(listing(s, options).len() as int));
}

proof fn lemma_same_entries_wanted(
    s: Seq<VfsDirEntry>,
    options: VfsListDirOptions,
    unlimited: VfsListDirOptions,
)
    requires
        unlimited == (VfsListDirOptions { limit: None, ..options }),
    ensures
        wanted_entries(s, options) == wanted_entries(s, unlimited),
    decreases s.len(),
{
    if s.len() > 0 {
        lemma_same_entries_wanted(s.drop_last(), options, unlimited);
    }
}

} // verus!
