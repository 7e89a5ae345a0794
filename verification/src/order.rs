//! The lexicographic order of strings, and lists of strings in strictly increasing order.

use crate::text::chars_of;
use crate::text::same;
use crate::text::views;
use vstd::prelude::*;

verus! {

/// `a` comes before `b`: at the first difference it has the smaller character, or it ends there.
pub open spec fn text_lt(a: Seq<char>, b: Seq<char>) -> bool
    decreases a.len(),
{
    if b.len() == 0 {
        false
    } else if a.len() == 0 {
        true
    } else if a[0] == b[0] {
        text_lt(a.drop_first(), b.drop_first())
    } else {
        a[0] < b[0]
    }
}

/// Each element comes before all that follow it.
pub open spec fn increasing(s: Seq<Seq<char>>) -> bool {
    forall|i: int, j: int| 0 <= i < j < s.len() ==> text_lt(#[trigger] s[i], #[trigger] s[j])
}

/// No text comes before itself.
pub proof fn lemma_text_lt_irreflexive(a: Seq<char>)
    ensures
        !text_lt(a, a),
    decreases a.len(),
{
    if a.len() > 0 {
        lemma_text_lt_irreflexive(a.drop_first());
    }
}

/// The order is transitive.
pub proof fn lemma_text_lt_transitive(a: Seq<char>, b: Seq<char>, c: Seq<char>)
    requires
        text_lt(a, b),
        text_lt(b, c),
    ensures
        text_lt(a, c),
    decreases a.len(),
{
    if a.len() > 0 && b.len() > 0 && c.len() > 0 && a[0] == b[0] && b[0] == c[0] {
        lemma_text_lt_transitive(a.drop_first(), b.drop_first(), c.drop_first());
    }
}

/// Of two different texts one comes before the other.
pub proof fn lemma_text_lt_total(a: Seq<char>, b: Seq<char>)
    ensures
        text_lt(a, b) || text_lt(b, a) || a == b,
    decreases a.len(),
{
    if a.len() > 0 && b.len() > 0 && a[0] == b[0] {
        lemma_text_lt_total(a.drop_first(), b.drop_first());
        if a.drop_first() == b.drop_first() {
            assert(a == seq![a[0]] + a.drop_first());
            assert(b == seq![b[0]] + b.drop_first());
        }
    } else if a.len() == 0 && b.len() == 0 {
        assert(a == b);
    }
}

/// A list in increasing order is fixed by which texts it holds.
pub proof fn law_increasing_list_is_determined(s: Seq<Seq<char>>, t: Seq<Seq<char>>)
    requires
        increasing(s),
        increasing(t),
        forall|x: Seq<char>| #[trigger] s.contains(x) <==> t.contains(x),
    ensures
        s == t,
    decreases s.len(),
{
    if s.len() == 0 {
        if t.len() > 0 {
            assert(t.contains(t[0]));
            assert(!s.contains(t[0]));
        }
        assert(s == t);
    } else {
        assert(s.contains(s.last()));
        assert(t.contains(s.last()));
        assert(t.len() > 0);
        assert(t.contains(t.last()));
        assert(s.contains(t.last()));
        let a = s.last();
        let b = t.last();
        if a != b {
            let i = choose|i: int| 0 <= i < s.len() && s[i] == b;
            let j = choose|j: int| 0 <= j < t.len() && t[j] == a;
            assert(text_lt(s[i], s[s.len() - 1]));
            assert(text_lt(t[j], t[t.len() - 1]));
            lemma_text_lt_transitive(a, b, a);
            lemma_text_lt_irreflexive(a);
        }
        let s1 = s.drop_last();
        let t1 = t.drop_last();
        assert forall|x: Seq<char>| #[trigger] s1.contains(x) <==> t1.contains(x) by {
            if s1.contains(x) {
                let i = choose|i: int| 0 <= i < s1.len() && s1[i] == x;
                assert(s[i] == x);
                assert(text_lt(s[i], s[s.len() - 1]));
                lemma_text_lt_irreflexive(a);
                assert(s.contains(x));
                assert(t.contains(x));
                let j = choose|j: int| 0 <= j < t.len() && t[j] == x;
                assert(t1[j] == x);
            }
            if t1.contains(x) {
                let i = choose|i: int| 0 <= i < t1.len() && t1[i] == x;
                assert(t[i] == x);
                assert(text_lt(t[i], t[t.len() - 1]));
                lemma_text_lt_irreflexive(b);
                assert(t.contains(x));
                assert(s.contains(x));
                let j = choose|j: int| 0 <= j < s.len() && s[j] == x;
                assert(s1[j] == x);
            }
        }
        law_increasing_list_is_determined(s1, t1);
        assert(s == s1.push(a));
        assert(t == t1.push(b));
    }
}

/// Whether `a` comes before `b`.
pub fn text_less(a: &str, b: &str) -> (less: bool)
    ensures
        less == text_lt(a@, b@),
{
    let left = chars_of(a);
    let right = chars_of(b);
    let mut i: usize = 0;
    assert(a@.skip(0) == a@);
    assert(b@.skip(0) == b@);
    while i < left.len() && i < right.len()
        invariant
            i <= left@.len(),
            i <= right@.len(),
            left@ == a@,
            right@ == b@,
            text_lt(a@, b@) == text_lt(a@.skip(i as int), b@.skip(i as int)),
        decreases left@.len() - i,
    {
        if left[i] != right[i] {
            return left[i] < right[i];
        }
        assert(a@.skip(i as int).drop_first() == a@.skip(i + 1));
        assert(b@.skip(i as int).drop_first() == b@.skip(i + 1));
        i += 1;
    }
    i < right.len()
}

/// Puts `s` at its place in an increasing list; a list that holds `s` already stays as it is.
pub fn insert_increasing(list: &mut Vec<String>, s: String)
    requires
        increasing(views(old(list)@)),
    ensures
        increasing(views(final(list)@)),
        forall|x: Seq<char>| #[trigger]
            views(final(list)@).contains(x) <==> views(old(list)@).contains(x) || x == s@,
{
    let ghost before = views(list@);
    let mut at: usize = 0;
    while at < list.len() && text_less(&list[at], &s)
        invariant
            at <= list@.len(),
            before == views(list@),
            forall|k: int| 0 <= k < at ==> text_lt(#[trigger] before[k], s@),
        decreases list@.len() - at,
    {
        at += 1;
    }
    if at < list.len() && same(&list[at], &s) {
        assert(before[at as int] == s@);
        return ;
    }
    let ghost text = s@;
    list.insert(at, s);
    proof {
        let after = views(list@);
        assert(after == before.insert(at as int, text));
        assert forall|k: int| at <= k < before.len() implies text_lt(
            text,
            #[trigger] before[k],
        ) by {
            lemma_text_lt_total(before[at as int], text);
            if at < k {
                lemma_text_lt_transitive(text, before[at as int], before[k]);
            }
        }
        assert forall|x: Seq<char>| #[trigger]
            after.contains(x) <==> before.contains(x) || x == text by {
            if before.contains(x) {
                let k = choose|k: int| 0 <= k < before.len() && before[k] == x;
                if k < at {
                    assert(after[k] == x);
                } else {
                    assert(after[k + 1] == x);
                }
            }
            if x == text {
                assert(after[at as int] == x);
            }
            if after.contains(x) && x != text {
                let k = choose|k: int| 0 <= k < after.len() && after[k] == x;
                if k < at {
                    assert(before[k] == x);
                } else {
                    assert(before[k - 1] == x);
                }
            }
        }
        assert forall|i: int, j: int| 0 <= i < j < after.len() implies text_lt(
            #[trigger] after[i],
            #[trigger] after[j],
        ) by {
            if i < at && j < at {
                assert(after[i] == before[i] && after[j] == before[j]);
            } else if i < at && j == at {
                assert(after[i] == before[i]);
            } else if i < at {
                assert(after[i] == before[i] && after[j] == before[j - 1]);
            } else if i == at {
                assert(after[j] == before[j - 1]);
            } else {
                assert(after[i] == before[i - 1] && after[j] == before[j - 1]);
            }
        }
    }
}

/// The given strings in increasing order, each once.
pub fn sorted_distinct(strings: &Vec<String>) -> (list: Vec<String>)
    ensures
        increasing(views(list@)),
        forall|x: Seq<char>| #[trigger] views(list@).contains(x) <==> views(strings@).contains(x),
{
    let mut list: Vec<String> = Vec::new();
    let ghost all = views(strings@);
    let mut i: usize = 0;
    assert(all.take(0).len() == 0);
    while i < strings.len()
        invariant
            i <= strings@.len(),
            all == views(strings@),
            increasing(views(list@)),
            forall|x: Seq<char>| #[trigger]
                views(list@).contains(x) <==> all.take(i as int).contains(x),
        decreases strings@.len() - i,
    {
        insert_increasing(&mut list, strings[i].clone());
        i += 1;
        proof {
            let head = all.take(i - 1);
            let next = all.take(i as int);
            assert(next == head.push(all[i - 1]));
            assert forall|x: Seq<char>| #[trigger]
                next.contains(x) <==> head.contains(x) || x == all[i - 1] by {
                if head.contains(x) {
                    let k = choose|k: int| 0 <= k < head.len() && head[k] == x;
                    assert(next[k] == x);
                }
                if x == all[i - 1] {
                    assert(next[i - 1] == x);
                }
            }
        }
    }
    assert(all.take(all.len() as int) == all);
    list
}

// ---------------------------------------------------------------------------
// Sorting
// ---------------------------------------------------------------------------
/// A sorted list with `x` put before the first element that is not smaller.
pub open spec fn put_in_order(s: Seq<Seq<char>>, x: Seq<char>) -> Seq<Seq<char>>
    decreases s.len(),
{
    if s.len() == 0 {
        seq![x]
    } else if text_lt(s.last(), x) {
        s.push(x)
    } else {
        put_in_order(s.drop_last(), x).push(s.last())
    }
}

/// The texts in order, each as often as it occurs.
pub open spec fn sorted_texts(s: Seq<Seq<char>>) -> Seq<Seq<char>>
    decreases s.len(),
{
    if s.len() == 0 {
        Seq::empty()
    } else {
        put_in_order(sorted_texts(s.drop_last()), s.last())
    }
}

/// No element comes before one that stands earlier.
pub open spec fn in_order(s: Seq<Seq<char>>) -> bool {
    forall|i: int, j: int| 0 <= i < j < s.len() ==> !text_lt(#[trigger] s[j], #[trigger] s[i])
}

proof fn lemma_put_in_order(s: Seq<Seq<char>>, x: Seq<char>)
    requires
        in_order(s),
    ensures
        in_order(put_in_order(s, x)),
        put_in_order(s, x).to_multiset() == s.to_multiset().insert(x),
        put_in_order(s, x).len() == s.len() + 1,
        forall|y: Seq<char>| #[trigger]
            put_in_order(s, x).contains(y) ==> s.contains(y) || y == x,
    decreases s.len(),
{
    broadcast use vstd::seq_lib::group_to_multiset_ensures;

    let r = put_in_order(s, x);
    if s.len() == 0 {
        assert(r =~= s.push(x));
    } else if text_lt(s.last(), x) {
        assert forall|i: int, j: int| 0 <= i < j < r.len() implies !text_lt(
            #[trigger] r[j],
            #[trigger] r[i],
        ) by {
            if j == s.len() {
                if text_lt(x, s[i]) {
                    lemma_text_lt_transitive(s.last(), x, s[i]);
                    if i < s.len() - 1 {
                        assert(!text_lt(s[s.len() - 1], s[i]));
                    } else {
                        lemma_text_lt_irreflexive(s.last());
                    }
                }
            } else {
                assert(r[i] == s[i] && r[j] == s[j]);
            }
        }
        assert forall|y: Seq<char>| #[trigger] r.contains(y) implies s.contains(y) || y == x by {
            let k = choose|k: int| 0 <= k < r.len() && r[k] == y;
            if k < s.len() {
                assert(s[k] == y);
            }
        }
    } else {
        let head = s.drop_last();
        let put = put_in_order(head, x);
        assert(in_order(head)) by {
            assert forall|i: int, j: int| 0 <= i < j < head.len() implies !text_lt(
                #[trigger] head[j],
                #[trigger] head[i],
            ) by {
                assert(head[i] == s[i] && head[j] == s[j]);
            }
        }
        lemma_put_in_order(head, x);
        assert forall|i: int, j: int| 0 <= i < j < r.len() implies !text_lt(
            #[trigger] r[j],
            #[trigger] r[i],
        ) by {
            if j == put.len() {
                assert(r[j] == s.last());
                assert(put.contains(put[i]));
                if put[i] != x {
                    assert(head.contains(put[i]));
                    let k = choose|k: int| 0 <= k < head.len() && head[k] == put[i];
                    assert(s[k] == put[i]);
                    assert(!text_lt(s[s.len() - 1], s[k]));
                }
            } else {
                assert(r[i] == put[i] && r[j] == put[j]);
            }
        }
        assert(s =~= head.push(s.last()));
        assert forall|y: Seq<char>| #[trigger] r.contains(y) implies s.contains(y) || y == x by {
            let k = choose|k: int| 0 <= k < r.len() && r[k] == y;
            if k < put.len() {
                assert(put[k] == y);
                assert(put.contains(y));
                if y != x {
                    let m = choose|m: int| 0 <= m < head.len() && head[m] == y;
                    assert(s[m] == y);
                }
            } else {
                assert(s[s.len() - 1] == y);
            }
        }
        assert(r.to_multiset() =~= s.to_multiset().insert(x));
    }
}

/// Sorting keeps the texts and puts them in order.
pub proof fn law_sorting_is_a_permutation(s: Seq<Seq<char>>)
    ensures
        in_order(sorted_texts(s)),
        sorted_texts(s).to_multiset() == s.to_multiset(),
        sorted_texts(s).len() == s.len(),
    decreases s.len(),
{
    broadcast use vstd::seq_lib::group_to_multiset_ensures;

    if s.len() > 0 {
        law_sorting_is_a_permutation(s.drop_last());
        lemma_put_in_order(sorted_texts(s.drop_last()), s.last());
        assert(s =~= s.drop_last().push(s.last()));
    } else {
        assert(sorted_texts(s) =~= s);
    }
}

proof fn lemma_put_at(s: Seq<Seq<char>>, x: Seq<char>, at: int)
    requires
        0 <= at <= s.len(),
        forall|k: int| at <= k < s.len() ==> !text_lt(#[trigger] s[k], x),
        0 < at ==> text_lt(s[at - 1], x),
    ensures
        put_in_order(s, x) == s.insert(at, x),
    decreases s.len() - at,
{
    if at == s.len() {
        if s.len() == 0 {
            assert(s.insert(at, x) =~= seq![x]);
        } else {
            assert(s.insert(at, x) =~= s.push(x));
        }
    } else {
        lemma_put_at(s.drop_last(), x, at);
        assert(s.insert(at, x) =~= s.drop_last().insert(at, x).push(s.last()));
    }
}

/// The texts in order, each as often as it occurs.
pub fn sort_texts(strings: Vec<String>) -> (list: Vec<String>)
    ensures
        views(list@) == sorted_texts(views(strings@)),
{
    let ghost all = views(strings@);
    let mut list: Vec<String> = Vec::new();
    let mut i: usize = 0;
    assert(views(list@) =~= sorted_texts(all.take(0)));
    while i < strings.len()
        invariant
            i <= strings@.len(),
            all == views(strings@),
            views(list@) == sorted_texts(all.take(i as int)),
        decreases strings@.len() - i,
    {
        let ghost before = views(list@);
        let ghost x = strings@[i as int]@;
        let mut at: usize = list.len();
        while 0 < at && !text_less(&list[at - 1], &strings[i])
            invariant
                at <= list@.len(),
                i < strings@.len(),
                before == views(list@),
                x == strings@[i as int]@,
                forall|k: int| at <= k < before.len() ==> !text_lt(#[trigger] before[k], x),
            decreases at,
        {
            at -= 1;
        }
        list.insert(at, strings[i].clone());
        proof {
            lemma_put_at(before, x, at as int);
            assert(views(list@) =~= before.insert(at as int, x));
            assert(all.take(i + 1).drop_last() =~= all.take(i as int));
            assert(all.take(i + 1).last() == x);
        }
        i += 1;
    }
    assert(all.take(all.len() as int) =~= all);
    list
}

/// The place at which two texts part.
pub open spec fn part_at(a: Seq<char>, b: Seq<char>, k: int) -> bool {
    &&& 0 <= k <= a.len()
    &&& k < b.len()
    &&& a.take(k) == b.take(k)
    &&& k == a.len() || a[k] < b[k]
}

/// A text comes before another where it is a beginning of it, or has the smaller character at the
/// place at which the two part; and only there.
pub proof fn law_texts_are_ordered_by_first_difference(a: Seq<char>, b: Seq<char>)
    ensures
        text_lt(a, b) <==> exists|k: int| #[trigger] part_at(a, b, k),
    decreases a.len(),
{
    if b.len() > 0 && a.len() > 0 {
        let x = a.drop_first();
        let y = b.drop_first();
        if a[0] == b[0] {
            law_texts_are_ordered_by_first_difference(x, y);
            if text_lt(a, b) {
                let k = choose|k: int| #[trigger] part_at(x, y, k);
                assert(a.take(k + 1) =~= seq![a[0]] + x.take(k));
                assert(b.take(k + 1) =~= seq![b[0]] + y.take(k));
                assert(part_at(a, b, k + 1));
            }
            if exists|k: int| #[trigger] part_at(a, b, k) {
                let k = choose|k: int| #[trigger] part_at(a, b, k);
                assert(k > 0);
                assert(x.take(k - 1) =~= a.take(k).drop_first());
                assert(y.take(k - 1) =~= b.take(k).drop_first());
                assert(part_at(x, y, k - 1));
            }
        } else {
            assert(a.take(0) =~= b.take(0));
            if text_lt(a, b) {
                assert(part_at(a, b, 0));
            }
            if exists|k: int| #[trigger] part_at(a, b, k) {
                let k = choose|k: int| #[trigger] part_at(a, b, k);
                if k > 0 {
                    assert(a.take(k)[0] == b.take(k)[0]);
                }
            }
        }
    } else if b.len() > 0 {
        assert(a.take(0) =~= b.take(0));
        assert(part_at(a, b, 0));
    }
}

} // verus!
