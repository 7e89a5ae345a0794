//! Lists of texts in which nothing occurs twice.

use crate::text::same;
use crate::text::views;
use vstd::prelude::*;

verus! {

/// The texts without repetitions: what came first stays.
pub open spec fn distinct(s: Seq<Seq<char>>) -> Seq<Seq<char>>
    decreases s.len(),
{
    if s.len() == 0 {
        Seq::empty()
    } else {
        with_new(distinct(s.drop_last()), s.last())
    }
}

/// The list with a text at its end, unless it holds the text.
pub open spec fn with_new(list: Seq<Seq<char>>, x: Seq<char>) -> Seq<Seq<char>> {
    if list.contains(x) {
        list
    } else {
        list.push(x)
    }
}

/// Leaving repetitions out loses no text and leaves no text twice.
pub proof fn law_distinct(s: Seq<Seq<char>>)
    ensures
        distinct(s).no_duplicates(),
        distinct(s).to_set() == s.to_set(),
        distinct(s).len() <= s.len(),
    decreases s.len(),
{
    if s.len() > 0 {
        let head = s.drop_last();
        let x = s.last();
        law_distinct(head);
        let d = distinct(head);
        let r = distinct(s);
        assert(s =~= head.push(x));
        assert forall|y: Seq<char>| #[trigger] r.contains(y) == s.contains(y) by {
            assert(d.to_set().contains(y) == head.to_set().contains(y));
            if d.contains(y) {
                let i = choose|i: int| 0 <= i < d.len() && d[i] == y;
                assert(r[i] == y);
            }
            if head.contains(y) {
                let i = choose|i: int| 0 <= i < head.len() && head[i] == y;
                assert(s[i] == y);
            }
            if y == x {
                assert(s[s.len() - 1] == y);
                if !d.contains(x) {
                    assert(r[r.len() - 1] == y);
                }
            }
            if r.contains(y) && y != x {
                let i = choose|i: int| 0 <= i < r.len() && r[i] == y;
                assert(d[i] == y);
            }
            if s.contains(y) && y != x {
                let i = choose|i: int| 0 <= i < s.len() && s[i] == y;
                assert(head[i] == y);
            }
        }
        assert(r.to_set() =~= s.to_set());
    } else {
        assert(distinct(s).to_set() =~= s.to_set());
    }
}

/// Two lists, one after the other, without repetitions.
pub proof fn lemma_distinct_push(s: Seq<Seq<char>>, x: Seq<char>)
    ensures
        distinct(s.push(x)) == with_new(distinct(s), x),
{
    assert(s.push(x).drop_last() =~= s);
}

/// Whether the list holds a text.
pub fn holds(list: &Vec<String>, x: &str) -> (yes: bool)
    ensures
        yes == views(list@).contains(x@),
{
    let mut i: usize = 0;
    while i < list.len()
        invariant
            i <= list@.len(),
            forall|j: int| 0 <= j < i ==> (#[trigger] list@[j])@ != x@,
        decreases list@.len() - i,
    {
        if same(&list[i], x) {
            assert(views(list@)[i as int] == x@);
            return true;
        }
        i += 1;
    }
    proof {
        if views(list@).contains(x@) {
            let j = choose|j: int| 0 <= j < views(list@).len() && views(list@)[j] == x@;
            assert(list@[j]@ == x@);
        }
    }
    false
}

/// Puts a text at the end of the list, unless the list holds it.
pub fn push_new(list: &mut Vec<String>, x: &str)
    ensures
        views(final(list)@) == with_new(views(old(list)@), x@),
{
    if !holds(list, x) {
        let ghost before = views(list@);
        list.push(x.to_owned());
        assert(views(list@) =~= before.push(x@));
    }
}

} // verus!
