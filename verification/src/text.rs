//! Text as a sequence of characters: the string operations that the rest of the library is
//! written with, each stated over `Seq<char>`.

use vstd::prelude::*;

verus! {

/// `String::push` appends one character at the end.
pub assume_specification[ String::push ](s: &mut String, c: char)
    ensures
        final(s)@ == old(s)@.push(c),
;

/// `eq` on string slices compares the characters.
pub assume_specification[ <str as PartialEq>::eq ](a: &str, b: &str) -> (equal: bool)
    ensures
        equal == (a@ == b@),
;

/// `char::is_whitespace` tests the Unicode property `White_Space`.
pub assume_specification[ char::is_whitespace ](c: char) -> (white: bool)
    ensures
        white == is_white_space(c),
;

// ---------------------------------------------------------------------------
// Model
// ---------------------------------------------------------------------------
/// The characters with the Unicode property `White_Space`.
pub open spec fn is_white_space(c: char) -> bool {
    let u = c as u32;
    ||| 0x9 <= u <= 0xd
    ||| u == 0x20
    ||| u == 0x85
    ||| u == 0xa0
    ||| u == 0x1680
    ||| 0x2000 <= u <= 0x200a
    ||| u == 0x2028
    ||| u == 0x2029
    ||| u == 0x202f
    ||| u == 0x205f
    ||| u == 0x3000
}

/// `s` without the longest prefix whose characters all satisfy `drop`.
pub open spec fn strip_front(s: Seq<char>, drop: spec_fn(char) -> bool) -> Seq<char>
    decreases s.len(),
{
    if s.len() > 0 && drop(s[0]) {
        strip_front(s.drop_first(), drop)
    } else {
        s
    }
}

/// `s` without the longest suffix whose characters all satisfy `drop`.
pub open spec fn strip_back(s: Seq<char>, drop: spec_fn(char) -> bool) -> Seq<char>
    decreases s.len(),
{
    if s.len() > 0 && drop(s.last()) {
        strip_back(s.drop_last(), drop)
    } else {
        s
    }
}

/// `s` without leading and trailing white space.
pub open spec fn trimmed(s: Seq<char>) -> Seq<char> {
    strip_back(strip_front(s, |c: char| is_white_space(c)), |c: char| is_white_space(c))
}

/// The test for one character.
pub open spec fn is_char(c: char) -> spec_fn(char) -> bool {
    |x: char| x == c
}

/// `s` without leading `c`s.
pub open spec fn trimmed_start_of(s: Seq<char>, c: char) -> Seq<char> {
    strip_front(s, is_char(c))
}

/// `s` without trailing `c`s.
pub open spec fn trimmed_end_of(s: Seq<char>, c: char) -> Seq<char> {
    strip_back(s, is_char(c))
}

/// `s` without leading and trailing `c`s.
pub open spec fn trimmed_of(s: Seq<char>, c: char) -> Seq<char> {
    trimmed_end_of(trimmed_start_of(s, c), c)
}

/// `pattern` stands in `s` at position `at`.
pub open spec fn occurs_at(s: Seq<char>, pattern: Seq<char>, at: int) -> bool {
    0 <= at && at + pattern.len() <= s.len() && s.subrange(at, at + pattern.len()) == pattern
}

/// `pattern` stands somewhere in `s`.
pub open spec fn occurs(s: Seq<char>, pattern: Seq<char>) -> bool {
    exists|at: int| #[trigger] occurs_at(s, pattern, at)
}

/// The first position, from `from` on, at which `pattern` stands in `s`.
pub open spec fn find_from(s: Seq<char>, pattern: Seq<char>, from: int) -> Option<int>
    decreases s.len() + 1 - from,
{
    if from < 0 || from + pattern.len() > s.len() {
        None
    } else if occurs_at(s, pattern, from) {
        Some(from)
    } else {
        find_from(s, pattern, from + 1)
    }
}

/// What stands before and after the first `pattern` in `s`.
pub open spec fn split_at_first(s: Seq<char>, pattern: Seq<char>) -> Option<(Seq<char>, Seq<char>)> {
    match find_from(s, pattern, 0) {
        Some(at) => Some((s.take(at), s.skip(at + pattern.len()))),
        None => None,
    }
}

/// The position of the last `c` in `s`.
pub open spec fn last_index(s: Seq<char>, c: char) -> Option<int>
    decreases s.len(),
{
    if s.len() == 0 {
        None
    } else if s.last() == c {
        Some(s.len() - 1)
    } else {
        last_index(s.drop_last(), c)
    }
}

/// What stands before and after the last `c` in `s`.
pub open spec fn split_at_last(s: Seq<char>, c: char) -> Option<(Seq<char>, Seq<char>)> {
    match last_index(s, c) {
        Some(at) => Some((s.take(at), s.skip(at + 1))),
        None => None,
    }
}

/// What stands after the last `c` in `s`; all of `s` where there is none.
pub open spec fn after_last(s: Seq<char>, c: char) -> Seq<char> {
    match split_at_last(s, c) {
        Some((_, tail)) => tail,
        None => s,
    }
}

/// What stands before the first `c` in `s`; all of `s` where there is none.
pub open spec fn before_first(s: Seq<char>, c: char) -> Seq<char> {
    match split_at_first(s, seq![c]) {
        Some((head, _)) => head,
        None => s,
    }
}

/// `s` with each occurrence of `from`, read from the left without overlap, written as `to`.
pub open spec fn replaced(s: Seq<char>, from: Seq<char>, to: Seq<char>) -> Seq<char>
    decreases s.len(),
{
    if s.len() == 0 || from.len() == 0 {
        s
    } else if from.is_prefix_of(s) {
        to + replaced(s.skip(from.len() as int), from, to)
    } else {
        seq![s[0]] + replaced(s.drop_first(), from, to)
    }
}

/// An ASCII capital as its small letter; every other character as it is.
pub open spec fn lower_char(c: char) -> char {
    if 'A' <= c <= 'Z' {
        (c as u8 + 32) as u8 as char
    } else {
        c
    }
}

/// `s` with ASCII capitals written small.
pub open spec fn lowered(s: Seq<char>) -> Seq<char> {
    s.map_values(|c: char| lower_char(c))
}

/// The characters of each string.
pub open spec fn views(strings: Seq<String>) -> Seq<Seq<char>> {
    strings.map_values(|s: String| s@)
}

/// `parts` written one after the other with `separator` between them.
pub open spec fn joined(parts: Seq<Seq<char>>, separator: Seq<char>) -> Seq<char>
    decreases parts.len(),
{
    if parts.len() == 0 {
        Seq::empty()
    } else if parts.len() == 1 {
        parts[0]
    } else {
        joined(parts.drop_last(), separator) + separator + parts.last()
    }
}

// ---------------------------------------------------------------------------
// Conversions
// ---------------------------------------------------------------------------
/// The characters of a string, in order.
pub fn chars_of(s: &str) -> (chars: Vec<char>)
    ensures
        chars@ == s@,
{
    let mut chars: Vec<char> = Vec::new();
    for c in it: s.chars()
        invariant
            chars@ == it.seq().take(it.index() as int),
            it.seq() == s@,
    {
        chars.push(c);
    }
    assert(s@.take(s@.len() as int) == s@);
    chars
}

/// A string of the given characters.
pub fn string_of(chars: &[char]) -> (s: String)
    ensures
        s@ == chars@,
{
    string_of_range(chars, 0, chars.len())
}

/// A string of the characters from position `from` up to position `to`.
pub fn string_of_range(chars: &[char], from: usize, to: usize) -> (s: String)
    requires
        from <= to <= chars@.len(),
    ensures
        s@ == chars@.subrange(from as int, to as int),
{
    let mut s = String::new();
    let mut i: usize = from;
    while i < to
        invariant
            from <= i <= to <= chars@.len(),
            s@ == chars@.subrange(from as int, i as int),
        decreases to - i,
    {
        s.push(chars[i]);
        i += 1;
        assert(chars@.subrange(from as int, i as int) == chars@.subrange(from as int, i - 1).push(
            chars@[i - 1],
        ));
    }
    s
}

/// Whether two strings hold the same characters.
pub fn same(a: &str, b: &str) -> (equal: bool)
    ensures
        equal == (a@ == b@),
{
    a.eq(b)
}

/// A vector of copies of the given strings.
pub fn clone_strings(strings: &Vec<String>) -> (copy: Vec<String>)
    ensures
        views(copy@) == views(strings@),
        copy@ == strings@,
{
    let mut copy: Vec<String> = Vec::new();
    let mut i: usize = 0;
    while i < strings.len()
        invariant
            i <= strings@.len(),
            copy@ == strings@.take(i as int),
        decreases strings@.len() - i,
    {
        copy.push(strings[i].clone());
        i += 1;
        assert(strings@.take(i as int) == strings@.take(i - 1).push(strings@[i - 1]));
    }
    assert(strings@.take(strings@.len() as int) == strings@);
    copy
}

// ---------------------------------------------------------------------------
// Trimming
// ---------------------------------------------------------------------------
proof fn lemma_strip_front_skip(s: Seq<char>, drop: spec_fn(char) -> bool, n: int)
    requires
        0 <= n <= s.len(),
        forall|i: int| 0 <= i < n ==> drop(#[trigger] s[i]),
        n < s.len() ==> !drop(s[n]),
    ensures
        strip_front(s, drop) == s.skip(n),
    decreases n,
{
    if n == 0 {
        assert(s.skip(0) == s);
    } else {
        let rest = s.drop_first();
        assert forall|i: int| 0 <= i < n - 1 implies drop(#[trigger] rest[i]) by {
            assert(rest[i] == s[i + 1]);
        }
        lemma_strip_front_skip(rest, drop, n - 1);
        assert(rest.skip(n - 1) == s.skip(n));
    }
}

proof fn lemma_strip_back_take(s: Seq<char>, drop: spec_fn(char) -> bool, n: int)
    requires
        0 <= n <= s.len(),
        forall|i: int| n <= i < s.len() ==> drop(#[trigger] s[i]),
        0 < n ==> !drop(s[n - 1]),
    ensures
        strip_back(s, drop) == s.take(n),
    decreases s.len() - n,
{
    if n == s.len() {
        assert(s.take(n) == s);
    } else {
        let rest = s.drop_last();
        lemma_strip_back_take(rest, drop, n);
        assert(rest.take(n) == s.take(n));
    }
}

/// `s` without leading and trailing white space.
pub fn trim(s: &str) -> (r: String)
    ensures
        r@ == trimmed(s@),
{
    let chars = chars_of(s);
    let mut from: usize = 0;
    while from < chars.len() && chars[from].is_whitespace()
        invariant
            from <= chars@.len(),
            forall|i: int| 0 <= i < from ==> is_white_space(#[trigger] chars@[i]),
        decreases chars@.len() - from,
    {
        from += 1;
    }
    let mut to: usize = chars.len();
    while from < to && chars[to - 1].is_whitespace()
        invariant
            from <= to <= chars@.len(),
            forall|i: int| to <= i < chars@.len() ==> is_white_space(#[trigger] chars@[i]),
        decreases to,
    {
        to -= 1;
    }
    proof {
        let white = |c: char| is_white_space(c);
        lemma_strip_front_skip(s@, white, from as int);
        let rest = s@.skip(from as int);
        lemma_strip_back_take(rest, white, to - from);
        assert(rest.take(to - from) == s@.subrange(from as int, to as int));
    }
    string_of_range(&chars, from, to)
}

/// `s` without leading `c`s.
pub fn trim_start_of(s: &str, c: char) -> (r: String)
    ensures
        r@ == trimmed_start_of(s@, c),
{
    let chars = chars_of(s);
    let mut from: usize = 0;
    while from < chars.len() && chars[from] == c
        invariant
            from <= chars@.len(),
            forall|i: int| 0 <= i < from ==> #[trigger] chars@[i] == c,
        decreases chars@.len() - from,
    {
        from += 1;
    }
    proof {
        lemma_strip_front_skip(s@, is_char(c), from as int);
        assert(s@.skip(from as int) == s@.subrange(from as int, s@.len() as int));
    }
    string_of_range(&chars, from, chars.len())
}

/// `s` without trailing `c`s.
pub fn trim_end_of(s: &str, c: char) -> (r: String)
    ensures
        r@ == trimmed_end_of(s@, c),
{
    let chars = chars_of(s);
    let mut to: usize = chars.len();
    while 0 < to && chars[to - 1] == c
        invariant
            to <= chars@.len(),
            forall|i: int| to <= i < chars@.len() ==> #[trigger] chars@[i] == c,
        decreases to,
    {
        to -= 1;
    }
    proof {
        lemma_strip_back_take(s@, is_char(c), to as int);
        assert(s@.take(to as int) == s@.subrange(0, to as int));
    }
    string_of_range(&chars, 0, to)
}

/// `s` without leading and trailing `c`s.
pub fn trim_of(s: &str, c: char) -> (r: String)
    ensures
        r@ == trimmed_of(s@, c),
{
    let front = trim_start_of(s, c);
    trim_end_of(&front, c)
}

// ---------------------------------------------------------------------------
// Searching
// ---------------------------------------------------------------------------
/// Whether `pattern` stands in `chars` at position `at`.
pub fn matches_at(chars: &[char], pattern: &[char], at: usize) -> (found: bool)
    ensures
        found == occurs_at(chars@, pattern@, at as int),
{
    if pattern.len() > chars.len() || at > chars.len() - pattern.len() {
        return false;
    }
    let ghost window = chars@.subrange(at as int, at + pattern@.len());
    let mut i: usize = 0;
    while i < pattern.len()
        invariant
            i <= pattern.len(),
            at + pattern.len() <= chars.len(),
            window == chars@.subrange(at as int, at + pattern@.len()),
            forall|j: int| 0 <= j < i ==> #[trigger] window[j] == pattern@[j],
        decreases pattern@.len() - i,
    {
        if chars[at + i] != pattern[i] {
            assert(window[i as int] != pattern@[i as int]);
            return false;
        }
        i += 1;
    }
    assert(window == pattern@);
    true
}

/// The first position from `from` on at which `pattern` stands.
pub fn find_chars(chars: &[char], pattern: &[char], from: usize) -> (at: Option<usize>)
    ensures
        match at {
            Some(i) => find_from(chars@, pattern@, from as int) == Some(i as int),
            None => find_from(chars@, pattern@, from as int) is None,
        },
{
    if pattern.len() > chars.len() {
        return None;
    }
    let last: usize = chars.len() - pattern.len();
    let mut i: usize = from;
    while i <= last
        invariant
            last == chars@.len() - pattern@.len(),
            from <= i,
            find_from(chars@, pattern@, from as int) == find_from(chars@, pattern@, i as int),
        decreases last + 1 - i,
    {
        if matches_at(chars, pattern, i) {
            return Some(i);
        }
        if i == last {
            assert(find_from(chars@, pattern@, i + 1) is None);
            return None;
        }
        i += 1;
    }
    None
}

/// A first occurrence is an occurrence, and none stands before it.
pub proof fn lemma_find_from(s: Seq<char>, pattern: Seq<char>, from: int)
    requires
        0 <= from,
    ensures
        match find_from(s, pattern, from) {
            Some(at) => from <= at && occurs_at(s, pattern, at) && forall|i: int|
                from <= i < at ==> !#[trigger] occurs_at(s, pattern, i),
            None => forall|i: int| from <= i ==> !#[trigger] occurs_at(s, pattern, i),
        },
    decreases s.len() + 1 - from,
{
    if from + pattern.len() <= s.len() && !occurs_at(s, pattern, from) {
        lemma_find_from(s, pattern, from + 1);
    }
}

/// Whether `pattern` stands somewhere in `s`.
pub fn contains(s: &str, pattern: &str) -> (found: bool)
    ensures
        found == occurs(s@, pattern@),
{
    proof {
        lemma_find_from(s@, pattern@, 0);
    }
    let chars = chars_of(s);
    let needle = chars_of(pattern);
    match find_chars(&chars, &needle, 0) {
        Some(_) => true,
        None => {
            assert forall|i: int| !#[trigger] occurs_at(s@, pattern@, i) by {
                if i >= 0 {
                    assert(!occurs_at(s@, pattern@, i));
                }
            }
            false
        },
    }
}

/// Whether `c` is a character of `s`.
pub fn contains_char(s: &str, c: char) -> (found: bool)
    ensures
        found == s@.contains(c),
{
    let chars = chars_of(s);
    let mut i: usize = 0;
    while i < chars.len()
        invariant
            i <= chars@.len(),
            chars@ == s@,
            forall|j: int| 0 <= j < i ==> #[trigger] chars@[j] != c,
        decreases chars@.len() - i,
    {
        if chars[i] == c {
            assert(s@[i as int] == c);
            return true;
        }
        i += 1;
    }
    false
}

/// Whether `s` starts with `prefix`.
pub fn starts_with(s: &str, prefix: &str) -> (yes: bool)
    ensures
        yes == prefix@.is_prefix_of(s@),
{
    let chars = chars_of(s);
    let head = chars_of(prefix);
    matches_at(&chars, &head, 0)
}

/// What follows `prefix` in `s`, where `s` starts with it.
pub fn strip_prefix(s: &str, prefix: &str) -> (rest: Option<String>)
    ensures
        match rest {
            Some(r) => prefix@.is_prefix_of(s@) && r@ == s@.skip(prefix@.len() as int),
            None => !prefix@.is_prefix_of(s@),
        },
{
    let chars = chars_of(s);
    let head = chars_of(prefix);
    if matches_at(&chars, &head, 0) {
        assert(s@.skip(prefix@.len() as int) == s@.subrange(
            prefix@.len() as int,
            s@.len() as int,
        ));
        Some(string_of_range(&chars, head.len(), chars.len()))
    } else {
        None
    }
}

/// What stands before and after the first `pattern` in `s`.
pub fn split_once(s: &str, pattern: &str) -> (parts: Option<(String, String)>)
    ensures
        match parts {
            Some(p) => split_at_first(s@, pattern@) == Some((p.0@, p.1@)),
            None => split_at_first(s@, pattern@) is None,
        },
{
    let chars = chars_of(s);
    let needle = chars_of(pattern);
    match find_chars(&chars, &needle, 0) {
        Some(at) => {
            proof {
                lemma_find_from(s@, pattern@, 0);
                assert(at + needle.len() <= chars.len());
                assert(s@.take(at as int) == s@.subrange(0, at as int));
                assert(s@.skip(at + pattern@.len()) == s@.subrange(
                    at + pattern@.len(),
                    s@.len() as int,
                ));
            }
            Some(
                (
                    string_of_range(&chars, 0, at),
                    string_of_range(&chars, at + needle.len(), chars.len()),
                ),
            )
        },
        None => None,
    }
}

/// What stands before and after the last `c` in `s`.
pub fn rsplit_once(s: &str, c: char) -> (parts: Option<(String, String)>)
    ensures
        match parts {
            Some(p) => split_at_last(s@, c) == Some((p.0@, p.1@)),
            None => split_at_last(s@, c) is None,
        },
{
    let chars = chars_of(s);
    let mut i: usize = chars.len();
    assert(s@.take(s@.len() as int) == s@);
    while 0 < i
        invariant
            i <= chars@.len(),
            chars@ == s@,
            last_index(s@, c) == last_index(s@.take(i as int), c),
        decreases i,
    {
        assert(s@.take(i as int).last() == s@[i - 1]);
        assert(s@.take(i as int).drop_last() == s@.take(i - 1));
        if chars[i - 1] == c {
            assert(s@.take(i - 1) == s@.subrange(0, i - 1));
            assert(s@.skip(i as int) == s@.subrange(i as int, s@.len() as int));
            return Some((string_of_range(&chars, 0, i - 1), string_of_range(&chars, i, chars.len())));
        }
        i -= 1;
    }
    assert(s@.take(0).len() == 0);
    None
}

/// What stands after the last `c` in `s`; all of `s` where there is none.
pub fn tail_after_last(s: &str, c: char) -> (tail: String)
    ensures
        tail@ == after_last(s@, c),
{
    match rsplit_once(s, c) {
        Some(parts) => parts.1,
        None => s.to_owned(),
    }
}

/// What stands before the first `c` in `s`; all of `s` where there is none.
pub fn head_before_first(s: &str, c: char) -> (head: String)
    ensures
        head@ == before_first(s@, c),
{
    let chars = chars_of(s);
    let needle: Vec<char> = vec![c];
    assert(needle@ == seq![c]);
    match find_chars(&chars, &needle, 0) {
        Some(at) => {
            proof {
                lemma_find_from(s@, seq![c], 0);
                assert(s@.take(at as int) == s@.subrange(0, at as int));
            }
            string_of_range(&chars, 0, at)
        },
        None => s.to_owned(),
    }
}

// ---------------------------------------------------------------------------
// Rewriting
// ---------------------------------------------------------------------------
/// `s` with each occurrence of `from` written as `to`.
pub fn replace(s: &str, from: &str, to: &str) -> (r: String)
    requires
        from@.len() > 0,
    ensures
        r@ == replaced(s@, from@, to@),
{
    let chars = chars_of(s);
    let needle = chars_of(from);
    let mut out = String::new();
    let mut i: usize = 0;
    assert(s@.skip(0) == s@);
    while i < chars.len()
        invariant
            i <= chars@.len(),
            chars@ == s@,
            needle@ == from@,
            from@.len() > 0,
            out@ + replaced(s@.skip(i as int), from@, to@) == replaced(s@, from@, to@),
        decreases chars@.len() - i,
    {
        let ghost rest = s@.skip(i as int);
        if matches_at(&chars, &needle, i) {
            proof {
                assert(rest.subrange(0, from@.len() as int) == s@.subrange(
                    i as int,
                    i + from@.len(),
                ));
                assert(rest.skip(from@.len() as int) == s@.skip(i + from@.len()));
                assert((out@ + to@) + replaced(s@.skip(i + from@.len()), from@, to@) == out@
                    + replaced(rest, from@, to@));
            }
            out.append(to);
            i += needle.len();
        } else {
            proof {
                if from@.is_prefix_of(rest) {
                    assert(rest.subrange(0, from@.len() as int) == s@.subrange(
                        i as int,
                        i + from@.len(),
                    ));
                }
                assert(rest.drop_first() == s@.skip(i + 1));
                assert(out@.push(s@[i as int]) + replaced(s@.skip(i + 1), from@, to@) == out@
                    + replaced(rest, from@, to@));
            }
            out.push(chars[i]);
            i += 1;
        }
    }
    assert(out@ + s@.skip(i as int) == out@);
    out
}

/// `s` with ASCII capitals written small.
pub fn to_lower(s: &str) -> (r: String)
    ensures
        r@ == lowered(s@),
{
    let chars = chars_of(s);
    let mut out = String::new();
    let mut i: usize = 0;
    while i < chars.len()
        invariant
            i <= chars@.len(),
            chars@ == s@,
            out@ == lowered(s@).take(i as int),
        decreases chars@.len() - i,
    {
        let c: char = chars[i];
        let small: char = if 'A' <= c && c <= 'Z' {
            (c as u8 + 32) as char
        } else {
            c
        };
        out.push(small);
        i += 1;
        assert(lowered(s@).take(i as int) == lowered(s@).take(i - 1).push(lower_char(s@[i - 1])));
    }
    assert(lowered(s@).take(s@.len() as int) == lowered(s@));
    out
}

/// Whether two strings are equal but for the case of ASCII letters.
pub fn same_ignoring_case(a: &str, b: &str) -> (equal: bool)
    ensures
        equal == (lowered(a@) == lowered(b@)),
{
    let left = to_lower(a);
    let right = to_lower(b);
    same(&left, &right)
}

/// `parts` written one after the other with `separator` between them.
pub fn join(parts: &Vec<String>, separator: &str) -> (r: String)
    ensures
        r@ == joined(views(parts@), separator@),
{
    let ghost all = views(parts@);
    if parts.len() == 0 {
        return String::new();
    }
    let mut out = parts[0].clone();
    let mut i: usize = 1;
    assert(all.take(1).len() == 1);
    while i < parts.len()
        invariant
            1 <= i <= parts@.len(),
            all == views(parts@),
            out@ == joined(all.take(i as int), separator@),
        decreases parts@.len() - i,
    {
        out.append(separator);
        out.append(&parts[i]);
        i += 1;
        assert(all.take(i as int).drop_last() == all.take(i - 1));
        assert(all.take(i as int).last() == parts@[i - 1]@);
    }
    assert(all.take(all.len() as int) == all);
    out
}

// ---------------------------------------------------------------------------
// What the operations on texts come to
// ---------------------------------------------------------------------------
/// Spaces, tabs and line ends are white space; letters, digits and signs are not.
pub proof fn law_white_space(c: char)
    ensures
        is_white_space(' ') && is_white_space('\t') && is_white_space('\n') && is_white_space('\r'),
        33 <= c as u32 <= 126 ==> !is_white_space(c),
{
}

proof fn lemma_strip_front_is_tail(s: Seq<char>, drop: spec_fn(char) -> bool) -> (n: int)
    ensures
        0 <= n <= s.len(),
        strip_front(s, drop) == s.skip(n),
        forall|i: int| 0 <= i < n ==> drop(#[trigger] s[i]),
        n < s.len() ==> !drop(s[n]),
    decreases s.len(),
{
    if s.len() > 0 && drop(s[0]) {
        let rest = s.drop_first();
        let n = lemma_strip_front_is_tail(rest, drop);
        assert(rest.skip(n) =~= s.skip(n + 1));
        assert forall|i: int| 0 <= i < n + 1 implies drop(#[trigger] s[i]) by {
            if i > 0 {
                assert(rest[i - 1] == s[i]);
            }
        }
        if n + 1 < s.len() {
            assert(rest[n] == s[n + 1]);
        }
        n + 1
    } else {
        assert(s.skip(0) =~= s);
        0
    }
}

proof fn lemma_strip_back_is_head(s: Seq<char>, drop: spec_fn(char) -> bool) -> (n: int)
    ensures
        0 <= n <= s.len(),
        strip_back(s, drop) == s.take(n),
        forall|i: int| n <= i < s.len() ==> drop(#[trigger] s[i]),
        0 < n ==> !drop(s[n - 1]),
    decreases s.len(),
{
    if s.len() > 0 && drop(s.last()) {
        let rest = s.drop_last();
        let n = lemma_strip_back_is_head(rest, drop);
        assert(rest.take(n) =~= s.take(n));
        assert forall|i: int| n <= i < s.len() implies drop(#[trigger] s[i]) by {
            if i < rest.len() {
                assert(rest[i] == s[i]);
            }
        }
        n
    } else {
        assert(s.take(s.len() as int) =~= s);
        s.len() as int
    }
}

/// What trimming leaves of a text is one piece of it, with nothing but white space before and behind
/// it, and none at its own ends.
pub open spec fn is_core(core: Seq<char>, s: Seq<char>, from: int, to: int) -> bool {
    &&& 0 <= from <= to <= s.len()
    &&& core == s.subrange(from, to)
    &&& forall|i: int| 0 <= i < from ==> is_white_space(#[trigger] s[i])
    &&& forall|i: int| to <= i < s.len() ==> is_white_space(#[trigger] s[i])
    &&& from < to ==> !is_white_space(s[from]) && !is_white_space(s[to - 1])
}

/// Trimming takes away the white space at both ends of a text, and nothing else.
pub proof fn law_trimming_takes_outer_white_space(s: Seq<char>)
    ensures
        exists|from: int, to: int| #[trigger] is_core(trimmed(s), s, from, to),
{
    let white = |c: char| is_white_space(c);
    let from = lemma_strip_front_is_tail(s, white);
    let front = s.skip(from);
    let n = lemma_strip_back_is_head(front, white);
    let to = from + n;
    assert(trimmed(s) == front.take(n));
    assert(front.take(n) =~= s.subrange(from, to));
    assert forall|i: int| to <= i < s.len() implies is_white_space(#[trigger] s[i]) by {
        assert(front[i - from] == s[i]);
        assert(white(front[i - from]));
    }
    assert forall|i: int| 0 <= i < from implies is_white_space(#[trigger] s[i]) by {
        assert(white(s[i]));
    }
    if from < to {
        assert(front[0] == s[from] && front[n - 1] == s[to - 1]);
        assert(!white(s[from]) && !white(front[n - 1]));
    }
    assert(is_core(trimmed(s), s, from, to));
}

/// Small letters are written for the ASCII capitals, and every other character stays.
pub proof fn law_only_capitals_are_lowered(s: Seq<char>, i: int)
    requires
        0 <= i < s.len(),
    ensures
        lowered(s).len() == s.len(),
        'A' <= s[i] <= 'Z' ==> lowered(s)[i] as u32 == s[i] as u32 + 32,
        !('A' <= s[i] <= 'Z') ==> lowered(s)[i] == s[i],
{
}

/// A text that is split at a pattern is put together again with it, and the pattern does not stand
/// before the place of the split.
pub proof fn law_split_is_at_first(s: Seq<char>, pattern: Seq<char>)
    ensures
        match split_at_first(s, pattern) {
            Some((head, tail)) => s == head + pattern + tail && forall|i: int|
                0 <= i < head.len() ==> !#[trigger] occurs_at(s, pattern, i),
            None => !occurs(s, pattern),
        },
{
    lemma_find_from(s, pattern, 0);
    if let Some(at) = find_from(s, pattern, 0) {
        assert(s =~= s.take(at) + s.subrange(at, at + pattern.len()) + s.skip(at + pattern.len()));
    } else {
        assert forall|at: int| !#[trigger] occurs_at(s, pattern, at) by {
            if at < 0 {
                assert(!occurs_at(s, pattern, at));
            }
        }
    }
}

/// A text that is split at a character is put together again with it, and the character does not stand
/// behind the place of the split.
pub proof fn law_split_is_at_last(s: Seq<char>, c: char)
    ensures
        match split_at_last(s, c) {
            Some((head, tail)) => s == head + seq![c] + tail && !tail.contains(c),
            None => !s.contains(c),
        },
        s.contains(c) ==> split_at_last(s, c) is Some,
    decreases s.len(),
{
    if s.len() > 0 {
        let rest = s.drop_last();
        if s.last() == c {
            assert(s =~= s.take(s.len() - 1) + seq![c] + s.skip(s.len() as int));
        } else {
            law_split_is_at_last(rest, c);
            match last_index(rest, c) {
                Some(at) => {
                    lemma_last_index(rest, c);
                    assert(s =~= s.take(at) + seq![c] + s.skip(at + 1));
                    let tail = s.skip(at + 1);
                    assert(tail =~= rest.skip(at + 1).push(s.last()));
                    assert(!rest.skip(at + 1).contains(c));
                    if tail.contains(c) {
                        let i = choose|i: int| 0 <= i < tail.len() && tail[i] == c;
                        if i < tail.len() - 1 {
                            assert(rest.skip(at + 1)[i] == c);
                        }
                    }
                },
                None => {
                    if s.contains(c) {
                        let i = choose|i: int| 0 <= i < s.len() && s[i] == c;
                        assert(rest[i] == c);
                    }
                },
            }
        }
    }
}

proof fn lemma_last_index(s: Seq<char>, c: char)
    ensures
        last_index(s, c) matches Some(at) ==> 0 <= at < s.len() && s[at] == c,
    decreases s.len(),
{
    if s.len() > 0 && s.last() != c {
        lemma_last_index(s.drop_last(), c);
    }
}

/// Every occurrence of a pattern is replaced, from the front, and what is no part of one stays.
pub proof fn law_every_occurrence_is_replaced(s: Seq<char>, from: Seq<char>, to: Seq<char>)
    requires
        from.len() > 0,
    ensures
        replaced(from + s, from, to) == to + replaced(s, from, to),
        !occurs(s, from) ==> replaced(s, from, to) == s,
        s.len() > 0 && !from.is_prefix_of(s) ==> replaced(s, from, to) == seq![s[0]] + replaced(
            s.skip(1),
            from,
            to,
        ),
    decreases s.len(),
{
    assert((from + s).skip(from.len() as int) =~= s);
    assert(from =~= (from + s).take(from.len() as int));
    assert(from.is_prefix_of(from + s));
    if s.len() > 0 {
        let rest = s.drop_first();
        assert(s.skip(1) =~= rest);
        law_every_occurrence_is_replaced(rest, from, to);
        if !occurs(s, from) {
            if from.is_prefix_of(s) {
                assert(s.subrange(0, from.len() as int) =~= from);
                assert(occurs_at(s, from, 0));
            }
            if occurs(rest, from) {
                let at = choose|at: int| #[trigger] occurs_at(rest, from, at);
                assert(s.subrange(at + 1, at + 1 + from.len()) =~= rest.subrange(
                    at,
                    at + from.len(),
                ));
                assert(occurs_at(s, from, at + 1));
            }
            assert(seq![s[0]] + rest =~= s);
        }
    } else {
        assert(replaced(s, from, to) =~= s);
    }
}

/// Texts are joined in their order, with the separator between each two.
pub proof fn law_texts_are_joined_in_order(
    parts: Seq<Seq<char>>,
    last: Seq<char>,
    separator: Seq<char>,
)
    ensures
        joined(Seq::<Seq<char>>::empty(), separator) == Seq::<char>::empty(),
        joined(seq![last], separator) == last,
        parts.len() > 0 ==> joined(parts.push(last), separator) == joined(parts, separator)
            + separator + last,
{
    assert(parts.push(last).drop_last() =~= parts);
}

/// A sign at an end of a text is taken away, however often it stands there, and nothing else is.
pub proof fn law_sign_at_end_is_taken(s: Seq<char>, c: char)
    ensures
        trimmed_end_of(s.push(c), c) == trimmed_end_of(s, c),
        trimmed_start_of(seq![c] + s, c) == trimmed_start_of(s, c),
        s.len() == 0 || s.last() != c ==> trimmed_end_of(s, c) == s,
        s.len() == 0 || s[0] != c ==> trimmed_start_of(s, c) == s,
        s.len() == 0 || (s[0] != c && s.last() != c) ==> trimmed_of(s, c) == s,
{
    assert(s.push(c).drop_last() =~= s);
    assert((seq![c] + s).drop_first() =~= s);
}

/// A text without white space at its ends stays as it is.
pub proof fn law_text_without_outer_white_space_stays(s: Seq<char>)
    requires
        s.len() > 0,
        !is_white_space(s[0]),
        !is_white_space(s.last()),
    ensures
        trimmed(s) == s,
{
}

/// Texts in a list are seen in their order, each as what it is.
pub proof fn law_texts_are_seen_in_order(list: Seq<String>, i: int)
    ensures
        views(list).len() == list.len(),
        0 <= i < list.len() ==> views(list)[i] == list[i]@,
{
}

} // verus!
