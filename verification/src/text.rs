//! Cutting text at a separator: a method at its first dash, a topic behind
//! its last slash.

use vstd::prelude::*;

verus! {

/// The position of the first `c` in `s`, or the length of `s` where it holds none.
pub open spec fn first_index(s: Seq<char>, c: char) -> int
    decreases s.len(),
{
    if s.len() == 0 || s[0] == c {
        0
    } else {
        1 + first_index(s.skip(1), c)
    }
}

/// The position just behind the last `c` in `s`, or 0 where it holds none.
pub open spec fn last_segment_start(s: Seq<char>, c: char) -> int
    decreases s.len(),
{
    if s.len() == 0 {
        0
    } else if s.last() == c {
        s.len() as int
    } else {
        last_segment_start(s.drop_last(), c)
    }
}

/// What follows the last `c` in `s`: all of `s` where it holds none.
pub open spec fn last_segment(s: Seq<char>, c: char) -> Seq<char> {
    s.subrange(last_segment_start(s, c), s.len() as int)
}

/// `first_index` lies within the text or at its end.
pub proof fn lemma_first_index_in_range(s: Seq<char>, c: char)
    ensures
        0 <= first_index(s, c) <= s.len(),
    decreases s.len(),
{
    if s.len() != 0 && s[0] != c {
        lemma_first_index_in_range(s.skip(1), c);
    }
}

/// `first_index` is the one position that holds `c` with no `c` before it.
pub proof fn lemma_first_index(s: Seq<char>, c: char, i: int)
    requires
        0 <= i <= s.len(),
        forall|j: int| 0 <= j < i ==> s[j] != c,
        i < s.len() ==> s[i] == c,
    ensures
        first_index(s, c) == i,
    decreases s.len(),
{
    if s.len() != 0 && s[0] != c {
        let t = s.skip(1);
        assert forall|j: int| 0 <= j < i - 1 implies t[j] != c by {
            assert(t[j] == s[j + 1]);
        }
        lemma_first_index(t, c, i - 1);
    }
}

/// `last_segment_start` is the one position that follows a `c`, or is 0, with no `c` from it on.
pub proof fn lemma_last_segment_start(s: Seq<char>, c: char, k: int)
    requires
        0 <= k <= s.len(),
        forall|j: int| k <= j < s.len() ==> s[j] != c,
        0 < k ==> s[k - 1] == c,
    ensures
        last_segment_start(s, c) == k,
    decreases s.len(),
{
    if s.len() != 0 && s.last() != c {
        lemma_last_segment_start(s.drop_last(), c, k);
    }
}

/// The characters of `s`, one by one.
pub fn chars_of(s: &str) -> (v: Vec<char>)
    ensures
        v@ == s@,
{
    let mut v: Vec<char> = Vec::new();
    for c in it: s.chars()
        invariant
            it.seq() == s@,
            v@ == s@.take(it.index() as int),
    {
        assert(s@.take(it.index() + 1) == s@.take(it.index() as int).push(c));
        v.push(c);
    }
    assert(s@.take(s@.len() as int) == s@);
    v
}

/// Whether two texts hold the same characters.
pub fn same_text(a: &str, b: &str) -> (r: bool)
    ensures
        r == (a@ == b@),
{
    let x = chars_of(a);
    let y = chars_of(b);
    if x.len() != y.len() {
        return false;
    }
    let mut i: usize = 0;
    while i < x.len()
        invariant
            i <= x.len(),
            x.len() == y.len(),
            x@ == a@,
            y@ == b@,
            x@.take(i as int) == y@.take(i as int),
        decreases x.len() - i,
    {
        if x[i] != y[i] {
            assert(a@[i as int] != b@[i as int]);
            return false;
        }
        assert(x@.take(i + 1) == x@.take(i as int).push(x@[i as int]));
        assert(y@.take(i + 1) == y@.take(i as int).push(y@[i as int]));
        i = i + 1;
    }
    assert(x@.take(i as int) == x@);
    assert(y@.take(i as int) == y@);
    true
}

/// Cuts `s` at its first `c`: what stands before it and what stands behind
/// it. `None` where `s` holds no `c`.
pub fn split_at_first<'a>(s: &'a str, c: char) -> (r: Option<(&'a str, &'a str)>)
    ensures
        match r {
            Some((head, tail)) => {
                &&& first_index(s@, c) < s@.len()
                &&& head@ == s@.take(first_index(s@, c))
                &&& tail@ == s@.skip(first_index(s@, c) + 1)
            },
            None => first_index(s@, c) == s@.len(),
        },
{
    let chars = chars_of(s);
    let n = chars.len();
    let mut i: usize = 0;
    while i < n && chars[i] != c
        invariant
            i <= n,
            n == chars@.len(),
            forall|j: int| 0 <= j < i ==> chars@[j] != c,
        decreases n - i,
    {
        i = i + 1;
    }
    proof {
        lemma_first_index(chars@, c, i as int);
    }
    if i == n {
        None
    } else {
        let head = s.substring_char(0, i);
        let tail = s.substring_char(i + 1, n);
        Some((head, tail))
    }
}

/// What follows the last `c` in `s`: all of `s` where it holds none.
pub fn last_segment_of<'a>(s: &'a str, c: char) -> (r: &'a str)
    ensures
        r@ == last_segment(s@, c),
{
    let chars = chars_of(s);
    let n = chars.len();
    let mut start: usize = 0;
    let mut i: usize = 0;
    while i < n
        invariant
            start <= i <= n,
            n == chars@.len(),
            forall|j: int| start <= j < i ==> chars@[j] != c,
            0 < start ==> chars@[start - 1] == c,
        decreases n - i,
    {
        if chars[i] == c {
            start = i + 1;
        }
        i = i + 1;
    }
    proof {
        lemma_last_segment_start(chars@, c, start as int);
    }
    s.substring_char(start, n)
}

} // verus!
