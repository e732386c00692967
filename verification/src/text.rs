//! Character-level helpers shared by the path, URL and header code.

use vstd::prelude::*;

verus! {

/// Appends one character to `s`.
///
/// Calls `String::push`; the contract states that the text grows by exactly
/// that character.
#[verifier::external_body]
pub(crate) fn push_char(s: &mut String, c: char)
    ensures
        final(s)@ == old(s)@.push(c),
{
    s.push(c)
}

/// The characters of `s`, in order.
pub fn chars_of(s: &str) -> (v: Vec<char>)
    ensures
        v@ == s@,
{
    let mut v: Vec<char> = Vec::new();
    for c in it: s.chars()
        invariant
            v@ == it.history(),
            it.seq() == s@,
    {
        v.push(c);
    }
    v
}

/// Whether `s` is non-empty and its last character is `c`.
pub open spec fn ends_with(s: Seq<char>, c: char) -> bool {
    s.len() > 0 && s.last() == c
}

/// Whether `s` is non-empty and its first character is `c`.
pub open spec fn starts_with(s: Seq<char>, c: char) -> bool {
    s.len() > 0 && s[0] == c
}

/// Tests whether `s` ends with the character `c`.
pub fn str_ends_with(s: &str, c: char) -> (r: bool)
    ensures
        r == ends_with(s@, c),
{
    let mut last: Option<char> = None;
    for x in it: s.chars()
        invariant
            it.seq() == s@,
            last == if it.history().len() == 0 {
                None::<char>
            } else {
                Some(it.history().last())
            },
    {
        last = Some(x);
    }
    match last {
        Some(l) => l == c,
        None => false,
    }
}

/// `s` without the run of `c` at its end.
pub open spec fn trim_end(s: Seq<char>, c: char) -> Seq<char>
    decreases s.len(),
{
    if s.len() > 0 && s.last() == c {
        trim_end(s.drop_last(), c)
    } else {
        s
    }
}

/// `s` without the run of `c` at its start.
pub open spec fn trim_start(s: Seq<char>, c: char) -> Seq<char>
    decreases s.len(),
{
    if s.len() > 0 && s[0] == c {
        trim_start(s.drop_first(), c)
    } else {
        s
    }
}

/// `s` without the runs of `c` at its start and at its end.
pub open spec fn trim(s: Seq<char>, c: char) -> Seq<char> {
    trim_end(trim_start(s, c), c)
}

/// Where `s` holds only `c` from `n` on, trimming its end is trimming the
/// end of its first `n` characters.
proof fn lemma_trim_end_prefix(s: Seq<char>, c: char, n: int)
    requires
        0 <= n <= s.len(),
        forall|i: int| n <= i < s.len() ==> s[i] == c,
    ensures
        trim_end(s, c) == trim_end(s.take(n), c),
    decreases s.len() - n,
{
    if n < s.len() {
        assert(s.drop_last().take(n) =~= s.take(n));
        lemma_trim_end_prefix(s.drop_last(), c, n);
    } else {
        assert(s.take(n) =~= s);
    }
}

/// Where the first `n` characters of `s` are `c`, trimming its start is
/// trimming the start of what follows them.
proof fn lemma_trim_start_suffix(s: Seq<char>, c: char, n: int)
    requires
        0 <= n <= s.len(),
        forall|i: int| 0 <= i < n ==> s[i] == c,
    ensures
        trim_start(s, c) == trim_start(s.skip(n), c),
    decreases n,
{
    if n > 0 {
        assert(s.drop_first().skip(n - 1) =~= s.skip(n));
        lemma_trim_start_suffix(s.drop_first(), c, n - 1);
    } else {
        assert(s.skip(0) =~= s);
    }
}

/// The text of the characters of `v` from `from` up to `to`.
pub(crate) fn string_of_range(v: &Vec<char>, from: usize, to: usize) -> (s: String)
    requires
        from <= to <= v.len(),
    ensures
        s@ == v@.subrange(from as int, to as int),
{
    let mut s = String::new();
    let mut i: usize = from;
    while i < to
        invariant
            from <= i <= to <= v.len(),
            s@ == v@.subrange(from as int, i as int),
        decreases to - i,
    {
        push_char(&mut s, v[i]);
        assert(v@.subrange(from as int, i + 1) =~= v@.subrange(from as int, i as int).push(
            v@[i as int],
        ));
        i = i + 1;
    }
    s
}

/// `s` without the runs of `c` at its start and at its end.
pub fn trim_matches(s: &str, c: char) -> (t: String)
    ensures
        t@ == trim(s@, c),
{
    let v = chars_of(s);
    let mut from: usize = 0;
    while from < v.len() && v[from] == c
        invariant
            from <= v.len(),
            forall|i: int| 0 <= i < from ==> v@[i] == c,
        decreases v.len() - from,
    {
        from = from + 1;
    }
    let mut to: usize = v.len();
    while to > from && v[to - 1] == c
        invariant
            from <= to <= v.len(),
            forall|i: int| to <= i < v.len() ==> v@[i] == c,
        decreases to,
    {
        to = to - 1;
    }
    proof {
        let rest = v@.skip(from as int);
        lemma_trim_start_suffix(v@, c, from as int);
        assert(trim_start(rest, c) == rest);
        lemma_trim_end_prefix(rest, c, to - from);
        assert(rest.take(to - from) =~= v@.subrange(from as int, to as int));
        assert(trim_end(v@.subrange(from as int, to as int), c) == v@.subrange(
            from as int,
            to as int,
        ));
    }
    string_of_range(&v, from, to)
}

/// `s` without the run of `c` at its end.
pub fn trim_end_matches(s: &str, c: char) -> (t: String)
    ensures
        t@ == trim_end(s@, c),
{
    let v = chars_of(s);
    let mut to: usize = v.len();
    while to > 0 && v[to - 1] == c
        invariant
            to <= v.len(),
            forall|i: int| to <= i < v.len() ==> v@[i] == c,
        decreases to,
    {
        to = to - 1;
    }
    proof {
        lemma_trim_end_prefix(v@, c, to as int);
        assert(v@.take(to as int) =~= v@.subrange(0, to as int));
    }
    string_of_range(&v, 0, to)
}

/// Tests whether two texts hold the same characters.
pub fn str_eq(a: &str, b: &str) -> (r: bool)
    ensures
        r == (a@ == b@),
{
    let x = a.to_owned();
    let y = b.to_owned();
    x == y
}

} // verus!
