//! Paths of objects: a root under which a backend works, and paths below it.
//!
//! A root starts and ends with `/`. A path below it does not start with
//! `/`, and names a directory exactly when it ends with `/`; the path `/`
//! alone names the root itself.

use vstd::prelude::*;

use crate::text::chars_of;
use crate::text::ends_with;
use crate::text::push_char;
use crate::text::str_eq;
use crate::text::string_of_range;

verus! {

/// The characters of `s` with every run of `/` made a single `/`, with no `/`
/// at the start if `after_slash`, and with a `/` at the end.
pub open spec fn squeeze(s: Seq<char>, after_slash: bool) -> Seq<char>
    decreases s.len(),
{
    if s.len() == 0 {
        if after_slash {
            Seq::empty()
        } else {
            seq!['/']
        }
    } else if s[0] == '/' {
        if after_slash {
            squeeze(s.drop_first(), true)
        } else {
            seq!['/'] + squeeze(s.drop_first(), true)
        }
    } else {
        seq![s[0]] + squeeze(s.drop_first(), false)
    }
}

/// The root that `root` stands for: its non-empty segments, each between
/// two `/`. The empty root stands for `/`.
pub open spec fn normalized_root(root: Seq<char>) -> Seq<char> {
    seq!['/'] + squeeze(root, true)
}

/// Whether `root` is in the form that [`normalize_root`] gives: it starts
/// and ends with `/`.
pub open spec fn is_root(root: Seq<char>) -> bool {
    root.len() > 0 && root[0] == '/' && root.last() == '/'
}

/// What `squeeze` gives ends with `/`, unless it is empty.
proof fn lemma_squeeze_ends_with_slash(s: Seq<char>, after_slash: bool)
    ensures
        squeeze(s, after_slash).len() > 0 ==> squeeze(s, after_slash).last() == '/',
        !after_slash ==> squeeze(s, after_slash).len() > 0,
    decreases s.len(),
{
    if s.len() > 0 {
        if s[0] == '/' {
            lemma_squeeze_ends_with_slash(s.drop_first(), true);
        } else {
            lemma_squeeze_ends_with_slash(s.drop_first(), false);
        }
    }
}

/// A normalized root starts and ends with `/`.
pub proof fn lemma_normalized_is_root(root: Seq<char>)
    ensures
        is_root(normalized_root(root)),
{
    lemma_squeeze_ends_with_slash(root, true);
}

/// Squeezing what was squeezed changes nothing.
proof fn lemma_squeeze_twice(s: Seq<char>, after_slash: bool)
    ensures
        squeeze(squeeze(s, after_slash), after_slash) == squeeze(s, after_slash),
    decreases s.len(),
{
    let once = squeeze(s, after_slash);
    if s.len() == 0 {
        if !after_slash {
            assert(once.drop_first() =~= Seq::<char>::empty());
            assert(squeeze(once.drop_first(), true) =~= Seq::<char>::empty());
        }
    } else if s[0] == '/' {
        lemma_squeeze_twice(s.drop_first(), true);
        if !after_slash {
            let rest = squeeze(s.drop_first(), true);
            assert(once.drop_first() =~= rest);
        }
    } else {
        lemma_squeeze_twice(s.drop_first(), false);
        let rest = squeeze(s.drop_first(), false);
        assert(once.drop_first() =~= rest);
    }
}

/// A normalized root is its own normal form.
pub proof fn lemma_normalized_twice(root: Seq<char>)
    ensures
        normalized_root(normalized_root(root)) == normalized_root(root),
{
    let once = normalized_root(root);
    assert(once.drop_first() =~= squeeze(root, true));
    lemma_squeeze_twice(root, true);
}

/// What follows the first `n` characters of `s` starts with `s[n]`, and goes
/// on with what follows the first `n + 1`.
proof fn lemma_skip_step(s: Seq<char>, n: int)
    requires
        0 <= n < s.len(),
    ensures
        s.skip(n).len() > 0,
        s.skip(n)[0] == s[n],
        s.skip(n).drop_first() == s.skip(n + 1),
{
    assert(s.skip(n).drop_first() =~= s.skip(n + 1));
}

/// Make sure that root starts and ends with `/`, and that no segment of it
/// is empty.
pub fn normalize_root(root: &str) -> (r: String)
    ensures
        r@ == normalized_root(root@),
        is_root(r@),
{
    let v = chars_of(root);
    let mut r = String::new();
    push_char(&mut r, '/');
    let mut after_slash = true;
    let mut i: usize = 0;
    assert(v@.skip(0) =~= v@);
    while i < v.len()
        invariant
            i <= v.len(),
            r@ + squeeze(v@.skip(i as int), after_slash) == normalized_root(v@),
        decreases v.len() - i,
    {
        let c = v[i];
        proof {
            lemma_skip_step(v@, i as int);
        }
        let ghost before = r@;
        let ghost rest = squeeze(v@.skip(i + 1), c != '/');
        if c != '/' {
            push_char(&mut r, c);
            after_slash = false;
            assert(r@ + rest =~= before + (seq![c] + rest));
        } else if !after_slash {
            push_char(&mut r, '/');
            after_slash = true;
            assert(r@ + squeeze(v@.skip(i + 1), true) =~= before + (seq!['/'] + squeeze(
                v@.skip(i + 1),
                true,
            )));
        }
        i = i + 1;
    }
    let ghost before = r@;
    if !after_slash {
        push_char(&mut r, '/');
    }
    proof {
        assert(v@.skip(v.len() as int) =~= Seq::<char>::empty());
        assert(r@ =~= before + squeeze(Seq::<char>::empty(), after_slash));
        lemma_normalized_is_root(root@);
    }
    r
}

/// The absolute path, as the service sees it, of `path` under `root`: the
/// root without its leading `/`, followed by the path. The path `/` is the
/// root itself.
pub open spec fn abs_path(root: Seq<char>, path: Seq<char>) -> Seq<char> {
    if path == seq!['/'] {
        root.drop_first()
    } else {
        root.drop_first() + path
    }
}

/// Build the absolute path of `path` under `root`.
pub fn build_abs_path(root: &str, path: &str) -> (p: String)
    requires
        is_root(root@),
    ensures
        p@ == abs_path(root@, path@),
{
    let v = chars_of(root);
    let p = string_of_range(&v, 1, v.len());
    assert(v@.subrange(1, v.len() as int) =~= root@.drop_first());
    proof {
        reveal_strlit("/");
        assert("/"@ =~= seq!['/']);
    }
    if str_eq(path, "/") {
        p
    } else {
        p.concat(path)
    }
}

/// Under any root, a path other than `/` keeps its last character: its
/// absolute path names a directory exactly when the path does.
pub proof fn lemma_abs_path_keeps_directory(root: Seq<char>, path: Seq<char>)
    requires
        is_root(root),
        path != seq!['/'],
        path.len() > 0,
    ensures
        ends_with(abs_path(root, path), '/') == ends_with(path, '/'),
{
    assert(abs_path(root, path).last() == path.last());
}

} // verus!
