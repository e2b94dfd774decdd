//! Path arithmetic on plain strings: the stem of a source path and
//! the joining of directory components, with exact specifications.

use vstd::prelude::*;

verus! {

/// The path with any trailing separators removed.
pub open spec fn trim_slashes(s: Seq<char>) -> Seq<char>
    decreases s.len(),
{
    if s.len() > 0 && s.last() == '/' {
        trim_slashes(s.drop_last())
    } else {
        s
    }
}

/// The longest suffix of `s` that contains no separator: the final
/// component of a path that does not end in a separator.
pub open spec fn tail_component(s: Seq<char>) -> Seq<char>
    decreases s.len(),
{
    if s.len() == 0 {
        Seq::empty()
    } else if s.last() == '/' {
        Seq::empty()
    } else {
        tail_component(s.drop_last()).push(s.last())
    }
}

/// The stem of a path: its final component, with trailing separators
/// ignored.  `None` when no component remains, that is, when the path
/// is empty or made of separators only.
pub open spec fn spec_stem(s: Seq<char>) -> Option<Seq<char>> {
    let t = trim_slashes(s);
    if t.len() == 0 {
        None
    } else {
        Some(tail_component(t))
    }
}

/// One path component appended to a base path: a separator is
/// inserted unless the base is empty or already ends in one.
pub open spec fn spec_join(a: Seq<char>, b: Seq<char>) -> Seq<char> {
    if a.len() == 0 {
        b
    } else if a.last() == '/' {
        a + b
    } else {
        a + seq!['/'] + b
    }
}

/// `tail_component` picks out exactly the suffix that starts right
/// after the last separator.
proof fn lemma_tail_component_is_suffix(t: Seq<char>, k: int)
    requires
        0 <= k <= t.len(),
        forall|i: int| k <= i < t.len() ==> t[i] != '/',
        k == 0 || t[k - 1] == '/',
    ensures
        tail_component(t) == t.subrange(k, t.len() as int),
    decreases t.len(),
{
    if t.len() == k {
        if k == 0 {
            assert(tail_component(t) =~= t.subrange(k, t.len() as int));
        } else {
            assert(t.last() == t[k - 1]);
            assert(tail_component(t) =~= t.subrange(k, t.len() as int));
        }
    } else {
        assert(t.last() != '/');
        let u = t.drop_last();
        lemma_tail_component_is_suffix(u, k);
        assert(tail_component(t) == tail_component(u).push(t.last()));
        assert(u.subrange(k, u.len() as int).push(t.last()) =~= t.subrange(k, t.len() as int));
    }
}

/// Character-for-character equality of two string slices.
pub fn str_eq(a: &str, b: &str) -> (r: bool)
    ensures
        r == (a@ == b@),
{
    let sa = String::from_str(a);
    let sb = String::from_str(b);
    sa.eq(&sb)
}

/// Appends the component `b` to the directory path `a`.
pub fn join_path(a: &str, b: &str) -> (r: String)
    ensures
        r@ == spec_join(a@, b@),
{
    let n: usize = a.unicode_len();
    let mut r = String::from_str(a);
    if n == 0 {
        r.append(b);
        proof {
            assert(r@ =~= b@);
        }
        r
    } else if a.get_char(n - 1) == '/' {
        r.append(b);
        r
    } else {
        r.append("/");
        r.append(b);
        proof {
            reveal_strlit("/");
            assert("/"@ =~= seq!['/']);
            assert(r@ =~= a@ + seq!['/'] + b@);
        }
        r
    }
}

/// The stem of a path, or `None` when the path has no component: the
/// final component, with trailing separators ignored.
pub fn stem_of(path: &str) -> (r: Option<String>)
    ensures
        r is Some <==> spec_stem(path@) is Some,
        r matches Some(s) ==> spec_stem(path@) == Some(s@),
{
    let n: usize = path.unicode_len();
    proof {
        assert(path@.subrange(0, n as int) =~= path@);
    }
    let mut end: usize = n;
    while end > 0 && path.get_char(end - 1) == '/'
        invariant
            end <= n,
            n == path@.len(),
            trim_slashes(path@) == trim_slashes(path@.subrange(0, end as int)),
        decreases end,
    {
        proof {
            let prefix = path@.subrange(0, end as int);
            assert(prefix.last() == path@[end - 1]);
            assert(prefix.drop_last() =~= path@.subrange(0, end as int - 1));
        }
        end = end - 1;
    }
    if end == 0 {
        proof {
            assert(path@.subrange(0, 0) =~= Seq::<char>::empty());
        }
        return None;
    }
    let ghost trimmed = path@.subrange(0, end as int);
    proof {
        assert(trimmed.last() != '/');
        assert(trim_slashes(trimmed) == trimmed);
    }
    let mut start: usize = end;
    while start > 0 && path.get_char(start - 1) != '/'
        invariant
            start <= end <= n,
            n == path@.len(),
            forall|i: int| start <= i < end ==> path@[i] != '/',
        decreases start,
    {
        start = start - 1;
    }
    let comp = path.substring_char(start, end);
    proof {
        assert(forall|i: int| start <= i < end ==> trimmed[i] == path@[i]);
        lemma_tail_component_is_suffix(trimmed, start as int);
        assert(trimmed.subrange(start as int, end as int) =~= path@.subrange(
            start as int,
            end as int,
        ));
    }
    Some(String::from_str(comp))
}

} // verus!
