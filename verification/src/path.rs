//! Hierarchical paths of the object store: a bucket, a slash, and the prefix
//! inside the bucket, each folder of which ends in a slash.

use vstd::prelude::*;
use vstd::string::*;
use crate::text::{find_first, from_chars, lemma_find_first, lemma_find_first_unique, push_char, to_chars};

verus! {

/// The bucket of a path: what stands before its first slash.
pub open spec fn bucket_of(path: Seq<char>) -> Seq<char> {
    path.take(find_first(path, '/'))
}

/// The prefix of a path: what stands behind its first slash, empty where the
/// path has no slash.
pub open spec fn prefix_of(path: Seq<char>) -> Seq<char> {
    if find_first(path, '/') < path.len() {
        path.skip(find_first(path, '/') + 1)
    } else {
        Seq::empty()
    }
}

/// The non-empty segments between the slashes of a path, in order.
pub open spec fn segments(path: Seq<char>) -> Seq<Seq<char>>
    decreases path.len(),
{
    let i = find_first(path, '/');
    if path.len() == 0 {
        Seq::empty()
    } else {
        let rest = if 0 <= i < path.len() {
            segments(path.skip(i + 1))
        } else {
            Seq::empty()
        };
        if i == 0 {
            rest
        } else {
            seq![path.take(i)] + rest
        }
    }
}

/// The path made of `parts`, each followed by a slash.
pub open spec fn slashed(parts: Seq<Seq<char>>) -> Seq<char>
    decreases parts.len(),
{
    if parts.len() == 0 {
        Seq::empty()
    } else {
        slashed(parts.drop_last()) + parts.last() + seq!['/']
    }
}

/// The path one level up: the last segment is dropped. A path of one segment
/// or none leads back to the root, which is `None`.
pub open spec fn parent_of(path: Seq<char>) -> Option<Seq<char>> {
    if segments(path).len() <= 1 {
        None
    } else {
        Some(slashed(segments(path).drop_last()))
    }
}

/// A segment of a path: not empty, and without a slash.
pub open spec fn is_segment(s: Seq<char>) -> bool {
    s.len() > 0 && forall|i: int| 0 <= i < s.len() ==> s[i] != '/'
}

/// Every one of `parts` is a segment.
pub open spec fn all_segments(parts: Seq<Seq<char>>) -> bool {
    forall|k: int| 0 <= k < parts.len() ==> is_segment(#[trigger] parts[k])
}

/// A path that starts with a segment and a slash has that segment first.
proof fn lemma_segments_front(head: Seq<char>, rest: Seq<char>)
    requires
        is_segment(head),
    ensures
        segments(head + seq!['/'] + rest) == seq![head] + segments(rest),
{
    let path = head + seq!['/'] + rest;
    assert(path[head.len() as int] == '/');
    assert forall|j: int| 0 <= j < head.len() implies path[j] != '/' by {
        assert(path[j] == head[j]);
    }
    lemma_find_first_unique(path, '/', head.len() as int);
    assert(path.take(head.len() as int) =~= head);
    assert(path.skip(head.len() as int + 1) =~= rest);
}

/// The path made of `parts` starts with the first of them and a slash.
proof fn lemma_slashed_front(parts: Seq<Seq<char>>)
    requires
        parts.len() > 0,
    ensures
        slashed(parts) == parts[0] + seq!['/'] + slashed(parts.drop_first()),
    decreases parts.len(),
{
    if parts.len() == 1 {
        assert(parts.drop_last() =~= Seq::<Seq<char>>::empty());
        assert(parts.drop_first() =~= Seq::<Seq<char>>::empty());
        assert(slashed(parts) =~= parts[0] + seq!['/'] + slashed(parts.drop_first()));
    } else {
        let front = parts.drop_last();
        lemma_slashed_front(front);
        assert(front.drop_first() =~= parts.drop_first().drop_last());
        assert(parts.drop_first().last() == parts.last());
        assert(front[0] == parts[0]);
        assert(slashed(parts) =~= parts[0] + seq!['/'] + slashed(parts.drop_first()));
    }
}

/// The segments of the path made of `parts` are `parts`.
pub proof fn lemma_segments_of_slashed(parts: Seq<Seq<char>>)
    requires
        all_segments(parts),
    ensures
        segments(slashed(parts)) == parts,
    decreases parts.len(),
{
    if parts.len() == 0 {
        assert(segments(slashed(parts)) =~= parts);
    } else {
        let rest = parts.drop_first();
        assert(all_segments(rest)) by {
            assert forall|k: int| 0 <= k < rest.len() implies is_segment(#[trigger] rest[k]) by {
                assert(rest[k] == parts[k + 1]);
            }
        }
        lemma_segments_of_slashed(rest);
        lemma_slashed_front(parts);
        lemma_segments_front(parts[0], slashed(rest));
        assert(seq![parts[0]] + rest =~= parts);
    }
}

/// Ascending drops exactly the last segment: from a path of one segment it
/// leads to the root, from a longer one to the path of the segments before
/// the last.
pub proof fn law_ascend_drops_last_segment(parts: Seq<Seq<char>>)
    requires
        all_segments(parts),
    ensures
        parent_of(slashed(parts)) == (if parts.len() <= 1 {
            None
        } else {
            Some(slashed(parts.drop_last()))
        }),
{
    lemma_segments_of_slashed(parts);
}

/// Ascending undoes descending: from the path that entering `folder` below
/// a bucket gives, the parent is the path the folder was entered from.
pub proof fn law_ascend_undoes_descend(parts: Seq<Seq<char>>, folder: Seq<char>)
    requires
        all_segments(parts),
        parts.len() >= 1,
        is_segment(folder),
    ensures
        parent_of(slashed(parts) + (folder + seq!['/'])) == Some(slashed(parts)),
{
    let deeper = parts.push(folder);
    assert(all_segments(deeper));
    assert(deeper.drop_last() =~= parts);
    assert(slashed(deeper) =~= slashed(parts) + (folder + seq!['/']));
    law_ascend_drops_last_segment(deeper);
}

/// Position of the first `c` at or behind `from`, or the length where there
/// is none.
fn find_from(v: &Vec<char>, c: char, from: usize) -> (i: usize)
    requires
        from <= v.len(),
    ensures
        from <= i <= v.len(),
        i == from + find_first(v@.skip(from as int), c),
{
    let mut i: usize = from;
    while i < v.len() && v[i] != c
        invariant
            from <= i <= v.len(),
            forall|j: int| from <= j < i ==> v@[j] != c,
        decreases v.len() - i,
    {
        i += 1;
    }
    proof {
        let t = v@.skip(from as int);
        assert forall|j: int| 0 <= j < i - from implies t[j] != c by {
            assert(t[j] == v@[from + j]);
        }
        lemma_find_first_unique(t, c, i - from);
    }
    i
}

/// Splits a path at its first slash into bucket and prefix.
pub fn split_path(path: &str) -> (parts: (String, String))
    ensures
        parts.0@ == bucket_of(path@),
        parts.1@ == prefix_of(path@),
{
    let v = to_chars(path);
    let i = find_from(&v, '/', 0);
    assert(v@.skip(0) =~= v@);
    let bucket = from_chars(&v, 0, i);
    let prefix = if i < v.len() {
        from_chars(&v, i + 1, v.len())
    } else {
        String::new()
    };
    assert(bucket@ =~= bucket_of(path@));
    assert(prefix@ =~= prefix_of(path@));
    (bucket, prefix)
}

/// The path one level up, or `None` where that is the root.
pub fn parent_path(path: &str) -> (parent: Option<String>)
    ensures
        parent.deep_view() == parent_of(path@),
{
    let v = to_chars(path);
    let n = v.len();
    // Start and end of each segment found so far.
    let mut bounds: Vec<(usize, usize)> = Vec::new();
    let ghost mut found: Seq<Seq<char>> = Seq::empty();
    let mut pos: usize = 0;
    assert(v@.skip(0) =~= v@);
    while pos < n
        invariant
            n == v.len(),
            pos <= n,
            segments(v@) == found + segments(v@.skip(pos as int)),
            bounds.len() == found.len(),
            forall|k: int|
                0 <= k < bounds.len() ==> (#[trigger] bounds[k]).0 <= bounds[k].1 <= n && found[k]
                    == v@.subrange(bounds[k].0 as int, bounds[k].1 as int),
        decreases n - pos,
    {
        let end = find_from(&v, '/', pos);
        proof {
            let t = v@.skip(pos as int);
            let i = find_first(t, '/');
            lemma_find_first(t, '/');
            assert(i == end - pos);
            if i >= t.len() {
                assert(t.take(i) =~= t);
                assert(segments(t) =~= seq![t]);
                assert(t =~= v@.subrange(pos as int, end as int));
                assert(v@.skip(n as int).len() == 0);
                assert(segments(v@.skip(n as int)) =~= Seq::empty());
                assert(segments(v@) =~= found.push(t) + segments(v@.skip(n as int)));
            } else if i == 0 {
                assert(t.skip(1) =~= v@.skip(pos + 1));
            } else {
                assert(t.skip(i + 1) =~= v@.skip(end + 1));
                assert(t.take(i) =~= v@.subrange(pos as int, end as int));
                assert(segments(v@) =~= found.push(t.take(i)) + segments(v@.skip(end + 1)));
            }
        }
        if end > pos {
            bounds.push((pos, end));
            proof {
                found = found.push(v@.subrange(pos as int, end as int));
            }
        }
        pos = if end < n { end + 1 } else { n };
    }
    proof {
        assert(v@.skip(n as int).len() == 0);
        assert(segments(v@.skip(pos as int)) =~= Seq::empty());
        assert(segments(v@) =~= found);
    }
    if bounds.len() <= 1 {
        return None;
    }
    let mut out = String::new();
    let mut k: usize = 0;
    let last = bounds.len() - 1;
    while k < last
        invariant
            n == v.len(),
            k <= last,
            last == bounds.len() - 1,
            bounds.len() == found.len(),
            forall|k: int|
                0 <= k < bounds.len() ==> (#[trigger] bounds[k]).0 <= bounds[k].1 <= n && found[k]
                    == v@.subrange(bounds[k].0 as int, bounds[k].1 as int),
            out@ == slashed(found.take(k as int)),
        decreases last - k,
    {
        let (from, to) = bounds[k];
        let part = from_chars(&v, from, to);
        out.append(part.as_str());
        push_char(&mut out, '/');
        proof {
            let parts = found.take(k + 1);
            assert(parts.drop_last() =~= found.take(k as int));
            assert(parts.last() == found[k as int]);
            assert(out@ =~= slashed(parts));
        }
        k += 1;
    }
    proof {
        assert(found.take(last as int) =~= found.drop_last());
    }
    Some(out)
}

} // verus!
