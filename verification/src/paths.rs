//! Ancestor rollup of file paths.
//!
//! A scanned file is credited to every enclosing folder from the scan root
//! down to its parent, but only to folders within a configurable number of
//! levels below the root. Paths are handled root-relative: the canonical root
//! prefix is stripped, so a file's relative path begins with a separator and
//! each separator marks one ancestor folder (the first marks the root itself,
//! whose key is the empty string).

use crate::stats::{upsert, FolderStat, StatMap};
use vstd::math::min;
use vstd::prelude::*;
use vstd::string::StrSliceExecFns;

verus! {

/// How many times `c` occurs in `s`.
pub open spec fn count_char(s: Seq<char>, c: char) -> int
    decreases s.len(),
{
    if s.len() == 0 {
        0
    } else {
        count_char(s.drop_last(), c) + (if s.last() == c {
            1int
        } else {
            0int
        })
    }
}

/// The ancestor keys credited for a file with root-relative path `rel`: the
/// prefix before each separator, in order of increasing depth, kept only while
/// the prefix lies within `depth` directory levels of the root.
pub open spec fn spec_ancestor_keys(rel: Seq<char>, depth: int) -> Seq<Seq<char>>
    decreases rel.len(),
{
    if rel.len() == 0 {
        Seq::empty()
    } else if rel.last() == '/' && count_char(rel.drop_last(), '/') <= depth {
        spec_ancestor_keys(rel.drop_last(), depth).push(rel.drop_last())
    } else {
        spec_ancestor_keys(rel.drop_last(), depth)
    }
}

proof fn lemma_ancestor_keys_props(rel: Seq<char>, depth: int)
    requires
        depth >= 0,
    ensures
        count_char(rel, '/') >= 0,
        spec_ancestor_keys(rel, depth).len() == min(count_char(rel, '/'), depth + 1),
        forall|j: int|
            0 <= j < spec_ancestor_keys(rel, depth).len() ==> count_char(
                #[trigger] spec_ancestor_keys(rel, depth)[j],
                '/',
            ) == j,
    decreases rel.len(),
{
    if rel.len() > 0 {
        lemma_ancestor_keys_props(rel.drop_last(), depth);
    }
}

/// Depth cutoff: for a file whose parent folder lies `d` separators deep (the
/// relative path holds `d + 1` separators, the first marking the root), the
/// credited keys are the root key followed by `min(d, depth)` folder keys, one
/// per level, and no credited key lies more than `depth` levels below the
/// root.
pub proof fn lemma_depth_cutoff(rel: Seq<char>, depth: int)
    requires
        depth >= 0,
        count_char(rel, '/') >= 1,
    ensures
        spec_ancestor_keys(rel, depth).len() == 1 + min(count_char(rel, '/') - 1, depth),
        forall|j: int|
            0 <= j < spec_ancestor_keys(rel, depth).len() ==> count_char(
                #[trigger] spec_ancestor_keys(rel, depth)[j],
                '/',
            ) == j && j <= depth,
        forall|j1: int, j2: int|
            0 <= j1 < j2 < spec_ancestor_keys(rel, depth).len()
                ==> #[trigger] spec_ancestor_keys(rel, depth)[j1]
                != #[trigger] spec_ancestor_keys(rel, depth)[j2],
{
    lemma_ancestor_keys_props(rel, depth);
    let keys = spec_ancestor_keys(rel, depth);
    assert forall|j1: int, j2: int| 0 <= j1 < j2 < keys.len() implies #[trigger] keys[j1]
        != #[trigger] keys[j2] by {
        // keys of different depths hold different numbers of separators
        assert(count_char(keys[j1], '/') == j1);
        assert(count_char(keys[j2], '/') == j2);
    }
}

/// Strip the first `root_chars` characters (the canonical root prefix) from a
/// path, leaving the root-relative remainder.
pub fn truncate_root(path: &str, root_chars: usize) -> (r: String)
    requires
        root_chars <= path@.len(),
    ensures
        r@ == path@.subrange(root_chars as int, path@.len() as int),
{
    let n = path.unicode_len();
    path.substring_char(root_chars, n).to_owned()
}

/// Collect the ancestor keys for a file at root-relative path `rel_path`,
/// nearest the root first, cut off `depth` levels below the root.
pub fn ancestor_keys(rel_path: &str, depth: u8) -> (keys: Vec<String>)
    ensures
        keys.deep_view() == spec_ancestor_keys(rel_path@, depth as int),
{
    let n = rel_path.unicode_len();
    let mut keys: Vec<String> = Vec::new();
    assert(rel_path@.take(0) =~= Seq::<char>::empty());
    let mut i: usize = 0;
    while i < n
        invariant
            n == rel_path@.len(),
            i <= n,
            keys.deep_view() == spec_ancestor_keys(rel_path@.take(i as int), depth as int),
            keys@.len() == min(count_char(rel_path@.take(i as int), '/'), depth as int + 1),
        decreases n - i,
    {
        let ghost pre = rel_path@.take(i as int);
        let ghost post = rel_path@.take(i as int + 1);
        proof {
            assert(post.drop_last() =~= pre);
            assert(post.last() == rel_path@[i as int]);
        }
        let c = rel_path.get_char(i);
        if c == '/' && keys.len() <= depth as usize {
            let ghost dv0 = keys.deep_view();
            let key = rel_path.substring_char(0, i).to_owned();
            assert(key@ == pre);
            keys.push(key);
            proof {
                assert(keys.deep_view() =~= dv0.push(pre));
            }
        } else {
            proof {
                if c == '/' {
                    // the cutoff was reached: the spec skips this separator too
                    assert(count_char(pre, '/') > depth as int);
                }
            }
        }
        i += 1;
    }
    proof {
        assert(rel_path@.take(n as int) =~= rel_path@);
    }
    keys
}

/// Statistics of one file, size `size`, credited to each key in turn.
pub open spec fn credit_keys(
    m: Map<Seq<char>, FolderStat>,
    keys: Seq<Seq<char>>,
    size: u64,
) -> Map<Seq<char>, FolderStat>
    decreases keys.len(),
{
    if keys.len() == 0 {
        m
    } else {
        upsert(
            credit_keys(m, keys.drop_last(), size),
            keys.last(),
            (FolderStat { size, files: 1 }),
        )
    }
}

/// Credit one file of `size` bytes at root-relative path `rel_path` to every
/// ancestor folder within `depth` levels of the scan root.
pub fn record_file(map: &mut StatMap, rel_path: &str, size: u64, depth: u8)
    requires
        old(map).wf(),
    ensures
        final(map).wf(),
        final(map).as_map() == credit_keys(
            old(map).as_map(),
            spec_ancestor_keys(rel_path@, depth as int),
            size,
        ),
{
    let keys = ancestor_keys(rel_path, depth);
    let ghost m0 = old(map).as_map();
    let ghost kdv = keys.deep_view();
    assert(kdv.take(0) =~= Seq::<Seq<char>>::empty());
    let mut i: usize = 0;
    while i < keys.len()
        invariant
            map.wf(),
            i <= keys@.len(),
            keys.deep_view() == kdv,
            map.as_map() == credit_keys(m0, kdv.take(i as int), size),
        decreases keys@.len() - i,
    {
        assert(keys@[i as int]@ == kdv[i as int]);
        map.add_stat(keys[i].as_str(), FolderStat { size, files: 1 });
        proof {
            assert(kdv.take(i as int + 1).drop_last() =~= kdv.take(i as int));
            assert(kdv.take(i as int + 1).last() == kdv[i as int]);
        }
        i += 1;
    }
    proof {
        assert(kdv.take(keys@.len() as int) =~= kdv);
    }
}

} // verus!
