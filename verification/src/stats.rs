//! Folder statistics and their additive merge.
//!
//! A [`FolderStat`] is the unit of all aggregation: a total byte size and a
//! total file count for one folder. Two statistics are combined with a
//! commutative, associative merge that adds both fields (saturating at the
//! integer bounds, which are unreachable for real directory trees).

use vstd::prelude::*;

verus! {

/// Statistics for a folder: recursive total file sizes and file count.
#[derive(Debug, Copy, Clone, PartialEq, Eq, Structural)]
pub struct FolderStat {
    /// Recursive total file sizes.
    pub size: u64,
    /// Recursive total file count.
    pub files: usize,
}

/// The merge of two folder statistics: both fields add, saturating at the
/// maximum representable value.
pub open spec fn spec_merge(a: FolderStat, b: FolderStat) -> FolderStat {
    FolderStat {
        size: if a.size + b.size <= u64::MAX {
            (a.size + b.size) as u64
        } else {
            u64::MAX
        },
        files: if a.files + b.files <= usize::MAX {
            (a.files + b.files) as usize
        } else {
            usize::MAX
        },
    }
}

impl FolderStat {
    /// Combine two statistics by adding sizes and file counts.
    pub fn merge(self, other: FolderStat) -> (r: FolderStat)
        ensures
            r == spec_merge(self, other),
    {
        FolderStat {
            size: self.size.saturating_add(other.size),
            files: self.files.saturating_add(other.files),
        }
    }
}

/// Merging folder statistics is commutative.
pub proof fn lemma_merge_comm(a: FolderStat, b: FolderStat)
    ensures
        spec_merge(a, b) == spec_merge(b, a),
{
}

/// Merging folder statistics is associative.
pub proof fn lemma_merge_assoc(a: FolderStat, b: FolderStat, c: FolderStat)
    ensures
        spec_merge(spec_merge(a, b), c) == spec_merge(a, spec_merge(b, c)),
{
}

/// The mathematical map represented by a sequence of key/statistic entries.
/// A later entry wins, though well-formed maps never repeat a key.
pub open spec fn assoc_map(entries: Seq<(String, FolderStat)>) -> Map<Seq<char>, FolderStat>
    decreases entries.len(),
{
    if entries.len() == 0 {
        Map::empty()
    } else {
        assoc_map(entries.drop_last()).insert(entries.last().0@, entries.last().1)
    }
}

/// No two entries share a key.
pub open spec fn unique_keys(entries: Seq<(String, FolderStat)>) -> bool {
    forall|p: int, q: int| 0 <= p < q < entries.len() ==> entries[p].0@ != entries[q].0@
}

/// Insert one statistic under a key, merging with what the key already holds.
pub open spec fn upsert(
    m: Map<Seq<char>, FolderStat>,
    k: Seq<char>,
    v: FolderStat,
) -> Map<Seq<char>, FolderStat> {
    if m.dom().contains(k) {
        m.insert(k, spec_merge(m[k], v))
    } else {
        m.insert(k, v)
    }
}

/// The pointwise merge of two aggregate maps: keys of either side appear, and
/// statistics of shared keys are merged.
pub open spec fn merge_maps(
    a: Map<Seq<char>, FolderStat>,
    b: Map<Seq<char>, FolderStat>,
) -> Map<Seq<char>, FolderStat> {
    Map::new(
        |k: Seq<char>| a.dom().contains(k) || b.dom().contains(k),
        |k: Seq<char>|
            if a.dom().contains(k) && b.dom().contains(k) {
                spec_merge(a[k], b[k])
            } else if b.dom().contains(k) {
                b[k]
            } else {
                a[k]
            },
    )
}

/// Merging aggregate maps is commutative: every key ends with the same
/// statistics whichever side a fragment arrives on.
pub proof fn lemma_merge_maps_comm(a: Map<Seq<char>, FolderStat>, b: Map<Seq<char>, FolderStat>)
    ensures
        merge_maps(a, b) == merge_maps(b, a),
{
    assert forall|k: Seq<char>|
        #[trigger] merge_maps(a, b).dom().contains(k) implies merge_maps(a, b)[k] == merge_maps(
        b,
        a,
    )[k] by {
        if a.dom().contains(k) && b.dom().contains(k) {
            lemma_merge_comm(a[k], b[k]);
        }
    }
    assert(merge_maps(a, b) =~= merge_maps(b, a));
}

/// Merging aggregate maps is associative: fragments may be combined in any
/// grouping.
pub proof fn lemma_merge_maps_assoc(
    a: Map<Seq<char>, FolderStat>,
    b: Map<Seq<char>, FolderStat>,
    c: Map<Seq<char>, FolderStat>,
)
    ensures
        merge_maps(merge_maps(a, b), c) == merge_maps(a, merge_maps(b, c)),
{
    let l = merge_maps(merge_maps(a, b), c);
    let r = merge_maps(a, merge_maps(b, c));
    assert forall|k: Seq<char>| #[trigger] l.dom().contains(k) implies l[k] == r[k] by {
        if a.dom().contains(k) && b.dom().contains(k) && c.dom().contains(k) {
            lemma_merge_assoc(a[k], b[k], c[k]);
        }
    }
    assert(l =~= r);
}

/// Merging a fragment in never shrinks a key's statistics: for a fixed path
/// key, size and file count are monotonically non-decreasing as a scan
/// progresses.
pub proof fn lemma_merge_maps_monotone(
    a: Map<Seq<char>, FolderStat>,
    b: Map<Seq<char>, FolderStat>,
    k: Seq<char>,
)
    requires
        a.dom().contains(k),
    ensures
        merge_maps(a, b).dom().contains(k),
        merge_maps(a, b)[k].size >= a[k].size,
        merge_maps(a, b)[k].files >= a[k].files,
{
}

/// The aggregate of a list of fragments: fold them into one map, first to
/// last.
pub open spec fn merge_all(fragments: Seq<Map<Seq<char>, FolderStat>>) -> Map<
    Seq<char>,
    FolderStat,
> {
    fragments.fold_left(
        Map::<Seq<char>, FolderStat>::empty(),
        |acc: Map<Seq<char>, FolderStat>, m: Map<Seq<char>, FolderStat>| merge_maps(acc, m),
    )
}

/// Merging a list of fragments in any order yields the same aggregate, per
/// key: the fold is invariant under permutation.
pub proof fn lemma_merge_order_irrelevant(
    l1: Seq<Map<Seq<char>, FolderStat>>,
    l2: Seq<Map<Seq<char>, FolderStat>>,
)
    requires
        l1.to_multiset() == l2.to_multiset(),
    ensures
        merge_all(l1) == merge_all(l2),
{
    let f = |acc: Map<Seq<char>, FolderStat>, m: Map<Seq<char>, FolderStat>| merge_maps(acc, m);
    assert(vstd::seq_lib::commutative_foldl(f)) by {
        assert forall|x: Map<Seq<char>, FolderStat>, y: Map<Seq<char>, FolderStat>, v: Map<
            Seq<char>,
            FolderStat,
        >| #[trigger] f(f(v, x), y) == f(f(v, y), x) by {
            lemma_merge_maps_assoc(v, x, y);
            lemma_merge_maps_assoc(v, y, x);
            lemma_merge_maps_comm(x, y);
        }
    }
    vstd::seq_lib::lemma_fold_left_permutation(
        l1,
        l2,
        f,
        Map::<Seq<char>, FolderStat>::empty(),
    );
}

proof fn lemma_assoc_map_contains(entries: Seq<(String, FolderStat)>, i: int)
    requires
        unique_keys(entries),
        0 <= i < entries.len(),
    ensures
        assoc_map(entries).dom().contains(entries[i].0@),
        assoc_map(entries)[entries[i].0@] == entries[i].1,
    decreases entries.len(),
{
    if i < entries.len() - 1 {
        assert(entries.drop_last()[i] == entries[i]);
        lemma_assoc_map_contains(entries.drop_last(), i);
    }
}

proof fn lemma_assoc_map_absent(entries: Seq<(String, FolderStat)>, k: Seq<char>)
    requires
        forall|j: int| 0 <= j < entries.len() ==> entries[j].0@ != k,
    ensures
        !assoc_map(entries).dom().contains(k),
    decreases entries.len(),
{
    if entries.len() > 0 {
        assert(forall|j: int|
            0 <= j < entries.drop_last().len() ==> entries.drop_last()[j].0@ != k);
        lemma_assoc_map_absent(entries.drop_last(), k);
    }
}

proof fn lemma_assoc_map_update(entries: Seq<(String, FolderStat)>, i: int, v: FolderStat)
    requires
        unique_keys(entries),
        0 <= i < entries.len(),
    ensures
        assoc_map(entries.update(i, (entries[i].0, v))) == assoc_map(entries).insert(
            entries[i].0@,
            v,
        ),
    decreases entries.len(),
{
    let u = entries.update(i, (entries[i].0, v));
    let k = entries[i].0@;
    if i == entries.len() - 1 {
        assert(u.drop_last() =~= entries.drop_last());
        assert(assoc_map(entries.drop_last()).insert(k, entries[i].1).insert(k, v)
            =~= assoc_map(entries.drop_last()).insert(k, v));
    } else {
        assert(u.drop_last() =~= entries.drop_last().update(i, (entries[i].0, v)));
        assert(entries.drop_last()[i] == entries[i]);
        lemma_assoc_map_update(entries.drop_last(), i, v);
        let last = entries.last();
        // the updated key differs from the last entry's key
        assert(last.0@ != k);
        assert(assoc_map(entries.drop_last()).insert(k, v).insert(last.0@, last.1)
            =~= assoc_map(entries.drop_last()).insert(last.0@, last.1).insert(k, v));
        assert(u.last() == last);
    }
}

proof fn lemma_assoc_map_push(entries: Seq<(String, FolderStat)>, e: (String, FolderStat))
    ensures
        assoc_map(entries.push(e)) == assoc_map(entries).insert(e.0@, e.1),
{
    assert(entries.push(e).drop_last() =~= entries);
    assert(entries.push(e).last() == e);
}

proof fn lemma_upsert_take_step(
    m0: Map<Seq<char>, FolderStat>,
    entries: Seq<(String, FolderStat)>,
    i: int,
)
    requires
        unique_keys(entries),
        0 <= i < entries.len(),
    ensures
        upsert(merge_maps(m0, assoc_map(entries.take(i))), entries[i].0@, entries[i].1)
            == merge_maps(m0, assoc_map(entries.take(i + 1))),
{
    let pre = entries.take(i);
    let k = entries[i].0@;
    let v = entries[i].1;
    assert(forall|j: int| 0 <= j < pre.len() ==> pre[j] == entries[j]);
    lemma_assoc_map_absent(pre, k);
    assert(entries.take(i + 1) =~= pre.push(entries[i]));
    lemma_assoc_map_push(pre, entries[i]);
    let a = merge_maps(m0, assoc_map(pre));
    let l = upsert(a, k, v);
    let r = merge_maps(m0, assoc_map(pre).insert(k, v));
    assert(l =~= r);
}

/// A mapping from root-relative folder path to its statistics, kept as a list
/// of entries with pairwise-distinct keys.
#[derive(Debug)]
pub struct StatMap {
    entries: Vec<(String, FolderStat)>,
}

impl StatMap {
    /// The entries in insertion order.
    pub closed spec fn rows(self) -> Seq<(String, FolderStat)> {
        self.entries@
    }

    /// The mathematical map this value represents.
    pub closed spec fn as_map(self) -> Map<Seq<char>, FolderStat> {
        assoc_map(self.entries@)
    }

    /// Well-formed: no key occurs twice.
    pub closed spec fn wf(self) -> bool {
        unique_keys(self.entries@)
    }

    /// An empty aggregate map.
    pub fn new() -> (r: StatMap)
        ensures
            r.wf(),
            r.as_map() == Map::<Seq<char>, FolderStat>::empty(),
            r.rows() == Seq::<(String, FolderStat)>::empty(),
    {
        StatMap { entries: Vec::new() }
    }

    fn find_key(&self, key: &str) -> (r: Option<usize>)
        ensures
            r is Some ==> 0 <= r->Some_0 < self.entries@.len() && self.entries@[
                r->Some_0 as int
            ].0@ == key@,
            r is None ==> forall|j: int|
                0 <= j < self.entries@.len() ==> self.entries@[j].0@ != key@,
    {
        let key_string = key.to_owned();
        let mut i: usize = 0;
        while i < self.entries.len()
            invariant
                key_string@ == key@,
                i <= self.entries@.len(),
                forall|j: int| 0 <= j < i ==> self.entries@[j].0@ != key@,
            decreases self.entries@.len() - i,
        {
            if self.entries[i].0 == key_string {
                return Some(i);
            }
            i += 1;
        }
        None
    }

    /// Credit `stat` to `key`: merge with the statistics the key already
    /// holds, or start a new entry.
    pub fn add_stat(&mut self, key: &str, stat: FolderStat)
        requires
            old(self).wf(),
        ensures
            final(self).wf(),
            final(self).as_map() == upsert(old(self).as_map(), key@, stat),
    {
        let found = self.find_key(key);
        if found.is_some() {
            let i = found.unwrap();
            let merged = self.entries[i].1.merge(stat);
            let entry = self.entries.remove(i);
            self.entries.insert(i, (entry.0, merged));
            proof {
                lemma_assoc_map_contains(old(self).entries@, i as int);
                lemma_assoc_map_update(old(self).entries@, i as int, merged);
                assert(self.entries@ =~= old(self).entries@.update(
                    i as int,
                    (old(self).entries@[i as int].0, merged),
                ));
                assert(forall|j: int|
                    0 <= j < self.entries@.len() ==> self.entries@[j].0@ == old(
                        self,
                    ).entries@[j].0@);
            }
        } else {
            self.entries.push((key.to_owned(), stat));
            proof {
                lemma_assoc_map_absent(old(self).entries@, key@);
                lemma_assoc_map_push(
                    old(self).entries@,
                    (self.entries@.last().0, stat),
                );
                assert(self.entries@.drop_last() =~= old(self).entries@);
            }
        }
    }

    /// Merge a whole fragment into this map, key by key.
    pub fn merge_from(&mut self, other: &StatMap)
        requires
            old(self).wf(),
            other.wf(),
        ensures
            final(self).wf(),
            final(self).as_map() == merge_maps(old(self).as_map(), other.as_map()),
    {
        let ghost m0 = old(self).as_map();
        let mut i: usize = 0;
        while i < other.entries.len()
            invariant
                self.wf(),
                other.wf(),
                i <= other.entries@.len(),
                self.as_map() == merge_maps(m0, assoc_map(other.entries@.take(i as int))),
            decreases other.entries@.len() - i,
        {
            let stat = other.entries[i].1;
            self.add_stat(other.entries[i].0.as_str(), stat);
            proof {
                lemma_upsert_take_step(m0, other.entries@, i as int);
            }
            i += 1;
        }
        proof {
            assert(other.entries@.take(other.entries@.len() as int) =~= other.entries@);
            assert(assoc_map(Seq::<(String, FolderStat)>::empty()) =~= Map::<
                Seq<char>,
                FolderStat,
            >::empty());
        }
    }

    /// Look a key up.
    pub fn get(&self, key: &str) -> (r: Option<FolderStat>)
        requires
            self.wf(),
        ensures
            r == if self.as_map().dom().contains(key@) {
                Some(self.as_map()[key@])
            } else {
                None::<FolderStat>
            },
    {
        let found = self.find_key(key);
        if found.is_some() {
            let i = found.unwrap();
            proof {
                lemma_assoc_map_contains(self.entries@, i as int);
            }
            Some(self.entries[i].1)
        } else {
            proof {
                lemma_assoc_map_absent(self.entries@, key@);
            }
            None
        }
    }

    /// Every entry of a well-formed map is in the mathematical map, under its
    /// own key.
    pub proof fn lemma_rows_in_map(self, i: int)
        requires
            self.wf(),
            0 <= i < self.rows().len(),
        ensures
            self.as_map().dom().contains(self.rows()[i].0@),
            self.as_map()[self.rows()[i].0@] == self.rows()[i].1,
    {
        lemma_assoc_map_contains(self.entries@, i);
    }

    /// How many folders have statistics.
    pub fn len(&self) -> (r: usize)
        ensures
            r == self.rows().len(),
    {
        self.entries.len()
    }

    /// Give the entries up, in insertion order.
    pub fn into_rows(self) -> (r: Vec<(String, FolderStat)>)
        ensures
            r@ == self.rows(),
    {
        self.entries
    }
}

} // verus!
