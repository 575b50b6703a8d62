//! Sorting of result rows.
//!
//! Result rows are folder paths with their statistics, shown largest first.
//! The sort is stable on ties and leaves an already-sorted sequence untouched,
//! so re-sorting by the same key is the identity.

use crate::app::SortBy;
use crate::stats::FolderStat;
use vstd::prelude::*;

verus! {

/// The sort key of a row under the given ordering.
pub open spec fn row_key(r: (String, FolderStat), s: SortBy) -> int {
    match s {
        SortBy::FileSize => r.1.size as int,
        SortBy::FileCount => r.1.files as int,
    }
}

/// Rows in non-increasing key order: largest first.
pub open spec fn sorted_desc(rows: Seq<(String, FolderStat)>, s: SortBy) -> bool {
    forall|p: int, q: int|
        0 <= p < q < rows.len() ==> #[trigger] row_key(rows[p], s) >= #[trigger] row_key(
            rows[q],
            s,
        )
}

/// The share of `part` in `total`, in whole percents: 0 while nothing has
/// been counted yet, never an error.
pub fn percent(part: u64, total: u64) -> (r: u64)
    requires
        part <= total,
    ensures
        r == if total == 0 {
            0int
        } else {
            part * 100 / total as int
        },
        r <= 100,
{
    if total == 0 {
        0
    } else {
        proof {
            assert((part as int * 100) / (total as int) <= 100) by (nonlinear_arith)
                requires
                    part <= total,
                    total > 0,
            ;
        }
        (((part as u128) * 100) / (total as u128)) as u64
    }
}

fn key_of(r: &(String, FolderStat), s: SortBy) -> (k: u64)
    ensures
        k as int == row_key(*r, s),
{
    match s {
        SortBy::FileSize => r.1.size,
        SortBy::FileCount => r.1.files as u64,
    }
}

fn swap_adjacent(rows: &mut Vec<(String, FolderStat)>, i: usize)
    requires
        i + 1 < old(rows)@.len(),
    ensures
        final(rows)@ == old(rows)@.update(i as int, old(rows)@[i + 1]).update(
            i + 1,
            old(rows)@[i as int],
        ),
        final(rows)@.to_multiset() == old(rows)@.to_multiset(),
{
    let ghost s = rows@;
    let n = rows.len();
    assert(i + 1 < n);
    let x = rows.remove(i);
    rows.insert(i + 1, x);
    proof {
        broadcast use vstd::seq_lib::to_multiset_remove;
        broadcast use vstd::seq_lib::to_multiset_insert;
        broadcast use vstd::seq_lib::group_to_multiset_ensures;

        assert(rows@ =~= s.update(i as int, s[i + 1]).update(i + 1, s[i as int]));
        let a = s[i as int];
        assert(s.contains(a));
        assert(s.to_multiset().count(a) > 0);
        assert(s.remove(i as int).to_multiset() == s.to_multiset().remove(a));
        assert(rows@.to_multiset() == s.to_multiset().remove(a).insert(a));
        assert(s.to_multiset().remove(a).insert(a) =~= s.to_multiset());
    }
}

/// Sort rows by the given key, largest first, by insertion. Ties keep their
/// relative order, and rows already in order come back unchanged.
pub fn sort_rows(rows: &mut Vec<(String, FolderStat)>, s: SortBy)
    ensures
        sorted_desc(final(rows)@, s),
        final(rows)@.len() == old(rows)@.len(),
        final(rows)@.to_multiset() == old(rows)@.to_multiset(),
        sorted_desc(old(rows)@, s) ==> final(rows)@ == old(rows)@,
{
    let ghost orig = old(rows)@;
    if rows.len() <= 1 {
        return ;
    }
    let mut i: usize = 1;
    while i < rows.len()
        invariant
            1 <= i <= rows@.len(),
            rows@.len() == orig.len(),
            rows@.to_multiset() == orig.to_multiset(),
            forall|p: int, q: int|
                0 <= p < q < i ==> #[trigger] row_key(rows@[p], s) >= #[trigger] row_key(
                    rows@[q],
                    s,
                ),
            sorted_desc(orig, s) ==> rows@ == orig,
        decreases rows@.len() - i,
    {
        let mut j: usize = i;
        loop
            invariant
                0 <= j <= i < rows@.len(),
                rows@.len() == orig.len(),
                rows@.to_multiset() == orig.to_multiset(),
                forall|p: int, q: int|
                    0 <= p < q <= i && q != j ==> #[trigger] row_key(rows@[p], s)
                        >= #[trigger] row_key(rows@[q], s),
                sorted_desc(orig, s) ==> rows@ == orig,
            ensures
                rows@.len() == orig.len(),
                rows@.to_multiset() == orig.to_multiset(),
                forall|p: int, q: int|
                    0 <= p < q <= i ==> #[trigger] row_key(rows@[p], s) >= #[trigger] row_key(
                        rows@[q],
                        s,
                    ),
                sorted_desc(orig, s) ==> rows@ == orig,
            decreases j,
        {
            if j == 0 {
                break ;
            }
            let kl = key_of(&rows[j - 1], s);
            let kr = key_of(&rows[j], s);
            if kl >= kr {
                assert forall|p: int, q: int| 0 <= p < q <= i implies row_key(rows@[p], s)
                    >= row_key(rows@[q], s) by {
                    if q == j && p < j - 1 {
                        assert(row_key(rows@[p], s) >= row_key(rows@[j - 1], s));
                    }
                }
                break ;
            }
            proof {
                if sorted_desc(orig, s) {
                    // an already-sorted sequence never reaches a swap
                    assert(row_key(rows@[j - 1], s) >= row_key(rows@[j as int], s));
                    assert(false);
                }
            }
            let ghost before = rows@;
            swap_adjacent(rows, j - 1);
            assert forall|p: int, q: int| 0 <= p < q <= i && q != j - 1 implies row_key(
                rows@[p],
                s,
            ) >= row_key(rows@[q], s) by {
                if p == j - 1 {
                    assert(rows@[p] == before[j as int]);
                } else if p == j {
                    assert(rows@[p] == before[j - 1]);
                }
                if q == j {
                    assert(rows@[q] == before[j - 1]);
                } else if q != j - 1 {
                    assert(rows@[q] == before[q]);
                }
            }
            j -= 1;
        }
        i += 1;
    }
    assert(sorted_desc(rows@, s));
}

} // verus!
