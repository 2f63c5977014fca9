//! Per-process samples, the usage ranking and the system-wide total.

use vstd::prelude::*;
use vstd::seq_lib::group_to_multiset_ensures;

verus! {

/// One process's identity and its measured CPU usage for one cycle.
///
/// `usage_centi` is the process's CPU percentage in hundredths of a
/// percent (1234 stands for 12.34 %), already normalized by the
/// machine's physical core count. On a multi-core machine the values
/// of several processes may add up to more than 100 %.
pub struct ProcessStats {
    pub pid: u64,
    pub name: String,
    pub usage_centi: u32,
}

impl ProcessStats {
    /// A fresh sample for one process.
    pub fn new(pid: u64, name: String, usage_centi: u32) -> (r: ProcessStats)
        ensures
            r.pid == pid,
            r.name == name,
            r.usage_centi == usage_centi,
    {
        ProcessStats { pid, name, usage_centi }
    }
}

/// The list is ordered by usage, highest first.
pub open spec fn sorted_desc(s: Seq<ProcessStats>) -> bool {
    forall|i: int, j: int| 0 <= i <= j < s.len() ==> s[i].usage_centi >= s[j].usage_centi
}

/// The arithmetic sum of all per-process usages, in hundredths of a percent.
pub open spec fn usage_sum(s: Seq<ProcessStats>) -> int
    decreases s.len(),
{
    if s.len() == 0 {
        0
    } else {
        usage_sum(s.drop_last()) + s.last().usage_centi
    }
}

proof fn lemma_usage_sum_bound(s: Seq<ProcessStats>)
    ensures
        0 <= usage_sum(s) <= s.len() * (u32::MAX as int),
    decreases s.len(),
{
    if s.len() > 0 {
        lemma_usage_sum_bound(s.drop_last());
    }
}

/// The system-wide total: the exact sum of every sample's usage.
/// It is not capped at 100 %.
pub fn total_cpu_usage(procs: &Vec<ProcessStats>) -> (total: u64)
    requires
        procs@.len() <= u32::MAX,
    ensures
        total == usage_sum(procs@),
{
    let mut total: u64 = 0;
    let mut i: usize = 0;
    while i < procs.len()
        invariant
            i <= procs@.len() <= u32::MAX,
            total == usage_sum(procs@.take(i as int)),
        decreases procs@.len() - i,
    {
        proof {
            lemma_usage_sum_bound(procs@.take(i as int));
            assert(procs@.take(i + 1).drop_last() =~= procs@.take(i as int));
        }
        total = total + procs[i].usage_centi as u64;
        i = i + 1;
    }
    proof {
        assert(procs@.take(procs@.len() as int) =~= procs@);
    }
    total
}

/// Where a descending list places `x`: after every element at or above
/// `x`'s usage, before the first element below it.
pub open spec fn insert_desc(s: Seq<ProcessStats>, x: ProcessStats) -> Seq<ProcessStats>
    decreases s.len(),
{
    if s.len() == 0 {
        seq![x]
    } else if s[0].usage_centi >= x.usage_centi {
        seq![s[0]] + insert_desc(s.drop_first(), x)
    } else {
        seq![x] + s
    }
}

/// The ranking, pinned down element by element: a stable insertion
/// sort, descending by usage. Samples of equal usage keep the order in
/// which they were handed in.
pub open spec fn stable_sort_desc(s: Seq<ProcessStats>) -> Seq<ProcessStats>
    decreases s.len(),
{
    if s.len() == 0 {
        Seq::empty()
    } else {
        insert_desc(stable_sort_desc(s.drop_last()), s.last())
    }
}

/// On a descending list, `insert_desc` puts `x` exactly at the first
/// position whose element is below `x`'s usage.
proof fn lemma_insert_desc_at(s: Seq<ProcessStats>, x: ProcessStats, pos: int)
    requires
        sorted_desc(s),
        0 <= pos <= s.len(),
        forall|k: int| 0 <= k < pos ==> s[k].usage_centi >= x.usage_centi,
        pos < s.len() ==> s[pos].usage_centi < x.usage_centi,
    ensures
        insert_desc(s, x) == s.insert(pos, x),
    decreases pos,
{
    if pos == 0 {
        if s.len() == 0 {
            assert(insert_desc(s, x) =~= s.insert(0, x));
        } else {
            assert(insert_desc(s, x) =~= s.insert(0, x));
        }
    } else {
        assert(forall|k: int| 0 <= k < pos - 1 ==> s.drop_first()[k].usage_centi
            >= x.usage_centi);
        assert(sorted_desc(s.drop_first())) by {
            assert(forall|i: int, j: int|
                0 <= i <= j < s.drop_first().len() ==> s.drop_first()[i] == s[i + 1]
                    && s.drop_first()[j] == s[j + 1]);
        }
        lemma_insert_desc_at(s.drop_first(), x, pos - 1);
        assert(insert_desc(s, x) =~= s.insert(pos, x));
    }
}

proof fn lemma_stable_sort_single(s: Seq<ProcessStats>)
    requires
        s.len() == 1,
    ensures
        stable_sort_desc(s) == s,
{
    assert(s.drop_last() =~= Seq::<ProcessStats>::empty());
    assert(stable_sort_desc(s.drop_last()) == Seq::<ProcessStats>::empty());
    assert(insert_desc(Seq::<ProcessStats>::empty(), s.last()) =~= seq![s.last()]);
    assert(stable_sort_desc(s) =~= s);
}

/// Moving the element at `i` to the earlier position `pos` rearranges
/// the sequence but keeps the same collection of elements.
proof fn lemma_move_keeps_multiset(s: Seq<ProcessStats>, i: int, pos: int)
    requires
        0 <= i < s.len(),
        0 <= pos <= s.len() - 1,
    ensures
        s.remove(i).insert(pos, s[i]).to_multiset() == s.to_multiset(),
{
    broadcast use group_to_multiset_ensures;

    assert(s.to_multiset().count(s[i]) > 0) by {
        assert(s.contains(s[i]));
    }
    assert(s.remove(i).insert(pos, s[i]).to_multiset() =~= s.to_multiset());
}

/// Sorts the samples by usage, highest first; a stable insertion sort,
/// so samples of equal usage keep their relative order. The result is
/// a permutation of the input: sorting adds and drops nothing.
pub fn sort_by_usage_desc(procs: &mut Vec<ProcessStats>)
    ensures
        sorted_desc(final(procs)@),
        final(procs)@.to_multiset() == old(procs)@.to_multiset(),
        final(procs)@.len() == old(procs)@.len(),
        final(procs)@ == stable_sort_desc(old(procs)@),
{
    if procs.len() <= 1 {
        proof {
            if procs@.len() == 1 {
                lemma_stable_sort_single(procs@);
            } else {
                assert(stable_sort_desc(procs@) =~= procs@);
            }
        }
        return;
    }
    proof {
        lemma_stable_sort_single(old(procs)@.take(1));
        assert(procs@.take(1) == old(procs)@.take(1));
    }
    let mut i: usize = 1;
    while i < procs.len()
        invariant
            1 <= i <= procs@.len(),
            procs@.len() == old(procs)@.len(),
            procs@.to_multiset() == old(procs)@.to_multiset(),
            sorted_desc(procs@.take(i as int)),
            procs@.take(i as int) == stable_sort_desc(old(procs)@.take(i as int)),
            procs@.skip(i as int) == old(procs)@.skip(i as int),
        decreases procs@.len() - i,
    {
        let key_usage = procs[i].usage_centi;
        let mut pos: usize = 0;
        while pos < i && procs[pos].usage_centi >= key_usage
            invariant
                pos <= i < procs@.len(),
                forall|k: int| 0 <= k < pos ==> procs@[k].usage_centi >= key_usage,
            decreases i - pos,
        {
            pos = pos + 1;
        }
        let ghost before = procs@;
        let ghost gi = i as int;
        let ghost gpos = pos as int;
        let item = procs.remove(i);
        procs.insert(pos, item);
        proof {
            lemma_move_keeps_multiset(before, gi, gpos);
            let removed = before.remove(gi);
            before.remove_ensures(gi);
            removed.insert_ensures(gpos, before[gi]);
            let after = procs@;
            assert(after == removed.insert(gpos, before[gi]));
            assert forall|k: int| 0 <= k < gpos implies after[k] == before[k] by {
                assert(removed[k] == before[k]);
            }
            assert(after[gpos] == before[gi]);
            assert forall|k: int| gpos < k <= gi implies after[k] == before[k - 1] by {
                assert(after[k] == removed[k - 1]);
                assert(removed[k - 1] == before[k - 1]);
            }
            assert forall|k: int| gi < k < after.len() implies after[k] == before[k] by {
                assert(after[k] == removed[k - 1]);
                assert(removed[k - 1] == before[k]);
            }
            assert forall|a: int, b: int| 0 <= a <= b <= gi implies
                after[a].usage_centi >= after[b].usage_centi
            by {
                // before.take(gi) is sorted; everything before gpos is at
                // least key_usage; everything from gpos up to gi (before the
                // move) is below key_usage.
                assert(forall|x: int, y: int|
                    0 <= x <= y < gi ==> before.take(gi)[x] == before[x]
                        && before.take(gi)[y] == before[y]);
                if gpos < gi {
                    assert(before[gpos].usage_centi < key_usage);
                }
                assert(key_usage == before[gi].usage_centi);
                if b < gpos {
                    assert(after[a].usage_centi >= after[b].usage_centi);
                } else if b == gpos {
                    if a < gpos {
                        assert(after[a].usage_centi >= key_usage);
                    }
                } else {
                    // b > gpos, so after[b] == before[b - 1] with b - 1 >= gpos
                    if a < gpos {
                        assert(after[a] == before[a]);
                        assert(after[b] == before[b - 1]);
                        if b - 1 == gpos {
                            assert(before[gpos].usage_centi < key_usage);
                            assert(after[a].usage_centi >= key_usage);
                        }
                    } else if a == gpos {
                        assert(after[a].usage_centi == key_usage);
                        assert(before[b - 1].usage_centi < key_usage || gpos == gi);
                    }
                }
            }
            assert(sorted_desc(after.take(gi + 1))) by {
                assert(forall|k: int| 0 <= k <= gi ==> after.take(gi + 1)[k] == after[k]);
            }
            // The processed prefix is exactly the stable sort of the
            // input's prefix, and the tail is still untouched.
            assert(forall|k: int| gi <= k < before.len() ==> before[k] == old(procs)@[k]) by {
                assert(forall|k: int|
                    gi <= k < before.len() ==> before.skip(gi)[k - gi] == before[k]
                        && old(procs)@.skip(gi)[k - gi] == old(procs)@[k]);
            }
            assert(key_usage == before[gi].usage_centi);
            lemma_insert_desc_at(before.take(gi), before[gi], gpos);
            before.take(gi).insert_ensures(gpos, before[gi]);
            assert(after.take(gi + 1) =~= before.take(gi).insert(gpos, before[gi]));
            assert(old(procs)@.take(gi + 1).drop_last() =~= old(procs)@.take(gi));
            assert(old(procs)@.take(gi + 1).last() == old(procs)@[gi]);
            assert(after.take(gi + 1) == stable_sort_desc(old(procs)@.take(gi + 1))) by {
                assert(stable_sort_desc(old(procs)@.take(gi + 1)) == insert_desc(
                    stable_sort_desc(old(procs)@.take(gi)),
                    old(procs)@[gi],
                ));
                assert(before[gi] == old(procs)@[gi]);
                assert(stable_sort_desc(old(procs)@.take(gi)) == before.take(gi));
            }
            assert(after.skip(gi + 1) =~= old(procs)@.skip(gi + 1));
        }
        i = i + 1;
    }
    proof {
        assert(procs@.take(procs@.len() as int) =~= procs@);
        assert(old(procs)@.take(procs@.len() as int) =~= old(procs)@);
    }
}

} // verus!
