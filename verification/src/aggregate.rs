//! Folding a sequence of function records into directory-level totals,
//! averages and counts.
//!
//! The summary is a pure function of the record sequence: totals are exact
//! integer sums, averages are the nearest count of tenths (ties rounded up),
//! and an empty sequence yields no averages at all rather than a fabricated
//! zero.

use vstd::prelude::*;
use crate::record::FunctionRecord;
use crate::record::FunctionRecordView;

verus! {

/// The views of a sequence of records.
pub open spec fn rec_views(s: Seq<FunctionRecord>) -> Seq<FunctionRecordView> {
    s.map_values(|r: FunctionRecord| r@)
}

/// Sum of the energy figures, in millijoules.
pub open spec fn sum_energy_mj(s: Seq<FunctionRecordView>) -> int
    decreases s.len(),
{
    if s.len() == 0 {
        0
    } else {
        sum_energy_mj(s.drop_last()) + s.last().resources.energy.millijoules
    }
}

/// Sum of the carbon figures, in micrograms.
pub open spec fn sum_carbon_ug(s: Seq<FunctionRecordView>) -> int
    decreases s.len(),
{
    if s.len() == 0 {
        0
    } else {
        sum_carbon_ug(s.drop_last()) + s.last().resources.carbon.micrograms
    }
}

/// Sum of the eco scores, in tenths.
pub open spec fn sum_eco_tenths(s: Seq<FunctionRecordView>) -> int
    decreases s.len(),
{
    if s.len() == 0 {
        0
    } else {
        sum_eco_tenths(s.drop_last()) + s.last().health.eco_tenths
    }
}

/// Sum of the overall health scores, in tenths.
pub open spec fn sum_overall_tenths(s: Seq<FunctionRecordView>) -> int
    decreases s.len(),
{
    if s.len() == 0 {
        0
    } else {
        sum_overall_tenths(s.drop_last()) + s.last().health.overall_tenths
    }
}

/// How many records have an eco score strictly below `threshold_tenths`.
/// A record exactly at the threshold passes.
pub open spec fn count_below(s: Seq<FunctionRecordView>, threshold_tenths: int) -> int
    decreases s.len(),
{
    if s.len() == 0 {
        0
    } else {
        count_below(s.drop_last(), threshold_tenths) + if s.last().health.eco_tenths
            < threshold_tenths {
            1int
        } else {
            0int
        }
    }
}

/// The nearest integer to `sum / n` (ties rounded up): the arithmetic mean
/// of `n` values summing to `sum`, kept in the same sub-unit.
pub open spec fn mean_tenths(sum: int, n: int) -> int
    recommends
        n > 0,
{
    (2 * sum + n) / (2 * n)
}

/// The directory-level aggregate of one scan: counts, sums and averages,
/// entirely recomputable from the record sequence it was folded from.
pub struct Summary {
    /// Files that yielded at least one analysis result, counted by the
    /// caller per file.
    pub total_files: u32,
    /// Number of records folded.
    pub total_functions: usize,
    /// Records whose eco score lies strictly below the configured floor.
    pub below_threshold: usize,
    /// Mean eco score in tenths; `None` when there were no records.
    pub avg_eco_tenths: Option<u128>,
    /// Mean overall health in tenths; `None` when there were no records.
    pub avg_overall_tenths: Option<u128>,
    /// Exact sum of the energy figures.
    pub total_energy_millijoules: u128,
    /// Exact sum of the carbon figures.
    pub total_carbon_micrograms: u128,
}

impl Summary {
    /// The aggregation contract: every field is the stated function of the
    /// record sequence, and the averages exist exactly when records do.
    pub open spec fn is_summary_of(
        self,
        s: Seq<FunctionRecordView>,
        total_files: u32,
        threshold_tenths: u32,
    ) -> bool {
        &&& self.total_files == total_files
        &&& self.total_functions == s.len()
        &&& self.below_threshold == count_below(s, threshold_tenths as int)
        &&& self.total_energy_millijoules == sum_energy_mj(s)
        &&& self.total_carbon_micrograms == sum_carbon_ug(s)
        &&& (s.len() == 0 ==> self.avg_eco_tenths is None && self.avg_overall_tenths is None)
        &&& (s.len() > 0 ==> self.avg_eco_tenths == Some(
            mean_tenths(sum_eco_tenths(s), s.len() as int) as u128,
        ) && self.avg_overall_tenths == Some(
            mean_tenths(sum_overall_tenths(s), s.len() as int) as u128,
        ))
    }

    /// Fold a record sequence into its summary. Order of the records does
    /// not affect any field (see [`lemma_aggregates_permutation`]).
    pub fn aggregate(
        records: &Vec<FunctionRecord>,
        total_files: u32,
        eco_threshold_tenths: u32,
    ) -> (r: Summary)
        ensures
            r.is_summary_of(rec_views(records@), total_files, eco_threshold_tenths),
    {
        let ghost s = rec_views(records@);
        let mut energy: u128 = 0;
        let mut carbon: u128 = 0;
        let mut eco: u128 = 0;
        let mut overall: u128 = 0;
        let mut below: usize = 0;
        let mut i: usize = 0;
        proof {
            assert(s.take(0) =~= Seq::<FunctionRecordView>::empty());
        }
        while i < records.len()
            invariant
                i <= records.len(),
                s == rec_views(records@),
                s.len() == records@.len(),
                energy == sum_energy_mj(s.take(i as int)),
                carbon == sum_carbon_ug(s.take(i as int)),
                eco == sum_eco_tenths(s.take(i as int)),
                overall == sum_overall_tenths(s.take(i as int)),
                below == count_below(s.take(i as int), eco_threshold_tenths as int),
                energy <= i * 0xFFFF_FFFF_FFFF_FFFFu64,
                carbon <= i * 0xFFFF_FFFF_FFFF_FFFFu64,
                eco <= i * 0xFFFF_FFFFu32,
                overall <= i * 0xFFFF_FFFFu32,
                below <= i,
            decreases records.len() - i,
        {
            let rec = &records[i];
            proof {
                assert(s[i as int] == records@[i as int]@);
                assert(s.take(i + 1).drop_last() =~= s.take(i as int));
                assert(s.take(i + 1).last() == s[i as int]);
                assert(usize::MAX as int <= 0xFFFF_FFFF_FFFF_FFFFu64 as int);
                assert((i + 1) * 0xFFFF_FFFF_FFFF_FFFFu64 == i * 0xFFFF_FFFF_FFFF_FFFFu64
                    + 0xFFFF_FFFF_FFFF_FFFFu64);
                assert((i + 1) * 0xFFFF_FFFFu32 == i * 0xFFFF_FFFFu32 + 0xFFFF_FFFFu32);
                assert((i + 1) * 0xFFFF_FFFF_FFFF_FFFFu64 <= 0xFFFF_FFFF_FFFF_FFFFu64
                    * 0xFFFF_FFFF_FFFF_FFFFu64);
            }
            energy = energy + rec.resources.energy.millijoules as u128;
            carbon = carbon + rec.resources.carbon.micrograms as u128;
            eco = eco + rec.health.eco_tenths as u128;
            overall = overall + rec.health.overall_tenths as u128;
            if rec.health.eco_tenths < eco_threshold_tenths {
                below = below + 1;
            }
            i = i + 1;
        }
        proof {
            assert(s.take(records@.len() as int) =~= s);
        }
        let n = records.len();
        let (avg_eco, avg_overall): (Option<u128>, Option<u128>) = if n == 0 {
            (None, None)
        } else {
            let nn = n as u128;
            (Some((2 * eco + nn) / (2 * nn)), Some((2 * overall + nn) / (2 * nn)))
        };
        Summary {
            total_files,
            total_functions: n,
            below_threshold: below,
            avg_eco_tenths: avg_eco,
            avg_overall_tenths: avg_overall,
            total_energy_millijoules: energy,
            total_carbon_micrograms: carbon,
        }
    }
}

/// How many records of `records` have an eco score strictly below the
/// threshold; a record exactly at the threshold passes.
pub fn below_threshold(records: &Vec<FunctionRecord>, threshold_tenths: u32) -> (n: usize)
    ensures
        n == count_below(rec_views(records@), threshold_tenths as int),
{
    let ghost s = rec_views(records@);
    let mut below: usize = 0;
    let mut i: usize = 0;
    proof {
        assert(s.take(0) =~= Seq::<FunctionRecordView>::empty());
    }
    while i < records.len()
        invariant
            i <= records.len(),
            s == rec_views(records@),
            s.len() == records@.len(),
            below == count_below(s.take(i as int), threshold_tenths as int),
            below <= i,
        decreases records.len() - i,
    {
        proof {
            assert(s[i as int] == records@[i as int]@);
            assert(s.take(i + 1).drop_last() =~= s.take(i as int));
            assert(s.take(i + 1).last() == s[i as int]);
        }
        if records[i].health.eco_tenths < threshold_tenths {
            below = below + 1;
        }
        i = i + 1;
    }
    proof {
        assert(s.take(records@.len() as int) =~= s);
    }
    below
}

/// The reported average is the arithmetic mean to the displayed precision:
/// `mean_tenths(sum, n)` differs from the exact mean `sum / n` by at most
/// half a tenth (stated cross-multiplied, so no real division is involved).
pub proof fn lemma_mean_tenths_is_nearest(sum: int, n: int)
    requires
        n > 0,
    ensures
        -n < 2 * (n * mean_tenths(sum, n) - sum) <= n,
{
    let q = mean_tenths(sum, n);
    let r = (2 * sum + n) % (2 * n);
    vstd::arithmetic::div_mod::lemma_fundamental_div_mod(2 * sum + n, 2 * n);
    vstd::arithmetic::div_mod::lemma_mod_bound(2 * sum + n, 2 * n);
    assert(2 * sum + n == 2 * n * q + r);
    assert(2 * n * q == 2 * (n * q)) by (nonlinear_arith);
    assert(2 * (n * q) == 2 * sum + n - r);
}

/// Every sum of per-record figures is bounded by the record count times the
/// largest representable figure, and is never negative.
pub proof fn lemma_sums_bounded(s: Seq<FunctionRecordView>)
    ensures
        0 <= sum_energy_mj(s) <= s.len() * 0xFFFF_FFFF_FFFF_FFFFu64,
        0 <= sum_carbon_ug(s) <= s.len() * 0xFFFF_FFFF_FFFF_FFFFu64,
        0 <= sum_eco_tenths(s) <= s.len() * 0xFFFF_FFFFu32,
        0 <= sum_overall_tenths(s) <= s.len() * 0xFFFF_FFFFu32,
    decreases s.len(),
{
    if s.len() > 0 {
        lemma_sums_bounded(s.drop_last());
        assert(s.len() * 0xFFFF_FFFF_FFFF_FFFFu64 == (s.len() - 1) * 0xFFFF_FFFF_FFFF_FFFFu64
            + 0xFFFF_FFFF_FFFF_FFFFu64);
        assert(s.len() * 0xFFFF_FFFFu32 == (s.len() - 1) * 0xFFFF_FFFFu32 + 0xFFFF_FFFFu32);
    }
}

/// Lowering the threshold can only lower the below-threshold count, and
/// raising it can only raise the count: `count_below` is monotone in the
/// threshold for a fixed record sequence.
pub proof fn lemma_count_below_monotone(s: Seq<FunctionRecordView>, t1: int, t2: int)
    requires
        t1 <= t2,
    ensures
        count_below(s, t1) <= count_below(s, t2),
    decreases s.len(),
{
    if s.len() > 0 {
        lemma_count_below_monotone(s.drop_last(), t1, t2);
    }
}

/// Removing one record takes exactly its contribution out of every sum and
/// count.
proof fn lemma_aggregates_remove(s: Seq<FunctionRecordView>, i: int, t: int)
    requires
        0 <= i < s.len(),
    ensures
        sum_energy_mj(s.remove(i)) == sum_energy_mj(s) - s[i].resources.energy.millijoules,
        sum_carbon_ug(s.remove(i)) == sum_carbon_ug(s) - s[i].resources.carbon.micrograms,
        sum_eco_tenths(s.remove(i)) == sum_eco_tenths(s) - s[i].health.eco_tenths,
        sum_overall_tenths(s.remove(i)) == sum_overall_tenths(s) - s[i].health.overall_tenths,
        count_below(s.remove(i), t) == count_below(s, t) - if s[i].health.eco_tenths < t {
            1int
        } else {
            0int
        },
    decreases s.len(),
{
    if i == s.len() - 1 {
        assert(s.remove(i) =~= s.drop_last());
    } else {
        assert(s.remove(i).drop_last() =~= s.drop_last().remove(i));
        assert(s.remove(i).last() == s.last());
        lemma_aggregates_remove(s.drop_last(), i, t);
    }
}

/// Discovery order does not matter: two sequences holding the same records
/// (as a multiset) agree on every sum and on the below-threshold count.
pub proof fn lemma_aggregates_permutation(
    s1: Seq<FunctionRecordView>,
    s2: Seq<FunctionRecordView>,
    t: int,
)
    requires
        s1.to_multiset() == s2.to_multiset(),
    ensures
        sum_energy_mj(s1) == sum_energy_mj(s2),
        sum_carbon_ug(s1) == sum_carbon_ug(s2),
        sum_eco_tenths(s1) == sum_eco_tenths(s2),
        sum_overall_tenths(s1) == sum_overall_tenths(s2),
        count_below(s1, t) == count_below(s2, t),
    decreases s1.len(),
{
    broadcast use vstd::seq_lib::group_to_multiset_ensures;

    if s1.len() == 0 {
        assert(s2.to_multiset().len() == 0);
        assert(s2.len() == 0);
    } else {
        let x = s1.last();
        assert(s1[s1.len() - 1] == x);
        assert(s1.contains(x));
        assert(s1.to_multiset().count(x) > 0);
        assert(s2.to_multiset().count(x) > 0);
        assert(s2.contains(x));
        let j = choose|j: int| 0 <= j < s2.len() && s2[j] == x;
        assert(s1.remove(s1.len() - 1) =~= s1.drop_last());
        assert(s1.drop_last().to_multiset() =~= s1.to_multiset().remove(x));
        assert(s2.remove(j).to_multiset() =~= s2.to_multiset().remove(x));
        lemma_aggregates_remove(s2, j, t);
        lemma_aggregates_permutation(s1.drop_last(), s2.remove(j), t);
    }
}

} // verus!
