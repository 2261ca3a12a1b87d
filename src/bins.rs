use vstd::prelude::*;
use vstd::set_lib::{lemma_int_range, lemma_len_subset, lemma_subset_equality, set_int_range};
use crate::state::MAX_POSITION_WIDTH;
use crate::types::CoreError;

verus! {

/// The smallest bin of a non-empty list.
pub open spec fn seq_min(s: Seq<i32>) -> int
    decreases s.len(),
{
    if s.len() == 0 {
        0
    } else if s.len() == 1 {
        s[0] as int
    } else {
        let m = seq_min(s.drop_last());
        if (s.last() as int) < m {
            s.last() as int
        } else {
            m
        }
    }
}

/// The largest bin of a non-empty list.
pub open spec fn seq_max(s: Seq<i32>) -> int
    decreases s.len(),
{
    if s.len() == 0 {
        0
    } else if s.len() == 1 {
        s[0] as int
    } else {
        let m = seq_max(s.drop_last());
        if (s.last() as int) > m {
            s.last() as int
        } else {
            m
        }
    }
}

/// Every bin of a non-empty list lies between its smallest and its largest.
pub proof fn lemma_seq_bounds(s: Seq<i32>)
    requires
        s.len() > 0,
    ensures
        forall|i: int| 0 <= i < s.len() ==> seq_min(s) <= #[trigger] s[i] <= seq_max(s),
        i32::MIN <= seq_min(s) <= seq_max(s) <= i32::MAX,
    decreases s.len(),
{
    if s.len() > 1 {
        lemma_seq_bounds(s.drop_last());
        assert forall|i: int| 0 <= i < s.len() implies seq_min(s) <= #[trigger] s[i] <= seq_max(s) by {
            if i < s.len() - 1 {
                assert(s.drop_last()[i] == s[i]);
            }
        }
    }
}

/// Whether `bin` lies in the inclusive range `[lo, hi]`.
pub open spec fn bin_in_range(bin: i32, lo: i32, hi: i32) -> bool {
    lo <= bin && bin <= hi
}

/// Why a harvest's bin list is refused, if it is: it must be non-empty, name at most
/// `MAX_POSITION_WIDTH` bins, lie within the position's range, and be contiguous: no
/// bin named twice and `max - min + 1 == len`, so that it names every bin of
/// `[min, max]`. On success, the inclusive range to remove.
pub open spec fn bin_ids_outcome(bins: Seq<i32>, min_bin_id: i32, max_bin_id: i32) -> Result<
    (int, int),
    CoreError,
> {
    if bins.len() == 0 {
        Err(CoreError::NoBinsProvided)
    } else if bins.len() > MAX_POSITION_WIDTH {
        Err(CoreError::TooManyBins)
    } else if exists|i: int| 0 <= i < bins.len() && !bin_in_range(#[trigger] bins[i], min_bin_id, max_bin_id) {
        Err(CoreError::BinOutOfPositionRange)
    } else if !bins.no_duplicates() || seq_max(bins) - seq_min(bins) + 1 != bins.len() {
        Err(CoreError::NonContiguousBins)
    } else {
        Ok((seq_min(bins), seq_max(bins)))
    }
}

fn bin_bounds(bins: &Vec<i32>) -> (r: (i32, i32))
    requires
        bins@.len() > 0,
    ensures
        r.0 == seq_min(bins@),
        r.1 == seq_max(bins@),
{
    let mut lo: i32 = bins[0];
    let mut hi: i32 = bins[0];
    let mut i: usize = 1;
    assert(bins@.subrange(0, 1).drop_last().len() == 0);
    while i < bins.len()
        invariant
            1 <= i <= bins@.len(),
            lo == seq_min(bins@.subrange(0, i as int)),
            hi == seq_max(bins@.subrange(0, i as int)),
        decreases bins@.len() - i,
    {
        assert(bins@.subrange(0, i + 1).drop_last() =~= bins@.subrange(0, i as int));
        if bins[i] < lo {
            lo = bins[i];
        }
        if bins[i] > hi {
            hi = bins[i];
        }
        i = i + 1;
    }
    assert(bins@.subrange(0, bins@.len() as int) =~= bins@);
    (lo, hi)
}

fn has_duplicates(bins: &Vec<i32>) -> (r: bool)
    ensures
        r == !bins@.no_duplicates(),
{
    let mut i: usize = 0;
    while i < bins.len()
        invariant
            0 <= i <= bins@.len(),
            forall|a: int, b: int| 0 <= a < i && 0 <= b < i && a != b ==> bins@[a] != bins@[b],
        decreases bins@.len() - i,
    {
        let mut j: usize = 0;
        while j < i
            invariant
                0 <= j <= i < bins@.len(),
                forall|b: int| 0 <= b < j ==> bins@[b] != bins@[i as int],
            decreases i - j,
        {
            if bins[j] == bins[i] {
                assert(bins@[j as int] == bins@[i as int] && j != i);
                return true;
            }
            j = j + 1;
        }
        i = i + 1;
    }
    false
}

/// Checks a harvest's bin list against the position's range `[min_bin_id, max_bin_id]`
/// (see `bin_ids_outcome`) and returns the inclusive range to remove.
pub fn validate_bin_ids(bins: &Vec<i32>, min_bin_id: i32, max_bin_id: i32) -> (r: Result<
    (i32, i32),
    CoreError,
>)
    ensures
        match bin_ids_outcome(bins@, min_bin_id, max_bin_id) {
            Ok((lo, hi)) => r matches Ok((a, b)) && a == lo && b == hi,
            Err(e) => r == Err::<(i32, i32), CoreError>(e),
        },
{
    if bins.len() == 0 {
        return Err(CoreError::NoBinsProvided);
    }
    if bins.len() > MAX_POSITION_WIDTH as usize {
        return Err(CoreError::TooManyBins);
    }
    let mut i: usize = 0;
    while i < bins.len()
        invariant
            0 <= i <= bins@.len(),
            0 < bins@.len() <= MAX_POSITION_WIDTH,
            forall|j: int| 0 <= j < i ==> bin_in_range(#[trigger] bins@[j], min_bin_id, max_bin_id),
        decreases bins@.len() - i,
    {
        if bins[i] < min_bin_id || bins[i] > max_bin_id {
            assert(!bin_in_range(bins@[i as int], min_bin_id, max_bin_id));
            return Err(CoreError::BinOutOfPositionRange);
        }
        i = i + 1;
    }
    let (lo, hi) = bin_bounds(bins);
    let count = bins.len() as i64;
    if has_duplicates(bins) || hi as i64 - lo as i64 + 1 != count {
        return Err(CoreError::NonContiguousBins);
    }
    Ok((lo, hi))
}

/// Whether bin `m` is absent from `bins`.
pub open spec fn absent(bins: Seq<i32>, m: int) -> bool {
    forall|i: int| 0 <= i < bins.len() ==> #[trigger] bins[i] != m
}

/// Whether some bin strictly between the smallest and the largest of `bins` is absent.
pub open spec fn has_gap(bins: Seq<i32>) -> bool {
    exists|m: int| seq_min(bins) < m < seq_max(bins) && #[trigger] absent(bins, m)
}

/// A bin list with a gap is refused: where some bin between the smallest and the
/// largest is missing, the list is not accepted, whether or not bins repeat.
pub proof fn lemma_gap_rejected(bins: Seq<i32>, min_bin_id: i32, max_bin_id: i32, missing: int)
    requires
        bins.len() > 0,
        seq_min(bins) < missing < seq_max(bins),
        absent(bins, missing),
    ensures
        bin_ids_outcome(bins, min_bin_id, max_bin_id) is Err,
{
    if !bins.no_duplicates() {
        return;
    }
    let lo = seq_min(bins);
    let hi = seq_max(bins);
    lemma_seq_bounds(bins);
    let ints = bins.map_values(|b: i32| b as int);
    assert(ints.no_duplicates()) by {
        assert forall|i: int, j: int|
            0 <= i < ints.len() && 0 <= j < ints.len() && i != j implies ints[i] != ints[j] by {
            assert(bins[i] != bins[j]);
        }
    }
    ints.unique_seq_to_set();
    let range = set_int_range(lo, hi + 1).remove(missing);
    lemma_int_range(lo, hi + 1);
    assert(ints.to_set().subset_of(range)) by {
        assert forall|v: int| ints.to_set().contains(v) implies range.contains(v) by {
            let k = choose|k: int| 0 <= k < ints.len() && ints[k] == v;
            assert(bins[k] as int == v);
        }
    }
    lemma_len_subset(ints.to_set(), range);
    assert(set_int_range(lo, hi + 1).contains(missing));
}

/// The bins of `bins`, as integers.
pub open spec fn bin_set(bins: Seq<i32>) -> Set<int> {
    bins.map_values(|b: i32| b as int).to_set()
}

/// An accepted bin list names every bin of the removed range exactly once: its bins
/// are distinct and they are exactly `[lo, hi]`.
pub proof fn lemma_accepted_bins_fill_range(bins: Seq<i32>, min_bin_id: i32, max_bin_id: i32)
    ensures
        bin_ids_outcome(bins, min_bin_id, max_bin_id) matches Ok((lo, hi)) ==> bins.no_duplicates()
            && bin_set(bins) == set_int_range(lo, hi + 1),
{
    if bin_ids_outcome(bins, min_bin_id, max_bin_id) is Ok {
        let lo = seq_min(bins);
        let hi = seq_max(bins);
        lemma_seq_bounds(bins);
        let ints = bins.map_values(|b: i32| b as int);
        assert(ints.no_duplicates()) by {
            assert forall|i: int, j: int|
                0 <= i < ints.len() && 0 <= j < ints.len() && i != j implies ints[i] != ints[j] by {
                assert(bins[i] != bins[j]);
            }
        }
        ints.unique_seq_to_set();
        lemma_int_range(lo, hi + 1);
        assert(ints.to_set().subset_of(set_int_range(lo, hi + 1))) by {
            assert forall|v: int| ints.to_set().contains(v) implies set_int_range(lo, hi + 1).contains(v) by {
                let k = choose|k: int| 0 <= k < ints.len() && ints[k] == v;
                assert(bins[k] as int == v);
            }
        }
        vstd::seq_lib::seq_to_set_is_finite(ints);
        lemma_subset_equality(ints.to_set(), set_int_range(lo, hi + 1));
    }
}

} // verus!
