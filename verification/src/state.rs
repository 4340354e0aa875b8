//! Per-group accumulator state for streaming bivariate covariance, its
//! placement in an externally owned arena, the single-observation update,
//! and the pairwise merge of two partial accumulators.
//!
//! Every contract states the exact sequence of rounded IEEE-754 operations
//! the algorithm performs, over the named operations of `float_bits`; the
//! order of the two mean updates inside `add` is load-bearing for the
//! numerical stability of the co-moment and is pinned by `spec_add`.

use crate::float_bits::fadd;
use crate::float_bits::fadd_bits;
use crate::float_bits::fdiv;
use crate::float_bits::fdiv_bits;
use crate::float_bits::float_from_u64;
use crate::float_bits::float_of_u64;
use crate::float_bits::fmul;
use crate::float_bits::fmul_bits;
use crate::float_bits::fsub;
use crate::float_bits::fsub_bits;
use vstd::prelude::*;

verus! {

/// The bivariate streaming accumulator: how many valid rows were
/// observed, the running co-moment, and the running means of the two
/// inputs — the three latter carried as binary64 bit patterns.
#[derive(Clone, Copy, Debug, PartialEq, Eq, Structural)]
pub struct AggregateCovarianceState {
    pub count: u64,
    pub co_moments: u64,
    pub left_mean: u64,
    pub right_mean: u64,
}

/// The state a slot holds before any observation: zero count, and the bit
/// patterns of positive zero for the co-moment and both means.
pub open spec fn spec_zero_state() -> AggregateCovarianceState {
    AggregateCovarianceState { count: 0, co_moments: 0, left_mean: 0, right_mean: 0 }
}

/// The state after one more valid observation `(s, t)` (bit patterns):
/// the streaming update. Both deltas are taken against the old means; the
/// co-moment advances by `(s - new_left_mean) * (t - right_mean)` with the
/// left mean already advanced and the right mean still the old one.
pub open spec fn spec_add(st: AggregateCovarianceState, s: u64, t: u64) -> AggregateCovarianceState
    recommends
        st.count < u64::MAX,
{
    let left_delta = fsub_bits(s, st.left_mean);
    let right_delta = fsub_bits(t, st.right_mean);
    let new_count = (st.count + 1) as u64;
    let count_float = float_of_u64(new_count);
    let new_left_mean = fadd_bits(st.left_mean, fdiv_bits(left_delta, count_float));
    let new_right_mean = fadd_bits(st.right_mean, fdiv_bits(right_delta, count_float));
    let new_co_moments = fadd_bits(
        st.co_moments,
        fmul_bits(fsub_bits(s, new_left_mean), fsub_bits(t, st.right_mean)),
    );
    AggregateCovarianceState {
        count: new_count,
        co_moments: new_co_moments,
        left_mean: new_left_mean,
        right_mean: new_right_mean,
    }
}

/// Whether two partial counts are both large and of comparable size:
/// both exceed 10,000 and `1 - min/max < 0.001`, that is,
/// `1000 * min > 999 * max`. When it holds, the merged means are
/// recomputed from sums rather than by the incremental update.
pub open spec fn spec_large_and_comparable(a: u64, b: u64) -> bool {
    let mn = if a <= b {
        a
    } else {
        b
    };
    let mx = if a <= b {
        b
    } else {
        a
    };
    mn > 10000 && 1000 * mn > 999 * mx
}

/// The sum of a partial accumulator's left input, recovered as
/// `count * left_mean` in binary64.
pub open spec fn spec_left_sum(st: AggregateCovarianceState) -> u64 {
    fmul_bits(float_of_u64(st.count), st.left_mean)
}

/// The sum of a partial accumulator's right input, recovered as
/// `count * right_mean` in binary64.
pub open spec fn spec_right_sum(st: AggregateCovarianceState) -> u64 {
    fmul_bits(float_of_u64(st.count), st.right_mean)
}

/// The state after merging the partial accumulator `other` into `st`,
/// where the two saw disjoint row sets. A zero combined count returns
/// `st` unchanged; otherwise the co-moment gains
/// `other.co_moments + left_delta * right_delta * count * other.count / total`,
/// and the means are combined by the branch `spec_large_and_comparable`
/// selects.
pub open spec fn spec_merge(
    st: AggregateCovarianceState,
    other: AggregateCovarianceState,
) -> AggregateCovarianceState
    recommends
        st.count + other.count <= u64::MAX,
{
    let total = (st.count + other.count) as u64;
    if total == 0 {
        st
    } else {
        let total_float = float_of_u64(total);
        let factor = fdiv_bits(
            fmul_bits(float_of_u64(st.count), float_of_u64(other.count)),
            total_float,
        );
        let left_delta = fsub_bits(st.left_mean, other.left_mean);
        let right_delta = fsub_bits(st.right_mean, other.right_mean);
        let new_co_moments = fadd_bits(
            st.co_moments,
            fadd_bits(other.co_moments, fmul_bits(fmul_bits(left_delta, right_delta), factor)),
        );
        let count_float = float_of_u64(st.count);
        let new_left_mean = if spec_large_and_comparable(st.count, other.count) {
            fdiv_bits(fadd_bits(spec_left_sum(st), spec_left_sum(other)), total_float)
        } else {
            fadd_bits(other.left_mean, fdiv_bits(fmul_bits(left_delta, count_float), total_float))
        };
        let new_right_mean = if spec_large_and_comparable(st.count, other.count) {
            fdiv_bits(fadd_bits(spec_right_sum(st), spec_right_sum(other)), total_float)
        } else {
            fadd_bits(
                other.right_mean,
                fdiv_bits(fmul_bits(right_delta, count_float), total_float),
            )
        };
        AggregateCovarianceState {
            count: total,
            co_moments: new_co_moments,
            left_mean: new_left_mean,
            right_mean: new_right_mean,
        }
    }
}

/// Whether the incremental mean update of a merge is replaced by the
/// recomputation from sums: both counts exceed 10,000 and differ by less
/// than a part in a thousand.
pub fn large_and_comparable(a: u64, b: u64) -> (r: bool)
    ensures
        r == spec_large_and_comparable(a, b),
{
    if a == 0 || b == 0 {
        return false;
    }
    let mn: u64 = if a <= b {
        a
    } else {
        b
    };
    let mx: u64 = if a <= b {
        b
    } else {
        a
    };
    mn > 10000 && 1000u128 * (mn as u128) > 999u128 * (mx as u128)
}

impl AggregateCovarianceState {
    /// A fresh accumulator that has observed nothing.
    pub fn new() -> (r: Self)
        ensures
            r == spec_zero_state(),
    {
        AggregateCovarianceState { count: 0, co_moments: 0, left_mean: 0, right_mean: 0 }
    }

    /// Fold one valid observation `(s, t)` (binary64 bit patterns) into
    /// the accumulator: the streaming update `spec_add`.
    pub fn add(&mut self, s: u64, t: u64)
        requires
            old(self).count < u64::MAX,
        ensures
            *final(self) == spec_add(*old(self), s, t),
    {
        let left_delta = fsub(s, self.left_mean);
        let right_delta = fsub(t, self.right_mean);

        self.count = self.count + 1;
        let count_float = float_from_u64(self.count);
        let new_left_mean = fadd(self.left_mean, fdiv(left_delta, count_float));
        let new_right_mean = fadd(self.right_mean, fdiv(right_delta, count_float));

        self.co_moments = fadd(
            self.co_moments,
            fmul(fsub(s, new_left_mean), fsub(t, self.right_mean)),
        );
        self.left_mean = new_left_mean;
        self.right_mean = new_right_mean;
    }

    /// Combine the partial accumulator `other`, built over a disjoint row
    /// set, into `self`: the pairwise merge `spec_merge`.
    pub fn merge(&mut self, other: &Self)
        requires
            old(self).count + other.count <= u64::MAX,
        ensures
            *final(self) == spec_merge(*old(self), *other),
    {
        let total = self.count + other.count;
        if total == 0 {
            return;
        }

        let total_float = float_from_u64(total);
        let factor = fdiv(
            fmul(float_from_u64(self.count), float_from_u64(other.count)),
            total_float,
        );
        let left_delta = fsub(self.left_mean, other.left_mean);
        let right_delta = fsub(self.right_mean, other.right_mean);

        self.co_moments = fadd(
            self.co_moments,
            fadd(other.co_moments, fmul(fmul(left_delta, right_delta), factor)),
        );

        if large_and_comparable(self.count, other.count) {
            self.left_mean = fdiv(fadd(self.left_sum(), other.left_sum()), total_float);
            self.right_mean = fdiv(fadd(self.right_sum(), other.right_sum()), total_float);
        } else {
            let count_float = float_from_u64(self.count);
            self.left_mean = fadd(
                other.left_mean,
                fdiv(fmul(left_delta, count_float), total_float),
            );
            self.right_mean = fadd(
                other.right_mean,
                fdiv(fmul(right_delta, count_float), total_float),
            );
        }

        self.count = total;
    }

    /// The accumulated left-input sum, `count * left_mean` in binary64.
    pub fn left_sum(&self) -> (r: u64)
        ensures
            r == spec_left_sum(*self),
    {
        fmul(float_from_u64(self.count), self.left_mean)
    }

    /// The accumulated right-input sum, `count * right_mean` in binary64.
    pub fn right_sum(&self) -> (r: u64)
        ensures
            r == spec_right_sum(*self),
    {
        fmul(float_from_u64(self.count), self.right_mean)
    }
}

/// The accumulator's invariant: until the first observation, the
/// co-moment and both means hold the bit pattern of positive zero.
pub open spec fn spec_state_wf(st: AggregateCovarianceState) -> bool {
    st.count == 0 ==> st.co_moments == 0 && st.left_mean == 0 && st.right_mean == 0
}

/// The zero state satisfies the invariant, and every update and every
/// merge of invariant states preserves it.
pub proof fn lemma_state_wf_preserved(
    st: AggregateCovarianceState,
    other: AggregateCovarianceState,
    s: u64,
    t: u64,
)
    ensures
        spec_state_wf(spec_zero_state()),
        st.count < u64::MAX ==> spec_state_wf(spec_add(st, s, t)),
        spec_state_wf(st) && spec_state_wf(other) && st.count + other.count <= u64::MAX
            ==> spec_state_wf(spec_merge(st, other)),
{
}

/// A merged accumulator counts exactly the rows of its two operands.
pub proof fn lemma_merge_count(a: AggregateCovarianceState, b: AggregateCovarianceState)
    requires
        a.count + b.count <= u64::MAX,
    ensures
        spec_merge(a, b).count == a.count + b.count,
{
}

/// Merging an accumulator that has observed nothing never changes the
/// observation count, and leaves an accumulator that has itself observed
/// nothing entirely unchanged.
pub proof fn lemma_merge_empty(a: AggregateCovarianceState)
    ensures
        spec_merge(a, spec_zero_state()).count == a.count,
        a.count == 0 ==> spec_merge(a, spec_zero_state()) == a,
{
}

/// An aggregate's address inside one group's slot of the state arena:
/// the index of its state, reachable from the group's base address by a
/// fixed stride when several aggregates share the slot.
#[derive(Clone, Copy, Debug, PartialEq, Eq, Structural)]
pub struct StateAddr {
    pub offset: usize,
}

impl StateAddr {
    /// The address of slot `offset` of an arena.
    pub fn new(offset: usize) -> (r: Self)
        ensures
            r.offset == offset,
    {
        StateAddr { offset }
    }

    /// The address of the adjacent aggregate's state, `offset` slots
    /// further into the same group slot.
    pub fn next(self, offset: usize) -> (r: Self)
        requires
            self.offset + offset <= usize::MAX,
        ensures
            r.offset == self.offset + offset,
    {
        StateAddr { offset: self.offset + offset }
    }
}

/// The externally owned region the per-group accumulators live in: the
/// engine reads and writes states through `StateAddr` values but never
/// owns the slots' lifecycle.
pub struct StateArena {
    pub slots: Vec<AggregateCovarianceState>,
}

impl StateArena {
    /// An arena of `n` slots, each holding the zero state.
    pub fn with_slots(n: usize) -> (r: Self)
        ensures
            r.slots@.len() == n,
            forall|i: int| 0 <= i < n ==> r.slots@[i] == spec_zero_state(),
    {
        let mut slots: Vec<AggregateCovarianceState> = Vec::new();
        let mut i: usize = 0;
        while i < n
            invariant
                i <= n,
                slots@.len() == i,
                forall|j: int| 0 <= j < i ==> slots@[j] == spec_zero_state(),
            decreases n - i,
        {
            slots.push(AggregateCovarianceState::new());
            i = i + 1;
        }
        StateArena { slots }
    }

    /// Number of slots in the arena.
    pub fn len(&self) -> (r: usize)
        ensures
            r == self.slots@.len(),
    {
        self.slots.len()
    }

    /// Read the state at `place`.
    pub fn get(&self, place: StateAddr) -> (r: AggregateCovarianceState)
        requires
            place.offset < self.slots@.len(),
        ensures
            r == self.slots@[place.offset as int],
    {
        self.slots[place.offset]
    }
}

} // verus!
