//! The covariance aggregate function family and its uniform capability
//! interface: construct, report layout, initialize a state, fold column
//! batches in (ungrouped and grouped), serialize, deserialize, merge, and
//! extract the final scalar — plus the construction-time type dispatch
//! and the two finalization variants (sample and population).

use crate::codec::read_le_word;
use crate::codec::spec_deserialize;
use crate::codec::spec_serialize;
use crate::codec::write_le_word;
use crate::datavalues::lemma_null_count_all;
use crate::datavalues::lemma_null_count_none;
use crate::datavalues::series_wf;
use crate::datavalues::DataField;
use crate::datavalues::DataSchema;
use crate::datavalues::DataType;
use crate::datavalues::DataValue;
use crate::datavalues::ErrorCode;
use crate::datavalues::Series;
use crate::float_bits::fdiv;
use crate::float_bits::fdiv_bits;
use crate::float_bits::float_from_u64;
use crate::float_bits::float_of_u64;
use crate::float_bits::INFINITY_BITS;
use crate::float_bits::ZERO_BITS;
use crate::state::lemma_merge_count;
use crate::state::spec_add;
use crate::state::spec_merge;
use crate::state::spec_zero_state;
use crate::state::AggregateCovarianceState;
use crate::state::StateAddr;
use crate::state::StateArena;
use core::marker::PhantomData;
use vstd::prelude::*;

verus! {

/// How many rows a batch of two columns yields: the shorter column ends
/// the zip.
pub open spec fn spec_zip_len(left: Series, right: Series) -> int {
    if left.values@.len() <= right.values@.len() {
        left.values@.len() as int
    } else {
        right.values@.len() as int
    }
}

/// How many rows a grouped batch yields: the zip of the two columns with
/// the per-row state addresses.
pub open spec fn spec_keys_len(left: Series, right: Series, places: Seq<StateAddr>) -> int {
    let n = spec_zip_len(left, right);
    if n <= places.len() {
        n
    } else {
        places.len() as int
    }
}

/// How many of the first `n` rows have both values present.
pub open spec fn spec_valid_count(left: Series, right: Series, n: int) -> int
    decreases n,
{
    if n <= 0 {
        0
    } else {
        spec_valid_count(left, right, n - 1) + if left.valid@[n - 1] && right.valid@[n - 1] {
            1int
        } else {
            0int
        }
    }
}

/// The accumulator after folding the first `n` rows of a batch into
/// `st`, in row order, skipping every row with a null on either side.
pub open spec fn spec_accumulate(
    st: AggregateCovarianceState,
    left: Series,
    right: Series,
    n: int,
) -> AggregateCovarianceState
    decreases n,
{
    if n <= 0 {
        st
    } else {
        let prev = spec_accumulate(st, left, right, n - 1);
        if left.valid@[n - 1] && right.valid@[n - 1] {
            spec_add(prev, left.values@[n - 1], right.values@[n - 1])
        } else {
            prev
        }
    }
}

/// The arena after folding the first `n` rows of a grouped batch: row `i`
/// updates the state `offset` slots past `places[i]`, and rows with a
/// null on either side touch nothing.
pub open spec fn spec_accumulate_keys(
    slots: Seq<AggregateCovarianceState>,
    places: Seq<StateAddr>,
    offset: int,
    left: Series,
    right: Series,
    n: int,
) -> Seq<AggregateCovarianceState>
    decreases n,
{
    if n <= 0 {
        slots
    } else {
        let prev = spec_accumulate_keys(slots, places, offset, left, right, n - 1);
        if left.valid@[n - 1] && right.valid@[n - 1] {
            let idx = places[n - 1].offset + offset;
            prev.update(idx, spec_add(prev[idx], left.values@[n - 1], right.values@[n - 1]))
        } else {
            prev
        }
    }
}

/// Folding counts exactly the rows with both values present, and the
/// count never outruns the rows folded.
pub proof fn lemma_accumulate_count(
    st: AggregateCovarianceState,
    left: Series,
    right: Series,
    n: int,
)
    requires
        0 <= n,
        st.count + n <= u64::MAX,
    ensures
        0 <= spec_valid_count(left, right, n) <= n,
        spec_accumulate(st, left, right, n).count == st.count + spec_valid_count(left, right, n),
    decreases n,
{
    if n > 0 {
        lemma_accumulate_count(st, left, right, n - 1);
    }
}

/// A batch whose every row has a null on one side or the other folds to
/// the accumulator it started from.
pub proof fn lemma_accumulate_all_invalid(
    st: AggregateCovarianceState,
    left: Series,
    right: Series,
    n: int,
)
    requires
        0 <= n,
        forall|i: int| 0 <= i < n ==> !(left.valid@[i] && right.valid@[i]),
    ensures
        spec_accumulate(st, left, right, n) == st,
    decreases n,
{
    if n > 0 {
        lemma_accumulate_all_invalid(st, left, right, n - 1);
    }
}

/// A grouped fold keeps the arena's size.
pub proof fn lemma_accumulate_keys_len(
    slots: Seq<AggregateCovarianceState>,
    places: Seq<StateAddr>,
    offset: int,
    left: Series,
    right: Series,
    n: int,
)
    requires
        0 <= n,
        0 <= offset,
        forall|i: int| 0 <= i < n ==> places[i].offset + offset < slots.len(),
    ensures
        spec_accumulate_keys(slots, places, offset, left, right, n).len() == slots.len(),
    decreases n,
{
    if n > 0 {
        lemma_accumulate_keys_len(slots, places, offset, left, right, n - 1);
        let prev = spec_accumulate_keys(slots, places, offset, left, right, n - 1);
        if left.valid@[n - 1] && right.valid@[n - 1] {
            let idx = places[n - 1].offset + offset;
            assert(0 <= idx < prev.len());
            assert(prev.update(idx, spec_add(prev[idx], left.values@[n - 1], right.values@[n - 1])).len()
                == prev.len());
        }
    }
}

/// A grouped fold of `n` rows raises no slot's count by more than `n`.
pub proof fn lemma_accumulate_keys_count(
    slots: Seq<AggregateCovarianceState>,
    places: Seq<StateAddr>,
    offset: int,
    left: Series,
    right: Series,
    n: int,
)
    requires
        0 <= n,
        0 <= offset,
        forall|i: int| 0 <= i < n ==> places[i].offset + offset < slots.len(),
        forall|j: int| 0 <= j < slots.len() ==> slots[j].count + n <= u64::MAX,
    ensures
        forall|j: int|
            0 <= j < slots.len() ==> #[trigger] spec_accumulate_keys(
                slots,
                places,
                offset,
                left,
                right,
                n,
            )[j].count <= slots[j].count + n,
    decreases n,
{
    if n > 0 {
        lemma_accumulate_keys_count(slots, places, offset, left, right, n - 1);
        lemma_accumulate_keys_len(slots, places, offset, left, right, n - 1);
        let prev = spec_accumulate_keys(slots, places, offset, left, right, n - 1);
        let cur = spec_accumulate_keys(slots, places, offset, left, right, n);
        if left.valid@[n - 1] && right.valid@[n - 1] {
            let idx = places[n - 1].offset + offset;
            assert(0 <= idx < prev.len());
            assert(cur == prev.update(
                idx,
                spec_add(prev[idx], left.values@[n - 1], right.values@[n - 1]),
            ));
            assert forall|j: int| 0 <= j < slots.len() implies #[trigger] cur[j].count
                <= slots[j].count + n by {
                if j == idx {
                    assert(prev[idx].count + 1 <= u64::MAX);
                } else {
                    assert(cur[j] == prev[j]);
                }
            }
        }
    }
}

/// A grouped batch whose every row has a null on one side or the other
/// leaves the arena as it was.
pub proof fn lemma_accumulate_keys_all_invalid(
    slots: Seq<AggregateCovarianceState>,
    places: Seq<StateAddr>,
    offset: int,
    left: Series,
    right: Series,
    n: int,
)
    requires
        0 <= n,
        forall|i: int| 0 <= i < n ==> !(left.valid@[i] && right.valid@[i]),
    ensures
        spec_accumulate_keys(slots, places, offset, left, right, n) == slots,
    decreases n,
{
    if n > 0 {
        lemma_accumulate_keys_all_invalid(slots, places, offset, left, right, n - 1);
    }
}

/// A batch whose validity flags repeat, shifted by `k`, those of another
/// batch holds, among its first `j` rows, exactly the valid rows the
/// other batch holds between `k` and `k + j`.
pub proof fn lemma_valid_count_shift(
    left: Series,
    right: Series,
    tail_left: Series,
    tail_right: Series,
    k: int,
    j: int,
)
    requires
        0 <= k,
        0 <= j,
        forall|i: int| 0 <= i < j ==> tail_left.valid@[i] == left.valid@[k + i],
        forall|i: int| 0 <= i < j ==> tail_right.valid@[i] == right.valid@[k + i],
    ensures
        spec_valid_count(tail_left, tail_right, j) == spec_valid_count(left, right, k + j)
            - spec_valid_count(left, right, k),
    decreases j,
{
    if j > 0 {
        lemma_valid_count_shift(left, right, tail_left, tail_right, k, j - 1);
    }
}

/// Partitioning a batch into its first `k` rows and its remaining rows
/// (re-indexed from zero as a batch of their own), folding each part into
/// a fresh accumulator, and merging the two partials observes exactly the
/// valid rows a single pass over the whole batch observes: partial
/// aggregation loses no row and counts none twice.
pub proof fn lemma_partition_merge_count(
    left: Series,
    right: Series,
    n: int,
    tail_left: Series,
    tail_right: Series,
    k: int,
)
    requires
        0 <= k <= n <= u64::MAX,
        forall|i: int| 0 <= i < n - k ==> tail_left.valid@[i] == left.valid@[k + i],
        forall|i: int| 0 <= i < n - k ==> tail_right.valid@[i] == right.valid@[k + i],
    ensures
        spec_merge(
            spec_accumulate(spec_zero_state(), left, right, k),
            spec_accumulate(spec_zero_state(), tail_left, tail_right, n - k),
        ).count == spec_accumulate(spec_zero_state(), left, right, n).count,
{
    lemma_valid_count_shift(left, right, tail_left, tail_right, k, n - k);
    lemma_accumulate_count(spec_zero_state(), left, right, k);
    lemma_accumulate_count(spec_zero_state(), left, right, n);
    lemma_accumulate_count(spec_zero_state(), tail_left, tail_right, n - k);
    lemma_merge_count(
        spec_accumulate(spec_zero_state(), left, right, k),
        spec_accumulate(spec_zero_state(), tail_left, tail_right, n - k),
    );
}

/// A finalization policy for the shared covariance accumulator: the
/// sample and population variants differ only here.
pub trait AggregateCovariance {
    /// The variant's stable identifier.
    spec fn spec_name() -> Seq<char>;

    /// The final scalar (a binary64 bit pattern) the variant extracts
    /// from an accumulator, `None` standing for a null result.
    spec fn apply_spec(st: AggregateCovarianceState) -> Option<u64>;

    fn name() -> (r: &'static str)
        ensures
            r@ == Self::spec_name(),
    ;

    fn apply(st: &AggregateCovarianceState) -> (r: Option<u64>)
        ensures
            r == Self::apply_spec(*st),
    ;
}

/// Sample covariance: fewer than two observations yield positive
/// infinity — the sentinel for "undefined from insufficient data" —
/// otherwise `co_moments / (count - 1)`.
pub struct AggregateCovarianceSampleImpl;

impl AggregateCovariance for AggregateCovarianceSampleImpl {
    open spec fn spec_name() -> Seq<char> {
        "AggregateCovarianceSampleFunction"@
    }

    open spec fn apply_spec(st: AggregateCovarianceState) -> Option<u64> {
        if st.count < 2 {
            Some(INFINITY_BITS)
        } else {
            Some(fdiv_bits(st.co_moments, float_of_u64((st.count - 1) as u64)))
        }
    }

    fn name() -> (r: &'static str) {
        "AggregateCovarianceSampleFunction"
    }

    fn apply(st: &AggregateCovarianceState) -> (r: Option<u64>) {
        if st.count < 2 {
            Some(INFINITY_BITS)
        } else {
            Some(fdiv(st.co_moments, float_from_u64(st.count - 1)))
        }
    }
}

/// Population covariance: no observation yields positive infinity, a
/// single observation yields zero, otherwise `co_moments / count`.
pub struct AggregateCovariancePopulationImpl;

impl AggregateCovariance for AggregateCovariancePopulationImpl {
    open spec fn spec_name() -> Seq<char> {
        "AggregateCovariancePopulationFunction"@
    }

    open spec fn apply_spec(st: AggregateCovarianceState) -> Option<u64> {
        if st.count == 0 {
            Some(INFINITY_BITS)
        } else if st.count == 1 {
            Some(ZERO_BITS)
        } else {
            Some(fdiv_bits(st.co_moments, float_of_u64(st.count)))
        }
    }

    fn name() -> (r: &'static str) {
        "AggregateCovariancePopulationFunction"
    }

    fn apply(st: &AggregateCovarianceState) -> (r: Option<u64>) {
        if st.count == 0 {
            Some(INFINITY_BITS)
        } else if st.count == 1 {
            Some(ZERO_BITS)
        } else {
            Some(fdiv(st.co_moments, float_from_u64(st.count)))
        }
    }
}

/// With fewer than two observations the sample variant extracts the
/// positive-infinity sentinel, never a null.
pub proof fn lemma_sample_sentinel(st: AggregateCovarianceState)
    requires
        st.count < 2,
    ensures
        AggregateCovarianceSampleImpl::apply_spec(st) == Some(INFINITY_BITS),
{
}

/// With no observation the population variant extracts the
/// positive-infinity sentinel; with exactly one, positive zero.
pub proof fn lemma_population_sentinels(st: AggregateCovarianceState)
    ensures
        st.count == 0 ==> AggregateCovariancePopulationImpl::apply_spec(st) == Some(INFINITY_BITS),
        st.count == 1 ==> AggregateCovariancePopulationImpl::apply_spec(st) == Some(ZERO_BITS),
{
}

/// One concrete covariance aggregate: a stateless, shareable instance
/// holding only display metadata; all per-group state lives in the arena.
pub struct AggregateCovarianceFunction<R: AggregateCovariance> {
    display_name: String,
    _arguments: Vec<DataField>,
    variant: PhantomData<R>,
}

impl<R: AggregateCovariance> AggregateCovarianceFunction<R> {
    pub closed spec fn spec_display_name(&self) -> Seq<char> {
        self.display_name@
    }

    pub closed spec fn spec_arguments(&self) -> Seq<DataField> {
        self._arguments@
    }

    /// Construct an instance; the argument fields were validated by the
    /// factory before it dispatched here.
    pub fn try_create(display_name: &str, arguments: Vec<DataField>) -> (r: Result<
        Self,
        ErrorCode,
    >)
        ensures
            r matches Ok(f) && f.spec_display_name() == display_name@ && f.spec_arguments()
                == arguments@,
    {
        Ok(
            AggregateCovarianceFunction {
                display_name: display_name.to_owned(),
                _arguments: arguments,
                variant: PhantomData,
            },
        )
    }

    /// The variant's stable identifier.
    pub fn name(&self) -> (r: &'static str)
        ensures
            r@ == R::spec_name(),
    {
        R::name()
    }

    /// The name the query referred to this aggregate by.
    pub fn display_name(&self) -> (r: &String)
        ensures
            r@ == self.spec_display_name(),
    {
        &self.display_name
    }

    /// The result is always a 64-bit float.
    pub fn return_type(&self) -> (r: Result<DataType, ErrorCode>)
        ensures
            r == Ok::<DataType, ErrorCode>(DataType::Float64),
    {
        Ok(DataType::Float64)
    }

    /// The result is never null: degenerate sample sizes are resolved by
    /// sentinel values instead.
    pub fn nullable(&self, _input_schema: &DataSchema) -> (r: Result<bool, ErrorCode>)
        ensures
            r == Ok::<bool, ErrorCode>(false),
    {
        Ok(false)
    }

    /// Byte size and alignment one accumulator needs in an arena slot:
    /// four 8-byte fields, 8-byte aligned.
    pub fn state_layout(&self) -> (r: (usize, usize))
        ensures
            r.0 == 32,
            r.1 == 8,
    {
        (32, 8)
    }

    /// Write the zero state at `place`; called exactly once per slot
    /// before any fold or merge.
    pub fn init_state(&self, arena: &mut StateArena, place: StateAddr)
        requires
            place.offset < old(arena).slots@.len(),
        ensures
            final(arena).slots@ == old(arena).slots@.update(
                place.offset as int,
                spec_zero_state(),
            ),
    {
        arena.slots[place.offset] = AggregateCovarianceState::new();
    }

    /// Fold a whole ungrouped batch into the state at `place`: every row
    /// with both values present, in row order; a batch all of whose rows
    /// have a null on either side is a no-op.
    pub fn accumulate(
        &self,
        arena: &mut StateArena,
        place: StateAddr,
        arrays: &Vec<Series>,
        _input_rows: usize,
    ) -> (r: Result<(), ErrorCode>)
        requires
            arrays@.len() >= 2,
            series_wf(arrays@[0]),
            series_wf(arrays@[1]),
            place.offset < old(arena).slots@.len(),
            old(arena).slots@[place.offset as int].count + spec_zip_len(arrays@[0], arrays@[1])
                <= u64::MAX,
        ensures
            r == Ok::<(), ErrorCode>(()),
            final(arena).slots@ == old(arena).slots@.update(
                place.offset as int,
                spec_accumulate(
                    old(arena).slots@[place.offset as int],
                    arrays@[0],
                    arrays@[1],
                    spec_zip_len(arrays@[0], arrays@[1]),
                ),
            ),
    {
        let left = &arrays[0];
        let right = &arrays[1];
        let left_len = left.len();
        let right_len = right.len();
        let n: usize = if left_len <= right_len {
            left_len
        } else {
            right_len
        };

        if left.null_count() == left_len || right.null_count() == right_len {
            // Every row is missing on one side: nothing to fold.
            proof {
                lemma_null_count_all(left.valid@, left.valid@.len() as int);
                lemma_null_count_all(right.valid@, right.valid@.len() as int);
                lemma_accumulate_all_invalid(
                    old(arena).slots@[place.offset as int],
                    *left,
                    *right,
                    n as int,
                );
                assert(arena.slots@ =~= old(arena).slots@.update(
                    place.offset as int,
                    old(arena).slots@[place.offset as int],
                ));
            }
            return Ok(());
        }

        let mut st = arena.slots[place.offset];
        let ghost s0 = st;

        if left.null_count() == 0 && right.null_count() == 0 {
            proof {
                lemma_null_count_none(left.valid@, left.valid@.len() as int);
                lemma_null_count_none(right.valid@, right.valid@.len() as int);
            }
            let mut i: usize = 0;
            while i < n
                invariant
                    i <= n,
                    n <= left.values@.len(),
                    n <= right.values@.len(),
                    series_wf(*left),
                    series_wf(*right),
                    s0.count + n <= u64::MAX,
                    forall|j: int| 0 <= j < left.valid@.len() ==> left.valid@[j],
                    forall|j: int| 0 <= j < right.valid@.len() ==> right.valid@[j],
                    st == spec_accumulate(s0, *left, *right, i as int),
                decreases n - i,
            {
                proof {
                    lemma_accumulate_count(s0, *left, *right, i as int);
                }
                st.add(left.values[i], right.values[i]);
                i = i + 1;
            }
        } else {
            let mut i: usize = 0;
            while i < n
                invariant
                    i <= n,
                    n <= left.values@.len(),
                    n <= right.values@.len(),
                    series_wf(*left),
                    series_wf(*right),
                    s0.count + n <= u64::MAX,
                    st == spec_accumulate(s0, *left, *right, i as int),
                decreases n - i,
            {
                if left.valid[i] && right.valid[i] {
                    proof {
                        lemma_accumulate_count(s0, *left, *right, i as int);
                    }
                    st.add(left.values[i], right.values[i]);
                }
                i = i + 1;
            }
        }

        arena.slots[place.offset] = st;
        Ok(())
    }

    /// Fold a grouped batch: row `i` updates the state `offset` slots
    /// past `places[i]`, skipping every row with a null on either side —
    /// the short-circuit is per row, not per batch.
    pub fn accumulate_keys(
        &self,
        arena: &mut StateArena,
        places: &Vec<StateAddr>,
        offset: usize,
        arrays: &Vec<Series>,
        _input_rows: usize,
    ) -> (r: Result<(), ErrorCode>)
        requires
            arrays@.len() >= 2,
            series_wf(arrays@[0]),
            series_wf(arrays@[1]),
            forall|i: int|
                0 <= i < places@.len() ==> places@[i].offset + offset < old(arena).slots@.len(),
            forall|j: int|
                0 <= j < old(arena).slots@.len() ==> old(arena).slots@[j].count + spec_keys_len(
                    arrays@[0],
                    arrays@[1],
                    places@,
                ) <= u64::MAX,
        ensures
            r == Ok::<(), ErrorCode>(()),
            final(arena).slots@ == spec_accumulate_keys(
                old(arena).slots@,
                places@,
                offset as int,
                arrays@[0],
                arrays@[1],
                spec_keys_len(arrays@[0], arrays@[1], places@),
            ),
    {
        let left = &arrays[0];
        let right = &arrays[1];
        let left_len = left.len();
        let right_len = right.len();
        let zip_len: usize = if left_len <= right_len {
            left_len
        } else {
            right_len
        };
        let places_len = places.len();
        let n: usize = if zip_len <= places_len {
            zip_len
        } else {
            places_len
        };

        if left.null_count() == left_len || right.null_count() == right_len {
            // Every row is missing on one side: nothing to fold.
            proof {
                lemma_null_count_all(left.valid@, left.valid@.len() as int);
                lemma_null_count_all(right.valid@, right.valid@.len() as int);
                lemma_accumulate_keys_all_invalid(
                    old(arena).slots@,
                    places@,
                    offset as int,
                    *left,
                    *right,
                    n as int,
                );
            }
            return Ok(());
        }

        let ghost slots0 = arena.slots@;

        if left.null_count() == 0 && right.null_count() == 0 {
            proof {
                lemma_null_count_none(left.valid@, left.valid@.len() as int);
                lemma_null_count_none(right.valid@, right.valid@.len() as int);
            }
            let mut i: usize = 0;
            while i < n
                invariant
                    i <= n,
                    n <= left.values@.len(),
                    n <= right.values@.len(),
                    n <= places@.len(),
                    series_wf(*left),
                    series_wf(*right),
                    forall|j: int| 0 <= j < left.valid@.len() ==> left.valid@[j],
                    forall|j: int| 0 <= j < right.valid@.len() ==> right.valid@[j],
                    forall|k: int|
                        0 <= k < places@.len() ==> places@[k].offset + offset < slots0.len(),
                    forall|j: int| 0 <= j < slots0.len() ==> slots0[j].count + n <= u64::MAX,
                    arena.slots@ == spec_accumulate_keys(
                        slots0,
                        places@,
                        offset as int,
                        *left,
                        *right,
                        i as int,
                    ),
                    arena.slots@.len() == slots0.len(),
                decreases n - i,
            {
                proof {
                    lemma_accumulate_keys_count(
                        slots0,
                        places@,
                        offset as int,
                        *left,
                        *right,
                        i as int,
                    );
                }
                let arena_len = arena.len();
                assert(places@[i as int].offset + offset < arena_len);
                let p = places[i].next(offset);
                let idx = p.offset;
                let mut st = arena.slots[idx];
                st.add(left.values[i], right.values[i]);
                arena.slots[idx] = st;
                i = i + 1;
                proof {
                    lemma_accumulate_keys_len(
                        slots0,
                        places@,
                        offset as int,
                        *left,
                        *right,
                        i as int,
                    );
                }
            }
            return Ok(());
        }

        let mut i: usize = 0;
        while i < n
            invariant
                i <= n,
                n <= left.values@.len(),
                n <= right.values@.len(),
                n <= places@.len(),
                series_wf(*left),
                series_wf(*right),
                forall|k: int| 0 <= k < places@.len() ==> places@[k].offset + offset < slots0.len(),
                forall|j: int| 0 <= j < slots0.len() ==> slots0[j].count + n <= u64::MAX,
                arena.slots@ == spec_accumulate_keys(
                    slots0,
                    places@,
                    offset as int,
                    *left,
                    *right,
                    i as int,
                ),
                arena.slots@.len() == slots0.len(),
            decreases n - i,
        {
            if left.valid[i] && right.valid[i] {
                proof {
                    lemma_accumulate_keys_count(
                        slots0,
                        places@,
                        offset as int,
                        *left,
                        *right,
                        i as int,
                    );
                }
                let arena_len = arena.len();
                assert(places@[i as int].offset + offset < arena_len);
                let p = places[i].next(offset);
                let idx = p.offset;
                let mut st = arena.slots[idx];
                st.add(left.values[i], right.values[i]);
                arena.slots[idx] = st;
            }
            i = i + 1;
            proof {
                lemma_accumulate_keys_len(slots0, places@, offset as int, *left, *right, i as int);
            }
        }
        Ok(())
    }

    /// Append the state's 32-byte little-endian encoding to `writer`.
    pub fn serialize(&self, arena: &StateArena, place: StateAddr, writer: &mut Vec<u8>) -> (r:
        Result<(), ErrorCode>)
        requires
            place.offset < arena.slots@.len(),
        ensures
            r == Ok::<(), ErrorCode>(()),
            final(writer)@ == old(writer)@ + spec_serialize(arena.slots@[place.offset as int]),
    {
        let st = arena.get(place);
        write_le_word(writer, st.count);
        write_le_word(writer, st.co_moments);
        write_le_word(writer, st.left_mean);
        write_le_word(writer, st.right_mean);
        proof {
            assert(writer@ =~= old(writer)@ + spec_serialize(
                arena.slots@[place.offset as int],
            ));
        }
        Ok(())
    }

    /// Decode a 32-byte little-endian encoding into the state at `place`;
    /// a shorter buffer is rejected with a decoding error and the arena
    /// is left untouched.
    pub fn deserialize(&self, arena: &mut StateArena, place: StateAddr, reader: &Vec<u8>) -> (r:
        Result<(), ErrorCode>)
        requires
            place.offset < old(arena).slots@.len(),
        ensures
            reader@.len() >= 32 ==> r == Ok::<(), ErrorCode>(()) && final(arena).slots@ == old(
                arena,
            ).slots@.update(place.offset as int, spec_deserialize(reader@)),
            reader@.len() < 32 ==> r == Err::<(), ErrorCode>(
                ErrorCode::DecodingError { needed: 32, actual: reader@.len() as usize },
            ) && final(arena).slots@ == old(arena).slots@,
    {
        if reader.len() < 32 {
            return Err(ErrorCode::DecodingError { needed: 32, actual: reader.len() });
        }
        let st = AggregateCovarianceState {
            count: read_le_word(reader, 0),
            co_moments: read_le_word(reader, 8),
            left_mean: read_le_word(reader, 16),
            right_mean: read_le_word(reader, 24),
        };
        arena.slots[place.offset] = st;
        Ok(())
    }

    /// Merge the state at `rhs` into the state at `place`, leaving the
    /// latter the accumulator of the union of both row sets.
    pub fn merge(&self, arena: &mut StateArena, place: StateAddr, rhs: StateAddr) -> (r: Result<
        (),
        ErrorCode,
    >)
        requires
            place.offset < old(arena).slots@.len(),
            rhs.offset < old(arena).slots@.len(),
            old(arena).slots@[place.offset as int].count + old(arena).slots@[rhs.offset as int].count
                <= u64::MAX,
        ensures
            r == Ok::<(), ErrorCode>(()),
            final(arena).slots@ == old(arena).slots@.update(
                place.offset as int,
                spec_merge(
                    old(arena).slots@[place.offset as int],
                    old(arena).slots@[rhs.offset as int],
                ),
            ),
    {
        let other = arena.slots[rhs.offset];
        let mut st = arena.slots[place.offset];
        st.merge(&other);
        arena.slots[place.offset] = st;
        Ok(())
    }

    /// Extract the final scalar with the variant's finalization policy.
    pub fn merge_result(&self, arena: &StateArena, place: StateAddr) -> (r: Result<
        DataValue,
        ErrorCode,
    >)
        requires
            place.offset < arena.slots@.len(),
        ensures
            r == Ok::<DataValue, ErrorCode>(
                DataValue::Float64(R::apply_spec(arena.slots@[place.offset as int])),
            ),
    {
        let st = arena.get(place);
        match R::apply(&st) {
            Some(val) => Ok(DataValue::Float64(Some(val))),
            None => Ok(DataValue::Float64(None)),
        }
    }
}

/// Reject any argument list that is not exactly binary.
pub fn assert_binary_arguments(_display_name: &str, actual: usize) -> (r: Result<(), ErrorCode>)
    ensures
        actual == 2 ==> r == Ok::<(), ErrorCode>(()),
        actual != 2 ==> r == Err::<(), ErrorCode>(
            ErrorCode::NumberArgumentsNotMatch { expected: 2, actual },
        ),
{
    if actual == 2 {
        Ok(())
    } else {
        Err(ErrorCode::NumberArgumentsNotMatch { expected: 2, actual })
    }
}

/// Construct a covariance aggregate of variant `R` for two declared
/// argument fields: exactly two arguments, both of primitive numeric
/// type, are accepted; anything else fails with a descriptive error.
/// `_params` is unused by covariance and accepted for interface
/// uniformity.
pub fn try_create_aggregate_covariance<R: AggregateCovariance>(
    display_name: &str,
    _params: Vec<DataValue>,
    arguments: Vec<DataField>,
) -> (r: Result<AggregateCovarianceFunction<R>, ErrorCode>)
    ensures
        arguments@.len() != 2 ==> r == Err::<AggregateCovarianceFunction<R>, ErrorCode>(
            ErrorCode::NumberArgumentsNotMatch { expected: 2, actual: arguments@.len() as usize },
        ),
        arguments@.len() == 2 && !(arguments@[0].spec_data_type().spec_is_numeric()
            && arguments@[1].spec_data_type().spec_is_numeric()) ==> r == Err::<
            AggregateCovarianceFunction<R>,
            ErrorCode,
        >(
            ErrorCode::BadDataValueType {
                left: arguments@[0].spec_data_type(),
                right: arguments@[1].spec_data_type(),
            },
        ),
        arguments@.len() == 2 && arguments@[0].spec_data_type().spec_is_numeric()
            && arguments@[1].spec_data_type().spec_is_numeric() ==> (r matches Ok(f)
            && f.spec_display_name() == display_name@ && f.spec_arguments() == arguments@),
{
    match assert_binary_arguments(display_name, arguments.len()) {
        Ok(()) => {},
        Err(e) => {
            return Err(e);
        },
    }

    let data_type0 = arguments[0].data_type();
    let data_type1 = arguments[1].data_type();

    if data_type0.is_numeric() && data_type1.is_numeric() {
        AggregateCovarianceFunction::<R>::try_create(display_name, arguments)
    } else {
        Err(ErrorCode::BadDataValueType { left: data_type0, right: data_type1 })
    }
}

/// Which finalization variant a registered description constructs.
#[derive(Clone, Copy, Debug, PartialEq, Eq, Structural)]
pub enum CovarianceVariant {
    Sample,
    Population,
}

/// A factory-registration entry: maps to the constructor of one concrete
/// aggregate; created once at registration, immutable thereafter.
pub struct AggregateFunctionDescription {
    variant: CovarianceVariant,
}

/// A constructed aggregate instance, one per finalization variant.
pub enum AggregateFunctionInstance {
    Sample(AggregateCovarianceFunction<AggregateCovarianceSampleImpl>),
    Population(AggregateCovarianceFunction<AggregateCovariancePopulationImpl>),
}

impl AggregateFunctionDescription {
    pub closed spec fn spec_variant(&self) -> CovarianceVariant {
        self.variant
    }

    /// Run the registered constructor on a name and declared arguments.
    pub fn create(&self, display_name: &str, params: Vec<DataValue>, arguments: Vec<DataField>)
        -> (r: Result<AggregateFunctionInstance, ErrorCode>)
        ensures
            arguments@.len() != 2 ==> r == Err::<AggregateFunctionInstance, ErrorCode>(
                ErrorCode::NumberArgumentsNotMatch {
                    expected: 2,
                    actual: arguments@.len() as usize,
                },
            ),
            arguments@.len() == 2 && !(arguments@[0].spec_data_type().spec_is_numeric()
                && arguments@[1].spec_data_type().spec_is_numeric()) ==> r == Err::<
                AggregateFunctionInstance,
                ErrorCode,
            >(
                ErrorCode::BadDataValueType {
                    left: arguments@[0].spec_data_type(),
                    right: arguments@[1].spec_data_type(),
                },
            ),
            arguments@.len() == 2 && arguments@[0].spec_data_type().spec_is_numeric()
                && arguments@[1].spec_data_type().spec_is_numeric() ==> match r {
                Ok(AggregateFunctionInstance::Sample(f)) => self.spec_variant()
                    == CovarianceVariant::Sample && f.spec_display_name() == display_name@
                    && f.spec_arguments() == arguments@,
                Ok(AggregateFunctionInstance::Population(f)) => self.spec_variant()
                    == CovarianceVariant::Population && f.spec_display_name() == display_name@
                    && f.spec_arguments() == arguments@,
                Err(_) => false,
            },
    {
        match self.variant {
            CovarianceVariant::Sample => {
                match try_create_aggregate_covariance::<AggregateCovarianceSampleImpl>(
                    display_name,
                    params,
                    arguments,
                ) {
                    Ok(f) => Ok(AggregateFunctionInstance::Sample(f)),
                    Err(e) => Err(e),
                }
            },
            CovarianceVariant::Population => {
                match try_create_aggregate_covariance::<AggregateCovariancePopulationImpl>(
                    display_name,
                    params,
                    arguments,
                ) {
                    Ok(f) => Ok(AggregateFunctionInstance::Population(f)),
                    Err(e) => Err(e),
                }
            },
        }
    }
}

/// The registration entry of the sample-covariance aggregate.
pub fn aggregate_covariance_sample_desc() -> (r: AggregateFunctionDescription)
    ensures
        r.spec_variant() == CovarianceVariant::Sample,
{
    AggregateFunctionDescription { variant: CovarianceVariant::Sample }
}

/// The registration entry of the population-covariance aggregate.
pub fn aggregate_covariance_population_desc() -> (r: AggregateFunctionDescription)
    ensures
        r.spec_variant() == CovarianceVariant::Population,
{
    AggregateFunctionDescription { variant: CovarianceVariant::Population }
}

} // verus!
