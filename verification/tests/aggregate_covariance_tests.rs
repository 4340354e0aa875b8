use aggregate_engine::aggregate_covariance::try_create_aggregate_covariance;
use aggregate_engine::aggregate_covariance::AggregateCovarianceFunction;
use aggregate_engine::aggregate_covariance::AggregateCovariancePopulationImpl;
use aggregate_engine::aggregate_covariance::AggregateCovarianceSampleImpl;
use aggregate_engine::AggregateCovarianceState;
use aggregate_engine::DataField;
use aggregate_engine::DataType;
use aggregate_engine::DataValue;
use aggregate_engine::ErrorCode;
use aggregate_engine::Series;
use aggregate_engine::StateAddr;
use aggregate_engine::StateArena;

fn field(name: &str, dt: DataType) -> DataField {
    DataField::new(name.to_string(), dt)
}

fn sample_fn(name: &str) -> AggregateCovarianceFunction<AggregateCovarianceSampleImpl> {
    try_create_aggregate_covariance::<AggregateCovarianceSampleImpl>(
        name,
        vec![],
        vec![field("a", DataType::Float64), field("b", DataType::Float64)],
    )
    .unwrap()
}

fn population_fn(name: &str) -> AggregateCovarianceFunction<AggregateCovariancePopulationImpl> {
    try_create_aggregate_covariance::<AggregateCovariancePopulationImpl>(
        name,
        vec![],
        vec![field("a", DataType::Float64), field("b", DataType::Float64)],
    )
    .unwrap()
}

fn col(vals: &[f64]) -> Series {
    Series::from_values(vals.iter().map(|v| v.to_bits()).collect())
}

fn col_opt(vals: &[Option<f64>]) -> Series {
    Series::from_options(vals.iter().map(|v| v.map(f64::to_bits)).collect())
}

fn extract_f64(r: Result<DataValue, ErrorCode>) -> f64 {
    match r.unwrap() {
        DataValue::Float64(Some(bits)) => f64::from_bits(bits),
        other => panic!("expected a non-null Float64 result, got {:?}", other),
    }
}

/// The streaming update written in native hardware floats, used to check
/// that the library's software arithmetic matches the hardware bit for bit.
#[derive(Clone, Copy)]
struct NativeState {
    count: u64,
    co_moments: f64,
    left_mean: f64,
    right_mean: f64,
}

fn native_add(st: &mut NativeState, s: f64, t: f64) {
    let left_delta = s - st.left_mean;
    let right_delta = t - st.right_mean;
    st.count += 1;
    let new_left_mean = st.left_mean + left_delta / st.count as f64;
    let new_right_mean = st.right_mean + right_delta / st.count as f64;
    st.co_moments += (s - new_left_mean) * (t - st.right_mean);
    st.left_mean = new_left_mean;
    st.right_mean = new_right_mean;
}

fn accumulate_pairs(
    f: &AggregateCovarianceFunction<AggregateCovarianceSampleImpl>,
    arena: &mut StateArena,
    place: StateAddr,
    rows: &[(f64, f64)],
) {
    let left: Vec<f64> = rows.iter().map(|r| r.0).collect();
    let right: Vec<f64> = rows.iter().map(|r| r.1).collect();
    let arrays = vec![col(&left), col(&right)];
    f.accumulate(arena, place, &arrays, rows.len()).unwrap();
}

#[test]
fn test_add_matches_native_hardware_floats() {
    let f = sample_fn("covar_samp");
    let mut arena = StateArena::with_slots(1);
    let place = StateAddr::new(0);
    f.init_state(&mut arena, place);

    let rows = [(1.5, -2.25), (3.0, 4.5), (-7.125, 0.5), (2.5e10, -3.75e-3), (0.1, 0.2)];
    accumulate_pairs(&f, &mut arena, place, &rows);

    let mut native = NativeState { count: 0, co_moments: 0.0, left_mean: 0.0, right_mean: 0.0 };
    for (s, t) in rows {
        native_add(&mut native, s, t);
    }

    let st = arena.get(place);
    assert_eq!(st.count, native.count);
    assert_eq!(st.co_moments, native.co_moments.to_bits());
    assert_eq!(st.left_mean, native.left_mean.to_bits());
    assert_eq!(st.right_mean, native.right_mean.to_bits());
}

#[test]
fn test_concrete_scenario_single_pass_and_split_merge() {
    // Rows (1,2), (2,1), (3,4): one pass over all three, and the split
    // {(1,2)} / {(2,1),(3,4)} merged, must agree on the co-moment within
    // tolerance, and the sample result must be co_moments / 2 both ways.
    let f = sample_fn("covar_samp");
    let mut arena = StateArena::with_slots(3);
    let whole = StateAddr::new(0);
    let part1 = StateAddr::new(1);
    let part2 = StateAddr::new(2);
    f.init_state(&mut arena, whole);
    f.init_state(&mut arena, part1);
    f.init_state(&mut arena, part2);

    accumulate_pairs(&f, &mut arena, whole, &[(1.0, 2.0), (2.0, 1.0), (3.0, 4.0)]);
    accumulate_pairs(&f, &mut arena, part1, &[(1.0, 2.0)]);
    accumulate_pairs(&f, &mut arena, part2, &[(2.0, 1.0), (3.0, 4.0)]);
    f.merge(&mut arena, part1, part2).unwrap();

    let single = arena.get(whole);
    let merged = arena.get(part1);
    assert_eq!(single.count, 3);
    assert_eq!(merged.count, 3);

    let single_co = f64::from_bits(single.co_moments);
    let merged_co = f64::from_bits(merged.co_moments);
    assert!((single_co - merged_co).abs() <= 1e-9 * single_co.abs());

    let single_result = extract_f64(f.merge_result(&arena, whole));
    let merged_result = extract_f64(f.merge_result(&arena, part1));
    assert_eq!(single_result, single_co / 2.0);
    assert_eq!(merged_result, merged_co / 2.0);
    assert!((single_result - merged_result).abs() <= 1e-9 * single_result.abs());
}

#[test]
fn test_split_merge_equivalence_many_rows() {
    // A deterministic batch of 300 rows, split into three parts,
    // accumulated independently and merged in a different order, agrees
    // with the single pass within relative tolerance.
    let mut rows: Vec<(f64, f64)> = Vec::new();
    for i in 0..300u32 {
        let x = (i as f64) * 0.37 - 55.0 + ((i * i % 97) as f64) * 0.011;
        let y = 14.25 - (i as f64) * 0.21 + ((i * 7 % 31) as f64) * 0.43;
        rows.push((x, y));
    }

    let f = sample_fn("covar_samp");
    let mut arena = StateArena::with_slots(4);
    for i in 0..4 {
        f.init_state(&mut arena, StateAddr::new(i));
    }
    let whole = StateAddr::new(0);
    accumulate_pairs(&f, &mut arena, whole, &rows);
    accumulate_pairs(&f, &mut arena, StateAddr::new(1), &rows[0..100]);
    accumulate_pairs(&f, &mut arena, StateAddr::new(2), &rows[100..250]);
    accumulate_pairs(&f, &mut arena, StateAddr::new(3), &rows[250..300]);

    // Merge in an order other than the split order.
    f.merge(&mut arena, StateAddr::new(2), StateAddr::new(3)).unwrap();
    f.merge(&mut arena, StateAddr::new(2), StateAddr::new(1)).unwrap();

    let merged = arena.get(StateAddr::new(2));
    assert_eq!(merged.count, 300);
    let single_result = extract_f64(f.merge_result(&arena, whole));
    let merged_result = extract_f64(f.merge_result(&arena, StateAddr::new(2)));
    assert!((single_result - merged_result).abs() <= 1e-9 * single_result.abs());
}

#[test]
fn test_all_null_batch_is_a_no_op() {
    let f = sample_fn("covar_samp");
    let mut arena = StateArena::with_slots(1);
    let place = StateAddr::new(0);
    f.init_state(&mut arena, place);
    accumulate_pairs(&f, &mut arena, place, &[(1.0, 2.0), (5.0, -1.0)]);
    let before = arena.get(place);

    // Every row has a null left value: the batch must leave the state alone.
    let arrays = vec![col_opt(&[None, None, None]), col(&[7.0, 8.0, 9.0])];
    f.accumulate(&mut arena, place, &arrays, 3).unwrap();
    let after = arena.get(place);
    assert_eq!(after, before);
    assert_eq!(after.count, 2);

    // Same with every right value null.
    let arrays = vec![col(&[7.0, 8.0, 9.0]), col_opt(&[None, None, None])];
    f.accumulate(&mut arena, place, &arrays, 3).unwrap();
    assert_eq!(arena.get(place), before);
}

#[test]
fn test_mixed_null_rows_update_only_present_pairs() {
    let f = sample_fn("covar_samp");
    let mut arena = StateArena::with_slots(2);
    let mixed = StateAddr::new(0);
    let dense = StateAddr::new(1);
    f.init_state(&mut arena, mixed);
    f.init_state(&mut arena, dense);

    // Rows 0 and 3 have both values; rows 1 and 2 have a null on one side.
    let arrays = vec![
        col_opt(&[Some(1.0), None, Some(4.0), Some(3.0)]),
        col_opt(&[Some(2.0), Some(9.0), None, Some(4.0)]),
    ];
    f.accumulate(&mut arena, mixed, &arrays, 4).unwrap();

    accumulate_pairs(&f, &mut arena, dense, &[(1.0, 2.0), (3.0, 4.0)]);
    assert_eq!(arena.get(mixed).count, 2);
    assert_eq!(arena.get(mixed), arena.get(dense));
}

#[test]
fn test_accumulate_keys_routes_rows_to_groups() {
    let f = sample_fn("covar_samp");
    // Two groups, each group slot holding two aggregates: the covariance
    // state of each group sits one slot past the group's base address.
    let mut arena = StateArena::with_slots(4);
    let offset = 1;
    let group0 = StateAddr::new(0);
    let group1 = StateAddr::new(2);
    f.init_state(&mut arena, group0.next(offset));
    f.init_state(&mut arena, group1.next(offset));

    let places = vec![group0, group1, group0, group1];
    let arrays = vec![
        col_opt(&[Some(1.0), Some(10.0), Some(3.0), None]),
        col_opt(&[Some(2.0), Some(20.0), Some(4.0), Some(40.0)]),
    ];
    f.accumulate_keys(&mut arena, &places, offset, &arrays, 4).unwrap();

    // Group 0 saw rows (1,2) and (3,4); group 1 saw only (10,20) because
    // its second row had a null left value.
    let mut check = StateArena::with_slots(2);
    f.init_state(&mut check, StateAddr::new(0));
    f.init_state(&mut check, StateAddr::new(1));
    accumulate_pairs(&f, &mut check, StateAddr::new(0), &[(1.0, 2.0), (3.0, 4.0)]);
    accumulate_pairs(&f, &mut check, StateAddr::new(1), &[(10.0, 20.0)]);
    assert_eq!(arena.get(group0.next(offset)), check.get(StateAddr::new(0)));
    assert_eq!(arena.get(group1.next(offset)), check.get(StateAddr::new(1)));
}

#[test]
fn test_serialize_roundtrip_bit_for_bit() {
    let f = sample_fn("covar_samp");
    for count in [0u64, 1, 2, 1_000_000] {
        let st = AggregateCovarianceState {
            count,
            co_moments: (1234.5678e-9_f64).to_bits(),
            left_mean: (-0.0_f64).to_bits(),
            right_mean: f64::NAN.to_bits(),
        };
        let mut arena = StateArena::with_slots(2);
        arena.slots[0] = st;

        let mut bytes: Vec<u8> = Vec::new();
        f.serialize(&arena, StateAddr::new(0), &mut bytes).unwrap();
        assert_eq!(bytes.len(), 32);
        f.deserialize(&mut arena, StateAddr::new(1), &bytes).unwrap();
        assert_eq!(arena.get(StateAddr::new(1)), st);
    }
}

#[test]
fn test_serialized_wire_format_is_little_endian() {
    let f = sample_fn("covar_samp");
    let mut arena = StateArena::with_slots(1);
    arena.slots[0] = AggregateCovarianceState {
        count: 0x0102030405060708,
        co_moments: (1.0_f64).to_bits(),
        left_mean: (2.0_f64).to_bits(),
        right_mean: (-3.5_f64).to_bits(),
    };
    let mut bytes: Vec<u8> = Vec::new();
    f.serialize(&arena, StateAddr::new(0), &mut bytes).unwrap();

    let mut expected: Vec<u8> = Vec::new();
    expected.extend_from_slice(&0x0102030405060708u64.to_le_bytes());
    expected.extend_from_slice(&1.0_f64.to_le_bytes());
    expected.extend_from_slice(&2.0_f64.to_le_bytes());
    expected.extend_from_slice(&(-3.5_f64).to_le_bytes());
    assert_eq!(bytes, expected);
}

#[test]
fn test_deserialize_rejects_truncated_input() {
    let f = sample_fn("covar_samp");
    let mut arena = StateArena::with_slots(1);
    let before = arena.get(StateAddr::new(0));
    let bytes: Vec<u8> = vec![0u8; 31];
    let r = f.deserialize(&mut arena, StateAddr::new(0), &bytes);
    assert_eq!(r, Err(ErrorCode::DecodingError { needed: 32, actual: 31 }));
    assert_eq!(arena.get(StateAddr::new(0)), before);
}

#[test]
fn test_sample_sentinel_for_counts_zero_and_one() {
    let f = sample_fn("covar_samp");
    let mut arena = StateArena::with_slots(1);
    let place = StateAddr::new(0);
    f.init_state(&mut arena, place);
    assert_eq!(extract_f64(f.merge_result(&arena, place)), f64::INFINITY);

    accumulate_pairs(&f, &mut arena, place, &[(5.0, 6.0)]);
    assert_eq!(arena.get(place).count, 1);
    assert_eq!(extract_f64(f.merge_result(&arena, place)), f64::INFINITY);
}

#[test]
fn test_population_sentinels() {
    let f = population_fn("covar_pop");
    let mut arena = StateArena::with_slots(1);
    let place = StateAddr::new(0);
    f.init_state(&mut arena, place);
    assert_eq!(extract_f64(f.merge_result(&arena, place)), f64::INFINITY);

    let arrays = vec![col(&[5.0]), col(&[6.0])];
    f.accumulate(&mut arena, place, &arrays, 1).unwrap();
    assert_eq!(arena.get(place).count, 1);
    assert_eq!(extract_f64(f.merge_result(&arena, place)), 0.0);

    let arrays = vec![col(&[1.0, 3.0]), col(&[2.0, 8.0])];
    f.init_state(&mut arena, place);
    f.accumulate(&mut arena, place, &arrays, 2).unwrap();
    // Population covariance of (1,2),(3,8): means (2,5), co-moment 6, over count 2.
    assert_eq!(extract_f64(f.merge_result(&arena, place)), 3.0);
}

#[test]
fn test_sample_result_divides_by_count_minus_one() {
    let f = sample_fn("covar_samp");
    let mut arena = StateArena::with_slots(1);
    let place = StateAddr::new(0);
    f.init_state(&mut arena, place);
    accumulate_pairs(&f, &mut arena, place, &[(1.0, 2.0), (3.0, 8.0)]);
    // Sample covariance of (1,2),(3,8): co-moment 6, over count - 1 = 1.
    assert_eq!(extract_f64(f.merge_result(&arena, place)), 6.0);
}

#[test]
fn test_merge_with_empty_operand_preserves_the_state() {
    let f = sample_fn("covar_samp");
    let mut arena = StateArena::with_slots(2);
    let full = StateAddr::new(0);
    let empty = StateAddr::new(1);
    f.init_state(&mut arena, full);
    f.init_state(&mut arena, empty);
    accumulate_pairs(&f, &mut arena, full, &[(1.0, 2.0), (2.0, 1.0), (3.0, 4.0)]);

    let before = arena.get(full);
    let result_before = extract_f64(f.merge_result(&arena, full));
    f.merge(&mut arena, full, empty).unwrap();
    let after = arena.get(full);
    assert_eq!(after.count, before.count);
    let result_after = extract_f64(f.merge_result(&arena, full));
    assert!((result_after - result_before).abs() <= 1e-12 * result_before.abs());

    // An empty destination merged with an empty source stays the zero state.
    let mut arena2 = StateArena::with_slots(2);
    f.init_state(&mut arena2, full);
    f.init_state(&mut arena2, empty);
    f.merge(&mut arena2, full, empty).unwrap();
    assert_eq!(arena2.get(full), AggregateCovarianceState::new());
}

#[test]
fn test_unequal_column_lengths_zip_to_the_shorter() {
    let f = sample_fn("covar_samp");
    let mut arena = StateArena::with_slots(2);
    let short = StateAddr::new(0);
    let check = StateAddr::new(1);
    f.init_state(&mut arena, short);
    f.init_state(&mut arena, check);

    let arrays = vec![col(&[1.0, 3.0, 99.0]), col(&[2.0, 8.0])];
    f.accumulate(&mut arena, short, &arrays, 3).unwrap();
    accumulate_pairs(&f, &mut arena, check, &[(1.0, 2.0), (3.0, 8.0)]);
    assert_eq!(arena.get(short).count, 2);
    assert_eq!(arena.get(short), arena.get(check));
}

#[test]
fn test_deserialize_reads_only_the_leading_encoding() {
    let f = sample_fn("covar_samp");
    let mut arena = StateArena::with_slots(2);
    arena.slots[0] = AggregateCovarianceState {
        count: 42,
        co_moments: (6.5_f64).to_bits(),
        left_mean: (1.25_f64).to_bits(),
        right_mean: (2.5_f64).to_bits(),
    };
    let mut bytes: Vec<u8> = Vec::new();
    f.serialize(&arena, StateAddr::new(0), &mut bytes).unwrap();
    bytes.extend_from_slice(&[0xAB; 7]);
    f.deserialize(&mut arena, StateAddr::new(1), &bytes).unwrap();
    assert_eq!(arena.get(StateAddr::new(1)), arena.get(StateAddr::new(0)));
}

#[test]
fn test_series_counts_nulls_and_rows() {
    let s = col_opt(&[Some(1.0), None, Some(2.0), None, None]);
    assert_eq!(s.len(), 5);
    assert_eq!(s.null_count(), 3);
    let dense = col(&[1.0, 2.0]);
    assert_eq!(dense.len(), 2);
    assert_eq!(dense.null_count(), 0);
}
