use feel_it_still::workload::Range;

#[test]
fn sequential_yields_the_first_n_values() {
    let range = Range { min: 100000, max: 1000000, n: 10 };
    let values = range.gen_sequential();
    let expected: Vec<u64> = (100000..100010).collect();
    assert_eq!(values, expected);
}

#[test]
fn sequential_clamps_to_the_range() {
    let range = Range { min: 5, max: 8, n: 10 };
    assert_eq!(range.gen_sequential(), vec![5, 6, 7]);
}

#[test]
fn sequential_empty_range_yields_nothing() {
    let range = Range { min: 8, max: 8, n: 10 };
    assert_eq!(range.gen_sequential(), Vec::<u64>::new());
    let backwards = Range { min: 9, max: 3, n: 4 };
    assert_eq!(backwards.gen_sequential(), Vec::<u64>::new());
}

#[test]
fn sequential_zero_count_yields_nothing() {
    let range = Range { min: 5, max: 100, n: 0 };
    assert_eq!(range.gen_sequential(), Vec::<u64>::new());
}

#[test]
fn random_respects_count_and_bounds() {
    let range = Range { min: 10, max: 20, n: 100 };
    let values = range.gen_random();
    assert_eq!(values.len(), 100);
    for v in values {
        assert!((10..20).contains(&v));
    }
}

#[test]
fn random_single_value_range_is_constant() {
    let range = Range { min: 5, max: 6, n: 25 };
    let values = range.gen_random();
    assert_eq!(values, vec![5; 25]);
}
