use gpu_skinning::weights::{normalize, WEIGHT_ONE, WEIGHT_TOLERANCE};

#[test]
fn one_is_a_million_and_the_tolerance_a_ten_thousandth() {
    assert_eq!(WEIGHT_ONE, 1_000_000);
    assert_eq!(WEIGHT_TOLERANCE as f64 / WEIGHT_ONE as f64, 1e-4);
}

#[test]
fn normalize_leaves_sums_within_the_tolerance_alone() {
    assert_eq!(normalize([WEIGHT_ONE, 0, 0, 0]), [WEIGHT_ONE, 0, 0, 0]);
    assert_eq!(normalize([250_000, 250_000, 250_000, 250_000]), [250_000, 250_000, 250_000, 250_000]);
    assert_eq!(normalize([999_900, 0, 0, 0]), [999_900, 0, 0, 0]);
    assert_eq!(normalize([0, 1_000_100, 0, 0]), [0, 1_000_100, 0, 0]);
    assert_eq!(normalize([1, 2, 3, 999_994]), [1, 2, 3, 999_994]);
}

#[test]
fn normalize_divides_other_sums_by_themselves() {
    assert_eq!(normalize([999_899, 0, 0, 0]), [WEIGHT_ONE, 0, 0, 0]);
    assert_eq!(normalize([0, 0, 1_000_101, 0]), [0, 0, WEIGHT_ONE, 0]);
    assert_eq!(normalize([1, 1, 0, 0]), [500_000, 500_000, 0, 0]);
    assert_eq!(normalize([1, 2, 3, 4]), [100_000, 200_000, 300_000, 400_000]);
    assert_eq!(normalize([1, 1, 1, 0]), [333_333, 333_333, 333_333, 0]);
    assert_eq!(normalize([2_000_000, 1_000_000, 1_000_000, 0]), [500_000, 250_000, 250_000, 0]);
    assert_eq!(
        normalize([u32::MAX, u32::MAX, u32::MAX, u32::MAX]),
        [250_000, 250_000, 250_000, 250_000]
    );
    assert_eq!(normalize([u32::MAX, 1, 0, 0]), [999_999, 0, 0, 0]);
}

#[test]
fn normalize_gives_all_to_the_first_where_there_is_no_weight() {
    assert_eq!(normalize([0, 0, 0, 0]), [WEIGHT_ONE, 0, 0, 0]);
}

#[test]
fn normalized_weights_always_sum_to_one_within_the_tolerance() {
    let samples = [0u32, 1, 2, 3, 7, 99, 100, 101, 333_333, 499_950, 500_000, 999_899, 999_900,
        1_000_000, 1_000_100, 1_000_101, 123_456_789, u32::MAX - 1, u32::MAX];
    for a in samples {
        for b in samples {
            for c in [0u32, 1, 500_000, u32::MAX] {
                for d in [0u32, 3, 999_900] {
                    let sum: u64 = normalize([a, b, c, d]).iter().map(|w| *w as u64).sum();
                    assert!(
                        (WEIGHT_ONE - WEIGHT_TOLERANCE) as u64 <= sum
                            && sum <= (WEIGHT_ONE + WEIGHT_TOLERANCE) as u64,
                        "{a} {b} {c} {d}: {sum}"
                    );
                }
            }
        }
    }
}
