use squant::clock::{calc_elapsed, elapsed_between};

#[test]
fn elapsed_is_distance_either_way() {
    assert_eq!(elapsed_between(1500, 1000), 500);
    assert_eq!(elapsed_between(1000, 1500), 500);
    assert_eq!(elapsed_between(7, 7), 0);
    assert_eq!(elapsed_between(0, u128::MAX), u128::MAX);
}

#[test]
fn elapsed_since_epoch_start() {
    let e = calc_elapsed(0).unwrap();
    assert!(e > 1_600_000_000_000);
}
