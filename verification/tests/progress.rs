use scale_trainer::progress::Progress;

fn parts(progress: Progress) -> (u64, u64) {
    (progress.numerator(), progress.denominator())
}

#[test]
fn ratio_inside_the_range_is_kept() {
    assert_eq!(parts(Progress::ratio(1, 3)), (1, 3));
    assert_eq!(parts(Progress::ratio(2, 4)), (2, 4));
}

#[test]
fn ratio_below_zero_is_zero() {
    assert_eq!(parts(Progress::ratio(-3, 3)), (0, 3));
}

#[test]
fn ratio_above_one_is_one() {
    assert_eq!(parts(Progress::ratio(7, 3)), (3, 3));
}

#[test]
fn ratio_at_the_ends() {
    assert_eq!(parts(Progress::ratio(0, 5)), (0, 5));
    assert_eq!(parts(Progress::ratio(5, 5)), (5, 5));
}

#[test]
fn ratio_over_nothing_is_complete() {
    assert_eq!(parts(Progress::ratio(0, 0)), (1, 1));
    assert_eq!(parts(Progress::ratio(-4, 0)), (1, 1));
    assert_eq!(parts(Progress::ratio(4, 0)), (1, 1));
}

#[test]
fn ratio_over_a_negative_whole_flips_both_signs() {
    assert_eq!(parts(Progress::ratio(-1, -3)), (1, 3));
    assert_eq!(parts(Progress::ratio(-5, -3)), (3, 3));
    assert_eq!(parts(Progress::ratio(0, -3)), (0, 3));
    assert_eq!(parts(Progress::ratio(2, -3)), (0, 3));
}

#[test]
fn ratio_at_the_limits_of_the_machine() {
    assert_eq!(parts(Progress::ratio(i64::MAX, i64::MAX)), (i64::MAX as u64, i64::MAX as u64));
    assert_eq!(parts(Progress::ratio(i64::MIN, i64::MIN)), (1u64 << 63, 1u64 << 63));
    assert_eq!(parts(Progress::ratio(-1, i64::MIN)), (1, 1u64 << 63));
    assert_eq!(parts(Progress::ratio(i64::MIN, -1)), (1, 1));
    assert_eq!(parts(Progress::ratio(i64::MIN, 1)), (0, 1));
    assert_eq!(parts(Progress::ratio(i64::MAX, 1)), (1, 1));
}

#[test]
fn ratio_is_between_zero_and_one_on_a_grid() {
    for part in -6i64..=6 {
        for whole in -6i64..=6 {
            let progress = Progress::ratio(part, whole);
            assert!(progress.denominator() > 0);
            assert!(progress.numerator() <= progress.denominator());
        }
    }
}

#[test]
fn ratio_does_not_fall_when_the_part_grows() {
    for whole in 1i64..=6 {
        for part in -3i64..=8 {
            let low = Progress::ratio(part, whole);
            let high = Progress::ratio(part + 1, whole);
            assert!(
                low.numerator() * high.denominator() <= high.numerator() * low.denominator()
            );
        }
    }
}

#[test]
fn progress_as_a_float() {
    let progress = Progress::ratio(1, 4);
    let value: f64 = progress.numerator() as f64 / progress.denominator() as f64;
    assert_eq!(value, 0.25);
}
