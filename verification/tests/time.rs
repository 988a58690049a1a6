use gcra::{Nanos, Quota, Reference};

const SECOND: u64 = 1_000_000_000;

#[test]
fn nanos_keeps_the_number_it_was_made_of() {
    assert_eq!(Nanos::new(0).as_u64(), 0);
    assert_eq!(Nanos::new(17).as_u64(), 17);
    assert_eq!(Nanos::new(u64::MAX).as_u64(), u64::MAX);
}

#[test]
fn nanos_are_ordered_by_their_length() {
    assert!(Nanos::new(1) < Nanos::new(2));
    assert!(Nanos::new(2) > Nanos::new(1));
    assert_eq!(Nanos::new(3), Nanos::new(3));
    assert_ne!(Nanos::new(3), Nanos::new(4));
}

#[test]
fn nanos_addition_is_exact_where_the_sum_fits() {
    assert_eq!(Nanos::new(2).saturating_add(Nanos::new(3)), Nanos::new(5));
    assert_eq!(Nanos::new(0).saturating_add(Nanos::new(0)), Nanos::new(0));
    assert_eq!(
        Nanos::new(u64::MAX - 1).saturating_add(Nanos::new(1)),
        Nanos::new(u64::MAX)
    );
}

#[test]
fn nanos_addition_stops_at_the_longest_span() {
    assert_eq!(
        Nanos::new(u64::MAX).saturating_add(Nanos::new(1)),
        Nanos::new(u64::MAX)
    );
    assert_eq!(
        Nanos::new(u64::MAX - 5).saturating_add(Nanos::new(6)),
        Nanos::new(u64::MAX)
    );
}

#[test]
fn nanos_subtraction_is_exact_where_the_difference_is_positive() {
    assert_eq!(Nanos::new(5).saturating_sub(Nanos::new(3)), Nanos::new(2));
    assert_eq!(
        Nanos::new(u64::MAX).saturating_sub(Nanos::new(1)),
        Nanos::new(u64::MAX - 1)
    );
}

#[test]
fn nanos_subtraction_stops_at_zero() {
    assert_eq!(Nanos::new(3).saturating_sub(Nanos::new(3)), Nanos::new(0));
    assert_eq!(Nanos::new(3).saturating_sub(Nanos::new(5)), Nanos::new(0));
    assert_eq!(Nanos::new(0).saturating_sub(Nanos::new(u64::MAX)), Nanos::new(0));
}

#[test]
fn nanos_as_a_point_in_time_measures_what_has_passed() {
    let earlier = Nanos::new(2 * SECOND);
    let later = Nanos::new(5 * SECOND);
    assert_eq!(later.duration_since(earlier), Nanos::new(3 * SECOND));
    assert_eq!(earlier.duration_since(later), Nanos::new(0));
    assert_eq!(earlier.duration_since(earlier), Nanos::new(0));
}

#[test]
fn nanos_as_a_point_in_time_moves_forward_up_to_the_horizon() {
    let point = Nanos::new(2 * SECOND);
    assert_eq!(
        Reference::saturating_add(&point, Nanos::new(SECOND)),
        Nanos::new(3 * SECOND)
    );
    assert_eq!(
        Reference::saturating_add(&Nanos::new(u64::MAX - 1), Nanos::new(SECOND)),
        Nanos::new(u64::MAX)
    );
}

#[test]
fn nanos_are_shown_as_a_duration() {
    assert_eq!(Nanos::new(SECOND).render(), "Nanos(1s)");
    assert_eq!(Nanos::new(1_500_000_000).render(), "Nanos(1.5s)");
    assert_eq!(Nanos::new(0).render(), "Nanos(0ns)");
    assert_eq!(Nanos::new(250_000_000).render(), "Nanos(250ms)");
    assert_eq!(Nanos::new(17).render(), "Nanos(17ns)");
}

#[test]
fn quota_holds_what_it_was_made_of() {
    let quota = Quota::new(Nanos::new(SECOND), 5).unwrap();
    assert_eq!(quota.replenish_interval(), Nanos::new(SECOND));
    assert_eq!(quota.burst_size(), 5);
}

#[test]
fn quota_needs_an_interval() {
    assert_eq!(Quota::new(Nanos::new(0), 5), None);
}

#[test]
fn quota_needs_a_cell_to_burst() {
    assert_eq!(Quota::new(Nanos::new(SECOND), 0), None);
}

#[test]
fn quota_needs_a_burst_that_is_a_time_value() {
    // 2^63 ns, twice, is one more than the longest span.
    assert_eq!(Quota::new(Nanos::new(1 << 63), 2), None);
    assert!(Quota::new(Nanos::new((1 << 63) - 1), 2).is_some());
    assert!(Quota::new(Nanos::new(u64::MAX), 1).is_some());
    assert_eq!(Quota::new(Nanos::new(u64::MAX), 2), None);
    assert!(Quota::new(Nanos::new(u64::MAX / u32::MAX as u64), u32::MAX).is_some());
    assert_eq!(
        Quota::new(Nanos::new(u64::MAX / u32::MAX as u64 + 1), u32::MAX),
        None
    );
}

#[test]
fn quota_per_second_divides_the_second() {
    let one = Quota::per_second(1).unwrap();
    assert_eq!(one.replenish_interval(), Nanos::new(SECOND));
    assert_eq!(one.burst_size(), 1);

    let two = Quota::per_second(2).unwrap();
    assert_eq!(two.replenish_interval(), Nanos::new(500_000_000));
    assert_eq!(two.burst_size(), 2);

    let three = Quota::per_second(3).unwrap();
    assert_eq!(three.replenish_interval(), Nanos::new(333_333_333));
    assert_eq!(three.burst_size(), 3);

    let most = Quota::per_second(1_000_000_000).unwrap();
    assert_eq!(most.replenish_interval(), Nanos::new(1));
    assert_eq!(most.burst_size(), 1_000_000_000);
}

#[test]
fn quota_per_second_needs_between_one_cell_and_one_per_nanosecond() {
    assert_eq!(Quota::per_second(0), None);
    assert_eq!(Quota::per_second(1_000_000_001), None);
    assert_eq!(Quota::per_second(u32::MAX), None);
}
