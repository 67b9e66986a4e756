use dual_game::scoring::ScoringCalculator;

#[test]
fn test_difference() {
    assert_eq!(ScoringCalculator::difference(15, 95), 20);
    assert_eq!(ScoringCalculator::difference(50, 50), 0);
}

#[test]
fn test_calculate_average() {
    let scores = vec![45, 130, 130, 55, 65];
    // (45+130+130+55+65) = 425, 425/5 = 85
    let avg = ScoringCalculator::calculate_average(&scores);
    assert_eq!(avg, 85);
}

#[test]
fn average_rounds_up() {
    assert_eq!(ScoringCalculator::calculate_average(&[1, 2]), 2);
    assert_eq!(ScoringCalculator::calculate_average(&[10, 10, 11]), 11);
    assert_eq!(ScoringCalculator::calculate_average(&[7]), 7);
    assert_eq!(ScoringCalculator::calculate_average(&[0, 0, 0]), 0);
}

#[test]
fn average_of_largest_scores_does_not_overflow() {
    assert_eq!(ScoringCalculator::calculate_average(&[u32::MAX, u32::MAX, u32::MAX]), u32::MAX);
    assert_eq!(ScoringCalculator::calculate_average(&[u32::MAX, 0]), u32::MAX / 2 + 1);
}

#[test]
fn wrap_distance_is_symmetric_and_at_most_half() {
    for target in 0..100u32 {
        for value in 0..100u32 {
            let d = ScoringCalculator::wrap_distance(target, value, 100);
            assert_eq!(d, ScoringCalculator::wrap_distance(value, target, 100));
            assert!(d <= 50);
        }
    }
}

#[test]
fn wrap_distance_on_other_cycles() {
    assert_eq!(ScoringCalculator::wrap_distance(0, 100, 101), 1);
    assert_eq!(ScoringCalculator::wrap_distance(0, 100, 100), 0);
    assert_eq!(ScoringCalculator::wrap_distance(3, 7, 10), 4);
    assert_eq!(ScoringCalculator::wrap_distance(2, 9, 10), 3);
    assert_eq!(ScoringCalculator::difference(0, 50), 50);
    assert_eq!(ScoringCalculator::difference(0, 51), 49);
    assert_eq!(ScoringCalculator::difference(100, 0), 0);
}

#[test]
fn tier_table_boundaries() {
    let expected = [
        (0, 100),
        (1, 80),
        (5, 80),
        (6, 60),
        (10, 60),
        (11, 40),
        (20, 40),
        (21, 20),
        (50, 20),
        (51, 0),
        (u32::MAX, 0),
    ];
    for (distance, base) in expected {
        assert_eq!(ScoringCalculator::tier_base(distance), base);
    }
    let mut previous = ScoringCalculator::tier_base(0);
    for distance in 1..200u32 {
        let base = ScoringCalculator::tier_base(distance);
        assert!(base <= previous);
        previous = base;
    }
}

#[test]
fn score_of_perfect_stop() {
    assert_eq!(ScoringCalculator::calculate_score(0, 0, 0, 50), 150);
}

#[test]
fn score_with_distance_thirty_and_two_misses() {
    assert_eq!(ScoringCalculator::calculate_score(0, 30, 2, 50), 23);
    assert_eq!(ScoringCalculator::calculate_score(40, 10, 2, 50), 23);
}

#[test]
fn score_across_the_wrap() {
    // distance 20 across zero: tier 40
    assert_eq!(ScoringCalculator::calculate_score(15, 95, 0, 50), 90);
    assert_eq!(ScoringCalculator::calculate_score(15, 95, 1, 50), 45);
}

#[test]
fn score_with_many_misses_and_largest_strength() {
    assert_eq!(ScoringCalculator::calculate_score(50, 50, u32::MAX, 10), 0);
    assert_eq!(ScoringCalculator::calculate_score(50, 50, 0, u32::MAX - 100), u32::MAX);
}
