use pingpong::models::Side;
use pingpong::win::check_win_condition;

#[test]
fn win_requires_threshold_and_lead_of_two() {
    // At the threshold with a lead of one: nobody has won yet.
    assert_eq!(check_win_condition(11, 10, 11, false), None);
    assert_eq!(check_win_condition(10, 11, 11, false), None);
    // Past the threshold with a lead of two: side decided.
    assert_eq!(check_win_condition(12, 10, 11, false), Some(Side::A));
    assert_eq!(check_win_condition(10, 12, 11, false), Some(Side::B));
    // Straight win at the threshold.
    assert_eq!(check_win_condition(11, 9, 11, false), Some(Side::A));
    assert_eq!(check_win_condition(9, 11, 11, false), Some(Side::B));
}

#[test]
fn win_deuce_flag_does_not_change_the_bound() {
    for a in 0..16i64 {
        for b in 0..16i64 {
            assert_eq!(
                check_win_condition(a, b, 11, true),
                check_win_condition(a, b, 11, false)
            );
        }
    }
}

#[test]
fn win_below_threshold_never_decides() {
    assert_eq!(check_win_condition(10, 0, 11, false), None);
    assert_eq!(check_win_condition(0, 10, 11, true), None);
    assert_eq!(check_win_condition(0, 0, 11, true), None);
}

#[test]
fn evaluate_is_idempotent_on_identical_inputs() {
    let first = check_win_condition(12, 10, 11, true);
    let second = check_win_condition(12, 10, 11, true);
    assert_eq!(first, second);
    let first = check_win_condition(7, 3, 11, false);
    let second = check_win_condition(7, 3, 11, false);
    assert_eq!(first, second);
}
