use global_clock::angle::Turn;
use global_clock::wallclock::TimeOfDay;

#[test]
fn midnight_hands_at_zero() {
    let t = TimeOfDay::from_hms(0, 0, 0);
    assert_eq!(t.secs, 0);
    let hour = t.hour_hand_angle();
    let minute = t.minute_hand_angle();
    assert_eq!(hour.num, 0);
    assert_eq!(hour.den, 86400);
    assert_eq!(minute.num, 0);
    assert_eq!(minute.den, 3600);
}

#[test]
fn noon_hour_hand_half_turn() {
    let t = TimeOfDay::from_hms(12, 0, 0);
    let hour = t.hour_hand_angle();
    assert_eq!(hour.num, 43200);
    assert_eq!(hour.den, 86400);
    let half = Turn::from_fraction(1, 2);
    assert!(hour.eq_angle(&half));
}

#[test]
fn hms_formula_exact() {
    let t = TimeOfDay::from_hms(1, 2, 3);
    assert_eq!(t.secs, 3723);
    let t = TimeOfDay::from_hms(23, 59, 59);
    assert_eq!(t.secs, 86399);
}

#[test]
fn minute_hand_half_turn_at_half_hour() {
    // The "minute" hand deliberately runs on a one-hour period (a fast
    // hand over the daily hour hand), not a twelve-hour dial convention.
    let t = TimeOfDay::from_hms(9, 30, 0);
    let minute = t.minute_hand_angle();
    assert_eq!(minute.num, 1800);
    let half = Turn::from_fraction(1, 2);
    assert!(minute.eq_angle(&half));
}

#[test]
fn minute_hand_wraps_exactly_at_hour() {
    let before = TimeOfDay::from_seconds(3599).minute_hand_angle();
    let at = TimeOfDay::from_seconds(3600).minute_hand_angle();
    assert_eq!(before.num, 3599);
    assert_eq!(at.num, 0);
}

#[test]
fn hour_hand_strictly_increases_within_day() {
    let mut prev = TimeOfDay::from_seconds(0).hour_hand_angle();
    for secs in [1u32, 100, 3600, 43200, 86399] {
        let cur = TimeOfDay::from_seconds(secs).hour_hand_angle();
        assert!(prev.lt_angle(&cur));
        prev = cur;
    }
}

#[test]
fn minute_hand_strictly_increases_within_hour() {
    let mut prev = TimeOfDay::from_seconds(7200).minute_hand_angle();
    for secs in [7201u32, 7500, 9000, 10799] {
        let cur = TimeOfDay::from_seconds(secs).minute_hand_angle();
        assert!(prev.lt_angle(&cur));
        prev = cur;
    }
}

#[test]
fn angle_comparisons_cross_denominators() {
    let quarter = Turn::from_fraction(1, 4);
    let six_hours = Turn::from_fraction(21600, 86400);
    assert!(quarter.eq_angle(&six_hours));
    let third = Turn::from_fraction(1, 3);
    assert!(quarter.lt_angle(&third));
    assert!(!third.lt_angle(&quarter));
}

#[test]
fn from_fraction_wraps_numerator() {
    let t = Turn::from_fraction(7, 4);
    assert_eq!(t.num, 3);
    assert_eq!(t.den, 4);
}
