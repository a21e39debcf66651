use mumen_controller::socd::{SocdHandler, SocdMethod};

#[test]
fn neutral_scenario_left_right() {
    // left+right under Neutral resolves to all-released; HAT reads 8.
    let mut h = SocdHandler::new();
    let (left, right, up, down) = h.resolve(true, true, false, false);
    assert_eq!((left, right, up, down), (false, false, false, false));
    assert_eq!(h.to_hat_value(up, right, down, left), 8);
}

#[test]
fn up_priority_scenario() {
    // up+down under UpPriority resolves to up; HAT reads 0 (north).
    let mut h = SocdHandler::new();
    let (left, right, up, down) = h.resolve(false, false, true, true);
    assert_eq!((up, down), (true, false));
    assert_eq!((left, right), (false, false));
    assert_eq!(h.to_hat_value(up, right, down, left), 0);
}

#[test]
fn up_priority_is_history_independent() {
    let mut h = SocdHandler::with_methods(SocdMethod::Neutral, SocdMethod::UpPriority);
    // Build up some history first.
    h.resolve(false, false, false, true);
    h.resolve(false, false, true, false);
    for _ in 0..3 {
        let (_, _, up, down) = h.resolve(false, false, true, true);
        assert_eq!((up, down), (true, false));
    }
}

#[test]
fn last_win_newest_press_wins() {
    let mut h = SocdHandler::with_methods(SocdMethod::LastWin, SocdMethod::LastWin);
    // Hold left, then press right as well: right is the newer press.
    h.resolve(true, false, false, false);
    let (left, right, _, _) = h.resolve(true, true, false, false);
    assert_eq!((left, right), (false, true));
    // Hold down, then press up as well: up is the newer press.
    h.resolve(false, false, false, true);
    let (_, _, up, down) = h.resolve(false, false, true, true);
    assert_eq!((up, down), (true, false));
}

#[test]
fn last_win_tie_breaks_to_second_direction() {
    let mut h = SocdHandler::with_methods(SocdMethod::LastWin, SocdMethod::LastWin);
    // Both pressed on the very first tick: right (and down) by convention.
    let (left, right, up, down) = h.resolve(true, true, true, true);
    assert_eq!((left, right), (false, true));
    assert_eq!((up, down), (false, true));
}

#[test]
fn first_win_earliest_press_keeps_winning() {
    let mut h = SocdHandler::with_methods(SocdMethod::FirstWin, SocdMethod::FirstWin);
    // Press right alone, then add left: right was first and keeps winning.
    h.resolve(false, true, false, false);
    for _ in 0..3 {
        let (left, right, _, _) = h.resolve(true, true, false, false);
        assert_eq!((left, right), (false, true));
    }
}

#[test]
fn second_input_priority_newcomer_wins() {
    let mut h = SocdHandler::with_methods(
        SocdMethod::SecondInputPriority,
        SocdMethod::SecondInputPriority,
    );
    h.resolve(true, false, false, false);
    let (left, right, _, _) = h.resolve(true, true, false, false);
    assert_eq!((left, right), (false, true));
}

#[test]
fn second_input_priority_fresh_conflict_is_neutral() {
    let mut h = SocdHandler::with_methods(
        SocdMethod::SecondInputPriority,
        SocdMethod::SecondInputPriority,
    );
    let (left, right, up, down) = h.resolve(true, true, true, true);
    assert_eq!((left, right, up, down), (false, false, false, false));
}

#[test]
fn no_conflict_ever_reaches_the_output() {
    let methods = [
        SocdMethod::Neutral,
        SocdMethod::LastWin,
        SocdMethod::FirstWin,
        SocdMethod::UpPriority,
        SocdMethod::SecondInputPriority,
    ];
    for &m in methods.iter() {
        let mut h = SocdHandler::with_methods(m, m);
        for tick in 0..16u32 {
            let (left, right, up, down) = h.resolve(
                tick & 1 != 0,
                tick & 2 != 0,
                tick & 4 != 0,
                tick & 8 != 0,
            );
            assert!(!(left && right), "method {:?} tick {}", m, tick);
            assert!(!(up && down), "method {:?} tick {}", m, tick);
        }
    }
}

#[test]
fn pass_through_without_conflict() {
    let mut h = SocdHandler::new();
    let (left, right, up, down) = h.resolve(true, false, false, true);
    assert_eq!((left, right, up, down), (true, false, false, true));
}

#[test]
fn hat_round_trip_of_canonical_tuples() {
    let h = SocdHandler::new();
    // (up, right, down, left) in the HAT argument order.
    assert_eq!(h.to_hat_value(true, false, false, false), 0); // N
    assert_eq!(h.to_hat_value(true, true, false, false), 1); // NE
    assert_eq!(h.to_hat_value(false, true, false, false), 2); // E
    assert_eq!(h.to_hat_value(false, true, true, false), 3); // SE
    assert_eq!(h.to_hat_value(false, false, true, false), 4); // S
    assert_eq!(h.to_hat_value(false, false, true, true), 5); // SW
    assert_eq!(h.to_hat_value(false, false, false, true), 6); // W
    assert_eq!(h.to_hat_value(true, false, false, true), 7); // NW
    assert_eq!(h.to_hat_value(false, false, false, false), 8); // released
}

#[test]
fn hat_conflicts_fall_back_to_released() {
    let h = SocdHandler::new();
    assert_eq!(h.to_hat_value(true, false, true, false), 8); // up+down
    assert_eq!(h.to_hat_value(false, true, false, true), 8); // left+right
    assert_eq!(h.to_hat_value(true, true, true, true), 8); // everything
}

#[test]
fn method_names_parse_and_unknown_falls_back() {
    assert_eq!(SocdMethod::from("neutral"), SocdMethod::Neutral);
    assert_eq!(SocdMethod::from("last-win"), SocdMethod::LastWin);
    assert_eq!(SocdMethod::from("first-win"), SocdMethod::FirstWin);
    assert_eq!(SocdMethod::from("up-priority"), SocdMethod::UpPriority);
    assert_eq!(
        SocdMethod::from("second-input-priority"),
        SocdMethod::SecondInputPriority
    );
    assert_eq!(SocdMethod::from("anything-else"), SocdMethod::Neutral);
}

#[test]
fn from_strings_builds_the_named_policies() {
    let mut h = SocdHandler::from_strings("last-win", "neutral");
    // up+down under Neutral now cancels out.
    let (_, _, up, down) = h.resolve(false, false, true, true);
    assert_eq!((up, down), (false, false));
    // left held, right added: LastWin picks right.
    h.resolve(true, false, false, false);
    let (left, right, _, _) = h.resolve(true, true, false, false);
    assert_eq!((left, right), (false, true));
}
