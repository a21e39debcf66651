use mumen_controller::lock::{LockHandler, LockableButton, MAX_LOCKABLE_BUTTONS};

#[test]
fn lockable_button_indices() {
    assert_eq!(LockableButton::Home.to_index(), 12);
    assert_eq!(LockableButton::Plus.to_index(), 9);
    assert_eq!(LockableButton::Minus.to_index(), 8);
    assert_eq!(LockableButton::Capture.to_index(), 13);
    assert_eq!(
        LockableButton::all(),
        [
            LockableButton::Home,
            LockableButton::Plus,
            LockableButton::Minus,
            LockableButton::Capture,
        ]
    );
}

#[test]
fn default_lock_masks_menu_buttons() {
    // With the lock engaged and the default set {Home, Plus, Minus},
    // indices 12, 9 and 8 read released; everything else passes through.
    let mut h = LockHandler::new();
    h.update_lock_state(true);
    assert!(h.is_locked());
    let input = [true; 14];
    let output = h.process(&input);
    for j in 0..14 {
        let expected = !(j == 12 || j == 9 || j == 8);
        assert_eq!(output[j], expected, "index {}", j);
    }
}

#[test]
fn inactive_lock_passes_everything_through() {
    let h = LockHandler::new();
    assert!(!h.is_locked());
    let mut input = [false; 14];
    input[12] = true;
    input[3] = true;
    assert_eq!(h.process(&input), input);
}

#[test]
fn polarity_can_be_inverted() {
    let mut h = LockHandler::with_config(10, false, &[LockableButton::Capture]);
    // active-low: a low pin engages the lock.
    h.update_lock_state(false);
    assert!(h.is_locked());
    let input = [true; 14];
    let output = h.process(&input);
    for j in 0..14 {
        assert_eq!(output[j], j != 13, "index {}", j);
    }
    h.update_lock_state(true);
    assert!(!h.is_locked());
}

#[test]
fn capacity_is_bounded_at_four() {
    let mut h = LockHandler::new(); // three defaults
    assert!(h.add_button(LockableButton::Capture));
    // The set is full now: a fifth entry is refused, not stored.
    assert!(!h.add_button(LockableButton::Home));
    h.update_lock_state(true);
    let output = h.process(&[true; 14]);
    assert_eq!(output, {
        let mut expected = [true; 14];
        expected[12] = false;
        expected[9] = false;
        expected[8] = false;
        expected[13] = false;
        expected
    });
}

#[test]
fn with_config_takes_at_most_the_capacity() {
    let buttons = [
        LockableButton::Home,
        LockableButton::Plus,
        LockableButton::Minus,
        LockableButton::Capture,
        LockableButton::Home,
    ];
    let mut h = LockHandler::with_config(33, true, &buttons);
    assert!(!h.add_button(LockableButton::Plus));
    assert_eq!(buttons.len() > MAX_LOCKABLE_BUTTONS, true);
}

#[test]
fn cleared_lock_masks_nothing() {
    let mut h = LockHandler::new();
    h.update_lock_state(true);
    h.clear_buttons();
    let input = [true; 14];
    assert_eq!(h.process(&input), input);
    // And the capacity is available again.
    assert!(h.add_button(LockableButton::Home));
}

#[test]
fn lock_pin_placeholder_reads_disengaged() {
    let h = LockHandler::new();
    assert_eq!(h.read_lock_pin(), false);
}
