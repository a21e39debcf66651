use mumen_controller::analog::AnalogInputHandler;
use mumen_controller::digital::DigitalInputHandler;
use mumen_controller::lock::LockHandler;
use mumen_controller::manager::InputManager;
use mumen_controller::socd::{SocdHandler, SocdMethod};

/// A pin array long enough for the default mapping (pins 2-20, pin 33 is
/// the lock and read separately).
fn pins() -> [bool; 21] {
    [false; 21]
}

#[test]
fn idle_poll_produces_the_neutral_snapshot() {
    let mut m = InputManager::new();
    let state = m.poll(&pins(), &[512, 512, 512, 512], false);
    assert_eq!(state.button_states, [false; 14]);
    assert_eq!(state.dpad_states, [false; 4]);
    assert_eq!(state.left_stick, (128, 128));
    assert_eq!(state.right_stick, (128, 128));
    assert_eq!(
        m.to_report().to_bytes(),
        [0x00, 0x00, 0x08, 0x00, 0x80, 0x80, 0x80, 0x80]
    );
}

#[test]
fn buttons_debounce_across_polls() {
    let mut m = InputManager::new();
    let mut p = pins();
    p[2] = true; // pin 2 is button A, report index 0
    // The default threshold is 3: two polls stay released, the third
    // reports the press.
    assert!(!m.poll(&p, &[], false).button_states[0]);
    assert!(!m.poll(&p, &[], false).button_states[0]);
    assert!(m.poll(&p, &[], false).button_states[0]);
    assert!(m.poll(&p, &[], false).button_states[0]);
}

#[test]
fn dpad_up_reaches_the_hat() {
    let mut m = InputManager::new();
    let mut p = pins();
    p[17] = true; // pin 17 is D-pad up
    for _ in 0..3 {
        m.poll(&p, &[], false);
    }
    let state = *m.get_state();
    assert_eq!(state.dpad_states, [true, false, false, false]);
    assert_eq!(m.to_report().to_bytes()[2], 0);
}

#[test]
fn socd_neutral_scrubs_left_plus_right() {
    let mut m = InputManager::new();
    let mut p = pins();
    p[19] = true; // D-pad left
    p[20] = true; // D-pad right
    for _ in 0..3 {
        m.poll(&p, &[], false);
    }
    // The default left/right policy is Neutral: both scrub to released.
    assert_eq!(m.get_state().dpad_states, [false, false, false, false]);
    assert_eq!(m.to_report().to_bytes()[2], 8);
}

#[test]
fn socd_up_priority_through_the_pipeline() {
    let mut m = InputManager::new();
    let mut p = pins();
    p[17] = true; // D-pad up
    p[18] = true; // D-pad down
    for _ in 0..3 {
        m.poll(&p, &[], false);
    }
    assert_eq!(m.get_state().dpad_states, [true, false, false, false]);
}

#[test]
fn lock_pin_masks_menu_buttons_mid_stream() {
    let mut m = InputManager::new();
    let mut p = pins();
    p[12] = true; // pin 12 is Home, report index 12
    p[3] = true; // pin 3 is B, report index 1
    for _ in 0..3 {
        m.poll(&p, &[], false);
    }
    assert!(m.get_state().button_states[12]);
    assert!(m.get_state().button_states[1]);
    // Engage the lock: Home is suppressed, B still passes.
    let state = m.poll(&p, &[], true);
    assert!(!state.button_states[12]);
    assert!(state.button_states[1]);
    // Release the lock again.
    let state = m.poll(&p, &[], false);
    assert!(state.button_states[12]);
}

#[test]
fn analog_values_flow_into_the_snapshot() {
    let mut m = InputManager::new();
    // Left X of 600 deadzones to 550; the default filter moves the memory
    // from 512 to 523, which maps to 130.
    let state = m.poll(&pins(), &[600, 512, 512, 512], false);
    assert_eq!(state.left_stick, (130, 128));
    assert_eq!(state.right_stick, (128, 128));
}

#[test]
fn short_input_slices_degrade_to_defaults() {
    let mut m = InputManager::new();
    // An empty pin array reads every button as released, and a short ADC
    // array reads the missing axes as centred.
    let state = m.poll(&[], &[700], false);
    assert_eq!(state.button_states, [false; 14]);
    // 700 deadzones to 650; the filter moves 512 toward it: 553, which
    // maps to 128 + (41*127)/511 = 138.
    assert_eq!(state.left_stick, (138, 128));
    assert_eq!(state.right_stick, (128, 128));
}

#[test]
fn reset_clears_the_snapshot_but_not_the_handlers() {
    let mut m = InputManager::new();
    let mut p = pins();
    p[2] = true;
    for _ in 0..3 {
        m.poll(&p, &[], false);
    }
    assert!(m.get_state().button_states[0]);
    m.reset();
    assert_eq!(m.get_state().button_states, [false; 14]);
    assert_eq!(m.get_state().left_stick, (128, 128));
    // The debouncers kept their state: one more poll re-reports the press.
    assert!(m.poll(&p, &[], false).button_states[0]);
}

#[test]
fn with_handlers_uses_the_supplied_configuration() {
    let socd = SocdHandler::with_methods(SocdMethod::LastWin, SocdMethod::LastWin);
    let mut m = InputManager::with_handlers(
        DigitalInputHandler::new(),
        AnalogInputHandler::new(),
        socd,
        LockHandler::new(),
    );
    let mut p = pins();
    p[19] = true; // hold D-pad left
    for _ in 0..3 {
        m.poll(&p, &[], false);
    }
    assert_eq!(m.get_state().dpad_states, [false, false, true, false]);
    // Press right as well: under LastWin the newer press wins.
    p[20] = true;
    for _ in 0..3 {
        m.poll(&p, &[], false);
    }
    assert_eq!(m.get_state().dpad_states, [false, false, false, true]);
}

#[test]
fn mutable_getters_reconfigure_the_parts() {
    let mut m = InputManager::new();
    // Drop the lock's button set: engaging the lock then masks nothing.
    m.get_lock_handler_mut().clear_buttons();
    let mut p = pins();
    p[12] = true; // Home
    for _ in 0..3 {
        m.poll(&p, &[], true);
    }
    assert!(m.get_state().button_states[12]);
    // Disable analog smoothing and widen nothing: a full deflection now
    // shows up in one tick (the deadzone still shifts it off 255).
    m.get_analog_handler_mut().set_filter_strength(256);
    m.get_analog_handler_mut().set_deadzone(0);
    let state = m.poll(&p, &[1023, 512, 512, 512], true);
    assert_eq!(state.left_stick, (255, 128));
    // Retune the debouncers through the digital handler access.
    assert_eq!(m.get_digital_handler_mut().get_raw_states().len(), 18);
    assert_eq!(
        m.get_socd_handler_mut().to_hat_value(false, true, false, false),
        2
    );
}

#[test]
fn handler_getters_expose_the_parts() {
    let mut m = InputManager::new();
    assert!(!m.get_lock_handler().is_locked());
    assert_eq!(m.get_digital_handler().get_raw_states(), [false; 18]);
    assert_eq!(m.get_analog_handler().read_analog_pin(21), 512);
    assert_eq!(m.get_socd_handler().to_hat_value(true, false, false, false), 0);
    m.poll(&pins(), &[], true);
    assert!(m.get_lock_handler().is_locked());
}
