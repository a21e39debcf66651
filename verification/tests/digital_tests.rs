use mumen_controller::digital::{button_to_report_index, ControllerButton, DigitalInputHandler};

#[test]
fn report_indices_follow_the_wire_order() {
    assert_eq!(button_to_report_index(ControllerButton::A), 0);
    assert_eq!(button_to_report_index(ControllerButton::B), 1);
    assert_eq!(button_to_report_index(ControllerButton::X), 2);
    assert_eq!(button_to_report_index(ControllerButton::Y), 3);
    assert_eq!(button_to_report_index(ControllerButton::L), 4);
    assert_eq!(button_to_report_index(ControllerButton::R), 5);
    assert_eq!(button_to_report_index(ControllerButton::ZL), 6);
    assert_eq!(button_to_report_index(ControllerButton::ZR), 7);
    assert_eq!(button_to_report_index(ControllerButton::Minus), 8);
    assert_eq!(button_to_report_index(ControllerButton::Plus), 9);
    assert_eq!(button_to_report_index(ControllerButton::L3), 10);
    assert_eq!(button_to_report_index(ControllerButton::R3), 11);
    assert_eq!(button_to_report_index(ControllerButton::Home), 12);
    assert_eq!(button_to_report_index(ControllerButton::Capture), 13);
}

#[test]
fn pressed_pin_reaches_its_report_slot() {
    let mut h = DigitalInputHandler::new();
    let mut pins = [false; 21];
    pins[11] = true; // pin 11 is Minus, report index 8
    let mut out = ([false; 14], [false; 4]);
    for _ in 0..3 {
        out = h.update(&pins);
    }
    let (buttons, dpad) = out;
    for j in 0..14 {
        assert_eq!(buttons[j], j == 8, "index {}", j);
    }
    assert_eq!(dpad, [false; 4]);
}

#[test]
fn dpad_pins_land_in_order() {
    let mut h = DigitalInputHandler::new();
    let mut pins = [false; 21];
    pins[18] = true; // D-pad down
    pins[19] = true; // D-pad left
    let mut out = ([false; 14], [false; 4]);
    for _ in 0..3 {
        out = h.update(&pins);
    }
    let (buttons, dpad) = out;
    assert_eq!(buttons, [false; 14]);
    assert_eq!(dpad, [false, true, true, false]);
}

#[test]
fn short_pin_arrays_read_as_released() {
    let mut h = DigitalInputHandler::new();
    // Only pins 0-4 are provided; everything else reads released.
    let mut pins = [false; 5];
    pins[2] = true; // button A
    pins[4] = true; // button X
    let mut out = ([false; 14], [false; 4]);
    for _ in 0..3 {
        out = h.update(&pins);
    }
    let (buttons, dpad) = out;
    assert!(buttons[0]);
    assert!(buttons[2]);
    assert_eq!(buttons[1], false);
    assert_eq!(dpad, [false; 4]);
    // An empty array never panics either.
    h.update(&[]);
}

#[test]
fn raw_and_dpad_state_queries() {
    let mut h = DigitalInputHandler::new();
    assert_eq!(h.get_raw_states(), [false; 18]);
    let mut pins = [false; 21];
    pins[17] = true; // D-pad up, entry 14
    pins[20] = true; // D-pad right, entry 17
    for _ in 0..3 {
        h.update(&pins);
    }
    let raw = h.get_raw_states();
    assert!(raw[14]);
    assert!(raw[17]);
    assert!(!raw[0]);
    assert_eq!(h.get_dpad_states(), (true, false, false, true));
}

#[test]
fn pin_placeholder_reads_released() {
    let h = DigitalInputHandler::new();
    assert_eq!(h.read_pin(2), false);
}
