use mumen_controller::manager::ControllerState;
use mumen_controller::report::{SwitchProReport, SwitchProReportDescriptor};

#[test]
fn descriptor_advertises_the_report_layout() {
    let desc = SwitchProReportDescriptor::desc();
    assert_eq!(desc.len(), 76);
    // Application collection over the joystick usage...
    assert_eq!(&desc[..6], &[0x05, 0x01, 0x09, 0x05, 0xA1, 0x01]);
    // ...16 button bits...
    assert_eq!(&desc[6..14], &[0x15, 0x00, 0x25, 0x01, 0x75, 0x01, 0x95, 0x10]);
    // ...closed at the end.
    assert_eq!(desc[75], 0xC0);
}

#[test]
fn report_assembly_scenario() {
    // All buttons released, D-pad up, both sticks centred: the wire bytes
    // are [0x00, 0x00, 0x00, 0x00, 0x80, 0x80, 0x80, 0x80].
    let mut state = ControllerState::new();
    state.dpad_states = [true, false, false, false];
    let report = state.to_report();
    assert_eq!(
        report.to_bytes(),
        [0x00, 0x00, 0x00, 0x00, 0x80, 0x80, 0x80, 0x80]
    );
}

#[test]
fn neutral_report_bytes() {
    let report = SwitchProReport::new();
    assert_eq!(
        report.to_bytes(),
        [0x00, 0x00, 0x08, 0x00, 0x80, 0x80, 0x80, 0x80]
    );
}

#[test]
fn button_bits_land_in_the_right_bytes() {
    let mut report = SwitchProReport::new();
    report.set_button(0, true); // A: byte 0, bit 0
    report.set_button(3, true); // Y: byte 0, bit 3
    report.set_button(8, true); // Minus: byte 1, bit 0
    report.set_button(13, true); // Capture: byte 1, bit 5
    let bytes = report.to_bytes();
    assert_eq!(bytes[0], 0b0000_1001);
    assert_eq!(bytes[1], 0b0010_0001);
}

#[test]
fn all_sixteen_buttons_fill_both_bytes() {
    let mut report = SwitchProReport::new();
    for i in 0..16 {
        report.set_button(i, true);
    }
    let bytes = report.to_bytes();
    assert_eq!(bytes[0], 0xFF);
    assert_eq!(bytes[1], 0xFF);
}

#[test]
fn out_of_range_button_index_is_ignored() {
    let mut report = SwitchProReport::new();
    report.set_button(16, true);
    report.set_button(usize::MAX, true);
    assert_eq!(report.to_bytes()[0], 0);
    assert_eq!(report.to_bytes()[1], 0);
}

#[test]
fn hat_values_are_stored_and_clamped() {
    let mut report = SwitchProReport::new();
    report.set_hat(3);
    assert_eq!(report.to_bytes()[2], 3);
    report.set_hat(7);
    assert_eq!(report.to_bytes()[2], 7);
    // Anything past 7 stores the released value.
    report.set_hat(9);
    assert_eq!(report.to_bytes()[2], 8);
    report.set_hat(0xFF);
    assert_eq!(report.to_bytes()[2], 8);
}

#[test]
fn stick_bytes_copy_through() {
    let mut report = SwitchProReport::new();
    report.set_left_stick(0, 255);
    report.set_right_stick(200, 55);
    let bytes = report.to_bytes();
    assert_eq!(&bytes[4..8], &[0, 255, 200, 55]);
}

#[test]
fn vendor_data_stays_off_the_wire() {
    let mut report = SwitchProReport::new();
    report.set_vendor_data(0xAB);
    assert_eq!(report.vendor_spec, 0xAB);
    // Byte 3 of the report is padding, whatever the vendor byte holds.
    assert_eq!(report.to_bytes()[3], 0x00);
}

#[test]
fn controller_state_dpad_becomes_hat() {
    let mut state = ControllerState::new();
    // [up, down, left, right] = right alone: HAT east.
    state.dpad_states = [false, false, false, true];
    assert_eq!(state.to_report().to_bytes()[2], 2);
    // up + right: north-east.
    state.dpad_states = [true, false, false, true];
    assert_eq!(state.to_report().to_bytes()[2], 1);
    // down + left: south-west.
    state.dpad_states = [false, true, true, false];
    assert_eq!(state.to_report().to_bytes()[2], 5);
}

#[test]
fn controller_state_buttons_copy_in_order() {
    let mut state = ControllerState::new();
    state.button_states[1] = true; // B
    state.button_states[9] = true; // Plus
    let report = state.to_report();
    let bytes = report.to_bytes();
    assert_eq!(bytes[0], 0b0000_0010);
    assert_eq!(bytes[1], 0b0000_0010);
}
