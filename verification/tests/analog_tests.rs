use mumen_controller::analog::{AnalogInputHandler, AnalogStick};

#[test]
fn center_pass_through_scenario() {
    // raw (512, 512) with centre (512, 512) and deadzone 50 maps to
    // (128, 128).
    let mut h = AnalogInputHandler::new();
    assert_eq!(h.process_left_stick(512, 512), (128, 128));
    assert_eq!(h.process_right_stick(512, 512), (128, 128));
}

#[test]
fn everything_inside_the_deadzone_maps_to_center() {
    let mut h = AnalogInputHandler::new();
    // Default deadzone is 50 around 512; the filter rests at 512.
    for raw in [463u16, 480, 500, 512, 530, 555, 561] {
        assert_eq!(h.process_left_stick(raw, raw), (128, 128), "raw {}", raw);
    }
}

#[test]
fn deadzone_boundary_is_continuous() {
    let mut h = AnalogInputHandler::new();
    h.set_filter_strength(256); // no smoothing, for exact values
    // 562 is the first reading outside the deadzone; its shifted offset is
    // zero, so it still maps to the centre byte.
    assert_eq!(h.process_left_stick(562, 512), (128, 128));
}

#[test]
fn full_deflection_reaches_the_extremes() {
    let mut h = AnalogInputHandler::new();
    h.set_filter_strength(256);
    h.set_deadzone(0);
    assert_eq!(h.process_left_stick(0, 1023), (0, 255));
    assert_eq!(h.process_right_stick(1023, 0), (255, 0));
}

#[test]
fn mapped_output_is_monotone_in_the_raw_reading() {
    let mut h = AnalogInputHandler::new();
    h.set_filter_strength(256);
    h.set_deadzone(0);
    let mut last = 0u8;
    for raw in (0u16..=1023).step_by(31) {
        let (x, _) = h.process_left_stick(raw, 512);
        assert!(x >= last, "raw {} mapped to {} after {}", raw, x, last);
        last = x;
    }
}

#[test]
fn asymmetric_segments_map_independently() {
    let mut h = AnalogInputHandler::new();
    h.set_filter_strength(256);
    h.set_deadzone(0);
    // 256 sits halfway down the lower segment [0, 512] -> [0, 128].
    let (x, _) = h.process_left_stick(256, 512);
    assert_eq!(x, 64);
    // 768 sits halfway up the upper segment [512, 1023] -> [128, 255].
    let (x, _) = h.process_left_stick(768, 512);
    assert_eq!(x, 191);
}

#[test]
fn filter_smooths_toward_the_sample() {
    let mut h = AnalogInputHandler::new();
    // Default coefficient 77/256 with memory at 512 and a deadzoned
    // sample of 550: the memory moves to (512*179 + 550*77) / 256 = 523,
    // which maps to 128 + (11*127)/511 = 130.
    assert_eq!(h.process_left_stick(600, 512), (130, 128));
}

#[test]
fn filter_strength_is_clamped_to_scale() {
    let mut h = AnalogInputHandler::new();
    h.set_filter_strength(60000);
    h.set_deadzone(0);
    // A clamped coefficient of 256 passes samples straight through.
    assert_eq!(h.process_left_stick(1023, 512), (255, 128));
}

#[test]
fn range_calibration_only_widens() {
    let mut h = AnalogInputHandler::new();
    h.set_filter_strength(256);
    h.set_deadzone(0);
    h.calibrate_range(AnalogStick::Left, 1100, 512);
    // The X maximum grew to 1100, so 1100 maps to the full deflection.
    assert_eq!(h.process_left_stick(1100, 512), (255, 128));
    // A sample inside the current bounds changes nothing.
    h.calibrate_range(AnalogStick::Left, 512, 512);
    assert_eq!(h.process_left_stick(1100, 512), (255, 128));
}

#[test]
fn calibrate_center_restores_the_midpoint() {
    let mut h = AnalogInputHandler::new();
    h.calibrate_center(AnalogStick::Right);
    assert_eq!(h.process_right_stick(512, 512), (128, 128));
}

#[test]
fn update_reads_four_slots_with_center_defaults() {
    let mut h = AnalogInputHandler::new();
    // Missing slots read as the centre.
    assert_eq!(h.update(&[]), ((128, 128), (128, 128)));
    let mut h = AnalogInputHandler::new();
    h.set_filter_strength(256);
    h.set_deadzone(0);
    let (left, right) = h.update(&[0, 1023, 512, 512]);
    assert_eq!(left, (0, 255));
    assert_eq!(right, (128, 128));
}

#[test]
fn y_polarity_is_configurable() {
    // Default polarity: low ADC maps low, high maps high.
    let mut h = AnalogInputHandler::new();
    h.set_filter_strength(256);
    h.set_deadzone(0);
    assert_eq!(h.process_left_stick(512, 0), (128, 0));
    assert_eq!(h.process_left_stick(512, 1023), (128, 255));
    // Inverted polarity: the mapped Y byte is flipped.
    h.set_y_inversion(true);
    assert_eq!(h.process_left_stick(512, 0), (128, 255));
    assert_eq!(h.process_left_stick(512, 1023), (128, 0));
    assert_eq!(h.process_left_stick(512, 512), (128, 127));
    // X is never affected by the Y polarity.
    assert_eq!(h.process_left_stick(1023, 512), (255, 127));
}

#[test]
fn analog_pin_placeholder_reads_center() {
    let h = AnalogInputHandler::new();
    assert_eq!(h.read_analog_pin(21), 512);
}
