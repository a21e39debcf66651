use mumen_controller::debounce::Debouncer;

#[test]
fn basic_debounce_scenario() {
    // threshold 3: [F, T, T, T, T] comes out as [F, F, F, T, T].
    let mut d = Debouncer::new();
    let samples = [false, true, true, true, true];
    let expected = [false, false, false, true, true];
    for i in 0..samples.len() {
        assert_eq!(d.update(samples[i]), expected[i], "tick {}", i);
    }
}

#[test]
fn starts_released() {
    let d = Debouncer::new();
    assert_eq!(d.state(), false);
}

#[test]
fn noise_shorter_than_threshold_is_ignored() {
    let mut d = Debouncer::new();
    // Two-sample glitches never flip a threshold-3 debouncer.
    for _ in 0..5 {
        assert_eq!(d.update(true), false);
        assert_eq!(d.update(true), false);
        assert_eq!(d.update(false), false);
    }
    assert_eq!(d.state(), false);
}

#[test]
fn custom_threshold_one_follows_samples() {
    let mut d = Debouncer::with_threshold(1);
    assert_eq!(d.update(true), true);
    assert_eq!(d.update(false), false);
    assert_eq!(d.update(true), true);
}

#[test]
fn converges_within_threshold_and_stays() {
    let mut d = Debouncer::with_threshold(5);
    for i in 0..5 {
        let out = d.update(true);
        assert_eq!(out, i == 4, "tick {}", i);
    }
    // Once converged on a steady input, the output never oscillates.
    for _ in 0..20 {
        assert_eq!(d.update(true), true);
    }
}

#[test]
fn agreeing_sample_resets_the_count() {
    let mut d = Debouncer::new();
    assert_eq!(d.update(true), false);
    assert_eq!(d.update(true), false);
    // Agreement with the reported state resets the run...
    assert_eq!(d.update(false), false);
    // ...so two more opposite samples are still not enough.
    assert_eq!(d.update(true), false);
    assert_eq!(d.update(true), false);
    assert_eq!(d.update(true), true);
}
