//! Debouncing for noisy digital inputs.
//!
//! A [`Debouncer`] stabilises one boolean signal: the reported state only
//! flips after `threshold` consecutive samples that disagree with it, so
//! isolated glitches never reach the rest of the pipeline.

use vstd::prelude::*;

verus! {

/// The reported state after feeding one sample into a debouncer whose
/// reported state is `state` and whose mismatch count is `counter`.
pub open spec fn spec_next_state(state: bool, counter: u8, threshold: u8, sample: bool) -> bool {
    if sample == state {
        state
    } else if counter + 1 >= threshold {
        sample
    } else {
        state
    }
}

/// The mismatch count after feeding one sample: it resets on agreement and
/// on a state flip, and counts up otherwise.
pub open spec fn spec_next_counter(state: bool, counter: u8, threshold: u8, sample: bool) -> u8 {
    if sample == state {
        0
    } else if counter + 1 >= threshold {
        0
    } else {
        (counter + 1) as u8
    }
}

/// Reported state and mismatch count after feeding every sample of
/// `samples`, first to last.
pub open spec fn spec_run(state: bool, counter: u8, threshold: u8, samples: Seq<bool>) -> (
    bool,
    u8,
)
    decreases samples.len(),
{
    if samples.len() == 0 {
        (state, counter)
    } else {
        spec_run(
            spec_next_state(state, counter, threshold, samples.first()),
            spec_next_counter(state, counter, threshold, samples.first()),
            threshold,
            samples.drop_first(),
        )
    }
}

/// Run-length filter over a stream of boolean samples.
///
/// The reported state changes only once `threshold` consecutive samples in
/// the opposite state have been seen; any sample that agrees with the
/// reported state resets the count.
#[derive(Clone, Copy, PartialEq, Eq, Structural, Debug)]
pub struct Debouncer {
    current_state: bool,
    counter: u8,
    threshold: u8,
}

impl Debouncer {
    /// Stabilised state reported to callers.
    pub closed spec fn spec_state(&self) -> bool {
        self.current_state
    }

    /// Number of consecutive opposite samples seen so far.
    pub closed spec fn spec_counter(&self) -> u8 {
        self.counter
    }

    /// Number of consecutive opposite samples needed to flip the state.
    pub closed spec fn spec_threshold(&self) -> u8 {
        self.threshold
    }

    /// The mismatch count always stays strictly below the threshold (or at
    /// zero when the threshold itself is zero), so one more opposite sample
    /// can be counted without overflow.
    pub open spec fn wf(&self) -> bool {
        if self.spec_threshold() == 0 {
            self.spec_counter() == 0
        } else {
            self.spec_counter() < self.spec_threshold()
        }
    }

    /// A debouncer that starts released and flips after 3 opposite samples.
    pub fn new() -> (r: Debouncer)
        ensures
            r.spec_state() == false,
            r.spec_counter() == 0,
            r.spec_threshold() == 3,
            r.wf(),
    {
        Debouncer { current_state: false, counter: 0, threshold: 3 }
    }

    /// A debouncer that starts released and flips after `threshold`
    /// opposite samples.
    pub fn with_threshold(threshold: u8) -> (r: Debouncer)
        ensures
            r.spec_state() == false,
            r.spec_counter() == 0,
            r.spec_threshold() == threshold,
            r.wf(),
    {
        Debouncer { current_state: false, counter: 0, threshold }
    }

    /// Feed one sample and return the stabilised state.
    pub fn update(&mut self, sample: bool) -> (r: bool)
        requires
            old(self).wf(),
        ensures
            final(self).spec_state() == spec_next_state(
                old(self).spec_state(),
                old(self).spec_counter(),
                old(self).spec_threshold(),
                sample,
            ),
            final(self).spec_counter() == spec_next_counter(
                old(self).spec_state(),
                old(self).spec_counter(),
                old(self).spec_threshold(),
                sample,
            ),
            final(self).spec_threshold() == old(self).spec_threshold(),
            r == final(self).spec_state(),
            final(self).wf(),
    {
        if sample == self.current_state {
            self.counter = 0;
        } else {
            self.counter = self.counter + 1;
            if self.counter >= self.threshold {
                self.current_state = sample;
                self.counter = 0;
            }
        }
        self.current_state
    }

    /// The stabilised state, without feeding a sample.
    pub fn state(&self) -> (r: bool)
        ensures
            r == self.spec_state(),
    {
        self.current_state
    }
}

/// Once the reported state agrees with a steady input, it never changes
/// again: a debouncer whose state already equals `s` reports `s` after any
/// number of further `s` samples, with the mismatch count pinned at zero.
pub proof fn lemma_debounce_holds_steady(
    state: bool,
    counter: u8,
    threshold: u8,
    samples: Seq<bool>,
    s: bool,
)
    requires
        state == s,
        forall|i: int| 0 <= i < samples.len() ==> samples[i] == s,
    ensures
        spec_run(state, counter, threshold, samples).0 == s,
        samples.len() > 0 ==> spec_run(state, counter, threshold, samples).1 == 0,
    decreases samples.len(),
{
    if samples.len() > 0 {
        assert(samples.first() == s);
        let rest = samples.drop_first();
        assert forall|i: int| 0 <= i < rest.len() implies rest[i] == s by {
            assert(rest[i] == samples[i + 1]);
        }
        lemma_debounce_holds_steady(
            spec_next_state(state, counter, threshold, samples.first()),
            spec_next_counter(state, counter, threshold, samples.first()),
            threshold,
            rest,
            s,
        );
    }
}

/// A steady input wins within `threshold` ticks: feeding at least
/// `threshold` consecutive samples of the same value `s` leaves the reported
/// state equal to `s`, with the mismatch count back at zero, whatever the
/// starting state and count were.  Together with
/// [`lemma_debounce_holds_steady`] this says the filter converges to a
/// steady input within `threshold` ticks and never oscillates afterwards.
/// (A zero threshold copies each sample through instead; it needs no
/// convergence argument.)
pub proof fn lemma_debounce_converges(
    state: bool,
    counter: u8,
    threshold: u8,
    samples: Seq<bool>,
    s: bool,
)
    requires
        threshold >= 1,
        samples.len() >= threshold,
        forall|i: int| 0 <= i < samples.len() ==> samples[i] == s,
    ensures
        spec_run(state, counter, threshold, samples).0 == s,
        spec_run(state, counter, threshold, samples).1 == 0,
    decreases samples.len(),
{
    let state1 = spec_next_state(state, counter, threshold, samples.first());
    let counter1 = spec_next_counter(state, counter, threshold, samples.first());
    let rest = samples.drop_first();
    assert(samples.first() == s);
    assert forall|i: int| 0 <= i < rest.len() implies rest[i] == s by {
        assert(rest[i] == samples[i + 1]);
    }
    if state == s || counter + 1 >= threshold {
        // Either the state already agrees with the input, or this sample
        // completes the run and flips it; both ways `state1 == s` holds on.
        lemma_debounce_holds_steady(state1, counter1, threshold, rest, s);
    } else {
        lemma_debounce_converges_from_count(state1, counter1, threshold, rest, s);
    }
}

/// Helper induction for [`lemma_debounce_converges`]: when the state
/// disagrees with the steady input `s`, it flips within
/// `threshold - counter` further ticks.
proof fn lemma_debounce_converges_from_count(
    state: bool,
    counter: u8,
    threshold: u8,
    samples: Seq<bool>,
    s: bool,
)
    requires
        threshold >= 1,
        counter < threshold,
        state != s,
        samples.len() + counter >= threshold,
        forall|i: int| 0 <= i < samples.len() ==> samples[i] == s,
    ensures
        spec_run(state, counter, threshold, samples).0 == s,
        spec_run(state, counter, threshold, samples).1 == 0,
    decreases samples.len(),
{
    let state1 = spec_next_state(state, counter, threshold, samples.first());
    let counter1 = spec_next_counter(state, counter, threshold, samples.first());
    let rest = samples.drop_first();
    assert(samples.first() == s);
    assert forall|i: int| 0 <= i < rest.len() implies rest[i] == s by {
        assert(rest[i] == samples[i + 1]);
    }
    if counter + 1 >= threshold {
        lemma_debounce_holds_steady(state1, counter1, threshold, rest, s);
    } else {
        lemma_debounce_converges_from_count(state1, counter1, threshold, rest, s);
    }
}

} // verus!
