//! Digital input handling: one debouncer per configured button pin.
//!
//! A [`DigitalInputHandler`] reads one tick's worth of raw pin levels,
//! debounces each configured button, and routes the stabilised states into
//! a 14-entry button array (indexed by the report layout) and a 4-entry
//! D-pad array (up, down, left, right).  Out-of-range pins read as
//! released; nothing here can fail.

use vstd::prelude::*;
use crate::debounce::{Debouncer, spec_next_state, spec_next_counter};

verus! {

/// The logical buttons of the controller, D-pad directions included.
#[derive(Clone, Copy, PartialEq, Eq, Structural, Debug)]
pub enum ControllerButton {
    A,
    B,
    X,
    Y,
    L,
    R,
    ZL,
    ZR,
    Plus,
    Minus,
    Home,
    Capture,
    L3,
    R3,
    DpadUp,
    DpadDown,
    DpadLeft,
    DpadRight,
}

/// Position of a non-D-pad button in the 14-entry report array.  The four
/// D-pad directions never appear there (they travel through the HAT
/// encoding instead) and share the placeholder value 0.
pub open spec fn spec_report_index(button: ControllerButton) -> usize {
    match button {
        ControllerButton::A => 0,
        ControllerButton::B => 1,
        ControllerButton::X => 2,
        ControllerButton::Y => 3,
        ControllerButton::L => 4,
        ControllerButton::R => 5,
        ControllerButton::ZL => 6,
        ControllerButton::ZR => 7,
        ControllerButton::Minus => 8,
        ControllerButton::Plus => 9,
        ControllerButton::L3 => 10,
        ControllerButton::R3 => 11,
        ControllerButton::Home => 12,
        ControllerButton::Capture => 13,
        ControllerButton::DpadUp => 0,
        ControllerButton::DpadDown => 0,
        ControllerButton::DpadLeft => 0,
        ControllerButton::DpadRight => 0,
    }
}

/// Position of a non-D-pad button in the 14-entry report array.
pub fn button_to_report_index(button: ControllerButton) -> (r: usize)
    ensures
        r == spec_report_index(button),
        r < 14,
{
    match button {
        ControllerButton::A => 0,
        ControllerButton::B => 1,
        ControllerButton::X => 2,
        ControllerButton::Y => 3,
        ControllerButton::L => 4,
        ControllerButton::R => 5,
        ControllerButton::ZL => 6,
        ControllerButton::ZR => 7,
        ControllerButton::Minus => 8,
        ControllerButton::Plus => 9,
        ControllerButton::L3 => 10,
        ControllerButton::R3 => 11,
        ControllerButton::Home => 12,
        ControllerButton::Capture => 13,
        ControllerButton::DpadUp => 0,
        ControllerButton::DpadDown => 0,
        ControllerButton::DpadLeft => 0,
        ControllerButton::DpadRight => 0,
    }
}

/// The button handled by entry `i` of the handler; entries 14 to 17 are the
/// D-pad in up, down, left, right order.
pub open spec fn spec_entry_button(i: int) -> ControllerButton {
    if i == 0 {
        ControllerButton::A
    } else if i == 1 {
        ControllerButton::B
    } else if i == 2 {
        ControllerButton::X
    } else if i == 3 {
        ControllerButton::Y
    } else if i == 4 {
        ControllerButton::L
    } else if i == 5 {
        ControllerButton::R
    } else if i == 6 {
        ControllerButton::ZL
    } else if i == 7 {
        ControllerButton::ZR
    } else if i == 8 {
        ControllerButton::Plus
    } else if i == 9 {
        ControllerButton::Minus
    } else if i == 10 {
        ControllerButton::Home
    } else if i == 11 {
        ControllerButton::Capture
    } else if i == 12 {
        ControllerButton::L3
    } else if i == 13 {
        ControllerButton::R3
    } else if i == 14 {
        ControllerButton::DpadUp
    } else if i == 15 {
        ControllerButton::DpadDown
    } else if i == 16 {
        ControllerButton::DpadLeft
    } else {
        ControllerButton::DpadRight
    }
}

/// The pin wired to entry `i` in the default pinout (pin 13 carries the
/// on-board LED and is skipped).
pub open spec fn spec_entry_pin(i: int) -> u8 {
    if i < 11 {
        (i + 2) as u8
    } else {
        (i + 3) as u8
    }
}

/// The handler entry whose stabilised state feeds report index `j`.
pub open spec fn spec_entry_for_report(j: int) -> int {
    if j == 8 {
        9
    } else if j == 9 {
        8
    } else if j == 10 {
        12
    } else if j == 11 {
        13
    } else if j == 12 {
        10
    } else if j == 13 {
        11
    } else {
        j
    }
}

/// The level seen on `pin` given one tick's pin array; pins beyond the
/// array read as released.
pub open spec fn spec_pin_sample(pins: Seq<bool>, pin: u8) -> bool {
    if pin < pins.len() {
        pins[pin as int]
    } else {
        false
    }
}

/// How one update evolves the handler: every entry's debouncer takes this
/// tick's sample from its configured pin, and the stored states are the
/// debouncers' new reported states.
pub open spec fn spec_digital_step(
    pre: DigitalInputHandler,
    post: DigitalInputHandler,
    pins: Seq<bool>,
) -> bool {
    &&& post.spec_mapping() =~= pre.spec_mapping()
    &&& forall|i: int|
        0 <= i < 18 ==> (#[trigger] post.spec_states()[i]) == pre.spec_debounced(pins, i)
    &&& forall|i: int|
        0 <= i < 18 ==> (#[trigger] post.spec_debouncers()[i]).spec_state() == pre.spec_debounced(
            pins,
            i,
        )
    &&& forall|i: int|
        0 <= i < 18 ==> (#[trigger] post.spec_debouncers()[i]).spec_counter() == spec_next_counter(
            pre.spec_debouncers()[i].spec_state(),
            pre.spec_debouncers()[i].spec_counter(),
            pre.spec_debouncers()[i].spec_threshold(),
            spec_pin_sample(pins, spec_entry_pin(i)),
        )
    &&& forall|i: int|
        0 <= i < 18 ==> (#[trigger] post.spec_debouncers()[i]).spec_threshold()
            == pre.spec_debouncers()[i].spec_threshold()
}

/// Debouncing front end for the 18 configured button pins (14 standard
/// buttons plus the four D-pad directions).
pub struct DigitalInputHandler {
    /// One debouncer per configured entry.
    debouncers: [Debouncer; 18],
    /// The (pin, button) wiring of each entry.
    button_mapping: [(u8, ControllerButton); 18],
    /// Stabilised state of each entry after the latest update.
    button_states: [bool; 18],
}

impl DigitalInputHandler {
    /// The handler's debouncers, one per entry.
    pub closed spec fn spec_debouncers(&self) -> Seq<Debouncer> {
        self.debouncers@
    }

    /// The (pin, button) wiring of each entry.
    pub closed spec fn spec_mapping(&self) -> Seq<(u8, ControllerButton)> {
        self.button_mapping@
    }

    /// Stabilised state of each entry after the latest update.
    pub closed spec fn spec_states(&self) -> Seq<bool> {
        self.button_states@
    }

    /// The wiring is the default pinout and every debouncer can take one
    /// more sample.
    pub open spec fn wf(&self) -> bool {
        &&& forall|i: int|
            0 <= i < 18 ==> (#[trigger] self.spec_mapping()[i]) == (
                spec_entry_pin(i),
                spec_entry_button(i),
            )
        &&& forall|i: int| 0 <= i < 18 ==> (#[trigger] self.spec_debouncers()[i]).wf()
    }

    /// Stabilised state of entry `i` after feeding it this tick's sample.
    pub open spec fn spec_debounced(&self, pins: Seq<bool>, i: int) -> bool {
        spec_next_state(
            self.spec_debouncers()[i].spec_state(),
            self.spec_debouncers()[i].spec_counter(),
            self.spec_debouncers()[i].spec_threshold(),
            spec_pin_sample(pins, spec_entry_pin(i)),
        )
    }

    /// A handler with the default pinout, all inputs released, and the
    /// default debounce threshold of 3 on every entry.
    pub fn new() -> (r: DigitalInputHandler)
        ensures
            r.wf(),
            forall|i: int|
                0 <= i < 18 ==> (#[trigger] r.spec_debouncers()[i]).spec_state() == false
                    && r.spec_debouncers()[i].spec_counter() == 0
                    && r.spec_debouncers()[i].spec_threshold() == 3,
            forall|i: int| 0 <= i < 18 ==> (#[trigger] r.spec_states()[i]) == false,
    {
        let d = Debouncer::new();
        let debouncers: [Debouncer; 18] = [d; 18];
        let button_mapping: [(u8, ControllerButton); 18] = [
            (2, ControllerButton::A),
            (3, ControllerButton::B),
            (4, ControllerButton::X),
            (5, ControllerButton::Y),
            (6, ControllerButton::L),
            (7, ControllerButton::R),
            (8, ControllerButton::ZL),
            (9, ControllerButton::ZR),
            (10, ControllerButton::Plus),
            (11, ControllerButton::Minus),
            (12, ControllerButton::Home),
            (14, ControllerButton::Capture),
            (15, ControllerButton::L3),
            (16, ControllerButton::R3),
            (17, ControllerButton::DpadUp),
            (18, ControllerButton::DpadDown),
            (19, ControllerButton::DpadLeft),
            (20, ControllerButton::DpadRight),
        ];
        let r = DigitalInputHandler { debouncers, button_mapping, button_states: [false; 18] };
        proof {
            assert forall|i: int| 0 <= i < 18 implies (#[trigger] r.spec_mapping()[i]) == (
                spec_entry_pin(i),
                spec_entry_button(i),
            ) by {
                assert(r.spec_mapping()[0] == (2u8, ControllerButton::A));
                assert(r.spec_mapping()[1] == (3u8, ControllerButton::B));
                assert(r.spec_mapping()[2] == (4u8, ControllerButton::X));
                assert(r.spec_mapping()[3] == (5u8, ControllerButton::Y));
                assert(r.spec_mapping()[4] == (6u8, ControllerButton::L));
                assert(r.spec_mapping()[5] == (7u8, ControllerButton::R));
                assert(r.spec_mapping()[6] == (8u8, ControllerButton::ZL));
                assert(r.spec_mapping()[7] == (9u8, ControllerButton::ZR));
                assert(r.spec_mapping()[8] == (10u8, ControllerButton::Plus));
                assert(r.spec_mapping()[9] == (11u8, ControllerButton::Minus));
                assert(r.spec_mapping()[10] == (12u8, ControllerButton::Home));
                assert(r.spec_mapping()[11] == (14u8, ControllerButton::Capture));
                assert(r.spec_mapping()[12] == (15u8, ControllerButton::L3));
                assert(r.spec_mapping()[13] == (16u8, ControllerButton::R3));
                assert(r.spec_mapping()[14] == (17u8, ControllerButton::DpadUp));
                assert(r.spec_mapping()[15] == (18u8, ControllerButton::DpadDown));
                assert(r.spec_mapping()[16] == (19u8, ControllerButton::DpadLeft));
                assert(r.spec_mapping()[17] == (20u8, ControllerButton::DpadRight));
            }
        }
        r
    }

    /// Level of a pin as far as the handler can know it; the real read is
    /// performed by the embedding layer, so this reports the released
    /// default.
    pub fn read_pin(&self, pin: u8) -> (r: bool)
        ensures
            r == false,
    {
        false
    }

    /// Feed one tick's pin levels through every debouncer and route the
    /// stabilised states: the first component holds the 14 standard
    /// buttons in report order, the second the D-pad as (up, down, left,
    /// right).
    pub fn update(&mut self, pins_state: &[bool]) -> (r: ([bool; 14], [bool; 4]))
        requires
            old(self).wf(),
        ensures
            final(self).wf(),
            spec_digital_step(*old(self), *final(self), pins_state@),
            forall|j: int|
                0 <= j < 14 ==> (#[trigger] r.0@[j]) == final(self).spec_states()[
                    spec_entry_for_report(j)
                ],
            forall|k: int|
                0 <= k < 4 ==> (#[trigger] r.1@[k]) == final(self).spec_states()[14 + k],
    {
        let mut standard_buttons: [bool; 14] = [false; 14];
        let mut dpad: [bool; 4] = [false; 4];

        let ghost orig = *self;
        let mut i: usize = 0;
        while i < 18
            invariant
                orig.wf(),
                i <= 18,
                self.spec_mapping() =~= orig.spec_mapping(),
                forall|k: int|
                    i <= k < 18 ==> (#[trigger] self.spec_debouncers()[k])
                        == orig.spec_debouncers()[k],
                forall|k: int|
                    0 <= k < i ==> (#[trigger] self.spec_states()[k]) == orig.spec_debounced(
                        pins_state@,
                        k,
                    ),
                forall|k: int|
                    0 <= k < i ==> (#[trigger] self.spec_debouncers()[k]).spec_state()
                        == orig.spec_debounced(pins_state@, k),
                forall|k: int|
                    0 <= k < i ==> (#[trigger] self.spec_debouncers()[k]).spec_counter()
                        == spec_next_counter(
                        orig.spec_debouncers()[k].spec_state(),
                        orig.spec_debouncers()[k].spec_counter(),
                        orig.spec_debouncers()[k].spec_threshold(),
                        spec_pin_sample(pins_state@, spec_entry_pin(k)),
                    ),
                forall|k: int|
                    0 <= k < i ==> (#[trigger] self.spec_debouncers()[k]).spec_threshold()
                        == orig.spec_debouncers()[k].spec_threshold(),
                forall|k: int|
                    0 <= k < 18 ==> (#[trigger] self.spec_debouncers()[k]).wf(),
                forall|j: int|
                    0 <= j < 14 ==> (#[trigger] standard_buttons@[j]) == if spec_entry_for_report(j)
                        < i {
                        self.spec_states()[spec_entry_for_report(j)]
                    } else {
                        false
                    },
                forall|k: int|
                    0 <= k < 4 ==> (#[trigger] dpad@[k]) == if 14 + k < i {
                        self.spec_states()[14 + k]
                    } else {
                        false
                    },
            decreases 18 - i,
        {
            let ghost pre = *self;
            let (pin, button) = self.button_mapping[i];
            proof {
                assert(pre.spec_mapping()[i as int] == orig.spec_mapping()[i as int]);
                assert(pin == spec_entry_pin(i as int));
                assert(button == spec_entry_button(i as int));
            }
            let pin_value = if (pin as usize) < pins_state.len() {
                pins_state[pin as usize]
            } else {
                false
            };
            proof {
                assert(pin_value == spec_pin_sample(pins_state@, spec_entry_pin(i as int)));
            }

            let mut d = self.debouncers[i];
            proof {
                assert(d == pre.spec_debouncers()[i as int]);
                assert(pre.spec_debouncers()[i as int] == orig.spec_debouncers()[i as int]);
            }
            let debounced_state = d.update(pin_value);
            self.debouncers[i] = d;
            self.button_states[i] = debounced_state;
            proof {
                assert forall|k: int| 0 <= k < 18 && k != i implies #[trigger] self
                    .spec_debouncers()[k] == pre.spec_debouncers()[k] by {}
                assert(self.spec_debouncers()[i as int] == d);
                assert forall|k: int| 0 <= k < 18 && k != i implies #[trigger] self.spec_states()[k]
                    == pre.spec_states()[k] by {}
                assert(self.spec_states()[i as int] == debounced_state);
                assert(self.spec_states()[i as int] == orig.spec_debounced(pins_state@, i as int));
            }

            match button {
                ControllerButton::DpadUp => dpad[0] = debounced_state,
                ControllerButton::DpadDown => dpad[1] = debounced_state,
                ControllerButton::DpadLeft => dpad[2] = debounced_state,
                ControllerButton::DpadRight => dpad[3] = debounced_state,
                _ => {
                    let index = button_to_report_index(button);
                    standard_buttons[index] = debounced_state;
                },
            }
            i = i + 1;
        }
        (standard_buttons, dpad)
    }

    /// Stabilised state of all 18 entries, buttons first, then the D-pad.
    pub fn get_raw_states(&self) -> (r: [bool; 18])
        ensures
            r@ =~= self.spec_states(),
    {
        self.button_states
    }

    /// Stabilised D-pad state as (up, down, left, right).
    pub fn get_dpad_states(&self) -> (r: (bool, bool, bool, bool))
        ensures
            r.0 == self.spec_states()[14],
            r.1 == self.spec_states()[15],
            r.2 == self.spec_states()[16],
            r.3 == self.spec_states()[17],
    {
        let up = self.button_states[14];
        let down = self.button_states[15];
        let left = self.button_states[16];
        let right = self.button_states[17];
        (up, down, left, right)
    }
}

} // verus!
