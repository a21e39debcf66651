//! One poll tick, end to end.
//!
//! A [`ControllerState`] is the authoritative snapshot of one tick, and an
//! [`InputManager`] owns every handler and runs the strict per-tick
//! sequence: update the lock from its guard pin, debounce the digital
//! inputs, resolve the D-pad through the SOCD resolver, mask the buttons
//! through the lock, process the sticks, and assemble the snapshot that
//! [`ControllerState::to_report`] serialises.

use vstd::prelude::*;
use crate::analog::{
    AnalogInputHandler, config_unchanged, spec_adc_value, stick_outputs_match,
};
use crate::digital::{DigitalInputHandler, spec_digital_step, spec_entry_for_report};
use crate::lock::LockHandler;
use crate::report::SwitchProReport;
use crate::socd::{hat_value, spec_hat_value, spec_resolve_outputs, spec_socd_step, SocdHandler};

verus! {

/// One tick's complete input snapshot.
#[derive(Clone, Copy, Debug)]
pub struct ControllerState {
    /// The 14 standard buttons in report order.
    pub button_states: [bool; 14],
    /// The resolved D-pad as [up, down, left, right].
    pub dpad_states: [bool; 4],
    /// Left stick position, 0-255 per axis with 128 as centre.
    pub left_stick: (u8, u8),
    /// Right stick position, 0-255 per axis with 128 as centre.
    pub right_stick: (u8, u8),
}

impl ControllerState {
    /// The neutral snapshot: nothing pressed, sticks centred.
    pub fn new() -> (r: ControllerState)
        ensures
            forall|j: int| 0 <= j < 14 ==> (#[trigger] r.button_states@[j]) == false,
            forall|k: int| 0 <= k < 4 ==> (#[trigger] r.dpad_states@[k]) == false,
            r.left_stick == (128u8, 128u8),
            r.right_stick == (128u8, 128u8),
    {
        ControllerState {
            button_states: [false; 14],
            dpad_states: [false; 4],
            left_stick: (128, 128),
            right_stick: (128, 128),
        }
    }

    /// Build the HID report for this snapshot: the 14 buttons fill bits
    /// 0-13 (bits 14 and 15 stay clear), the D-pad becomes the HAT value,
    /// and the stick bytes are copied through.
    pub fn to_report(&self) -> (r: SwitchProReport)
        ensures
            forall|j: int| 0 <= j < 14 ==> (#[trigger] r.buttons@[j]) == self.button_states@[j],
            r.buttons@[14] == false,
            r.buttons@[15] == false,
            r.hat == spec_hat_value(
                self.dpad_states@[0],
                self.dpad_states@[3],
                self.dpad_states@[1],
                self.dpad_states@[2],
            ),
            r.left_stick_x == self.left_stick.0,
            r.left_stick_y == self.left_stick.1,
            r.right_stick_x == self.right_stick.0,
            r.right_stick_y == self.right_stick.1,
            r.vendor_spec == 0,
    {
        let mut report = SwitchProReport::new();

        let mut i: usize = 0;
        while i < 14
            invariant
                i <= 14,
                forall|j: int| 0 <= j < i ==> (#[trigger] report.buttons@[j])
                    == self.button_states@[j],
                forall|j: int| i <= j < 16 ==> (#[trigger] report.buttons@[j]) == false,
                report.hat == 8,
                report.left_stick_x == 128,
                report.left_stick_y == 128,
                report.right_stick_x == 128,
                report.right_stick_y == 128,
                report.vendor_spec == 0,
            decreases 14 - i,
        {
            report.set_button(i, self.button_states[i]);
            i = i + 1;
        }

        // HAT encoding takes (up, right, down, left); the snapshot stores
        // the D-pad as [up, down, left, right].
        let hat = hat_value(
            self.dpad_states[0],
            self.dpad_states[3],
            self.dpad_states[1],
            self.dpad_states[2],
        );
        report.set_hat(hat);

        report.left_stick_x = self.left_stick.0;
        report.left_stick_y = self.left_stick.1;
        report.right_stick_x = self.right_stick.0;
        report.right_stick_y = self.right_stick.1;

        report
    }
}

/// The snapshot a poll produces, as a function of the manager's state
/// before the tick: each button is its debounced pin masked by the lock,
/// the D-pad is debounced and then SOCD-resolved, and each stick axis runs
/// through deadzone, filter and range mapping.
pub open spec fn spec_poll_snapshot(
    pre: InputManager,
    digital_pins: Seq<bool>,
    analog_values: Seq<u16>,
    lock_pin: bool,
    state: ControllerState,
) -> bool {
    let locked = lock_pin == pre.spec_lock().spec_active_high();
    let raw_up = pre.spec_digital().spec_debounced(digital_pins, 14);
    let raw_down = pre.spec_digital().spec_debounced(digital_pins, 15);
    let raw_left = pre.spec_digital().spec_debounced(digital_pins, 16);
    let raw_right = pre.spec_digital().spec_debounced(digital_pins, 17);
    let resolved = spec_resolve_outputs(pre.spec_socd(), raw_left, raw_right, raw_up, raw_down);
    &&& forall|j: int|
        0 <= j < 14 ==> (#[trigger] state.button_states@[j]) == (pre.spec_digital().spec_debounced(
            digital_pins,
            spec_entry_for_report(j),
        ) && !(locked && pre.spec_lock().spec_locks_index(j)))
    &&& state.dpad_states@ =~= seq![resolved.2, resolved.3, resolved.0, resolved.1]
}

/// Orchestrator that owns every handler and the current snapshot.
pub struct InputManager {
    digital_handler: DigitalInputHandler,
    analog_handler: AnalogInputHandler,
    socd_handler: SocdHandler,
    lock_handler: LockHandler,
    state: ControllerState,
}

impl InputManager {
    /// The digital input handler.
    pub closed spec fn spec_digital(&self) -> DigitalInputHandler {
        self.digital_handler
    }

    /// The analog input handler.
    pub closed spec fn spec_analog(&self) -> AnalogInputHandler {
        self.analog_handler
    }

    /// The SOCD resolver.
    pub closed spec fn spec_socd(&self) -> SocdHandler {
        self.socd_handler
    }

    /// The lock handler.
    pub closed spec fn spec_lock(&self) -> LockHandler {
        self.lock_handler
    }

    /// The current snapshot.
    pub closed spec fn spec_state(&self) -> ControllerState {
        self.state
    }

    /// Every owned handler is well formed.
    pub open spec fn wf(&self) -> bool {
        &&& self.spec_digital().wf()
        &&& self.spec_analog().wf()
        &&& self.spec_lock().wf()
    }

    /// A manager with every handler in its default configuration and a
    /// neutral snapshot.
    pub fn new() -> (r: InputManager)
        ensures
            r.wf(),
            // Digital: every entry released with the default threshold 3.
            forall|i: int|
                0 <= i < 18 ==> (#[trigger] r.spec_digital().spec_debouncers()[i]).spec_state()
                    == false && r.spec_digital().spec_debouncers()[i].spec_counter() == 0
                    && r.spec_digital().spec_debouncers()[i].spec_threshold() == 3,
            forall|i: int| 0 <= i < 18 ==> (#[trigger] r.spec_digital().spec_states()[i]) == false,
            // SOCD: the fighting-game defaults with a blank history.
            r.spec_socd().spec_left_right_method() == crate::socd::SocdMethod::Neutral,
            r.spec_socd().spec_up_down_method() == crate::socd::SocdMethod::UpPriority,
            r.spec_socd().spec_last_states() =~= seq![false, false, false, false],
            r.spec_socd().spec_first_order() =~= seq![true, true],
            // Lock: disengaged, guarding Home, Plus and Minus.
            r.spec_lock().spec_lock_active() == false,
            r.spec_lock().spec_active_high() == true,
            r.spec_lock().spec_locked() =~= seq![
                Some(crate::lock::LockableButton::Home),
                Some(crate::lock::LockableButton::Plus),
                Some(crate::lock::LockableButton::Minus),
                None,
            ],
            r.spec_lock().spec_count() == 3,
            // Analog: 10-bit defaults, centred and at rest.
            forall|s: crate::analog::AnalogStick|
                (#[trigger] r.spec_analog().spec_cal_x(s)) == (0u16, 512u16, 1023u16)
                    && r.spec_analog().spec_cal_y(s) == (0u16, 512u16, 1023u16)
                    && r.spec_analog().spec_filtered(s) == (512u16, 512u16),
            r.spec_analog().spec_deadzone_width() == 50,
            r.spec_analog().spec_alpha() == 77,
            r.spec_analog().spec_invert_y() == false,
            forall|j: int| 0 <= j < 14 ==> (#[trigger] r.spec_state().button_states@[j]) == false,
            forall|k: int| 0 <= k < 4 ==> (#[trigger] r.spec_state().dpad_states@[k]) == false,
            r.spec_state().left_stick == (128u8, 128u8),
            r.spec_state().right_stick == (128u8, 128u8),
    {
        InputManager {
            digital_handler: DigitalInputHandler::new(),
            analog_handler: AnalogInputHandler::new(),
            socd_handler: SocdHandler::new(),
            lock_handler: LockHandler::new(),
            state: ControllerState::new(),
        }
    }

    /// A manager built from caller-supplied handlers, with a neutral
    /// snapshot.
    pub fn with_handlers(
        digital_handler: DigitalInputHandler,
        analog_handler: AnalogInputHandler,
        socd_handler: SocdHandler,
        lock_handler: LockHandler,
    ) -> (r: InputManager)
        requires
            digital_handler.wf(),
            analog_handler.wf(),
            lock_handler.wf(),
        ensures
            r.wf(),
            r.spec_digital() == digital_handler,
            r.spec_analog() == analog_handler,
            r.spec_socd() == socd_handler,
            r.spec_lock() == lock_handler,
            forall|j: int| 0 <= j < 14 ==> (#[trigger] r.spec_state().button_states@[j]) == false,
            forall|k: int| 0 <= k < 4 ==> (#[trigger] r.spec_state().dpad_states@[k]) == false,
            r.spec_state().left_stick == (128u8, 128u8),
            r.spec_state().right_stick == (128u8, 128u8),
    {
        InputManager {
            digital_handler,
            analog_handler,
            socd_handler,
            lock_handler,
            state: ControllerState::new(),
        }
    }

    /// Run one tick: lock update, debounce, SOCD resolution, lock masking,
    /// analog processing, and snapshot assembly, in that order.
    pub fn poll(&mut self, digital_pins: &[bool], analog_values: &[u16], lock_pin: bool) -> (r: &
        ControllerState)
        requires
            old(self).wf(),
        ensures
            final(self).wf(),
            *r == final(self).spec_state(),
            spec_poll_snapshot(
                *old(self),
                digital_pins@,
                analog_values@,
                lock_pin,
                final(self).spec_state(),
            ),
            // The handlers advance exactly one step each.
            spec_digital_step(
                old(self).spec_digital(),
                final(self).spec_digital(),
                digital_pins@,
            ),
            spec_socd_step(
                old(self).spec_socd(),
                final(self).spec_socd(),
                old(self).spec_digital().spec_debounced(digital_pins@, 16),
                old(self).spec_digital().spec_debounced(digital_pins@, 17),
                old(self).spec_digital().spec_debounced(digital_pins@, 14),
                old(self).spec_digital().spec_debounced(digital_pins@, 15),
            ),
            final(self).spec_lock().spec_lock_active() == (lock_pin == old(
                self,
            ).spec_lock().spec_active_high()),
            final(self).spec_lock().spec_active_high() == old(self).spec_lock().spec_active_high(),
            final(self).spec_lock().spec_locked() =~= old(self).spec_lock().spec_locked(),
            final(self).spec_lock().spec_count() == old(self).spec_lock().spec_count(),
            // Sticks: deadzone, filter and range mapping per axis.
            stick_outputs_match(
                old(self).spec_analog(),
                final(self).spec_analog(),
                crate::analog::AnalogStick::Left,
                spec_adc_value(analog_values@, 0),
                spec_adc_value(analog_values@, 1),
                final(self).spec_state().left_stick,
            ),
            stick_outputs_match(
                old(self).spec_analog(),
                final(self).spec_analog(),
                crate::analog::AnalogStick::Right,
                spec_adc_value(analog_values@, 2),
                spec_adc_value(analog_values@, 3),
                final(self).spec_state().right_stick,
            ),
            config_unchanged(old(self).spec_analog(), final(self).spec_analog()),
    {
        // 1. Update the lock state from the guard pin.
        self.lock_handler.update_lock_state(lock_pin);

        // 2. Debounce the digital inputs.
        let (buttons, dpad) = self.digital_handler.update(digital_pins);

        // 3. Resolve D-pad conflicts; the resolver takes (left, right, up,
        //    down) while the D-pad array is [up, down, left, right].
        let (left, right, up, down) = self.socd_handler.resolve(dpad[2], dpad[3], dpad[0], dpad[1]);

        // 4. Mask the guarded buttons.
        let locked_buttons = self.lock_handler.process(&buttons);

        // 5. Process the analog sticks.
        let (left_stick, right_stick) = self.analog_handler.update(analog_values);

        // 6. Assemble the snapshot.
        self.state.button_states = locked_buttons;
        self.state.dpad_states = [up, down, left, right];
        self.state.left_stick = left_stick;
        self.state.right_stick = right_stick;

        &self.state
    }

    /// The current snapshot.
    pub fn get_state(&self) -> (r: &ControllerState)
        ensures
            *r == self.spec_state(),
    {
        &self.state
    }

    /// The HID report for the current snapshot.
    pub fn to_report(&self) -> (r: SwitchProReport)
        ensures
            forall|j: int|
                0 <= j < 14 ==> (#[trigger] r.buttons@[j])
                    == self.spec_state().button_states@[j],
            r.buttons@[14] == false,
            r.buttons@[15] == false,
            r.hat == spec_hat_value(
                self.spec_state().dpad_states@[0],
                self.spec_state().dpad_states@[3],
                self.spec_state().dpad_states@[1],
                self.spec_state().dpad_states@[2],
            ),
            r.left_stick_x == self.spec_state().left_stick.0,
            r.left_stick_y == self.spec_state().left_stick.1,
            r.right_stick_x == self.spec_state().right_stick.0,
            r.right_stick_y == self.spec_state().right_stick.1,
            r.vendor_spec == 0,
    {
        self.state.to_report()
    }

    /// The digital input handler.
    pub fn get_digital_handler(&self) -> (r: &DigitalInputHandler)
        ensures
            *r == self.spec_digital(),
    {
        &self.digital_handler
    }

    /// The analog input handler.
    pub fn get_analog_handler(&self) -> (r: &AnalogInputHandler)
        ensures
            *r == self.spec_analog(),
    {
        &self.analog_handler
    }

    /// The SOCD resolver.
    pub fn get_socd_handler(&self) -> (r: &SocdHandler)
        ensures
            *r == self.spec_socd(),
    {
        &self.socd_handler
    }

    /// The lock handler.
    pub fn get_lock_handler(&self) -> (r: &LockHandler)
        ensures
            *r == self.spec_lock(),
    {
        &self.lock_handler
    }

    /// Mutable access to the digital input handler.
    pub fn get_digital_handler_mut(&mut self) -> (r: &mut DigitalInputHandler)
        ensures
            *r == old(self).spec_digital(),
            final(self).spec_digital() == *final(r),
            final(self).spec_analog() == old(self).spec_analog(),
            final(self).spec_socd() == old(self).spec_socd(),
            final(self).spec_lock() == old(self).spec_lock(),
            final(self).spec_state() == old(self).spec_state(),
    {
        &mut self.digital_handler
    }

    /// Mutable access to the analog input handler.
    pub fn get_analog_handler_mut(&mut self) -> (r: &mut AnalogInputHandler)
        ensures
            *r == old(self).spec_analog(),
            final(self).spec_analog() == *final(r),
            final(self).spec_digital() == old(self).spec_digital(),
            final(self).spec_socd() == old(self).spec_socd(),
            final(self).spec_lock() == old(self).spec_lock(),
            final(self).spec_state() == old(self).spec_state(),
    {
        &mut self.analog_handler
    }

    /// Mutable access to the SOCD resolver.
    pub fn get_socd_handler_mut(&mut self) -> (r: &mut SocdHandler)
        ensures
            *r == old(self).spec_socd(),
            final(self).spec_socd() == *final(r),
            final(self).spec_digital() == old(self).spec_digital(),
            final(self).spec_analog() == old(self).spec_analog(),
            final(self).spec_lock() == old(self).spec_lock(),
            final(self).spec_state() == old(self).spec_state(),
    {
        &mut self.socd_handler
    }

    /// Mutable access to the lock handler.
    pub fn get_lock_handler_mut(&mut self) -> (r: &mut LockHandler)
        ensures
            *r == old(self).spec_lock(),
            final(self).spec_lock() == *final(r),
            final(self).spec_digital() == old(self).spec_digital(),
            final(self).spec_analog() == old(self).spec_analog(),
            final(self).spec_socd() == old(self).spec_socd(),
            final(self).spec_state() == old(self).spec_state(),
    {
        &mut self.lock_handler
    }

    /// Reset the snapshot to neutral; the handlers keep their state.
    pub fn reset(&mut self)
        requires
            old(self).wf(),
        ensures
            final(self).wf(),
            forall|j: int|
                0 <= j < 14 ==> (#[trigger] final(self).spec_state().button_states@[j]) == false,
            forall|k: int|
                0 <= k < 4 ==> (#[trigger] final(self).spec_state().dpad_states@[k]) == false,
            final(self).spec_state().left_stick == (128u8, 128u8),
            final(self).spec_state().right_stick == (128u8, 128u8),
            final(self).spec_digital() == old(self).spec_digital(),
            final(self).spec_analog() == old(self).spec_analog(),
            final(self).spec_socd() == old(self).spec_socd(),
            final(self).spec_lock() == old(self).spec_lock(),
    {
        self.state = ControllerState::new();
    }
}

} // verus!
