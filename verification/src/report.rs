//! The fixed 8-byte HID input report.
//!
//! The wire contract: byte 0 holds button bits 0-7, byte 1 bits 8-15,
//! byte 2 the HAT value (0-8, low nibble, high nibble zero), byte 3 is
//! padding, and bytes 4-7 are the four stick axes with 128 as centre.

use vstd::prelude::*;

verus! {

/// The value of a button bit within its byte: bit `i` of the byte weighs
/// `2^i` when the button is pressed.
pub open spec fn spec_button_bit(pressed: bool, weight: u8) -> u8 {
    if pressed {
        weight
    } else {
        0
    }
}

/// The low button byte: buttons 0-7 packed with button `i` at bit `i`.
pub open spec fn spec_buttons_low(buttons: Seq<bool>) -> u8 {
    (spec_button_bit(buttons[0], 1) + spec_button_bit(buttons[1], 2) + spec_button_bit(
        buttons[2],
        4,
    ) + spec_button_bit(buttons[3], 8) + spec_button_bit(buttons[4], 16) + spec_button_bit(
        buttons[5],
        32,
    ) + spec_button_bit(buttons[6], 64) + spec_button_bit(buttons[7], 128)) as u8
}

/// The high button byte: buttons 8-15 packed with button `8 + i` at bit
/// `i`.
pub open spec fn spec_buttons_high(buttons: Seq<bool>) -> u8 {
    (spec_button_bit(buttons[8], 1) + spec_button_bit(buttons[9], 2) + spec_button_bit(
        buttons[10],
        4,
    ) + spec_button_bit(buttons[11], 8) + spec_button_bit(buttons[12], 16) + spec_button_bit(
        buttons[13],
        32,
    ) + spec_button_bit(buttons[14], 64) + spec_button_bit(buttons[15], 128)) as u8
}

/// The contribution of one button to its packed byte.
fn button_bit(pressed: bool, weight: u8) -> (r: u8)
    ensures
        r == spec_button_bit(pressed, weight),
        r <= weight,
{
    if pressed {
        weight
    } else {
        0
    }
}

/// Pack buttons 0-7 into the low report byte.
fn pack_low(buttons: &[bool; 16]) -> (r: u8)
    ensures
        r == spec_buttons_low(buttons@),
{
    button_bit(buttons[0], 1) + button_bit(buttons[1], 2) + button_bit(buttons[2], 4) + button_bit(
        buttons[3],
        8,
    ) + button_bit(buttons[4], 16) + button_bit(buttons[5], 32) + button_bit(buttons[6], 64)
        + button_bit(buttons[7], 128)
}

/// Pack buttons 8-15 into the high report byte.
fn pack_high(buttons: &[bool; 16]) -> (r: u8)
    ensures
        r == spec_buttons_high(buttons@),
{
    button_bit(buttons[8], 1) + button_bit(buttons[9], 2) + button_bit(buttons[10], 4)
        + button_bit(buttons[11], 8) + button_bit(buttons[12], 16) + button_bit(buttons[13], 32)
        + button_bit(buttons[14], 64) + button_bit(buttons[15], 128)
}

/// The HID report descriptor advertising the 8-byte input report layout:
/// 16 button bits, a 4-bit HAT with 4 reserved bits, four 8-bit axes and
/// one constant vendor byte.
pub open spec fn spec_report_descriptor() -> Seq<u8> {
    seq![
        0x05u8, 0x01,  // usage page: generic desktop
        0x09, 0x05,  // usage: joystick
        0xA1, 0x01,  // collection: application
        // 16 button bits
        0x15, 0x00,  // logical minimum 0
        0x25, 0x01,  // logical maximum 1
        0x75, 0x01,  // report size 1
        0x95, 0x10,  // report count 16
        0x05, 0x09,  // usage page: button
        0x19, 0x01,  // usage minimum: button 1
        0x29, 0x10,  // usage maximum: button 16
        0x81, 0x02,  // input: data, variable, absolute
        // HAT switch, 4 bits
        0x05, 0x01,  // usage page: generic desktop
        0x25, 0x07,  // logical maximum 7
        0x46, 0x3B, 0x01,  // physical maximum 315
        0x75, 0x04,  // report size 4
        0x95, 0x01,  // report count 1
        0x65, 0x14,  // unit: degrees
        0x09, 0x39,  // usage: hat switch
        0x81, 0x42,  // input: data, variable, absolute, null state
        // reserved, 4 bits
        0x75, 0x04,  // report size 4
        0x95, 0x01,  // report count 1
        0x81, 0x03,  // input: constant, variable, absolute
        // four 8-bit stick axes
        0x15, 0x00,  // logical minimum 0
        0x25, 0xFF,  // logical maximum 255
        0x75, 0x08,  // report size 8
        0x95, 0x04,  // report count 4
        0x05, 0x01,  // usage page: generic desktop
        0x09, 0x30,  // usage: x
        0x09, 0x31,  // usage: y
        0x09, 0x32,  // usage: z
        0x09, 0x35,  // usage: rz
        0x81, 0x02,  // input: data, variable, absolute
        // one constant vendor byte
        0x15, 0x00,  // logical minimum 0
        0x25, 0xFF,  // logical maximum 255
        0x75, 0x08,  // report size 8
        0x95, 0x01,  // report count 1
        0x81, 0x03,  // input: constant, variable, absolute
        0xC0,  // end collection
    ]
}

/// The HID report descriptor for [`SwitchProReport`].
pub struct SwitchProReportDescriptor {}

impl SwitchProReportDescriptor {
    /// The descriptor bytes handed to the USB transport at enumeration.
    pub fn desc() -> (r: [u8; 76])
        ensures
            r@ =~= spec_report_descriptor(),
    {
        [
            0x05, 0x01, 0x09, 0x05, 0xA1, 0x01, 0x15, 0x00, 0x25, 0x01, 0x75, 0x01, 0x95, 0x10,
            0x05, 0x09, 0x19, 0x01, 0x29, 0x10, 0x81, 0x02, 0x05, 0x01, 0x25, 0x07, 0x46, 0x3B,
            0x01, 0x75, 0x04, 0x95, 0x01, 0x65, 0x14, 0x09, 0x39, 0x81, 0x42, 0x75, 0x04, 0x95,
            0x01, 0x81, 0x03, 0x15, 0x00, 0x25, 0xFF, 0x75, 0x08, 0x95, 0x04, 0x05, 0x01, 0x09,
            0x30, 0x09, 0x31, 0x09, 0x32, 0x09, 0x35, 0x81, 0x02, 0x15, 0x00, 0x25, 0xFF, 0x75,
            0x08, 0x95, 0x01, 0x81, 0x03, 0xC0,
        ]
    }
}

/// One controller input report: 16 button states, the HAT direction, the
/// four stick axes and one byte of vendor data that rides outside the
/// 8-byte input report.
#[derive(Clone, Copy, Debug)]
pub struct SwitchProReport {
    /// The 16 button bits; indices 0-13 are in report order, 14 and 15
    /// are reserved and stay clear in normal use.
    pub buttons: [bool; 16],
    /// HAT direction: 0 = north through 7 = north-west, 8 = released.
    pub hat: u8,
    /// Left stick X, 0-255 with 128 as centre.
    pub left_stick_x: u8,
    /// Left stick Y, 0-255 with 128 as centre.
    pub left_stick_y: u8,
    /// Right stick X, 0-255 with 128 as centre.
    pub right_stick_x: u8,
    /// Right stick Y, 0-255 with 128 as centre.
    pub right_stick_y: u8,
    /// Vendor-specific data; not part of the 8-byte input report.
    pub vendor_spec: u8,
}

impl SwitchProReport {
    /// A neutral report: nothing pressed, HAT released, sticks centred.
    pub fn new() -> (r: SwitchProReport)
        ensures
            forall|i: int| 0 <= i < 16 ==> (#[trigger] r.buttons@[i]) == false,
            r.hat == 8,
            r.left_stick_x == 128,
            r.left_stick_y == 128,
            r.right_stick_x == 128,
            r.right_stick_y == 128,
            r.vendor_spec == 0,
    {
        SwitchProReport {
            buttons: [false; 16],
            hat: 8,
            left_stick_x: 128,
            left_stick_y: 128,
            right_stick_x: 128,
            right_stick_y: 128,
            vendor_spec: 0,
        }
    }

    /// Serialise the report into its 8-byte wire form: button bytes, HAT
    /// (clamped to the released value 8 should the field ever be out of
    /// range), one padding byte, then the four stick axes.
    pub fn to_bytes(&self) -> (r: [u8; 8])
        ensures
            r@[0] == spec_buttons_low(self.buttons@),
            r@[1] == spec_buttons_high(self.buttons@),
            r@[2] == if self.hat <= 8 {
                self.hat
            } else {
                8
            },
            r@[3] == 0,
            r@[4] == self.left_stick_x,
            r@[5] == self.left_stick_y,
            r@[6] == self.right_stick_x,
            r@[7] == self.right_stick_y,
    {
        let low = pack_low(&self.buttons);
        let high = pack_high(&self.buttons);

        let hat_value = if self.hat <= 8 {
            self.hat
        } else {
            8
        };

        [
            low,
            high,
            hat_value,
            0,
            self.left_stick_x,
            self.left_stick_y,
            self.right_stick_x,
            self.right_stick_y,
        ]
    }

    /// Set one button bit by report index; indices past the 16 button bits
    /// are ignored rather than failing.
    pub fn set_button(&mut self, index: usize, pressed: bool)
        ensures
            index < 16 ==> final(self).buttons@ =~= old(self).buttons@.update(
                index as int,
                pressed,
            ),
            index >= 16 ==> final(self).buttons@ =~= old(self).buttons@,
            final(self).hat == old(self).hat,
            final(self).left_stick_x == old(self).left_stick_x,
            final(self).left_stick_y == old(self).left_stick_y,
            final(self).right_stick_x == old(self).right_stick_x,
            final(self).right_stick_y == old(self).right_stick_y,
            final(self).vendor_spec == old(self).vendor_spec,
    {
        if index < 16 {
            self.buttons[index] = pressed;
        }
    }

    /// Set the HAT direction; any value past 7 stores the released value 8.
    pub fn set_hat(&mut self, direction: u8)
        ensures
            final(self).hat == if direction <= 7 {
                direction
            } else {
                8
            },
            final(self).buttons@ =~= old(self).buttons@,
            final(self).left_stick_x == old(self).left_stick_x,
            final(self).left_stick_y == old(self).left_stick_y,
            final(self).right_stick_x == old(self).right_stick_x,
            final(self).right_stick_y == old(self).right_stick_y,
            final(self).vendor_spec == old(self).vendor_spec,
    {
        self.hat = if direction <= 7 {
            direction
        } else {
            8
        };
    }

    /// Set the left stick axes.
    pub fn set_left_stick(&mut self, x: u8, y: u8)
        ensures
            final(self).left_stick_x == x,
            final(self).left_stick_y == y,
            final(self).buttons@ =~= old(self).buttons@,
            final(self).hat == old(self).hat,
            final(self).right_stick_x == old(self).right_stick_x,
            final(self).right_stick_y == old(self).right_stick_y,
            final(self).vendor_spec == old(self).vendor_spec,
    {
        self.left_stick_x = x;
        self.left_stick_y = y;
    }

    /// Set the right stick axes.
    pub fn set_right_stick(&mut self, x: u8, y: u8)
        ensures
            final(self).right_stick_x == x,
            final(self).right_stick_y == y,
            final(self).buttons@ =~= old(self).buttons@,
            final(self).hat == old(self).hat,
            final(self).left_stick_x == old(self).left_stick_x,
            final(self).left_stick_y == old(self).left_stick_y,
            final(self).vendor_spec == old(self).vendor_spec,
    {
        self.right_stick_x = x;
        self.right_stick_y = y;
    }

    /// Set the vendor-specific byte.
    pub fn set_vendor_data(&mut self, data: u8)
        ensures
            final(self).vendor_spec == data,
            final(self).buttons@ =~= old(self).buttons@,
            final(self).hat == old(self).hat,
            final(self).left_stick_x == old(self).left_stick_x,
            final(self).left_stick_y == old(self).left_stick_y,
            final(self).right_stick_x == old(self).right_stick_x,
            final(self).right_stick_y == old(self).right_stick_y,
    {
        self.vendor_spec = data;
    }
}

} // verus!
