//! Analog stick processing: deadzone, low-pass filter and range mapping.
//!
//! An [`AnalogInputHandler`] turns raw ADC readings into the 0-255 range
//! the report expects, with 128 as the centre.  Each axis is deadzoned
//! around its calibrated centre (snapping to the centre and removing the
//! deadzone width from the remaining offset, so there is no jump at the
//! boundary), smoothed with an exponential low-pass filter in fixed-point
//! arithmetic, and mapped through two independent linear segments so that
//! an asymmetric physical range still centres at 128.  Degenerate
//! calibration (a zero-width segment) maps to the centre instead of
//! dividing by zero; every step is total.

use vstd::prelude::*;
use vstd::arithmetic::div_mod::{lemma_div_is_ordered, lemma_div_multiples_vanish};

verus! {

/// Denominator of the filter coefficient: an `alpha` of `FILTER_SCALE`
/// passes samples straight through, 0 freezes the filter.
pub const FILTER_SCALE: u16 = 256;

/// The two analog sticks.
#[derive(Clone, Copy, PartialEq, Eq, Structural, Debug)]
pub enum AnalogStick {
    Left,
    Right,
}

/// Deadzone around the calibrated centre: a reading within `deadzone` of
/// `center` snaps to the centre; anything further has the deadzone width
/// removed from its offset, keeping the output continuous at the boundary.
pub open spec fn spec_deadzone(value: u16, center: u16, deadzone: u16) -> u16 {
    if value < center {
        if center - value < deadzone {
            center
        } else {
            (value + deadzone) as u16
        }
    } else {
        if value - center < deadzone {
            center
        } else {
            (value - deadzone) as u16
        }
    }
}

/// One step of the exponential low-pass filter, in fixed-point arithmetic
/// with denominator [`FILTER_SCALE`]: the new memory is the old one
/// weighted by `FILTER_SCALE - alpha` plus the sample weighted by `alpha`.
pub open spec fn spec_filter_step(prev: u16, sample: u16, alpha: u16) -> u16 {
    ((prev * (FILTER_SCALE - alpha) + sample * alpha) / (FILTER_SCALE as int)) as u16
}

/// Piecewise-linear mapping of an axis value into 0-255: readings below
/// the centre map `[min, center]` onto `[0, 128]`, readings at or above it
/// map `[center, max]` onto `[128, 255]`; a zero-width segment maps to the
/// centre value 128, and readings beyond the calibrated bounds clamp.
pub open spec fn spec_map_axis(value: u16, center: u16, min_v: u16, max_v: u16) -> u8 {
    if value < center {
        let range = center - min_v;
        if range <= 0 {
            128
        } else {
            let k = (center - value) * 128 / range;
            if k > 128 {
                0
            } else {
                (128 - k) as u8
            }
        }
    } else {
        let range = max_v - center;
        if range <= 0 {
            128
        } else {
            let k = (value - center) * 127 / range;
            if k > 127 {
                255
            } else {
                (128 + k) as u8
            }
        }
    }
}

/// Full processing of one axis reading: deadzone, then filter, then range
/// mapping; returns the mapped byte and the new filter memory.
pub open spec fn spec_process_axis(
    raw: u16,
    center: u16,
    min_v: u16,
    max_v: u16,
    deadzone: u16,
    filtered: u16,
    alpha: u16,
) -> (u8, u16) {
    let dz = spec_deadzone(raw, center, deadzone);
    let f = spec_filter_step(filtered, dz, alpha);
    (spec_map_axis(f, center, min_v, max_v), f)
}

/// The configurable Y polarity: some stick hardware reads low ADC values
/// when the stick points up, so the mapped Y byte can be flipped.
pub open spec fn spec_apply_y_inversion(invert: bool, y: u8) -> u8 {
    if invert {
        (255 - y) as u8
    } else {
        y
    }
}

/// Calibration of one axis: the centre always lies between the bounds.
pub open spec fn spec_axis_wf(min_v: u16, center: u16, max_v: u16) -> bool {
    min_v <= center <= max_v
}

/// Calibration, filter memory and deadzone handling for both sticks.
pub struct AnalogInputHandler {
    left_center_x: u16,
    left_center_y: u16,
    left_min_x: u16,
    left_min_y: u16,
    left_max_x: u16,
    left_max_y: u16,

    right_center_x: u16,
    right_center_y: u16,
    right_min_x: u16,
    right_min_y: u16,
    right_max_x: u16,
    right_max_y: u16,

    deadzone: u16,

    invert_y: bool,

    filter_alpha: u16,
    left_filtered_x: u16,
    left_filtered_y: u16,
    right_filtered_x: u16,
    right_filtered_y: u16,
}

impl AnalogInputHandler {
    /// Calibration of a stick's X axis as (min, center, max).
    pub closed spec fn spec_cal_x(&self, stick: AnalogStick) -> (u16, u16, u16) {
        match stick {
            AnalogStick::Left => (self.left_min_x, self.left_center_x, self.left_max_x),
            AnalogStick::Right => (self.right_min_x, self.right_center_x, self.right_max_x),
        }
    }

    /// Calibration of a stick's Y axis as (min, center, max).
    pub closed spec fn spec_cal_y(&self, stick: AnalogStick) -> (u16, u16, u16) {
        match stick {
            AnalogStick::Left => (self.left_min_y, self.left_center_y, self.left_max_y),
            AnalogStick::Right => (self.right_min_y, self.right_center_y, self.right_max_y),
        }
    }

    /// Filter memory of a stick as (x, y).
    pub closed spec fn spec_filtered(&self, stick: AnalogStick) -> (u16, u16) {
        match stick {
            AnalogStick::Left => (self.left_filtered_x, self.left_filtered_y),
            AnalogStick::Right => (self.right_filtered_x, self.right_filtered_y),
        }
    }

    /// Deadzone width in ADC units.
    pub closed spec fn spec_deadzone_width(&self) -> u16 {
        self.deadzone
    }

    /// Filter coefficient, out of [`FILTER_SCALE`].
    pub closed spec fn spec_alpha(&self) -> u16 {
        self.filter_alpha
    }

    /// Whether mapped Y values are flipped (`255 - y`) before they leave
    /// the handler.
    pub closed spec fn spec_invert_y(&self) -> bool {
        self.invert_y
    }

    /// Every axis is calibrated with its centre between its bounds, and
    /// the filter coefficient stays within scale.
    pub open spec fn wf(&self) -> bool {
        &&& spec_axis_wf(
            self.spec_cal_x(AnalogStick::Left).0,
            self.spec_cal_x(AnalogStick::Left).1,
            self.spec_cal_x(AnalogStick::Left).2,
        )
        &&& spec_axis_wf(
            self.spec_cal_y(AnalogStick::Left).0,
            self.spec_cal_y(AnalogStick::Left).1,
            self.spec_cal_y(AnalogStick::Left).2,
        )
        &&& spec_axis_wf(
            self.spec_cal_x(AnalogStick::Right).0,
            self.spec_cal_x(AnalogStick::Right).1,
            self.spec_cal_x(AnalogStick::Right).2,
        )
        &&& spec_axis_wf(
            self.spec_cal_y(AnalogStick::Right).0,
            self.spec_cal_y(AnalogStick::Right).1,
            self.spec_cal_y(AnalogStick::Right).2,
        )
        &&& self.spec_alpha() <= FILTER_SCALE
    }

    /// A handler calibrated for a 10-bit ADC at rest: centres at 512,
    /// range 0-1023, a deadzone of 50 units, and a filter coefficient of
    /// 77/256 (matching a smoothing factor of about 0.3).
    pub fn new() -> (r: AnalogInputHandler)
        ensures
            r.wf(),
            r.spec_cal_x(AnalogStick::Left) == (0u16, 512u16, 1023u16),
            r.spec_cal_y(AnalogStick::Left) == (0u16, 512u16, 1023u16),
            r.spec_cal_x(AnalogStick::Right) == (0u16, 512u16, 1023u16),
            r.spec_cal_y(AnalogStick::Right) == (0u16, 512u16, 1023u16),
            r.spec_filtered(AnalogStick::Left) == (512u16, 512u16),
            r.spec_filtered(AnalogStick::Right) == (512u16, 512u16),
            r.spec_deadzone_width() == 50,
            r.spec_alpha() == 77,
            r.spec_invert_y() == false,
    {
        AnalogInputHandler {
            left_center_x: 512,
            left_center_y: 512,
            left_min_x: 0,
            left_min_y: 0,
            left_max_x: 1023,
            left_max_y: 1023,

            right_center_x: 512,
            right_center_y: 512,
            right_min_x: 0,
            right_min_y: 0,
            right_max_x: 1023,
            right_max_y: 1023,

            deadzone: 50,

            invert_y: false,

            filter_alpha: 77,
            left_filtered_x: 512,
            left_filtered_y: 512,
            right_filtered_x: 512,
            right_filtered_y: 512,
        }
    }

    /// Set the deadzone width in ADC units.
    pub fn set_deadzone(&mut self, deadzone: u16)
        requires
            old(self).wf(),
        ensures
            final(self).wf(),
            final(self).spec_deadzone_width() == deadzone,
            final(self).spec_alpha() == old(self).spec_alpha(),
            final(self).spec_invert_y() == old(self).spec_invert_y(),
            forall|s: AnalogStick| final(self).spec_cal_x(s) == old(self).spec_cal_x(s),
            forall|s: AnalogStick| final(self).spec_cal_y(s) == old(self).spec_cal_y(s),
            forall|s: AnalogStick| final(self).spec_filtered(s) == old(self).spec_filtered(s),
    {
        self.deadzone = deadzone;
    }

    /// Set the filter coefficient, clamped to [`FILTER_SCALE`]; the scale
    /// itself means no smoothing, 0 freezes the memory.
    pub fn set_filter_strength(&mut self, alpha: u16)
        requires
            old(self).wf(),
        ensures
            final(self).wf(),
            final(self).spec_alpha() == if alpha <= FILTER_SCALE {
                alpha
            } else {
                FILTER_SCALE
            },
            final(self).spec_deadzone_width() == old(self).spec_deadzone_width(),
            final(self).spec_invert_y() == old(self).spec_invert_y(),
            forall|s: AnalogStick| final(self).spec_cal_x(s) == old(self).spec_cal_x(s),
            forall|s: AnalogStick| final(self).spec_cal_y(s) == old(self).spec_cal_y(s),
            forall|s: AnalogStick| final(self).spec_filtered(s) == old(self).spec_filtered(s),
    {
        self.filter_alpha = if alpha <= FILTER_SCALE {
            alpha
        } else {
            FILTER_SCALE
        };
    }

    /// Choose the Y polarity: engaged, mapped Y values leave the handler
    /// as `255 - y`.
    pub fn set_y_inversion(&mut self, invert: bool)
        requires
            old(self).wf(),
        ensures
            final(self).wf(),
            final(self).spec_invert_y() == invert,
            final(self).spec_deadzone_width() == old(self).spec_deadzone_width(),
            final(self).spec_alpha() == old(self).spec_alpha(),
            forall|s: AnalogStick| final(self).spec_cal_x(s) == old(self).spec_cal_x(s),
            forall|s: AnalogStick| final(self).spec_cal_y(s) == old(self).spec_cal_y(s),
            forall|s: AnalogStick| final(self).spec_filtered(s) == old(self).spec_filtered(s),
    {
        self.invert_y = invert;
    }

    /// Raw level of an ADC pin as far as the handler can know it; the real
    /// read is performed by the embedding layer, so this reports the
    /// centre default.
    pub fn read_analog_pin(&self, pin: u8) -> (r: u16)
        ensures
            r == 512,
    {
        512
    }

    /// Reset a stick's centre calibration to the ADC midpoint; to be
    /// called while the stick rests in its neutral position.
    pub fn calibrate_center(&mut self, stick: AnalogStick)
        requires
            old(self).wf(),
            old(self).spec_cal_x(stick).0 <= 512 <= old(self).spec_cal_x(stick).2,
            old(self).spec_cal_y(stick).0 <= 512 <= old(self).spec_cal_y(stick).2,
        ensures
            final(self).wf(),
            final(self).spec_cal_x(stick).1 == 512,
            final(self).spec_cal_y(stick).1 == 512,
            final(self).spec_cal_x(stick).0 == old(self).spec_cal_x(stick).0,
            final(self).spec_cal_x(stick).2 == old(self).spec_cal_x(stick).2,
            final(self).spec_cal_y(stick).0 == old(self).spec_cal_y(stick).0,
            final(self).spec_cal_y(stick).2 == old(self).spec_cal_y(stick).2,
            forall|s: AnalogStick|
                s != stick ==> final(self).spec_cal_x(s) == old(self).spec_cal_x(s)
                    && final(self).spec_cal_y(s) == old(self).spec_cal_y(s),
            forall|s: AnalogStick| final(self).spec_filtered(s) == old(self).spec_filtered(s),
            final(self).spec_deadzone_width() == old(self).spec_deadzone_width(),
            final(self).spec_alpha() == old(self).spec_alpha(),
            final(self).spec_invert_y() == old(self).spec_invert_y(),
    {
        match stick {
            AnalogStick::Left => {
                self.left_center_x = 512;
                self.left_center_y = 512;
            },
            AnalogStick::Right => {
                self.right_center_x = 512;
                self.right_center_y = 512;
            },
        }
    }

    /// Fold one sample into a stick's range calibration: the bounds only
    /// ever widen, so the centre stays inside them.
    pub fn calibrate_range(&mut self, stick: AnalogStick, x: u16, y: u16)
        requires
            old(self).wf(),
        ensures
            final(self).wf(),
            final(self).spec_cal_x(stick).0 == if x < old(self).spec_cal_x(stick).0 {
                x
            } else {
                old(self).spec_cal_x(stick).0
            },
            final(self).spec_cal_x(stick).2 == if x > old(self).spec_cal_x(stick).2 {
                x
            } else {
                old(self).spec_cal_x(stick).2
            },
            final(self).spec_cal_y(stick).0 == if y < old(self).spec_cal_y(stick).0 {
                y
            } else {
                old(self).spec_cal_y(stick).0
            },
            final(self).spec_cal_y(stick).2 == if y > old(self).spec_cal_y(stick).2 {
                y
            } else {
                old(self).spec_cal_y(stick).2
            },
            final(self).spec_cal_x(stick).1 == old(self).spec_cal_x(stick).1,
            final(self).spec_cal_y(stick).1 == old(self).spec_cal_y(stick).1,
            forall|s: AnalogStick|
                s != stick ==> final(self).spec_cal_x(s) == old(self).spec_cal_x(s)
                    && final(self).spec_cal_y(s) == old(self).spec_cal_y(s),
            forall|s: AnalogStick| final(self).spec_filtered(s) == old(self).spec_filtered(s),
            final(self).spec_deadzone_width() == old(self).spec_deadzone_width(),
            final(self).spec_alpha() == old(self).spec_alpha(),
            final(self).spec_invert_y() == old(self).spec_invert_y(),
    {
        match stick {
            AnalogStick::Left => {
                if x < self.left_min_x {
                    self.left_min_x = x;
                }
                if y < self.left_min_y {
                    self.left_min_y = y;
                }
                if x > self.left_max_x {
                    self.left_max_x = x;
                }
                if y > self.left_max_y {
                    self.left_max_y = y;
                }
            },
            AnalogStick::Right => {
                if x < self.right_min_x {
                    self.right_min_x = x;
                }
                if y < self.right_min_y {
                    self.right_min_y = y;
                }
                if x > self.right_max_x {
                    self.right_max_x = x;
                }
                if y > self.right_max_y {
                    self.right_max_y = y;
                }
            },
        }
    }

    /// Process one raw reading of the left stick into report bytes.
    pub fn process_left_stick(&mut self, raw_x: u16, raw_y: u16) -> (r: (u8, u8))
        requires
            old(self).wf(),
        ensures
            final(self).wf(),
            stick_outputs_match(*old(self), *final(self), AnalogStick::Left, raw_x, raw_y, r),
            stick_untouched(*old(self), *final(self), AnalogStick::Right),
            config_unchanged(*old(self), *final(self)),
    {
        self.process_input_left(raw_x, raw_y)
    }

    /// Process one raw reading of the right stick into report bytes.
    pub fn process_right_stick(&mut self, raw_x: u16, raw_y: u16) -> (r: (u8, u8))
        requires
            old(self).wf(),
        ensures
            final(self).wf(),
            stick_outputs_match(*old(self), *final(self), AnalogStick::Right, raw_x, raw_y, r),
            stick_untouched(*old(self), *final(self), AnalogStick::Left),
            config_unchanged(*old(self), *final(self)),
    {
        self.process_input_right(raw_x, raw_y)
    }

    /// Deadzone, filter and map one left-stick reading.
    fn process_input_left(&mut self, raw_x: u16, raw_y: u16) -> (r: (u8, u8))
        requires
            old(self).wf(),
        ensures
            final(self).wf(),
            stick_outputs_match(*old(self), *final(self), AnalogStick::Left, raw_x, raw_y, r),
            stick_untouched(*old(self), *final(self), AnalogStick::Right),
            config_unchanged(*old(self), *final(self)),
    {
        let (mapped_x, fx) = process_axis(
            raw_x,
            self.left_center_x,
            self.left_min_x,
            self.left_max_x,
            self.deadzone,
            self.left_filtered_x,
            self.filter_alpha,
        );
        let (mapped_y, fy) = process_axis(
            raw_y,
            self.left_center_y,
            self.left_min_y,
            self.left_max_y,
            self.deadzone,
            self.left_filtered_y,
            self.filter_alpha,
        );
        self.left_filtered_x = fx;
        self.left_filtered_y = fy;
        let out_y = if self.invert_y {
            255 - mapped_y
        } else {
            mapped_y
        };
        (mapped_x, out_y)
    }

    /// Deadzone, filter and map one right-stick reading.
    fn process_input_right(&mut self, raw_x: u16, raw_y: u16) -> (r: (u8, u8))
        requires
            old(self).wf(),
        ensures
            final(self).wf(),
            stick_outputs_match(*old(self), *final(self), AnalogStick::Right, raw_x, raw_y, r),
            stick_untouched(*old(self), *final(self), AnalogStick::Left),
            config_unchanged(*old(self), *final(self)),
    {
        let (mapped_x, fx) = process_axis(
            raw_x,
            self.right_center_x,
            self.right_min_x,
            self.right_max_x,
            self.deadzone,
            self.right_filtered_x,
            self.filter_alpha,
        );
        let (mapped_y, fy) = process_axis(
            raw_y,
            self.right_center_y,
            self.right_min_y,
            self.right_max_y,
            self.deadzone,
            self.right_filtered_y,
            self.filter_alpha,
        );
        self.right_filtered_x = fx;
        self.right_filtered_y = fy;
        let out_y = if self.invert_y {
            255 - mapped_y
        } else {
            mapped_y
        };
        (mapped_x, out_y)
    }

    /// Process one tick's ADC readings for both sticks, in the order left
    /// X, left Y, right X, right Y; missing entries read as the centre
    /// default 512.
    pub fn update(&mut self, adc_values: &[u16]) -> (r: ((u8, u8), (u8, u8)))
        requires
            old(self).wf(),
        ensures
            final(self).wf(),
            ({
                let lx = spec_adc_value(adc_values@, 0);
                let ly = spec_adc_value(adc_values@, 1);
                let rx = spec_adc_value(adc_values@, 2);
                let ry = spec_adc_value(adc_values@, 3);
                &&& stick_outputs_match(
                    *old(self),
                    *final(self),
                    AnalogStick::Left,
                    lx,
                    ly,
                    r.0,
                )
                &&& stick_outputs_match(
                    *old(self),
                    *final(self),
                    AnalogStick::Right,
                    rx,
                    ry,
                    r.1,
                )
            }),
            config_unchanged(*old(self), *final(self)),
    {
        let left_x = if adc_values.len() > 0 {
            adc_values[0]
        } else {
            512
        };
        let left_y = if adc_values.len() > 1 {
            adc_values[1]
        } else {
            512
        };
        let right_x = if adc_values.len() > 2 {
            adc_values[2]
        } else {
            512
        };
        let right_y = if adc_values.len() > 3 {
            adc_values[3]
        } else {
            512
        };

        let left_stick = self.process_input_left(left_x, left_y);
        let right_stick = self.process_input_right(right_x, right_y);

        (left_stick, right_stick)
    }
}

/// The ADC reading for slot `i`, or the centre default 512 when the tick's
/// value array is too short.
pub open spec fn spec_adc_value(values: Seq<u16>, i: int) -> u16 {
    if i < values.len() {
        values[i]
    } else {
        512
    }
}

/// After processing `stick` with raw readings (`raw_x`, `raw_y`), the
/// outputs and the new filter memory are exactly the deadzone-filter-map
/// pipeline applied to the stick's old state.
pub open spec fn stick_outputs_match(
    pre: AnalogInputHandler,
    post: AnalogInputHandler,
    stick: AnalogStick,
    raw_x: u16,
    raw_y: u16,
    r: (u8, u8),
) -> bool {
    let (min_x, center_x, max_x) = pre.spec_cal_x(stick);
    let (min_y, center_y, max_y) = pre.spec_cal_y(stick);
    let x = spec_process_axis(
        raw_x,
        center_x,
        min_x,
        max_x,
        pre.spec_deadzone_width(),
        pre.spec_filtered(stick).0,
        pre.spec_alpha(),
    );
    let y = spec_process_axis(
        raw_y,
        center_y,
        min_y,
        max_y,
        pre.spec_deadzone_width(),
        pre.spec_filtered(stick).1,
        pre.spec_alpha(),
    );
    &&& r.0 == x.0
    &&& r.1 == spec_apply_y_inversion(pre.spec_invert_y(), y.0)
    &&& post.spec_filtered(stick) == (x.1, y.1)
    &&& post.spec_cal_x(stick) == pre.spec_cal_x(stick)
    &&& post.spec_cal_y(stick) == pre.spec_cal_y(stick)
}

/// The named stick's calibration and filter memory are unchanged.
pub open spec fn stick_untouched(
    pre: AnalogInputHandler,
    post: AnalogInputHandler,
    stick: AnalogStick,
) -> bool {
    &&& post.spec_cal_x(stick) == pre.spec_cal_x(stick)
    &&& post.spec_cal_y(stick) == pre.spec_cal_y(stick)
    &&& post.spec_filtered(stick) == pre.spec_filtered(stick)
}

/// Deadzone width and filter coefficient are unchanged.
pub open spec fn config_unchanged(pre: AnalogInputHandler, post: AnalogInputHandler) -> bool {
    &&& post.spec_deadzone_width() == pre.spec_deadzone_width()
    &&& post.spec_alpha() == pre.spec_alpha()
    &&& post.spec_invert_y() == pre.spec_invert_y()
}

/// Deadzone, filter and map one axis reading; returns the mapped byte and
/// the new filter memory.
fn process_axis(
    raw: u16,
    center: u16,
    min_v: u16,
    max_v: u16,
    deadzone: u16,
    filtered: u16,
    alpha: u16,
) -> (r: (u8, u16))
    requires
        spec_axis_wf(min_v, center, max_v),
        alpha <= FILTER_SCALE,
    ensures
        r == spec_process_axis(raw, center, min_v, max_v, deadzone, filtered, alpha),
{
    let dz = apply_deadzone(raw, center, deadzone);
    let f = filter_step(filtered, dz, alpha);
    let mapped = map_axis(f, center, min_v, max_v);
    (mapped, f)
}

/// Snap readings inside the deadzone to the centre and shift the rest
/// toward it by the deadzone width.
fn apply_deadzone(value: u16, center: u16, deadzone: u16) -> (r: u16)
    ensures
        r == spec_deadzone(value, center, deadzone),
{
    if value < center {
        if center - value < deadzone {
            center
        } else {
            value + deadzone
        }
    } else {
        if value - center < deadzone {
            center
        } else {
            value - deadzone
        }
    }
}

/// One step of the fixed-point exponential low-pass filter.
fn filter_step(prev: u16, sample: u16, alpha: u16) -> (r: u16)
    requires
        alpha <= FILTER_SCALE,
    ensures
        r == spec_filter_step(prev, sample, alpha),
{
    proof {
        assert(prev * (FILTER_SCALE - alpha) + sample * alpha <= 65535 * 256) by (nonlinear_arith)
            requires
                prev <= 65535,
                sample <= 65535,
                alpha <= 256,
        ;
    }
    let weighted: u32 = (prev as u32) * ((FILTER_SCALE - alpha) as u32) + (sample as u32) * (
    alpha as u32);
    let mixed: u32 = weighted / (FILTER_SCALE as u32);
    proof {
        assert(weighted / 256 <= 65535 * 256 / 256) by {
            lemma_div_is_ordered(weighted as int, (65535 * 256) as int, 256);
        }
    }
    mixed as u16
}

/// Map one axis value into 0-255 through the two calibrated segments.
fn map_axis(value: u16, center: u16, min_v: u16, max_v: u16) -> (r: u8)
    requires
        spec_axis_wf(min_v, center, max_v),
    ensures
        r == spec_map_axis(value, center, min_v, max_v),
{
    if value < center {
        let range: u32 = (center - min_v) as u32;
        if range == 0 {
            128
        } else {
            let k: u32 = ((center - value) as u32) * 128 / range;
            if k > 128 {
                0
            } else {
                128 - (k as u8)
            }
        }
    } else {
        let range: u32 = (max_v - center) as u32;
        if range == 0 {
            128
        } else {
            let k: u32 = ((value - center) as u32) * 127 / range;
            if k > 127 {
                255
            } else {
                128 + (k as u8)
            }
        }
    }
}

/// Deadzone idempotence: with the filter memory at rest on the centre, any
/// reading within the deadzone leaves the memory on the centre and maps to
/// exactly 128, for every calibration.
pub proof fn lemma_deadzone_maps_to_center(
    raw: u16,
    center: u16,
    min_v: u16,
    max_v: u16,
    deadzone: u16,
    alpha: u16,
)
    requires
        spec_axis_wf(min_v, center, max_v),
        alpha <= FILTER_SCALE,
        center - deadzone < raw < center + deadzone,
    ensures
        spec_process_axis(raw, center, min_v, max_v, deadzone, center, alpha) == (128u8, center),
{
    assert(spec_deadzone(raw, center, deadzone) == center);
    lemma_filter_fixed_point(center, alpha);
    assert(spec_map_axis(center, center, min_v, max_v) == 128) by {
        if max_v > center {
            lemma_div_multiples_vanish(0, (max_v - center) as int);
        }
    }
}

/// The filter holds a steady signal: feeding the memory's own value back
/// in leaves the memory unchanged, for every coefficient within scale.
pub proof fn lemma_filter_fixed_point(x: u16, alpha: u16)
    requires
        alpha <= FILTER_SCALE,
    ensures
        spec_filter_step(x, x, alpha) == x,
{
    assert(x * (FILTER_SCALE - alpha) + x * alpha == x * 256) by (nonlinear_arith)
        requires
            alpha <= 256,
    ;
    lemma_div_multiples_vanish(x as int, 256);
}

/// Range monotonicity: for a fixed calibration, a larger axis value never
/// maps to a smaller output byte, across the whole range.
pub proof fn lemma_map_axis_monotonic(v1: u16, v2: u16, center: u16, min_v: u16, max_v: u16)
    requires
        spec_axis_wf(min_v, center, max_v),
        v1 <= v2,
    ensures
        spec_map_axis(v1, center, min_v, max_v) <= spec_map_axis(v2, center, min_v, max_v),
{
    if v1 < center && v2 < center {
        let range = (center - min_v) as int;
        if range != 0 {
            lemma_mul_div_ordered((center - v2) as int, (center - v1) as int, 128, range);
        }
    } else if v1 >= center && v2 >= center {
        let range = (max_v - center) as int;
        if range != 0 {
            lemma_mul_div_ordered((v1 - center) as int, (v2 - center) as int, 127, range);
        }
    } else {
        // v1 below the centre, v2 at or above it: the lower segment never
        // exceeds 128 and the upper one never goes below it.
        let range1 = (center - min_v) as int;
        if range1 != 0 {
            lemma_div_nonneg((center - v1) * 128, range1);
        }
        let range2 = (max_v - center) as int;
        if range2 != 0 {
            lemma_div_nonneg((v2 - center) * 127, range2);
        }
    }
}

/// The deadzone never reorders readings: a larger raw value never
/// deadzones to a smaller one.
pub proof fn lemma_deadzone_monotonic(v1: u16, v2: u16, center: u16, deadzone: u16)
    requires
        v1 <= v2,
    ensures
        spec_deadzone(v1, center, deadzone) <= spec_deadzone(v2, center, deadzone),
{
}

/// The filter never reorders samples: with the same memory and
/// coefficient, a larger sample never filters to a smaller value.  With
/// [`lemma_deadzone_monotonic`] and [`lemma_map_axis_monotonic`] the whole
/// pipeline is monotone in the raw reading, for any fixed filter memory.
pub proof fn lemma_filter_monotonic(prev: u16, s1: u16, s2: u16, alpha: u16)
    requires
        alpha <= FILTER_SCALE,
        s1 <= s2,
    ensures
        spec_filter_step(prev, s1, alpha) <= spec_filter_step(prev, s2, alpha),
{
    assert(prev * (FILTER_SCALE - alpha) + s1 * alpha <= prev * (FILTER_SCALE - alpha) + s2
        * alpha <= 65535 * 256) by (nonlinear_arith)
        requires
            s1 <= s2 <= 65535,
            prev <= 65535,
            alpha <= 256,
    ;
    lemma_div_is_ordered(
        prev * (FILTER_SCALE - alpha) + s1 * alpha,
        prev * (FILTER_SCALE - alpha) + s2 * alpha,
        256,
    );
    lemma_div_is_ordered(prev * (FILTER_SCALE - alpha) + s2 * alpha, (65535 * 256) as int, 256);
    lemma_div_nonneg(prev * (FILTER_SCALE - alpha) + s1 * alpha, 256);
}

/// Scaled numerator ordering carries through division: for `a <= b` and a
/// positive factor and divisor, `a * m / d <= b * m / d`.
proof fn lemma_mul_div_ordered(a: int, b: int, m: int, d: int)
    requires
        0 <= a <= b,
        0 <= m,
        0 < d,
    ensures
        a * m / d <= b * m / d,
{
    assert(a * m <= b * m) by (nonlinear_arith)
        requires
            0 <= a <= b,
            0 <= m,
    ;
    lemma_div_is_ordered(a * m, b * m, d);
}

/// Division of a non-negative value by a positive one is non-negative.
proof fn lemma_div_nonneg(a: int, d: int)
    requires
        0 <= a,
        0 < d,
    ensures
        0 <= a / d,
{
    lemma_div_is_ordered(0, a, d);
}

} // verus!
