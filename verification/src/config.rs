//! Named configuration lookups: pin assignments and SOCD pair rules.
//!
//! The controller's wiring and default SOCD policies are fixed tables;
//! these functions resolve a name to its pin number, or an opposing
//! direction pair to the name of the policy that governs it.

use vstd::prelude::*;
use crate::text::str_eq;

verus! {

/// Configuration failures.
#[derive(Clone, Copy, Debug)]
pub enum ConfigError {
    /// A required pin is missing from the configuration.
    MissingPin(&'static str),
    /// A required SOCD rule is missing.
    MissingRule(&'static str),
    /// A configuration value is not valid for its setting.
    InvalidValue(&'static str, &'static str),
}

/// The digital pin wired to each named button, in the default pinout.
pub open spec fn spec_digital_pin(name: Seq<char>) -> Option<u8> {
    if name == "a"@ {
        Some(2u8)
    } else if name == "b"@ {
        Some(3u8)
    } else if name == "x"@ {
        Some(4u8)
    } else if name == "y"@ {
        Some(5u8)
    } else if name == "l"@ {
        Some(6u8)
    } else if name == "r"@ {
        Some(7u8)
    } else if name == "zl"@ {
        Some(8u8)
    } else if name == "zr"@ {
        Some(9u8)
    } else if name == "plus"@ {
        Some(10u8)
    } else if name == "minus"@ {
        Some(11u8)
    } else if name == "home"@ {
        Some(12u8)
    } else if name == "capture"@ {
        Some(14u8)
    } else if name == "l3"@ {
        Some(15u8)
    } else if name == "r3"@ {
        Some(16u8)
    } else if name == "up"@ {
        Some(17u8)
    } else if name == "down"@ {
        Some(18u8)
    } else if name == "left"@ {
        Some(19u8)
    } else if name == "right"@ {
        Some(20u8)
    } else {
        None
    }
}

/// The ADC pin carrying each named stick axis.
pub open spec fn spec_analog_pin(name: Seq<char>) -> Option<u8> {
    if name == "left_x"@ {
        Some(21u8)
    } else if name == "left_y"@ {
        Some(22u8)
    } else if name == "right_x"@ {
        Some(23u8)
    } else if name == "right_y"@ {
        Some(24u8)
    } else {
        None
    }
}

/// The pin of each named special input.
pub open spec fn spec_special_pin(name: Seq<char>) -> Option<u8> {
    if name == "lock_pin"@ {
        Some(33u8)
    } else {
        None
    }
}

/// The name of the SOCD policy configured for the pair of opposing
/// directions `{a, b}`: neutral for left/right, up-priority for up/down,
/// and the safe neutral default for anything unrecognised.
pub open spec fn spec_socd_rule(a: Seq<char>, b: Seq<char>) -> Seq<char> {
    if (a == "left"@ && b == "right"@) || (a == "right"@ && b == "left"@) {
        "neutral"@
    } else if (a == "up"@ && b == "down"@) || (a == "down"@ && b == "up"@) {
        "up-priority"@
    } else {
        "neutral"@
    }
}

/// Look up a digital button pin by name.
pub fn get_digital_pin_by_name(name: &str) -> (r: Option<u8>)
    ensures
        r == spec_digital_pin(name@),
{
    if str_eq(name, "a") {
        Some(2)
    } else if str_eq(name, "b") {
        Some(3)
    } else if str_eq(name, "x") {
        Some(4)
    } else if str_eq(name, "y") {
        Some(5)
    } else if str_eq(name, "l") {
        Some(6)
    } else if str_eq(name, "r") {
        Some(7)
    } else if str_eq(name, "zl") {
        Some(8)
    } else if str_eq(name, "zr") {
        Some(9)
    } else if str_eq(name, "plus") {
        Some(10)
    } else if str_eq(name, "minus") {
        Some(11)
    } else if str_eq(name, "home") {
        Some(12)
    } else if str_eq(name, "capture") {
        Some(14)
    } else if str_eq(name, "l3") {
        Some(15)
    } else if str_eq(name, "r3") {
        Some(16)
    } else if str_eq(name, "up") {
        Some(17)
    } else if str_eq(name, "down") {
        Some(18)
    } else if str_eq(name, "left") {
        Some(19)
    } else if str_eq(name, "right") {
        Some(20)
    } else {
        None
    }
}

/// Look up a stick axis pin by name.
pub fn get_analog_pin_by_name(name: &str) -> (r: Option<u8>)
    ensures
        r == spec_analog_pin(name@),
{
    if str_eq(name, "left_x") {
        Some(21)
    } else if str_eq(name, "left_y") {
        Some(22)
    } else if str_eq(name, "right_x") {
        Some(23)
    } else if str_eq(name, "right_y") {
        Some(24)
    } else {
        None
    }
}

/// Look up a special input pin by name.
pub fn get_special_pin_by_name(name: &str) -> (r: Option<u8>)
    ensures
        r == spec_special_pin(name@),
{
    if str_eq(name, "lock_pin") {
        Some(33)
    } else {
        None
    }
}

/// Name the SOCD policy governing the pair of directions `{input1,
/// input2}`, in either order; unrecognised pairs fall back to the safe
/// neutral policy.
pub fn resolve_socd_conflict(input1: &str, input2: &str) -> (r: &'static str)
    ensures
        r@ == spec_socd_rule(input1@, input2@),
{
    if (str_eq(input1, "left") && str_eq(input2, "right")) || (str_eq(input1, "right") && str_eq(
        input2,
        "left",
    )) {
        "neutral"
    } else if (str_eq(input1, "up") && str_eq(input2, "down")) || (str_eq(input1, "down")
        && str_eq(input2, "up")) {
        "up-priority"
    } else {
        "neutral"
    }
}

} // verus!
