//! Structured diagnostics: error classes and panic-message classification.
//!
//! Failures are reported as an [`ErrorType`]; how an error class is shown
//! to a person (an LED blink pattern, a log line) is the embedding layer's
//! concern.

use vstd::prelude::*;
use crate::text::{spec_str_contains, str_contains};

verus! {

/// The classes of failure the firmware distinguishes.
#[derive(Clone, Copy, PartialEq, Eq, Structural, Debug)]
pub enum ErrorType {
    /// A CPU fault condition.
    HardFault,
    /// A memory allocation or access failure.
    MemoryError,
    /// A USB initialisation or communication failure.
    UsbError,
    /// A peripheral or subsystem initialisation failure.
    InitError,
    /// A missing or invalid configuration value.
    ConfigError,
    /// Anything unclassified.
    Other,
}

/// The display name of each error class.
pub open spec fn spec_error_type_name(error_type: ErrorType) -> Seq<char> {
    match error_type {
        ErrorType::HardFault => "Hard Fault"@,
        ErrorType::MemoryError => "Memory Error"@,
        ErrorType::UsbError => "USB Error"@,
        ErrorType::InitError => "Init Error"@,
        ErrorType::ConfigError => "Config Error"@,
        ErrorType::Other => "Other Error"@,
    }
}

/// The class inferred from a panic message, by the first keyword found.
pub open spec fn spec_infer_error_type(message: Seq<char>) -> ErrorType {
    if spec_str_contains(message, "memory"@) || spec_str_contains(message, "allocation"@) {
        ErrorType::MemoryError
    } else if spec_str_contains(message, "usb"@) || spec_str_contains(message, "USB"@) {
        ErrorType::UsbError
    } else if spec_str_contains(message, "init"@) || spec_str_contains(
        message,
        "initialization"@,
    ) {
        ErrorType::InitError
    } else if spec_str_contains(message, "config"@) || spec_str_contains(
        message,
        "configuration"@,
    ) {
        ErrorType::ConfigError
    } else if spec_str_contains(message, "fault"@) || spec_str_contains(message, "Fault"@) {
        ErrorType::HardFault
    } else {
        ErrorType::Other
    }
}

/// The display name of an error class.
pub fn error_type_name(error_type: ErrorType) -> (r: &'static str)
    ensures
        r@ == spec_error_type_name(error_type),
{
    match error_type {
        ErrorType::HardFault => "Hard Fault",
        ErrorType::MemoryError => "Memory Error",
        ErrorType::UsbError => "USB Error",
        ErrorType::InitError => "Init Error",
        ErrorType::ConfigError => "Config Error",
        ErrorType::Other => "Other Error",
    }
}

/// Classify a panic message by the keywords it contains.
pub fn infer_error_type(message: &str) -> (r: ErrorType)
    ensures
        r == spec_infer_error_type(message@),
{
    if str_contains(message, "memory") || str_contains(message, "allocation") {
        ErrorType::MemoryError
    } else if str_contains(message, "usb") || str_contains(message, "USB") {
        ErrorType::UsbError
    } else if str_contains(message, "init") || str_contains(message, "initialization") {
        ErrorType::InitError
    } else if str_contains(message, "config") || str_contains(message, "configuration") {
        ErrorType::ConfigError
    } else if str_contains(message, "fault") || str_contains(message, "Fault") {
        ErrorType::HardFault
    } else {
        ErrorType::Other
    }
}

} // verus!
