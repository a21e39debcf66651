//! Input-to-report pipeline for a Nintendo-Switch-compatible game controller.
//!
//! The library turns raw switch and joystick samples into a fixed 8-byte HID
//! report: it debounces digital inputs, resolves simultaneous opposite
//! cardinal direction (SOCD) conflicts on the D-pad, calibrates and filters
//! analog sticks, masks guarded menu buttons while a lock is engaged, and
//! packs the result with the standard HAT-switch encoding.  Every step is a
//! bounded, panic-free computation over fixed-size data, and each public
//! function carries a contract that pins its result down.
//!
//! Reading pins and transmitting reports over USB are the embedding layer's
//! concern; the library only consumes plain samples and produces plain bytes.

pub mod analog;
pub mod config;
pub mod debounce;
pub mod diag;
pub mod digital;
pub mod lock;
pub mod manager;
pub mod report;
pub mod socd;
pub mod text;
