//! Firmware logic for a matrix-scanned mechanical keyboard: packing raw
//! GPIO sense readings into a key bitmask, detecting press/release edges
//! between successive scans, decoding bit indices to symbolic keys, and
//! applying the modifier layers (shift, mod, caps-lock) to produce
//! characters.
//!
//! All hardware access (strobing and sampling the GPIO lines, the polling
//! cadence, character output) lives outside this crate; the functions here
//! are pure and fully specified.

pub mod events;
pub mod key;
pub mod scan;
pub mod state;
