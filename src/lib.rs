//! Encoding of durations as a signed 64-bit count of nanoseconds, and decoding
//! of bare, optional and sequence-shaped duration fields from integer tokens.

use vstd::prelude::*;

pub mod token;
pub mod duration;
pub mod ser;
pub mod de;
pub mod laws;

verus! {

/// Nanoseconds in one second.
pub const NANOS_PER_SEC: u64 = 1_000_000_000;

} // verus!
