//! The GPIO capsule's numbers.

use vstd::prelude::*;

verus! {

/// The driver number of the GPIO capsule.
pub const DRIVER_NUM: u32 = 0x4;

/// The subscribe id on which the capsule reports pin interrupts.
pub const SUBSCRIBE_CALLBACK: u32 = 0x0;

} // verus!
