//! Adapter between a generic block-I/O subsystem and vendor SD/MMC/eMMC
//! host-controller libraries: buffer validation, reserved-offset translation,
//! error classification, and clock-rate negotiation for one board variant.

use vstd::prelude::*;

pub mod adapter;
pub mod buffer;
pub mod clk;
pub mod errors;
pub mod probe;

verus! {

/// Marker for the kernel services (timed busy-waiting) that the surrounding
/// runtime supplies to the vendor host-controller libraries.
pub struct KernelImpl;

} // verus!
