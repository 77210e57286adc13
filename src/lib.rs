//! Topology-preserving state-variable filters of first and second order,
//! written once against a numeric capability trait and verified for every
//! representation that provides it.
use vstd::prelude::*;

pub mod units;
pub mod wide_units;

pub mod first_order_iir;
pub mod first_order_iir_wide;
pub mod second_order_iir;

verus! {

/// The largest number of second-order sections a cascade is built from.
pub const MAX_CASCADE_COUNT: usize = 32;

} // verus!
