use vstd::prelude::*;

pub mod codec;
pub mod coin;
pub mod error;
pub mod fee;
pub mod message;
pub mod module;
pub mod order;
pub mod raw_result;
pub mod reply;
pub mod runner;
pub mod signing;
pub mod slinky;

verus! {

/// Smallest gas price, in the fee denomination, that the test chain accepts.
pub const NEUTRON_MIN_GAS_PRICE: u128 = 2500;

} // verus!
