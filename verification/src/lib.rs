//! Driver for the request/response handshake between a rollup application and its device.

use vstd::prelude::*;

pub mod text;
pub mod error;
pub mod codec;
pub mod validate;
pub mod types;
pub mod driver;
pub mod printout;

verus! {

/// Request type the device reports for a state-advancing input.
pub const REQUEST_TYPE_ADVANCE_STATE: u32 = 0;

/// Request type the device reports for a read-only query.
pub const REQUEST_TYPE_INSPECT_STATE: u32 = 1;

/// Number of bytes in an account address.
pub const CARTESI_ROLLUP_ADDRESS_SIZE: u32 = 20;

} // verus!
