//! Attested off-chain function: turns one market observation into a
//! fixed-point callback for an on-chain receiver and bounds its emission.

pub mod abi;
pub mod address;
pub mod callback;
pub mod decimal;
pub mod emission;
pub mod executor;
pub mod fixed_point;
pub mod hash;
pub mod identity;
pub mod params;
pub mod source;
