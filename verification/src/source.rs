//! What the external source answers: the order book of one instrument, of
//! which the function reads the mark volatility and the time.

use crate::fixed_point::Measurement;
use vstd::prelude::*;

verus! {

/// The part of an answer that the function reads.
#[derive(Clone, Copy, Debug, PartialEq, Eq)]
pub struct DeribitRespnseInner {
    /// The mark implied volatility.
    pub mark_iv: Measurement,
    /// Seconds since the Unix epoch.
    pub timestamp: u64,
}

/// One answer of the source.
#[derive(Clone, Copy, Debug, PartialEq, Eq)]
pub struct DeribitResponse {
    pub result: DeribitRespnseInner,
}

} // verus!
