//! The parameter decoder: from the bytes of a request to the parameters
//! that the function declares.

use crate::abi::{abi_decode, kind_of, AbiType, AbiValue};
use crate::address::Address;
use vstd::prelude::*;

verus! {

/// The parameters of an order query: the order's address and a time, the
/// latter an unsigned word, most significant byte first.
#[derive(Clone, Copy, Debug, PartialEq, Eq)]
pub struct Params {
    pub order_id: Address,
    pub timestamp: [u8; 32],
}

/// Bytes that do not hold the parameters that the function declares.
#[derive(Clone, Copy, Debug, PartialEq, Eq)]
pub struct ParameterDecodeError;

/// What a function declares of its request.
#[derive(Clone, Copy, Debug, PartialEq, Eq)]
pub enum ParameterSchema {
    /// The function takes no parameters: every request is accepted.
    NoParameters,
    /// The function takes the parameters of an order query.
    OrderQuery,
}

/// What becomes of a request that does not hold the declared parameters.
#[derive(Clone, Copy, Debug, PartialEq, Eq)]
pub enum DecodePolicy {
    /// The run fails.
    Strict,
    /// The parameters are taken to be all zero.
    ZeroOnError,
}

/// The parameters of one request, decoded.
#[derive(Clone, Copy, Debug, PartialEq, Eq)]
pub enum DecodedParameters {
    Nothing,
    Order(Params),
}

/// Whether every byte is zero.
pub open spec fn all_zero(bytes: Seq<u8>) -> bool {
    forall|i: int| 0 <= i < bytes.len() ==> bytes[i] == 0
}

/// Whether `data` is long enough to hold an order query: two words.
pub open spec fn holds_order_query(data: Seq<u8>) -> bool {
    data.len() >= 64
}

/// Whether `p` is what the first two words of `data` hold: the address in
/// the last twenty bytes of the first, the time in the second.
pub open spec fn is_order_query_of(p: Params, data: Seq<u8>) -> bool {
    &&& p.order_id.bytes@ == data.subrange(12, 32)
    &&& p.timestamp@ == data.subrange(32, 64)
}

impl Params {
    /// Whether these are the parameters that stand in for a request that
    /// could not be decoded: a zero address and a zero time.
    pub open spec fn is_zero(self) -> bool {
        all_zero(self.order_id.bytes@) && all_zero(self.timestamp@)
    }

    /// The zero address and the zero time.
    pub fn zero() -> (r: Params)
        ensures
            r.is_zero(),
    {
        Params { order_id: Address { bytes: [0u8; 20] }, timestamp: [0u8; 32] }
    }

    /// Decodes an order query, or fails where `data` is shorter than its two
    /// words. Bytes after them are ignored, and so are the twelve bytes that
    /// pad the address.
    pub fn decode(data: &[u8]) -> (r: Result<Params, ParameterDecodeError>)
        ensures
            r is Ok <==> holds_order_query(data@),
            r matches Ok(p) ==> is_order_query_of(p, data@),
    {
        let mut types: Vec<AbiType> = Vec::new();
        types.push(AbiType::Address);
        types.push(AbiType::Uint256);
        match abi_decode(&types, data) {
            None => Err(ParameterDecodeError),
            Some(values) => {
                assert(kind_of(values@[0]) == AbiType::Address);
                assert(kind_of(values@[1]) == AbiType::Uint256);
                match (values[0], values[1]) {
                    (AbiValue::Address(bytes), AbiValue::Uint256(timestamp)) => Ok(
                        Params { order_id: Address { bytes }, timestamp },
                    ),
                    _ => Err(ParameterDecodeError),
                }
            },
        }
    }

    /// Decodes an order query, taking a request that does not hold one for
    /// the zero parameters.
    pub fn parse(data: &[u8]) -> (r: Params)
        ensures
            holds_order_query(data@) ==> is_order_query_of(r, data@),
            !holds_order_query(data@) ==> r.is_zero(),
    {
        match Params::decode(data) {
            Ok(p) => p,
            Err(_) => Params::zero(),
        }
    }
}

/// Whether `r` is what a request decodes to under a schema and a policy.
pub open spec fn is_decoding_of(
    schema: ParameterSchema,
    policy: DecodePolicy,
    data: Seq<u8>,
    r: Result<DecodedParameters, ParameterDecodeError>,
) -> bool {
    match schema {
        ParameterSchema::NoParameters => r == Ok::<DecodedParameters, ParameterDecodeError>(
            DecodedParameters::Nothing,
        ),
        ParameterSchema::OrderQuery => if holds_order_query(data) {
            r matches Ok(DecodedParameters::Order(p)) && is_order_query_of(p, data)
        } else if policy == DecodePolicy::Strict {
            r == Err::<DecodedParameters, ParameterDecodeError>(ParameterDecodeError)
        } else {
            r matches Ok(DecodedParameters::Order(p)) && p.is_zero()
        },
    }
}

/// Decodes a request as the function's schema and policy say: a function
/// without parameters accepts every request; an order query is read from the
/// first two words, and a request too short for them fails under the strict
/// policy and stands for the zero parameters under the other.
pub fn decode_request(schema: ParameterSchema, policy: DecodePolicy, data: &[u8]) -> (r: Result<
    DecodedParameters,
    ParameterDecodeError,
>)
    ensures
        is_decoding_of(schema, policy, data@, r),
{
    match schema {
        ParameterSchema::NoParameters => Ok(DecodedParameters::Nothing),
        ParameterSchema::OrderQuery => match policy {
            DecodePolicy::Strict => match Params::decode(data) {
                Ok(p) => Ok(DecodedParameters::Order(p)),
                Err(e) => Err(e),
            },
            DecodePolicy::ZeroOnError => Ok(DecodedParameters::Order(Params::parse(data))),
        },
    }
}

} // verus!
